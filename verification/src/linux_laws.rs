//! What the Linux backend's procedures promise, for every policy.

use crate::abi::MNT_DETACH;
use crate::abi::MS_NODEV;
use crate::abi::MS_NOEXEC;
use crate::abi::MS_NOSUID;
use crate::abi::MS_RDONLY;
use crate::error::CauseView;
use crate::host::Host;
use crate::linux;
use crate::path;
use crate::procedure::OpView;
use crate::procedure::OutcomeView;
use crate::procedure::SessionView;
use crate::procedure::StepView;
use crate::procedure;
use crate::procedure_laws;
use crate::profile::Access;
use crate::profile::FsGrantView;
use crate::profile::ProfileView;
use crate::profile::RestrictionsView;
use crate::profile::SyscallsView;
use crate::script;
use crate::unix::filter::Arch;
use crate::unix::filter;
use crate::unix::hardening;
use crate::unix::landlock_rights::FS_EXECUTE;
use crate::unix::landlock_rights;
use crate::unix::mount_namespace;
use crate::unix::seccomp;
use crate::unix::seccomp_laws;
use crate::unix::syscalls;
use vstd::prelude::*;

verus! {

/// No grant allows setuid execution or device nodes; a read grant is mounted
/// read-only, and a write grant is mounted so that nothing can be executed from
/// it.
pub proof fn lemma_mount_flags(access: Access)
    ensures
        linux::grant_mount_flags(access) & MS_NOSUID == MS_NOSUID,
        linux::grant_mount_flags(access) & MS_NODEV == MS_NODEV,
        access == Access::ReadExec <==> linux::grant_mount_flags(access) & MS_RDONLY == MS_RDONLY,
        access == Access::ReadWrite <==> linux::grant_mount_flags(access) & MS_NOEXEC == MS_NOEXEC,
        linux::grant_mount_flags(access) != 0,
{
    assert((2u64 | 4u64 | 1u64) & 2u64 == 2u64 && (2u64 | 4u64 | 1u64) & 4u64 == 4u64 && (2u64
        | 4u64 | 1u64) & 1u64 == 1u64 && (2u64 | 4u64 | 1u64) & 8u64 == 0u64 && (2u64 | 4u64
        | 1u64) != 0) by (bit_vector);
    assert((2u64 | 4u64 | 8u64) & 2u64 == 2u64 && (2u64 | 4u64 | 8u64) & 4u64 == 4u64 && (2u64
        | 4u64 | 8u64) & 1u64 == 0u64 && (2u64 | 4u64 | 8u64) & 8u64 == 8u64 && (2u64 | 4u64
        | 8u64) != 0) by (bit_vector);
}

/// A read grant lets nothing be written, a write grant lets nothing be
/// executed, and both stay within the rights that the ruleset handles.
pub proof fn lemma_landlock_rights(access: Access)
    ensures
        linux::grant_rights(Access::ReadExec) & landlock_rights::write_rights(linux::LANDLOCK_ABI)
            == 0,
        linux::grant_rights(Access::ReadWrite) & FS_EXECUTE == 0,
        linux::grant_rights(access) & (landlock_rights::read_rights(linux::LANDLOCK_ABI)
            | landlock_rights::write_rights(linux::LANDLOCK_ABI)) == linux::grant_rights(access),
{
    assert(0xDu64 & 0xFFF2u64 == 0u64) by (bit_vector);
    assert(((0xDu64 & !1u64) | 0xFFF2u64) & 1u64 == 0u64) by (bit_vector);
    assert(0xDu64 & (0xDu64 | 0xFFF2u64) == 0xDu64) by (bit_vector);
    assert(((0xDu64 & !1u64) | 0xFFF2u64) & (0xDu64 | 0xFFF2u64) == (0xDu64 & !1u64) | 0xFFF2u64)
        by (bit_vector);
}

/// Whether an operation belongs to the setup of the namespaces: it neither
/// gives up authority nor filters system calls.
pub open spec fn is_setup_op(op: OpView) -> bool {
    !(op is Prctl) && !(op is ClearCapabilities) && !(op is InstallFilter)
}

/// Whether what an operation opens to the worker is `/proc`, `/tmp`, or stands
/// in one of these grants, with the mount flags and the rights of its access.
/// A mount is one of the three new file systems, a bind of `/proc` or of a
/// grant, a remount of either with its flags, or the detachment of `/`.
pub open spec fn is_within_grants(op: OpView, grants: Seq<FsGrantView>) -> bool {
    match op {
        OpView::Mount { fstype: Some(_), .. } => {
            ||| op == mount_namespace::pseudo_mount_op("none"@, linux::staging_bytes(), "tmpfs"@)
            ||| op == mount_namespace::pseudo_mount_op("none"@, linux::staged("tmp"@), "tmpfs"@)
            ||| op == mount_namespace::pseudo_mount_op("proc"@, linux::staged("proc"@), "proc"@)
        },
        OpView::Mount { source: Some(_), fstype: None, .. } => {
            ||| op == mount_namespace::bind_op(
                vstd::utf8::encode_utf8("/proc"@),
                linux::staged("proc"@),
            )
            ||| exists|g: int|
                0 <= g < grants.len() && op == mount_namespace::bind_op(
                    (#[trigger] grants[g]).path,
                    path::joined_under(linux::staging_bytes(), grants[g].path),
                )
        },
        OpView::Mount { source: None, fstype: None, .. } => {
            ||| op == mount_namespace::root_private_ops()[0]
            ||| op == mount_namespace::root_private_ops()[1]
            ||| op == mount_namespace::remount_op(
                linux::staged("proc"@),
                MS_RDONLY | MS_NOSUID | MS_NODEV,
            )
            ||| exists|g: int|
                0 <= g < grants.len() && op == mount_namespace::remount_op(
                    path::joined_under(linux::staging_bytes(), (#[trigger] grants[g]).path),
                    linux::grant_mount_flags(grants[g].access),
                )
        },
        OpView::LandlockAllow { path, rights } => {
            ||| path == vstd::utf8::encode_utf8("/tmp"@) && rights == linux::data_rights()
            ||| exists|g: int|
                0 <= g < grants.len() && (#[trigger] grants[g]).path == path && rights
                    == linux::grant_rights(grants[g].access)
        },
        _ => true,
    }
}

/// Whether every step of a procedure only sets up the namespaces, within these
/// grants.
pub open spec fn stays_within_grants(steps: Seq<StepView>, grants: Seq<FsGrantView>) -> bool {
    forall|i: int|
        0 <= i < steps.len() ==> is_setup_op((#[trigger] steps[i]).op) && is_within_grants(
            steps[i].op,
            grants,
        )
}

proof fn lemma_concat_within(a: Seq<StepView>, b: Seq<StepView>, grants: Seq<FsGrantView>)
    requires
        stays_within_grants(a, grants),
        stays_within_grants(b, grants),
    ensures
        stays_within_grants(a + b, grants),
{
}

proof fn lemma_grant_steps_within(grants: Seq<FsGrantView>, n: int)
    requires
        0 <= n <= grants.len(),
    ensures
        stays_within_grants(linux::all_grant_steps(grants.take(n)), grants),
    decreases n,
{
    if n > 0 {
        let front = grants.take(n);
        let grant = grants[n - 1];
        assert(front.last() == grant);
        assert(front.drop_last() =~= grants.take(n - 1));
        lemma_grant_steps_within(grants, n - 1);
        assert(stays_within_grants(linux::grant_steps(grant), grants));
        lemma_concat_within(
            linux::all_grant_steps(grants.take(n - 1)),
            linux::grant_steps(grant),
            grants,
        );
    }
}

proof fn lemma_landlock_ops_within(grants: Seq<FsGrantView>, n: int)
    requires
        0 <= n <= grants.len(),
    ensures
        forall|i: int|
            0 <= i < linux::landlock_grant_ops(grants.take(n)).len() ==> is_setup_op(
                #[trigger] linux::landlock_grant_ops(grants.take(n))[i],
            ) && is_within_grants(linux::landlock_grant_ops(grants.take(n))[i], grants),
    decreases n,
{
    if n > 0 {
        let front = grants.take(n);
        assert(front.last() == grants[n - 1]);
        assert(front.drop_last() =~= grants.take(n - 1));
        lemma_landlock_ops_within(grants, n - 1);
        let before = linux::landlock_grant_ops(grants.take(n - 1));
        let ops = linux::landlock_grant_ops(front);
        assert forall|i: int| 0 <= i < ops.len() implies is_setup_op(#[trigger] ops[i])
            && is_within_grants(ops[i], grants) by {
            if i < before.len() {
                assert(ops[i] == before[i]);
            } else {
                assert(grants[n - 1].path == front.last().path);
            }
        }
    }
}

/// Default deny: whatever a policy holds, nothing of the file system is opened
/// to the worker but an empty root, `/proc`, an empty `/tmp` and the policy's own
/// grants, each with the access that it gives and at its own place below the new
/// root.
pub proof fn lemma_only_grants_are_opened(policy: ProfileView, host: Host, i: int)
    requires
        0 <= i < linux::apply_steps(policy, host).len(),
    ensures
        is_within_grants(linux::apply_steps(policy, host)[i].op, policy.fs),
{
    lemma_namespace_steps_within(policy);
    lemma_filters_install_only(policy.syscalls, host);
}

proof fn lemma_namespace_steps_within(policy: ProfileView)
    ensures
        stays_within_grants(linux::namespace_steps(policy), policy.fs),
{
    let grants = policy.fs;
    assert(grants.take(grants.len() as int) =~= grants);
    lemma_grant_steps_within(grants, grants.len() as int);
    lemma_landlock_ops_within(grants, grants.len() as int);
    let opening = linux::fs_steps(
        seq![OpView::CreateDirAll(linux::staging_bytes())] + mount_namespace::tmpfs_ops(
            linux::staging_bytes(),
        ),
    );
    let cleanup = script::attempted(
        seq![OpView::RemoveDir(vstd::utf8::encode_utf8("/.old_root"@))],
        0,
    );
    let landlock = script::with_tests(linux::landlock_ops(grants));
    assert(stays_within_grants(opening, grants));
    assert(stays_within_grants(linux::proc_steps(), grants));
    assert(stays_within_grants(linux::fs_steps(linux::pivot_ops()), grants));
    assert(stays_within_grants(cleanup, grants));
    assert(stays_within_grants(landlock, grants)) by {
        assert forall|j: int| 0 <= j < landlock.len() implies is_setup_op(
            (#[trigger] landlock[j]).op,
        ) && is_within_grants(landlock[j].op, grants) by {
            let middle = linux::landlock_grant_ops(grants);
            if 1 <= j < 1 + middle.len() {
                assert(landlock[j].op == middle[j - 1]);
            }
        }
    }
    let bound = linux::all_grant_steps(grants);
    let pivot = linux::fs_steps(linux::pivot_ops());
    lemma_concat_within(opening, bound, grants);
    lemma_concat_within(opening + bound, linux::proc_steps(), grants);
    lemma_concat_within(opening + bound + linux::proc_steps(), pivot, grants);
    lemma_concat_within(opening + bound + linux::proc_steps() + pivot, cleanup, grants);
    lemma_concat_within(
        opening + bound + linux::proc_steps() + pivot + cleanup,
        landlock,
        grants,
    );
    let detached = procedure::required_steps(
        mount_namespace::root_private_ops(),
        "mount_namespace"@,
    );
    assert(stays_within_grants(detached, grants));
    assert(stays_within_grants(linux::network_steps(policy.network), grants));
    lemma_concat_within(detached, linux::network_steps(policy.network), grants);
    lemma_concat_within(
        detached + linux::network_steps(policy.network),
        linux::filesystem_steps(grants),
        grants,
    );
}

proof fn lemma_filters_install_only(policy: SyscallsView, host: Host)
    ensures
        forall|i: int|
            0 <= i < linux::syscall_steps(policy, host).len() ==> {
                let step = #[trigger] linux::syscall_steps(policy, host)[i];
                step.is_required() && (step.op is InstallFilter || step.op is Refuse)
            },
{
}

proof fn lemma_grant_is_bound(grants: Seq<FsGrantView>, g: int) -> (k: int)
    requires
        0 <= g < grants.len(),
    ensures
        0 <= k,
        k + linux::grant_steps(grants[g]).len() <= linux::all_grant_steps(grants).len(),
        linux::all_grant_steps(grants).subrange(k, k + linux::grant_steps(grants[g]).len())
            == linux::grant_steps(grants[g]),
    decreases grants.len(),
{
    let front = linux::all_grant_steps(grants.drop_last());
    let whole = linux::all_grant_steps(grants);
    let block = linux::grant_steps(grants[g]);
    if g == grants.len() - 1 {
        let k = front.len() as int;
        assert(whole.subrange(k, k + block.len()) =~= block);
        k
    } else {
        let k = lemma_grant_is_bound(grants.drop_last(), g);
        assert(grants.drop_last()[g] == grants[g]);
        assert(whole.subrange(k, k + block.len()) =~= front.subrange(k, k + block.len()));
        k
    }
}

/// The steps behind a grant that the kernel can take as a path: the path is
/// required to exist, its place below the new root is created, the path is
/// bound there, and the bind is remounted with the flags of its access.
pub proof fn lemma_grant_steps(grant: FsGrantView)
    requires
        !path::has_nul(grant.path),
    ensures
        linux::grant_steps(grant) == linux::fs_steps(
            seq![
                OpView::PathExists(grant.path),
                OpView::CreateDirAll(path::joined_under(linux::staging_bytes(), grant.path)),
                mount_namespace::bind_op(
                    grant.path,
                    path::joined_under(linux::staging_bytes(), grant.path),
                ),
                mount_namespace::remount_op(
                    path::joined_under(linux::staging_bytes(), grant.path),
                    linux::grant_mount_flags(grant.access),
                ),
            ],
        ),
{
    lemma_mount_flags(grant.access);
    lemma_scaffold_paths();
    path::lemma_join_under_adds_no_nul(linux::staging_bytes(), grant.path);
}

/// Every grant of a policy is honored: its steps stand somewhere in the
/// procedure, in order and with nothing between.
pub proof fn lemma_every_grant_is_bound(policy: ProfileView, host: Host, g: int) -> (k: int)
    requires
        0 <= g < policy.fs.len(),
    ensures
        0 <= k,
        k + linux::grant_steps(policy.fs[g]).len() <= linux::namespace_steps(policy).len(),
        linux::apply_steps(policy, host).subrange(
            k,
            k + linux::grant_steps(policy.fs[g]).len(),
        ) == linux::grant_steps(policy.fs[g]),
{
    let at = lemma_grant_is_bound(policy.fs, g);
    let opening = procedure::required_steps(
        mount_namespace::root_private_ops(),
        "mount_namespace"@,
    ) + linux::network_steps(policy.network);
    let scaffold = linux::fs_steps(
        seq![OpView::CreateDirAll(linux::staging_bytes())] + mount_namespace::tmpfs_ops(
            linux::staging_bytes(),
        ),
    );
    let k = opening.len() + scaffold.len() + at;
    let block = linux::grant_steps(policy.fs[g]);
    let bound = linux::all_grant_steps(policy.fs);
    let steps = linux::apply_steps(policy, host);
    assert forall|j: int| 0 <= j < block.len() implies steps.subrange(k, k + block.len())[j]
        == block[j] by {
        assert(steps[k + j] == bound[at + j]);
        assert(bound.subrange(at, at + block.len())[j] == bound[at + j]);
    }
    assert(steps.subrange(k, k + block.len()) =~= block);
    k
}

proof fn lemma_ascii_has_no_nul(text: Seq<char>)
    requires
        forall|i: int| 0 <= i < text.len() ==> '\0' < #[trigger] text[i] && text[i] <= '\u{7f}',
    ensures
        !path::has_nul(vstd::utf8::encode_utf8(text)),
{
    vstd::utf8::is_ascii_chars_encode_utf8(text);
    let bytes = vstd::utf8::encode_utf8(text);
    assert forall|i: int| 0 <= i < bytes.len() implies bytes[i] != 0 by {
        assert(text[i] as u8 == bytes[i]);
    }
}

/// No path of the scaffold holds a zero byte.
pub proof fn lemma_scaffold_paths()
    ensures
        !path::has_nul(linux::staging_bytes()),
        !path::has_nul(linux::staged("tmp"@)),
        !path::has_nul(linux::staged("proc"@)),
        !path::has_nul(linux::staged(".old_root"@)),
        !path::has_nul(vstd::utf8::encode_utf8("/proc"@)),
        !path::has_nul(vstd::utf8::encode_utf8("/.old_root"@)),
{
    reveal_strlit("/tmp/.sandbox-root");
    reveal_strlit("tmp");
    reveal_strlit("proc");
    reveal_strlit(".old_root");
    reveal_strlit("/proc");
    reveal_strlit("/.old_root");
    lemma_ascii_has_no_nul(linux::STAGING_ROOT@);
    lemma_ascii_has_no_nul("tmp"@);
    lemma_ascii_has_no_nul("proc"@);
    lemma_ascii_has_no_nul(".old_root"@);
    lemma_ascii_has_no_nul("/proc"@);
    lemma_ascii_has_no_nul("/.old_root"@);
    lemma_staged_has_no_nul("tmp"@);
    lemma_staged_has_no_nul("proc"@);
    lemma_staged_has_no_nul(".old_root"@);
}

proof fn lemma_staged_has_no_nul(name: Seq<char>)
    requires
        !path::has_nul(linux::staging_bytes()),
        !path::has_nul(vstd::utf8::encode_utf8(name)),
    ensures
        !path::has_nul(linux::staged(name)),
{
    let root = linux::staging_bytes();
    let rest = vstd::utf8::encode_utf8(name);
    let whole = linux::staged(name);
    assert forall|i: int| 0 <= i < whole.len() implies whole[i] != 0 by {
        if i < root.len() {
            assert(whole[i] == root[i]);
            assert(root.contains(root[i]));
        } else if whole[i] != path::SEPARATOR {
            let j = i - (whole.len() - rest.len());
            assert(whole[i] == rest[j]);
            assert(rest.contains(rest[j]));
        }
    }
}

/// The worker's root is always replaced, even where a policy grants nothing:
/// whatever the policy, an empty `/tmp` is mounted below the staging root, the
/// staging root becomes the root directory, and the old root is detached, and
/// each of these is required.
pub proof fn lemma_root_is_always_replaced(policy: ProfileView, host: Host) -> (k: int)
    ensures
        0 <= k,
        k + 6 <= linux::namespace_steps(policy).len(),
        linux::apply_steps(policy, host).subrange(k, k + 6) == linux::fs_steps(
            seq![
                OpView::CreateDirAll(linux::staged("tmp"@)),
                mount_namespace::pseudo_mount_op("none"@, linux::staged("tmp"@), "tmpfs"@),
                OpView::CreateDirAll(linux::staged(".old_root"@)),
                OpView::PivotRoot {
                    new_root: linux::staging_bytes(),
                    old_root: linux::staged(".old_root"@),
                },
                OpView::ChangeDir(vstd::utf8::encode_utf8("/"@)),
                OpView::Unmount {
                    target: vstd::utf8::encode_utf8("/.old_root"@),
                    options: MNT_DETACH,
                },
            ],
        ),
{
    lemma_scaffold_paths();
    let opening = procedure::required_steps(
        mount_namespace::root_private_ops(),
        "mount_namespace"@,
    ) + linux::network_steps(policy.network);
    let scaffold = linux::fs_steps(
        seq![OpView::CreateDirAll(linux::staging_bytes())] + mount_namespace::tmpfs_ops(
            linux::staging_bytes(),
        ),
    );
    let bound = linux::all_grant_steps(policy.fs);
    let k = (opening.len() + scaffold.len() + bound.len() + linux::proc_steps().len()) as int;
    let pivot = linux::fs_steps(linux::pivot_ops());
    assert(pivot.len() == 6);
    let steps = linux::apply_steps(policy, host);
    assert forall|j: int| 0 <= j < 6 implies steps.subrange(k, k + 6)[j] == pivot[j] by {
        assert(steps[k + j] == pivot[j]);
    }
    k
}

proof fn lemma_concat_avoids(a: Seq<StepView>, b: Seq<StepView>)
    requires
        avoids_network(a),
        avoids_network(b),
    ensures
        avoids_network(a + b),
{
}

/// Whether no step is on a socket or a network interface.
pub open spec fn avoids_network(steps: Seq<StepView>) -> bool {
    forall|i: int|
        0 <= i < steps.len() ==> !((#[trigger] steps[i]).op is OpenSocket)
            && !(steps[i].op is GetInterfaceFlags) && !(steps[i].op is RaiseInterface)
}

proof fn lemma_grants_avoid_network(grants: Seq<FsGrantView>)
    ensures
        avoids_network(linux::all_grant_steps(grants)),
        forall|i: int|
            0 <= i < linux::landlock_grant_ops(grants).len() ==> {
                let op = #[trigger] linux::landlock_grant_ops(grants)[i];
                op is PathExists || op is LandlockAllow
            },
    decreases grants.len(),
{
    if grants.len() > 0 {
        lemma_grants_avoid_network(grants.drop_last());
        assert(avoids_network(linux::grant_steps(grants.last())));
        lemma_concat_avoids(
            linux::all_grant_steps(grants.drop_last()),
            linux::grant_steps(grants.last()),
        );
    }
}

/// The filesystem setup touches no socket and no network interface.
pub proof fn lemma_filesystem_avoids_network(grants: Seq<FsGrantView>)
    ensures
        avoids_network(linux::filesystem_steps(grants)),
{
    lemma_grants_avoid_network(grants);
    let opening = linux::fs_steps(
        seq![OpView::CreateDirAll(linux::staging_bytes())] + mount_namespace::tmpfs_ops(
            linux::staging_bytes(),
        ),
    );
    let bound = linux::all_grant_steps(grants);
    let proc = linux::proc_steps();
    let pivot = linux::fs_steps(linux::pivot_ops());
    let cleanup = script::attempted(
        seq![OpView::RemoveDir(vstd::utf8::encode_utf8("/.old_root"@))],
        0,
    );
    let ops = linux::landlock_ops(grants);
    let landlock = script::with_tests(ops);
    let middle = linux::landlock_grant_ops(grants);
    assert forall|i: int| 0 <= i < landlock.len() implies !((#[trigger] landlock[i]).op
        is OpenSocket) && !(landlock[i].op is GetInterfaceFlags) && !(landlock[i].op
        is RaiseInterface) by {
        assert(landlock[i].op == ops[i]);
        if 1 <= i < 1 + middle.len() {
            assert(ops[i] == middle[i - 1]);
        }
    }
    assert(avoids_network(opening));
    assert(avoids_network(proc));
    assert(avoids_network(pivot));
    assert(avoids_network(cleanup));
    lemma_concat_avoids(opening, bound);
    lemma_concat_avoids(opening + bound, proc);
    lemma_concat_avoids(opening + bound + proc, pivot);
    lemma_concat_avoids(opening + bound + proc + pivot, cleanup);
    lemma_concat_avoids(opening + bound + proc + pivot + cleanup, landlock);
}

/// Any network step stands before the first filesystem step, so a filesystem
/// step that could reach the network is already contained.
pub proof fn lemma_network_before_filesystem(policy: ProfileView, host: Host)
    ensures
        ({
            let steps = linux::apply_steps(policy, host);
            let net = linux::network_steps(policy.network);
            let fs = linux::filesystem_steps(policy.fs);
            &&& steps.len() >= 2 + net.len() + fs.len()
            &&& forall|i: int| 0 <= i < net.len() ==> steps[2 + i] == #[trigger] net[i]
            &&& forall|i: int| 0 <= i < fs.len() ==> steps[2 + net.len() + i] == #[trigger] fs[i]
        }),
{
}

/// The order of the procedure: the namespaces are set up first; then the
/// securebits are locked, before any capability is given up; then the five
/// capability sets are cleared, the process is hardened, and privileges are
/// given up for good, before any filter is installed.
pub proof fn lemma_apply_order(policy: ProfileView, host: Host)
    ensures
        ({
            let steps = linux::apply_steps(policy, host);
            let n = linux::namespace_steps(policy).len() as int;
            &&& steps.len() >= n + 9
            &&& forall|i: int| 0 <= i < n ==> is_setup_op((#[trigger] steps[i]).op)
            &&& steps[n] == procedure::required_step(
                hardening::securebits_op(),
                "securebits"@,
            )
            &&& forall|i: int|
                0 <= i < 5 ==> steps[n + 1 + i] == procedure::required_step(
                    #[trigger] linux::capability_ops()[i],
                    "capabilities"@,
                )
            &&& steps[n + 6] == procedure::required_step(
                hardening::dumpable_off_op(),
                "dumpable"@,
            )
            &&& steps[n + 7] == procedure::required_step(
                hardening::pdeathsig_kill_op(),
                "pdeathsig"@,
            )
            &&& steps[n + 8] == procedure::required_step(
                hardening::no_new_privs_op(),
                "no_new_privs"@,
            )
            &&& forall|i: int|
                n + 9 <= i < steps.len() ==> {
                    let step = #[trigger] steps[i];
                    step.is_required() && (step.op is InstallFilter || step.op is Refuse)
                }
        }),
{
    let n = linux::namespace_steps(policy).len();
    let steps = linux::apply_steps(policy, host);
    lemma_namespace_steps_within(policy);
    assert forall|i: int| 0 <= i < n implies is_setup_op((#[trigger] steps[i]).op) by {
        assert(steps[i] == linux::namespace_steps(policy)[i]);
    }
    lemma_filters_install_only(policy.syscalls, host);
    assert forall|i: int| n + 9 <= i < steps.len() implies {
        let step = #[trigger] steps[i];
        step.is_required() && (step.op is InstallFilter || step.op is Refuse)
    } by {
        assert(steps[i] == linux::syscall_steps(policy.syscalls, host)[i - (n + 9)]);
    }
}

/// Fail-closed: where the walk through the procedure of a policy ends well,
/// every required step of it was performed with success, whatever else the
/// operating system answered.
pub proof fn lemma_applied_means_confined(
    policy: ProfileView,
    host: Host,
    outcomes: Seq<OutcomeView>,
    k: int,
)
    requires
        SessionView::initial(linux::apply_steps(policy, host)).after_all(outcomes).has_succeeded(),
        0 <= k < linux::apply_steps(policy, host).len(),
        linux::apply_steps(policy, host)[k].is_required(),
    ensures
        procedure_laws::was_performed(linux::apply_steps(policy, host), outcomes, k),
{
    linux::lemma_apply_is_sound(policy, host);
    procedure_laws::lemma_success_means_all_required_done(
        linux::apply_steps(policy, host),
        outcomes,
        k,
    );
}

/// A policy whose syscall names cannot be resolved is never applied: no answer
/// of the operating system lets the walk end well.
pub proof fn lemma_unresolved_names_are_never_applied(
    policy: ProfileView,
    host: Host,
    outcomes: Seq<OutcomeView>,
)
    requires
        policy.syscalls matches SyscallsView::Deny(names) ==> seccomp::resolved_denials(
            names,
        ) is Err,
        policy.syscalls matches SyscallsView::Allow(names) ==> seccomp::resolved_allowances(
            names,
        ) is Err,
        !(policy.syscalls is Unfiltered),
    ensures
        !SessionView::initial(linux::apply_steps(policy, host)).after_all(outcomes).has_succeeded(),
{
    let steps = linux::apply_steps(policy, host);
    let filters = linux::syscall_steps(policy.syscalls, host);
    assert(filters.len() == 1);
    assert(steps[steps.len() - 1] == filters[0]);
    linux::lemma_apply_is_sound(policy, host);
    procedure_laws::lemma_refusal_is_never_passed(steps, outcomes, steps.len() - 1);
}

/// A policy that was applied is in force: where the walk ends well, every
/// filter that the policy stands for was installed, by a program that does
/// what the filter says. (Every call of `apply` gives `enforces`.)
pub proof fn lemma_applied_filters_are_in_force(
    policy: ProfileView,
    host: Host,
    outcomes: Seq<OutcomeView>,
    i: int,
) -> (k: int)
    requires
        linux::enforces(policy.syscalls, host),
        SessionView::initial(linux::apply_steps(policy, host)).after_all(outcomes).has_succeeded(),
        0 <= i < linux::policy_filters(policy.syscalls, host).len(),
    ensures
        procedure_laws::was_performed(linux::apply_steps(policy, host), outcomes, k),
        seccomp::installs(
            linux::apply_steps(policy, host)[k].op,
            linux::policy_filters(policy.syscalls, host)[i],
        ),
{
    let steps = linux::apply_steps(policy, host);
    let filters = linux::syscall_steps(policy.syscalls, host);
    let ops = linux::ops_of(filters);
    let start = steps.len() - filters.len();
    lemma_filters_install_only(policy.syscalls, host);
    if seccomp::ends_in_refusal(ops) {
        linux::lemma_apply_is_sound(policy, host);
        procedure_laws::lemma_refusal_is_never_passed(steps, outcomes, steps.len() - 1);
    }
    assert(ops[i] == filters[i].op);
    assert(steps[start + i] == filters[i]);
    lemma_applied_means_confined(policy, host, outcomes, start + i);
    start + i
}

/// Under an applied policy that filters system calls at all, a denylist or an
/// allowlist, every call on the mandatory-deny list is answered with the deny
/// action by a program that was installed, whatever names the policy holds and
/// whatever the arguments are.
pub proof fn lemma_applied_filter_blocks_mandatory_calls(
    policy: ProfileView,
    host: Host,
    outcomes: Seq<OutcomeView>,
    nr: i64,
    args: Seq<u64>,
) -> (k: int)
    requires
        linux::enforces(policy.syscalls, host),
        !(policy.syscalls is Unfiltered),
        SessionView::initial(linux::apply_steps(policy, host)).after_all(outcomes).has_succeeded(),
        syscalls::is_mandatory_denied(nr),
        args.len() == 6,
    ensures
        procedure_laws::was_performed(linux::apply_steps(policy, host), outcomes, k),
        stops_call(linux::apply_steps(policy, host)[k].op, host, nr, args),
{
    let action = linux::deny_action(host.debug_build);
    match policy.syscalls {
        SyscallsView::Deny(names) => {
            let extra = seccomp::resolved_denials(names)->Ok_0;
            let k = lemma_applied_filters_are_in_force(policy, host, outcomes, 0);
            seccomp_laws::lemma_denylist_verdict(extra, action, Arch::X86_64, nr, args);
            k
        },
        SyscallsView::Allow(names) => {
            let allowed = seccomp::resolved_allowances(names)->Ok_0;
            let k = lemma_applied_filters_are_in_force(policy, host, outcomes, 1);
            seccomp_laws::lemma_allowlist_verdict(allowed, action, Arch::X86_64, nr, args);
            k
        },
        SyscallsView::Unfiltered => 0,
    }
}

/// Whether an operation installs a program that answers a call with the deny
/// action.
pub open spec fn stops_call(op: OpView, host: Host, nr: i64, args: Seq<u64>) -> bool {
    op matches OpView::InstallFilter(program) && filter::decision(program, Arch::X86_64, nr, args)
        == Some(filter::action_word(linux::deny_action(host.debug_build)))
}

/// Whether a list of names holds one that stands for this call.
pub open spec fn is_named_by(names: Seq<Seq<char>>, nr: i64) -> bool {
    exists|i: int| 0 <= i < names.len() && syscalls::syscall_nr(#[trigger] names[i]) == Some(nr)
}

proof fn lemma_named_denials_are_resolved(names: Seq<Seq<char>>, nr: i64)
    requires
        seccomp::resolved_denials(names) is Ok,
        is_named_by(names, nr),
    ensures
        seccomp::resolved_denials(names)->Ok_0.contains(nr),
        0 <= nr <= u32::MAX,
{
    seccomp_laws::lemma_denials_resolve(names);
    let nrs = seccomp::resolved_denials(names)->Ok_0;
    let i = choose|i: int|
        0 <= i < names.len() && syscalls::syscall_nr(#[trigger] names[i]) == Some(nr);
    assert(nrs[i] == nr);
    syscalls::lemma_named_syscalls_are_numbers(names[i]);
}

proof fn lemma_denylist_ops_stop(
    ops: Seq<OpView>,
    names: Seq<Seq<char>>,
    host: Host,
    nr: i64,
    args: Seq<u64>,
)
    requires
        ops == seccomp::denylist_ops(names, linux::deny_action(host.debug_build), host.arch@),
        !seccomp::ends_in_refusal(ops),
        seccomp::install_all(
            ops,
            linux::policy_filters(SyscallsView::Deny(names), host),
        ),
        syscalls::is_mandatory_denied(nr) || is_named_by(names, nr),
        args.len() == 6,
    ensures
        stops_call(ops[0], host, nr, args),
{
    let action = linux::deny_action(host.debug_build);
    assert(seccomp::resolved_denials(names) is Ok);
    let extra = seccomp::resolved_denials(names)->Ok_0;
    if is_named_by(names, nr) {
        lemma_named_denials_are_resolved(names, nr);
    }
    seccomp_laws::lemma_denylist_verdict(extra, action, Arch::X86_64, nr, args);
    assert(seccomp::installs(ops[0], seccomp::denylist_filter(extra, action, Arch::X86_64)));
}

/// Under an applied denylist, every call that the policy names is answered with
/// the deny action by a program that was installed, whatever the arguments are.
/// (Every call of `apply` gives `enforces`.)
pub proof fn lemma_applied_denylist_blocks_named_calls(
    policy: ProfileView,
    host: Host,
    names: Seq<Seq<char>>,
    outcomes: Seq<OutcomeView>,
    nr: i64,
    args: Seq<u64>,
) -> (k: int)
    requires
        policy.syscalls == SyscallsView::Deny(names),
        linux::enforces(policy.syscalls, host),
        SessionView::initial(linux::apply_steps(policy, host)).after_all(outcomes).has_succeeded(),
        is_named_by(names, nr),
        args.len() == 6,
    ensures
        procedure_laws::was_performed(linux::apply_steps(policy, host), outcomes, k),
        stops_call(linux::apply_steps(policy, host)[k].op, host, nr, args),
{
    let k = lemma_applied_filters_are_in_force(policy, host, outcomes, 0);
    let action = linux::deny_action(host.debug_build);
    if seccomp::resolved_denials(names) is Err {
        lemma_unresolved_names_are_never_applied(policy, host, outcomes);
    }
    let extra = seccomp::resolved_denials(names)->Ok_0;
    lemma_named_denials_are_resolved(names, nr);
    seccomp_laws::lemma_denylist_verdict(extra, action, Arch::X86_64, nr, args);
    k
}

/// After a ratchet was tightened, no call that it names and none on the
/// mandatory-deny list is permitted: a program that was installed answers each
/// with the deny action, whatever the arguments are. (Every call of `tighten`
/// gives `enforces`.)
pub proof fn lemma_tightened_calls_are_blocked(
    ratchet: RestrictionsView,
    host: Host,
    names: Seq<Seq<char>>,
    outcomes: Seq<OutcomeView>,
    nr: i64,
    args: Seq<u64>,
) -> (k: int)
    requires
        ratchet.syscalls == Some(names),
        linux::enforces(SyscallsView::Deny(names), host),
        SessionView::initial(linux::tighten_steps(ratchet, host)).after_all(
            outcomes,
        ).has_succeeded(),
        syscalls::is_mandatory_denied(nr) || is_named_by(names, nr),
        args.len() == 6,
    ensures
        procedure_laws::was_performed(linux::tighten_steps(ratchet, host), outcomes, k),
        stops_call(linux::tighten_steps(ratchet, host)[k].op, host, nr, args),
{
    let steps = linux::tighten_steps(ratchet, host);
    let ops = seccomp::denylist_ops(names, linux::deny_action(host.debug_build), host.arch@);
    assert(linux::ops_of(linux::syscall_steps(SyscallsView::Deny(names), host)) =~= ops);
    script::lemma_required_sound(ops, "seccomp"@);
    if seccomp::ends_in_refusal(ops) {
        assert(steps[ops.len() - 1].op == ops.last());
        procedure_laws::lemma_refusal_is_never_passed(steps, outcomes, ops.len() - 1);
    }
    lemma_denylist_ops_stop(ops, names, host, nr, args);
    procedure_laws::lemma_success_means_all_required_done(steps, outcomes, 0);
    0
}

proof fn lemma_grants_never_refuse(grants: Seq<FsGrantView>)
    requires
        forall|g: int| 0 <= g < grants.len() ==> !path::has_nul((#[trigger] grants[g]).path),
    ensures
        procedure_laws::never_refuses(linux::all_grant_steps(grants)),
    decreases grants.len(),
{
    if grants.len() > 0 {
        let front = grants.drop_last();
        assert forall|g: int| 0 <= g < front.len() implies !path::has_nul(
            (#[trigger] front[g]).path,
        ) by {
            assert(front[g] == grants[g]);
        }
        lemma_grants_never_refuse(front);
        assert(grants.last() == grants[grants.len() - 1]);
        lemma_grant_steps(grants.last());
    }
}

/// A policy that can be honored is applied exactly where nothing that it
/// requires fails: where its names resolve on an architecture with system call
/// numbers and its grants are paths that the kernel can take, the walk ends
/// well if and only if no operation of a required step failed. Landlock, `/proc`
/// and the removal of the old root may fail. (Every call of `apply` gives
/// `enforces`.)
pub proof fn lemma_honorable_policy_is_applied(
    policy: ProfileView,
    host: Host,
    outcomes: Seq<OutcomeView>,
)
    requires
        linux::enforces(policy.syscalls, host),
        linux::is_honorable(policy.syscalls, host),
        forall|g: int| 0 <= g < policy.fs.len() ==> !path::has_nul((#[trigger] policy.fs[g]).path),
        outcomes.len() >= linux::apply_steps(policy, host).len(),
    ensures
        SessionView::initial(linux::apply_steps(policy, host)).after_all(outcomes).has_succeeded()
            <==> forall|m: int|
            !(#[trigger] procedure_laws::required_op_fails_at(
                linux::apply_steps(policy, host),
                outcomes,
                m,
            )),
{
    let steps = linux::apply_steps(policy, host);
    let filters = linux::syscall_steps(policy.syscalls, host);
    let ops = linux::ops_of(filters);
    lemma_scaffold_paths();
    lemma_grants_never_refuse(policy.fs);
    assert(procedure_laws::never_refuses(linux::filesystem_steps(policy.fs)));
    assert(procedure_laws::never_refuses(linux::namespace_steps(policy)));
    assert(procedure_laws::never_refuses(linux::hardening_steps()));
    assert forall|i: int| 0 <= i < filters.len() implies !((#[trigger] filters[i]).op is Refuse) by {
        assert(ops[i] == filters[i].op);
        assert(seccomp::installs(ops[i], linux::policy_filters(policy.syscalls, host)[i]));
    }
    assert(procedure_laws::never_refuses(filters));
    assert(procedure_laws::never_refuses(steps));
    linux::lemma_apply_is_sound(policy, host);
    procedure_laws::lemma_walk_succeeds(steps, outcomes);
    assert forall|m: int|
        #![trigger procedure_laws::fails_required_at(steps, outcomes, m)]
        #![trigger procedure_laws::required_op_fails_at(steps, outcomes, m)]
        procedure_laws::fails_required_at(steps, outcomes, m)
            == procedure_laws::required_op_fails_at(steps, outcomes, m) by {
        procedure_laws::lemma_walk_invariant(steps, outcomes.take(m));
    }
}

/// The word by which a program stops a call: `EPERM` in a debug build, the
/// death of the process in a release build.
pub open spec fn stop_word(host: Host) -> u32 {
    if host.debug_build {
        0x0005_0001
    } else {
        0x8000_0000
    }
}

/// Whether an operation installs a program that answers a call with this word.
pub open spec fn answers(op: OpView, nr: i64, args: Seq<u64>, word: u32) -> bool {
    op matches OpView::InstallFilter(program) && filter::decision(program, Arch::X86_64, nr, args)
        == Some(word)
}

/// Whether every program that a procedure installs answers a call with this
/// word.
pub open spec fn all_answer(steps: Seq<StepView>, nr: i64, args: Seq<u64>, word: u32) -> bool {
    forall|k: int|
        0 <= k < steps.len() && (#[trigger] steps[k]).op is InstallFilter ==> answers(
            steps[k].op,
            nr,
            args,
            word,
        )
}

/// Whether a program that was installed in a walk answers a call with this
/// word.
pub open spec fn one_answers(
    steps: Seq<StepView>,
    outcomes: Seq<OutcomeView>,
    nr: i64,
    args: Seq<u64>,
    word: u32,
) -> bool {
    exists|k: int|
        0 <= k < steps.len() && answers((#[trigger] steps[k]).op, nr, args, word)
            && procedure_laws::was_performed(steps, outcomes, k)
}

proof fn lemma_named_iff_resolved(names: Seq<Seq<char>>, nr: i64)
    ensures
        seccomp::resolved_denials(names) matches Ok(nrs) ==> (nrs.contains(nr) <==> is_named_by(
            names,
            nr,
        )),
        seccomp::resolved_allowances(names) matches Ok(nrs) ==> (nrs.contains(nr) <==> is_named_by(
            names,
            nr,
        )),
{
    seccomp_laws::lemma_denials_resolve(names);
    seccomp_laws::lemma_allowances_resolve(names);
    if seccomp::resolved_denials(names) is Ok {
        lemma_named_iff_listed(names, seccomp::resolved_denials(names)->Ok_0, nr);
    }
    if seccomp::resolved_allowances(names) is Ok {
        lemma_named_iff_listed(names, seccomp::resolved_allowances(names)->Ok_0, nr);
    }
}

proof fn lemma_named_iff_listed(names: Seq<Seq<char>>, nrs: Seq<i64>, nr: i64)
    requires
        nrs.len() == names.len(),
        forall|i: int|
            0 <= i < names.len() ==> Some(#[trigger] nrs[i]) == syscalls::syscall_nr(names[i]),
    ensures
        nrs.contains(nr) <==> is_named_by(names, nr),
{
    if nrs.contains(nr) {
        let i = choose|i: int| 0 <= i < nrs.len() && nrs[i] == nr;
        assert(syscalls::syscall_nr(names[i]) == Some(nr));
    }
    if is_named_by(names, nr) {
        let i = choose|i: int|
            0 <= i < names.len() && syscalls::syscall_nr(#[trigger] names[i]) == Some(nr);
        assert(nrs[i] == nr);
    }
}

/// The installing steps of an applied policy: two, the last of its procedure,
/// each with a program that does what its filter says.
proof fn lemma_two_programs(policy: ProfileView, host: Host, outcomes: Seq<OutcomeView>)
    requires
        linux::enforces(policy.syscalls, host),
        !(policy.syscalls is Unfiltered),
        SessionView::initial(linux::apply_steps(policy, host)).after_all(outcomes).has_succeeded(),
    ensures
        ({
            let steps = linux::apply_steps(policy, host);
            let filters = linux::policy_filters(policy.syscalls, host);
            let start = steps.len() - 2;
            &&& filters.len() == 2
            &&& start >= 0
            &&& seccomp::installs(steps[start].op, filters[0])
            &&& seccomp::installs(steps[start + 1].op, filters[1])
            &&& procedure_laws::was_performed(steps, outcomes, start)
            &&& procedure_laws::was_performed(steps, outcomes, start + 1)
            &&& forall|k: int|
                0 <= k < steps.len() && (#[trigger] steps[k]).op is InstallFilter ==> k >= start
            &&& policy.syscalls matches SyscallsView::Deny(names) ==> seccomp::resolved_denials(
                names,
            ) is Ok
            &&& policy.syscalls matches SyscallsView::Allow(names) ==> seccomp::resolved_allowances(
                names,
            ) is Ok
        }),
{
    let steps = linux::apply_steps(policy, host);
    let part = linux::syscall_steps(policy.syscalls, host);
    let ops = linux::ops_of(part);
    lemma_filters_install_only(policy.syscalls, host);
    lemma_apply_order(policy, host);
    linux::lemma_apply_is_sound(policy, host);
    if seccomp::ends_in_refusal(ops) {
        procedure_laws::lemma_refusal_is_never_passed(steps, outcomes, steps.len() - 1);
    }
    let start = steps.len() - 2;
    assert(ops.len() == 2);
    assert(steps[start] == part[0]);
    assert(steps[start + 1] == part[1]);
    assert(ops[0] == part[0].op);
    assert(ops[1] == part[1].op);
    lemma_applied_means_confined(policy, host, outcomes, start);
    lemma_applied_means_confined(policy, host, outcomes, start + 1);
    assert forall|k: int| 0 <= k < steps.len() && (#[trigger] steps[k]).op is InstallFilter implies k
        >= start by {
        let n = linux::namespace_steps(policy).len() as int;
        assert(steps.len() == n + 9 + 2);
        if n <= k < n + 9 {
            assert(steps[k] == linux::hardening_steps()[k - n]);
        }
    }
}

/// What an applied denylist does with every call: one on the mandatory-deny
/// list, one that the policy names and a dangerous case are stopped; `clone3` is
/// answered with `ENOSYS`; every other call is let through by every program.
pub proof fn lemma_applied_denylist_decides(
    policy: ProfileView,
    host: Host,
    names: Seq<Seq<char>>,
    outcomes: Seq<OutcomeView>,
    nr: i64,
    args: Seq<u64>,
)
    requires
        policy.syscalls == SyscallsView::Deny(names),
        linux::enforces(policy.syscalls, host),
        SessionView::initial(linux::apply_steps(policy, host)).after_all(outcomes).has_succeeded(),
        0 <= nr <= u32::MAX,
        args.len() == 6,
    ensures
        ({
            let steps = linux::apply_steps(policy, host);
            let stopped = syscalls::is_mandatory_denied(nr) || is_named_by(names, nr)
                || seccomp_laws::is_dangerous_case(nr, args);
            &&& stopped ==> one_answers(steps, outcomes, nr, args, stop_word(host))
            &&& nr == 435 ==> one_answers(steps, outcomes, nr, args, 0x0005_0026)
            &&& !stopped && nr != 435 ==> all_answer(steps, nr, args, 0x7fff_0000)
        }),
{
    let steps = linux::apply_steps(policy, host);
    let action = linux::deny_action(host.debug_build);
    lemma_two_programs(policy, host, outcomes);
    let extra = seccomp::resolved_denials(names)->Ok_0;
    lemma_named_iff_resolved(names, nr);
    seccomp_laws::lemma_action_words(0);
    seccomp_laws::lemma_denylist_verdict(extra, action, Arch::X86_64, nr, args);
    seccomp_laws::lemma_clone3_verdict(Arch::X86_64, nr, args);
    let start = steps.len() - 2;
    assert(steps[start].op is InstallFilter);
    assert(steps[start + 1].op is InstallFilter);
    let stopped = syscalls::is_mandatory_denied(nr) || is_named_by(names, nr)
        || seccomp_laws::is_dangerous_case(nr, args);
    if stopped {
        assert(answers(steps[start].op, nr, args, stop_word(host)));
    }
    if nr == 435 {
        assert(answers(steps[start + 1].op, nr, args, 0x0005_0026));
    }
    if !stopped && nr != 435 {
        assert(answers(steps[start].op, nr, args, 0x7fff_0000));
        assert(answers(steps[start + 1].op, nr, args, 0x7fff_0000));
    }
}

/// What an applied allowlist does with every call: a harmless case of a call
/// that the policy names is let through by every program; `clone3` is answered
/// with `ENOSYS` and with nothing stricter; every other call is stopped.
pub proof fn lemma_applied_allowlist_decides(
    policy: ProfileView,
    host: Host,
    names: Seq<Seq<char>>,
    outcomes: Seq<OutcomeView>,
    nr: i64,
    args: Seq<u64>,
)
    requires
        policy.syscalls == SyscallsView::Allow(names),
        linux::enforces(policy.syscalls, host),
        SessionView::initial(linux::apply_steps(policy, host)).after_all(outcomes).has_succeeded(),
        0 <= nr <= u32::MAX,
        args.len() == 6,
    ensures
        ({
            let steps = linux::apply_steps(policy, host);
            let last = steps.len() - 1;
            let passed = is_named_by(names, nr) && !syscalls::is_mandatory_denied(nr)
                && !seccomp_laws::is_dangerous_case(nr, args);
            &&& passed && nr != 435 ==> all_answer(steps, nr, args, 0x7fff_0000)
            &&& nr == 435 ==> one_answers(steps, outcomes, nr, args, 0x0005_0026) && answers(
                steps[last].op,
                nr,
                args,
                0x7fff_0000,
            )
            &&& !passed && nr != 435 ==> one_answers(steps, outcomes, nr, args, stop_word(host))
                && answers(steps[last].op, nr, args, stop_word(host)) && answers(
                steps[last - 1].op,
                nr,
                args,
                0x7fff_0000,
            )
        }),
{
    let steps = linux::apply_steps(policy, host);
    let action = linux::deny_action(host.debug_build);
    lemma_two_programs(policy, host, outcomes);
    let allowed = seccomp::resolved_allowances(names)->Ok_0;
    lemma_named_iff_resolved(names, nr);
    seccomp_laws::lemma_action_words(0);
    seccomp_laws::lemma_allowlist_verdict(allowed, action, Arch::X86_64, nr, args);
    seccomp_laws::lemma_clone3_verdict(Arch::X86_64, nr, args);
    let start = steps.len() - 2;
    assert(steps[start].op is InstallFilter);
    assert(steps[start + 1].op is InstallFilter);
    let passed = is_named_by(names, nr) && !syscalls::is_mandatory_denied(nr)
        && !seccomp_laws::is_dangerous_case(nr, args);
    if nr == 435 {
        assert(answers(steps[start].op, nr, args, 0x0005_0026));
    } else {
        assert(answers(steps[start].op, nr, args, 0x7fff_0000));
        if passed {
            assert(answers(steps[start + 1].op, nr, args, 0x7fff_0000));
        } else {
            assert(answers(steps[start + 1].op, nr, args, stop_word(host)));
        }
    }
}

/// A policy that does not filter installs no program.
pub proof fn lemma_unfiltered_installs_nothing(policy: ProfileView, host: Host, k: int)
    requires
        policy.syscalls is Unfiltered,
        0 <= k < linux::apply_steps(policy, host).len(),
    ensures
        !(linux::apply_steps(policy, host)[k].op is InstallFilter),
        linux::apply_steps(policy, host).len() == linux::namespace_steps(policy).len() + 9,
{
    lemma_apply_order(policy, host);
    let steps = linux::apply_steps(policy, host);
    let n = linux::namespace_steps(policy).len() as int;
    assert(is_setup_op(steps[k].op) || k >= n);
    if k >= n {
        assert(steps[k] == linux::hardening_steps()[k - n]);
    }
}

/// What a tightened ratchet does with every call: one on the mandatory-deny
/// list, one that it names and a dangerous case are stopped; `clone3` is
/// answered with `ENOSYS`; every other call is let through by its two programs.
/// A ratchet that denies nothing does nothing.
pub proof fn lemma_tightened_ratchet_decides(
    ratchet: RestrictionsView,
    host: Host,
    outcomes: Seq<OutcomeView>,
    nr: i64,
    args: Seq<u64>,
)
    requires
        ratchet.syscalls is Some ==> linux::enforces(
            SyscallsView::Deny(ratchet.syscalls->Some_0),
            host,
        ),
        SessionView::initial(linux::tighten_steps(ratchet, host)).after_all(
            outcomes,
        ).has_succeeded(),
        0 <= nr <= u32::MAX,
        args.len() == 6,
    ensures
        ratchet.syscalls is None ==> linux::tighten_steps(ratchet, host).len() == 0,
        ratchet.syscalls matches Some(names) ==> {
            let steps = linux::tighten_steps(ratchet, host);
            let stopped = syscalls::is_mandatory_denied(nr) || is_named_by(names, nr)
                || seccomp_laws::is_dangerous_case(nr, args);
            &&& steps.len() == 2
            &&& steps[0].op is InstallFilter
            &&& steps[1].op is InstallFilter
            &&& stopped ==> one_answers(steps, outcomes, nr, args, stop_word(host))
            &&& nr == 435 ==> one_answers(steps, outcomes, nr, args, 0x0005_0026)
            &&& !stopped && nr != 435 ==> all_answer(steps, nr, args, 0x7fff_0000)
        },
{
    if let Some(names) = ratchet.syscalls {
        let steps = linux::tighten_steps(ratchet, host);
        let action = linux::deny_action(host.debug_build);
        let ops = seccomp::denylist_ops(names, action, host.arch@);
        assert(linux::ops_of(linux::syscall_steps(SyscallsView::Deny(names), host)) =~= ops);
        script::lemma_required_sound(ops, "seccomp"@);
        if seccomp::ends_in_refusal(ops) {
            assert(steps[ops.len() - 1].op == ops.last());
            procedure_laws::lemma_refusal_is_never_passed(steps, outcomes, ops.len() - 1);
        }
        assert(seccomp::resolved_denials(names) is Ok);
        let extra = seccomp::resolved_denials(names)->Ok_0;
        lemma_named_iff_resolved(names, nr);
        seccomp_laws::lemma_action_words(0);
        seccomp_laws::lemma_denylist_verdict(extra, action, Arch::X86_64, nr, args);
        seccomp_laws::lemma_clone3_verdict(Arch::X86_64, nr, args);
        procedure_laws::lemma_success_means_all_required_done(steps, outcomes, 0);
        procedure_laws::lemma_success_means_all_required_done(steps, outcomes, 1);
        assert(seccomp::installs(ops[0], linux::policy_filters(SyscallsView::Deny(names), host)[0]));
        assert(seccomp::installs(ops[1], linux::policy_filters(SyscallsView::Deny(names), host)[1]));
        assert(steps[0].op == ops[0]);
        assert(steps[1].op == ops[1]);
        let stopped = syscalls::is_mandatory_denied(nr) || is_named_by(names, nr)
            || seccomp_laws::is_dangerous_case(nr, args);
        if stopped {
            assert(answers(steps[0].op, nr, args, stop_word(host)));
        }
        if nr == 435 {
            assert(answers(steps[1].op, nr, args, 0x0005_0026));
        }
        if !stopped && nr != 435 {
            assert(answers(steps[0].op, nr, args, 0x7fff_0000));
            assert(answers(steps[1].op, nr, args, 0x7fff_0000));
        }
    }
}

/// Tightening only installs further filters: it mounts nothing, opens nothing
/// and gives nothing back.
pub proof fn lemma_tighten_only_filters(ratchet: RestrictionsView, host: Host, i: int)
    requires
        0 <= i < linux::tighten_steps(ratchet, host).len(),
    ensures
        linux::tighten_steps(ratchet, host)[i].is_required(),
        linux::tighten_steps(ratchet, host)[i].op is InstallFilter || linux::tighten_steps(
            ratchet,
            host,
        )[i].op matches OpView::Refuse(CauseView::Filter(_)),
{
}

} // verus!
