//! The procedure that applies a policy, step by step.
//!
//! Each law gives the steps of one part, with their operations, what their
//! failure means and where they stand, for every policy.

use crate::error::CauseView;
use crate::error::FilterErrorView;
use crate::host::Host;
use crate::linux;
use crate::linux_laws;
use crate::path;
use crate::procedure::CapSet;
use crate::procedure::OnFailureView;
use crate::procedure::OpView;
use crate::procedure::OutcomeView;
use crate::procedure::SessionView;
use crate::procedure::Step;
use crate::procedure::StepView;
use crate::procedure;
use crate::procedure_laws;
use crate::profile::Access;
use crate::profile::FsGrant;
use crate::profile::FsGrantView;
use crate::profile::Network;
use crate::profile::ProfileView;
use crate::profile::SyscallsView;
use crate::profile;
use crate::script;
use crate::unix::filter::FilterAction;
use crate::unix::filter;
use crate::unix::mount_namespace;
use crate::unix::seccomp_laws;
use crate::unix::syscalls;
use vstd::prelude::*;

verus! {

/// A step that has to succeed.
pub open spec fn must(op: OpView, primitive: Seq<char>) -> StepView {
    StepView { op, on_success: 0, on_failure: OnFailureView::Abort(primitive) }
}

/// A step that may fail: it passes over `past` steps when it succeeds and over
/// `skipped` steps when it fails.
pub open spec fn may(op: OpView, past: nat, skipped: nat) -> StepView {
    StepView { op, on_success: past, on_failure: OnFailureView::Skip(skipped) }
}

/// The bytes of a string.
pub open spec fn bytes(text: Seq<char>) -> Seq<u8> {
    vstd::utf8::encode_utf8(text)
}

/// `mount(source, target, fstype, flags)`.
pub open spec fn mount(
    source: Option<Seq<u8>>,
    target: Seq<u8>,
    fstype: Option<Seq<char>>,
    flags: u64,
) -> OpView {
    OpView::Mount { source, target, fstype, flags }
}

/// How many steps set up the network.
pub open spec fn network_len(policy: ProfileView) -> int {
    if policy.network == Network::Loopback {
        3
    } else {
        0
    }
}

/// Whether the kernel can take the path of every grant.
pub open spec fn takes_all_paths(policy: ProfileView) -> bool {
    forall|g: int| 0 <= g < policy.fs.len() ==> !path::has_nul((#[trigger] policy.fs[g]).path)
}

/// Whether an operation is on a socket or a network interface.
pub open spec fn is_network_op(op: OpView) -> bool {
    op is OpenSocket || op is GetInterfaceFlags || op is RaiseInterface
}

proof fn lemma_flags()
    ensures
        0x4000u64 | 0x8_0000u64 == 0x8_4000u64,
        0x4000u64 | 0x4_0000u64 == 0x4_4000u64,
        0x1000u64 | 0x4000u64 == 0x5000u64,
        0x1000u64 | 0x4000u64 | 0x20u64 | (0x2u64 | 0x4u64 | 0x1u64) == 0x5027u64,
        0x1000u64 | 0x4000u64 | 0x20u64 | (0x2u64 | 0x4u64 | 0x8u64) == 0x502eu64,
        0x1000u64 | 0x4000u64 | 0x20u64 | (0x1u64 | 0x2u64 | 0x4u64) == 0x5027u64,
        0x1u64 | 0x2u64 | 0x4u64 == 0x7u64,
        0xdu64 | 0xfff2u64 == 0xffffu64,
        (0xdu64 & !0x1u64) | 0xfff2u64 == 0xfffeu64,
{
    assert(0x4000u64 | 0x8_0000u64 == 0x8_4000u64 && 0x4000u64 | 0x4_0000u64 == 0x4_4000u64
        && 0x1000u64 | 0x4000u64 == 0x5000u64 && 0x1000u64 | 0x4000u64 | 0x20u64 | (0x2u64 | 0x4u64
        | 0x1u64) == 0x5027u64 && 0x1000u64 | 0x4000u64 | 0x20u64 | (0x2u64 | 0x4u64 | 0x8u64)
        == 0x502eu64 && 0x1000u64 | 0x4000u64 | 0x20u64 | (0x1u64 | 0x2u64 | 0x4u64) == 0x5027u64
        && 0x1u64 | 0x2u64 | 0x4u64 == 0x7u64 && 0xdu64 | 0xfff2u64 == 0xffffu64 && (0xdu64 & !0x1u64) | 0xfff2u64 == 0xfffeu64)
        by (bit_vector);
}

proof fn lemma_staged_is(name: Seq<char>, whole: Seq<char>)
    requires
        vstd::utf8::is_ascii_chars(name),
        whole == "/tmp/.sandbox-root"@.push('/') + name,
    ensures
        linux::staged(name) == bytes(whole),
{
    reveal_strlit("/tmp/.sandbox-root");
    let root = "/tmp/.sandbox-root"@;
    vstd::utf8::is_ascii_chars_encode_utf8(root);
    vstd::utf8::is_ascii_chars_encode_utf8(name);
    assert(vstd::utf8::is_ascii_chars(whole));
    vstd::utf8::is_ascii_chars_encode_utf8(whole);
    assert(root[17] == 't');
    assert(bytes(root)[17] == 't' as u8);
    assert forall|i: int| 0 <= i < bytes(whole).len() implies linux::staged(name)[i]
        == bytes(whole)[i] by {
        assert(bytes(whole)[i] == whole[i] as u8);
        if i < 18 {
            assert(whole[i] == root[i]);
        } else if i > 18 {
            assert(whole[i] == name[i - 19]);
        }
    }
    assert(linux::staged(name) =~= bytes(whole));
}

proof fn lemma_staged()
    ensures
        linux::staging_bytes() == bytes("/tmp/.sandbox-root"@),
        linux::staged("proc"@) == bytes("/tmp/.sandbox-root/proc"@),
        linux::staged("tmp"@) == bytes("/tmp/.sandbox-root/tmp"@),
        linux::staged(".old_root"@) == bytes("/tmp/.sandbox-root/.old_root"@),
{
    reveal_strlit("/tmp/.sandbox-root");
    reveal_strlit("proc");
    reveal_strlit("tmp");
    reveal_strlit(".old_root");
    reveal_strlit("/tmp/.sandbox-root/proc");
    reveal_strlit("/tmp/.sandbox-root/tmp");
    reveal_strlit("/tmp/.sandbox-root/.old_root");
    assert("/tmp/.sandbox-root/proc"@ =~= "/tmp/.sandbox-root"@.push('/') + "proc"@);
    assert("/tmp/.sandbox-root/tmp"@ =~= "/tmp/.sandbox-root"@.push('/') + "tmp"@);
    assert("/tmp/.sandbox-root/.old_root"@ =~= "/tmp/.sandbox-root"@.push('/') + ".old_root"@);
    lemma_staged_is("proc"@, "/tmp/.sandbox-root/proc"@);
    lemma_staged_is("tmp"@, "/tmp/.sandbox-root/tmp"@);
    lemma_staged_is(".old_root"@, "/tmp/.sandbox-root/.old_root"@);
}

/// The four steps behind a grant.
pub open spec fn is_grant_block(block: Seq<StepView>, grant: FsGrantView) -> bool {
    let place = path::joined_under(bytes("/tmp/.sandbox-root"@), grant.path);
    &&& block.len() == 4
    &&& block[0] == must(OpView::PathExists(grant.path), "filesystem"@)
    &&& block[1] == must(OpView::CreateDirAll(place), "filesystem"@)
    &&& block[2] == must(mount(Some(grant.path), place, None, 0x5000), "filesystem"@)
    &&& block[3] == must(
        mount(
            None,
            place,
            None,
            if grant.access == Access::ReadExec {
                0x5027
            } else {
                0x502e
            },
        ),
        "filesystem"@,
    )
}

proof fn lemma_grant_block(grant: FsGrantView)
    requires
        !path::has_nul(grant.path),
    ensures
        is_grant_block(linux::grant_steps(grant), grant),
{
    lemma_flags();
    lemma_staged();
    linux_laws::lemma_grant_steps(grant);
}

proof fn lemma_grant_blocks(grants: Seq<FsGrantView>)
    requires
        forall|g: int| 0 <= g < grants.len() ==> !path::has_nul((#[trigger] grants[g]).path),
    ensures
        linux::all_grant_steps(grants).len() == 4 * grants.len(),
        forall|g: int|
            0 <= g < grants.len() ==> is_grant_block(
                linux::all_grant_steps(grants).subrange(4 * g, 4 * g + 4),
                #[trigger] grants[g],
            ),
    decreases grants.len(),
{
    if grants.len() > 0 {
        let front = grants.drop_last();
        let before = linux::all_grant_steps(front);
        let all = linux::all_grant_steps(grants);
        assert forall|g: int| 0 <= g < front.len() implies !path::has_nul(
            (#[trigger] front[g]).path,
        ) by {
            assert(front[g] == grants[g]);
        }
        lemma_grant_blocks(front);
        assert(grants.last() == grants[grants.len() - 1]);
        lemma_grant_block(grants.last());
        assert forall|g: int| 0 <= g < grants.len() implies is_grant_block(
            all.subrange(4 * g, 4 * g + 4),
            #[trigger] grants[g],
        ) by {
            if g < front.len() {
                assert(front[g] == grants[g]);
                assert(all.subrange(4 * g, 4 * g + 4) =~= before.subrange(4 * g, 4 * g + 4));
            } else {
                assert(all.subrange(4 * g, 4 * g + 4) =~= linux::grant_steps(grants.last()));
            }
        }
    }
}

proof fn lemma_landlock_grants(grants: Seq<FsGrantView>)
    ensures
        linux::landlock_grant_ops(grants).len() == 2 * grants.len(),
        forall|g: int|
            0 <= g < grants.len() ==> linux::landlock_grant_ops(grants)[2 * g]
                == OpView::PathExists((#[trigger] grants[g]).path)
                && linux::landlock_grant_ops(grants)[2 * g + 1] == (OpView::LandlockAllow {
                path: grants[g].path,
                rights: if grants[g].access == Access::ReadExec {
                    0xd
                } else {
                    0xfffe
                },
            }),
    decreases grants.len(),
{
    lemma_flags();
    if grants.len() > 0 {
        let front = grants.drop_last();
        lemma_landlock_grants(front);
        assert forall|g: int| 0 <= g < front.len() implies front[g] == #[trigger] grants[g] by {}
        assert(grants.last() == grants[grants.len() - 1]);
    }
}

/// Everything of the procedure but the filters, for a policy whose grants the
/// kernel can take: where each part starts.
pub open spec fn filesystem_at(policy: ProfileView) -> int {
    2 + network_len(policy)
}

pub open spec fn proc_at(policy: ProfileView) -> int {
    filesystem_at(policy) + 2 + 4 * policy.fs.len()
}

pub open spec fn landlock_at(policy: ProfileView) -> int {
    proc_at(policy) + 12
}

pub open spec fn hardening_at(policy: ProfileView) -> int {
    landlock_at(policy) + 2 * policy.fs.len() + 3
}

proof fn lemma_parts(policy: ProfileView, host: Host)
    requires
        takes_all_paths(policy),
    ensures
        linux::all_grant_steps(policy.fs).len() == 4 * policy.fs.len(),
        linux::proc_steps().len() == 5,
        linux::pivot_ops().len() == 6,
        linux::landlock_ops(policy.fs).len() == 2 * policy.fs.len() + 3,
        linux::namespace_steps(policy).len() == hardening_at(policy),
        mount_namespace::tmpfs_ops(linux::staging_bytes()).len() == 1,
        linux::network_steps(policy.network).len() == network_len(policy),
{
    linux_laws::lemma_scaffold_paths();
    lemma_grant_blocks(policy.fs);
    lemma_landlock_grants(policy.fs);
    linux_laws::lemma_mount_flags(Access::ReadExec);
    lemma_flags();
}

/// First of all the mount namespace is detached from its parent: the root is
/// made a slave, then private, recursively.
pub proof fn lemma_root_is_detached_first(policy: ProfileView, host: Host)
    ensures
        linux::apply_steps(policy, host).len() >= 2,
        linux::apply_steps(policy, host)[0] == must(
            mount(None, bytes("/"@), None, 0x8_4000),
            "mount_namespace"@,
        ),
        linux::apply_steps(policy, host)[1] == must(
            mount(None, bytes("/"@), None, 0x4_4000),
            "mount_namespace"@,
        ),
{
    lemma_flags();
}

/// The network is touched exactly where the scope is loopback: there a datagram
/// socket is opened, the flags of `lo` are read and `lo` is raised, right behind
/// the detachment, and each has to succeed. No other step of any procedure is on
/// a socket or an interface.
pub proof fn lemma_network_only_for_loopback(policy: ProfileView, host: Host)
    ensures
        forall|i: int|
            0 <= i < linux::apply_steps(policy, host).len() && is_network_op(
                (#[trigger] linux::apply_steps(policy, host)[i]).op,
            ) ==> policy.network == Network::Loopback && 2 <= i < 5,
        policy.network == Network::Loopback ==> {
            &&& linux::apply_steps(policy, host).len() >= 5
            &&& linux::apply_steps(policy, host)[2] == must(
                OpView::OpenSocket { domain: 2, kind: 2, protocol: 0 },
                "network_namespace"@,
            )
            &&& linux::apply_steps(policy, host)[3] == must(
                OpView::GetInterfaceFlags("lo"@),
                "network_namespace"@,
            )
            &&& linux::apply_steps(policy, host)[4] == must(
                OpView::RaiseInterface("lo"@),
                "network_namespace"@,
            )
        },
{
    let steps = linux::apply_steps(policy, host);
    let net = linux::network_steps(policy.network);
    let fs = linux::filesystem_steps(policy.fs);
    linux_laws::lemma_network_before_filesystem(policy, host);
    linux_laws::lemma_apply_order(policy, host);
    linux_laws::lemma_filesystem_avoids_network(policy.fs);
    let n = linux::namespace_steps(policy).len();
    assert(n == 2 + net.len() + fs.len());
    assert forall|i: int| 0 <= i < steps.len() && is_network_op((#[trigger] steps[i]).op) implies
        policy.network == Network::Loopback && 2 <= i < 5 by {
        if 2 + net.len() <= i < n {
            assert(steps[i] == fs[i - 2 - net.len()]);
        } else if n <= i < n + 9 {
            assert(linux::hardening_steps()[i - n] == steps[i]);
        } else if i >= n + 9 {
            assert(steps[i].op is InstallFilter || steps[i].op is Refuse);
        }
    }
}

/// The new root: a tmpfs on the staging directory, then four steps for each
/// grant, in the order of the policy.
pub proof fn lemma_grants_in_order(policy: ProfileView, host: Host)
    requires
        takes_all_paths(policy),
    ensures
        ({
            let steps = linux::apply_steps(policy, host);
            let at = filesystem_at(policy);
            &&& steps.len() >= hardening_at(policy) + 9
            &&& steps[at] == must(
                OpView::CreateDirAll(bytes("/tmp/.sandbox-root"@)),
                "filesystem"@,
            )
            &&& steps[at + 1] == must(
                mount(Some(bytes("none"@)), bytes("/tmp/.sandbox-root"@), Some("tmpfs"@), 0),
                "filesystem"@,
            )
            &&& forall|g: int|
                0 <= g < policy.fs.len() ==> is_grant_block(
                    steps.subrange(at + 2 + 4 * g, at + 6 + 4 * g),
                    #[trigger] policy.fs[g],
                )
        }),
{
    lemma_parts(policy, host);
    lemma_staged();
    linux_laws::lemma_scaffold_paths();
    lemma_grant_blocks(policy.fs);
    linux_laws::lemma_apply_order(policy, host);
    let steps = linux::apply_steps(policy, host);
    let at = filesystem_at(policy);
    let all = linux::all_grant_steps(policy.fs);
    assert forall|g: int| 0 <= g < policy.fs.len() implies is_grant_block(
        steps.subrange(at + 2 + 4 * g, at + 6 + 4 * g),
        #[trigger] policy.fs[g],
    ) by {
        let block = all.subrange(4 * g, 4 * g + 4);
        assert(is_grant_block(block, policy.fs[g]));
        assert forall|j: int| 0 <= j < 4 implies steps.subrange(at + 2 + 4 * g, at + 6 + 4 * g)[j]
            == block[j] by {
            assert(steps[at + 2 + 4 * g + j] == all[4 * g + j]);
        }
        assert(steps.subrange(at + 2 + 4 * g, at + 6 + 4 * g) =~= block);
    }
}

/// `/proc`, `/tmp` and the exchange of the root: a new proc file system is
/// tried, then a read-only bind of the one that is there, and both may fail; the
/// rest has to succeed, but for the removal of the old root's directory.
pub proof fn lemma_proc_and_pivot(policy: ProfileView, host: Host)
    requires
        takes_all_paths(policy),
    ensures
        ({
            let steps = linux::apply_steps(policy, host);
            let at = proc_at(policy);
            let proc = bytes("/tmp/.sandbox-root/proc"@);
            let tmp = bytes("/tmp/.sandbox-root/tmp"@);
            let old = bytes("/tmp/.sandbox-root/.old_root"@);
            &&& steps[at] == may(OpView::CreateDirAll(proc), 0, 1)
            &&& steps[at + 1] == may(mount(Some(bytes("proc"@)), proc, Some("proc"@), 0), 3, 0)
            &&& steps[at + 2] == may(OpView::CreateDirAll(proc), 0, 2)
            &&& steps[at + 3] == may(mount(Some(bytes("/proc"@)), proc, None, 0x5000), 0, 1)
            &&& steps[at + 4] == may(mount(None, proc, None, 0x5027), 0, 0)
            &&& steps[at + 5] == must(OpView::CreateDirAll(tmp), "filesystem"@)
            &&& steps[at + 6] == must(
                mount(Some(bytes("none"@)), tmp, Some("tmpfs"@), 0),
                "filesystem"@,
            )
            &&& steps[at + 7] == must(OpView::CreateDirAll(old), "filesystem"@)
            &&& steps[at + 8] == must(
                OpView::PivotRoot { new_root: bytes("/tmp/.sandbox-root"@), old_root: old },
                "filesystem"@,
            )
            &&& steps[at + 9] == must(OpView::ChangeDir(bytes("/"@)), "filesystem"@)
            &&& steps[at + 10] == must(
                OpView::Unmount { target: bytes("/.old_root"@), options: 2 },
                "filesystem"@,
            )
            &&& steps[at + 11] == may(OpView::RemoveDir(bytes("/.old_root"@)), 0, 0)
        }),
{
    lemma_parts(policy, host);
    lemma_flags();
    lemma_staged();
    linux_laws::lemma_scaffold_paths();
    let steps = linux::apply_steps(policy, host);
    let at = proc_at(policy);
    let part = linux::proc_steps();
    let pivot = linux::fs_steps(linux::pivot_ops());
    assert(steps[at] == part[0]);
    assert(steps[at + 1] == part[1]);
    assert(steps[at + 2] == part[2]);
    assert(steps[at + 3] == part[3]);
    assert(steps[at + 4] == part[4]);
    assert(steps[at + 5] == pivot[0]);
    assert(steps[at + 6] == pivot[1]);
    assert(steps[at + 7] == pivot[2]);
    assert(steps[at + 8] == pivot[3]);
    assert(steps[at + 9] == pivot[4]);
    assert(steps[at + 10] == pivot[5]);
}

/// Landlock: a ruleset over all rights of the level, a rule for each grant that
/// is still there, a rule for `/tmp`, and the enforcement. A path that is gone
/// costs only its own rule; any other failure gives Landlock up and nothing
/// else.
pub proof fn lemma_landlock_in_order(policy: ProfileView, host: Host)
    requires
        takes_all_paths(policy),
    ensures
        ({
            let steps = linux::apply_steps(policy, host);
            let at = landlock_at(policy);
            let n = policy.fs.len();
            &&& steps[at] == may(OpView::LandlockCreate { handled: 0xffff }, 0, 2 * n + 2)
            &&& forall|g: int|
                0 <= g < n ==> steps[at + 1 + 2 * g] == may(
                    OpView::PathExists((#[trigger] policy.fs[g]).path),
                    0,
                    1,
                ) && steps[at + 2 + 2 * g] == may(
                    OpView::LandlockAllow {
                        path: policy.fs[g].path,
                        rights: if policy.fs[g].access == Access::ReadExec {
                            0xd
                        } else {
                            0xfffe
                        },
                    },
                    0,
                    (2 * n - 2 * g) as nat,
                )
            &&& steps[at + 1 + 2 * n] == may(
                OpView::LandlockAllow { path: bytes("/tmp"@), rights: 0xfffe },
                0,
                1,
            )
            &&& steps[at + 2 + 2 * n] == may(OpView::LandlockRestrictSelf, 0, 0)
        }),
{
    lemma_parts(policy, host);
    lemma_flags();
    lemma_landlock_grants(policy.fs);
    let steps = linux::apply_steps(policy, host);
    let at = landlock_at(policy);
    let ops = linux::landlock_ops(policy.fs);
    let part = script::with_tests(ops);
    let middle = linux::landlock_grant_ops(policy.fs);
    let n = policy.fs.len();
    assert(steps[at] == part[0]);
    assert forall|g: int| 0 <= g < n implies steps[at + 1 + 2 * g] == may(
        OpView::PathExists((#[trigger] policy.fs[g]).path),
        0,
        1,
    ) && steps[at + 2 + 2 * g] == may(
        OpView::LandlockAllow {
            path: policy.fs[g].path,
            rights: if policy.fs[g].access == Access::ReadExec {
                0xd
            } else {
                0xfffe
            },
        },
        0,
        (2 * n - 2 * g) as nat,
    ) by {
        assert(steps[at + 1 + 2 * g] == part[1 + 2 * g]);
        assert(steps[at + 2 + 2 * g] == part[2 + 2 * g]);
        assert(ops[1 + 2 * g] == middle[2 * g]);
        assert(ops[2 + 2 * g] == middle[2 * g + 1]);
    }
    assert(steps[at + 1 + 2 * n] == part[1 + 2 * n as int]);
    assert(steps[at + 2 + 2 * n] == part[2 + 2 * n as int]);
}

/// The process gives up its authority: the securebits are locked, the five
/// capability sets cleared, dumps switched off, its life tied to its parent's,
/// and gaining privileges given up, in this order, and each has to succeed.
pub proof fn lemma_hardening_in_order(policy: ProfileView, host: Host)
    ensures
        ({
            let steps = linux::apply_steps(policy, host);
            let at = linux::namespace_steps(policy).len() as int;
            &&& takes_all_paths(policy) ==> at == hardening_at(policy)
            &&& steps.len() >= at + 9
            &&& steps[at] == must(OpView::Prctl { option: 28, arg: 207 }, "securebits"@)
            &&& steps[at + 1] == must(
                OpView::ClearCapabilities(CapSet::Ambient),
                "capabilities"@,
            )
            &&& steps[at + 2] == must(
                OpView::ClearCapabilities(CapSet::Bounding),
                "capabilities"@,
            )
            &&& steps[at + 3] == must(
                OpView::ClearCapabilities(CapSet::Inheritable),
                "capabilities"@,
            )
            &&& steps[at + 4] == must(
                OpView::ClearCapabilities(CapSet::Effective),
                "capabilities"@,
            )
            &&& steps[at + 5] == must(
                OpView::ClearCapabilities(CapSet::Permitted),
                "capabilities"@,
            )
            &&& steps[at + 6] == must(OpView::Prctl { option: 4, arg: 0 }, "dumpable"@)
            &&& steps[at + 7] == must(OpView::Prctl { option: 1, arg: 9 }, "pdeathsig"@)
            &&& steps[at + 8] == must(OpView::Prctl { option: 38, arg: 1 }, "no_new_privs"@)
        }),
{
    if takes_all_paths(policy) {
        lemma_parts(policy, host);
    }
    linux_laws::lemma_apply_order(policy, host);
    let caps = linux::capability_ops();
    let steps = linux::apply_steps(policy, host);
    let at = linux::namespace_steps(policy).len() as int;
    assert(caps[0] is ClearCapabilities && caps[1] is ClearCapabilities && caps[2]
        is ClearCapabilities && caps[3] is ClearCapabilities && caps[4] is ClearCapabilities);
}

/// A grant with a zero byte in its path is refused where its bind would stand,
/// so a policy that holds one is never applied.
pub proof fn lemma_zero_byte_is_refused(grant: FsGrantView)
    requires
        path::has_nul(grant.path),
    ensures
        linux::grant_steps(grant) == seq![
            must(OpView::PathExists(grant.path), "filesystem"@),
            must(OpView::Refuse(CauseView::NulInPath), "filesystem"@),
        ],
{
}

proof fn lemma_grants_start_with(grants: Seq<FsGrantView>, g: int)
    requires
        0 <= g <= grants.len(),
    ensures
        linux::all_grant_steps(grants.take(g)).is_prefix_of(linux::all_grant_steps(grants)),
    decreases grants.len(),
{
    let all = linux::all_grant_steps(grants);
    if g == grants.len() {
        assert(grants.take(g) =~= grants);
        assert(all =~= all.subrange(0, all.len() as int));
    } else {
        let front = grants.drop_last();
        let before = linux::all_grant_steps(front);
        let part = linux::all_grant_steps(grants.take(g));
        assert(front.take(g) =~= grants.take(g));
        lemma_grants_start_with(front, g);
        assert(part =~= all.subrange(0, part.len() as int)) by {
            assert forall|i: int| 0 <= i < part.len() implies part[i] == all[i] by {
                assert(part[i] == before.subrange(0, part.len() as int)[i]);
            }
        }
    }
}

/// A policy with a zero byte in a path is refused at the first such grant, in
/// place of its bind, and no answer of the operating system lets it through.
pub proof fn lemma_zero_byte_is_never_applied(
    policy: ProfileView,
    host: Host,
    g: int,
    outcomes: Seq<OutcomeView>,
)
    requires
        0 <= g < policy.fs.len(),
        policy.fs[g].path.contains(0u8),
        forall|h: int| 0 <= h < g ==> !(#[trigger] policy.fs[h]).path.contains(0u8),
    ensures
        ({
            let steps = linux::apply_steps(policy, host);
            let at = filesystem_at(policy) + 2 + 4 * g;
            &&& at + 2 <= steps.len()
            &&& steps[at] == must(OpView::PathExists(policy.fs[g].path), "filesystem"@)
            &&& steps[at + 1] == must(OpView::Refuse(CauseView::NulInPath), "filesystem"@)
            &&& !SessionView::initial(steps).after_all(outcomes).has_succeeded()
        }),
{
    let steps = linux::apply_steps(policy, host);
    let all = linux::all_grant_steps(policy.fs);
    let at = filesystem_at(policy) + 2 + 4 * g;
    let front = policy.fs.take(g);
    let upto = policy.fs.take(g + 1);
    assert forall|h: int| 0 <= h < front.len() implies !path::has_nul(
        (#[trigger] front[h]).path,
    ) by {
        assert(front[h] == policy.fs[h]);
    }
    lemma_grant_blocks(front);
    assert(upto.drop_last() =~= front);
    assert(upto.last() == policy.fs[g]);
    lemma_zero_byte_is_refused(policy.fs[g]);
    lemma_grants_start_with(policy.fs, g + 1);
    let part = linux::all_grant_steps(upto);
    assert(part == linux::all_grant_steps(front) + linux::grant_steps(policy.fs[g]));
    assert(part.len() == 4 * g + 2);
    assert(part[4 * g] == all[4 * g]) by {
        assert(part[4 * g] == all.subrange(0, part.len() as int)[4 * g]);
    }
    assert(part[4 * g + 1] == all[4 * g + 1]) by {
        assert(part[4 * g + 1] == all.subrange(0, part.len() as int)[4 * g + 1]);
    }
    linux_laws::lemma_scaffold_paths();
    lemma_staged();
    assert(mount_namespace::tmpfs_ops(linux::staging_bytes()).len() == 1);
    assert(linux::network_steps(policy.network).len() == network_len(policy));
    assert(steps[at] == all[4 * g]);
    assert(steps[at + 1] == all[4 * g + 1]);
    linux::lemma_apply_is_sound(policy, host);
    procedure_laws::lemma_refusal_is_never_passed(steps, outcomes, at + 1);
}

/// Where the filters of a policy start: they come last.
pub open spec fn filters_at(policy: ProfileView) -> int {
    linux::namespace_steps(policy).len() as int + 9
}

/// A policy that denies a name which may not be denied is refused over the first
/// such name, in a single last step that has to succeed and cannot.
pub proof fn lemma_bad_denial_is_refused(
    policy: ProfileView,
    host: Host,
    names: Seq<Seq<char>>,
    i: int,
)
    requires
        policy.syscalls == SyscallsView::Deny(names),
        0 <= i < names.len(),
        !seccomp_laws::is_deniable(names[i]),
        forall|j: int| 0 <= j < i ==> seccomp_laws::is_deniable(#[trigger] names[j]),
    ensures
        linux::apply_steps(policy, host).len() == filters_at(policy) + 1,
        linux::apply_steps(policy, host).last() == must(
            OpView::Refuse(
                CauseView::Filter(
                    if syscalls::syscall_nr(names[i]) is None {
                        FilterErrorView::UnknownSyscall(names[i])
                    } else {
                        FilterErrorView::SurvivalSyscall(names[i])
                    },
                ),
            ),
            "seccomp"@,
        ),
{
    seccomp_laws::lemma_denials_refuse_first(names, i);
}

/// A policy that allows an unknown name is refused over the first such name, in
/// a single last step that has to succeed and cannot.
pub proof fn lemma_bad_allowance_is_refused(
    policy: ProfileView,
    host: Host,
    names: Seq<Seq<char>>,
    i: int,
)
    requires
        policy.syscalls == SyscallsView::Allow(names),
        0 <= i < names.len(),
        syscalls::syscall_nr(names[i]) is None,
        forall|j: int| 0 <= j < i ==> syscalls::syscall_nr(#[trigger] names[j]) is Some,
    ensures
        linux::apply_steps(policy, host).len() == filters_at(policy) + 1,
        linux::apply_steps(policy, host).last() == must(
            OpView::Refuse(CauseView::Filter(FilterErrorView::UnknownAllowance(names[i]))),
            "seccomp"@,
        ),
{
    seccomp_laws::lemma_allowances_refuse_first(names, i);
}

/// A policy whose names resolve is refused on an architecture without system
/// call numbers, in a single last step that has to succeed and cannot. The error
/// names the architecture.
pub proof fn lemma_foreign_arch_is_refused(policy: ProfileView, host: Host)
    requires
        policy.syscalls matches SyscallsView::Deny(names) ==> forall|i: int|
            0 <= i < names.len() ==> seccomp_laws::is_deniable(#[trigger] names[i]),
        policy.syscalls matches SyscallsView::Allow(names) ==> forall|i: int|
            0 <= i < names.len() ==> syscalls::syscall_nr(#[trigger] names[i]) is Some,
        !(policy.syscalls is Unfiltered),
        filter::parsed_arch(host.arch@) != Some(filter::Arch::X86_64),
    ensures
        linux::apply_steps(policy, host).len() == filters_at(policy) + 1,
        linux::apply_steps(policy, host).last() == must(
            OpView::Refuse(
                CauseView::Filter(
                    if filter::parsed_arch(host.arch@) is None {
                        FilterErrorView::UnsupportedArch(host.arch@)
                    } else {
                        FilterErrorView::UnnumberedArch(host.arch@)
                    },
                ),
            ),
            "seccomp"@,
        ),
{
    if let SyscallsView::Deny(names) = policy.syscalls {
        assert forall|i: int| 0 <= i < names.len() implies syscalls::syscall_nr(#[trigger] names[i])
            is Some && !syscalls::is_survival(syscalls::syscall_nr(names[i])->Some_0) by {
            assert(seccomp_laws::is_deniable(names[i]));
        }
        seccomp_laws::lemma_denials_resolve(names);
    }
    if let SyscallsView::Allow(names) = policy.syscalls {
        seccomp_laws::lemma_allowances_resolve(names);
    }
}

/// The filters of a policy that can be honored are two installations at the very
/// end, and each has to succeed.
pub proof fn lemma_filters_come_last(policy: ProfileView, host: Host)
    requires
        linux::enforces(policy.syscalls, host),
        linux::is_honorable(policy.syscalls, host),
        !(policy.syscalls is Unfiltered),
    ensures
        ({
            let steps = linux::apply_steps(policy, host);
            let n = filters_at(policy);
            &&& steps.len() == n + 2
            &&& steps[n].op is InstallFilter
            &&& steps[n + 1].op is InstallFilter
            &&& steps[n] == must(steps[n].op, "seccomp"@)
            &&& steps[n + 1] == must(steps[n + 1].op, "seccomp"@)
        }),
{
    let steps = linux::apply_steps(policy, host);
    let part = linux::syscall_steps(policy.syscalls, host);
    let n = filters_at(policy);
    let ops = linux::ops_of(part);
    assert(ops.len() == part.len());
    assert(ops.len() == 2);
    assert(steps[n] == part[0]);
    assert(steps[n + 1] == part[1]);
    assert(ops[0] == part[0].op);
    assert(ops[1] == part[1].op);
}

/// The steps that set up the network: none, but for loopback.
pub proof fn lemma_network_result(scope: Network, r: Vec<Step>)
    requires
        call_ensures(linux::apply_network, (scope,), r),
    ensures
        scope != Network::Loopback ==> r@.len() == 0,
        scope == Network::Loopback ==> {
            &&& r@.len() == 3
            &&& r@[0]@ == must(
                OpView::OpenSocket { domain: 2, kind: 2, protocol: 0 },
                "network_namespace"@,
            )
            &&& r@[1]@ == must(OpView::GetInterfaceFlags("lo"@), "network_namespace"@)
            &&& r@[2]@ == must(OpView::RaiseInterface("lo"@), "network_namespace"@)
        },
{
    let steps = procedure::steps_view(r@);
    assert(steps.len() == r@.len());
    if scope == Network::Loopback {
        assert(steps[0] == r@[0]@);
        assert(steps[1] == r@[1]@);
        assert(steps[2] == r@[2]@);
    }
}

/// The steps that build the filesystem of a worker are those between its network
/// and its hardening, whatever the network is.
pub proof fn lemma_filesystem_result(
    policy: ProfileView,
    host: Host,
    grants: &[FsGrant],
    r: Vec<Step>,
)
    requires
        call_ensures(linux::apply_filesystem, (grants,), r),
        policy.fs.len() == grants@.len(),
        forall|g: int|
            0 <= g < policy.fs.len() ==> (#[trigger] policy.fs[g]).path == grants@[g].path@
                && policy.fs[g].access == grants@[g].access,
    ensures
        ({
            let steps = linux::apply_steps(policy, host);
            let start = filesystem_at(policy);
            &&& start + r@.len() <= steps.len()
            &&& forall|i: int| 0 <= i < r@.len() ==> (#[trigger] r@[i])@ == steps[start + i]
        }),
{
    let steps = linux::apply_steps(policy, host);
    let start = filesystem_at(policy);
    let own = procedure::steps_view(r@);
    assert(profile::grants_view(grants@) =~= policy.fs);
    assert(own == linux::filesystem_steps(policy.fs));
    assert(own.len() == r@.len());
    assert(linux::network_steps(policy.network).len() == network_len(policy));
    assert forall|i: int| 0 <= i < r@.len() implies (#[trigger] r@[i])@ == steps[start + i] by {
        assert(own[i] == r@[i]@);
    }
}

/// The five capability sets are cleared, the ambient one first and the permitted
/// one last, and each has to succeed.
pub proof fn lemma_capabilities_result(r: Vec<Step>)
    requires
        call_ensures(linux::drop_all_capabilities, (), r),
    ensures
        r@.len() == 5,
        r@[0]@ == must(OpView::ClearCapabilities(CapSet::Ambient), "capabilities"@),
        r@[1]@ == must(OpView::ClearCapabilities(CapSet::Bounding), "capabilities"@),
        r@[2]@ == must(OpView::ClearCapabilities(CapSet::Inheritable), "capabilities"@),
        r@[3]@ == must(OpView::ClearCapabilities(CapSet::Effective), "capabilities"@),
        r@[4]@ == must(OpView::ClearCapabilities(CapSet::Permitted), "capabilities"@),
{
    let steps = procedure::steps_view(r@);
    assert(steps.len() == 5);
    assert(steps[0] == r@[0]@);
    assert(steps[1] == r@[1]@);
    assert(steps[2] == r@[2]@);
    assert(steps[3] == r@[3]@);
    assert(steps[4] == r@[4]@);
}

/// A grant is mounted without set-user-id programs and devices; what can be
/// executed is read-only, and what can be written is not executable.
pub proof fn lemma_mount_flags_result(access: Access, r: u64)
    requires
        call_ensures(linux::mount_flags_for_access, (access,), r),
    ensures
        access == Access::ReadExec ==> r == 0x7,
        access == Access::ReadWrite ==> r == 0xe,
{
    assert(0x2u64 | 0x4u64 | 0x1u64 == 0x7u64 && 0x2u64 | 0x4u64 | 0x8u64 == 0xeu64)
        by (bit_vector);
}

/// A denied call fails with `EPERM` in a debug build and kills the process in a
/// release build.
pub proof fn lemma_deny_action_result(debug_build: bool, r: FilterAction)
    requires
        call_ensures(linux::seccomp_deny_action, (debug_build,), r),
    ensures
        debug_build ==> r == FilterAction::Errno(1),
        !debug_build ==> r == FilterAction::KillProcess,
{
}

} // verus!
