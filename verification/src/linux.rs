//! The Linux backend for [`apply`](crate::apply) and
//! [`tighten`](crate::tighten).
//!
//! On Linux the worker starts inside the user, mount, and network namespaces
//! requested by [`prepare`](crate::prepare()), then configures the namespaces
//! selected by the profile here: a `pivot_root` onto a purpose-built root,
//! capability drop and securebits lock, process-hardening `prctl`s,
//! `no_new_privs`, and an optional seccomp filter. The order is load-bearing.
//!
//! # Failure policy
//!
//! Every primitive this backend applies is *required*: if it fails, the worker
//! aborts rather than run with a weaker sandbox than its profile declares
//! (fail-closed).
//!
//! **Landlock** is a supplement to the mount namespace, which remains the
//! primary filesystem boundary, so its failure is passed over. **Seccomp** is
//! *opt-in* per worker class — the deny-all default installs no filter — but
//! once a profile opts in, applying it is required.

use crate::abi::EPERM;
use crate::abi::MS_NODEV;
use crate::abi::MS_NOEXEC;
use crate::abi::MS_NOSUID;
use crate::abi::MS_RDONLY;
use crate::error::Error;
use crate::error::ErrorView;
use crate::host::Host;
use crate::path::join;
use crate::path::join_under;
use crate::path;
use crate::procedure::CapSet;
use crate::procedure::Op;
use crate::procedure::OpView;
use crate::procedure::Session;
use crate::procedure::SessionView;
use crate::procedure::Step;
use crate::procedure::StepView;
use crate::procedure;
use crate::profile::Access;
use crate::profile::FsGrant;
use crate::profile::FsGrantView;
use crate::profile::Network;
use crate::profile::Profile;
use crate::profile::ProfileView;
use crate::profile::Restrictions;
use crate::profile::RestrictionsView;
use crate::profile::Syscalls;
use crate::profile::SyscallsView;
use crate::profile;
use crate::script;
use crate::unix::filter::FilterAction;
use crate::unix::filter::FilterView;
use crate::unix::hardening;
use crate::unix::landlock_rights::FS_EXECUTE;
use crate::unix::landlock_rights::LandlockAbi;
use crate::unix::landlock_rights;
use crate::unix::mount_namespace;
use crate::unix::network_namespace;
use crate::unix::seccomp;
use vstd::prelude::*;

verus! {

/// Staging path for the tmpfs that becomes `/` after `pivot_root`.
///
/// It exists only inside our fresh mount namespace, so it can never collide
/// with another process's view of the filesystem.
pub const STAGING_ROOT: &'static str = "/tmp/.sandbox-root";

/// The Landlock level that rights are requested at.
pub const LANDLOCK_ABI: LandlockAbi = LandlockAbi::V5;

/// The bytes of the staging path.
pub open spec fn staging_bytes() -> Seq<u8> {
    vstd::utf8::encode_utf8(STAGING_ROOT@)
}

/// The bytes of `name` below the staging path.
pub open spec fn staged(name: Seq<char>) -> Seq<u8> {
    path::join_relative(staging_bytes(), vstd::utf8::encode_utf8(name))
}

/// The `MS_*` flags of the bind mount behind a grant.
pub open spec fn grant_mount_flags(access: Access) -> u64 {
    match access {
        Access::ReadExec => MS_NOSUID | MS_NODEV | MS_RDONLY,
        Access::ReadWrite => MS_NOSUID | MS_NODEV | MS_NOEXEC,
    }
}

/// The Landlock rights of a path that can be read and written, but not
/// executed from.
pub open spec fn data_rights() -> u64 {
    (landlock_rights::read_rights(LANDLOCK_ABI) & !FS_EXECUTE) | landlock_rights::write_rights(
        LANDLOCK_ABI,
    )
}

/// The Landlock rights behind a grant.
pub open spec fn grant_rights(access: Access) -> u64 {
    match access {
        Access::ReadExec => landlock_rights::read_rights(LANDLOCK_ABI),
        Access::ReadWrite => data_rights(),
    }
}

/// The steps that bind one grant into the staging root: its path has to exist.
pub open spec fn grant_steps(grant: FsGrantView) -> Seq<StepView> {
    fs_steps(seq![OpView::PathExists(grant.path)]) + fs_steps(
        mount_namespace::bind_ops(
            grant.path,
            path::joined_under(staging_bytes(), grant.path),
            grant_mount_flags(grant.access),
        ),
    )
}

/// The steps that bind these grants into the staging root.
pub open spec fn all_grant_steps(grants: Seq<FsGrantView>) -> Seq<StepView>
    decreases grants.len(),
{
    if grants.len() == 0 {
        seq![]
    } else {
        all_grant_steps(grants.drop_last()) + grant_steps(grants.last())
    }
}

/// The operations as required parts of the filesystem setup.
pub open spec fn fs_steps(ops: Seq<OpView>) -> Seq<StepView> {
    procedure::required_steps(ops, "filesystem"@)
}

/// The steps that offer `/proc`: a new proc file system, or else the one that
/// is already there.
pub open spec fn proc_steps() -> Seq<StepView> {
    script::with_fallback(
        mount_namespace::proc_ops(staged("proc"@)),
        mount_namespace::bind_ops(
            vstd::utf8::encode_utf8("/proc"@),
            staged("proc"@),
            MS_RDONLY | MS_NOSUID | MS_NODEV,
        ),
    )
}

/// The operations that offer an empty, writable `/tmp` and make the staging
/// root the root directory.
pub open spec fn pivot_ops() -> Seq<OpView> {
    seq![OpView::CreateDirAll(staged("tmp"@))] + mount_namespace::tmpfs_ops(staged("tmp"@)) + seq![
        OpView::CreateDirAll(staged(".old_root"@)),
    ] + mount_namespace::pivot_ops(staging_bytes(), staged(".old_root"@)) + seq![
        OpView::ChangeDir(vstd::utf8::encode_utf8("/"@)),
    ] + mount_namespace::unmount_ops(vstd::utf8::encode_utf8("/.old_root"@))
}

/// The operations that let grants through Landlock, each behind a test that
/// its path exists.
pub open spec fn landlock_grant_ops(grants: Seq<FsGrantView>) -> Seq<OpView>
    decreases grants.len(),
{
    if grants.len() == 0 {
        seq![]
    } else {
        let grant = grants.last();
        landlock_grant_ops(grants.drop_last()).push(OpView::PathExists(grant.path)).push(
            OpView::LandlockAllow { path: grant.path, rights: grant_rights(grant.access) },
        )
    }
}

/// The operations that enforce a Landlock ruleset over these grants and
/// `/tmp`.
pub open spec fn landlock_ops(grants: Seq<FsGrantView>) -> Seq<OpView> {
    seq![
        OpView::LandlockCreate {
            handled: landlock_rights::read_rights(LANDLOCK_ABI) | landlock_rights::write_rights(
                LANDLOCK_ABI,
            ),
        },
    ] + landlock_grant_ops(grants) + seq![
        OpView::LandlockAllow {
            path: vstd::utf8::encode_utf8("/tmp"@),
            rights: data_rights(),
        },
        OpView::LandlockRestrictSelf,
    ]
}

/// The steps that build the worker's filesystem from these grants.
pub open spec fn filesystem_steps(grants: Seq<FsGrantView>) -> Seq<StepView> {
    fs_steps(seq![OpView::CreateDirAll(staging_bytes())] + mount_namespace::tmpfs_ops(staging_bytes()))
        + all_grant_steps(grants) + proc_steps() + fs_steps(pivot_ops()) + script::attempted(
        seq![OpView::RemoveDir(vstd::utf8::encode_utf8("/.old_root"@))],
        0,
    ) + script::with_tests(landlock_ops(grants))
}

/// The steps that configure the worker's network namespace.
pub open spec fn network_steps(scope: Network) -> Seq<StepView> {
    match scope {
        Network::Isolated | Network::Unrestricted => seq![],
        Network::Loopback => procedure::required_steps(
            network_namespace::loopback_ops(),
            "network_namespace"@,
        ),
    }
}

/// The operations that clear every capability set.
pub open spec fn capability_ops() -> Seq<OpView> {
    seq![
        OpView::ClearCapabilities(CapSet::Ambient),
        OpView::ClearCapabilities(CapSet::Bounding),
        OpView::ClearCapabilities(CapSet::Inheritable),
        OpView::ClearCapabilities(CapSet::Effective),
        OpView::ClearCapabilities(CapSet::Permitted),
    ]
}

/// The action taken when a denied syscall is invoked.
pub open spec fn deny_action(debug_build: bool) -> FilterAction {
    if debug_build {
        FilterAction::Errno(EPERM)
    } else {
        FilterAction::KillProcess
    }
}

/// The steps that filter the worker's system calls.
pub open spec fn syscall_steps(policy: SyscallsView, host: Host) -> Seq<StepView> {
    match policy {
        SyscallsView::Unfiltered => seq![],
        SyscallsView::Deny(names) => procedure::required_steps(
            seccomp::denylist_ops(names, deny_action(host.debug_build), host.arch@),
            "seccomp"@,
        ),
        SyscallsView::Allow(names) => procedure::required_steps(
            seccomp::allowlist_ops(names, deny_action(host.debug_build), host.arch@),
            "seccomp"@,
        ),
    }
}

/// The filters that a syscall policy stands for, in the order in which they
/// are installed.
pub open spec fn policy_filters(policy: SyscallsView, host: Host) -> Seq<FilterView> {
    match policy {
        SyscallsView::Unfiltered => seq![],
        SyscallsView::Deny(names) => seccomp::denylist_filters(
            seccomp::resolved_denials(names)->Ok_0,
            deny_action(host.debug_build),
        ),
        SyscallsView::Allow(names) => seccomp::allowlist_filters(
            seccomp::resolved_allowances(names)->Ok_0,
            deny_action(host.debug_build),
        ),
    }
}

/// The operations of these steps.
pub open spec fn ops_of(steps: Seq<StepView>) -> Seq<OpView> {
    Seq::new(steps.len(), |i: int| steps[i].op)
}

/// Whether a syscall policy is kept: its steps end in a refusal, or they
/// install programs that do what its filters say. They do not refuse a policy
/// that can be honored, and refuse every one on an architecture without system
/// call numbers.
pub open spec fn enforces(policy: SyscallsView, host: Host) -> bool {
    let ops = ops_of(syscall_steps(policy, host));
    &&& is_honorable(policy, host) ==> !seccomp::ends_in_refusal(ops)
    &&& !(policy is Unfiltered) && seccomp::is_foreign_arch(host.arch@)
        ==> seccomp::ends_in_refusal(ops)
    &&& seccomp::ends_in_refusal(ops) || seccomp::install_all(ops, policy_filters(policy, host))
}

/// Whether a syscall policy can be honored here for sure: there are system call
/// numbers for the architecture, and its names resolve.
pub open spec fn is_honorable(policy: SyscallsView, host: Host) -> bool {
    match policy {
        SyscallsView::Unfiltered => true,
        SyscallsView::Deny(names) => seccomp::is_known_arch(host.arch@)
            && seccomp::resolved_denials(names) is Ok,
        SyscallsView::Allow(names) => seccomp::is_known_arch(host.arch@)
            && seccomp::resolved_allowances(names) is Ok,
    }
}

/// The steps that confine the namespaces: propagation, network, filesystem.
pub open spec fn namespace_steps(policy: ProfileView) -> Seq<StepView> {
    procedure::required_steps(mount_namespace::root_private_ops(), "mount_namespace"@)
        + network_steps(policy.network) + filesystem_steps(policy.fs)
}

/// The steps that give up the process's own authority.
pub open spec fn hardening_steps() -> Seq<StepView> {
    seq![procedure::required_step(hardening::securebits_op(), "securebits"@)]
        + procedure::required_steps(capability_ops(), "capabilities"@) + seq![
        procedure::required_step(hardening::dumpable_off_op(), "dumpable"@),
        procedure::required_step(hardening::pdeathsig_kill_op(), "pdeathsig"@),
        procedure::required_step(hardening::no_new_privs_op(), "no_new_privs"@),
    ]
}

/// The procedure that applies a policy.
pub open spec fn apply_steps(policy: ProfileView, host: Host) -> Seq<StepView> {
    namespace_steps(policy) + hardening_steps() + syscall_steps(policy.syscalls, host)
}

/// The procedure that narrows an applied sandbox, where it can be narrowed so.
pub open spec fn tighten_steps(ratchet: RestrictionsView, host: Host) -> Seq<StepView> {
    match ratchet.syscalls {
        Some(names) => procedure::required_steps(
            seccomp::denylist_ops(names, deny_action(host.debug_build), host.arch@),
            "seccomp"@,
        ),
        None => seq![],
    }
}

/// Why paths cannot be revoked.
pub const NO_REVOCATION: &'static str = "path revocation via tighten is not supported in v1";

/// The procedure that applies `profile` to the current process. See the module
/// docs for ordering and failure policy.
pub fn apply(profile: &Profile, host: &Host) -> (r: Result<Session, Error>)
    ensures
        r is Ok,
        r->Ok_0@ == SessionView::initial(apply_steps(profile@, *host)),
        enforces(profile@.syscalls, *host),
{
    let p = &profile.inner;

    // Detach propagation in the mount namespace created with the child. Even a
    // profile with no filesystem grants pivots to a minimal tmpfs root; an
    // empty grant set must deny rather than preserve the host filesystem view.
    let mut steps = required(mount_namespace::make_root_private(), "mount_namespace");

    // Configure an isolated network namespace, when requested, before
    // filesystem setup so any FS step that could reach the network is already
    // contained.
    extend(&mut steps, apply_network(p.network));

    // Filesystem: tmpfs root, per-grant binds, /proc, /tmp, pivot_root, then
    // opportunistic Landlock.
    extend(&mut steps, apply_filesystem(p.fs.as_slice()));
    assert(procedure::steps_view(steps@) == namespace_steps(profile@));

    // Lock securebits *before* the capability drop, while we still hold
    // CAP_SETPCAP: a worker that can regain root-like authority across an
    // execve is not sandboxed.
    let mut hardened = required(vec![hardening::lock_securebits()], "securebits");

    // Drop every capability: this is the deny-all base.
    extend(&mut hardened, drop_all_capabilities());

    extend(&mut hardened, required(vec![hardening::set_dumpable_off()], "dumpable"));
    // PR_SET_PDEATHSIG must come after any credential change.
    extend(&mut hardened, required(vec![hardening::set_pdeathsig_kill()], "pdeathsig"));

    // A prerequisite for unprivileged seccomp below.
    extend(&mut hardened, required(vec![hardening::set_no_new_privs()], "no_new_privs"));
    assert(procedure::steps_view(hardened@) =~= hardening_steps());
    extend(&mut steps, hardened);

    // Seccomp, *opt-in* per worker class. Denylists extend the
    // dangerous-syscall baseline; allowlists deny everything else while still
    // refusing to re-enable anything from that baseline.
    let ops = match p.syscalls {
        Syscalls::Unfiltered => Vec::new(),
        Syscalls::Deny(names) => seccomp::apply_denylist(
            names,
            seccomp_deny_action(host.debug_build),
            host.arch,
        ),
        Syscalls::Allow(names) => seccomp::apply_allowlist(
            names,
            seccomp_deny_action(host.debug_build),
            host.arch,
        ),
    };
    let ghost ops_model = procedure::ops_view(ops@);
    assert(syscall_steps(profile@.syscalls, *host) =~= procedure::required_steps(
        ops_model,
        "seccomp"@,
    ));
    assert(ops_of(syscall_steps(profile@.syscalls, *host)) =~= ops_model);
    extend(&mut steps, required(ops, "seccomp"));
    proof {
        lemma_apply_is_sound(profile@, *host);
    }
    Ok(Session::start(steps))
}

/// The procedure that stacks additional, strictly-narrowing restrictions onto
/// an already-applied sandbox. Runs after the worker has initialized and may be
/// multi-threaded.
///
/// Path revocation via a stacked Landlock ruleset needs the base profile's full
/// grant set to re-express (Landlock layers intersect), which is not available
/// here. Rather than silently fail open, it is rejected.
pub fn tighten(restrictions: &Restrictions, host: &Host) -> (r: Result<Session, Error>)
    ensures
        r is Ok <==> restrictions@.revoke_paths.len() == 0,
        r matches Ok(session) ==> session@ == SessionView::initial(
            tighten_steps(restrictions@, *host),
        ),
        r matches Err(error) ==> error@ == ErrorView::RequiredPrimitiveUnavailable(NO_REVOCATION@),
        r is Ok && restrictions@.syscalls is Some ==> enforces(
            SyscallsView::Deny(restrictions@.syscalls->Some_0),
            *host,
        ),
{
    let r = &restrictions.inner;
    if r.revoke_paths.len() > 0 {
        return Err(Error::RequiredPrimitiveUnavailable(NO_REVOCATION));
    }
    // Filters compose; the kernel takes the most restrictive verdict across
    // every installed filter.
    let ops = match &r.syscalls {
        Some(names) => seccomp::apply_denylist(
            names.as_slice(),
            seccomp_deny_action(host.debug_build),
            host.arch,
        ),
        None => Vec::new(),
    };
    let ghost ops_model = procedure::ops_view(ops@);
    assert(ops_of(procedure::required_steps(ops_model, "seccomp"@)) =~= ops_model);
    let steps = required(ops, "seccomp");
    assert(procedure::steps_view(steps@) =~= tighten_steps(restrictions@, *host));
    Ok(Session::start(steps))
}

/// Configure the network namespace to match `scope`. Required: a failure
/// aborts.
pub fn apply_network(scope: Network) -> (r: Vec<Step>)
    ensures
        procedure::steps_view(r@) == network_steps(scope),
{
    let steps = match scope {
        Network::Isolated | Network::Unrestricted => Vec::new(),
        Network::Loopback => required(
            network_namespace::bring_up_loopback(),
            "network_namespace",
        ),
    };
    assert(procedure::steps_view(steps@) =~= network_steps(scope));
    steps
}

/// Real filesystem setup: tmpfs staging root, per-grant bind mounts,
/// `pivot_root`, old-root cleanup, and layered Landlock enforcement.
pub fn apply_filesystem(grants: &[FsGrant]) -> (r: Vec<Step>)
    ensures
        procedure::steps_view(r@) == filesystem_steps(profile::grants_view(grants@)),
{
    let staging = STAGING_ROOT.as_bytes();
    let ghost views = profile::grants_view(grants@);

    let mut ops = vec![Op::CreateDirAll(vstd::slice::slice_to_vec(staging))];
    chain(&mut ops, mount_namespace::mount_tmpfs(staging));
    let mut steps = fs_required(ops);
    let ghost opening = procedure::steps_view(steps@);

    // Bind each grant into the staging root at the same path
    // (source `/bin` => `staging/bin`).
    let mut i: usize = 0;
    assert(views.take(0) =~= seq![]);
    assert(opening + all_grant_steps(views.take(0)) =~= opening);
    while i < grants.len()
        invariant
            i <= grants@.len(),
            staging@ == staging_bytes(),
            views == profile::grants_view(grants@),
            procedure::steps_view(steps@) == opening + all_grant_steps(views.take(i as int)),
        decreases grants@.len() - i,
    {
        let source = grants[i].path.as_slice();
        let target = join_under(staging, source);
        let flags = mount_flags_for_access(grants[i].access);
        extend(
            &mut steps,
            fs_required(vec![Op::PathExists(vstd::slice::slice_to_vec(source))]),
        );
        extend(
            &mut steps,
            fs_required(mount_namespace::bind_mount(source, target.as_slice(), flags)),
        );
        assert(views.take(i + 1).drop_last() =~= views.take(i as int));
        assert(procedure::ops_view(seq![Op::PathExists(grants@[i as int].path)]) =~= seq![
            OpView::PathExists(views[i as int].path),
        ]);
        assert(procedure::steps_view(steps@) =~= opening + all_grant_steps(views.take(i + 1)));
        i = i + 1;
    }
    assert(views.take(i as int) =~= views);

    // Best-effort `/proc`: works cleanly in a PID namespace and is still useful
    // for `/proc/self` when we don't have one.
    let proc_target = join(staging, "proc".as_bytes());
    extend(
        &mut steps,
        script::fall_back(
            mount_namespace::mount_proc(proc_target.as_slice()),
            mount_namespace::bind_mount(
                "/proc".as_bytes(),
                proc_target.as_slice(),
                MS_RDONLY | MS_NOSUID | MS_NODEV,
            ),
        ),
    );

    // Writable tmpfs at `/tmp` inside the sandbox.
    let tmp_target = join(staging, "tmp".as_bytes());
    let mut pivot = vec![Op::CreateDirAll(vstd::slice::slice_to_vec(tmp_target.as_slice()))];
    chain(&mut pivot, mount_namespace::mount_tmpfs(tmp_target.as_slice()));

    // Pivot root: staging becomes `/`, old root moves to `staging/.old_root`.
    let old_root = join(staging, ".old_root".as_bytes());
    chain(&mut pivot, vec![Op::CreateDirAll(vstd::slice::slice_to_vec(old_root.as_slice()))]);
    chain(&mut pivot, mount_namespace::pivot_root(staging, old_root.as_slice()));
    chain(&mut pivot, vec![Op::ChangeDir(vstd::slice::slice_to_vec("/".as_bytes()))]);

    // Detach and remove the old root so nothing leaks through.
    chain(&mut pivot, mount_namespace::umount("/.old_root".as_bytes()));
    assert(procedure::ops_view(pivot@) =~= pivot_ops());
    extend(&mut steps, fs_required(pivot));
    let cleanup = vec![Op::RemoveDir(vstd::slice::slice_to_vec("/.old_root".as_bytes()))];
    assert(procedure::ops_view(cleanup@) =~= seq![
        OpView::RemoveDir(vstd::utf8::encode_utf8("/.old_root"@)),
    ]);
    extend(&mut steps, script::attempt(cleanup, 0));

    // Landlock is a supplementary, opportunistic layer: a failure degrades
    // rather than aborts.
    extend(&mut steps, apply_landlock(grants));
    steps
}

/// Translate a policy [`Access`] into `MS_*` remount flags.
///
/// `MS_NOSUID` and `MS_NODEV` are always set — no setuid execution and no
/// device-node creation inside the sandbox, regardless of the grant.
pub fn mount_flags_for_access(access: Access) -> (r: u64)
    ensures
        r == grant_mount_flags(access),
{
    let base: u64 = MS_NOSUID | MS_NODEV;
    match access {
        Access::ReadExec => base | MS_RDONLY,
        Access::ReadWrite => base | MS_NOEXEC,
    }
}

/// The steps that install a Landlock ruleset covering every grant, then
/// enforce it.
pub fn apply_landlock(grants: &[FsGrant]) -> (r: Vec<Step>)
    ensures
        procedure::steps_view(r@) == script::with_tests(
            landlock_ops(profile::grants_view(grants@)),
        ),
{
    let ghost views = profile::grants_view(grants@);
    let abi = LANDLOCK_ABI;
    let handled: u64 = landlock_rights::rights_from_all(abi);
    let from_read: u64 = landlock_rights::rights_from_read(abi);
    let from_write: u64 = landlock_rights::rights_from_write(abi);
    let data: u64 = (from_read & !FS_EXECUTE) | from_write;

    let mut ops = vec![Op::LandlockCreate { handled }];
    let ghost opening = procedure::ops_view(ops@);
    let mut i: usize = 0;
    assert(views.take(0) =~= seq![]);
    assert(opening + landlock_grant_ops(views.take(0)) =~= opening);
    while i < grants.len()
        invariant
            i <= grants@.len(),
            views == profile::grants_view(grants@),
            from_read == grant_rights(Access::ReadExec),
            data == grant_rights(Access::ReadWrite),
            procedure::ops_view(ops@) == opening + landlock_grant_ops(views.take(i as int)),
        decreases grants@.len() - i,
    {
        let rights: u64 = match grants[i].access {
            Access::ReadExec => from_read,
            Access::ReadWrite => data,
        };
        let ghost before = ops@;
        ops.push(Op::PathExists(vstd::slice::slice_to_vec(grants[i].path.as_slice())));
        ops.push(
            Op::LandlockAllow { path: vstd::slice::slice_to_vec(grants[i].path.as_slice()), rights },
        );
        assert(views.take(i + 1).drop_last() =~= views.take(i as int));
        assert(procedure::ops_view(ops@) =~= procedure::ops_view(before).push(
            OpView::PathExists(views[i as int].path),
        ).push(OpView::LandlockAllow { path: views[i as int].path, rights }));
        assert(procedure::ops_view(ops@) =~= opening + landlock_grant_ops(views.take(i + 1)));
        i = i + 1;
    }
    assert(views.take(i as int) =~= views);
    let ghost before = ops@;
    ops.push(
        Op::LandlockAllow { path: vstd::slice::slice_to_vec("/tmp".as_bytes()), rights: data },
    );
    ops.push(Op::LandlockRestrictSelf);
    assert(opening =~= seq![
        OpView::LandlockCreate {
            handled: landlock_rights::read_rights(LANDLOCK_ABI) | landlock_rights::write_rights(
                LANDLOCK_ABI,
            ),
        },
    ]);
    assert(procedure::ops_view(ops@) =~= procedure::ops_view(before) + seq![
        OpView::LandlockAllow {
            path: vstd::utf8::encode_utf8("/tmp"@),
            rights: data_rights(),
        },
        OpView::LandlockRestrictSelf,
    ]);
    assert(procedure::ops_view(ops@) =~= landlock_ops(views));
    script::attempt_with_tests(ops)
}

/// Drop every OS capability from the current thread's Ambient, Bounding,
/// Inheritable, Effective, and Permitted sets.
///
/// Order matters: Ambient first (independent), then Bounding (needs
/// `CAP_SETPCAP`, still in Effective), then Inheritable, then Effective, then
/// Permitted. Clearing Effective before Permitted preserves the kernel's
/// `Effective ⊆ Permitted` invariant.
pub fn drop_all_capabilities() -> (r: Vec<Step>)
    ensures
        procedure::steps_view(r@) == procedure::required_steps(capability_ops(), "capabilities"@),
{
    let ops = vec![
        Op::ClearCapabilities(CapSet::Ambient),
        Op::ClearCapabilities(CapSet::Bounding),
        Op::ClearCapabilities(CapSet::Inheritable),
        Op::ClearCapabilities(CapSet::Effective),
        Op::ClearCapabilities(CapSet::Permitted),
    ];
    assert(procedure::ops_view(ops@) =~= capability_ops());
    required(ops, "capabilities")
}

/// The action taken when a denied syscall is invoked.
///
/// Release builds kill the process — the denied set is a fixed, intentional
/// list of escape vectors, so hitting one is a hard fault. Debug builds return
/// `EPERM` instead: still enforced, but survivable, so a developer sees the
/// `errno` rather than an opaque kill.
pub fn seccomp_deny_action(debug_build: bool) -> (r: FilterAction)
    ensures
        r == deny_action(debug_build),
{
    if debug_build {
        FilterAction::Errno(EPERM)
    } else {
        FilterAction::KillProcess
    }
}

/// The operations as steps that are required under a primitive's name.
fn required(ops: Vec<Op>, primitive: &'static str) -> (r: Vec<Step>)
    ensures
        procedure::steps_view(r@) == procedure::required_steps(
            procedure::ops_view(ops@),
            primitive@,
        ),
{
    script::required(ops, primitive)
}

/// Shorthand for the required filesystem-scaffold steps.
fn fs_required(ops: Vec<Op>) -> (r: Vec<Step>)
    ensures
        procedure::steps_view(r@) == fs_steps(procedure::ops_view(ops@)),
{
    required(ops, "filesystem")
}

/// Adds steps to the end of a procedure.
fn extend(steps: &mut Vec<Step>, more: Vec<Step>)
    ensures
        procedure::steps_view(final(steps)@) == procedure::steps_view(old(steps)@)
            + procedure::steps_view(more@),
{
    let mut rest = more;
    proof {
        script::lemma_steps_view_concat(steps@, rest@);
    }
    steps.append(&mut rest);
}

/// Adds operations to the end of a list.
fn chain(ops: &mut Vec<Op>, more: Vec<Op>)
    ensures
        procedure::ops_view(final(ops)@) == procedure::ops_view(old(ops)@) + procedure::ops_view(
            more@,
        ),
{
    let mut rest = more;
    let ghost front = ops@;
    let ghost back = rest@;
    ops.append(&mut rest);
    assert(procedure::ops_view(front + back) =~= procedure::ops_view(front) + procedure::ops_view(
        back,
    ));
}

proof fn lemma_grant_steps_sound(grants: Seq<FsGrantView>)
    ensures
        script::is_sound(all_grant_steps(grants)),
    decreases grants.len(),
{
    if grants.len() > 0 {
        let grant = grants.last();
        let bind = mount_namespace::bind_ops(
            grant.path,
            path::joined_under(staging_bytes(), grant.path),
            grant_mount_flags(grant.access),
        );
        lemma_grant_steps_sound(grants.drop_last());
        script::lemma_required_sound(seq![OpView::PathExists(grant.path)], "filesystem"@);
        script::lemma_required_sound(bind, "filesystem"@);
        script::lemma_sound_concat(
            fs_steps(seq![OpView::PathExists(grant.path)]),
            fs_steps(bind),
        );
        script::lemma_sound_concat(all_grant_steps(grants.drop_last()), grant_steps(grant));
    }
}

/// The filesystem setup is sound: its best-effort parts can be given up
/// without passing over anything required.
pub proof fn lemma_filesystem_is_sound(grants: Seq<FsGrantView>)
    ensures
        script::is_sound(filesystem_steps(grants)),
{
    let opening = seq![OpView::CreateDirAll(staging_bytes())] + mount_namespace::tmpfs_ops(staging_bytes());
    let cleanup = seq![OpView::RemoveDir(vstd::utf8::encode_utf8("/.old_root"@))];
    script::lemma_required_sound(opening, "filesystem"@);
    lemma_grant_steps_sound(grants);
    script::lemma_fallback_sound(
        mount_namespace::proc_ops(staged("proc"@)),
        mount_namespace::bind_ops(
            vstd::utf8::encode_utf8("/proc"@),
            staged("proc"@),
            MS_RDONLY | MS_NOSUID | MS_NODEV,
        ),
    );
    script::lemma_required_sound(pivot_ops(), "filesystem"@);
    assert(script::is_sound(script::attempted(cleanup, 0)));
    script::lemma_tests_sound(landlock_ops(grants));
    let a = fs_steps(opening);
    let b = all_grant_steps(grants);
    let c = proc_steps();
    let d = fs_steps(pivot_ops());
    let e = script::attempted(cleanup, 0);
    script::lemma_sound_concat(a, b);
    script::lemma_sound_concat(a + b, c);
    script::lemma_sound_concat(a + b + c, d);
    script::lemma_sound_concat(a + b + c + d, e);
    script::lemma_sound_concat(a + b + c + d + e, script::with_tests(landlock_ops(grants)));
}

/// The procedure that applies a policy is sound, whatever the policy: nothing
/// in it passes over a required step.
pub proof fn lemma_apply_is_sound(policy: ProfileView, host: Host)
    ensures
        script::is_sound(apply_steps(policy, host)),
{
    let a = procedure::required_steps(mount_namespace::root_private_ops(), "mount_namespace"@);
    let b = network_steps(policy.network);
    let c = filesystem_steps(policy.fs);
    script::lemma_required_sound(mount_namespace::root_private_ops(), "mount_namespace"@);
    script::lemma_required_sound(network_namespace::loopback_ops(), "network_namespace"@);
    assert(script::is_sound(b));
    lemma_filesystem_is_sound(policy.fs);
    script::lemma_sound_concat(a, b);
    script::lemma_sound_concat(a + b, c);
    assert(script::is_sound(hardening_steps()));
    assert(script::is_sound(syscall_steps(policy.syscalls, host)));
    script::lemma_sound_concat(namespace_steps(policy), hardening_steps());
    script::lemma_sound_concat(
        namespace_steps(policy) + hardening_steps(),
        syscall_steps(policy.syscalls, host),
    );
}

} // verus!
