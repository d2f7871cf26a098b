//! What the stages do on each platform, and which role a host finds in its
//! arguments, said of the results themselves.

use crate::error::Error;
use crate::host::Host;
use crate::host::Platform;
use crate::host;
use crate::linux;
use crate::linux_layout;
use crate::meshworker::MeshHostError;
use crate::meshworker::RoleError;
use crate::meshworker::RoleErrorView;
use crate::meshworker::SandboxRole;
use crate::meshworker;
use crate::procedure::Session;
use crate::profile::Profile;
use crate::profile::Restrictions;
use crate::profile::SyscallsView;
use crate::unix::filter;
use crate::unix::seccomp;
use crate::unix::seccomp_laws;
use crate::unix::syscalls;
use crate::windows;
use vstd::prelude::*;

verus! {

/// The sandbox is switched off in a debug build that was asked to, and nowhere
/// else.
pub proof fn lemma_switch(host: Host, r: bool)
    requires
        call_ensures(host::sandbox_disabled, (&host,), r),
    ensures
        r <==> host.debug_build && host.disable_requested,
        host.is_disabled() <==> host.debug_build && host.disable_requested,
{
}

/// Whether a session has ended well without a single step.
pub open spec fn is_done(session: Session) -> bool {
    session@.steps.len() == 0 && session@.failure is None
}

/// Applying a policy does nothing where the sandbox is switched off, refuses off
/// Linux, and on Linux starts at the first step of the policy's procedure, with
/// nothing failed.
pub proof fn lemma_apply_result(profile: Profile, host: Host, r: Result<Session, Error>)
    requires
        call_ensures(crate::apply, (&profile, &host), r),
    ensures
        ({
            let off = host.debug_build && host.disable_requested;
            &&& off ==> r is Ok && is_done(r->Ok_0)
            &&& !off && host.platform != Platform::Linux ==> r is Err && r->Err_0
                is UnsupportedPlatform
            &&& !off && host.platform == Platform::Linux ==> {
                &&& r matches Ok(session)
                &&& session@.position == 0
                &&& session@.failure is None
                &&& session@.interface_flags == 0
                &&& session@.steps == linux::apply_steps(profile@, host)
                &&& session@.steps.len() > 10
                &&& linux::enforces(profile@.syscalls, host)
            }
        }),
{
}

/// Tightening does nothing where the sandbox is switched off and refuses off
/// Linux. On Linux it refuses to revoke a path, since it cannot; otherwise it
/// starts at the first step of the ratchet's procedure, with nothing failed.
pub proof fn lemma_tighten_result(ratchet: Restrictions, host: Host, r: Result<Session, Error>)
    requires
        call_ensures(crate::tighten, (&ratchet, &host), r),
    ensures
        ({
            let off = host.debug_build && host.disable_requested;
            let revokes = ratchet@.revoke_paths.len() > 0;
            &&& off ==> r is Ok && is_done(r->Ok_0)
            &&& !off && host.platform != Platform::Linux ==> r is Err && r->Err_0
                is UnsupportedPlatform
            &&& !off && host.platform == Platform::Linux && revokes ==> {
                &&& r matches Err(Error::RequiredPrimitiveUnavailable(what))
                &&& what@ == "path revocation via tighten is not supported in v1"@
            }
            &&& !off && host.platform == Platform::Linux && !revokes ==> {
                &&& r matches Ok(session)
                &&& session@.position == 0
                &&& session@.failure is None
                &&& session@.steps == linux::tighten_steps(ratchet@, host)
                &&& session@.steps.len() > 0 <==> ratchet@.syscalls is Some
            }
        }),
{
}

/// What a worker exits with, and what a developer sets.
pub proof fn lemma_agreed_values()
    ensures
        crate::EXIT_SANDBOX_FAILED == 90,
        crate::DISABLE_ENV@ == "OPENVMM_SANDBOX_DISABLE"@,
        meshworker::APPLY_CONTEXT@ == "failed to apply worker host sandbox"@,
{
}

/// Whether an argument is meant to give a role.
pub open spec fn asks_for_role(arg: Seq<char>) -> bool {
    "--openvmm-sandbox-role="@.is_prefix_of(arg)
}

/// Whether an argument gives this role.
pub open spec fn gives(arg: Seq<char>, role: SandboxRole) -> bool {
    match role {
        SandboxRole::Vm => arg == "--openvmm-sandbox-role="@ + "vm"@,
        SandboxRole::Tpm => arg == "--openvmm-sandbox-role="@ + "tpm"@,
    }
}

/// Whether an argument gives some role.
pub open spec fn gives_one(arg: Seq<char>) -> bool {
    gives(arg, SandboxRole::Vm) || gives(arg, SandboxRole::Tpm)
}

/// Whether argument `i` gives this role and no other argument before `n` is
/// meant to give one.
pub open spec fn only_role(args: Seq<Seq<char>>, role: SandboxRole, i: int, n: int) -> bool {
    &&& 0 <= i < n
    &&& gives(args[i], role)
    &&& forall|j: int| 0 <= j < n && j != i ==> !asks_for_role(#[trigger] args[j])
}

/// Whether no argument before `n` is meant to give a role.
pub open spec fn no_role(args: Seq<Seq<char>>, n: int) -> bool {
    forall|j: int| 0 <= j < n ==> !asks_for_role(#[trigger] args[j])
}

/// Whether argument `k` is the first that is wrong for naming no role.
pub open spec fn unknown_at(args: Seq<Seq<char>>, value: Seq<char>, k: int) -> bool {
    &&& 0 <= k < args.len()
    &&& args[k] == "--openvmm-sandbox-role="@ + value
    &&& !gives_one(args[k])
    &&& no_role(args, k) || exists|i: int, role: SandboxRole| #[trigger]
        only_role(args, role, i, k)
}

/// Whether argument `k` is the first that is wrong for giving a second role.
pub open spec fn repeated_at(args: Seq<Seq<char>>, k: int) -> bool {
    &&& 0 <= k < args.len()
    &&& gives_one(args[k])
    &&& exists|i: int, role: SandboxRole| #[trigger] only_role(args, role, i, k)
}

proof fn lemma_role_arg_forms(arg: Seq<char>)
    ensures
        meshworker::is_role_arg(arg) <==> asks_for_role(arg),
        asks_for_role(arg) ==> arg == "--openvmm-sandbox-role="@ + arg.skip(
            "--openvmm-sandbox-role="@.len() as int,
        ),
        asks_for_role(arg) ==> (meshworker::role_named(
            arg.skip(meshworker::SANDBOX_ROLE_ARG@.len() as int),
        ) matches Some(role) ==> gives(arg, role)),
        asks_for_role(arg) ==> (meshworker::role_named(
            arg.skip(meshworker::SANDBOX_ROLE_ARG@.len() as int),
        ) is None ==> !gives_one(arg)),
        gives_one(arg) ==> asks_for_role(arg),
{
    let prefix = "--openvmm-sandbox-role="@;
    let n = prefix.len() as int;
    if asks_for_role(arg) {
        assert(arg =~= prefix + arg.skip(n));
        if gives(arg, SandboxRole::Vm) {
            assert(arg.skip(n) =~= "vm"@);
        }
        if gives(arg, SandboxRole::Tpm) {
            assert(arg.skip(n) =~= "tpm"@);
        }
    }
    if gives(arg, SandboxRole::Vm) {
        assert(prefix =~= arg.subrange(0, n));
    }
    if gives(arg, SandboxRole::Tpm) {
        assert(prefix =~= arg.subrange(0, n));
    }
}

proof fn lemma_role_cases(args: Seq<Seq<char>>)
    ensures
        meshworker::role_in(args) matches Ok(found) ==> found is None ==> no_role(
            args,
            args.len() as int,
        ),
        meshworker::role_in(args) matches Ok(Some(role)) ==> exists|i: int| #[trigger]
            only_role(args, role, i, args.len() as int),
        meshworker::role_in(args) matches Err(RoleErrorView::Unknown(value)) ==> exists|k: int|
         #[trigger]
            unknown_at(args, value, k),
        meshworker::role_in(args) matches Err(fault) ==> fault is Repeated ==> exists|k: int|
         #[trigger]
            repeated_at(args, k),
    decreases args.len(),
{
    if args.len() > 0 {
        let front = args.drop_last();
        let n = front.len() as int;
        let arg = args.last();
        assert(arg == args[n]);
        lemma_role_cases(front);
        lemma_role_arg_forms(arg);
        assert forall|j: int| 0 <= j < n implies front[j] == #[trigger] args[j] by {}
        assert forall|k: int| 0 <= k <= n implies no_role(front, k) == #[trigger] no_role(args, k) by {
            assert forall|j: int| 0 <= j < k implies asks_for_role(front[j]) == asks_for_role(
                #[trigger] args[j],
            ) by {}
            if no_role(front, k) {
                assert forall|j: int| 0 <= j < k implies !asks_for_role(#[trigger] args[j]) by {
                    assert(!asks_for_role(front[j]));
                }
            }
        }
        assert forall|role: SandboxRole, i: int, k: int| 0 <= k <= n implies only_role(
            front,
            role,
            i,
            k,
        ) == #[trigger] only_role(args, role, i, k) by {
            if only_role(front, role, i, k) {
                assert forall|j: int| 0 <= j < k && j != i implies !asks_for_role(
                    #[trigger] args[j],
                ) by {
                    assert(!asks_for_role(front[j]));
                }
            }
            if only_role(args, role, i, k) {
                assert forall|j: int| 0 <= j < k && j != i implies !asks_for_role(
                    #[trigger] front[j],
                ) by {
                    assert(!asks_for_role(args[j]));
                }
            }
        }
        match meshworker::role_in(front) {
            Err(RoleErrorView::Unknown(value)) => {
                let k = choose|k: int| #[trigger] unknown_at(front, value, k);
                if !no_role(front, k) {
                    let (i, role) = choose|i: int, role: SandboxRole| #[trigger]
                        only_role(front, role, i, k);
                    assert(only_role(args, role, i, k));
                } else {
                    assert(no_role(args, k));
                }
                assert(unknown_at(args, value, k));
                assert(meshworker::role_in(args)->Err_0->Unknown_0 == value);
            },
            Err(RoleErrorView::Repeated) => {
                let k = choose|k: int| #[trigger] repeated_at(front, k);
                let (i, role) = choose|i: int, role: SandboxRole| #[trigger]
                    only_role(front, role, i, k);
                assert(only_role(args, role, i, k));
                assert(repeated_at(args, k));
            },
            Ok(None) => {
                assert(no_role(args, n));
                if asks_for_role(arg) {
                    let value = arg.skip("--openvmm-sandbox-role="@.len() as int);
                    match meshworker::role_named(value) {
                        None => {
                            assert(unknown_at(args, value, n));
                            assert(meshworker::role_in(args)->Err_0->Unknown_0 == value);
                        },
                        Some(role) => {
                            assert(only_role(args, role, n, args.len() as int));
                        },
                    }
                } else {
                    assert(no_role(args, args.len() as int));
                }
            },
            Ok(Some(role)) => {
                let i = choose|i: int| #[trigger] only_role(front, role, i, n);
                assert(only_role(args, role, i, n));
                if asks_for_role(arg) {
                    let value = arg.skip("--openvmm-sandbox-role="@.len() as int);
                    if meshworker::role_named(value) is None {
                        assert(unknown_at(args, value, n));
                        assert(meshworker::role_in(args)->Err_0->Unknown_0 == value);
                    } else {
                        assert(repeated_at(args, n));
                    }
                } else {
                    assert(only_role(args, role, i, args.len() as int));
                }
            },
        }
    }
}

/// A host has a role exactly where one argument gives it and no other is meant
/// to. Where several are, the first that names no role, or names a second one,
/// is what it is told of.
pub proof fn lemma_role_found(args: &[String], r: Result<Option<SandboxRole>, RoleError>)
    requires
        call_ensures(meshworker::sandbox_role_from_args, (args,), r),
    ensures
        ({
            let texts = Seq::new(args@.len(), |i: int| args@[i]@);
            match r {
                Ok(None) => no_role(texts, args@.len() as int),
                Ok(Some(role)) => exists|i: int| #[trigger]
                    only_role(texts, role, i, args@.len() as int),
                Err(RoleError::Unknown(value)) => exists|k: int| #[trigger]
                    unknown_at(texts, value@, k),
                Err(RoleError::Repeated) => exists|k: int| #[trigger] repeated_at(texts, k),
            }
        }),
{
    let texts = Seq::new(args@.len(), |i: int| args@[i]@);
    assert(meshworker::args_view(args@) =~= texts);
    lemma_role_cases(texts);
}

/// A host process is confined by applying the policy of the role that it finds
/// in its arguments. Without a role it is left alone, and a faulty role is an
/// error.
pub proof fn lemma_mesh_host_follows_role(
    args: &[String],
    host: Host,
    role: Result<Option<SandboxRole>, RoleError>,
    r: Result<Option<Session>, MeshHostError>,
)
    requires
        call_ensures(meshworker::sandbox_role_from_args, (args,), role),
        call_ensures(meshworker::apply_vmm_mesh_host_sandbox, (args, &host), r),
    ensures
        match role {
            Err(fault) => r matches Err(MeshHostError::Role(told)) && told@ == fault@,
            Ok(None) => r matches Ok(None),
            Ok(Some(role)) => forall|profile: Profile, applied: Result<Session, Error>|
                call_ensures(SandboxRole::profile, (role,), profile) && #[trigger] call_ensures(
                    crate::apply,
                    (&profile, &host),
                    applied,
                ) ==> match applied {
                    Ok(session) => r matches Ok(Some(own)) && own@ == session@,
                    Err(error) => r matches Err(MeshHostError::Sandbox(own)) && own@ == error@,
                },
        },
{
}

/// The Windows half refuses to apply or tighten anything.
pub proof fn lemma_windows_refuses(
    profile: Profile,
    ratchet: Restrictions,
    applied: Result<Session, Error>,
    tightened: Result<Session, Error>,
)
    requires
        call_ensures(windows::apply, (&profile,), applied),
        call_ensures(windows::tighten, (&ratchet,), tightened),
    ensures
        applied is Err && applied->Err_0 is UnsupportedPlatform,
        tightened is Err && tightened->Err_0 is UnsupportedPlatform,
{
}

/// The Linux half does what the stages do on Linux.
pub proof fn lemma_linux_half(
    profile: Profile,
    ratchet: Restrictions,
    host: Host,
    applied: Result<Session, Error>,
    tightened: Result<Session, Error>,
    own_applied: Result<Session, Error>,
    own_tightened: Result<Session, Error>,
)
    requires
        host.platform == Platform::Linux,
        !(host.debug_build && host.disable_requested),
        call_ensures(crate::apply, (&profile, &host), applied),
        call_ensures(crate::tighten, (&ratchet, &host), tightened),
        call_ensures(linux::apply, (&profile, &host), own_applied),
        call_ensures(linux::tighten, (&ratchet, &host), own_tightened),
    ensures
        own_applied is Ok && applied is Ok && own_applied->Ok_0@ == applied->Ok_0@,
        own_tightened is Ok <==> tightened is Ok,
        own_tightened is Ok ==> own_tightened->Ok_0@ == tightened->Ok_0@,
        own_tightened is Err ==> own_tightened->Err_0@ == tightened->Err_0@,
{
}

/// Whether the names of a syscall policy can be resolved.
pub open spec fn has_good_names(policy: SyscallsView) -> bool {
    match policy {
        SyscallsView::Unfiltered => true,
        SyscallsView::Deny(names) => forall|i: int|
            0 <= i < names.len() ==> seccomp_laws::is_deniable(#[trigger] names[i]),
        SyscallsView::Allow(names) => forall|i: int|
            0 <= i < names.len() ==> syscalls::syscall_nr(#[trigger] names[i]) is Some,
    }
}

/// Whether the architecture of a host is x86-64, in whatever case it is spelled.
pub open spec fn is_x86_64(host: Host) -> bool {
    vstd::utf8::is_ascii_chars(host.arch@) && filter::lowercase(host.arch@) == "x86_64"@
}

/// A filtering policy whose names are good is honored on x86-64 Linux: its
/// procedure ends in two installations and holds no refusal there.
pub proof fn lemma_good_policy_is_honored(profile: Profile, host: Host, r: Result<Session, Error>)
    requires
        call_ensures(crate::apply, (&profile, &host), r),
        host.platform == Platform::Linux,
        !(host.debug_build && host.disable_requested),
        is_x86_64(host),
        has_good_names(profile@.syscalls),
        !(profile@.syscalls is Unfiltered),
    ensures
        r matches Ok(session) && session@.steps.len() >= 2 && session@.steps.last().op
            is InstallFilter && session@.steps[session@.steps.len() - 2].op is InstallFilter,
{
    lemma_good_names_resolve(profile@.syscalls);
    linux_layout::lemma_filters_come_last(profile@, host);
}

/// A ratchet whose names are good is honored on x86-64 Linux: its procedure is
/// two installations.
pub proof fn lemma_good_ratchet_is_honored(
    ratchet: Restrictions,
    host: Host,
    r: Result<Session, Error>,
)
    requires
        call_ensures(crate::tighten, (&ratchet, &host), r),
        host.platform == Platform::Linux,
        !(host.debug_build && host.disable_requested),
        is_x86_64(host),
        ratchet@.revoke_paths.len() == 0,
        ratchet@.syscalls is Some,
        has_good_names(SyscallsView::Deny(ratchet@.syscalls->Some_0)),
    ensures
        r matches Ok(session) && session@.steps.len() == 2 && session@.steps[0].op is InstallFilter
            && session@.steps[1].op is InstallFilter,
{
    let policy = SyscallsView::Deny(ratchet@.syscalls->Some_0);
    lemma_good_names_resolve(policy);
    let steps = linux::tighten_steps(ratchet@, host);
    let ops = linux::ops_of(linux::syscall_steps(policy, host));
    assert(linux::syscall_steps(policy, host) == steps);
    assert(ops.len() == steps.len());
    assert(ops[0] == steps[0].op);
    assert(ops[1] == steps[1].op);
}

proof fn lemma_good_names_resolve(policy: SyscallsView)
    requires
        has_good_names(policy),
    ensures
        policy matches SyscallsView::Deny(names) ==> seccomp::resolved_denials(names) is Ok,
        policy matches SyscallsView::Allow(names) ==> seccomp::resolved_allowances(names) is Ok,
{
    match policy {
        SyscallsView::Deny(names) => {
            assert forall|i: int| 0 <= i < names.len() implies syscalls::syscall_nr(
                #[trigger] names[i],
            ) is Some && !syscalls::is_survival(syscalls::syscall_nr(names[i])->Some_0) by {
                assert(seccomp_laws::is_deniable(names[i]));
            }
            seccomp_laws::lemma_denials_resolve(names);
        },
        SyscallsView::Allow(names) => {
            seccomp_laws::lemma_allowances_resolve(names);
        },
        SyscallsView::Unfiltered => {},
    }
}

} // verus!
