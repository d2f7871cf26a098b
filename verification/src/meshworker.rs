//! Worker hosts: which role a host process plays, how it is confined, and how
//! it is launched.

use crate::error::Error;
use crate::error::ErrorView;
use crate::host::Host;
use crate::host::Platform;
use crate::linux;
use crate::prepare::Identity;
use crate::prepare;
use crate::procedure::Session;
use crate::procedure::SessionView;
use crate::profile::Access;
use crate::profile::Profile;
use crate::profile::ProfileView;
use crate::profile::Syscalls;
use crate::profile::SyscallsView;
use crate::profiles::minimal;
use crate::text;
use vstd::prelude::*;
use vstd::string::*;

verus! {

/// The argument that tells a host process its role: the role's name follows.
pub const SANDBOX_ROLE_ARG: &'static str = "--openvmm-sandbox-role=";

/// The kinds of worker host.
#[derive(Copy, Clone, PartialEq, Eq, Structural, Debug)]
pub enum SandboxRole {
    /// A host for the virtual machine.
    Vm,
    /// A host for the virtual TPM.
    Tpm,
}

impl SandboxRole {
    /// The role's name.
    pub open spec fn name_view(self) -> Seq<char> {
        match self {
            SandboxRole::Vm => "vm"@,
            SandboxRole::Tpm => "tpm"@,
        }
    }

    /// The role's policy: the minimal one, with the system directories. The
    /// virtual machine's host also asks for a denial of `kill`.
    pub open spec fn policy(self) -> ProfileView {
        let base = minimal::minimal_policy().with_name(self.name_view()).with_grant(
            vstd::utf8::encode_utf8("/usr"@),
            Access::ReadExec,
        ).with_grant(vstd::utf8::encode_utf8("/etc"@), Access::ReadExec).with_grant(
            vstd::utf8::encode_utf8("/dev"@),
            Access::ReadExec,
        );
        match self {
            SandboxRole::Vm => base.with_syscalls(SyscallsView::Deny(seq!["kill"@])),
            SandboxRole::Tpm => base,
        }
    }

    /// The role's name.
    pub fn name(self) -> (r: &'static str)
        ensures
            r@ == self.name_view(),
    {
        match self {
            SandboxRole::Vm => "vm",
            SandboxRole::Tpm => "tpm",
        }
    }

    /// The role's policy.
    pub fn profile(self) -> (r: Profile)
        ensures
            r@ == self.policy(),
    {
        let base = minimal::minimal().name(self.name()).read("/usr").read("/etc").read("/dev");
        match self {
            SandboxRole::Vm => {
                let policy = Syscalls::Deny(&["kill"]);
                assert(policy@ == SyscallsView::Deny(seq!["kill"@])) by {
                    assert(text::names_view(policy->Deny_0@) =~= seq!["kill"@]);
                }
                base.syscalls(policy).build()
            },
            SandboxRole::Tpm => base.build(),
        }
    }
}

/// Why a process's arguments give it no role.
#[derive(Debug)]
pub enum RoleError {
    /// There is no role of this name.
    Unknown(String),
    /// There is more than one role argument.
    Repeated,
}

/// The model of a [`RoleError`].
pub enum RoleErrorView {
    Unknown(Seq<char>),
    Repeated,
}

impl View for RoleError {
    type V = RoleErrorView;

    open spec fn view(&self) -> RoleErrorView {
        match self {
            RoleError::Unknown(value) => RoleErrorView::Unknown(value@),
            RoleError::Repeated => RoleErrorView::Repeated,
        }
    }
}

impl RoleErrorView {
    /// The text that tells a reader what went wrong.
    pub open spec fn message(self) -> Seq<char> {
        match self {
            RoleErrorView::Unknown(value) => "unknown OpenVMM sandbox role `"@ + value + "`"@,
            RoleErrorView::Repeated => "OpenVMM sandbox role specified more than once"@,
        }
    }
}

impl RoleError {
    /// The text that tells a reader what went wrong.
    pub fn message(&self) -> (r: String)
        ensures
            r@ == self@.message(),
    {
        match self {
            RoleError::Unknown(value) => {
                let mut text = "unknown OpenVMM sandbox role `".to_owned();
                text.append(value.as_str());
                text.append("`");
                text
            },
            RoleError::Repeated => "OpenVMM sandbox role specified more than once".to_owned(),
        }
    }
}

/// The characters of each argument.
pub open spec fn args_view(args: Seq<String>) -> Seq<Seq<char>> {
    Seq::new(args.len(), |i: int| args[i]@)
}

/// The role of this name.
pub open spec fn role_named(name: Seq<char>) -> Option<SandboxRole> {
    if name == "vm"@ {
        Some(SandboxRole::Vm)
    } else if name == "tpm"@ {
        Some(SandboxRole::Tpm)
    } else {
        None
    }
}

/// Whether an argument is meant to give a role.
pub open spec fn is_role_arg(arg: Seq<char>) -> bool {
    SANDBOX_ROLE_ARG@.is_prefix_of(arg)
}

/// The argument that gives a role.
pub open spec fn role_arg(role: SandboxRole) -> Seq<char> {
    SANDBOX_ROLE_ARG@ + role.name_view()
}

/// The role that these arguments give: the first argument that names no role,
/// or gives a second one, is an error.
pub open spec fn role_in(args: Seq<Seq<char>>) -> Result<Option<SandboxRole>, RoleErrorView>
    decreases args.len(),
{
    if args.len() == 0 {
        Ok(None)
    } else {
        match role_in(args.drop_last()) {
            Err(error) => Err(error),
            Ok(seen) => {
                let arg = args.last();
                let value = arg.skip(SANDBOX_ROLE_ARG@.len() as int);
                if !is_role_arg(arg) {
                    Ok(seen)
                } else if role_named(value) is None {
                    Err(RoleErrorView::Unknown(value))
                } else if seen is Some {
                    Err(RoleErrorView::Repeated)
                } else {
                    Ok(role_named(value))
                }
            },
        }
    }
}

/// The model of a role or the reason why there is none.
pub open spec fn role_result_view(r: Result<Option<SandboxRole>, RoleError>) -> Result<
    Option<SandboxRole>,
    RoleErrorView,
> {
    match r {
        Ok(role) => Ok(role),
        Err(error) => Err(error@),
    }
}

proof fn lemma_error_stays(args: Seq<Seq<char>>, n: int)
    requires
        0 <= n <= args.len(),
        role_in(args.take(n)) is Err,
    ensures
        role_in(args) == role_in(args.take(n)),
    decreases args.len() - n,
{
    if n == args.len() {
        assert(args.take(n) =~= args);
    } else {
        assert(args.take(n + 1).drop_last() =~= args.take(n));
        lemma_error_stays(args, n + 1);
    }
}

/// The role of this name.
fn parse_role(name: &str) -> (r: Option<SandboxRole>)
    ensures
        r == role_named(name@),
{
    if text::str_equal(name, "vm") {
        Some(SandboxRole::Vm)
    } else if text::str_equal(name, "tpm") {
        Some(SandboxRole::Tpm)
    } else {
        None
    }
}

/// The role that a process's arguments give it, if any.
pub fn sandbox_role_from_args(args: &[String]) -> (r: Result<Option<SandboxRole>, RoleError>)
    ensures
        role_result_view(r) == role_in(args_view(args@)),
{
    let ghost all = args_view(args@);
    let mut role: Option<SandboxRole> = None;
    let mut i: usize = 0;
    assert(all.take(0) =~= seq![]);
    while i < args.len()
        invariant
            i <= args@.len(),
            all == args_view(args@),
            role_in(all.take(i as int)) == Ok::<Option<SandboxRole>, RoleErrorView>(role),
        decreases args@.len() - i,
    {
        assert(all.take(i + 1).drop_last() =~= all.take(i as int));
        assert(all.take(i + 1).last() == args@[i as int]@);
        if let Some(value) = text::strip_prefix(args[i].as_str(), SANDBOX_ROLE_ARG) {
            let parsed = match parse_role(value) {
                Some(parsed) => parsed,
                None => {
                    proof {
                        lemma_error_stays(all, i + 1);
                    }
                    return Err(RoleError::Unknown(value.to_owned()));
                },
            };
            if role.is_some() {
                proof {
                    lemma_error_stays(all, i + 1);
                }
                return Err(RoleError::Repeated);
            }
            role = Some(parsed);
        }
        i = i + 1;
    }
    assert(all.take(i as int) =~= all);
    Ok(role)
}

/// The context of a failure to confine a host.
pub const APPLY_CONTEXT: &'static str = "failed to apply worker host sandbox";

/// Why a host process could not be confined.
#[derive(Debug)]
pub enum MeshHostError {
    /// Its arguments give it no role.
    Role(RoleError),
    /// Its role's policy cannot be applied here.
    Sandbox(Error),
}

/// The procedure that confines this host process, if its arguments give it a
/// role.
pub fn apply_vmm_mesh_host_sandbox(args: &[String], host: &Host) -> (r: Result<
    Option<Session>,
    MeshHostError,
>)
    ensures
        match role_in(args_view(args@)) {
            Err(error) => r matches Err(MeshHostError::Role(e)) && e@ == error,
            Ok(None) => r matches Ok(None),
            Ok(Some(role)) => if host.is_disabled() || host.platform == Platform::Linux {
                r matches Ok(Some(session)) && session@ == SessionView::initial(
                    if host.is_disabled() {
                        seq![]
                    } else {
                        linux::apply_steps(role.policy(), *host)
                    },
                )
            } else {
                r matches Err(MeshHostError::Sandbox(e)) && e@ == ErrorView::UnsupportedPlatform
            },
        },
        r matches Ok(Some(_)) && !host.is_disabled() ==> linux::enforces(
            role_in(args_view(args@))->Ok_0->Some_0.policy().syscalls,
            *host,
        ),
{
    match sandbox_role_from_args(args) {
        Err(error) => Err(MeshHostError::Role(error)),
        Ok(None) => Ok(None),
        Ok(Some(role)) => match crate::apply(&role.profile(), host) {
            Ok(session) => Ok(Some(session)),
            Err(error) => Err(MeshHostError::Sandbox(error)),
        },
    }
}

/// What a Linux process builder is told of a sandboxed host.
#[derive(Copy, Clone, PartialEq, Eq, Structural, Debug)]
pub struct LinuxSandboxProfile {
    /// The namespaces to clone the process into.
    pub clone_flags: i32,
    /// Whether the process maps its own user into its user namespace.
    pub self_map_user_namespace: bool,
}

impl LinuxSandboxProfile {
    /// The settings for these namespaces; `None` where the flags do not fit in
    /// an `i32`.
    pub fn from_clone_flags(clone_flags: u64) -> (r: Option<LinuxSandboxProfile>)
        ensures
            r is Some <==> clone_flags <= i32::MAX,
            r matches Some(profile) ==> profile.clone_flags == clone_flags
                && profile.self_map_user_namespace == (clone_flags != 0),
    {
        if clone_flags <= 0x7fff_ffff {
            let clone_flags: i32 = clone_flags as i32;
            Some(LinuxSandboxProfile { clone_flags, self_map_user_namespace: clone_flags != 0 })
        } else {
            None
        }
    }
}

/// A process to launch for a host.
#[derive(Debug)]
pub struct ProcessPlan {
    /// The name of the process.
    pub name: String,
    /// Its additional arguments.
    pub args: Vec<String>,
    /// How it is confined, if it is.
    pub sandbox: Option<LinuxSandboxProfile>,
}

/// The model of a [`ProcessPlan`].
pub struct ProcessPlanView {
    pub name: Seq<char>,
    pub args: Seq<Seq<char>>,
    pub sandbox: Option<LinuxSandboxProfile>,
}

impl View for ProcessPlan {
    type V = ProcessPlanView;

    open spec fn view(&self) -> ProcessPlanView {
        ProcessPlanView {
            name: self.name@,
            args: args_view(self.args@),
            sandbox: self.sandbox,
        }
    }
}

/// Where a host runs.
#[derive(Debug)]
pub enum HostPlan {
    /// In this process.
    Local,
    /// In a process of its own.
    Launch(ProcessPlan),
}

/// The model of a [`HostPlan`].
pub enum HostPlanView {
    Local,
    Launch(ProcessPlanView),
}

impl View for HostPlan {
    type V = HostPlanView;

    open spec fn view(&self) -> HostPlanView {
        match self {
            HostPlan::Local => HostPlanView::Local,
            HostPlan::Launch(process) => HostPlanView::Launch(process@),
        }
    }
}

/// Why a host cannot be launched.
#[derive(Debug)]
pub enum LaunchError {
    /// It cannot be confined here.
    Sandbox(Error),
    /// The clone flags do not fit in an `i32`.
    CloneFlags,
}

/// The settings for a host of this role.
pub open spec fn role_settings(role: SandboxRole, host: Host) -> LinuxSandboxProfile {
    let flags = if host.is_disabled() {
        0
    } else {
        prepare::clone_flags(role.policy())
    };
    LinuxSandboxProfile { clone_flags: flags as i32, self_map_user_namespace: flags != 0 }
}

/// Where a host of this name or role runs. A role asks for a process of its
/// own name, told its role by an argument and cloned into the namespaces of its
/// policy.
pub open spec fn host_plan(
    name: Seq<char>,
    role: Option<SandboxRole>,
    multi_process: bool,
    host: Host,
) -> HostPlanView {
    if !multi_process {
        HostPlanView::Local
    } else {
        match role {
            None => HostPlanView::Launch(ProcessPlanView { name, args: seq![], sandbox: None }),
            Some(role) => HostPlanView::Launch(
                ProcessPlanView {
                    name: role.name_view(),
                    args: seq![role_arg(role)],
                    sandbox: Some(role_settings(role, host)),
                },
            ),
        }
    }
}

/// Decides where a host runs and, where it gets a process of its own, how that
/// process is launched. A role cannot be honored off Linux: that is an error
/// rather than a host that runs unconfined.
pub fn plan_host(name: String, role: Option<SandboxRole>, multi_process: bool, host: &Host) -> (r:
    Result<HostPlan, LaunchError>)
    ensures
        r is Ok <==> role is None || host.platform == Platform::Linux,
        r matches Ok(plan) ==> plan@ == host_plan(name@, role, multi_process, *host),
        r matches Err(error) ==> error == LaunchError::Sandbox(Error::UnsupportedPlatform),
{
    if role.is_some() && host.platform != Platform::Linux {
        return Err(LaunchError::Sandbox(Error::UnsupportedPlatform));
    }
    if !multi_process {
        return Ok(HostPlan::Local);
    }
    match role {
        Some(role) => {
            let profile = role.profile();
            let handles: Vec<(prepare::HandleTag, prepare::RawHandle)> = Vec::new();
            let preparation = match prepare::prepare(
                &profile,
                &Identity::default(),
                handles.as_slice(),
                host,
            ) {
                Ok(preparation) => preparation,
                Err(error) => {
                    return Err(LaunchError::Sandbox(error));
                },
            };
            proof {
                prepare::lemma_clone_flags(role.policy());
            }
            let sandbox = match LinuxSandboxProfile::from_clone_flags(preparation.clone_flags) {
                Some(sandbox) => sandbox,
                None => {
                    return Err(LaunchError::CloneFlags);
                },
            };
            let mut arg = SANDBOX_ROLE_ARG.to_owned();
            arg.append(role.name());
            let args = vec![arg];
            assert(args_view(args@) =~= seq![role_arg(role)]);
            Ok(
                HostPlan::Launch(
                    ProcessPlan { name: role.name().to_owned(), args, sandbox: Some(sandbox) },
                ),
            )
        },
        None => {
            let args: Vec<String> = Vec::new();
            assert(args_view(args@) =~= seq![]);
            Ok(HostPlan::Launch(ProcessPlan { name, args, sandbox: None }))
        },
    }
}

proof fn lemma_names_differ()
    ensures
        "vm"@ != "tpm"@,
{
    reveal_strlit("vm");
    reveal_strlit("tpm");
    assert("vm"@.len() == 2);
    assert("tpm"@.len() == 3);
}

/// Arguments that give no role leave it as it was.
pub proof fn lemma_other_args_are_ignored(args: Seq<Seq<char>>, more: Seq<Seq<char>>)
    requires
        forall|i: int| 0 <= i < more.len() ==> !is_role_arg(#[trigger] more[i]),
    ensures
        role_in(args + more) == role_in(args),
    decreases more.len(),
{
    if more.len() == 0 {
        assert(args + more =~= args);
    } else {
        assert((args + more).drop_last() =~= args + more.drop_last());
        lemma_other_args_are_ignored(args, more.drop_last());
    }
}

/// The role that a host is launched with is the role that it finds in its
/// arguments, whatever other arguments stand around it.
pub proof fn lemma_role_round_trip(
    role: SandboxRole,
    before: Seq<Seq<char>>,
    after: Seq<Seq<char>>,
)
    requires
        forall|i: int| 0 <= i < before.len() ==> !is_role_arg(#[trigger] before[i]),
        forall|i: int| 0 <= i < after.len() ==> !is_role_arg(#[trigger] after[i]),
    ensures
        role_in(before + seq![role_arg(role)] + after) == Ok::<Option<SandboxRole>, RoleErrorView>(
            Some(role),
        ),
{
    lemma_names_differ();
    let none = Seq::<Seq<char>>::empty();
    lemma_other_args_are_ignored(none, before);
    assert(none + before =~= before);
    let given = before + seq![role_arg(role)];
    assert(given.drop_last() =~= before);
    assert(role_arg(role).skip(SANDBOX_ROLE_ARG@.len() as int) =~= role.name_view());
    assert(SANDBOX_ROLE_ARG@ =~= role_arg(role).subrange(0, SANDBOX_ROLE_ARG@.len() as int));
    lemma_other_args_are_ignored(given, after);
}

/// A process takes on no role unless an argument gives it one.
pub proof fn lemma_no_role_without_argument(args: Seq<Seq<char>>)
    requires
        forall|i: int| 0 <= i < args.len() ==> !is_role_arg(#[trigger] args[i]),
    ensures
        role_in(args) == Ok::<Option<SandboxRole>, RoleErrorView>(None),
{
    let none = Seq::<Seq<char>>::empty();
    lemma_other_args_are_ignored(none, args);
    assert(none + args =~= args);
}

/// A host that is told its role is cloned into a user namespace, in which it
/// maps its own user, unless the sandbox is switched off.
pub proof fn lemma_role_settings(role: SandboxRole, host: Host)
    ensures
        role_settings(role, host).self_map_user_namespace <==> role_settings(role, host).clone_flags
            != 0,
        role_settings(role, host).clone_flags != 0 <==> !host.is_disabled(),
        !host.is_disabled() ==> role_settings(role, host).clone_flags == prepare::clone_flags(
            role.policy(),
        ),
{
    prepare::lemma_clone_flags(role.policy());
}

} // verus!
