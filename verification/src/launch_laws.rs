//! What launching a worker comes to, said of the results of [`prepare`] and
//! [`plan_host`] themselves and in the numbers and words that the operating
//! system and the worker see.
//!
//! [`prepare`]: crate::prepare()
//! [`plan_host`]: crate::meshworker::plan_host

use crate::error::Error;
use crate::host::Host;
use crate::host::Platform;
use crate::meshworker::HostPlan;
use crate::meshworker::LaunchError;
use crate::meshworker::LinuxSandboxProfile;
use crate::meshworker::SandboxRole;
use crate::meshworker;
use crate::prepare::HandleTag;
use crate::prepare::Identity;
use crate::prepare::RawHandle;
use crate::prepare::SandboxProcessConfig;
use crate::prepare::WindowsPreparation;
use crate::prepare;
use crate::profile::Capability;
use crate::profile::Network;
use crate::profile::Profile;
use vstd::prelude::*;

verus! {

/// The name by which Windows knows a capability.
pub open spec fn is_moniker(capability: Capability, name: Seq<char>) -> bool {
    match capability {
        Capability::LpacCom => name == "lpacCom"@,
        Capability::LpacCryptoServices => name == "lpacCryptoServices"@,
        Capability::RegistryRead => name == "registryRead"@,
    }
}

/// Preparing never fails. It keeps the handles and the user and group of the
/// identity.
pub proof fn lemma_prepare_echoes(
    profile: Profile,
    identity: Identity,
    handles: &[(HandleTag, RawHandle)],
    host: Host,
    r: Result<SandboxProcessConfig, Error>,
)
    requires
        call_ensures(prepare::prepare, (&profile, &identity, handles, &host), r),
    ensures
        r is Ok,
        r->Ok_0.uid == identity.uid,
        r->Ok_0.gid == identity.gid,
        r->Ok_0.inherit_handles@ == handles@,
{
    assert(r->Ok_0@.inherit_handles == handles@);
}

/// Preparing asks for namespaces on Linux alone, and only where the sandbox is
/// not switched off: a user namespace, a network namespace unless the policy
/// leaves the network alone, a mount namespace where the policy grants a path,
/// and nothing else. The user is mapped in the same cases.
pub proof fn lemma_prepare_namespaces(
    profile: Profile,
    identity: Identity,
    handles: &[(HandleTag, RawHandle)],
    host: Host,
    r: Result<SandboxProcessConfig, Error>,
)
    requires
        call_ensures(prepare::prepare, (&profile, &identity, handles, &host), r),
    ensures
        ({
            let flags = r->Ok_0.clone_flags;
            let confines = host.platform == Platform::Linux && !(host.debug_build
                && host.disable_requested);
            let isolates = profile@.network != Network::Unrestricted;
            let mounts = profile@.fs.len() > 0;
            &&& !confines ==> flags == 0
            &&& confines && !isolates && !mounts ==> flags == 0x1000_0000
            &&& confines && !isolates && mounts ==> flags == 0x1002_0000
            &&& confines && isolates && !mounts ==> flags == 0x5000_0000
            &&& confines && isolates && mounts ==> flags == 0x5002_0000
            &&& r->Ok_0.map_current_user == confines
        }),
{
    lemma_flag_words();
    assert(r->Ok_0@.clone_flags == r->Ok_0.clone_flags);
    assert(r->Ok_0@.map_current_user == r->Ok_0.map_current_user);
}

proof fn lemma_flag_words()
    ensures
        0x1000_0000u64 | 0u64 | 0u64 == 0x1000_0000u64,
        0x1000_0000u64 | 0u64 | 0x0002_0000u64 == 0x1002_0000u64,
        0x1000_0000u64 | 0x4000_0000u64 | 0u64 == 0x5000_0000u64,
        0x1000_0000u64 | 0x4000_0000u64 | 0x0002_0000u64 == 0x5002_0000u64,
{
    assert(0x1000_0000u64 | 0u64 | 0u64 == 0x1000_0000u64 && 0x1000_0000u64 | 0u64 | 0x0002_0000u64
        == 0x1002_0000u64 && 0x1000_0000u64 | 0x4000_0000u64 | 0u64 == 0x5000_0000u64
        && 0x1000_0000u64 | 0x4000_0000u64 | 0x0002_0000u64 == 0x5002_0000u64) by (bit_vector);
}

/// LPAC data is the identity's container, the name of each granted capability
/// one for one and in order, and all four hardening switches on.
pub open spec fn is_lpac_data(
    windows: WindowsPreparation,
    profile: Profile,
    identity: Identity,
) -> bool {
    &&& windows.app_container is Some <==> identity.app_container is Some
    &&& windows.app_container is Some ==> windows.app_container->Some_0@
        == identity.app_container->Some_0@
    &&& windows.capabilities@.len() == profile@.capabilities.len()
    &&& forall|i: int|
        0 <= i < profile@.capabilities.len() ==> is_moniker(
            profile@.capabilities[i],
            (#[trigger] windows.capabilities@[i])@,
        )
    &&& windows.lpac_opt_out
    &&& windows.no_remote_images
    &&& windows.win32k_lockdown
    &&& windows.disallow_child_processes
}

/// Preparing on Windows yields the LPAC data of the policy and the identity,
/// whether or not the sandbox is switched off; preparing elsewhere yields none.
pub proof fn lemma_prepare_lpac(
    profile: Profile,
    identity: Identity,
    handles: &[(HandleTag, RawHandle)],
    host: Host,
    r: Result<SandboxProcessConfig, Error>,
)
    requires
        call_ensures(prepare::prepare, (&profile, &identity, handles, &host), r),
    ensures
        r->Ok_0.windows is Some <==> host.platform == Platform::Windows,
        r->Ok_0.windows matches Some(windows) ==> is_lpac_data(windows, profile, identity),
{
    assert(r->Ok_0@.windows is Some <==> r->Ok_0.windows is Some);
    if r->Ok_0.windows is Some {
        let windows = r->Ok_0.windows->Some_0;
        assert(r->Ok_0@.windows == Some(windows@));
        assert(windows@.capabilities.len() == windows.capabilities@.len());
        assert(windows@.app_container == identity@.app_container);
        assert forall|i: int| 0 <= i < profile@.capabilities.len() implies is_moniker(
            profile@.capabilities[i],
            (#[trigger] windows.capabilities@[i])@,
        ) by {
            assert(windows@.capabilities[i] == windows.capabilities@[i]@);
        }
    }
}

/// The name of a role.
pub open spec fn is_role_name(role: SandboxRole, name: Seq<char>) -> bool {
    match role {
        SandboxRole::Vm => name == "vm"@,
        SandboxRole::Tpm => name == "tpm"@,
    }
}

/// A host can be planned unless it has a role off Linux. One that can be planned
/// runs in this process exactly where there is only one, on every platform.
pub proof fn lemma_plan_is_local(
    name: String,
    role: Option<SandboxRole>,
    multi_process: bool,
    host: Host,
    r: Result<HostPlan, LaunchError>,
)
    requires
        call_ensures(meshworker::plan_host, (name, role, multi_process, &host), r),
    ensures
        r is Ok <==> role is None || host.platform == Platform::Linux,
        r is Err ==> r->Err_0 == LaunchError::Sandbox(Error::UnsupportedPlatform),
        r matches Ok(plan) ==> (plan is Local <==> !multi_process),
        r matches Ok(plan) ==> (plan is Launch <==> multi_process),
{
    if let Ok(plan) = r {
        assert(plan@ is Local <==> plan is Local);
    }
}

/// A launched host without a role has the name it was given, no additional
/// arguments and no sandbox, on every platform.
pub proof fn lemma_plan_without_role(
    name: String,
    host: Host,
    r: Result<HostPlan, LaunchError>,
)
    requires
        call_ensures(meshworker::plan_host, (name, None::<SandboxRole>, true, &host), r),
    ensures
        r matches Ok(HostPlan::Launch(process)) && process.name@ == name@ && process.args@.len()
            == 0 && process.sandbox is None,
{
    lemma_plan_is_local(name, None, true, host, r);
    let process = r->Ok_0->Launch_0;
    assert(process@.args.len() == process.args@.len());
    assert(process@.sandbox == process.sandbox);
}

/// A launched host with a role has the role's name, is told its role by its one
/// argument, and is cloned into a user, a network and a mount namespace with its
/// own user mapped, unless the sandbox is switched off.
pub proof fn lemma_plan_with_role(
    name: String,
    role: SandboxRole,
    host: Host,
    r: Result<HostPlan, LaunchError>,
)
    requires
        host.platform == Platform::Linux,
        call_ensures(meshworker::plan_host, (name, Some(role), true, &host), r),
    ensures
        r matches Ok(HostPlan::Launch(process)) && {
            &&& is_role_name(role, process.name@)
            &&& process.args@.len() == 1
            &&& process.args@[0]@ == "--openvmm-sandbox-role="@ + process.name@
            &&& process.sandbox == Some(
                if host.debug_build && host.disable_requested {
                    LinuxSandboxProfile { clone_flags: 0, self_map_user_namespace: false }
                } else {
                    LinuxSandboxProfile { clone_flags: 0x5002_0000, self_map_user_namespace: true }
                },
            )
        },
{
    lemma_plan_is_local(name, Some(role), true, host, r);
    lemma_flag_words();
    let process = r->Ok_0->Launch_0;
    assert(process@.args.len() == process.args@.len());
    assert(process@.args[0] == process.args@[0]@);
    assert(process@.sandbox == process.sandbox);
    assert(role.policy().fs.len() == 5);
}

/// The Linux namespaces of a policy, as flags.
pub proof fn lemma_clone_flags_result(profile: Profile, r: u64)
    requires
        call_ensures(prepare::linux_clone_flags, (&profile,), r),
    ensures
        r == (if profile@.network == Network::Unrestricted {
            if profile@.fs.len() == 0 {
                0x1000_0000u64
            } else {
                0x1002_0000
            }
        } else {
            if profile@.fs.len() == 0 {
                0x5000_0000
            } else {
                0x5002_0000
            }
        }),
{
    lemma_flag_words();
}

/// The LPAC data of a policy and an identity.
pub proof fn lemma_lpac_result(profile: Profile, identity: Identity, r: WindowsPreparation)
    requires
        call_ensures(prepare::windows_preparation, (&profile, &identity), r),
    ensures
        is_lpac_data(r, profile, identity),
{
    assert(r@.capabilities.len() == r.capabilities@.len());
    assert(r@.app_container == identity@.app_container);
    assert forall|i: int| 0 <= i < profile@.capabilities.len() implies is_moniker(
        profile@.capabilities[i],
        (#[trigger] r.capabilities@[i])@,
    ) by {
        assert(r@.capabilities[i] == r.capabilities@[i]@);
    }
}

/// Flags become launch settings where they fit a signed 32-bit integer: the same
/// flags, and the user mapped where there are any.
pub proof fn lemma_settings_result(flags: u64, r: Option<LinuxSandboxProfile>)
    requires
        call_ensures(LinuxSandboxProfile::from_clone_flags, (flags,), r),
    ensures
        flags > 0x7fff_ffff ==> r is None,
        flags <= 0x7fff_ffff ==> (r matches Some(settings) && settings.clone_flags == flags
            && settings.self_map_user_namespace == (flags > 0)),
{
}

/// Defaults ask for nothing: no identity, no launch settings, and LPAC data with
/// every switch off.
pub proof fn lemma_defaults(
    identity: Identity,
    config: SandboxProcessConfig,
    windows: WindowsPreparation,
)
    requires
        call_ensures(<Identity as Default>::default, (), identity),
        call_ensures(<SandboxProcessConfig as Default>::default, (), config),
        call_ensures(<WindowsPreparation as Default>::default, (), windows),
    ensures
        identity.uid is None,
        identity.gid is None,
        identity.app_container is None,
        config.clone_flags == 0,
        !config.map_current_user,
        config.inherit_handles@.len() == 0,
        config.uid is None,
        config.gid is None,
        config.windows is None,
        windows.app_container is None,
        windows.capabilities@.len() == 0,
        !windows.lpac_opt_out,
        !windows.no_remote_images,
        !windows.win32k_lockdown,
        !windows.disallow_child_processes,
{
    assert(identity@.app_container is None);
    assert(config@.windows is None);
    assert(config@.inherit_handles == config.inherit_handles@);
    assert(windows@.app_container is None);
    assert(windows@.capabilities.len() == windows.capabilities@.len());
}

/// A copy of launch data holds what the data holds.
pub proof fn lemma_copies(
    identity: Identity,
    config: SandboxProcessConfig,
    windows: WindowsPreparation,
    identity_copy: Identity,
    config_copy: SandboxProcessConfig,
    windows_copy: WindowsPreparation,
)
    requires
        call_ensures(<Identity as Clone>::clone, (&identity,), identity_copy),
        call_ensures(<SandboxProcessConfig as Clone>::clone, (&config,), config_copy),
        call_ensures(<WindowsPreparation as Clone>::clone, (&windows,), windows_copy),
    ensures
        identity_copy@ == identity@,
        config_copy@ == config@,
        windows_copy@ == windows@,
{
}

/// The models of launch data say what their fields hold.
pub proof fn lemma_launch_models(
    identity: Identity,
    config: SandboxProcessConfig,
    windows: WindowsPreparation,
)
    ensures
        identity@.uid == identity.uid,
        identity@.gid == identity.gid,
        identity@.app_container is Some <==> identity.app_container is Some,
        identity.app_container matches Some(name) ==> identity@.app_container == Some(name@),
        config@.clone_flags == config.clone_flags,
        config@.map_current_user == config.map_current_user,
        config@.inherit_handles == config.inherit_handles@,
        config@.uid == config.uid,
        config@.gid == config.gid,
        config@.windows is Some <==> config.windows is Some,
        config.windows matches Some(own) ==> config@.windows == Some(own@),
        windows@.app_container is Some <==> windows.app_container is Some,
        windows.app_container matches Some(name) ==> windows@.app_container == Some(name@),
        windows@.capabilities.len() == windows.capabilities@.len(),
        forall|i: int|
            0 <= i < windows@.capabilities.len() ==> #[trigger] windows@.capabilities[i]
                == windows.capabilities@[i]@,
        windows@.lpac_opt_out == windows.lpac_opt_out,
        windows@.no_remote_images == windows.no_remote_images,
        windows@.win32k_lockdown == windows.win32k_lockdown,
        windows@.disallow_child_processes == windows.disallow_child_processes,
{
}

} // verus!
