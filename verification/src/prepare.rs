//! Control-side preparation: the [`prepare`] stage and the plain-data
//! [`SandboxProcessConfig`] it returns.
//!
//! # Why data, not a builder mutation
//!
//! This crate computes a **pure-data** [`SandboxProcessConfig`] and hands it
//! to the caller, which merges it into whatever process builder it already
//! owns: the sandbox decides *what* the child's launch environment must be;
//! the caller decides *how* to realize it.
//!
//! # Handle hygiene is the caller's job
//!
//! There is no grant envelope and no descriptor sweep here.
//! [`SandboxProcessConfig`] reports exactly which tagged handles must remain
//! inheritable in [`SandboxProcessConfig::inherit_handles`]; the caller is
//! responsible for keeping those inheritable and closing or marking every
//! other descriptor close-on-exec before the child is reached.

use crate::abi::CLONE_NEWNET;
use crate::abi::CLONE_NEWNS;
use crate::abi::CLONE_NEWUSER;
use crate::error::Error;
use crate::host::Host;
use crate::host::Platform;
use crate::host::sandbox_disabled;
use crate::profile::Capability;
use crate::profile::Network;
use crate::profile::Profile;
use crate::profile::ProfileView;
use crate::text;
use vstd::prelude::*;

verus! {

/// An opaque tag identifying one inherited handle across the spawn boundary.
///
/// The control process and the worker agree on tags out-of-band (each worker
/// class documents its own); the sandbox only records which raw value carries
/// which tag so the caller can keep the right descriptors inheritable.
#[derive(Debug, Copy, Clone, PartialEq, Eq, Hash, Structural)]
pub struct HandleTag(pub u32);

/// A raw, platform-native handle value: a file-descriptor number on Unix, a
/// `HANDLE` on Windows.
///
/// Passing a `RawHandle` records intent to inherit; it does not transfer
/// ownership. The descriptor is inherited across the spawn by the caller's
/// process builder, and the owner must keep it alive until the child exists.
#[derive(Debug, Copy, Clone, PartialEq, Eq, Hash, Structural)]
pub struct RawHandle(pub u64);

/// Per-spawn identity for the worker.
///
/// Every field is optional; a default `Identity` means "inherit the control
/// process's identity", the single-process / dev path. Applying a non-default
/// identity is the *caller's* responsibility via
/// [`SandboxProcessConfig::uid`] / [`SandboxProcessConfig::gid`] (only a
/// privileged control process can set another uid/gid on the child), and via
/// [`WindowsPreparation`] on Windows.
#[derive(Debug, PartialEq, Eq)]
pub struct Identity {
    /// The Unix user id the worker should run as.
    pub uid: Option<u32>,
    /// The Unix group id the worker should run as.
    pub gid: Option<u32>,
    /// The Windows AppContainer moniker the worker should run under.
    pub app_container: Option<String>,
}

/// The model of an [`Identity`].
pub struct IdentityView {
    pub uid: Option<u32>,
    pub gid: Option<u32>,
    pub app_container: Option<Seq<char>>,
}

/// The characters of a string that may be absent.
pub open spec fn optional_text(text: Option<String>) -> Option<Seq<char>> {
    match text {
        Some(text) => Some(text@),
        None => None,
    }
}

impl View for Identity {
    type V = IdentityView;

    open spec fn view(&self) -> IdentityView {
        IdentityView {
            uid: self.uid,
            gid: self.gid,
            app_container: optional_text(self.app_container),
        }
    }
}

impl Default for Identity {
    fn default() -> (r: Self)
        ensures
            r@ == (IdentityView { uid: None, gid: None, app_container: None }),
    {
        Identity { uid: None, gid: None, app_container: None }
    }
}

impl Clone for Identity {
    fn clone(&self) -> (r: Self)
        ensures
            r@ == self@,
    {
        Identity { uid: self.uid, gid: self.gid, app_container: copy_text(&self.app_container) }
    }
}

/// A copy of a string that may be absent.
fn copy_text(text: &Option<String>) -> (r: Option<String>)
    ensures
        optional_text(r) == optional_text(*text),
{
    match text {
        Some(text) => Some(text.clone()),
        None => None,
    }
}

/// The result of [`prepare`]: everything the caller must fold into its process
/// builder before the spawn.
///
/// It is deliberately inert plain data — no file descriptors are touched, no
/// process APIs are called. The caller reads each field and applies it to the
/// builder it already owns.
#[derive(Debug)]
pub struct SandboxProcessConfig {
    /// Linux `CLONE_NEW*` flags to pass to the operation that creates the
    /// child. Zero on non-Linux hosts and when the debug sandbox escape hatch
    /// is active.
    ///
    /// Namespace creation must happen as part of cloning the child so the
    /// worker starts inside its namespaces.
    pub clone_flags: u64,
    /// Whether the caller must map its own uid and gid into the child's user
    /// namespace before exec: exactly when `clone_flags` ask for one.
    pub map_current_user: bool,
    /// The tagged handles that must remain inheritable across the spawn. Every
    /// descriptor *not* listed here must be closed or marked close-on-exec by
    /// the caller before the child is reached.
    pub inherit_handles: Vec<(HandleTag, RawHandle)>,
    /// The uid the child should be launched as, if the identity requested one.
    /// Only a privileged control process can honor this.
    pub uid: Option<u32>,
    /// The gid the child should be launched as, if the identity requested one.
    pub gid: Option<u32>,
    /// Windows LPAC construction data, present only when preparing on Windows.
    /// The caller turns this into an AppContainer SID, a capability SID array,
    /// and a `STARTUPINFOEX` attribute list. `None` on non-Windows hosts.
    pub windows: Option<WindowsPreparation>,
}

/// The model of a [`SandboxProcessConfig`].
pub struct SandboxProcessConfigView {
    pub clone_flags: u64,
    pub map_current_user: bool,
    pub inherit_handles: Seq<(HandleTag, RawHandle)>,
    pub uid: Option<u32>,
    pub gid: Option<u32>,
    pub windows: Option<WindowsPreparationView>,
}

impl View for SandboxProcessConfig {
    type V = SandboxProcessConfigView;

    open spec fn view(&self) -> SandboxProcessConfigView {
        SandboxProcessConfigView {
            clone_flags: self.clone_flags,
            map_current_user: self.map_current_user,
            inherit_handles: self.inherit_handles@,
            uid: self.uid,
            gid: self.gid,
            windows: match self.windows {
                Some(windows) => Some(windows@),
                None => None,
            },
        }
    }
}

impl Default for SandboxProcessConfig {
    fn default() -> (r: Self)
        ensures
            r@ == (SandboxProcessConfigView {
                clone_flags: 0,
                map_current_user: false,
                inherit_handles: seq![],
                uid: None,
                gid: None,
                windows: None,
            }),
    {
        SandboxProcessConfig {
            clone_flags: 0,
            map_current_user: false,
            inherit_handles: Vec::new(),
            uid: None,
            gid: None,
            windows: None,
        }
    }
}

impl Clone for SandboxProcessConfig {
    fn clone(&self) -> (r: Self)
        ensures
            r@ == self@,
    {
        SandboxProcessConfig {
            clone_flags: self.clone_flags,
            map_current_user: self.map_current_user,
            inherit_handles: vstd::slice::slice_to_vec(self.inherit_handles.as_slice()),
            uid: self.uid,
            gid: self.gid,
            windows: match &self.windows {
                Some(windows) => Some(windows.clone()),
                None => None,
            },
        }
    }
}

/// The Windows-specific half of a [`SandboxProcessConfig`]: the data a caller
/// needs to build an LPAC token and launch the worker into it.
///
/// This crate calls no Win32 API; it only describes *what* the LPAC
/// configuration must be. The caller performs `DeriveAppContainerSid`, builds
/// the `SID_AND_ATTRIBUTES[]` from the capability monikers, and sets the
/// mitigation flags below on the `STARTUPINFOEX` /
/// `SetProcessMitigationPolicy` surface.
#[derive(Debug)]
pub struct WindowsPreparation {
    /// The AppContainer moniker to derive the container SID from. `None` means
    /// no explicit container (inherit — dev path).
    pub app_container: Option<String>,
    /// The LPAC capability monikers to grant (resolved to capability SIDs by
    /// the caller). Empty by default: LPAC grants nothing it is not told to.
    pub capabilities: Vec<&'static str>,
    /// Opt out of `ALL_APPLICATION_PACKAGES` — the bit that makes this LPAC
    /// rather than a plain AppContainer. Always `true`; a false value would
    /// silently weaken the sandbox.
    pub lpac_opt_out: bool,
    /// Apply `ProcessImageLoadPolicy(NoRemoteImages)` — deny loading images
    /// from remote sources.
    pub no_remote_images: bool,
    /// Apply `ProcessSystemCallDisablePolicy` (Win32k lockdown) — no worker
    /// needs the GUI subsystem.
    pub win32k_lockdown: bool,
    /// Apply `ProcessChildProcessPolicy` — forbid the worker from spawning
    /// children.
    pub disallow_child_processes: bool,
}

/// The model of a [`WindowsPreparation`].
pub struct WindowsPreparationView {
    pub app_container: Option<Seq<char>>,
    pub capabilities: Seq<Seq<char>>,
    pub lpac_opt_out: bool,
    pub no_remote_images: bool,
    pub win32k_lockdown: bool,
    pub disallow_child_processes: bool,
}

impl View for WindowsPreparation {
    type V = WindowsPreparationView;

    open spec fn view(&self) -> WindowsPreparationView {
        WindowsPreparationView {
            app_container: optional_text(self.app_container),
            capabilities: text::names_view(self.capabilities@),
            lpac_opt_out: self.lpac_opt_out,
            no_remote_images: self.no_remote_images,
            win32k_lockdown: self.win32k_lockdown,
            disallow_child_processes: self.disallow_child_processes,
        }
    }
}

impl Clone for WindowsPreparation {
    fn clone(&self) -> (r: Self)
        ensures
            r@ == self@,
    {
        WindowsPreparation {
            app_container: copy_text(&self.app_container),
            capabilities: vstd::slice::slice_to_vec(self.capabilities.as_slice()),
            lpac_opt_out: self.lpac_opt_out,
            no_remote_images: self.no_remote_images,
            win32k_lockdown: self.win32k_lockdown,
            disallow_child_processes: self.disallow_child_processes,
        }
    }
}

impl Default for WindowsPreparation {
    fn default() -> (r: Self)
        ensures
            r@ == (WindowsPreparationView {
                app_container: None,
                capabilities: seq![],
                lpac_opt_out: false,
                no_remote_images: false,
                win32k_lockdown: false,
                disallow_child_processes: false,
            }),
    {
        let r = WindowsPreparation {
            app_container: None,
            capabilities: Vec::new(),
            lpac_opt_out: false,
            no_remote_images: false,
            win32k_lockdown: false,
            disallow_child_processes: false,
        };
        assert(text::names_view(r.capabilities@) =~= seq![]);
        r
    }
}

/// The namespaces that a worker of this policy is cloned into.
pub open spec fn clone_flags(policy: ProfileView) -> u64 {
    CLONE_NEWUSER | (if policy.network != Network::Unrestricted {
        CLONE_NEWNET
    } else {
        0
    }) | (if policy.fs.len() > 0 {
        CLONE_NEWNS
    } else {
        0
    })
}

/// The names of these capabilities.
pub open spec fn monikers(capabilities: Seq<Capability>) -> Seq<Seq<char>> {
    Seq::new(capabilities.len(), |i: int| capabilities[i].moniker_view())
}

/// The LPAC construction data of a policy.
pub open spec fn lpac_preparation(
    policy: ProfileView,
    identity: IdentityView,
) -> WindowsPreparationView {
    WindowsPreparationView {
        app_container: identity.app_container,
        capabilities: monikers(policy.capabilities),
        lpac_opt_out: true,
        no_remote_images: true,
        win32k_lockdown: true,
        disallow_child_processes: true,
    }
}

/// The launch-time configuration of a worker.
pub open spec fn preparation(
    policy: ProfileView,
    identity: IdentityView,
    handles: Seq<(HandleTag, RawHandle)>,
    host: Host,
) -> SandboxProcessConfigView {
    let confines = host.platform == Platform::Linux && !host.is_disabled();
    SandboxProcessConfigView {
        clone_flags: if confines {
            clone_flags(policy)
        } else {
            0
        },
        map_current_user: confines,
        inherit_handles: handles,
        uid: identity.uid,
        gid: identity.gid,
        windows: if host.platform == Platform::Windows {
            Some(lpac_preparation(policy, identity))
        } else {
            None
        },
    }
}

/// STAGE 1 — control process, immediately before the spawn.
///
/// Computes the launch-time configuration for a confined worker and returns it
/// as plain data. It does **not** mutate any process builder, touch any file
/// descriptor, or call any process-creation API — the caller merges the
/// returned [`SandboxProcessConfig`] into its own builder and performs the
/// spawn.
///
/// * `profile` — the worker's linked policy. On Linux only its launch-relevant
///   bits are consulted here (the worker self-applies the rest in
///   [`apply`](crate::apply)); on Windows its entire LPAC portion is reflected
///   into [`WindowsPreparation`].
/// * `identity` — the per-spawn identity; its uid/gid are echoed into the
///   [`SandboxProcessConfig`] for the caller to set on the child.
/// * `handles` — the tagged handles to keep inheritable. They are echoed into
///   [`SandboxProcessConfig::inherit_handles`]; the caller closes or marks
///   every other descriptor.
/// * `host` — the surroundings of the control process.
pub fn prepare(
    profile: &Profile,
    identity: &Identity,
    handles: &[(HandleTag, RawHandle)],
    host: &Host,
) -> (r: Result<SandboxProcessConfig, Error>)
    ensures
        r is Ok,
        r->Ok_0@ == preparation(profile@, identity@, handles@, *host),
{
    let mut config = SandboxProcessConfig {
        clone_flags: 0,
        map_current_user: false,
        inherit_handles: vstd::slice::slice_to_vec(handles),
        uid: identity.uid,
        gid: identity.gid,
        windows: None,
    };
    if host.platform == Platform::Linux && !sandbox_disabled(host) {
        config.clone_flags = linux_clone_flags(profile);
        config.map_current_user = true;
    }
    if host.platform == Platform::Windows {
        config.windows = Some(windows_preparation(profile, identity));
    }
    Ok(config)
}

/// The Linux namespaces to clone a worker of `profile` into.
pub fn linux_clone_flags(profile: &Profile) -> (r: u64)
    ensures
        r == clone_flags(profile@),
{
    let mut flags: u64 = CLONE_NEWUSER;
    assert(0x1000_0000u64 | 0u64 == 0x1000_0000u64 && (0x1000_0000u64 | 0x4000_0000u64) | 0u64
        == 0x1000_0000u64 | 0x4000_0000u64) by (bit_vector);
    if profile.inner.network != Network::Unrestricted {
        flags = flags | CLONE_NEWNET;
    }
    if profile.inner.fs.len() > 0 {
        flags = flags | CLONE_NEWNS;
    }
    flags
}

/// Reflect the profile's Windows-relevant policy into LPAC construction data.
///
/// Network policy is not reflected into LPAC capability SIDs.
pub fn windows_preparation(profile: &Profile, identity: &Identity) -> (r: WindowsPreparation)
    ensures
        r@ == lpac_preparation(profile@, identity@),
{
    let mut capabilities: Vec<&'static str> = Vec::new();
    let mut i: usize = 0;
    while i < profile.inner.capabilities.len()
        invariant
            i <= profile.inner.capabilities@.len(),
            capabilities@.len() == i,
            forall|j: int|
                0 <= j < i ==> (#[trigger] capabilities@[j])@
                    == profile.inner.capabilities@[j].moniker_view(),
        decreases profile.inner.capabilities@.len() - i,
    {
        capabilities.push(profile.inner.capabilities[i].moniker());
        i = i + 1;
    }
    assert(text::names_view(capabilities@) =~= monikers(profile@.capabilities));
    WindowsPreparation {
        app_container: copy_text(&identity.app_container),
        capabilities,
        lpac_opt_out: true,
        no_remote_images: true,
        win32k_lockdown: true,
        disallow_child_processes: true,
    }
}

/// A worker is always cloned into a user namespace, into a network namespace
/// unless its policy leaves the network unrestricted, and into a mount
/// namespace exactly when its policy grants something of the file system. No
/// other flag is set, and the flags fit a signed 32-bit integer.
pub proof fn lemma_clone_flags(policy: ProfileView)
    ensures
        clone_flags(policy) & CLONE_NEWUSER == CLONE_NEWUSER,
        clone_flags(policy) & CLONE_NEWNET == CLONE_NEWNET <==> policy.network
            != Network::Unrestricted,
        clone_flags(policy) & CLONE_NEWNS == CLONE_NEWNS <==> policy.fs.len() > 0,
        clone_flags(policy) & !(CLONE_NEWUSER | CLONE_NEWNET | CLONE_NEWNS) == 0,
        0 < clone_flags(policy) <= i32::MAX,
{
    let net: u64 = if policy.network != Network::Unrestricted {
        CLONE_NEWNET
    } else {
        0
    };
    let fs: u64 = if policy.fs.len() > 0 {
        CLONE_NEWNS
    } else {
        0
    };
    let flags = CLONE_NEWUSER | net | fs;
    assert(flags & 0x1000_0000u64 == 0x1000_0000u64 && (flags & 0x4000_0000u64 == 0x4000_0000u64
        <==> net == 0x4000_0000u64) && (flags & 0x0002_0000u64 == 0x0002_0000u64 <==> fs
        == 0x0002_0000u64) && flags & !(0x1000_0000u64 | 0x4000_0000u64 | 0x0002_0000u64) == 0u64
        && 0 < flags && flags <= 0x7fff_ffffu64) by (bit_vector)
        requires
            flags == 0x1000_0000u64 | net | fs,
            net == 0x4000_0000u64 || net == 0u64,
            fs == 0x0002_0000u64 || fs == 0u64,
    ;
}

/// Preparing echoes the identity and the handles, whatever the policy and the
/// host.
pub proof fn lemma_preparation_echoes(
    policy: ProfileView,
    identity: IdentityView,
    handles: Seq<(HandleTag, RawHandle)>,
    host: Host,
)
    ensures
        preparation(policy, identity, handles, host).inherit_handles == handles,
        preparation(policy, identity, handles, host).uid == identity.uid,
        preparation(policy, identity, handles, host).gid == identity.gid,
{
}

/// The caller maps its own user exactly when it clones into namespaces, and it
/// clones into none off Linux or where the sandbox is switched off.
pub proof fn lemma_user_is_mapped_with_namespaces(
    policy: ProfileView,
    identity: IdentityView,
    handles: Seq<(HandleTag, RawHandle)>,
    host: Host,
)
    ensures
        preparation(policy, identity, handles, host).map_current_user <==> preparation(
            policy,
            identity,
            handles,
            host,
        ).clone_flags != 0,
        preparation(policy, identity, handles, host).clone_flags != 0 <==> host.platform
            == Platform::Linux && !host.is_disabled(),
{
    lemma_clone_flags(policy);
}

/// The hardening switches of the LPAC data are always on.
pub proof fn lemma_lpac_is_hardened(policy: ProfileView, identity: IdentityView)
    ensures
        lpac_preparation(policy, identity).lpac_opt_out,
        lpac_preparation(policy, identity).no_remote_images,
        lpac_preparation(policy, identity).win32k_lockdown,
        lpac_preparation(policy, identity).disallow_child_processes,
{
}

} // verus!
