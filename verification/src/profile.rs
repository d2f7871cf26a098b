//! The sandbox policy vocabulary: [`Profile`] and its widening [`Builder`],
//! plus the additive-only [`Restrictions`] ratchet consumed by
//! [`tighten`](crate::tighten).
//!
//! # Default-deny by construction
//!
//! A policy is always built from [`Profile::deny_all`], which denies every
//! ambient authority. The [`Builder`] can only *grant* — no method removes a
//! denial — so a profile is only ever as permissive as its most permissive
//! call. A worker whose profile adds nothing can reach nothing but the
//! handles the control process explicitly kept inheritable.
//!
//! # Widening vs. narrowing
//!
//! [`Builder`] widens a default-deny base at policy-authoring time.
//! [`Restrictions`] is the complementary, additive-only *narrowing* spec: it
//! can only ever subtract from an already-applied profile, so a non-monotonic
//! ratchet is unrepresentable rather than a runtime error.
//!
//! # Platform neutrality
//!
//! The vocabulary is intent-level and platform-neutral. Where a dimension has
//! no analogue on a platform, the backend treats the grant as a no-op rather
//! than an error.

use crate::path::AsPath;
use crate::text;
use vstd::prelude::*;

verus! {

/// Network reachability granted to the worker.
#[derive(Debug, Clone, Copy, PartialEq, Eq, Structural)]
pub enum Network {
    /// No network at all — an empty network namespace with no peer.
    Isolated,
    /// Loopback only (`127.0.0.0/8`, `::1`) — a network namespace with the
    /// loopback interface brought up and nothing else.
    Loopback,
    /// Preserve the caller's network namespace and ambient connectivity.
    Unrestricted,
}

/// Syscall-filtering policy (Linux; opt-in per worker class).
///
/// A worker can use the conservative [`Syscalls::Deny`] baseline or opt into a
/// deny-by-default [`Syscalls::Allow`] policy when its complete runtime surface
/// has been measured.
#[derive(Debug, Clone, Copy)]
pub enum Syscalls {
    /// Install no seccomp filter. The worker retains the ambient syscall
    /// surface; confinement rests on namespaces, credentials, and
    /// `no_new_privs`.
    Unfiltered,
    /// Install a seccomp filter that always blocks the crate's built-in set of
    /// dangerous syscalls — mount/namespace manipulation, module loading,
    /// `ptrace`, `kexec`, keyring access, and other escape or CVE vectors, plus
    /// argument-level guards on `ioctl`, `clone`, `prctl`, and `socket` — and
    /// additionally blocks every syscall named here. An empty list installs
    /// just the built-in baseline. Unknown names are a hard error at apply
    /// time.
    Deny(&'static [&'static str]),
    /// Deny every syscall except those named here.
    ///
    /// The built-in dangerous set remains forbidden even if a name appears in
    /// this list. Security-sensitive syscalls such as `clone` and `prctl`
    /// retain argument-level restrictions. `clone3` is forced to `ENOSYS` so
    /// libc falls back to the argument-filtered `clone`. Unknown names are a
    /// hard error at apply time.
    Allow(&'static [&'static str]),
}

/// The model of a [`Syscalls`] policy.
pub enum SyscallsView {
    Unfiltered,
    Deny(Seq<Seq<char>>),
    Allow(Seq<Seq<char>>),
}

impl View for Syscalls {
    type V = SyscallsView;

    open spec fn view(&self) -> SyscallsView {
        match self {
            Syscalls::Unfiltered => SyscallsView::Unfiltered,
            Syscalls::Deny(names) => SyscallsView::Deny(text::names_view(names@)),
            Syscalls::Allow(names) => SyscallsView::Allow(text::names_view(names@)),
        }
    }
}

impl Default for Syscalls {
    fn default() -> (r: Self)
        ensures
            r == Syscalls::Unfiltered,
    {
        Syscalls::Unfiltered
    }
}

/// A named platform capability, granted through the constants below. The
/// consumer never sees the underlying SID or grant.
///
/// Capabilities are Windows LPAC concepts; on other platforms they are a
/// no-op.
#[derive(Debug, Clone, Copy, PartialEq, Eq, Structural)]
pub enum Capability {
    /// COM activation under LPAC.
    LpacCom,
    /// Cryptographic service access under LPAC.
    LpacCryptoServices,
    /// Read access to policy under the registry.
    RegistryRead,
}

impl Capability {
    /// The `lpacCom` capability — COM activation under LPAC.
    pub const LPAC_COM: Capability = Capability::LpacCom;

    /// The `lpacCryptoServices` capability — cryptographic service access
    /// under LPAC.
    pub const LPAC_CRYPTO_SERVICES: Capability = Capability::LpacCryptoServices;

    /// The `registryRead` capability — read access to policy under the
    /// registry.
    pub const REGISTRY_READ: Capability = Capability::RegistryRead;

    /// The capability's stable name.
    pub open spec fn moniker_view(self) -> Seq<char> {
        match self {
            Capability::LpacCom => "lpacCom"@,
            Capability::LpacCryptoServices => "lpacCryptoServices"@,
            Capability::RegistryRead => "registryRead"@,
        }
    }

    /// The stable capability moniker, for diagnostics and for a Windows
    /// consumer to resolve into a capability SID.
    pub fn moniker(self) -> (r: &'static str)
        ensures
            r@ == self.moniker_view(),
    {
        match self {
            Capability::LpacCom => "lpacCom",
            Capability::LpacCryptoServices => "lpacCryptoServices",
            Capability::RegistryRead => "registryRead",
        }
    }
}

/// Access mode for a filesystem grant. The builder exposes only
/// [`Builder::read`] and [`Builder::read_write`], mapped to the mount flags and
/// Landlock rights the backend needs.
#[derive(Debug, Clone, Copy, PartialEq, Eq, Structural)]
pub enum Access {
    /// Read + execute. No write.
    ReadExec,
    /// Read + write. No execute.
    ReadWrite,
}

/// A path and the access granted to it.
#[derive(Debug)]
pub struct FsGrant {
    /// The path, as bytes.
    pub path: Vec<u8>,
    /// The access granted to it.
    pub access: Access,
}

/// The model of an [`FsGrant`].
pub struct FsGrantView {
    pub path: Seq<u8>,
    pub access: Access,
}

impl View for FsGrant {
    type V = FsGrantView;

    open spec fn view(&self) -> FsGrantView {
        FsGrantView { path: self.path@, access: self.access }
    }
}

impl Clone for FsGrant {
    fn clone(&self) -> (r: Self)
        ensures
            r@ == self@,
    {
        FsGrant {
            path: vstd::slice::slice_to_vec(self.path.as_slice()),
            access: self.access,
        }
    }
}

/// The models of the grants in a list.
pub open spec fn grants_view(grants: Seq<FsGrant>) -> Seq<FsGrantView> {
    Seq::new(grants.len(), |i: int| grants[i]@)
}

/// The contents of a policy.
#[derive(Debug)]
pub struct ProfileInner {
    /// The name, used only in diagnostics.
    pub name: &'static str,
    /// The filesystem grants.
    pub fs: Vec<FsGrant>,
    /// The network reachability.
    pub network: Network,
    /// The syscall-filtering policy.
    pub syscalls: Syscalls,
    /// The platform capabilities.
    pub capabilities: Vec<Capability>,
}

/// The model of a policy.
pub struct ProfileView {
    pub name: Seq<char>,
    pub fs: Seq<FsGrantView>,
    pub network: Network,
    pub syscalls: SyscallsView,
    pub capabilities: Seq<Capability>,
}

impl View for ProfileInner {
    type V = ProfileView;

    open spec fn view(&self) -> ProfileView {
        ProfileView {
            name: self.name@,
            fs: grants_view(self.fs@),
            network: self.network,
            syscalls: self.syscalls@,
            capabilities: self.capabilities@,
        }
    }
}

impl ProfileView {
    /// The policy that grants nothing.
    pub open spec fn deny_all() -> ProfileView {
        ProfileView {
            name: "unnamed"@,
            fs: seq![],
            network: Network::Isolated,
            syscalls: SyscallsView::Unfiltered,
            capabilities: seq![],
        }
    }

    /// This policy under another name.
    pub open spec fn with_name(self, name: Seq<char>) -> ProfileView {
        ProfileView { name, ..self }
    }

    /// This policy with one more filesystem grant.
    pub open spec fn with_grant(self, path: Seq<u8>, access: Access) -> ProfileView {
        ProfileView { fs: self.fs.push(FsGrantView { path, access }), ..self }
    }

    /// This policy with another network scope.
    pub open spec fn with_network(self, network: Network) -> ProfileView {
        ProfileView { network, ..self }
    }

    /// This policy with another syscall policy.
    pub open spec fn with_syscalls(self, syscalls: SyscallsView) -> ProfileView {
        ProfileView { syscalls, ..self }
    }

    /// This policy with one more capability.
    pub open spec fn with_capability(self, capability: Capability) -> ProfileView {
        ProfileView { capabilities: self.capabilities.push(capability), ..self }
    }
}

impl Default for ProfileInner {
    fn default() -> (r: Self)
        ensures
            r@ == ProfileView::deny_all(),
    {
        let r = ProfileInner {
            name: "unnamed",
            fs: Vec::new(),
            network: Network::Isolated,
            syscalls: Syscalls::Unfiltered,
            capabilities: Vec::new(),
        };
        assert(grants_view(r.fs@) =~= seq![]);
        r
    }
}

impl Clone for ProfileInner {
    fn clone(&self) -> (r: Self)
        ensures
            r@ == self@,
    {
        let mut fs: Vec<FsGrant> = Vec::new();
        let mut i: usize = 0;
        while i < self.fs.len()
            invariant
                i <= self.fs@.len(),
                fs@.len() == i,
                forall|j: int| 0 <= j < i ==> (#[trigger] fs@[j])@ == self.fs@[j]@,
            decreases self.fs@.len() - i,
        {
            fs.push(self.fs[i].clone());
            i = i + 1;
        }
        assert(grants_view(fs@) =~= grants_view(self.fs@));
        ProfileInner {
            name: self.name,
            fs,
            network: self.network,
            syscalls: self.syscalls,
            capabilities: vstd::slice::slice_to_vec(self.capabilities.as_slice()),
        }
    }
}

/// An opaque, immutable sandbox policy.
///
/// Built once from [`Profile::deny_all`] in the crate that owns the worker,
/// and linked into whichever side applies it (the worker on Linux; the
/// control process *and* the worker on Windows). A `Profile` is **not** a
/// wire type — policy is linked, not sent.
#[derive(Debug)]
pub struct Profile {
    /// The contents of the policy.
    pub inner: ProfileInner,
}

impl View for Profile {
    type V = ProfileView;

    open spec fn view(&self) -> ProfileView {
        self.inner@
    }
}

impl Clone for Profile {
    fn clone(&self) -> (r: Self)
        ensures
            r@ == self@,
    {
        Profile { inner: self.inner.clone() }
    }
}

impl Profile {
    /// The base every profile builds on: deny all ambient authority.
    ///
    /// A profile that adds nothing is a worker that can reach nothing but its
    /// explicitly kept-inheritable handles.
    pub fn deny_all() -> (r: Builder)
        ensures
            r@ == ProfileView::deny_all(),
    {
        Builder { inner: ProfileInner::default() }
    }

    /// Reopen a finished profile as a [`Builder`] to derive a new, wider
    /// profile from it.
    ///
    /// The builder starts from a clone of this profile's grants, so the profile
    /// itself is left intact and any number of variants can be derived from a
    /// single base. Because a [`Builder`] only ever widens, the accumulating
    /// dimensions (filesystem and capabilities) can only grow; the scalar
    /// dimensions (`name`, `network`, `syscalls`) are replaced by a later call.
    pub fn edit(&self) -> (r: Builder)
        ensures
            r@ == self@,
    {
        Builder { inner: self.inner.clone() }
    }

    /// The human-readable name of the profile, used only in diagnostics.
    pub fn name(&self) -> (r: &'static str)
        ensures
            r@ == self@.name,
    {
        self.inner.name
    }
}

/// Widening-only policy builder.
///
/// Every method *grants*; none can relax a denial. Because the base is
/// [`Profile::deny_all`] and nothing subtracts from it, the default-deny
/// invariant holds by construction. Post-`apply` *narrowing* is a separate
/// concern with its own additive-only type — see [`Restrictions`].
#[derive(Debug)]
pub struct Builder {
    inner: ProfileInner,
}

impl View for Builder {
    type V = ProfileView;

    closed spec fn view(&self) -> ProfileView {
        self.inner@
    }
}

impl Clone for Builder {
    fn clone(&self) -> (r: Self)
        ensures
            r@ == self@,
    {
        Builder { inner: self.inner.clone() }
    }
}

impl Builder {
    /// Attach a human-readable name used in diagnostics and error messages. Not
    /// consulted by the sandbox itself.
    pub fn name(self, name: &'static str) -> (r: Self)
        ensures
            r@ == self@.with_name(name@),
    {
        let mut inner = self.inner;
        inner.name = name;
        Builder { inner }
    }

    /// Grant read (and execute) access to `path`.
    ///
    /// Read grants include execute so that shared libraries and interpreters
    /// under system directories (e.g. `/lib`, `/usr`) remain loadable. Use
    /// [`Builder::read_write`] for data the worker must modify; write grants
    /// are mounted non-executable.
    pub fn read<P: AsPath>(self, path: P) -> (r: Self)
        ensures
            r@ == self@.with_grant(path.path_bytes(), Access::ReadExec),
    {
        let mut r = self;
        r.push_fs(path.to_path_bytes(), Access::ReadExec);
        r
    }

    /// Grant read and write access to `path`. The path is mounted
    /// non-executable, so a worker cannot execute data it can write.
    pub fn read_write<P: AsPath>(self, path: P) -> (r: Self)
        ensures
            r@ == self@.with_grant(path.path_bytes(), Access::ReadWrite),
    {
        let mut r = self;
        r.push_fs(path.to_path_bytes(), Access::ReadWrite);
        r
    }

    /// Grant network reachability up to `scope`.
    ///
    /// The default (from [`Profile::deny_all`]) is [`Network::Isolated`] — an
    /// empty network namespace with no peer. [`Network::Loopback`] enables
    /// loopback inside that namespace, while [`Network::Unrestricted`] keeps
    /// the worker in the caller's network namespace.
    pub fn network(self, scope: Network) -> (r: Self)
        ensures
            r@ == self@.with_network(scope),
    {
        let mut inner = self.inner;
        inner.network = scope;
        Builder { inner }
    }

    /// Set the worker's syscall-filtering policy.
    ///
    /// Syscall filtering is opt-in per worker class: the default is
    /// [`Syscalls::Unfiltered`] (no seccomp filter). [`Syscalls::Deny`]
    /// installs a seccomp filter that blocks the crate's built-in set of
    /// dangerous, namespace-escape, and historically CVE-prone syscalls, plus
    /// any additional syscalls named in the list. [`Syscalls::Allow`] instead
    /// denies every syscall not named in the list.
    pub fn syscalls(self, policy: Syscalls) -> (r: Self)
        ensures
            r@ == self@.with_syscalls(policy@),
    {
        let mut inner = self.inner;
        inner.syscalls = policy;
        Builder { inner }
    }

    /// Grant a named platform capability (e.g. a Windows LPAC capability).
    ///
    /// Capabilities with no analogue on the current platform are a no-op.
    pub fn capability(self, cap: Capability) -> (r: Self)
        ensures
            r@ == self@.with_capability(cap),
    {
        let mut inner = self.inner;
        inner.capabilities.push(cap);
        Builder { inner }
    }

    /// Finalize the policy.
    pub fn build(self) -> (r: Profile)
        ensures
            r@ == self@,
    {
        Profile { inner: self.inner }
    }

    fn push_fs(&mut self, path: Vec<u8>, access: Access)
        ensures
            final(self)@ == old(self)@.with_grant(path@, access),
    {
        let ghost before = self.inner.fs@;
        self.inner.fs.push(FsGrant { path, access });
        assert(grants_view(self.inner.fs@) =~= grants_view(before).push(
            FsGrantView { path: path@, access },
        ));
    }
}

/// A narrow, additive-only ratchet consumed by [`tighten`](crate::tighten).
///
/// It can express only the primitives that are safe to stack onto an
/// already-applied sandbox: additional syscall denials and a further-restricted
/// path. The one-shot, authority-consuming primitives — namespaces,
/// credentials, and mounts — are absent from this type, so a non-monotonic
/// ratchet is *unrepresentable*.
#[derive(Debug)]
pub struct Restrictions {
    /// The contents of the ratchet.
    pub inner: RestrictionsInner,
}

/// The contents of a ratchet.
#[derive(Debug)]
pub struct RestrictionsInner {
    /// The syscalls to deny in addition, if any are.
    pub syscalls: Option<Vec<&'static str>>,
    /// The paths to take away.
    pub revoke_paths: Vec<Vec<u8>>,
}

/// The model of a ratchet.
pub struct RestrictionsView {
    pub syscalls: Option<Seq<Seq<char>>>,
    pub revoke_paths: Seq<Seq<u8>>,
}

/// The bytes of each path in a list.
pub open spec fn paths_view(paths: Seq<Vec<u8>>) -> Seq<Seq<u8>> {
    Seq::new(paths.len(), |i: int| paths[i]@)
}

impl View for RestrictionsInner {
    type V = RestrictionsView;

    open spec fn view(&self) -> RestrictionsView {
        RestrictionsView {
            syscalls: match self.syscalls {
                Some(names) => Some(text::names_view(names@)),
                None => None,
            },
            revoke_paths: paths_view(self.revoke_paths@),
        }
    }
}

impl View for Restrictions {
    type V = RestrictionsView;

    open spec fn view(&self) -> RestrictionsView {
        self.inner@
    }
}

impl RestrictionsView {
    /// The ratchet that takes nothing away.
    pub open spec fn none() -> RestrictionsView {
        RestrictionsView { syscalls: None, revoke_paths: seq![] }
    }

    /// The names of the syscalls to deny in addition.
    pub open spec fn denials(self) -> Seq<Seq<char>> {
        match self.syscalls {
            Some(names) => names,
            None => seq![],
        }
    }

    /// This ratchet with more denials.
    pub open spec fn with_denials(self, names: Seq<Seq<char>>) -> RestrictionsView {
        RestrictionsView { syscalls: Some(self.denials() + names), ..self }
    }

    /// This ratchet with one more path to take away.
    pub open spec fn with_revocation(self, path: Seq<u8>) -> RestrictionsView {
        RestrictionsView { revoke_paths: self.revoke_paths.push(path), ..self }
    }
}

impl Default for RestrictionsInner {
    fn default() -> (r: Self)
        ensures
            r@ == RestrictionsView::none(),
    {
        let r = RestrictionsInner { syscalls: None, revoke_paths: Vec::new() };
        assert(paths_view(r.revoke_paths@) =~= seq![]);
        r
    }
}

impl Clone for RestrictionsInner {
    fn clone(&self) -> (r: Self)
        ensures
            r@ == self@,
    {
        let mut revoke_paths: Vec<Vec<u8>> = Vec::new();
        let mut i: usize = 0;
        while i < self.revoke_paths.len()
            invariant
                i <= self.revoke_paths@.len(),
                revoke_paths@.len() == i,
                forall|j: int|
                    0 <= j < i ==> (#[trigger] revoke_paths@[j])@ == self.revoke_paths@[j]@,
            decreases self.revoke_paths@.len() - i,
        {
            revoke_paths.push(vstd::slice::slice_to_vec(self.revoke_paths[i].as_slice()));
            i = i + 1;
        }
        assert(paths_view(revoke_paths@) =~= paths_view(self.revoke_paths@));
        let syscalls = match &self.syscalls {
            Some(names) => Some(vstd::slice::slice_to_vec(names.as_slice())),
            None => None,
        };
        RestrictionsInner { syscalls, revoke_paths }
    }
}

impl Clone for Restrictions {
    fn clone(&self) -> (r: Self)
        ensures
            r@ == self@,
    {
        Restrictions { inner: self.inner.clone() }
    }
}

impl Restrictions {
    /// Start from "no additional restriction"; every method on the returned
    /// builder can only narrow further.
    pub fn none() -> (r: RestrictionsBuilder)
        ensures
            r@ == RestrictionsView::none(),
    {
        RestrictionsBuilder { inner: RestrictionsInner::default() }
    }
}

/// Narrowing-only ratchet builder. There is deliberately no "unfiltered"
/// escape here — a ratchet only ever subtracts.
#[derive(Debug)]
pub struct RestrictionsBuilder {
    inner: RestrictionsInner,
}

impl View for RestrictionsBuilder {
    type V = RestrictionsView;

    closed spec fn view(&self) -> RestrictionsView {
        self.inner@
    }
}

impl Clone for RestrictionsBuilder {
    fn clone(&self) -> (r: Self)
        ensures
            r@ == self@,
    {
        RestrictionsBuilder { inner: self.inner.clone() }
    }
}

impl RestrictionsBuilder {
    /// Block additional syscalls beyond those the applied profile already
    /// denies, installed as an additional stacked seccomp filter. The kernel
    /// takes the most restrictive verdict across every installed filter, so a
    /// stacked denylist can only ever narrow the surface further. A later call
    /// adds to the names of an earlier one.
    pub fn syscalls(self, deny: &'static [&'static str]) -> (r: Self)
        ensures
            r@ == self@.with_denials(text::names_view(deny@)),
    {
        let mut inner = self.inner;
        let ghost before = inner@.denials();
        let mut names: Vec<&'static str> = match inner.syscalls {
            Some(names) => names,
            None => Vec::new(),
        };
        let ghost known = names@;
        assert(text::names_view(known) =~= before);
        let mut i: usize = 0;
        while i < deny.len()
            invariant
                i <= deny@.len(),
                names@ == known + deny@.take(i as int),
            decreases deny@.len() - i,
        {
            names.push(deny[i]);
            assert(deny@.take(i + 1) =~= deny@.take(i as int).push(deny@[i as int]));
            i = i + 1;
        }
        assert(deny@.take(i as int) =~= deny@);
        assert(text::names_view(names@) =~= before + text::names_view(deny@));
        inner.syscalls = Some(names);
        RestrictionsBuilder { inner }
    }

    /// Enforce an additional restriction that *removes* access to a path the
    /// applied profile previously permitted. It can never add access.
    pub fn revoke_path<P: AsPath>(self, path: P) -> (r: Self)
        ensures
            r@ == self@.with_revocation(path.path_bytes()),
    {
        let mut inner = self.inner;
        let bytes = path.to_path_bytes();
        let ghost before = inner.revoke_paths@;
        inner.revoke_paths.push(bytes);
        assert(paths_view(inner.revoke_paths@) =~= paths_view(before).push(bytes@));
        RestrictionsBuilder { inner }
    }

    /// Finalize the ratchet.
    pub fn build(self) -> (r: Restrictions)
        ensures
            r@ == self@,
    {
        Restrictions { inner: self.inner }
    }
}

/// One call on a [`Builder`].
pub enum Widening {
    Name(Seq<char>),
    Grant(FsGrantView),
    Network(Network),
    Syscalls(SyscallsView),
    Capability(Capability),
}

impl ProfileView {
    /// The policy after one builder call.
    pub open spec fn widened(self, call: Widening) -> ProfileView {
        match call {
            Widening::Name(name) => self.with_name(name),
            Widening::Grant(grant) => self.with_grant(grant.path, grant.access),
            Widening::Network(network) => self.with_network(network),
            Widening::Syscalls(syscalls) => self.with_syscalls(syscalls),
            Widening::Capability(capability) => self.with_capability(capability),
        }
    }

    /// The policy after these builder calls, in order.
    pub open spec fn widened_by(self, calls: Seq<Widening>) -> ProfileView
        decreases calls.len(),
    {
        if calls.len() == 0 {
            self
        } else {
            self.widened_by(calls.drop_last()).widened(calls.last())
        }
    }
}

/// The filesystem grants among these builder calls, in order.
pub open spec fn grants_of(calls: Seq<Widening>) -> Seq<FsGrantView>
    decreases calls.len(),
{
    if calls.len() == 0 {
        seq![]
    } else {
        match calls.last() {
            Widening::Grant(grant) => grants_of(calls.drop_last()).push(grant),
            _ => grants_of(calls.drop_last()),
        }
    }
}

/// The capabilities among these builder calls, in order.
pub open spec fn capabilities_of(calls: Seq<Widening>) -> Seq<Capability>
    decreases calls.len(),
{
    if calls.len() == 0 {
        seq![]
    } else {
        match calls.last() {
            Widening::Capability(capability) => capabilities_of(calls.drop_last()).push(capability),
            _ => capabilities_of(calls.drop_last()),
        }
    }
}

/// A builder only widens: whatever calls follow, the filesystem grants and
/// capabilities of the starting point stay, in their places, and exactly the
/// ones that the calls ask for come behind them.
pub proof fn lemma_builder_only_widens(start: ProfileView, calls: Seq<Widening>)
    ensures
        start.widened_by(calls).fs == start.fs + grants_of(calls),
        start.widened_by(calls).capabilities == start.capabilities + capabilities_of(calls),
    decreases calls.len(),
{
    if calls.len() > 0 {
        lemma_builder_only_widens(start, calls.drop_last());
    }
    assert(start.widened_by(calls).fs =~= start.fs + grants_of(calls));
    assert(start.widened_by(calls).capabilities =~= start.capabilities + capabilities_of(calls));
}

/// Default-deny by construction: a profile built from `deny_all` reaches no
/// network, filters nothing and is unnamed, unless a call of that kind asked
/// for it, and its grants and capabilities are exactly those that calls asked
/// for.
pub proof fn lemma_default_deny(calls: Seq<Widening>)
    ensures
        ProfileView::deny_all().widened_by(calls).fs == grants_of(calls),
        ProfileView::deny_all().widened_by(calls).capabilities == capabilities_of(calls),
        (forall|i: int| 0 <= i < calls.len() ==> !(#[trigger] calls[i] is Network))
            ==> ProfileView::deny_all().widened_by(calls).network == Network::Isolated,
        (forall|i: int| 0 <= i < calls.len() ==> !(#[trigger] calls[i] is Syscalls))
            ==> ProfileView::deny_all().widened_by(calls).syscalls == SyscallsView::Unfiltered,
        (forall|i: int| 0 <= i < calls.len() ==> !(#[trigger] calls[i] is Name))
            ==> ProfileView::deny_all().widened_by(calls).name == "unnamed"@,
{
    let start = ProfileView::deny_all();
    lemma_builder_only_widens(start, calls);
    assert(start.fs + grants_of(calls) =~= grants_of(calls));
    assert(start.capabilities + capabilities_of(calls) =~= capabilities_of(calls));
    lemma_scalars_stay(start, calls);
}

/// A scalar of a profile stays as it is until a call of its kind sets it.
pub proof fn lemma_scalars_stay(start: ProfileView, calls: Seq<Widening>)
    ensures
        (forall|i: int| 0 <= i < calls.len() ==> !(#[trigger] calls[i] is Network))
            ==> start.widened_by(calls).network == start.network,
        (forall|i: int| 0 <= i < calls.len() ==> !(#[trigger] calls[i] is Syscalls))
            ==> start.widened_by(calls).syscalls == start.syscalls,
        (forall|i: int| 0 <= i < calls.len() ==> !(#[trigger] calls[i] is Name))
            ==> start.widened_by(calls).name == start.name,
    decreases calls.len(),
{
    if calls.len() > 0 {
        let front = calls.drop_last();
        lemma_scalars_stay(start, front);
        assert forall|i: int| 0 <= i < front.len() implies front[i] == #[trigger] calls[i] by {}
        assert(calls.last() == calls[calls.len() - 1]);
    }
}

/// The last call of each scalar kind wins: where no later call is of its kind,
/// the network scope, the syscall policy or the name that call `k` sets is the
/// one that the profile has.
pub proof fn lemma_last_scalar_call_wins(start: ProfileView, calls: Seq<Widening>, k: int)
    requires
        0 <= k < calls.len(),
    ensures
        (forall|i: int| k < i < calls.len() ==> !(#[trigger] calls[i] is Network)) ==> (calls[k]
            matches Widening::Network(scope) ==> start.widened_by(calls).network == scope),
        (forall|i: int| k < i < calls.len() ==> !(#[trigger] calls[i] is Syscalls)) ==> (calls[k]
            matches Widening::Syscalls(policy) ==> start.widened_by(calls).syscalls == policy),
        (forall|i: int| k < i < calls.len() ==> !(#[trigger] calls[i] is Name)) ==> (calls[k]
            matches Widening::Name(name) ==> start.widened_by(calls).name == name),
    decreases calls.len(),
{
    if k < calls.len() - 1 {
        let front = calls.drop_last();
        lemma_last_scalar_call_wins(start, front, k);
        assert forall|i: int| 0 <= i < front.len() implies front[i] == #[trigger] calls[i] by {}
        assert(calls.last() == calls[calls.len() - 1]);
    }
}

/// One call on a [`RestrictionsBuilder`].
pub enum Narrowing {
    Denials(Seq<Seq<char>>),
    Revocation(Seq<u8>),
}

impl RestrictionsView {
    /// The ratchet after one builder call.
    pub open spec fn narrowed(self, call: Narrowing) -> RestrictionsView {
        match call {
            Narrowing::Denials(names) => self.with_denials(names),
            Narrowing::Revocation(path) => self.with_revocation(path),
        }
    }

    /// The ratchet after these builder calls, in order.
    pub open spec fn narrowed_by(self, calls: Seq<Narrowing>) -> RestrictionsView
        decreases calls.len(),
    {
        if calls.len() == 0 {
            self
        } else {
            self.narrowed_by(calls.drop_last()).narrowed(calls.last())
        }
    }
}

/// The names that these builder calls deny, in order.
pub open spec fn denials_of(calls: Seq<Narrowing>) -> Seq<Seq<char>>
    decreases calls.len(),
{
    if calls.len() == 0 {
        seq![]
    } else {
        match calls.last() {
            Narrowing::Denials(names) => denials_of(calls.drop_last()) + names,
            _ => denials_of(calls.drop_last()),
        }
    }
}

/// The paths that these builder calls take away, in order.
pub open spec fn revocations_of(calls: Seq<Narrowing>) -> Seq<Seq<u8>>
    decreases calls.len(),
{
    if calls.len() == 0 {
        seq![]
    } else {
        match calls.last() {
            Narrowing::Revocation(path) => revocations_of(calls.drop_last()).push(path),
            _ => revocations_of(calls.drop_last()),
        }
    }
}

/// A ratchet only narrows: whatever calls follow, the denied names and the
/// revoked paths of the starting point stay, in their places, and exactly the
/// ones that the calls ask for come behind them.
pub proof fn lemma_ratchet_only_narrows(start: RestrictionsView, calls: Seq<Narrowing>)
    ensures
        start.narrowed_by(calls).denials() == start.denials() + denials_of(calls),
        start.narrowed_by(calls).revoke_paths == start.revoke_paths + revocations_of(calls),
        start.denials().is_prefix_of(start.narrowed_by(calls).denials()),
        start.revoke_paths.is_prefix_of(start.narrowed_by(calls).revoke_paths),
        start.syscalls is Some ==> start.narrowed_by(calls).syscalls is Some,
    decreases calls.len(),
{
    if calls.len() > 0 {
        lemma_ratchet_only_narrows(start, calls.drop_last());
    }
    assert(start.narrowed_by(calls).denials() =~= start.denials() + denials_of(calls));
    assert(start.narrowed_by(calls).revoke_paths =~= start.revoke_paths + revocations_of(calls));
}

} // verus!
