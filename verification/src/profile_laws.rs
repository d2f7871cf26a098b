//! What each call on a builder does, said of the builder that goes in and the
//! one that comes out, and what the ready-made policies hold.

use crate::meshworker;
use crate::path::AsPath;
use crate::profile::Access;
use crate::profile::Builder;
use crate::profile::Capability;
use crate::profile::Narrowing;
use crate::profile::Network;
use crate::profile::Profile;
use crate::profile::ProfileView;
use crate::profile::Restrictions;
use crate::profile::RestrictionsBuilder;
use crate::profile::RestrictionsView;
use crate::profile::Syscalls;
use crate::profile::SyscallsView;
use crate::profiles::minimal;
use crate::sandbox_profiles;
use vstd::prelude::*;

verus! {

/// Whether two policies agree in all but their filesystem grants.
pub open spec fn same_but_fs(a: ProfileView, b: ProfileView) -> bool {
    a.name == b.name && a.network == b.network && a.syscalls == b.syscalls && a.capabilities
        == b.capabilities
}

/// Whether a policy has one more grant than another, at the end, and is the
/// same otherwise.
pub open spec fn adds_grant(
    before: ProfileView,
    after: ProfileView,
    path: Seq<u8>,
    access: Access,
) -> bool {
    &&& same_but_fs(before, after)
    &&& after.fs.len() == before.fs.len() + 1
    &&& after.fs.last().path == path
    &&& after.fs.last().access == access
    &&& forall|i: int| 0 <= i < before.fs.len() ==> #[trigger] after.fs[i] == before.fs[i]
}

/// A model says what the fields of a policy hold.
pub proof fn lemma_profile_model(profile: Profile)
    ensures
        profile@.name == profile.inner.name@,
        profile@.network == profile.inner.network,
        profile@.capabilities == profile.inner.capabilities@,
        profile@.fs.len() == profile.inner.fs@.len(),
        forall|i: int|
            0 <= i < profile@.fs.len() ==> (#[trigger] profile@.fs[i]).path
                == profile.inner.fs@[i].path@ && profile@.fs[i].access
                == profile.inner.fs@[i].access,
        profile@.syscalls is Unfiltered <==> profile.inner.syscalls is Unfiltered,
        profile@.syscalls matches SyscallsView::Deny(names) ==> (profile.inner.syscalls
            matches Syscalls::Deny(listed) && names.len() == listed@.len() && forall|i: int|
            0 <= i < names.len() ==> #[trigger] names[i] == listed@[i]@),
        profile@.syscalls matches SyscallsView::Allow(names) ==> (profile.inner.syscalls
            matches Syscalls::Allow(listed) && names.len() == listed@.len() && forall|i: int|
            0 <= i < names.len() ==> #[trigger] names[i] == listed@[i]@),
{
}

/// A model says what the fields of a ratchet hold.
pub proof fn lemma_ratchet_model(ratchet: Restrictions)
    ensures
        ratchet@.syscalls is Some <==> ratchet.inner.syscalls is Some,
        ratchet@.syscalls matches Some(names) ==> names.len()
            == ratchet.inner.syscalls->Some_0@.len() && forall|i: int|
            0 <= i < names.len() ==> #[trigger] names[i]
                == ratchet.inner.syscalls->Some_0@[i]@,
        ratchet@.revoke_paths.len() == ratchet.inner.revoke_paths@.len(),
        forall|i: int|
            0 <= i < ratchet@.revoke_paths.len() ==> #[trigger] ratchet@.revoke_paths[i]
                == ratchet.inner.revoke_paths@[i]@,
{
}

/// A path is the bytes that name it: those of a byte string, and the UTF-8 form
/// of a text.
pub proof fn lemma_path_bytes(text: &str, string: String, bytes: &[u8], vec: Vec<u8>)
    ensures
        text.path_bytes() == vstd::utf8::encode_utf8(text@),
        string.path_bytes() == vstd::utf8::encode_utf8(string@),
        bytes.path_bytes() == bytes@,
        vec.path_bytes() == vec@,
{
}

/// A builder starts from a policy with nothing in it.
pub proof fn lemma_deny_all(r: Builder)
    requires
        call_ensures(Profile::deny_all, (), r),
    ensures
        r@.name == "unnamed"@,
        r@.fs.len() == 0,
        r@.network == Network::Isolated,
        r@.syscalls == SyscallsView::Unfiltered,
        r@.capabilities.len() == 0,
{
}

/// Naming a policy changes its name alone.
pub proof fn lemma_name_call(builder: Builder, name: &'static str, r: Builder)
    requires
        call_ensures(Builder::name, (builder, name), r),
    ensures
        r@.name == name@,
        r@.fs == builder@.fs,
        r@.network == builder@.network,
        r@.syscalls == builder@.syscalls,
        r@.capabilities == builder@.capabilities,
{
}

/// Granting a path for reading adds one grant, at the end, to read and execute.
pub proof fn lemma_read_call<P: AsPath>(builder: Builder, path: P, r: Builder)
    requires
        call_ensures(Builder::read::<P>, (builder, path), r),
    ensures
        adds_grant(builder@, r@, path.path_bytes(), Access::ReadExec),
{
}

/// Granting a path for writing adds one grant, at the end, to read and write.
pub proof fn lemma_read_write_call<P: AsPath>(builder: Builder, path: P, r: Builder)
    requires
        call_ensures(Builder::read_write::<P>, (builder, path), r),
    ensures
        adds_grant(builder@, r@, path.path_bytes(), Access::ReadWrite),
{
}

/// Setting the network scope changes it alone.
pub proof fn lemma_network_call(builder: Builder, scope: Network, r: Builder)
    requires
        call_ensures(Builder::network, (builder, scope), r),
    ensures
        r@.network == scope,
        r@.name == builder@.name,
        r@.fs == builder@.fs,
        r@.syscalls == builder@.syscalls,
        r@.capabilities == builder@.capabilities,
{
}

/// Setting the syscall policy changes it alone.
pub proof fn lemma_syscalls_call(builder: Builder, policy: Syscalls, r: Builder)
    requires
        call_ensures(Builder::syscalls, (builder, policy), r),
    ensures
        r@.syscalls == policy@,
        r@.name == builder@.name,
        r@.fs == builder@.fs,
        r@.network == builder@.network,
        r@.capabilities == builder@.capabilities,
{
}

/// Granting a capability adds it at the end and changes nothing else.
pub proof fn lemma_capability_call(builder: Builder, capability: Capability, r: Builder)
    requires
        call_ensures(Builder::capability, (builder, capability), r),
    ensures
        r@.capabilities.len() == builder@.capabilities.len() + 1,
        r@.capabilities.last() == capability,
        forall|i: int|
            0 <= i < builder@.capabilities.len() ==> #[trigger] r@.capabilities[i]
                == builder@.capabilities[i],
        r@.name == builder@.name,
        r@.fs == builder@.fs,
        r@.network == builder@.network,
        r@.syscalls == builder@.syscalls,
{
}

/// Building a policy and reopening it lose nothing and add nothing.
pub proof fn lemma_build_and_edit(builder: Builder, profile: Profile, again: Builder)
    requires
        call_ensures(Builder::build, (builder,), profile),
        call_ensures(Profile::edit, (&profile,), again),
    ensures
        profile@ == builder@,
        again@ == builder@,
{
}

/// A policy tells its own name.
pub proof fn lemma_name_of(profile: Profile, r: &'static str)
    requires
        call_ensures(Profile::name, (&profile,), r),
    ensures
        r@ == profile@.name,
{
}

/// The name of a capability is the one that Windows knows it by.
pub proof fn lemma_moniker(capability: Capability, r: &'static str)
    requires
        call_ensures(Capability::moniker, (capability,), r),
    ensures
        capability == Capability::LPAC_COM ==> r@ == "lpacCom"@,
        capability == Capability::LPAC_CRYPTO_SERVICES ==> r@ == "lpacCryptoServices"@,
        capability == Capability::REGISTRY_READ ==> r@ == "registryRead"@,
        capability == Capability::LPAC_COM || capability == Capability::LPAC_CRYPTO_SERVICES
            || capability == Capability::REGISTRY_READ,
{
}

/// A ratchet starts without denials and revocations.
pub proof fn lemma_no_restrictions(r: RestrictionsBuilder)
    requires
        call_ensures(Restrictions::none, (), r),
    ensures
        r@.syscalls is None,
        r@.revoke_paths.len() == 0,
{
}

/// Denying syscalls adds each name, in order, behind those that were denied
/// before, and revokes nothing. Denying none is still a denial.
pub proof fn lemma_deny_call(
    builder: RestrictionsBuilder,
    deny: &'static [&'static str],
    r: RestrictionsBuilder,
)
    requires
        call_ensures(RestrictionsBuilder::syscalls, (builder, deny), r),
    ensures
        ({
            let before = match builder@.syscalls {
                Some(names) => names,
                None => Seq::empty(),
            };
            &&& r@.syscalls matches Some(after)
            &&& after.len() == before.len() + deny@.len()
            &&& forall|i: int| 0 <= i < before.len() ==> #[trigger] after[i] == before[i]
            &&& forall|i: int|
                0 <= i < deny@.len() ==> after[before.len() + i] == (#[trigger] deny@[i])@
        }),
        r@.revoke_paths == builder@.revoke_paths,
{
}

/// Revoking a path adds it at the end and denies nothing.
pub proof fn lemma_revoke_call<P: AsPath>(
    builder: RestrictionsBuilder,
    path: P,
    r: RestrictionsBuilder,
)
    requires
        call_ensures(RestrictionsBuilder::revoke_path::<P>, (builder, path), r),
    ensures
        r@.revoke_paths.len() == builder@.revoke_paths.len() + 1,
        r@.revoke_paths.last() == path.path_bytes(),
        forall|i: int|
            0 <= i < builder@.revoke_paths.len() ==> #[trigger] r@.revoke_paths[i]
                == builder@.revoke_paths[i],
        r@.syscalls == builder@.syscalls,
{
}

/// Building a ratchet loses nothing and adds nothing.
pub proof fn lemma_build_ratchet(builder: RestrictionsBuilder, r: Restrictions)
    requires
        call_ensures(RestrictionsBuilder::build, (builder,), r),
    ensures
        r@ == builder@,
{
}

/// A ratchet denies syscalls exactly where its starting point did or a call
/// asked for it.
pub proof fn lemma_ratchet_denies_iff_asked(start: RestrictionsView, calls: Seq<Narrowing>)
    ensures
        start.narrowed_by(calls).syscalls is Some <==> start.syscalls is Some || exists|i: int|
            0 <= i < calls.len() && #[trigger] calls[i] is Denials,
    decreases calls.len(),
{
    if calls.len() > 0 {
        let front = calls.drop_last();
        lemma_ratchet_denies_iff_asked(start, front);
        assert forall|i: int| 0 <= i < front.len() implies front[i] == #[trigger] calls[i] by {}
        assert(calls.last() == calls[calls.len() - 1]);
        if exists|i: int| 0 <= i < front.len() && #[trigger] front[i] is Denials {
            let i = choose|i: int| 0 <= i < front.len() && #[trigger] front[i] is Denials;
            assert(calls[i] is Denials);
        }
        if exists|i: int| 0 <= i < calls.len() && #[trigger] calls[i] is Denials {
            let i = choose|i: int| 0 <= i < calls.len() && #[trigger] calls[i] is Denials;
            if i < front.len() {
                assert(front[i] is Denials);
            }
        }
    }
}

/// Whether grant `i` of a policy lets a directory be read.
pub open spec fn reads_at(policy: ProfileView, i: int, path: Seq<char>) -> bool {
    0 <= i < policy.fs.len() && policy.fs[i].path == vstd::utf8::encode_utf8(path)
        && policy.fs[i].access == Access::ReadExec
}

/// Whether a policy keeps to itself: no network and no capability.
pub open spec fn keeps_to_itself(policy: ProfileView) -> bool {
    policy.network == Network::Isolated && policy.capabilities.len() == 0
}

/// The minimal policy reads `/bin` and `/lib`, keeps to itself, and denies the
/// built-in set of calls alone.
pub proof fn lemma_minimal(r: Builder)
    requires
        call_ensures(minimal::minimal, (), r),
    ensures
        r@.name == "minimal"@,
        r@.fs.len() == 2,
        reads_at(r@, 0, "/bin"@),
        reads_at(r@, 1, "/lib"@),
        keeps_to_itself(r@),
        r@.syscalls matches SyscallsView::Deny(names) && names.len() == 0,
{
}

/// Whether a policy reads the program and system directories, and nothing else.
pub open spec fn reads_system(policy: ProfileView) -> bool {
    &&& policy.fs.len() == 5
    &&& reads_at(policy, 0, "/bin"@)
    &&& reads_at(policy, 1, "/lib"@)
    &&& reads_at(policy, 2, "/usr"@)
    &&& reads_at(policy, 3, "/etc"@)
    &&& reads_at(policy, 4, "/dev"@)
}

/// The policies of launched hosts. Both read the system and keep to themselves;
/// the virtual machine's denies `kill` on top of the built-in set, the virtual
/// TPM's nothing more.
pub proof fn lemma_mesh_roles(role: meshworker::SandboxRole, name: &'static str, r: Profile)
    requires
        call_ensures(meshworker::SandboxRole::name, (role,), name),
        call_ensures(meshworker::SandboxRole::profile, (role,), r),
    ensures
        role == meshworker::SandboxRole::Vm ==> name@ == "vm"@,
        role == meshworker::SandboxRole::Tpm ==> name@ == "tpm"@,
        r@.name == name@,
        reads_system(r@),
        keeps_to_itself(r@),
        r@.syscalls is Deny,
        role == meshworker::SandboxRole::Vm ==> r@.syscalls->Deny_0.len() == 1
            && r@.syscalls->Deny_0[0] == "kill"@,
        role == meshworker::SandboxRole::Tpm ==> r@.syscalls->Deny_0.len() == 0,
{
}

/// The policies of worker hosts. Both keep to themselves. The virtual machine's
/// reads the system and denies `kill`; the virtual TPM's reads nothing and
/// denies every way to send a signal.
pub proof fn lemma_worker_roles(
    role: sandbox_profiles::SandboxRole,
    name: &'static str,
    r: Profile,
)
    requires
        call_ensures(sandbox_profiles::SandboxRole::name, (role,), name),
        call_ensures(sandbox_profiles::SandboxRole::profile, (role,), r),
    ensures
        role == sandbox_profiles::SandboxRole::Vm ==> name@ == "vm"@,
        role == sandbox_profiles::SandboxRole::Tpm ==> name@ == "tpm"@,
        r@.name == name@,
        keeps_to_itself(r@),
        r@.syscalls is Deny,
        role == sandbox_profiles::SandboxRole::Vm ==> reads_system(r@)
            && r@.syscalls->Deny_0.len() == 1 && r@.syscalls->Deny_0[0] == "kill"@,
        role == sandbox_profiles::SandboxRole::Tpm ==> r@.fs.len() == 0
            && r@.syscalls->Deny_0.len() == 3 && r@.syscalls->Deny_0[0] == "kill"@
            && r@.syscalls->Deny_0[1] == "tkill"@ && r@.syscalls->Deny_0[2] == "tgkill"@,
{
}

/// No filtering is the default.
pub proof fn lemma_syscalls_default(r: Syscalls)
    requires
        call_ensures(<Syscalls as Default>::default, (), r),
    ensures
        r is Unfiltered,
{
}

/// A copy of a policy, a ratchet or a builder holds what it holds.
pub proof fn lemma_copies(
    profile: Profile,
    builder: Builder,
    ratchet: Restrictions,
    narrowing: RestrictionsBuilder,
    profile_copy: Profile,
    builder_copy: Builder,
    ratchet_copy: Restrictions,
    narrowing_copy: RestrictionsBuilder,
)
    requires
        call_ensures(<Profile as Clone>::clone, (&profile,), profile_copy),
        call_ensures(<Builder as Clone>::clone, (&builder,), builder_copy),
        call_ensures(<Restrictions as Clone>::clone, (&ratchet,), ratchet_copy),
        call_ensures(<RestrictionsBuilder as Clone>::clone, (&narrowing,), narrowing_copy),
    ensures
        profile_copy@ == profile@,
        builder_copy@ == builder@,
        ratchet_copy@ == ratchet@,
        narrowing_copy@ == narrowing@,
{
}

} // verus!
