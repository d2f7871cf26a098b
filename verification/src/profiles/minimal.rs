//! The minimal base profile.

use crate::profile::Access;
use crate::profile::Builder;
use crate::profile::Network;
use crate::profile::Profile;
use crate::profile::ProfileView;
use crate::profile::Syscalls;
use crate::profile::SyscallsView;
use crate::text;
use vstd::prelude::*;

verus! {

/// The minimal policy.
pub open spec fn minimal_policy() -> ProfileView {
    ProfileView::deny_all().with_name("minimal"@).with_grant(
        vstd::utf8::encode_utf8("/bin"@),
        Access::ReadExec,
    ).with_grant(vstd::utf8::encode_utf8("/lib"@), Access::ReadExec).with_network(
        Network::Isolated,
    ).with_syscalls(SyscallsView::Deny(seq![]))
}

/// A conservative starting profile that a worker widens for its own needs.
///
/// It grants read + execute on `/bin` and `/lib` (so a dynamically linked
/// binary can start), denies all networking, and installs the seccomp
/// dangerous-syscall baseline ([`Syscalls::Deny`] with no extras) — blocking
/// namespace-escape and kernel-CVE syscalls such as `mount`, `unshare`,
/// `pivot_root`, and `bpf`. Because every profile derives from
/// [`Profile::deny_all`], it also drops all capabilities. A worker typically
/// starts from here and chains further grants before building.
pub fn minimal() -> (r: Builder)
    ensures
        r@ == minimal_policy(),
{
    let policy = Syscalls::Deny(&[]);
    assert(policy@ == SyscallsView::Deny(seq![])) by {
        assert(text::names_view(policy->Deny_0@) =~= seq![]);
    }
    Profile::deny_all().name("minimal").read("/bin").read("/lib").network(
        Network::Isolated,
    ).syscalls(policy)
}

} // verus!
