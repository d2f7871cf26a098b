//! Sandbox policy definitions for worker hosts.

use crate::profile::Access;
use crate::profile::Network;
use crate::profile::Profile;
use crate::profile::ProfileView;
use crate::profile::Syscalls;
use crate::profile::SyscallsView;
use crate::profiles::minimal;
use crate::text;
use vstd::prelude::*;

verus! {

/// The kinds of worker host.
#[derive(Copy, Clone, PartialEq, Eq, Structural, Debug)]
pub enum SandboxRole {
    /// A host for the virtual machine.
    Vm,
    /// A host for the virtual TPM.
    Tpm,
}

impl SandboxRole {
    /// The role's name.
    pub open spec fn name_view(self) -> Seq<char> {
        match self {
            SandboxRole::Vm => "vm"@,
            SandboxRole::Tpm => "tpm"@,
        }
    }

    /// The role's policy. The virtual machine's host reads the system
    /// directories; the virtual TPM's host reads nothing.
    pub open spec fn policy(self) -> ProfileView {
        match self {
            SandboxRole::Vm => minimal::minimal_policy().with_name(self.name_view()).with_grant(
                vstd::utf8::encode_utf8("/usr"@),
                Access::ReadExec,
            ).with_grant(vstd::utf8::encode_utf8("/etc"@), Access::ReadExec).with_grant(
                vstd::utf8::encode_utf8("/dev"@),
                Access::ReadExec,
            ).with_syscalls(SyscallsView::Deny(seq!["kill"@])),
            SandboxRole::Tpm => ProfileView::deny_all().with_name(self.name_view()).with_network(
                Network::Isolated,
            ).with_syscalls(SyscallsView::Deny(seq!["kill"@, "tkill"@, "tgkill"@])),
        }
    }

    /// The role's name.
    pub fn name(self) -> (r: &'static str)
        ensures
            r@ == self.name_view(),
    {
        match self {
            SandboxRole::Vm => "vm",
            SandboxRole::Tpm => "tpm",
        }
    }

    /// The role's policy.
    pub fn profile(self) -> (r: Profile)
        ensures
            r@ == self.policy(),
    {
        match self {
            SandboxRole::Vm => {
                let policy = Syscalls::Deny(&["kill"]);
                assert(policy@ == SyscallsView::Deny(seq!["kill"@])) by {
                    assert(text::names_view(policy->Deny_0@) =~= seq!["kill"@]);
                }
                minimal::minimal().name(self.name()).read("/usr").read("/etc").read(
                    "/dev",
                ).syscalls(policy).build()
            },
            SandboxRole::Tpm => {
                let policy = Syscalls::Deny(&["kill", "tkill", "tgkill"]);
                assert(policy@ == SyscallsView::Deny(seq!["kill"@, "tkill"@, "tgkill"@])) by {
                    assert(text::names_view(policy->Deny_0@) =~= seq![
                        "kill"@,
                        "tkill"@,
                        "tgkill"@,
                    ]);
                }
                Profile::deny_all().name(self.name()).network(Network::Isolated).syscalls(
                    policy,
                ).build()
            },
        }
    }
}

} // verus!
