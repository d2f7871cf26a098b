//! What the library needs to know of the machine and the build it runs in.

use vstd::prelude::*;

verus! {

/// The operating systems that the sandbox tells apart.
#[derive(Clone, Copy, PartialEq, Eq, Structural, Debug)]
pub enum Platform {
    /// Linux, with a complete backend.
    Linux,
    /// Windows, with launch data only.
    Windows,
    /// Any other operating system: unsupported.
    Other,
}

/// The surroundings of a process.
#[derive(Clone, Copy, Debug)]
pub struct Host {
    /// The operating system.
    pub platform: Platform,
    /// Whether this is a build with debug assertions.
    pub debug_build: bool,
    /// Whether [`DISABLE_ENV`](crate::DISABLE_ENV) is present in the
    /// environment.
    pub disable_requested: bool,
    /// The name of the processor architecture, as in
    /// `std::env::consts::ARCH`.
    pub arch: &'static str,
}

impl Host {
    /// Whether the sandbox is switched off here.
    pub open spec fn is_disabled(self) -> bool {
        self.debug_build && self.disable_requested
    }
}

/// Whether the dev-only disable escape is active. Always `false` in release
/// builds, regardless of the environment.
pub fn sandbox_disabled(host: &Host) -> (r: bool)
    ensures
        r == host.is_disabled(),
{
    host.debug_build && host.disable_requested
}

/// A release build cannot be switched off, whatever the environment holds.
pub proof fn lemma_release_is_never_disabled(host: Host)
    requires
        !host.debug_build,
    ensures
        !host.is_disabled(),
{
}

} // verus!
