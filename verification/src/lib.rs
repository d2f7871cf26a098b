//! Default-deny worker-process sandboxing.
//!
//! This crate confines a worker process to the minimum authority it needs. A
//! worker starts from [`Profile::deny_all`] and is widened only by the explicit
//! grants its own crate declares, so the confinement is default-deny by
//! construction rather than by remembering to lock things down.
//!
//! # Three stages
//!
//! Sandboxing happens in named, ordered stages:
//!
//! 1. [`prepare`](prepare()) — runs in the *control* process, just before it
//!    spawns the worker. It returns a plain-data [`SandboxProcessConfig`]
//!    describing the child's launch environment. The caller merges that into
//!    whatever process builder it already owns and performs the spawn.
//! 2. [`apply`] — the **first statement of the worker's `main()`**. It must run
//!    before any thread is spawned, any async runtime starts, or any resource
//!    is opened.
//! 3. [`tighten`] — an optional, additive-only ratchet a worker calls once it
//!    has finished initializing, to shed its init-only authority. It takes
//!    [`Restrictions`], a type that can only ever *narrow*.
//!
//! # Deciding and doing
//!
//! The library decides; its caller does. [`apply`] and [`tighten`] return a
//! [`Session`](procedure::Session), which names one operation on the operating
//! system after another and takes the outcome of each. What is done, in which
//! order, and what a failure means is decided here.
//!
//! # Platform support
//!
//! Linux is fully implemented. On Windows the launch-time LPAC data is produced
//! by [`prepare`](prepare()), but the post-launch [`apply`]/[`tighten`] half is
//! not yet implemented and returns [`Error::UnsupportedPlatform`] rather than a
//! silent no-op (fail-loud). Other platforms are unsupported.

use crate::error::ErrorView;
use crate::host::sandbox_disabled;
use crate::procedure::Session;
use crate::procedure::SessionView;
use crate::profile::SyscallsView;
use vstd::prelude::*;

pub mod abi;
pub mod error;
pub mod error_laws;
pub mod host;
pub mod launch_laws;
pub mod linux;
pub mod linux_laws;
pub mod linux_layout;
pub mod meshworker;
pub mod path;
pub mod path_laws;
pub mod prepare;
pub mod procedure;
pub mod procedure_laws;
pub mod profile;
pub mod profile_laws;
pub mod profiles;
pub mod sandbox_profiles;
pub mod script;
pub mod script_laws;
pub mod stage_laws;
pub mod text;
pub mod unix;
pub mod windows;

pub use error::Error;
pub use host::Host;
pub use host::Platform;
pub use prepare::prepare;
pub use prepare::HandleTag;
pub use prepare::Identity;
pub use prepare::RawHandle;
pub use prepare::SandboxProcessConfig;
pub use prepare::WindowsPreparation;
pub use profile::Builder;
pub use profile::Capability;
pub use profile::Network;
pub use profile::Profile;
pub use profile::Restrictions;
pub use profile::RestrictionsBuilder;
pub use profile::Syscalls;

verus! {

/// Process exit code used when a required sandbox primitive fails to apply.
///
/// A worker whose [`apply`] fails should exit with this code so the control
/// process can distinguish a sandbox failure from an ordinary worker crash.
/// Distinct and stable so tooling and tests can assert on it.
pub const EXIT_SANDBOX_FAILED: i32 = 90;

/// Environment variable that disables the sandbox — **debug builds only**.
///
/// In a build with debug assertions and with this variable present in the
/// environment, [`apply`] and [`tighten`] become no-ops so a developer can run
/// a worker outside its confinement while iterating. Release builds ignore it
/// entirely: the sandbox can never be switched off by an environment variable a
/// compromised process could set.
pub const DISABLE_ENV: &'static str = "OPENVMM_SANDBOX_DISABLE";

/// STAGE 2 — worker, the first statement of `main()`.
///
/// The procedure that applies `profile` to the current process. On Linux the
/// process must already have been cloned with the flags returned by
/// [`prepare`](prepare()); this configures those namespaces and establishes the
/// remaining sandbox. See the crate docs for the required single-threaded,
/// run-first ordering. Where any *required* primitive fails, the session ends
/// with an [`Error`] — the worker should then exit with
/// [`EXIT_SANDBOX_FAILED`].
///
/// In debug builds, becomes a no-op when [`DISABLE_ENV`] is set (see its docs).
pub fn apply(profile: &Profile, host: &Host) -> (r: Result<Session, Error>)
    ensures
        r is Ok <==> host.is_disabled() || host.platform == Platform::Linux,
        r matches Ok(session) ==> session@ == SessionView::initial(
            if host.is_disabled() {
                seq![]
            } else {
                linux::apply_steps(profile@, *host)
            },
        ),
        r matches Err(error) ==> error@ == ErrorView::UnsupportedPlatform,
        r is Ok && !host.is_disabled() ==> linux::enforces(profile@.syscalls, *host),
{
    if sandbox_disabled(host) {
        return Ok(nothing_to_do());
    }
    match host.platform {
        Platform::Linux => linux::apply(profile, host),
        Platform::Windows => windows::apply(profile),
        Platform::Other => Err(Error::UnsupportedPlatform),
    }
}

/// STAGE 3 (optional) — worker, after its own initialization.
///
/// The procedure that stacks the additive-only `restrictions` onto the
/// already-applied sandbox. Unlike [`apply`], it may run multi-threaded. In
/// debug builds, becomes a no-op when [`DISABLE_ENV`] is set.
pub fn tighten(restrictions: &Restrictions, host: &Host) -> (r: Result<Session, Error>)
    ensures
        r is Ok <==> host.is_disabled() || (host.platform == Platform::Linux
            && restrictions@.revoke_paths.len() == 0),
        r matches Ok(session) ==> session@ == SessionView::initial(
            if host.is_disabled() {
                seq![]
            } else {
                linux::tighten_steps(restrictions@, *host)
            },
        ),
        r matches Err(error) ==> error@ == (if host.platform == Platform::Linux {
            ErrorView::RequiredPrimitiveUnavailable(linux::NO_REVOCATION@)
        } else {
            ErrorView::UnsupportedPlatform
        }),
        r is Ok && !host.is_disabled() && restrictions@.syscalls is Some ==> linux::enforces(
            SyscallsView::Deny(restrictions@.syscalls->Some_0),
            *host,
        ),
{
    if sandbox_disabled(host) {
        return Ok(nothing_to_do());
    }
    match host.platform {
        Platform::Linux => linux::tighten(restrictions, host),
        Platform::Windows => windows::tighten(restrictions),
        Platform::Other => Err(Error::UnsupportedPlatform),
    }
}

/// The session that has already ended well.
fn nothing_to_do() -> (r: Session)
    ensures
        r@ == SessionView::initial(seq![]),
        r@.has_succeeded(),
{
    let steps: Vec<procedure::Step> = Vec::new();
    assert(procedure::steps_view(steps@) =~= seq![]);
    Session::start(steps)
}

} // verus!
