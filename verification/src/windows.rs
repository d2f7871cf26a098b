//! The Windows backend for [`apply`](crate::apply) and
//! [`tighten`](crate::tighten).
//!
//! On Windows the security-critical work is the LPAC construction, which
//! happens *before* the child exists. [`prepare`](crate::prepare()) describes
//! it as data, and the caller realizes it against `CreateProcess`.
//!
//! The *post-launch* half — the mitigations a worker must self-apply after
//! creation — is left out rather than stubbed with a no-op that would give a
//! false sense of security. Until it lands, [`apply`] and [`tighten`] return
//! [`Error::UnsupportedPlatform`] so a caller fails loudly instead of running
//! unconfined.

use crate::error::Error;
use crate::procedure::Session;
use crate::profile::Profile;
use crate::profile::Restrictions;
use vstd::prelude::*;

verus! {

/// STAGE 2 (Windows) — deferred. Returns [`Error::UnsupportedPlatform`].
pub fn apply(profile: &Profile) -> (r: Result<Session, Error>)
    ensures
        r is Err,
        r->Err_0 == Error::UnsupportedPlatform,
{
    let _ = profile;
    Err(Error::UnsupportedPlatform)
}

/// STAGE 3 (Windows) — deferred. Returns [`Error::UnsupportedPlatform`].
pub fn tighten(restrictions: &Restrictions) -> (r: Result<Session, Error>)
    ensures
        r is Err,
        r->Err_0 == Error::UnsupportedPlatform,
{
    let _ = restrictions;
    Err(Error::UnsupportedPlatform)
}

} // verus!
