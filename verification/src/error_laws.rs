//! What a reader is told, word for word.

use crate::error::Cause;
use crate::error::CauseKind;
use crate::error::CauseView;
use crate::error::Error;
use crate::error::ErrorView;
use crate::error::FilterError;
use crate::error::FilterErrorView;
use crate::meshworker::RoleError;
use crate::text;
use vstd::prelude::*;

verus! {

/// An error tells what is missing or which primitive failed.
pub proof fn lemma_error_text(error: Error, r: String)
    requires
        call_ensures(Error::message, (&error,), r),
    ensures
        error is UnsupportedPlatform ==> r@ == "sandbox is not implemented on this platform"@,
        error matches Error::RequiredPrimitiveUnavailable(what) ==> r@
            == "required sandbox primitive unavailable: "@ + what@,
        error matches Error::ApplyFailed { primitive, source: _ } ==> r@
            == "required sandbox primitive `"@ + primitive@ + "` failed to apply"@,
{
}

/// A cause has the kind by which callers tell it: an error number and a reported
/// kind keep theirs, a missing path is not found, a zero byte is malformed, and
/// everything else is other.
pub proof fn lemma_cause_kind(cause: Cause, r: CauseKind)
    requires
        call_ensures(Cause::kind, (&cause,), r),
    ensures
        cause matches Cause::Os(errno) ==> r == CauseKind::Os(errno),
        cause matches Cause::Directory { path: _, kind, report: _ } ==> r == CauseKind::Reported(
            kind,
        ),
        cause is GrantSourceMissing ==> r == CauseKind::NotFound,
        cause is NulInPath ==> r == CauseKind::InvalidInput,
        cause is Filter || cause is Capabilities || cause is Landlock || cause is Installation
            ==> r == CauseKind::Other,
{
}

/// A cause tells what failed, in its own words or in those that were reported.
/// The text of an error number is left to the operating system.
pub proof fn lemma_cause_text(cause: Cause, r: Option<String>)
    requires
        call_ensures(Cause::message, (&cause,), r),
    ensures
        cause is Os <==> r is None,
        cause matches Cause::GrantSourceMissing(path) ==> vstd::utf8::valid_utf8(path@)
            ==> r->Some_0@ == "filesystem grant source does not exist: "@
            + vstd::utf8::decode_utf8(path@),
        cause matches Cause::GrantSourceMissing(path) ==> !vstd::utf8::valid_utf8(path@)
            ==> r->Some_0@ == "filesystem grant source does not exist: "@ + text::lossy_text(
            path@,
        ),
        cause is NulInPath ==> r->Some_0@ == "null byte in path"@,
        cause matches Cause::Directory { path: _, kind: _, report } ==> r->Some_0@ == report@,
        cause matches Cause::Capabilities { set, report } ==> r->Some_0@ == "caps::clear("@
            + set.name_view() + "): "@ + report@,
        cause matches Cause::Landlock(report) ==> r->Some_0@ == "landlock: "@ + report@,
        cause matches Cause::Installation(report) ==> r->Some_0@ == "seccomp apply failed: "@
            + report@,
{
    if r is Some {
        assert(Some(r->Some_0@) == cause@.message());
    }
}

/// A cause that is a filter error tells what the filter error tells.
pub proof fn lemma_filter_cause_text(error: FilterError, own: String, r: Option<String>)
    requires
        call_ensures(FilterError::message, (&error,), own),
        call_ensures(Cause::message, (&Cause::Filter(error),), r),
    ensures
        r matches Some(text) && text@ == own@,
{
    assert(Cause::Filter(error)@ is Filter);
}

/// A name that is made of letters, digits and underscores stands in quotes.
pub open spec fn in_quotes(name: Seq<char>) -> Seq<char> {
    "\""@ + name + "\""@
}

/// A filter error tells which name or architecture is at fault, or which part of
/// a filter was refused and why.
pub proof fn lemma_filter_error_text(error: FilterError, r: String)
    requires
        call_ensures(FilterError::message, (&error,), r),
    ensures
        error matches FilterError::UnsupportedArch(name) ==> text::is_word(name@) ==> r@
            == "unsupported arch for seccomp: InvalidTargetArch("@ + in_quotes(name@) + ")"@,
        error matches FilterError::UnnumberedArch(name) ==> text::is_word(name@) ==> r@
            == "no syscall numbers for arch: "@ + in_quotes(name@),
        error matches FilterError::UnknownSyscall(name) ==> text::is_word(name@) ==> r@
            == "unknown syscall name in denylist: "@ + in_quotes(name@),
        error matches FilterError::UnknownAllowance(name) ==> text::is_word(name@) ==> r@
            == "unknown syscall name in allowlist: "@ + in_quotes(name@),
        error matches FilterError::SurvivalSyscall(name) ==> text::is_word(name@) ==> r@
            == "syscall "@ + in_quotes(name@)
            + " is required for a process to exit and cannot be denied"@,
        error is Condition ==> r@ == "seccomp condition: "@
            + "The seccomp rule contains an invalid argument index. Maximum index value: 5"@,
        error is Rule ==> r@ == "seccomp rule: "@
            + "The condition vector of a rule cannot be empty."@,
        error is Creation ==> r@ == "seccomp filter creation failed: "@
            + "`match_action` and `mismatch_action` are equal."@,
        error matches FilterError::Compilation(reason) ==> r@
            == "seccomp BPF compilation failed: "@ + reason@,
{
}

/// A filter error over a name that is no word tells it as `{:?}` prints it.
pub proof fn lemma_filter_error_text_escaped(error: FilterError, r: String)
    requires
        call_ensures(FilterError::message, (&error,), r),
    ensures
        error matches FilterError::UnsupportedArch(name) ==> !text::is_word(name@) ==> r@
            == "unsupported arch for seccomp: InvalidTargetArch("@ + text::debug_text(name@)
            + ")"@,
        error matches FilterError::UnnumberedArch(name) ==> !text::is_word(name@) ==> r@
            == "no syscall numbers for arch: "@ + text::debug_text(name@),
        error matches FilterError::UnknownSyscall(name) ==> !text::is_word(name@) ==> r@
            == "unknown syscall name in denylist: "@ + text::debug_text(name@),
        error matches FilterError::UnknownAllowance(name) ==> !text::is_word(name@) ==> r@
            == "unknown syscall name in allowlist: "@ + text::debug_text(name@),
        error matches FilterError::SurvivalSyscall(name) ==> !text::is_word(name@) ==> r@
            == "syscall "@ + text::debug_text(name@)
            + " is required for a process to exit and cannot be denied"@,
{
}

/// A role error tells the unknown role, or that there are several.
pub proof fn lemma_role_error_text(error: RoleError, r: String)
    requires
        call_ensures(RoleError::message, (&error,), r),
    ensures
        error matches RoleError::Unknown(value) ==> r@ == "unknown OpenVMM sandbox role `"@
            + value@ + "`"@,
        error is Repeated ==> r@ == "OpenVMM sandbox role specified more than once"@,
{
}

/// Copies of errors tell what the originals tell.
pub proof fn lemma_copies(
    error: FilterError,
    cause: Cause,
    error_copy: FilterError,
    cause_copy: Cause,
    kind: CauseKind,
    kind_of_copy: CauseKind,
)
    requires
        call_ensures(FilterError::duplicate, (&error,), error_copy),
        call_ensures(Cause::duplicate, (&cause,), cause_copy),
        call_ensures(Cause::kind, (&cause,), kind),
        call_ensures(Cause::kind, (&cause_copy,), kind_of_copy),
    ensures
        error_copy@ == error@,
        cause_copy@ == cause@,
        kind_of_copy == kind,
{
}

/// The models of errors and causes say what their fields hold.
pub proof fn lemma_error_models(error: Error, cause: Cause, fault: FilterError)
    ensures
        error is UnsupportedPlatform ==> error@ is UnsupportedPlatform,
        error matches Error::RequiredPrimitiveUnavailable(what) ==> error@
            == ErrorView::RequiredPrimitiveUnavailable(what@),
        error matches Error::ApplyFailed { primitive, source } ==> error@
            == (ErrorView::ApplyFailed { primitive: primitive@, source: source@ }),
        cause matches Cause::Os(errno) ==> cause@ == CauseView::Os(errno),
        cause matches Cause::GrantSourceMissing(path) ==> cause@ == CauseView::GrantSourceMissing(
            path@,
        ),
        cause is NulInPath ==> cause@ is NulInPath,
        cause matches Cause::Filter(own) ==> cause@ == CauseView::Filter(own@),
        cause matches Cause::Directory { path, kind, report } ==> cause@ == (CauseView::Directory {
            path: path@,
            kind,
            report: report@,
        }),
        cause matches Cause::Capabilities { set, report } ==> cause@ == (CauseView::Capabilities {
            set,
            report: report@,
        }),
        cause matches Cause::Landlock(report) ==> cause@ == CauseView::Landlock(report@),
        cause matches Cause::Installation(report) ==> cause@ == CauseView::Installation(report@),
        fault matches FilterError::UnsupportedArch(name) ==> fault@
            == FilterErrorView::UnsupportedArch(name@),
        fault matches FilterError::UnnumberedArch(name) ==> fault@
            == FilterErrorView::UnnumberedArch(name@),
        fault matches FilterError::UnknownSyscall(name) ==> fault@
            == FilterErrorView::UnknownSyscall(name@),
        fault matches FilterError::UnknownAllowance(name) ==> fault@
            == FilterErrorView::UnknownAllowance(name@),
        fault matches FilterError::SurvivalSyscall(name) ==> fault@
            == FilterErrorView::SurvivalSyscall(name@),
        fault is Condition ==> fault@ is Condition,
        fault is Rule ==> fault@ is Rule,
        fault is Creation ==> fault@ is Creation,
        fault matches FilterError::Compilation(reason) ==> fault@ == FilterErrorView::Compilation(
            reason@,
        ),
{
}

} // verus!
