//! Why a sandbox could not be prepared or applied.

use crate::procedure::CapSet;
use crate::text;
use vstd::prelude::*;
use vstd::string::*;

verus! {

/// Why a seccomp filter could not be built.
#[derive(Debug)]
pub enum FilterError {
    /// Filters cannot be compiled for the architecture of this name.
    UnsupportedArch(String),
    /// There are no system call numbers for the architecture of this name.
    UnnumberedArch(String),
    /// A denylist names a system call that is not recognized.
    UnknownSyscall(String),
    /// An allowlist names a system call that is not recognized.
    UnknownAllowance(String),
    /// A policy denies a system call that a process needs to exit.
    SurvivalSyscall(String),
    /// A condition was refused.
    Condition,
    /// A rule was refused.
    Rule,
    /// A filter was refused.
    Creation,
    /// A filter could not be compiled, with the text of the reason.
    Compilation(String),
}

/// The model of a [`FilterError`].
pub enum FilterErrorView {
    UnsupportedArch(Seq<char>),
    UnnumberedArch(Seq<char>),
    UnknownSyscall(Seq<char>),
    UnknownAllowance(Seq<char>),
    SurvivalSyscall(Seq<char>),
    Condition,
    Rule,
    Creation,
    Compilation(Seq<char>),
}

impl View for FilterError {
    type V = FilterErrorView;

    open spec fn view(&self) -> FilterErrorView {
        match self {
            FilterError::UnsupportedArch(name) => FilterErrorView::UnsupportedArch(name@),
            FilterError::UnnumberedArch(name) => FilterErrorView::UnnumberedArch(name@),
            FilterError::UnknownSyscall(name) => FilterErrorView::UnknownSyscall(name@),
            FilterError::UnknownAllowance(name) => FilterErrorView::UnknownAllowance(name@),
            FilterError::SurvivalSyscall(name) => FilterErrorView::SurvivalSyscall(name@),
            FilterError::Condition => FilterErrorView::Condition,
            FilterError::Rule => FilterErrorView::Rule,
            FilterError::Creation => FilterErrorView::Creation,
            FilterError::Compilation(text) => FilterErrorView::Compilation(text@),
        }
    }
}

impl FilterError {
    /// A copy of the error.
    pub fn duplicate(&self) -> (r: FilterError)
        ensures
            r@ == self@,
    {
        match self {
            FilterError::UnsupportedArch(name) => FilterError::UnsupportedArch(name.clone()),
            FilterError::UnnumberedArch(name) => FilterError::UnnumberedArch(name.clone()),
            FilterError::UnknownSyscall(name) => FilterError::UnknownSyscall(name.clone()),
            FilterError::UnknownAllowance(name) => FilterError::UnknownAllowance(name.clone()),
            FilterError::SurvivalSyscall(name) => FilterError::SurvivalSyscall(name.clone()),
            FilterError::Condition => FilterError::Condition,
            FilterError::Rule => FilterError::Rule,
            FilterError::Creation => FilterError::Creation,
            FilterError::Compilation(text) => FilterError::Compilation(text.clone()),
        }
    }

    /// The text that tells a reader what went wrong. A name in it stands in
    /// double quotes, as `{:?}` prints it.
    pub fn message(&self) -> (r: String)
        ensures
            r@ == self@.message(),
    {
        match self {
            FilterError::UnsupportedArch(name) => enclose(
                "unsupported arch for seccomp: InvalidTargetArch(",
                text::debug_quote(name.as_str()).as_str(),
                ")",
            ),
            FilterError::UnnumberedArch(name) => concat(
                "no syscall numbers for arch: ",
                text::debug_quote(name.as_str()).as_str(),
            ),
            FilterError::UnknownSyscall(name) => concat(
                "unknown syscall name in denylist: ",
                text::debug_quote(name.as_str()).as_str(),
            ),
            FilterError::UnknownAllowance(name) => concat(
                "unknown syscall name in allowlist: ",
                text::debug_quote(name.as_str()).as_str(),
            ),
            FilterError::SurvivalSyscall(name) => enclose(
                "syscall ",
                text::debug_quote(name.as_str()).as_str(),
                " is required for a process to exit and cannot be denied",
            ),
            FilterError::Condition => concat("seccomp condition: ", INVALID_ARGUMENT),
            FilterError::Rule => concat("seccomp rule: ", EMPTY_RULE),
            FilterError::Creation => concat(
                "seccomp filter creation failed: ",
                IDENTICAL_ACTIONS,
            ),
            FilterError::Compilation(reason) => concat(
                "seccomp BPF compilation failed: ",
                reason.as_str(),
            ),
        }
    }
}

/// Why a condition is refused.
pub const INVALID_ARGUMENT: &'static str = "The seccomp rule contains an invalid argument index. Maximum index value: 5";

/// Why a rule is refused.
pub const EMPTY_RULE: &'static str = "The condition vector of a rule cannot be empty.";

/// Why a filter is refused.
pub const IDENTICAL_ACTIONS: &'static str = "`match_action` and `mismatch_action` are equal.";

impl FilterErrorView {
    /// The text that tells a reader what went wrong.
    pub open spec fn message(self) -> Seq<char> {
        match self {
            FilterErrorView::UnsupportedArch(name) =>
                "unsupported arch for seccomp: InvalidTargetArch("@ + text::debug_form(name) + ")"@,
            FilterErrorView::UnnumberedArch(name) => "no syscall numbers for arch: "@
                + text::debug_form(name),
            FilterErrorView::UnknownSyscall(name) => "unknown syscall name in denylist: "@
                + text::debug_form(name),
            FilterErrorView::UnknownAllowance(name) => "unknown syscall name in allowlist: "@
                + text::debug_form(name),
            FilterErrorView::SurvivalSyscall(name) => "syscall "@ + text::debug_form(name)
                + " is required for a process to exit and cannot be denied"@,
            FilterErrorView::Condition => "seccomp condition: "@ + INVALID_ARGUMENT@,
            FilterErrorView::Rule => "seccomp rule: "@ + EMPTY_RULE@,
            FilterErrorView::Creation => "seccomp filter creation failed: "@ + IDENTICAL_ACTIONS@,
            FilterErrorView::Compilation(reason) => "seccomp BPF compilation failed: "@ + reason,
        }
    }
}

/// Two strings, one behind the other.
fn concat(first: &str, second: &str) -> (r: String)
    ensures
        r@ == first@ + second@,
{
    let mut all = first.to_owned();
    all.append(second);
    all
}

/// Three strings, one behind the other.
fn enclose(first: &str, second: &str, third: &str) -> (r: String)
    ensures
        r@ == first@ + second@ + third@,
{
    let mut all = concat(first, second);
    all.append(third);
    all
}

/// What lies behind the failure of a primitive.
#[derive(Debug)]
pub enum Cause {
    /// The operating system reported this error number.
    Os(i32),
    /// The path of a filesystem grant does not exist.
    GrantSourceMissing(Vec<u8>),
    /// A path holds a zero byte.
    NulInPath,
    /// A seccomp filter could not be built.
    Filter(FilterError),
    /// A directory could not be created or removed.
    Directory {
        /// The directory.
        path: Vec<u8>,
        /// The kind of the error that was reported.
        kind: std::io::ErrorKind,
        /// The text of the error that was reported.
        report: String,
    },
    /// A capability set could not be cleared.
    Capabilities {
        /// The set.
        set: CapSet,
        /// The text of the error that was reported.
        report: String,
    },
    /// A Landlock operation failed with this text.
    Landlock(String),
    /// A seccomp program could not be installed, with the text of the reason.
    Installation(String),
}

/// The model of a [`Cause`].
pub enum CauseView {
    Os(i32),
    GrantSourceMissing(Seq<u8>),
    NulInPath,
    Filter(FilterErrorView),
    Directory { path: Seq<u8>, kind: std::io::ErrorKind, report: Seq<char> },
    Capabilities { set: CapSet, report: Seq<char> },
    Landlock(Seq<char>),
    Installation(Seq<char>),
}

impl View for Cause {
    type V = CauseView;

    open spec fn view(&self) -> CauseView {
        match self {
            Cause::Os(errno) => CauseView::Os(*errno),
            Cause::GrantSourceMissing(path) => CauseView::GrantSourceMissing(path@),
            Cause::NulInPath => CauseView::NulInPath,
            Cause::Filter(error) => CauseView::Filter(error@),
            Cause::Directory { path, kind, report } => CauseView::Directory {
                path: path@,
                kind: *kind,
                report: report@,
            },
            Cause::Capabilities { set, report } => CauseView::Capabilities {
                set: *set,
                report: report@,
            },
            Cause::Landlock(report) => CauseView::Landlock(report@),
            Cause::Installation(report) => CauseView::Installation(report@),
        }
    }
}

/// The kind of a [`Cause`], as callers tell failures apart.
#[derive(Clone, Copy, PartialEq, Eq, Debug)]
pub enum CauseKind {
    /// The one that goes with this error number.
    Os(i32),
    /// The one that was reported.
    Reported(std::io::ErrorKind),
    /// Something is missing.
    NotFound,
    /// Something that was handed in is malformed.
    InvalidInput,
    /// Anything else.
    Other,
}

impl CauseView {
    /// The kind of the cause.
    pub open spec fn kind(self) -> CauseKind {
        match self {
            CauseView::Os(errno) => CauseKind::Os(errno),
            CauseView::GrantSourceMissing(_) => CauseKind::NotFound,
            CauseView::NulInPath => CauseKind::InvalidInput,
            CauseView::Directory { kind, .. } => CauseKind::Reported(kind),
            CauseView::Filter(_) => CauseKind::Other,
            CauseView::Capabilities { .. } => CauseKind::Other,
            CauseView::Landlock(_) => CauseKind::Other,
            CauseView::Installation(_) => CauseKind::Other,
        }
    }

    /// The text that tells a reader what went wrong. The text of an error
    /// number is the operating system's.
    pub open spec fn message(self) -> Option<Seq<char>> {
        match self {
            CauseView::Os(_) => None,
            CauseView::GrantSourceMissing(path) => Some(
                "filesystem grant source does not exist: "@ + text::readable(path),
            ),
            CauseView::NulInPath => Some("null byte in path"@),
            CauseView::Filter(error) => Some(error.message()),
            CauseView::Directory { report, .. } => Some(report),
            CauseView::Capabilities { set, report } => Some(
                "caps::clear("@ + set.name_view() + "): "@ + report,
            ),
            CauseView::Landlock(report) => Some("landlock: "@ + report),
            CauseView::Installation(report) => Some("seccomp apply failed: "@ + report),
        }
    }
}

impl Cause {
    /// The kind of the cause.
    pub fn kind(&self) -> (r: CauseKind)
        ensures
            r == self@.kind(),
    {
        match self {
            Cause::Os(errno) => CauseKind::Os(*errno),
            Cause::GrantSourceMissing(_) => CauseKind::NotFound,
            Cause::NulInPath => CauseKind::InvalidInput,
            Cause::Directory { kind, .. } => CauseKind::Reported(*kind),
            Cause::Filter(_) => CauseKind::Other,
            Cause::Capabilities { .. } => CauseKind::Other,
            Cause::Landlock(_) => CauseKind::Other,
            Cause::Installation(_) => CauseKind::Other,
        }
    }

    /// The text that tells a reader what went wrong; `None` for an error
    /// number, whose text is the operating system's. Bytes of a path that are
    /// not UTF-8 show as replacement characters.
    pub fn message(&self) -> (r: Option<String>)
        ensures
            r is Some <==> !(self@ is Os),
            r matches Some(text) ==> Some(text@) == self@.message(),
    {
        match self {
            Cause::Os(_) => None,
            Cause::GrantSourceMissing(path) => Some(
                concat(
                    "filesystem grant source does not exist: ",
                    text::read_lossy(path.as_slice()).as_str(),
                ),
            ),
            Cause::NulInPath => Some("null byte in path".to_owned()),
            Cause::Filter(error) => Some(error.message()),
            Cause::Directory { report, .. } => Some(report.clone()),
            Cause::Capabilities { set, report } => Some(
                concat(enclose("caps::clear(", set.name(), "): ").as_str(), report.as_str()),
            ),
            Cause::Landlock(report) => Some(concat("landlock: ", report.as_str())),
            Cause::Installation(report) => Some(
                concat("seccomp apply failed: ", report.as_str()),
            ),
        }
    }

    /// A copy of the cause.
    pub fn duplicate(&self) -> (r: Cause)
        ensures
            r@ == self@,
    {
        match self {
            Cause::Os(errno) => Cause::Os(*errno),
            Cause::GrantSourceMissing(path) => Cause::GrantSourceMissing(
                vstd::slice::slice_to_vec(path.as_slice()),
            ),
            Cause::NulInPath => Cause::NulInPath,
            Cause::Filter(error) => Cause::Filter(error.duplicate()),
            Cause::Directory { path, kind, report } => Cause::Directory {
                path: vstd::slice::slice_to_vec(path.as_slice()),
                kind: *kind,
                report: report.clone(),
            },
            Cause::Capabilities { set, report } => Cause::Capabilities {
                set: *set,
                report: report.clone(),
            },
            Cause::Landlock(report) => Cause::Landlock(report.clone()),
            Cause::Installation(report) => Cause::Installation(report.clone()),
        }
    }
}

/// An error produced while preparing or applying a sandbox.
#[derive(Debug)]
#[non_exhaustive]
pub enum Error {
    /// The current build has no sandbox backend for this operating system, or
    /// the backend's worker-side half is not yet implemented (Windows).
    /// Returned instead of silently running unconfined.
    UnsupportedPlatform,
    /// A primitive the platform must support to honor the profile is
    /// unavailable in this environment.
    RequiredPrimitiveUnavailable(&'static str),
    /// A required sandbox primitive failed while being applied. Carries the
    /// primitive's name and what lies behind the failure.
    ApplyFailed {
        /// The name of the primitive that failed (e.g. `"mount_namespace"`).
        primitive: &'static str,
        /// What lies behind the failure.
        source: Cause,
    },
}

/// The model of an [`Error`].
pub enum ErrorView {
    UnsupportedPlatform,
    RequiredPrimitiveUnavailable(Seq<char>),
    ApplyFailed { primitive: Seq<char>, source: CauseView },
}

impl View for Error {
    type V = ErrorView;

    open spec fn view(&self) -> ErrorView {
        match self {
            Error::UnsupportedPlatform => ErrorView::UnsupportedPlatform,
            Error::RequiredPrimitiveUnavailable(what) => ErrorView::RequiredPrimitiveUnavailable(
                what@,
            ),
            Error::ApplyFailed { primitive, source } => ErrorView::ApplyFailed {
                primitive: primitive@,
                source: source@,
            },
        }
    }
}

impl ErrorView {
    /// The text that tells a reader what went wrong.
    pub open spec fn message(self) -> Seq<char> {
        match self {
            ErrorView::UnsupportedPlatform => "sandbox is not implemented on this platform"@,
            ErrorView::RequiredPrimitiveUnavailable(what) =>
                "required sandbox primitive unavailable: "@ + what,
            ErrorView::ApplyFailed { primitive, .. } => "required sandbox primitive `"@ + primitive
                + "` failed to apply"@,
        }
    }
}

impl Error {
    /// The text that tells a reader what went wrong.
    pub fn message(&self) -> (r: String)
        ensures
            r@ == self@.message(),
    {
        match self {
            Error::UnsupportedPlatform => "sandbox is not implemented on this platform".to_owned(),
            Error::RequiredPrimitiveUnavailable(what) => concat(
                "required sandbox primitive unavailable: ",
                what,
            ),
            Error::ApplyFailed { primitive, .. } => enclose(
                "required sandbox primitive `",
                primitive,
                "` failed to apply",
            ),
        }
    }
}

} // verus!
