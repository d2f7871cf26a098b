//! Unix-family sandbox primitives.
//!
//! These are pure mechanism: they name kernel flags and say which operations
//! to perform. They know nothing of policy.

use vstd::prelude::*;

pub mod filter;
pub mod hardening;
pub mod landlock_rights;
pub mod mount_namespace;
pub mod network_namespace;
pub mod result_laws;
pub mod seccomp;
pub mod seccomp_laws;
pub mod syscall_laws;
pub mod syscalls;

verus! {

/// Reads a system call's return value.
pub trait SyscallResult: Sized {
    /// Whether the value reports success.
    spec fn is_success(self) -> bool;

    /// Returns `Ok(self)` when `self >= 0`, otherwise the error number that
    /// the thread recorded last.
    fn syscall_result(self, last_errno: i32) -> (r: Result<Self, i32>)
        ensures
            r == (if self.is_success() {
                Ok::<Self, i32>(self)
            } else {
                Err::<Self, i32>(last_errno)
            }),
    ;
}

impl SyscallResult for i32 {
    open spec fn is_success(self) -> bool {
        self >= 0
    }

    fn syscall_result(self, last_errno: i32) -> (r: Result<Self, i32>) {
        if self >= 0 {
            Ok(self)
        } else {
            Err(last_errno)
        }
    }
}

impl SyscallResult for isize {
    open spec fn is_success(self) -> bool {
        self >= 0
    }

    fn syscall_result(self, last_errno: i32) -> (r: Result<Self, i32>) {
        if self >= 0 {
            Ok(self)
        } else {
            Err(last_errno)
        }
    }
}

impl SyscallResult for i64 {
    open spec fn is_success(self) -> bool {
        self >= 0
    }

    fn syscall_result(self, last_errno: i32) -> (r: Result<Self, i32>) {
        if self >= 0 {
            Ok(self)
        } else {
            Err(last_errno)
        }
    }
}

} // verus!
