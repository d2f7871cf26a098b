//! Small `prctl` knobs that shrink a sandbox's blast radius.

use crate::abi::PR_SET_DUMPABLE;
use crate::abi::PR_SET_NO_NEW_PRIVS;
use crate::abi::PR_SET_PDEATHSIG;
use crate::abi::PR_SET_SECUREBITS;
use crate::abi::SIGKILL;
use crate::procedure::Op;
use crate::procedure::OpView;
use crate::unix::SyscallResult;
use vstd::prelude::*;

verus! {

// For every dimension both the behavior bit and its `_LOCKED` partner are set:
// the behavior bit changes policy now, the locked bit prevents any later code
// (even a UID-0 worker) from clearing it.
/// Root gains no capabilities across an `execve`.
pub const SECBIT_NOROOT: u64 = 1;

/// Locks [`SECBIT_NOROOT`].
pub const SECBIT_NOROOT_LOCKED: u64 = 2;

/// A change of user id leaves the capability sets alone.
pub const SECBIT_NO_SETUID_FIXUP: u64 = 4;

/// Locks [`SECBIT_NO_SETUID_FIXUP`].
pub const SECBIT_NO_SETUID_FIXUP_LOCKED: u64 = 8;

/// No capability can be raised into the ambient set.
pub const SECBIT_NO_CAP_AMBIENT_RAISE: u64 = 64;

/// Locks [`SECBIT_NO_CAP_AMBIENT_RAISE`].
pub const SECBIT_NO_CAP_AMBIENT_RAISE_LOCKED: u64 = 128;

/// The securebits of a sandboxed worker: three restrictions, each locked.
pub const SECUREBITS: u64 = 207;

/// The operation that clears the "dumpable" flag.
pub open spec fn dumpable_off_op() -> OpView {
    OpView::Prctl { option: PR_SET_DUMPABLE, arg: 0 }
}

/// The operation that ties the worker's life to its parent's.
pub open spec fn pdeathsig_kill_op() -> OpView {
    OpView::Prctl { option: PR_SET_PDEATHSIG, arg: SIGKILL }
}

/// The operation that locks the securebits.
pub open spec fn securebits_op() -> OpView {
    OpView::Prctl { option: PR_SET_SECUREBITS, arg: SECUREBITS }
}

/// The operation that gives up gaining privileges.
pub open spec fn no_new_privs_op() -> OpView {
    OpView::Prctl { option: PR_SET_NO_NEW_PRIVS, arg: 1 }
}

/// Clear the "dumpable" flag (`PR_SET_DUMPABLE = 0`).
///
/// A non-dumpable process produces no core dump (so guest memory cannot spill
/// to disk on a crash) and cannot be `ptrace`-attached or have its
/// `/proc/<pid>/mem` opened by another process of the same UID.
pub fn set_dumpable_off() -> (r: Op)
    ensures
        r@ == dumpable_off_op(),
{
    Op::Prctl { option: PR_SET_DUMPABLE, arg: 0 }
}

/// Request `SIGKILL` when the parent process dies
/// (`PR_SET_PDEATHSIG = SIGKILL`).
///
/// Ensures a sandbox cannot outlive the parent process that confines and
/// supervises it. This must be set *after* any credential change, because
/// changing the real/effective UID clears a pending pdeathsig.
pub fn set_pdeathsig_kill() -> (r: Op)
    ensures
        r@ == pdeathsig_kill_op(),
{
    Op::Prctl { option: PR_SET_PDEATHSIG, arg: SIGKILL }
}

/// Lock securebits so a sandbox cannot re-acquire root-like authority across
/// an `execve`.
///
/// Sets `SECBIT_NOROOT`, `SECBIT_NO_SETUID_FIXUP`, and
/// `SECBIT_NO_CAP_AMBIENT_RAISE`, each with its `_LOCKED` partner. Without the
/// locked bits, a UID-0 worker regains capabilities across `execve`.
///
/// This requires `CAP_SETPCAP`, so it must run *before* the capability drop.
pub fn lock_securebits() -> (r: Op)
    ensures
        r@ == securebits_op(),
{
    let bits: u64 = SECBIT_NOROOT | SECBIT_NOROOT_LOCKED | SECBIT_NO_SETUID_FIXUP
        | SECBIT_NO_SETUID_FIXUP_LOCKED | SECBIT_NO_CAP_AMBIENT_RAISE
        | SECBIT_NO_CAP_AMBIENT_RAISE_LOCKED;
    assert(1u64 | 2u64 | 4u64 | 8u64 | 64u64 | 128u64 == 207u64) by (bit_vector);
    Op::Prctl { option: PR_SET_SECUREBITS, arg: bits }
}

/// Apply the `PR_SET_NO_NEW_PRIVS` flag to the calling process.
///
/// Once set, this is irreversible for the process and all its descendants. It
/// prevents gaining new privileges through execve (e.g., setuid binaries are
/// executed but without elevated privileges).
pub fn set_no_new_privs() -> (r: Op)
    ensures
        r@ == no_new_privs_op(),
{
    Op::Prctl { option: PR_SET_NO_NEW_PRIVS, arg: 1 }
}

/// Whether `PR_SET_NO_NEW_PRIVS` is set, given what
/// `prctl(PR_GET_NO_NEW_PRIVS, 0, 0, 0, 0)` returned and the error number that
/// the thread recorded last.
pub fn get_no_new_privs(returned: i32, last_errno: i32) -> (r: Result<bool, i32>)
    ensures
        r == (if returned >= 0 {
            Ok::<bool, i32>(returned != 0)
        } else {
            Err::<bool, i32>(last_errno)
        }),
{
    match returned.syscall_result(last_errno) {
        Ok(value) => Ok(value != 0),
        Err(errno) => Err(errno),
    }
}

/// Every restriction in the securebits comes with its lock, and there are no
/// other bits.
pub proof fn lemma_securebits_are_locked()
    ensures
        SECUREBITS == SECBIT_NOROOT | SECBIT_NOROOT_LOCKED | SECBIT_NO_SETUID_FIXUP
            | SECBIT_NO_SETUID_FIXUP_LOCKED | SECBIT_NO_CAP_AMBIENT_RAISE
            | SECBIT_NO_CAP_AMBIENT_RAISE_LOCKED,
        SECBIT_NOROOT_LOCKED == SECBIT_NOROOT << 1,
        SECBIT_NO_SETUID_FIXUP_LOCKED == SECBIT_NO_SETUID_FIXUP << 1,
        SECBIT_NO_CAP_AMBIENT_RAISE_LOCKED == SECBIT_NO_CAP_AMBIENT_RAISE << 1,
{
    assert(1u64 | 2u64 | 4u64 | 8u64 | 64u64 | 128u64 == 207u64 && 2u64 == 1u64 << 1 && 8u64
        == 4u64 << 1 && 128u64 == 64u64 << 1) by (bit_vector);
}

} // verus!
