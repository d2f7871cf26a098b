//! The filesystem rights that Landlock knows, as bit sets.

use vstd::prelude::*;

verus! {

/// A level of the kernel's Landlock interface.
#[derive(Clone, Copy, PartialEq, Eq, Structural, Debug)]
pub enum LandlockAbi {
    /// The first level.
    V1,
    /// Adds the right to link or rename across directories.
    V2,
    /// Adds the right to truncate.
    V3,
    /// Adds no filesystem right.
    V4,
    /// Adds the right to send commands to devices.
    V5,
}

/// The right to execute a file.
pub const FS_EXECUTE: u64 = 0x1;

/// The rights that only read, at a level: execute a file, read a file, list a
/// directory.
pub open spec fn read_rights(abi: LandlockAbi) -> u64 {
    0x000D
}

/// The rights that write, at a level: write or remove a file, remove a
/// directory and make any of seven kinds of file; then link or rename across
/// directories, truncate, and send commands to devices, each from the level
/// that adds it.
pub open spec fn write_rights(abi: LandlockAbi) -> u64 {
    match abi {
        LandlockAbi::V1 => 0x1FF2,
        LandlockAbi::V2 => 0x3FF2,
        LandlockAbi::V3 | LandlockAbi::V4 => 0x7FF2,
        LandlockAbi::V5 => 0xFFF2,
    }
}

/// Calls `landlock::AccessFs::from_read`. The contract says that it gives the
/// rights to execute, to read files and to list directories, as the kernel
/// numbers them, at every level listed here.
#[verifier::external_body]
pub(crate) fn rights_from_read(abi: LandlockAbi) -> (r: u64)
    ensures
        r == read_rights(abi),
{
    landlock::AccessFs::from_read(
        match abi {
            LandlockAbi::V1 => landlock::ABI::V1,
            LandlockAbi::V2 => landlock::ABI::V2,
            LandlockAbi::V3 => landlock::ABI::V3,
            LandlockAbi::V4 => landlock::ABI::V4,
            LandlockAbi::V5 => landlock::ABI::V5,
        },
    ).bits()
}

/// Calls `landlock::AccessFs::from_write`. The contract says that it gives the
/// writing rights of the level, as the kernel numbers them.
#[verifier::external_body]
pub(crate) fn rights_from_write(abi: LandlockAbi) -> (r: u64)
    ensures
        r == write_rights(abi),
{
    landlock::AccessFs::from_write(
        match abi {
            LandlockAbi::V1 => landlock::ABI::V1,
            LandlockAbi::V2 => landlock::ABI::V2,
            LandlockAbi::V3 => landlock::ABI::V3,
            LandlockAbi::V4 => landlock::ABI::V4,
            LandlockAbi::V5 => landlock::ABI::V5,
        },
    ).bits()
}

/// Calls `landlock::AccessFs::from_all`, a method of `landlock::Access`. The
/// contract says that it gives the union of the reading and the writing rights
/// of the level.
#[verifier::external_body]
pub(crate) fn rights_from_all(abi: LandlockAbi) -> (r: u64)
    ensures
        r == read_rights(abi) | write_rights(abi),
{
    <landlock::AccessFs as landlock::Access>::from_all(
        match abi {
            LandlockAbi::V1 => landlock::ABI::V1,
            LandlockAbi::V2 => landlock::ABI::V2,
            LandlockAbi::V3 => landlock::ABI::V3,
            LandlockAbi::V4 => landlock::ABI::V4,
            LandlockAbi::V5 => landlock::ABI::V5,
        },
    ).bits()
}

} // verus!
