//! Mount namespaces (`CLONE_NEWNS`) and helpers for building a sandbox root
//! filesystem.
//!
//! A path that holds a zero byte cannot be handed to the kernel. A function
//! that gets one answers with a single refusal in place of its operations.

use crate::abi::MNT_DETACH;
use crate::abi::MS_BIND;
use crate::abi::MS_PRIVATE;
use crate::abi::MS_REC;
use crate::abi::MS_REMOUNT;
use crate::abi::MS_SLAVE;
use crate::error::Cause;
use crate::error::CauseView;
use crate::path;
use crate::procedure::Op;
use crate::procedure::OpView;
use crate::procedure;
use vstd::prelude::*;

verus! {

/// The root directory.
pub const ROOT: &'static str = "/";

/// The operations `ops`, or a refusal where `unusable` holds.
pub open spec fn unless_nul(unusable: bool, ops: Seq<OpView>) -> Seq<OpView> {
    if unusable {
        seq![OpView::Refuse(CauseView::NulInPath)]
    } else {
        ops
    }
}

/// The operation that changes the propagation type of `/`.
pub open spec fn root_propagation_op(flags: u64) -> OpView {
    OpView::Mount {
        source: None,
        target: vstd::utf8::encode_utf8(ROOT@),
        fstype: None,
        flags,
    }
}

/// The operations that detach a mount namespace from its parent.
pub open spec fn root_private_ops() -> Seq<OpView> {
    seq![root_propagation_op(MS_REC | MS_SLAVE), root_propagation_op(MS_REC | MS_PRIVATE)]
}

/// The operation that mounts a new file system of a kind that needs no device.
pub open spec fn pseudo_mount_op(source: Seq<char>, target: Seq<u8>, fstype: Seq<char>) -> OpView {
    OpView::Mount {
        source: Some(vstd::utf8::encode_utf8(source)),
        target,
        fstype: Some(fstype),
        flags: 0,
    }
}

/// The operations that mount a tmpfs.
pub open spec fn tmpfs_ops(target: Seq<u8>) -> Seq<OpView> {
    unless_nul(path::has_nul(target), seq![pseudo_mount_op("none"@, target, "tmpfs"@)])
}

/// The operation that binds `source` to `target`.
pub open spec fn bind_op(source: Seq<u8>, target: Seq<u8>) -> OpView {
    OpView::Mount { source: Some(source), target, fstype: None, flags: MS_BIND | MS_REC }
}

/// The operation that changes the flags of a bind mount.
pub open spec fn remount_op(target: Seq<u8>, flags: u64) -> OpView {
    OpView::Mount {
        source: None,
        target,
        fstype: None,
        flags: MS_BIND | MS_REC | MS_REMOUNT | flags,
    }
}

/// The operations that bind `source` to `target` with these flags.
pub open spec fn bind_ops(source: Seq<u8>, target: Seq<u8>, flags: u64) -> Seq<OpView> {
    unless_nul(
        path::has_nul(source) || path::has_nul(target),
        if flags == 0 {
            seq![OpView::CreateDirAll(target), bind_op(source, target)]
        } else {
            seq![OpView::CreateDirAll(target), bind_op(source, target), remount_op(target, flags)]
        },
    )
}

/// The operations that mount a proc file system.
pub open spec fn proc_ops(target: Seq<u8>) -> Seq<OpView> {
    unless_nul(
        path::has_nul(target),
        seq![OpView::CreateDirAll(target), pseudo_mount_op("proc"@, target, "proc"@)],
    )
}

/// The operations that exchange the root directory.
pub open spec fn pivot_ops(new_root: Seq<u8>, old_root: Seq<u8>) -> Seq<OpView> {
    unless_nul(
        path::has_nul(new_root) || path::has_nul(old_root),
        seq![OpView::PivotRoot { new_root, old_root }],
    )
}

/// The operations that detach a mount.
pub open spec fn unmount_ops(target: Seq<u8>) -> Seq<OpView> {
    unless_nul(
        path::has_nul(target),
        seq![OpView::Unmount { target, options: MNT_DETACH }],
    )
}

/// Detach the current mount namespace from its parent's propagation.
///
/// Sets the root subtree's propagation type first to `MS_SLAVE` (always
/// allowed from within a fresh user+mount namespace) and then to `MS_PRIVATE`,
/// so subsequent mounts and unmounts inside this namespace don't propagate
/// into the parent namespace.
pub fn make_root_private() -> (r: Vec<Op>)
    ensures
        procedure::ops_view(r@) == root_private_ops(),
{
    let ops = vec![
        set_root_propagation(MS_REC | MS_SLAVE),
        set_root_propagation(MS_REC | MS_PRIVATE),
    ];
    assert(procedure::ops_view(ops@) =~= root_private_ops());
    ops
}

/// Change the mount-propagation type of `/`.
///
/// Typically called via [`make_root_private`]; exposed separately for callers
/// that need finer control (e.g., recursively marking `/` as `MS_SHARED` for a
/// different reason).
pub fn set_root_propagation(flags: u64) -> (r: Op)
    ensures
        r@ == root_propagation_op(flags),
{
    Op::Mount {
        source: None,
        target: vstd::slice::slice_to_vec(ROOT.as_bytes()),
        fstype: None,
        flags,
    }
}

/// Mount a tmpfs at the given path.
pub fn mount_tmpfs(target: &[u8]) -> (r: Vec<Op>)
    ensures
        procedure::ops_view(r@) == tmpfs_ops(target@),
{
    let ops = match path_to_cstring(target) {
        Err(cause) => vec![Op::Refuse(cause)],
        Ok(target) => vec![
            Op::Mount {
                source: Some(vstd::slice::slice_to_vec("none".as_bytes())),
                target,
                fstype: Some("tmpfs"),
                flags: 0,
            },
        ],
    };
    assert(procedure::ops_view(ops@) =~= tmpfs_ops(target@));
    ops
}

/// Recursively bind-mount `source` at `target`, then remount with the
/// caller-supplied flags.
///
/// The two-step (bind then remount) sequence is required because per-mount
/// flags such as `MS_RDONLY`, `MS_NOEXEC`, `MS_NOSUID`, and `MS_NODEV` are
/// silently ignored on the initial `MS_BIND` call and only take effect on a
/// subsequent `MS_REMOUNT | MS_BIND` call. When `remount_flags` is zero the
/// remount step is skipped.
///
/// The target directory is created if it doesn't already exist.
pub fn bind_mount(source: &[u8], target: &[u8], remount_flags: u64) -> (r: Vec<Op>)
    ensures
        procedure::ops_view(r@) == bind_ops(source@, target@, remount_flags),
{
    let ops = match (path_to_cstring(source), path_to_cstring(target)) {
        (Ok(bound), Ok(place)) => {
            let mut ops = vec![
                Op::CreateDirAll(vstd::slice::slice_to_vec(target)),
                Op::Mount {
                    source: Some(bound),
                    target: place,
                    fstype: None,
                    flags: MS_BIND | MS_REC,
                },
            ];
            if remount_flags != 0 {
                ops.push(
                    Op::Mount {
                        source: None,
                        target: vstd::slice::slice_to_vec(target),
                        fstype: None,
                        flags: MS_BIND | MS_REC | MS_REMOUNT | remount_flags,
                    },
                );
            }
            ops
        },
        _ => vec![Op::Refuse(Cause::NulInPath)],
    };
    assert(procedure::ops_view(ops@) =~= bind_ops(source@, target@, remount_flags));
    ops
}

/// Mount a proc filesystem at the given path.
///
/// Requires being in a PID namespace for a fully isolated `/proc`, but is
/// still useful for providing `/proc/self` etc.
pub fn mount_proc(target: &[u8]) -> (r: Vec<Op>)
    ensures
        procedure::ops_view(r@) == proc_ops(target@),
{
    let ops = match path_to_cstring(target) {
        Err(cause) => vec![Op::Refuse(cause)],
        Ok(place) => vec![
            Op::CreateDirAll(vstd::slice::slice_to_vec(target)),
            Op::Mount {
                source: Some(vstd::slice::slice_to_vec("proc".as_bytes())),
                target: place,
                fstype: Some("proc"),
                flags: 0,
            },
        ],
    };
    assert(procedure::ops_view(ops@) =~= proc_ops(target@));
    ops
}

/// Pivot the root filesystem to a new root, putting the old root at
/// `old_root`.
///
/// After this, `new_root` becomes `/` and the previous root is accessible at
/// `old_root` (relative to `new_root`). Typically you then unmount `old_root`.
pub fn pivot_root(new_root: &[u8], old_root: &[u8]) -> (r: Vec<Op>)
    ensures
        procedure::ops_view(r@) == pivot_ops(new_root@, old_root@),
{
    let ops = match (path_to_cstring(new_root), path_to_cstring(old_root)) {
        (Ok(new_root), Ok(old_root)) => vec![Op::PivotRoot { new_root, old_root }],
        _ => vec![Op::Refuse(Cause::NulInPath)],
    };
    assert(procedure::ops_view(ops@) =~= pivot_ops(new_root@, old_root@));
    ops
}

/// Unmount a filesystem. Uses `MNT_DETACH` for lazy unmount to avoid `EBUSY`.
pub fn umount(target: &[u8]) -> (r: Vec<Op>)
    ensures
        procedure::ops_view(r@) == unmount_ops(target@),
{
    let ops = match path_to_cstring(target) {
        Err(cause) => vec![Op::Refuse(cause)],
        Ok(target) => vec![Op::Unmount { target, options: MNT_DETACH }],
    };
    assert(procedure::ops_view(ops@) =~= unmount_ops(target@));
    ops
}

/// The bytes of a path that the kernel can take as a C string, without the
/// terminating zero. A zero byte inside is refused.
pub fn path_to_cstring(path: &[u8]) -> (r: Result<Vec<u8>, Cause>)
    ensures
        r is Ok <==> !path::has_nul(path@),
        r matches Ok(bytes) ==> bytes@ == path@,
        r matches Err(cause) ==> cause == Cause::NulInPath,
{
    if path::contains_nul(path) {
        Err(Cause::NulInPath)
    } else {
        Ok(vstd::slice::slice_to_vec(path))
    }
}

} // verus!
