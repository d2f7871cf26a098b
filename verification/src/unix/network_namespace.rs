//! Network namespaces (`CLONE_NEWNET`).

use crate::abi::AF_INET;
use crate::abi::SOCK_DGRAM;
use crate::procedure::Op;
use crate::procedure::OpView;
use crate::procedure;
use vstd::prelude::*;

verus! {

/// The loopback interface.
pub const LOOPBACK: &'static str = "lo";

/// The operations that bring the loopback interface up.
pub open spec fn loopback_ops() -> Seq<OpView> {
    seq![
        OpView::OpenSocket { domain: AF_INET, kind: SOCK_DGRAM, protocol: 0 },
        OpView::GetInterfaceFlags(LOOPBACK@),
        OpView::RaiseInterface(LOOPBACK@),
    ]
}

/// Bring the loopback interface (`lo`) up in the current network namespace.
///
/// A fresh network namespace has `lo` present but administratively down, so
/// loopback traffic (127.0.0.0/8, ::1) is not deliverable. The interface's
/// flags are read through a datagram socket and written back with `IFF_UP`
/// added to them.
///
/// Requires `CAP_NET_ADMIN` in the current network namespace, which
/// user-namespace root inherently has.
pub fn bring_up_loopback() -> (r: Vec<Op>)
    ensures
        procedure::ops_view(r@) == loopback_ops(),
{
    let ops = vec![
        Op::OpenSocket { domain: AF_INET, kind: SOCK_DGRAM, protocol: 0 },
        Op::GetInterfaceFlags(LOOPBACK),
        Op::RaiseInterface(LOOPBACK),
    ];
    assert(procedure::ops_view(ops@) =~= loopback_ops());
    ops
}

} // verus!
