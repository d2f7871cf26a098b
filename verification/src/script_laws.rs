//! What the pieces of a procedure hold, said of the steps themselves.

use crate::procedure::OnFailure;
use crate::procedure::Op;
use crate::procedure::Step;
use crate::procedure;
use crate::script;
use vstd::prelude::*;

verus! {

/// Whether the steps hold these operations, one for one and in order.
pub open spec fn same_ops(steps: Seq<Step>, ops: Seq<Op>) -> bool {
    steps.len() == ops.len() && forall|i: int|
        0 <= i < ops.len() ==> (#[trigger] steps[i]).op@ == ops[i]@
}

/// Whether a failed step passes over this many further steps.
pub open spec fn skips(step: Step, count: int) -> bool {
    step.on_failure matches OnFailure::Skip(own) && own == count
}

/// Required operations become steps that go on to the next one, or else end the
/// procedure with an error over the primitive.
pub proof fn lemma_required(ops: Vec<Op>, primitive: &'static str, r: Vec<Step>)
    requires
        call_ensures(script::required, (ops, primitive), r),
    ensures
        same_ops(r@, ops@),
        forall|i: int|
            0 <= i < r@.len() ==> (#[trigger] r@[i]).on_success == 0 && (r@[i].on_failure
                matches OnFailure::Abort(name) && name@ == primitive@),
{
    let steps = procedure::steps_view(r@);
    let views = procedure::ops_view(ops@);
    assert(steps.len() == r@.len());
    assert forall|i: int| 0 <= i < r@.len() implies (#[trigger] r@[i]).on_success == 0 && (
    r@[i].on_failure matches OnFailure::Abort(name) && name@ == primitive@) && r@[i].op@
        == ops@[i]@ by {
        assert(steps[i] == r@[i]@);
        assert(views[i] == ops@[i]@);
    }
}

/// An attempt goes on from each operation to the next. The first failure leaves
/// the piece; the last success passes over what the caller said.
pub proof fn lemma_attempt(ops: Vec<Op>, past: usize, r: Vec<Step>)
    requires
        call_ensures(script::attempt, (ops, past), r),
    ensures
        same_ops(r@, ops@),
        forall|i: int|
            0 <= i < r@.len() ==> skips(#[trigger] r@[i], r@.len() - 1 - i) && r@[i].on_success
                == (if i == r@.len() - 1 {
                past
            } else {
                0
            }),
{
    let steps = procedure::steps_view(r@);
    let views = procedure::ops_view(ops@);
    assert(steps.len() == r@.len());
    assert forall|i: int| 0 <= i < r@.len() implies skips(#[trigger] r@[i], r@.len() - 1 - i)
        && r@[i].on_success == (if i == r@.len() - 1 {
        past
    } else {
        0
    }) && r@[i].op@ == ops@[i]@ by {
        assert(steps[i] == r@[i]@);
        assert(views[i] == ops@[i]@);
        assert(steps[i].on_failure == r@[i].on_failure@);
    }
}

/// A fallback holds the first operations and behind them the second ones. A
/// failure among the first goes on with the second ones; where all of the first
/// succeed, the second ones are passed over. A failure among the second leaves
/// the piece.
pub proof fn lemma_fall_back(first: Vec<Op>, second: Vec<Op>, r: Vec<Step>)
    requires
        call_ensures(script::fall_back, (first, second), r),
    ensures
        same_ops(r@, first@ + second@),
        forall|i: int|
            0 <= i < first@.len() ==> skips(#[trigger] r@[i], first@.len() - 1 - i)
                && r@[i].on_success == (if i == first@.len() - 1 {
                second@.len() as int
            } else {
                0
            }),
        forall|i: int|
            first@.len() <= i < r@.len() ==> skips(#[trigger] r@[i], r@.len() - 1 - i)
                && r@[i].on_success == 0,
{
    let steps = procedure::steps_view(r@);
    let front = procedure::ops_view(first@);
    let back = procedure::ops_view(second@);
    let n = first@.len() as int;
    assert(steps.len() == r@.len());
    assert forall|i: int| 0 <= i < n implies skips(#[trigger] r@[i], n - 1 - i) && r@[i].on_success
        == (if i == n - 1 {
        second@.len() as int
    } else {
        0
    }) && r@[i].op@ == first@[i]@ by {
        assert(steps[i] == r@[i]@);
        assert(front[i] == first@[i]@);
        assert(steps[i].on_failure == r@[i].on_failure@);
    }
    assert forall|i: int| n <= i < r@.len() implies skips(#[trigger] r@[i], r@.len() - 1 - i)
        && r@[i].on_success == 0 && r@[i].op@ == second@[i - n]@ by {
        assert(steps[i] == r@[i]@);
        assert(back[i - n] == second@[i - n]@);
        assert(steps[i].on_failure == r@[i].on_failure@);
    }
}

/// An attempt with tests goes on from each operation to the next. Where a path
/// is missing, the one operation behind the test is passed over; any other
/// failure leaves the piece.
pub proof fn lemma_attempt_with_tests(ops: Vec<Op>, r: Vec<Step>)
    requires
        call_ensures(script::attempt_with_tests, (ops,), r),
    ensures
        same_ops(r@, ops@),
        forall|i: int|
            0 <= i < r@.len() ==> (#[trigger] r@[i]).on_success == 0 && skips(
                r@[i],
                if r@[i].op is PathExists {
                    1
                } else {
                    r@.len() - 1 - i
                },
            ),
{
    let steps = procedure::steps_view(r@);
    let views = procedure::ops_view(ops@);
    assert(steps.len() == r@.len());
    assert forall|i: int| 0 <= i < r@.len() implies (#[trigger] r@[i]).on_success == 0 && skips(
        r@[i],
        if r@[i].op is PathExists {
            1
        } else {
            r@.len() - 1 - i
        },
    ) && r@[i].op@ == ops@[i]@ by {
        assert(steps[i] == r@[i]@);
        assert(views[i] == ops@[i]@);
        assert(steps[i].on_failure == r@[i].on_failure@);
        assert(r@[i].op@ is PathExists <==> r@[i].op is PathExists);
    }
}

} // verus!
