//! The pieces that procedures are put together from.
//!
//! A piece is a run of steps that are all required, or a run of best-effort
//! steps whose jumps stay inside it. So a best-effort piece can be given up
//! half way without passing over anything that is required.

use crate::procedure::OnFailure;
use crate::procedure::OnFailureView;
use crate::procedure::Op;
use crate::procedure::OpView;
use crate::procedure::Step;
use crate::procedure::StepView;
use crate::procedure;
use vstd::prelude::*;

verus! {

/// The step to go on with when step `i` succeeds.
pub open spec fn next_on_success(steps: Seq<StepView>, i: int) -> int {
    i + 1 + steps[i].on_success
}

/// The step to go on with when step `i`, which is best-effort, fails.
pub open spec fn next_on_failure(steps: Seq<StepView>, i: int) -> int {
    match steps[i].on_failure {
        OnFailureView::Abort(_) => i + 1,
        OnFailureView::Skip(count) => i + 1 + count,
    }
}

/// Whether no way on from step `i` passes over the required step `k`.
pub open spec fn keeps_required(steps: Seq<StepView>, i: int, k: int) -> bool {
    i < k && steps[k].is_required() ==> next_on_success(steps, i) <= k && next_on_failure(steps, i)
        <= k
}

/// Whether a procedure is sound: every way on stays inside it, and none passes
/// over a required step.
pub open spec fn is_sound(steps: Seq<StepView>) -> bool {
    &&& procedure::is_closed_procedure(steps)
    &&& forall|i: int, k: int|
        0 <= i < steps.len() && 0 <= k < steps.len() ==> #[trigger] keeps_required(steps, i, k)
}

/// The operations in order, each best-effort: the first failure leaves the
/// piece, and the last success passes over `past` further steps.
pub open spec fn attempted(ops: Seq<OpView>, past: nat) -> Seq<StepView> {
    Seq::new(
        ops.len(),
        |i: int|
            procedure::optional_step(
                ops[i],
                if i == ops.len() - 1 {
                    past
                } else {
                    0
                },
                (ops.len() - 1 - i) as nat,
            ),
    )
}

/// The operations `first`; where one of them fails, the operations `second`.
/// All are best-effort.
pub open spec fn with_fallback(first: Seq<OpView>, second: Seq<OpView>) -> Seq<StepView> {
    attempted(first, second.len()) + attempted(second, 0)
}

/// The operations in order, each best-effort. Where a path is found missing,
/// only the operation behind the test is passed over; any other failure leaves
/// the piece.
pub open spec fn with_tests(ops: Seq<OpView>) -> Seq<StepView> {
    Seq::new(
        ops.len(),
        |i: int|
            procedure::optional_step(
                ops[i],
                0,
                if ops[i] is PathExists {
                    1
                } else {
                    (ops.len() - 1 - i) as nat
                },
            ),
    )
}

/// Each operation as a required step.
pub fn required(ops: Vec<Op>, primitive: &'static str) -> (r: Vec<Step>)
    ensures
        procedure::steps_view(r@) == procedure::required_steps(
            procedure::ops_view(ops@),
            primitive@,
        ),
{
    let ghost views = procedure::ops_view(ops@);
    let mut steps: Vec<Step> = Vec::new();
    let ghost list = ops@;
    for op in it: ops
        invariant
            it.seq() == list,
            views == procedure::ops_view(list),
            steps@.len() == it.index(),
            forall|i: int|
                0 <= i < steps@.len() ==> (#[trigger] steps@[i])@ == procedure::required_step(
                    views[i],
                    primitive@,
                ),
    {
        steps.push(Step { op, on_success: 0, on_failure: OnFailure::Abort(primitive) });
    }
    assert(procedure::steps_view(steps@) =~= procedure::required_steps(views, primitive@));
    steps
}

/// The operations in order, each best-effort: the first failure leaves the
/// piece, and the last success passes over `past` further steps.
pub fn attempt(ops: Vec<Op>, past: usize) -> (r: Vec<Step>)
    ensures
        procedure::steps_view(r@) == attempted(procedure::ops_view(ops@), past as nat),
{
    let ghost views = procedure::ops_view(ops@);
    let mut steps: Vec<Step> = Vec::new();
    let ghost list = ops@;
    let len: usize = ops.len();
    for op in it: ops
        invariant
            it.seq() == list,
            len == list.len(),
            views == procedure::ops_view(list),
            steps@.len() == it.index(),
            forall|i: int|
                0 <= i < steps@.len() ==> (#[trigger] steps@[i])@ == attempted(
                    views,
                    past as nat,
                )[i],
    {
        let i: usize = steps.len();
        let left: usize = len - 1 - i;
        let on_success: usize = if left == 0 {
            past
        } else {
            0
        };
        steps.push(Step { op, on_success, on_failure: OnFailure::Skip(left) });
    }
    assert(procedure::steps_view(steps@) =~= attempted(views, past as nat));
    steps
}

/// The operations `first`; where one of them fails, the operations `second`.
/// All are best-effort.
pub fn fall_back(first: Vec<Op>, second: Vec<Op>) -> (r: Vec<Step>)
    ensures
        procedure::steps_view(r@) == with_fallback(
            procedure::ops_view(first@),
            procedure::ops_view(second@),
        ),
{
    let past: usize = second.len();
    let mut steps = attempt(first, past);
    let ghost front = steps@;
    let mut rest = attempt(second, 0);
    let ghost back = rest@;
    steps.append(&mut rest);
    proof {
        lemma_steps_view_concat(front, back);
    }
    steps
}

/// The operations in order, each best-effort. Where a path is found missing,
/// only the operation behind the test is passed over; any other failure leaves
/// the piece.
pub fn attempt_with_tests(ops: Vec<Op>) -> (r: Vec<Step>)
    ensures
        procedure::steps_view(r@) == with_tests(procedure::ops_view(ops@)),
{
    let ghost views = procedure::ops_view(ops@);
    let mut steps: Vec<Step> = Vec::new();
    let ghost list = ops@;
    let len: usize = ops.len();
    for op in it: ops
        invariant
            it.seq() == list,
            len == list.len(),
            views == procedure::ops_view(list),
            steps@.len() == it.index(),
            forall|i: int|
                0 <= i < steps@.len() ==> (#[trigger] steps@[i])@ == with_tests(views)[i],
    {
        let i: usize = steps.len();
        let count: usize = match &op {
            Op::PathExists(_) => 1,
            _ => len - 1 - i,
        };
        steps.push(Step { op, on_success: 0, on_failure: OnFailure::Skip(count) });
    }
    assert(procedure::steps_view(steps@) =~= with_tests(views));
    steps
}

/// The model of two lists of steps put together.
pub proof fn lemma_steps_view_concat(a: Seq<Step>, b: Seq<Step>)
    ensures
        procedure::steps_view(a + b) == procedure::steps_view(a) + procedure::steps_view(b),
{
    assert(procedure::steps_view(a + b) =~= procedure::steps_view(a) + procedure::steps_view(b));
}

/// Sound procedures put together are sound.
pub proof fn lemma_sound_concat(a: Seq<StepView>, b: Seq<StepView>)
    requires
        is_sound(a),
        is_sound(b),
    ensures
        is_sound(a + b),
{
    let whole = a + b;
    let n = a.len();
    assert forall|i: int| 0 <= i < whole.len() implies (#[trigger] whole[i]).stays_within(
        i,
        whole.len(),
    ) by {
        if i < n {
            assert(a[i].stays_within(i, n));
        } else {
            assert(b[i - n].stays_within(i - n, b.len()));
        }
    }
    assert forall|i: int, k: int|
        0 <= i < whole.len() && 0 <= k < whole.len() implies #[trigger] keeps_required(
        whole,
        i,
        k,
    ) by {
        if i < n {
            assert(a[i].stays_within(i, n));
            if k < n {
                assert(keeps_required(a, i, k));
            }
        } else if k >= n {
            assert(keeps_required(b, i - n, k - n));
        }
    }
}

/// A run of required steps is sound.
pub proof fn lemma_required_sound(ops: Seq<OpView>, primitive: Seq<char>)
    ensures
        is_sound(procedure::required_steps(ops, primitive)),
{
}

/// A piece with a fallback is sound: it holds no required step, and the first
/// part ends behind the second.
pub proof fn lemma_fallback_sound(first: Seq<OpView>, second: Seq<OpView>)
    ensures
        is_sound(with_fallback(first, second)),
{
}

/// A piece with tests is sound, unless it ends with a test.
pub proof fn lemma_tests_sound(ops: Seq<OpView>)
    requires
        ops.len() > 0 ==> !(ops.last() is PathExists),
    ensures
        is_sound(with_tests(ops)),
{
    let steps = with_tests(ops);
    assert forall|i: int| 0 <= i < steps.len() implies (#[trigger] steps[i]).stays_within(
        i,
        steps.len(),
    ) by {
        if ops[i] is PathExists {
            assert(i != ops.len() - 1);
        }
    }
}

} // verus!
