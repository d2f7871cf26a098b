//! What holds of every walk through a procedure, whatever the operating system
//! answers.

use crate::error::CauseView;
use crate::error::Error;
use crate::error::ErrorView;
use crate::procedure::CapSet;
use crate::procedure::FailureView;
use crate::procedure::OnFailure;
use crate::procedure::OnFailureView;
use crate::procedure::Op;
use crate::procedure::OpView;
use crate::procedure::Outcome;
use crate::procedure::OutcomeView;
use crate::procedure::Session;
use crate::procedure::SessionView;
use crate::procedure::Step;
use crate::procedure::StepView;
use crate::procedure;
use crate::script;
use vstd::prelude::*;

verus! {

/// The state of a walk before the outcome at position `m` came in.
pub open spec fn state_before(steps: Seq<StepView>, outcomes: Seq<OutcomeView>, m: int) -> SessionView {
    SessionView::initial(steps).after_all(outcomes.take(m))
}

/// Whether the outcome at position `m` is the success of step `k`.
pub open spec fn succeeds_at(
    steps: Seq<StepView>,
    outcomes: Seq<OutcomeView>,
    k: int,
    m: int,
) -> bool {
    let state = state_before(steps, outcomes, m);
    0 <= m < outcomes.len() && state.is_running() && state.position == k && state.accepts(
        outcomes[m],
    )
}

/// Whether step `k` was performed with success in a walk.
pub open spec fn was_performed(steps: Seq<StepView>, outcomes: Seq<OutcomeView>, k: int) -> bool {
    exists|m: int| #[trigger] succeeds_at(steps, outcomes, k, m)
}

proof fn lemma_prefix_state(steps: Seq<StepView>, outcomes: Seq<OutcomeView>, m: int)
    requires
        0 <= m <= outcomes.len() - 1,
    ensures
        outcomes.drop_last().take(m) == outcomes.take(m),
{
    assert(outcomes.drop_last().take(m) =~= outcomes.take(m));
}

proof fn lemma_required_before_position(steps: Seq<StepView>, outcomes: Seq<OutcomeView>, k: int)
    requires
        script::is_sound(steps),
        0 <= k < steps.len(),
        steps[k].is_required(),
        SessionView::initial(steps).after_all(outcomes).failure is None,
        k < SessionView::initial(steps).after_all(outcomes).position,
    ensures
        was_performed(steps, outcomes, k),
    decreases outcomes.len(),
{
    lemma_walk_invariant(steps, outcomes);
    if outcomes.len() > 0 {
        let front = outcomes.drop_last();
        let before = SessionView::initial(steps).after_all(front);
        lemma_walk_invariant(steps, front);
        let last = outcomes.len() - 1;
        assert(outcomes.take(last) =~= front);
        if before.failure is None && k < before.position {
            lemma_required_before_position(steps, front, k);
            let m = choose|m: int| #[trigger] succeeds_at(steps, front, k, m);
            lemma_prefix_state(steps, outcomes, m);
            assert(succeeds_at(steps, outcomes, k, m));
        } else {
            assert(script::keeps_required(steps, before.position as int, k));
            assert(before.position == k);
            assert(succeeds_at(steps, outcomes, k, last));
        }
    }
}

/// A walk stays on its procedure and inside it.
pub proof fn lemma_walk_invariant(steps: Seq<StepView>, outcomes: Seq<OutcomeView>)
    requires
        procedure::is_closed_procedure(steps),
    ensures
        SessionView::initial(steps).after_all(outcomes).steps == steps,
        SessionView::initial(steps).after_all(outcomes).position <= steps.len(),
    decreases outcomes.len(),
{
    if outcomes.len() > 0 {
        let before = SessionView::initial(steps).after_all(outcomes.drop_last());
        lemma_walk_invariant(steps, outcomes.drop_last());
        if before.is_running() {
            assert(steps[before.position as int].stays_within(
                before.position as int,
                steps.len(),
            ));
        }
    }
}

/// Fail-closed: a walk through a sound procedure that ends well has performed
/// every required step with success.
pub proof fn lemma_success_means_all_required_done(
    steps: Seq<StepView>,
    outcomes: Seq<OutcomeView>,
    k: int,
)
    requires
        script::is_sound(steps),
        SessionView::initial(steps).after_all(outcomes).has_succeeded(),
        0 <= k < steps.len(),
        steps[k].is_required(),
    ensures
        was_performed(steps, outcomes, k),
{
    lemma_walk_invariant(steps, outcomes);
    lemma_required_before_position(steps, outcomes, k);
}

/// A required refusal is never passed: no answer of the operating system lets a
/// walk through a sound procedure that holds one end well.
pub proof fn lemma_refusal_is_never_passed(
    steps: Seq<StepView>,
    outcomes: Seq<OutcomeView>,
    k: int,
)
    requires
        script::is_sound(steps),
        0 <= k < steps.len(),
        steps[k].is_required(),
        steps[k].op is Refuse,
    ensures
        !SessionView::initial(steps).after_all(outcomes).has_succeeded(),
{
    if SessionView::initial(steps).after_all(outcomes).has_succeeded() {
        lemma_success_means_all_required_done(steps, outcomes, k);
        let m = choose|m: int| #[trigger] succeeds_at(steps, outcomes, k, m);
        lemma_walk_invariant(steps, outcomes.take(m));
    }
}

/// A required step that fails ends the walk: the error names the step's
/// primitive and what lies behind the failure.
pub proof fn lemma_required_failure_aborts(state: SessionView, outcome: OutcomeView)
    requires
        state.is_running(),
        state.current().is_required(),
        !state.accepts(outcome),
    ensures
        !state.after(outcome).is_running(),
        !state.after(outcome).has_succeeded(),
        state.after(outcome).failure == Some(
            ErrorView::ApplyFailed {
                primitive: state.current().on_failure->Abort_0,
                source: procedure::step_cause(state.current().op, outcome)->Some_0,
            },
        ),
{
}

/// A walk that has ended stays as it is, whatever is reported afterwards.
pub proof fn lemma_end_is_final(state: SessionView, outcomes: Seq<OutcomeView>)
    requires
        !state.is_running(),
    ensures
        state.after_all(outcomes) == state,
    decreases outcomes.len(),
{
    if outcomes.len() > 0 {
        lemma_end_is_final(state, outcomes.drop_last());
    }
}

proof fn lemma_progress(steps: Seq<StepView>, outcomes: Seq<OutcomeView>)
    requires
        SessionView::initial(steps).after_all(outcomes).is_running(),
    ensures
        SessionView::initial(steps).after_all(outcomes).position >= outcomes.len(),
        SessionView::initial(steps).after_all(outcomes).steps == steps,
    decreases outcomes.len(),
{
    if outcomes.len() > 0 {
        let before = SessionView::initial(steps).after_all(outcomes.drop_last());
        assert(before.is_running());
        lemma_progress(steps, outcomes.drop_last());
    }
}

/// A walk ends after at most as many outcomes as there are steps.
pub proof fn lemma_walk_ends(steps: Seq<StepView>, outcomes: Seq<OutcomeView>)
    requires
        outcomes.len() >= steps.len(),
    ensures
        !SessionView::initial(steps).after_all(outcomes).is_running(),
{
    if SessionView::initial(steps).after_all(outcomes).is_running() {
        lemma_progress(steps, outcomes);
    }
}

proof fn lemma_position_grows(steps: Seq<StepView>, outcomes: Seq<OutcomeView>, m: int, n: int)
    requires
        0 <= m < n <= outcomes.len(),
        state_before(steps, outcomes, n).failure is None,
    ensures
        state_before(steps, outcomes, m).failure is None,
        state_before(steps, outcomes, m).steps == state_before(steps, outcomes, n).steps,
        state_before(steps, outcomes, m).is_running() ==> state_before(steps, outcomes, m).position
            < state_before(steps, outcomes, n).position,
        state_before(steps, outcomes, m).position <= state_before(steps, outcomes, n).position,
    decreases n - m,
{
    assert(outcomes.take(n).drop_last() =~= outcomes.take(n - 1));
    if m < n - 1 {
        lemma_position_grows(steps, outcomes, m, n - 1);
    }
}

/// The steps of a walk are performed in the order of the procedure.
pub proof fn lemma_steps_in_order(
    steps: Seq<StepView>,
    outcomes: Seq<OutcomeView>,
    j: int,
    k: int,
    m: int,
    n: int,
)
    requires
        j < k,
        succeeds_at(steps, outcomes, j, m),
        succeeds_at(steps, outcomes, k, n),
    ensures
        m < n,
{
    if n < m {
        lemma_position_grows(steps, outcomes, n, m);
    }
}

/// Whether no required step of a procedure is a refusal.
pub open spec fn never_refuses(steps: Seq<StepView>) -> bool {
    forall|i: int|
        0 <= i < steps.len() && (#[trigger] steps[i]).is_required() ==> !(steps[i].op is Refuse)
}

/// Whether the outcome at position `m` is the failure of a required step.
pub open spec fn fails_required_at(
    steps: Seq<StepView>,
    outcomes: Seq<OutcomeView>,
    m: int,
) -> bool {
    let state = state_before(steps, outcomes, m);
    0 <= m < outcomes.len() && state.is_running() && state.current().is_required()
        && !state.accepts(outcomes[m])
}

/// Whether the outcome at position `m` reports that the operation of a required
/// step failed.
pub open spec fn required_op_fails_at(
    steps: Seq<StepView>,
    outcomes: Seq<OutcomeView>,
    m: int,
) -> bool {
    let state = state_before(steps, outcomes, m);
    0 <= m < outcomes.len() && state.is_running() && state.current().is_required()
        && outcomes[m] is Failed
}

proof fn lemma_failure_means_required_failed(steps: Seq<StepView>, outcomes: Seq<OutcomeView>)
    ensures
        SessionView::initial(steps).after_all(outcomes).failure is None <==> forall|m: int|
            !(#[trigger] fails_required_at(steps, outcomes, m)),
    decreases outcomes.len(),
{
    if outcomes.len() > 0 {
        let front = outcomes.drop_last();
        let last = outcomes.len() - 1;
        let before = SessionView::initial(steps).after_all(front);
        lemma_failure_means_required_failed(steps, front);
        assert(outcomes.take(last) =~= front);
        assert forall|m: int| m != last implies fails_required_at(steps, front, m)
            == #[trigger] fails_required_at(steps, outcomes, m) by {
            if 0 <= m < last {
                lemma_prefix_state(steps, outcomes, m);
            }
        }
        if before.failure is Some {
            let m = choose|m: int| #[trigger] fails_required_at(steps, front, m);
            assert(fails_required_at(steps, outcomes, m));
        } else {
            assert(forall|m: int| !(#[trigger] fails_required_at(steps, front, m)));
            assert(SessionView::initial(steps).after_all(outcomes) == before.after(outcomes.last()));
            assert(fails_required_at(steps, outcomes, last) <==> before.after(
                outcomes.last(),
            ).failure is Some);
        }
    }
}

/// Success exactly where it is owed: once there were as many outcomes as there
/// are steps, a walk has ended well if and only if no required step failed. A
/// best-effort step may fail.
pub proof fn lemma_walk_succeeds(steps: Seq<StepView>, outcomes: Seq<OutcomeView>)
    requires
        procedure::is_closed_procedure(steps),
        outcomes.len() >= steps.len(),
    ensures
        SessionView::initial(steps).after_all(outcomes).has_succeeded() <==> forall|m: int|
            !(#[trigger] fails_required_at(steps, outcomes, m)),
{
    lemma_failure_means_required_failed(steps, outcomes);
    lemma_walk_ends(steps, outcomes);
    lemma_walk_invariant(steps, outcomes);
}

/// A session starts at its first step, with nothing failed and no flags read.
pub proof fn lemma_start(steps: Vec<Step>, r: Session)
    requires
        call_ensures(Session::start, (steps,), r),
    ensures
        r@.steps.len() == steps@.len(),
        forall|i: int| 0 <= i < steps@.len() ==> #[trigger] r@.steps[i] == steps@[i]@,
        r@.position == 0,
        r@.interface_flags == 0,
        r@.failure is None,
{
}

/// The operation of the step at the session's position is pending, until the
/// last step has been passed or something failed.
pub proof fn lemma_pending(session: Session, r: Option<&Op>)
    requires
        call_ensures(Session::pending, (&session,), r),
    ensures
        r is Some <==> session@.failure is None && session@.position < session@.steps.len(),
        r matches Some(op) ==> op@ == session@.steps[session@.position as int].op,
{
}

/// A session has a result exactly where nothing is pending: its error, or
/// success where nothing failed.
pub proof fn lemma_result(session: Session, r: Option<Result<(), &Error>>)
    requires
        call_ensures(Session::result, (&session,), r),
    ensures
        r is None <==> session@.failure is None && session@.position < session@.steps.len(),
        r is Some && r->Some_0 is Ok <==> session@.failure is None && session@.position
            >= session@.steps.len(),
        r is Some && r->Some_0 is Err <==> session@.failure is Some,
        r matches Some(Err(error)) ==> session@.failure == Some(error@),
{
}

/// The flags that raise an interface are those that were read, and bit 0.
pub proof fn lemma_raised_flags(session: Session, r: i16)
    requires
        call_ensures(Session::raised_flags, (&session,), r),
    ensures
        r == session@.interface_flags | 1,
        r & 1 == 1,
        r & !1i16 == session@.interface_flags & !1i16,
{
    let flags: i16 = session@.interface_flags;
    assert((flags | 1i16) & 1i16 == 1i16 && (flags | 1i16) & !1i16 == flags & !1i16) by (bit_vector);
}

/// Whether a walk keeps its procedure and what it has read.
pub open spec fn keeps_rest(before: SessionView, after: SessionView) -> bool {
    after.steps == before.steps && after.interface_flags == before.interface_flags
}

/// What one outcome does, in full. Where nothing is pending: nothing. A success
/// goes on behind the step, past as many further steps as it says. The failure
/// of a best-effort step goes on likewise. The failure of a required one keeps
/// the position and ends the walk with the step's primitive and a cause. A
/// refusal fails whatever is reported.
pub proof fn lemma_one_outcome(state: SessionView, outcome: OutcomeView)
    ensures
        ({
            let after = state.after(outcome);
            let pending = state.failure is None && state.position < state.steps.len();
            let step = state.steps[state.position as int];
            let fails = step.op is Refuse || outcome is Failed;
            &&& !pending ==> after == state
            &&& pending && !fails ==> after.steps == state.steps && after.failure is None
                && after.position == state.position + 1 + step.on_success
            &&& pending && fails && step.on_failure is Skip ==> keeps_rest(state, after)
                && after.failure is None && after.position == state.position + 1
                + step.on_failure->Skip_0
            &&& pending && fails && step.on_failure is Abort ==> keeps_rest(state, after)
                && after.position == state.position && (after.failure matches Some(
                ErrorView::ApplyFailed { primitive, source },
            ) && primitive == step.on_failure->Abort_0 && (step.op matches OpView::Refuse(cause)
                ==> source == cause))
        }),
{
}

/// Interface flags are kept where they were asked for, and nowhere else.
pub proof fn lemma_flags_are_kept_where_asked(state: SessionView, outcome: OutcomeView)
    ensures
        ({
            let after = state.after(outcome);
            let pending = state.failure is None && state.position < state.steps.len();
            let asked = pending && state.steps[state.position as int].op is GetInterfaceFlags;
            &&& asked && outcome is InterfaceFlags ==> after.interface_flags
                == outcome->InterfaceFlags_0
            &&& !(asked && outcome is InterfaceFlags) ==> after.interface_flags
                == state.interface_flags
        }),
{
}

/// What lies behind a failure, by the operation that failed: a missing path is
/// named; a directory is named with what was reported of it; a capability set is
/// named with its report; Landlock and the installation of a program tell their
/// report; every other operation tells the error number.
pub proof fn lemma_causes(op: OpView, failure: FailureView)
    ensures
        ({
            let cause = procedure::step_cause(op, OutcomeView::Failed(failure));
            &&& cause is Some
            &&& op matches OpView::Refuse(own) ==> cause == Some(own)
            &&& op matches OpView::PathExists(path) ==> cause == Some(
                CauseView::GrantSourceMissing(path),
            )
            &&& op matches OpView::CreateDirAll(path) ==> cause == Some(
                CauseView::Directory { path, kind: failure.kind, report: failure.report },
            )
            &&& op matches OpView::RemoveDir(path) ==> cause == Some(
                CauseView::Directory { path, kind: failure.kind, report: failure.report },
            )
            &&& op matches OpView::ClearCapabilities(set) ==> cause == Some(
                CauseView::Capabilities { set, report: failure.report },
            )
            &&& op is LandlockCreate || op is LandlockAllow || op is LandlockRestrictSelf ==> cause
                == Some(CauseView::Landlock(failure.report))
            &&& op is InstallFilter ==> cause == Some(CauseView::Installation(failure.report))
            &&& op is Mount || op is PivotRoot || op is Unmount || op is ChangeDir || op is Prctl
                || op is OpenSocket || op is GetInterfaceFlags || op is RaiseInterface ==> cause
                == Some(CauseView::Os(failure.errno))
        }),
        !(op is Refuse) ==> procedure::step_cause(op, OutcomeView::Done) is None,
{
}

/// A failed walk tells the cause of the step that failed.
pub proof fn lemma_failed_walk_tells_cause(state: SessionView, failure: FailureView)
    requires
        state.failure is None,
        state.position < state.steps.len(),
        state.steps[state.position as int].on_failure is Abort,
    ensures
        state.after(OutcomeView::Failed(failure)).failure matches Some(
            ErrorView::ApplyFailed { primitive, source },
        ) && Some(source) == procedure::step_cause(
            state.steps[state.position as int].op,
            OutcomeView::Failed(failure),
        ),
{
}

/// The name of a capability set is the one that the kernel's documents use.
pub proof fn lemma_set_names(set: CapSet, r: &'static str)
    requires
        call_ensures(CapSet::name, (set,), r),
    ensures
        set == CapSet::Ambient ==> r@ == "Ambient"@,
        set == CapSet::Bounding ==> r@ == "Bounding"@,
        set == CapSet::Inheritable ==> r@ == "Inheritable"@,
        set == CapSet::Effective ==> r@ == "Effective"@,
        set == CapSet::Permitted ==> r@ == "Permitted"@,
{
}

/// A session takes an outcome as its model does.
pub proof fn lemma_advance(session: &mut Session, outcome: Outcome)
    requires
        call_ensures(Session::advance, (session, outcome), ()),
    ensures
        final(session)@ == old(session)@.after(outcome@),
{
}

/// The model of an operation on files and mounts says what its fields hold.
pub proof fn lemma_file_op_model(op: Op)
    ensures
        op matches Op::Mount { source, target, fstype, flags } ==> (op@ matches OpView::Mount {
            source: own_source,
            target: own_target,
            fstype: own_fstype,
            flags: own_flags,
        } && own_target == target@ && own_flags == flags && (own_source is Some <==> source is Some)
            && (source is Some ==> own_source->Some_0 == source->Some_0@) && (own_fstype is Some
            <==> fstype is Some) && (fstype is Some ==> own_fstype->Some_0 == fstype->Some_0@)),
        op matches Op::CreateDirAll(path) ==> op@ == OpView::CreateDirAll(path@),
        op matches Op::PathExists(path) ==> op@ == OpView::PathExists(path@),
        op matches Op::PivotRoot { new_root, old_root } ==> op@ == (OpView::PivotRoot {
            new_root: new_root@,
            old_root: old_root@,
        }),
        op matches Op::Unmount { target, options } ==> op@ == (OpView::Unmount {
            target: target@,
            options,
        }),
        op matches Op::ChangeDir(path) ==> op@ == OpView::ChangeDir(path@),
        op matches Op::RemoveDir(path) ==> op@ == OpView::RemoveDir(path@),
{
}

/// The model of any other operation says what its fields hold.
pub proof fn lemma_other_op_model(op: Op)
    ensures
        op matches Op::Prctl { option, arg } ==> op@ == (OpView::Prctl { option, arg }),
        op matches Op::ClearCapabilities(set) ==> op@ == OpView::ClearCapabilities(set),
        op matches Op::OpenSocket { domain, kind, protocol } ==> op@ == (OpView::OpenSocket {
            domain,
            kind,
            protocol,
        }),
        op matches Op::GetInterfaceFlags(name) ==> op@ == OpView::GetInterfaceFlags(name@),
        op matches Op::RaiseInterface(name) ==> op@ == OpView::RaiseInterface(name@),
        op matches Op::LandlockCreate { handled } ==> op@ == (OpView::LandlockCreate { handled }),
        op matches Op::LandlockAllow { path, rights } ==> op@ == (OpView::LandlockAllow {
            path: path@,
            rights,
        }),
        op is LandlockRestrictSelf ==> op@ is LandlockRestrictSelf,
        op matches Op::InstallFilter(program) ==> op@ == OpView::InstallFilter(program@),
        op matches Op::Refuse(cause) ==> op@ == OpView::Refuse(cause@),
{
}

/// The models of a step and of an outcome say what their fields hold.
pub proof fn lemma_step_and_outcome_model(step: Step, outcome: Outcome)
    ensures
        step@.op == step.op@,
        step@.on_success == step.on_success,
        step.on_failure matches OnFailure::Abort(primitive) ==> step@.on_failure
            == OnFailureView::Abort(primitive@),
        step.on_failure matches OnFailure::Skip(count) ==> step@.on_failure == OnFailureView::Skip(
            count as nat,
        ),
        outcome is Done ==> outcome@ is Done,
        outcome matches Outcome::InterfaceFlags(flags) ==> outcome@ == OutcomeView::InterfaceFlags(
            flags,
        ),
        outcome matches Outcome::Failed(failure) ==> outcome@ == OutcomeView::Failed(
            FailureView { errno: failure.errno, kind: failure.kind, report: failure.report@ },
        ),
{
}

} // verus!
