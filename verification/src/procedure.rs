//! A procedure: an ordered list of operations on the operating system, and
//! what the failure of each one means.
//!
//! A [`Session`] walks a procedure. It names the next operation; its caller
//! performs that operation and reports the outcome. The session never looks
//! at the operating system itself, so it is the single place where the order
//! of a procedure and its failure policy are decided.

use crate::abi::IFF_UP;
use crate::error::{Cause, CauseView, Error, ErrorView};
use crate::unix::filter::Instruction;
use vstd::prelude::*;

verus! {

/// A capability set of a thread.
#[derive(Clone, Copy, PartialEq, Eq, Structural, Debug)]
pub enum CapSet {
    /// The ambient set.
    Ambient,
    /// The bounding set.
    Bounding,
    /// The inheritable set.
    Inheritable,
    /// The effective set.
    Effective,
    /// The permitted set.
    Permitted,
}

impl CapSet {
    /// The name of the set.
    pub open spec fn name_view(self) -> Seq<char> {
        match self {
            CapSet::Ambient => "Ambient"@,
            CapSet::Bounding => "Bounding"@,
            CapSet::Inheritable => "Inheritable"@,
            CapSet::Effective => "Effective"@,
            CapSet::Permitted => "Permitted"@,
        }
    }

    /// The name of the set.
    pub fn name(self) -> (r: &'static str)
        ensures
            r@ == self.name_view(),
    {
        match self {
            CapSet::Ambient => "Ambient",
            CapSet::Bounding => "Bounding",
            CapSet::Inheritable => "Inheritable",
            CapSet::Effective => "Effective",
            CapSet::Permitted => "Permitted",
        }
    }
}

/// One operation on the operating system.
#[derive(Debug)]
pub enum Op {
    /// `mount(source, target, fstype, flags, NULL)`.
    Mount {
        source: Option<Vec<u8>>,
        target: Vec<u8>,
        fstype: Option<&'static str>,
        flags: u64,
    },
    /// Create a directory and its parents.
    CreateDirAll(Vec<u8>),
    /// Succeeds where the path exists.
    PathExists(Vec<u8>),
    /// `pivot_root(new_root, old_root)`.
    PivotRoot { new_root: Vec<u8>, old_root: Vec<u8> },
    /// `umount2(target, options)`.
    Unmount { target: Vec<u8>, options: i32 },
    /// Change the current directory.
    ChangeDir(Vec<u8>),
    /// Remove an empty directory.
    RemoveDir(Vec<u8>),
    /// `prctl(option, arg, 0, 0, 0)`.
    Prctl { option: i32, arg: u64 },
    /// Clear a capability set of the current thread.
    ClearCapabilities(CapSet),
    /// `socket(domain, kind, protocol)`, kept for the interface operations.
    OpenSocket { domain: i32, kind: i32, protocol: i32 },
    /// Read the flags of a network interface.
    GetInterfaceFlags(&'static str),
    /// Write [`Session::raised_flags`] to a network interface.
    RaiseInterface(&'static str),
    /// Create a Landlock ruleset that handles these filesystem rights.
    LandlockCreate { handled: u64 },
    /// Allow these rights beneath a path.
    LandlockAllow { path: Vec<u8>, rights: u64 },
    /// Enforce the ruleset on the current thread.
    LandlockRestrictSelf,
    /// Install a seccomp program on the current thread.
    InstallFilter(Vec<Instruction>),
    /// Nothing to perform: the procedure has failed here.
    Refuse(Cause),
}

/// The model of an [`Op`].
pub enum OpView {
    Mount { source: Option<Seq<u8>>, target: Seq<u8>, fstype: Option<Seq<char>>, flags: u64 },
    CreateDirAll(Seq<u8>),
    PathExists(Seq<u8>),
    PivotRoot { new_root: Seq<u8>, old_root: Seq<u8> },
    Unmount { target: Seq<u8>, options: i32 },
    ChangeDir(Seq<u8>),
    RemoveDir(Seq<u8>),
    Prctl { option: i32, arg: u64 },
    ClearCapabilities(CapSet),
    OpenSocket { domain: i32, kind: i32, protocol: i32 },
    GetInterfaceFlags(Seq<char>),
    RaiseInterface(Seq<char>),
    LandlockCreate { handled: u64 },
    LandlockAllow { path: Seq<u8>, rights: u64 },
    LandlockRestrictSelf,
    InstallFilter(Seq<Instruction>),
    Refuse(CauseView),
}

impl View for Op {
    type V = OpView;

    open spec fn view(&self) -> OpView {
        match self {
            Op::Mount { source, target, fstype, flags } => OpView::Mount {
                source: match source {
                    Some(path) => Some(path@),
                    None => None,
                },
                target: target@,
                fstype: match fstype {
                    Some(name) => Some(name@),
                    None => None,
                },
                flags: *flags,
            },
            Op::CreateDirAll(path) => OpView::CreateDirAll(path@),
            Op::PathExists(path) => OpView::PathExists(path@),
            Op::PivotRoot { new_root, old_root } => OpView::PivotRoot {
                new_root: new_root@,
                old_root: old_root@,
            },
            Op::Unmount { target, options } => OpView::Unmount { target: target@, options: *options },
            Op::ChangeDir(path) => OpView::ChangeDir(path@),
            Op::RemoveDir(path) => OpView::RemoveDir(path@),
            Op::Prctl { option, arg } => OpView::Prctl { option: *option, arg: *arg },
            Op::ClearCapabilities(set) => OpView::ClearCapabilities(*set),
            Op::OpenSocket { domain, kind, protocol } => OpView::OpenSocket {
                domain: *domain,
                kind: *kind,
                protocol: *protocol,
            },
            Op::GetInterfaceFlags(name) => OpView::GetInterfaceFlags(name@),
            Op::RaiseInterface(name) => OpView::RaiseInterface(name@),
            Op::LandlockCreate { handled } => OpView::LandlockCreate { handled: *handled },
            Op::LandlockAllow { path, rights } => OpView::LandlockAllow {
                path: path@,
                rights: *rights,
            },
            Op::LandlockRestrictSelf => OpView::LandlockRestrictSelf,
            Op::InstallFilter(program) => OpView::InstallFilter(program@),
            Op::Refuse(cause) => OpView::Refuse(cause@),
        }
    }
}

/// What the failure of an operation means for the procedure.
#[derive(Clone, Copy, Debug)]
pub enum OnFailure {
    /// The operation is required: the procedure ends, and the error names this
    /// primitive.
    Abort(&'static str),
    /// The operation is best-effort: the procedure goes on behind this many
    /// further steps.
    Skip(usize),
}

/// The model of an [`OnFailure`].
pub enum OnFailureView {
    Abort(Seq<char>),
    Skip(nat),
}

impl View for OnFailure {
    type V = OnFailureView;

    open spec fn view(&self) -> OnFailureView {
        match self {
            OnFailure::Abort(primitive) => OnFailureView::Abort(primitive@),
            OnFailure::Skip(count) => OnFailureView::Skip(*count as nat),
        }
    }
}

/// One step of a procedure.
#[derive(Debug)]
pub struct Step {
    /// The operation.
    pub op: Op,
    /// How many further steps to pass over when it succeeds.
    pub on_success: usize,
    /// What its failure means.
    pub on_failure: OnFailure,
}

/// The model of a [`Step`].
pub struct StepView {
    pub op: OpView,
    pub on_success: nat,
    pub on_failure: OnFailureView,
}

impl View for Step {
    type V = StepView;

    open spec fn view(&self) -> StepView {
        StepView {
            op: self.op@,
            on_success: self.on_success as nat,
            on_failure: self.on_failure@,
        }
    }
}

/// The models of the steps in a list.
pub open spec fn steps_view(steps: Seq<Step>) -> Seq<StepView> {
    Seq::new(steps.len(), |i: int| steps[i]@)
}

/// The models of the operations in a list.
pub open spec fn ops_view(ops: Seq<Op>) -> Seq<OpView> {
    Seq::new(ops.len(), |i: int| ops[i]@)
}

impl StepView {
    /// Whether the procedure can end well without this step.
    pub open spec fn is_required(self) -> bool {
        self.on_failure is Abort
    }

    /// Whether every way on from step `i` of `len` stays within the procedure.
    pub open spec fn stays_within(self, i: int, len: nat) -> bool {
        &&& i + 1 + self.on_success <= len
        &&& self.on_failure matches OnFailureView::Skip(count) ==> i + 1 + count <= len
    }
}

/// A required step that goes on to the next one.
pub open spec fn required_step(op: OpView, primitive: Seq<char>) -> StepView {
    StepView { op, on_success: 0, on_failure: OnFailureView::Abort(primitive) }
}

/// A best-effort step: it passes over `on_success` further steps when it
/// succeeds and over `on_failure` further steps when it fails.
pub open spec fn optional_step(op: OpView, on_success: nat, on_failure: nat) -> StepView {
    StepView { op, on_success, on_failure: OnFailureView::Skip(on_failure) }
}

/// Each operation as a required step.
pub open spec fn required_steps(ops: Seq<OpView>, primitive: Seq<char>) -> Seq<StepView> {
    Seq::new(ops.len(), |i: int| required_step(ops[i], primitive))
}

/// Whether every way on from every step stays within the procedure.
pub open spec fn is_closed_procedure(steps: Seq<StepView>) -> bool {
    forall|i: int| 0 <= i < steps.len() ==> (#[trigger] steps[i]).stays_within(i, steps.len())
}

/// Declares `std::io::ErrorKind`, which is only carried from a failure to its
/// cause.
#[verifier::external_type_specification]
#[verifier::external_body]
pub struct ExErrorKind(std::io::ErrorKind);

/// What is known of the failure of an operation.
#[derive(Debug)]
pub struct Failure {
    /// The operating system's error number; zero where none was reported.
    pub errno: i32,
    /// The kind of the error.
    pub kind: std::io::ErrorKind,
    /// The text of the error.
    pub report: String,
}

/// The model of a [`Failure`].
pub struct FailureView {
    pub errno: i32,
    pub kind: std::io::ErrorKind,
    pub report: Seq<char>,
}

impl View for Failure {
    type V = FailureView;

    open spec fn view(&self) -> FailureView {
        FailureView { errno: self.errno, kind: self.kind, report: self.report@ }
    }
}

/// What the caller reports of an operation.
#[derive(Debug)]
pub enum Outcome {
    /// It succeeded.
    Done,
    /// It succeeded and read these interface flags.
    InterfaceFlags(i16),
    /// It failed.
    Failed(Failure),
}

/// The model of an [`Outcome`].
pub enum OutcomeView {
    Done,
    InterfaceFlags(i16),
    Failed(FailureView),
}

impl View for Outcome {
    type V = OutcomeView;

    open spec fn view(&self) -> OutcomeView {
        match self {
            Outcome::Done => OutcomeView::Done,
            Outcome::InterfaceFlags(flags) => OutcomeView::InterfaceFlags(*flags),
            Outcome::Failed(failure) => OutcomeView::Failed(failure@),
        }
    }
}

/// The state of a [`Session`].
pub struct SessionView {
    pub steps: Seq<StepView>,
    pub position: nat,
    pub interface_flags: i16,
    pub failure: Option<ErrorView>,
}

/// What lies behind the failure of `op`. A system call is told by its error
/// number; the other operations are told by what was reported of them.
pub open spec fn failure_cause(op: OpView, failure: FailureView) -> CauseView {
    match op {
        OpView::Refuse(cause) => cause,
        OpView::PathExists(path) => CauseView::GrantSourceMissing(path),
        OpView::CreateDirAll(path) => CauseView::Directory {
            path,
            kind: failure.kind,
            report: failure.report,
        },
        OpView::RemoveDir(path) => CauseView::Directory {
            path,
            kind: failure.kind,
            report: failure.report,
        },
        OpView::ClearCapabilities(set) => CauseView::Capabilities { set, report: failure.report },
        OpView::LandlockCreate { .. } => CauseView::Landlock(failure.report),
        OpView::LandlockAllow { .. } => CauseView::Landlock(failure.report),
        OpView::LandlockRestrictSelf => CauseView::Landlock(failure.report),
        OpView::InstallFilter(_) => CauseView::Installation(failure.report),
        _ => CauseView::Os(failure.errno),
    }
}

/// Why the step with this operation does not succeed with this outcome; `None`
/// where it does. A refusal never succeeds.
pub open spec fn step_cause(op: OpView, outcome: OutcomeView) -> Option<CauseView> {
    match (op, outcome) {
        (OpView::Refuse(cause), _) => Some(cause),
        (_, OutcomeView::Failed(failure)) => Some(failure_cause(op, failure)),
        _ => None,
    }
}

impl SessionView {
    /// The state before the first step.
    pub open spec fn initial(steps: Seq<StepView>) -> SessionView {
        SessionView { steps, position: 0, interface_flags: 0, failure: None }
    }

    /// Whether there is an operation to perform.
    pub open spec fn is_running(self) -> bool {
        self.failure is None && self.position < self.steps.len()
    }

    /// Whether the procedure ended well.
    pub open spec fn has_succeeded(self) -> bool {
        self.failure is None && self.position >= self.steps.len()
    }

    /// The step to perform next.
    pub open spec fn current(self) -> StepView {
        self.steps[self.position as int]
    }

    /// Whether `outcome` lets the current step succeed. A refusal never does.
    pub open spec fn accepts(self, outcome: OutcomeView) -> bool {
        !(self.current().op is Refuse) && !(outcome is Failed)
    }

    /// The state after the current operation had this outcome.
    pub open spec fn after(self, outcome: OutcomeView) -> SessionView {
        if !self.is_running() {
            self
        } else if self.accepts(outcome) {
            SessionView {
                position: self.position + 1 + self.current().on_success,
                interface_flags: match (self.current().op, outcome) {
                    (OpView::GetInterfaceFlags(_), OutcomeView::InterfaceFlags(flags)) => flags,
                    _ => self.interface_flags,
                },
                ..self
            }
        } else {
            match self.current().on_failure {
                OnFailureView::Abort(primitive) => SessionView {
                    failure: Some(
                        ErrorView::ApplyFailed {
                            primitive,
                            source: step_cause(self.current().op, outcome)->Some_0,
                        },
                    ),
                    ..self
                },
                OnFailureView::Skip(count) => SessionView {
                    position: self.position + 1 + count,
                    ..self
                },
            }
        }
    }

    /// The state after these outcomes, in order.
    pub open spec fn after_all(self, outcomes: Seq<OutcomeView>) -> SessionView
        decreases outcomes.len(),
    {
        if outcomes.len() == 0 {
            self
        } else {
            self.after_all(outcomes.drop_last()).after(outcomes.last())
        }
    }
}

/// Why the step with this operation does not succeed with this outcome.
fn cause_of(op: &Op, outcome: Outcome) -> (r: Option<Cause>)
    ensures
        r is Some <==> step_cause(op@, outcome@) is Some,
        r matches Some(cause) ==> Some(cause@) == step_cause(op@, outcome@),
{
    match (op, outcome) {
        (Op::Refuse(cause), _) => Some(cause.duplicate()),
        (_, Outcome::Failed(failure)) => Some(
            match op {
                Op::PathExists(path) => Cause::GrantSourceMissing(
                    vstd::slice::slice_to_vec(path.as_slice()),
                ),
                Op::CreateDirAll(path) | Op::RemoveDir(path) => Cause::Directory {
                    path: vstd::slice::slice_to_vec(path.as_slice()),
                    kind: failure.kind,
                    report: failure.report,
                },
                Op::ClearCapabilities(set) => Cause::Capabilities {
                    set: *set,
                    report: failure.report,
                },
                Op::LandlockCreate { .. }
                | Op::LandlockAllow { .. }
                | Op::LandlockRestrictSelf => Cause::Landlock(failure.report),
                Op::InstallFilter(_) => Cause::Installation(failure.report),
                _ => Cause::Os(failure.errno),
            },
        ),
        _ => None,
    }
}

/// A walk through a procedure.
#[derive(Debug)]
pub struct Session {
    steps: Vec<Step>,
    position: usize,
    interface_flags: i16,
    failure: Option<Error>,
}

impl View for Session {
    type V = SessionView;

    closed spec fn view(&self) -> SessionView {
        SessionView {
            steps: steps_view(self.steps@),
            position: self.position as nat,
            interface_flags: self.interface_flags,
            failure: match self.failure {
                Some(error) => Some(error@),
                None => None,
            },
        }
    }
}

impl Session {
    #[verifier::type_invariant]
    spec fn is_within(self) -> bool {
        &&& is_closed_procedure(steps_view(self.steps@))
        &&& self.position <= self.steps@.len()
    }

    /// A session at the first step.
    pub fn start(steps: Vec<Step>) -> (r: Session)
        requires
            is_closed_procedure(steps_view(steps@)),
        ensures
            r@ == SessionView::initial(steps_view(steps@)),
    {
        Session { steps, position: 0, interface_flags: 0, failure: None }
    }

    /// The operation to perform next; `None` once the procedure has ended.
    pub fn pending(&self) -> (r: Option<&Op>)
        ensures
            r is Some <==> self@.is_running(),
            r matches Some(op) ==> op@ == self@.current().op,
    {
        if self.failure.is_some() {
            return None;
        }
        if self.position < self.steps.len() {
            Some(&self.steps[self.position].op)
        } else {
            None
        }
    }

    /// The interface flags last read, with the interface marked as up.
    pub fn raised_flags(&self) -> (r: i16)
        ensures
            r == self@.interface_flags | IFF_UP,
    {
        self.interface_flags | IFF_UP
    }

    /// How the procedure ended; `None` while there is an operation to perform.
    pub fn result(&self) -> (r: Option<Result<(), &Error>>)
        ensures
            r is None <==> self@.is_running(),
            r matches Some(Ok(())) ==> self@.has_succeeded(),
            r matches Some(Err(error)) ==> self@.failure == Some(error@),
    {
        match &self.failure {
            Some(error) => Some(Err(error)),
            None => if self.position < self.steps.len() {
                None
            } else {
                Some(Ok(()))
            },
        }
    }

    /// Takes the outcome of the pending operation. Does nothing once the
    /// procedure has ended.
    pub fn advance(&mut self, outcome: Outcome)
        ensures
            final(self)@ == old(self)@.after(outcome@),
    {
        proof {
            use_type_invariant(&*self);
        }
        if self.failure.is_some() || self.position >= self.steps.len() {
            return ;
        }
        let position = self.position;
        let ghost before = self@;
        assert(before.current() == self.steps@[position as int]@);
        assert(before.current().stays_within(position as int, self.steps@.len()));
        let on_success: usize = self.steps[position].on_success;
        let on_failure = self.steps[position].on_failure;
        let flags: Option<i16> = match (&self.steps[position].op, &outcome) {
            (Op::GetInterfaceFlags(_), Outcome::InterfaceFlags(flags)) => Some(*flags),
            _ => None,
        };
        let cause = cause_of(&self.steps[position].op, outcome);
        match cause {
            None => {
                if let Some(flags) = flags {
                    self.interface_flags = flags;
                }
                self.position = position + 1 + on_success;
            },
            Some(cause) => {
                match on_failure {
                    OnFailure::Abort(primitive) => {
                        self.failure = Some(Error::ApplyFailed { primitive, source: cause });
                    },
                    OnFailure::Skip(count) => {
                        self.position = position + 1 + count;
                    },
                }
            },
        }
    }
}

} // verus!
