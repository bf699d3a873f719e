//! The executor: which capability call is due, given how the calls made so
//! far have ended.
//!
//! The caller owns the image and makes the calls. It starts a run, performs
//! the call it is handed, reports the outcome, and goes on until it is
//! handed `Finish` or `Abort`. A run stops at the first call that is
//! rejected: no later call is handed out, and the run never ends in
//! `Finish`.

use vstd::prelude::*;
use crate::commands::{Call, CommandTrait, Descriptor, Operation};
use crate::pipeline::Commands;

verus! {

/// How a capability call ended.
#[derive(Clone, Copy, Debug, PartialEq, Eq, Structural)]
pub enum Outcome {
    Applied,
    Rejected,
}

/// The step of a pipeline whose capability call was rejected.
#[derive(Clone, Debug, PartialEq, Eq)]
pub struct OperationError {
    /// The place of the descriptor in the pipeline, counted from zero.
    pub step: usize,
    /// The source position of the descriptor.
    pub index: u32,
    /// The call that was rejected, with the parameters it was made with.
    pub call: Call,
}

/// The mathematical value of an `OperationError`.
pub struct Failure {
    pub step: usize,
    pub index: u32,
    pub operation: Operation,
}

impl View for OperationError {
    type V = Failure;

    open spec fn view(&self) -> Failure {
        Failure { step: self.step, index: self.index, operation: self.call@ }
    }
}

/// Where a run stands.
#[derive(Clone, Copy, Debug, PartialEq, Eq, Structural)]
pub enum RunState {
    /// The call of this step was handed out and its outcome is awaited.
    Running(usize),
    /// Every call was applied.
    Succeeded,
    /// The call of this step was rejected.
    Failed(usize),
}

/// What the caller is to do next.
#[derive(Clone, Debug, PartialEq, Eq)]
pub enum Action {
    /// Make this call on the image and report its outcome.
    Invoke(Call),
    /// The run is complete; the image holds the result.
    Finish,
    /// The run has failed; the image is not a valid result.
    Abort(OperationError),
}

/// The mathematical value of an `Action`.
pub enum Step {
    Invoke(Operation),
    Finish,
    Abort(Failure),
}

impl View for Action {
    type V = Step;

    open spec fn view(&self) -> Step {
        match self {
            Action::Invoke(call) => Step::Invoke(call@),
            Action::Finish => Step::Finish,
            Action::Abort(error) => Step::Abort(error@),
        }
    }
}

/// A state names only steps that the pipeline has.
pub open spec fn valid_state(pipeline: Seq<Descriptor>, state: RunState) -> bool {
    match state {
        RunState::Running(step) => step < pipeline.len(),
        RunState::Succeeded => true,
        RunState::Failed(step) => step < pipeline.len(),
    }
}

/// The failure of the run at `step`: the step, and the source position and
/// the call of its descriptor.
pub open spec fn failure(pipeline: Seq<Descriptor>, step: usize) -> Failure {
    Failure {
        step,
        index: pipeline[step as int].index,
        operation: pipeline[step as int].operation,
    }
}

/// State and action once every step before `step` was applied: the call of
/// `step` where the pipeline has such a step, and the end of the run where
/// it has not.
pub open spec fn due(pipeline: Seq<Descriptor>, step: int) -> (RunState, Step) {
    if 0 <= step < pipeline.len() {
        (RunState::Running(step as usize), Step::Invoke(pipeline[step].operation))
    } else {
        (RunState::Succeeded, Step::Finish)
    }
}

/// State and action at the start of a run.
pub open spec fn started(pipeline: Seq<Descriptor>) -> (RunState, Step) {
    due(pipeline, 0)
}

/// State and action after an outcome was reported in `state`. A rejected
/// call fails the run; a run that has ended stays as it ended.
pub open spec fn advanced(pipeline: Seq<Descriptor>, state: RunState, outcome: Outcome) -> (
    RunState,
    Step,
) {
    match state {
        RunState::Running(step) => match outcome {
            Outcome::Applied => due(pipeline, step + 1),
            Outcome::Rejected => (RunState::Failed(step), Step::Abort(failure(pipeline, step))),
        },
        RunState::Succeeded => (RunState::Succeeded, Step::Finish),
        RunState::Failed(step) => (RunState::Failed(step), Step::Abort(failure(pipeline, step))),
    }
}

/// State and action of a fresh run after the outcomes `outcomes` were
/// reported, in order.
pub open spec fn run(pipeline: Seq<Descriptor>, outcomes: Seq<Outcome>) -> (RunState, Step)
    decreases outcomes.len(),
{
    if outcomes.len() == 0 {
        started(pipeline)
    } else {
        advanced(pipeline, run(pipeline, outcomes.drop_last()).0, outcomes.last())
    }
}

/// How many capability calls a fresh run has handed out by the time the
/// outcomes `outcomes` were reported.
pub open spec fn invocations(pipeline: Seq<Descriptor>, outcomes: Seq<Outcome>) -> nat
    decreases outcomes.len(),
{
    let here: nat = if run(pipeline, outcomes).1 is Invoke {
        1
    } else {
        0
    };
    if outcomes.len() == 0 {
        here
    } else {
        invocations(pipeline, outcomes.drop_last()) + here
    }
}

fn fail(pipeline: &Commands, step: usize) -> (next: (RunState, Action))
    requires
        step < pipeline@.len(),
    ensures
        next.0 == RunState::Failed(step),
        next.1@ == Step::Abort(failure(pipeline@, step)),
{
    let command = &pipeline.commands[step];
    (
        RunState::Failed(step),
        Action::Abort(
            OperationError { step, index: command.get_index(), call: command.execute() },
        ),
    )
}

fn hand_out(pipeline: &Commands, step: usize) -> (next: (RunState, Action))
    requires
        step <= pipeline.commands@.len(),
    ensures
        next.0 == due(pipeline@, step as int).0,
        next.1@ == due(pipeline@, step as int).1,
        valid_state(pipeline@, next.0),
{
    if step < pipeline.commands.len() {
        (RunState::Running(step), Action::Invoke(pipeline.commands[step].execute()))
    } else {
        (RunState::Succeeded, Action::Finish)
    }
}

impl RunState {
    /// Whether this state names only steps that `pipeline` has.
    pub fn is_valid_for(&self, pipeline: &Commands) -> (valid: bool)
        ensures
            valid == valid_state(pipeline@, *self),
    {
        match self {
            RunState::Running(step) => *step < pipeline.commands.len(),
            RunState::Succeeded => true,
            RunState::Failed(step) => *step < pipeline.commands.len(),
        }
    }
}

/// Starts a run: hands out the call of the first descriptor, or ends the run
/// at once where the pipeline is empty.
pub fn start(pipeline: &Commands) -> (next: (RunState, Action))
    ensures
        next.0 == started(pipeline@).0,
        next.1@ == started(pipeline@).1,
        valid_state(pipeline@, next.0),
{
    hand_out(pipeline, 0)
}

/// Takes the outcome of the call that was handed out last. After an applied
/// call it hands out the call of the next descriptor, or ends the run where
/// none is left; after a rejected call it fails the run.
pub fn advance(pipeline: &Commands, state: RunState, outcome: Outcome) -> (next: (
    RunState,
    Action,
))
    requires
        valid_state(pipeline@, state),
    ensures
        next.0 == advanced(pipeline@, state, outcome).0,
        next.1@ == advanced(pipeline@, state, outcome).1,
        valid_state(pipeline@, next.0),
{
    let steps = pipeline.commands.len();
    assert(steps == pipeline@.len());
    match state {
        RunState::Running(step) => match outcome {
            Outcome::Applied => hand_out(pipeline, step + 1),
            Outcome::Rejected => fail(pipeline, step),
        },
        RunState::Succeeded => (RunState::Succeeded, Action::Finish),
        RunState::Failed(step) => fail(pipeline, step),
    }
}

/// While every call is applied, the calls are handed out in pipeline order,
/// one for each descriptor, and the run ends in `Finish` after the last.
pub proof fn applied_calls_run_in_order(pipeline: Seq<Descriptor>, outcomes: Seq<Outcome>)
    requires
        pipeline.len() <= usize::MAX,
        outcomes.len() <= pipeline.len(),
        forall|i: int| 0 <= i < outcomes.len() ==> outcomes[i] == Outcome::Applied,
    ensures
        run(pipeline, outcomes) == due(pipeline, outcomes.len() as int),
        invocations(pipeline, outcomes) == if outcomes.len() < pipeline.len() {
            outcomes.len() + 1
        } else {
            pipeline.len()
        },
    decreases outcomes.len(),
{
    if outcomes.len() > 0 {
        applied_calls_run_in_order(pipeline, outcomes.drop_last());
    }
}

/// Fail-fast: once the call of step `k` is rejected, the run has failed at
/// `k` whatever is reported afterwards, and no call beyond the first `k + 1`
/// is ever handed out.
pub proof fn rejected_call_stops_the_run(pipeline: Seq<Descriptor>, outcomes: Seq<Outcome>, k: int)
    requires
        pipeline.len() <= usize::MAX,
        0 <= k < pipeline.len(),
        k < outcomes.len(),
        outcomes[k] == Outcome::Rejected,
        forall|i: int| 0 <= i < k ==> outcomes[i] == Outcome::Applied,
    ensures
        run(pipeline, outcomes) == (
            RunState::Failed(k as usize),
            Step::Abort(failure(pipeline, k as usize)),
        ),
        invocations(pipeline, outcomes) == k + 1,
    decreases outcomes.len(),
{
    if outcomes.len() == k + 1 {
        applied_calls_run_in_order(pipeline, outcomes.drop_last());
    } else {
        rejected_call_stops_the_run(pipeline, outcomes.drop_last(), k);
    }
}

} // verus!
