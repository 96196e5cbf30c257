//! The lifecycle that every profiling backend follows.
use vstd::prelude::*;
use crate::error::BackendError;

verus! {

/// Lifecycle state of a profiling backend.
#[derive(Clone, Copy, Debug, PartialEq, Eq, Structural)]
pub enum State {
    /// Nothing has been set up. The only initial state.
    Uninitialized,
    /// The sampler exists and is idle.
    Ready,
    /// The sampler is producing.
    Running,
}

impl Default for State {
    fn default() -> (s: State)
        ensures
            s == State::Uninitialized,
    {
        State::Uninitialized
    }
}

/// The four operations of the lifecycle.
#[derive(Clone, Copy, Debug, PartialEq, Eq, Structural)]
pub enum Operation {
    /// Make the sampler.
    Initialize,
    /// Open the pipeline and start the sampler.
    Start,
    /// Tell the sampler to stop.
    Stop,
    /// Fold what the sampler queued.
    Report,
}

impl Operation {
    /// The one state in which this operation is accepted.
    pub open spec fn required_state(self) -> State {
        match self {
            Operation::Initialize => State::Uninitialized,
            Operation::Start => State::Ready,
            Operation::Stop => State::Running,
            Operation::Report => State::Running,
        }
    }

    /// The state that this operation leaves behind when it succeeds.
    pub open spec fn target_state(self) -> State {
        match self {
            Operation::Initialize => State::Ready,
            Operation::Start => State::Running,
            Operation::Stop => State::Ready,
            Operation::Report => State::Running,
        }
    }

    /// The error that this operation reports in any other state.
    pub open spec fn state_error(self) -> BackendError {
        match self {
            Operation::Initialize => BackendError::AlreadyInitialized,
            Operation::Start => BackendError::NotReady,
            Operation::Stop => BackendError::NotRunning,
            Operation::Report => BackendError::NotRunning,
        }
    }
}

/// The lifecycle as a function: the state that `op` leads to from `state`,
/// or `None` where `op` is not accepted in `state`.
pub open spec fn step(state: State, op: Operation) -> Option<State> {
    if state == op.required_state() {
        Some(op.target_state())
    } else {
        None
    }
}

/// The lifecycle has no other transitions than these: ready is entered from
/// uninitialized by `initialize` and from running by `stop`, running is
/// entered from ready by `start` and kept by `report`, and nothing leads
/// back to uninitialized.
pub proof fn lemma_transitions(state: State, op: Operation)
    ensures
        step(state, op) != Some(State::Uninitialized),
        step(state, op) == Some(State::Ready) <==> (state == State::Uninitialized && op
            == Operation::Initialize) || (state == State::Running && op == Operation::Stop),
        step(state, op) == Some(State::Running) <==> (state == State::Ready && op
            == Operation::Start) || (state == State::Running && op == Operation::Report),
{
}

/// A lifecycle-managed profiling session.
///
/// Every implementation follows the same state machine: `initialize` leads
/// from uninitialized to ready, `start` from ready to running, `stop` from
/// running back to ready, and `report` is accepted while running. An
/// operation called in any other state fails with its state error, and an
/// operation that fails, for this or another reason, leaves the state as it
/// was.
pub trait Backend {
    /// The state this backend is in.
    spec fn state_of(&self) -> State;

    /// The current state.
    fn get_state(&self) -> (s: State)
        ensures
            s == self.state_of(),
    ;

    /// The fixed name of the sampler behind this backend.
    fn spy_name(&self) -> (r: Result<String, BackendError>);

    /// The configured number of samples per second.
    fn sample_rate(&self) -> (r: Result<u32, BackendError>);

    /// Sets the sampler up.
    fn initialize(&mut self) -> (r: Result<(), BackendError>)
        ensures
            step(old(self).state_of(), Operation::Initialize) is None ==> r == Err::<
                (),
                BackendError,
            >(Operation::Initialize.state_error()),
            r is Ok ==> step(old(self).state_of(), Operation::Initialize) == Some(
                final(self).state_of(),
            ),
            r is Err ==> final(self).state_of() == old(self).state_of(),
    ;

    /// Starts sampling.
    fn start(&mut self) -> (r: Result<(), BackendError>)
        ensures
            step(old(self).state_of(), Operation::Start) is None ==> r == Err::<(), BackendError>(
                Operation::Start.state_error(),
            ),
            r is Ok ==> step(old(self).state_of(), Operation::Start) == Some(
                final(self).state_of(),
            ),
            r is Err ==> final(self).state_of() == old(self).state_of(),
    ;

    /// Stops sampling.
    fn stop(&mut self) -> (r: Result<(), BackendError>)
        ensures
            step(old(self).state_of(), Operation::Stop) is None ==> r == Err::<(), BackendError>(
                Operation::Stop.state_error(),
            ),
            r is Ok ==> step(old(self).state_of(), Operation::Stop) == Some(
                final(self).state_of(),
            ),
            r is Err ==> final(self).state_of() == old(self).state_of(),
    ;

    /// Folds what was sampled since the last report.
    fn report(&mut self) -> (r: Result<Vec<u8>, BackendError>)
        ensures
            step(old(self).state_of(), Operation::Report) is None ==> r == Err::<
                Vec<u8>,
                BackendError,
            >(Operation::Report.state_error()),
            r is Ok ==> step(old(self).state_of(), Operation::Report) == Some(
                final(self).state_of(),
            ),
            r is Err ==> final(self).state_of() == old(self).state_of(),
    ;
}

} // verus!
