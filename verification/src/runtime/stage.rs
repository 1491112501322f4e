//! The states a stage goes through and the events that move it from one to the
//! next.
use crate::error::Error;
use crate::metrics::Registry;
use crate::retries::Retry;
use vstd::prelude::*;

verus! {

/// What a worker has to say when it is asked for its next piece of work.
pub enum WorkSchedule<U> {
    /// worker is not doing anything, but might in the future
    Idle,
    /// a work unit should be executed
    Unit(U),
    /// worker has done all the work it needed
    Done,
}

pub type ScheduleResult<U> = Result<WorkSchedule<U>, Error>;

/// The user's half of a stage.
pub trait Worker: Send {
    /// All the data that one piece of work needs.
    type WorkUnit: Sized;

    /// The metrics that the worker keeps up to date.
    fn metrics(&self) -> Registry;
}

/// Where a stage stands, as seen from outside.
#[derive(Clone, Copy, Debug, PartialEq, Eq, Structural)]
pub enum StagePhase {
    Bootstrap,
    Working,
    Teardown,
    Ended,
}

/// Where a stage stands, with all that it needs to go on from there.
#[derive(Clone, Debug)]
pub enum StageState<W> where W: Worker {
    Bootstrap(Retry),
    Scheduling(Retry),
    Executing(W::WorkUnit, Retry),
    Teardown(Retry),
    Ended,
}

impl<W> StageState<W> where W: Worker {
    /// The phase that a state belongs to.
    pub open spec fn phase(self) -> StagePhase {
        match self {
            StageState::Bootstrap(_) => StagePhase::Bootstrap,
            StageState::Scheduling(_) | StageState::Executing(_, _) => StagePhase::Working,
            StageState::Teardown(_) => StagePhase::Teardown,
            StageState::Ended => StagePhase::Ended,
        }
    }

    /// The phase that this state shows to the outside.
    pub(crate) fn shown_phase(&self) -> (phase: StagePhase)
        ensures
            phase == self.phase(),
        opens_invariants none
    {
        match self {
            StageState::Bootstrap(_) => StagePhase::Bootstrap,
            StageState::Scheduling(..) => StagePhase::Working,
            StageState::Executing(..) => StagePhase::Working,
            StageState::Teardown(_) => StagePhase::Teardown,
            StageState::Ended => StagePhase::Ended,
        }
    }
}

impl<W> From<&StageState<W>> for StagePhase where W: Worker {
    fn from(value: &StageState<W>) -> (phase: StagePhase) {
        value.shown_phase()
    }
}

impl<W> vstd::std_specs::convert::FromSpecImpl<&StageState<W>> for StagePhase where W: Worker {
    open spec fn obeys_from_spec() -> bool {
        true
    }

    open spec fn from_spec(value: &StageState<W>) -> StagePhase {
        value.phase()
    }
}

/// What came out of one turn of a stage.
#[derive(Debug)]
pub enum StageEvent<W> where W: Worker {
    Dismissed,
    WorkerIdle,
    WorkerDone,
    MessagingError,
    NextUnit(W::WorkUnit),
    ScheduleError(Error, Retry),
    ExecuteOk,
    ExecuteError(W::WorkUnit, Error, Retry),
    BootstrapOk,
    BootstrapError(Error, Retry),
    TeardownOk,
    TeardownError(Error, Retry),
}

} // verus!
