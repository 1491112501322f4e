//! The machine that drives a stage.
use crate::error::Error;
use crate::retries;
use crate::retries::Retry;
use crate::runtime::anchor::Anchor;
use crate::runtime::policy::Policy;
use crate::runtime::stage::{ScheduleResult, StageEvent, StagePhase, StageState, WorkSchedule, Worker};
use std::sync::Arc;
use vstd::prelude::*;

verus! {

/// One attempt at a piece of work. Ahead of it, the stage holds back for as long
/// as `backoff` asks after the failures that `retry` counts, or until it is
/// dismissed.
#[derive(Clone, Copy, Debug, PartialEq, Eq, Structural)]
pub struct Attempt {
    pub retry: Retry,
    pub backoff: retries::Policy,
}

/// What a stage does in one turn.
pub enum Actuation<W> where W: Worker {
    /// Nothing: the outcome is known without the worker.
    Settled(StageEvent<W>),
    /// Bootstrap the worker.
    Bootstrap(Attempt),
    /// Ask the worker for its next work unit.
    Schedule(Attempt),
    /// Have the worker execute the unit.
    Execute(W::WorkUnit, Attempt),
    /// Tear the worker down.
    Teardown(Attempt),
}

impl<W> Actuation<W> where W: Worker {
    /// Whether the worker's part in this actuation, if it has one, can end in
    /// `event`.
    pub open spec fn may_end_in(self, event: StageEvent<W>) -> bool {
        match self {
            Actuation::Settled(settled) => event == settled,
            Actuation::Bootstrap(attempt) => match event {
                StageEvent::BootstrapOk => true,
                StageEvent::BootstrapError(_, retry) => retry == attempt.retry,
                _ => false,
            },
            Actuation::Schedule(attempt) => match event {
                StageEvent::WorkerIdle | StageEvent::WorkerDone | StageEvent::NextUnit(_) => true,
                StageEvent::ScheduleError(_, retry) => retry == attempt.retry,
                _ => false,
            },
            Actuation::Execute(unit, attempt) => match event {
                StageEvent::ExecuteOk => true,
                StageEvent::ExecuteError(back, _, retry) => back == unit && retry == attempt.retry,
                _ => false,
            },
            Actuation::Teardown(attempt) => match event {
                StageEvent::TeardownOk => true,
                StageEvent::TeardownError(_, retry) => retry == attempt.retry,
                _ => false,
            },
        }
    }
}

impl<W> StageState<W> where W: Worker {
    /// What a stage in this state does in its next turn. A dismissal takes effect
    /// in every state but teardown, and work whose retries are used up fails
    /// without another attempt. Scheduling and execution are limited by the work
    /// policy, yet hold back as the teardown policy asks. An ended stage has no
    /// next turn.
    pub open spec fn actuation(self, policy: Policy, dismissed: bool) -> Option<Actuation<W>> {
        match self {
            StageState::Ended => None,
            StageState::Teardown(retry) => Some(
                if retry.has_next(&policy.teardown_retry) {
                    Actuation::Teardown(Attempt { retry, backoff: policy.teardown_retry })
                } else {
                    Actuation::Settled(StageEvent::TeardownError(Error::MaxRetries, retry))
                },
            ),
            _ if dismissed => Some(Actuation::Settled(StageEvent::Dismissed)),
            StageState::Bootstrap(retry) => Some(
                if retry.has_next(&policy.bootstrap_retry) {
                    Actuation::Bootstrap(Attempt { retry, backoff: policy.bootstrap_retry })
                } else {
                    Actuation::Settled(StageEvent::BootstrapError(Error::MaxRetries, retry))
                },
            ),
            StageState::Scheduling(retry) => Some(
                if retry.has_next(&policy.work_retry) {
                    Actuation::Schedule(Attempt { retry, backoff: policy.teardown_retry })
                } else {
                    Actuation::Settled(StageEvent::ScheduleError(Error::MaxRetries, retry))
                },
            ),
            StageState::Executing(unit, retry) => Some(
                if retry.has_next(&policy.work_retry) {
                    Actuation::Execute(unit, Attempt { retry, backoff: policy.teardown_retry })
                } else {
                    Actuation::Settled(StageEvent::ExecuteError(unit, Error::MaxRetries, retry))
                },
            ),
        }
    }
}

impl<W> StageEvent<W> where W: Worker {
    /// The state that an event leads to. Work is tried again where the error
    /// allows it, and every other way on starts a count of its own.
    pub open spec fn next_state(self) -> StageState<W> {
        match self {
            StageEvent::BootstrapOk | StageEvent::WorkerIdle | StageEvent::ExecuteOk => {
                StageState::Scheduling(Retry::new())
            },
            StageEvent::NextUnit(unit) => StageState::Executing(unit, Retry::new()),
            StageEvent::WorkerDone | StageEvent::MessagingError | StageEvent::Dismissed => {
                StageState::Teardown(Retry::new())
            },
            StageEvent::TeardownOk => StageState::Ended,
            StageEvent::BootstrapError(err, retry) => {
                if err is ShouldRestart || err is RetryableError {
                    StageState::Bootstrap(retry.next())
                } else if err is DismissableError {
                    StageState::Scheduling(Retry::new())
                } else {
                    StageState::Teardown(Retry::new())
                }
            },
            StageEvent::ScheduleError(err, retry) => {
                if err is RetryableError {
                    StageState::Scheduling(retry.next())
                } else {
                    StageEvent::<W>::after_failed_work(err)
                }
            },
            StageEvent::ExecuteError(unit, err, retry) => {
                if err is RetryableError {
                    StageState::Executing(unit, retry.next())
                } else {
                    StageEvent::<W>::after_failed_work(err)
                }
            },
            StageEvent::TeardownError(err, retry) => {
                if err is RetryableError {
                    StageState::Teardown(retry.next())
                } else {
                    StageState::Ended
                }
            },
        }
    }

    /// Where work leads that failed and is not tried again.
    pub open spec fn after_failed_work(err: Error) -> StageState<W> {
        match err {
            Error::ShouldRestart => StageState::Bootstrap(Retry::new()),
            Error::DismissableError => StageState::Scheduling(Retry::new()),
            _ => StageState::Teardown(Retry::new()),
        }
    }

    /// What a reply to a bootstrap call comes to.
    pub open spec fn bootstrap_event(attempt: Attempt, reply: Result<(), Error>) -> StageEvent<W> {
        match reply {
            Ok(_) => StageEvent::BootstrapOk,
            Err(err) => StageEvent::BootstrapError(err, attempt.retry),
        }
    }

    /// What a reply to a scheduling call comes to.
    pub open spec fn schedule_event(
        attempt: Attempt,
        reply: ScheduleResult<W::WorkUnit>,
    ) -> StageEvent<W> {
        match reply {
            Ok(WorkSchedule::Idle) => StageEvent::WorkerIdle,
            Ok(WorkSchedule::Done) => StageEvent::WorkerDone,
            Ok(WorkSchedule::Unit(unit)) => StageEvent::NextUnit(unit),
            Err(err) => StageEvent::ScheduleError(err, attempt.retry),
        }
    }

    /// What a reply to an execution call comes to.
    pub open spec fn execute_event(
        unit: W::WorkUnit,
        attempt: Attempt,
        reply: Result<(), Error>,
    ) -> StageEvent<W> {
        match reply {
            Ok(_) => StageEvent::ExecuteOk,
            Err(err) => StageEvent::ExecuteError(unit, err, attempt.retry),
        }
    }

    /// What a reply to a teardown call comes to.
    pub open spec fn teardown_event(attempt: Attempt, reply: Result<(), Error>) -> StageEvent<W> {
        match reply {
            Ok(_) => StageEvent::TeardownOk,
            Err(err) => StageEvent::TeardownError(err, attempt.retry),
        }
    }

    /// The event that ends a turn in which the worker was bootstrapped.
    pub fn of_bootstrap(attempt: Attempt, reply: Result<(), Error>) -> (event: StageEvent<W>)
        ensures
            event == StageEvent::<W>::bootstrap_event(attempt, reply),
            Actuation::<W>::Bootstrap(attempt).may_end_in(event),
    {
        match reply {
            Ok(_) => StageEvent::BootstrapOk,
            Err(x) => StageEvent::BootstrapError(x, attempt.retry),
        }
    }

    /// The event that ends a turn in which the worker was asked for work.
    pub fn of_schedule(attempt: Attempt, reply: ScheduleResult<W::WorkUnit>) -> (event: StageEvent<
        W,
    >)
        ensures
            event == StageEvent::<W>::schedule_event(attempt, reply),
            Actuation::<W>::Schedule(attempt).may_end_in(event),
    {
        let schedule: WorkSchedule<W::WorkUnit> = match reply {
            Ok(x) => x,
            Err(x) => return StageEvent::ScheduleError(x, attempt.retry),
        };
        match schedule {
            WorkSchedule::Idle => StageEvent::WorkerIdle,
            WorkSchedule::Done => StageEvent::WorkerDone,
            WorkSchedule::Unit(u) => StageEvent::NextUnit(u),
        }
    }

    /// The event that ends a turn in which the worker executed a unit.
    pub fn of_execute(unit: W::WorkUnit, attempt: Attempt, reply: Result<(), Error>) -> (event:
        StageEvent<W>)
        ensures
            event == StageEvent::<W>::execute_event(unit, attempt, reply),
            Actuation::<W>::Execute(unit, attempt).may_end_in(event),
    {
        match reply {
            Ok(_) => StageEvent::ExecuteOk,
            Err(err) => StageEvent::ExecuteError(unit, err, attempt.retry),
        }
    }

    /// The event that ends a turn in which the worker was torn down.
    pub fn of_teardown(attempt: Attempt, reply: Result<(), Error>) -> (event: StageEvent<W>)
        ensures
            event == StageEvent::<W>::teardown_event(attempt, reply),
            Actuation::<W>::Teardown(attempt).may_end_in(event),
    {
        match reply {
            Ok(_) => StageEvent::TeardownOk,
            Err(x) => StageEvent::TeardownError(x, attempt.retry),
        }
    }
}

/// A turn that has begun.
pub struct Turn<W> where W: Worker {
    /// The phase in which it began.
    pub prev_phase: StagePhase,
    /// What is to be done in it.
    pub actuation: Actuation<W>,
}

/// A turn that is over.
#[derive(Clone, Copy, Debug, PartialEq, Eq, Structural)]
pub struct Transition {
    pub prev_phase: StagePhase,
    pub next_phase: StagePhase,
    /// Whether the two phases differ.
    pub switched: bool,
}

/// A worker and where its stage stands.
pub struct StageMachine<W> where W: Worker {
    state: Option<StageState<W>>,
    anchor: Arc<Anchor>,
    policy: Policy,
    name: String,
    tick_count: u64,
    worker: W,
}

/// What a machine is made of. While a turn is under way, it has no state.
#[verifier::ext_equal]
pub struct MachineView<W> where W: Worker {
    pub state: Option<StageState<W>>,
    pub anchor: Arc<Anchor>,
    pub policy: Policy,
    pub name: Seq<char>,
    pub tick_count: u64,
    pub worker: W,
}

impl<W> MachineView<W> where W: Worker {
    /// Whether a machine has a state and its anchor was made with the phase of
    /// that state, or was told it at some time.
    pub open spec fn in_step(self) -> bool {
        self.state matches Some(state) && (self.anchor@.first_phase == state.phase()
            || self.anchor.was_told(state.phase()))
    }
}

impl<W> View for StageMachine<W> where W: Worker {
    type V = MachineView<W>;

    closed spec fn view(&self) -> MachineView<W> {
        MachineView {
            state: self.state,
            anchor: self.anchor,
            policy: self.policy,
            name: self.name@,
            tick_count: self.tick_count,
            worker: self.worker,
        }
    }
}

impl<W> StageMachine<W> where W: Worker {
    /// A machine that has not taken a turn yet.
    pub fn new(anchor: Arc<Anchor>, worker: W, policy: Policy, name: String) -> (machine:
        StageMachine<W>)
        ensures
            machine@ == (MachineView {
                state: Some(StageState::Bootstrap(Retry::new())),
                anchor,
                policy,
                name: name@,
                tick_count: 0,
                worker,
            }),
            anchor@.first_phase == StagePhase::Bootstrap ==> machine@.in_step(),
        opens_invariants none
    {
        StageMachine {
            state: Some(StageState::Bootstrap(Retry::new())),
            tick_count: 0,
            name,
            anchor,
            policy,
            worker,
        }
    }

    /// The name of the stage.
    pub fn name(&self) -> (name: &str)
        ensures
            name@ == self@.name,
    {
        self.name.as_str()
    }

    /// What the machine shares with the tether of its stage.
    pub fn anchor(&self) -> (anchor: &Arc<Anchor>)
        ensures
            *anchor == self@.anchor,
        opens_invariants none
    {
        &self.anchor
    }

    /// The worker, for the caller to have it do its part of a turn.
    pub fn worker_mut(&mut self) -> (worker: &mut W)
        ensures
            *worker == old(self)@.worker,
            final(self)@ == (MachineView { worker: *final(worker), ..old(self)@ }),
        opens_invariants none
    {
        &mut self.worker
    }

    /// Whether a turn has begun and is not over.
    pub fn in_turn(&self) -> (in_turn: bool)
        ensures
            in_turn == (self@.state is None),
        opens_invariants none
    {
        match &self.state {
            Some(_) => false,
            None => true,
        }
    }

    /// The first half of a bootstrap turn.
    fn bootstrap(&self, retry: Retry) -> (actuation: Actuation<W>)
        ensures
            Some(actuation) == StageState::<W>::Bootstrap(retry).actuation(self@.policy, false),
        opens_invariants none
    {
        if !retry.has_next(&self.policy.bootstrap_retry) {
            return Actuation::Settled(StageEvent::BootstrapError(Error::MaxRetries, retry));
        }
        Actuation::Bootstrap(Attempt { retry, backoff: self.policy.bootstrap_retry })
    }

    /// The first half of a scheduling turn.
    fn schedule(&self, retry: Retry) -> (actuation: Actuation<W>)
        ensures
            Some(actuation) == StageState::<W>::Scheduling(retry).actuation(self@.policy, false),
        opens_invariants none
    {
        if !retry.has_next(&self.policy.work_retry) {
            return Actuation::Settled(StageEvent::ScheduleError(Error::MaxRetries, retry));
        }
        Actuation::Schedule(Attempt { retry, backoff: self.policy.teardown_retry })
    }

    /// The first half of an execution turn.
    fn execute(&self, unit: W::WorkUnit, retry: Retry) -> (actuation: Actuation<W>)
        ensures
            Some(actuation) == StageState::<W>::Executing(unit, retry).actuation(
                self@.policy,
                false,
            ),
        opens_invariants none
    {
        if !retry.has_next(&self.policy.work_retry) {
            return Actuation::Settled(StageEvent::ExecuteError(unit, Error::MaxRetries, retry));
        }
        Actuation::Execute(unit, Attempt { retry, backoff: self.policy.teardown_retry })
    }

    /// The first half of a teardown turn.
    fn teardown(&self, retry: Retry) -> (actuation: Actuation<W>)
        ensures
            Some(actuation) == StageState::<W>::Teardown(retry).actuation(self@.policy, false),
        opens_invariants none
    {
        if !retry.has_next(&self.policy.teardown_retry) {
            return Actuation::Settled(StageEvent::TeardownError(Error::MaxRetries, retry));
        }
        Actuation::Teardown(Attempt { retry, backoff: self.policy.teardown_retry })
    }

    /// What a stage does in its next turn, given whether it is dismissed.
    pub fn actuate_given(&self, prev_state: StageState<W>, is_dismissed: bool) -> (actuation:
        Actuation<W>)
        requires
            prev_state !is Ended,
        ensures
            Some(actuation) == prev_state.actuation(self@.policy, is_dismissed),
        opens_invariants none
    {
        // if stage is dismissed, return early
        if !matches!(prev_state, StageState::Teardown(_)) && is_dismissed {
            return Actuation::Settled(StageEvent::Dismissed);
        }
        match prev_state {
            StageState::Bootstrap(retry) => self.bootstrap(retry),
            StageState::Scheduling(retry) => self.schedule(retry),
            StageState::Executing(unit, retry) => self.execute(unit, retry),
            StageState::Teardown(retry) => self.teardown(retry),
            StageState::Ended => vstd::pervasive::unreached(),
        }
    }

    /// What a stage does in its next turn. Whether it is dismissed is up to
    /// those who hold the anchor.
    pub fn actuate(&self, prev_state: StageState<W>) -> (actuation: Actuation<W>)
        requires
            prev_state !is Ended,
        ensures
            exists|dismissed: bool| #[trigger]
                self@.anchor.shows_dismissed(dismissed) && Some(actuation)
                    == prev_state.actuation(self@.policy, dismissed),
        opens_invariants none
    {
        let is_dismissed: bool = self.anchor.is_dismissed();
        assert(self@.anchor.shows_dismissed(is_dismissed));
        self.actuate_given(prev_state, is_dismissed)
    }

    /// The state that follows an event.
    pub fn apply(&self, event: StageEvent<W>) -> (state: StageState<W>)
        ensures
            state == event.next_state(),
        opens_invariants none
    {
        match event {
            StageEvent::BootstrapOk => StageState::Scheduling(Retry::new()),
            StageEvent::BootstrapError(err, retry) => match err {
                Error::ShouldRestart => StageState::Bootstrap(retry.next()),
                Error::RetryableError => StageState::Bootstrap(retry.next()),
                Error::DismissableError => StageState::Scheduling(Retry::new()),
                _ => StageState::Teardown(Retry::new()),
            },
            StageEvent::NextUnit(u) => StageState::Executing(u, Retry::new()),
            StageEvent::WorkerIdle => StageState::Scheduling(Retry::new()),
            StageEvent::ScheduleError(err, retry) => match err {
                Error::ShouldRestart => StageState::Bootstrap(Retry::new()),
                Error::RetryableError => StageState::Scheduling(retry.next()),
                Error::DismissableError => StageState::Scheduling(Retry::new()),
                _ => StageState::Teardown(Retry::new()),
            },
            StageEvent::ExecuteOk => StageState::Scheduling(Retry::new()),
            StageEvent::ExecuteError(unit, err, retry) => match err {
                Error::RetryableError => StageState::Executing(unit, retry.next()),
                Error::DismissableError => StageState::Scheduling(Retry::new()),
                Error::ShouldRestart => StageState::Bootstrap(Retry::new()),
                _ => StageState::Teardown(Retry::new()),
            },
            StageEvent::WorkerDone => StageState::Teardown(Retry::new()),
            StageEvent::MessagingError => StageState::Teardown(Retry::new()),
            StageEvent::Dismissed => StageState::Teardown(Retry::new()),
            StageEvent::TeardownOk => StageState::Ended,
            StageEvent::TeardownError(err, retry) => match err {
                Error::RetryableError => StageState::Teardown(retry.next()),
                _ => StageState::Ended,
            },
        }
    }

    /// Begins a turn and says what is to be done in it. A stage that has ended
    /// takes no turn and stays as it is.
    pub fn begin_transition(&mut self) -> (turn: Option<Turn<W>>)
        requires
            old(self)@.state is Some,
        ensures
            ({
                let state = old(self)@.state->0;
                let policy = old(self)@.policy;
                match turn {
                    None => state is Ended && final(self)@ == old(self)@,
                    Some(turn) => {
                        &&& state !is Ended
                        &&& turn.prev_phase == state.phase()
                        &&& exists|dismissed: bool| #[trigger]
                            old(self)@.anchor.shows_dismissed(dismissed) && Some(turn.actuation)
                                == state.actuation(policy, dismissed)
                        &&& final(self)@ == (MachineView { state: None, ..old(self)@ })
                    },
                }
            }),
        opens_invariants none
    {
        let mut taken: Option<StageState<W>> = None;
        std::mem::swap(&mut self.state, &mut taken);
        let prev_state: StageState<W> = match taken {
            Some(state) => state,
            None => vstd::pervasive::unreached(),
        };
        let prev_phase: StagePhase = prev_state.shown_phase();
        if prev_phase == StagePhase::Ended {
            self.state = Some(prev_state);
            return None;
        }
        let actuation: Actuation<W> = self.actuate(prev_state);
        Some(Turn { prev_phase, actuation })
    }

    /// Ends a turn with what came out of it. The count of turns wraps around.
    ///
    /// The new phase and the moment are left in the anchor for the tether to see,
    /// and a turn hands over nothing else. The anchor's cells are shared, so what they hold later on is not stated.
    pub fn finish_transition(&mut self, prev_phase: StagePhase, event: StageEvent<W>) -> (done:
        Transition)
        ensures
            done.prev_phase == prev_phase,
            done.next_phase == event.next_state().phase(),
            done.switched == (prev_phase != done.next_phase),
            final(self)@.state == Some(event.next_state()),
            final(self)@.tick_count == (old(self)@.tick_count + 1) % 0x1_0000_0000_0000_0000,
            final(self)@ == (MachineView {
                state: final(self)@.state,
                tick_count: final(self)@.tick_count,
                ..old(self)@
            }),
            final(self)@.anchor.was_told(event.next_state().phase()),
            final(self)@.in_step(),
        opens_invariants old(self)@.anchor@.turn_marks(event.next_state().phase())
    {
        let next_state: StageState<W> = self.apply(event);
        let next_phase: StagePhase = next_state.shown_phase();
        self.state = Some(next_state);
        self.tick_count = if self.tick_count < u64::MAX {
            self.tick_count + 1
        } else {
            0
        };
        self.anchor.tell(next_phase);
        Transition { prev_phase, next_phase, switched: prev_phase != next_phase }
    }
}

} // verus!
