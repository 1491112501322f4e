//! The outside view of a running stage.
use crate::error::Error;
use crate::metrics::{collect_readings, taken_of, Readings, Registry};
use crate::retries::{Nanos, Retry};
use crate::runtime::anchor::{made_with_clock_reading, Anchor};
use crate::runtime::handles::{anchor_behind, downgraded, mark_of, upgraded, AnchorRef};
use crate::runtime::machine::{MachineView, StageMachine};
use crate::runtime::policy::Policy;
use crate::runtime::stage::{StagePhase, StageState, Worker};
use crossbeam::utils::Backoff;
use std::sync::Arc;
use vstd::prelude::*;

verus! {

/// What a tether can tell of its stage.
#[derive(Clone, Copy, Debug, PartialEq, Eq, Structural)]
pub enum TetherState {
    /// The stage is gone.
    Dropped,
    /// The stage has gone without a turn for longer than its policy allows.
    Blocked(StagePhase),
    Alive(StagePhase),
}

impl TetherState {
    /// The state of a stage that is still there, from the phase it showed last,
    /// the time since its last turn, and the time it may go without one.
    pub open spec fn of_stage(phase: StagePhase, idle: Nanos, timeout: Option<Nanos>) -> TetherState {
        match timeout {
            Some(limit) if idle > limit => TetherState::Blocked(phase),
            _ => TetherState::Alive(phase),
        }
    }
}

/// The handle by which a running stage is watched and dismissed. It does not keep
/// the stage alive: once the thread of the stage is over, the anchor is gone.
pub struct Tether {
    name: String,
    anchor_ref: AnchorRef,
    policy: Policy,
}

/// The stage behind a tether: its name, the anchor that it was made with, and its
/// policy.
pub struct TetherView {
    pub name: Seq<char>,
    pub anchor: Arc<Anchor>,
    pub policy: Policy,
}

impl View for Tether {
    type V = TetherView;

    closed spec fn view(&self) -> TetherView {
        TetherView {
            name: self.name@,
            anchor: anchor_behind(self.anchor_ref),
            policy: self.policy,
        }
    }
}

impl TetherView {
    /// Whether `state` is what a look at the stage gives: dropped exactly where it
    /// is not there any more, and otherwise as its own anchor shows it.
    pub open spec fn state_answer(self, is_there: bool, state: TetherState) -> bool {
        if is_there {
            exists|phase: StagePhase, idle: Nanos| #[trigger]
                self.anchor.shows(phase, idle) && state == TetherState::of_stage(
                    phase,
                    idle,
                    self.policy.tick_timeout,
                )
        } else {
            state == TetherState::Dropped
        }
    }

    /// Whether `answer` is what a dismissal of the stage is answered: it succeeds
    /// exactly where the stage is there, and then the dismissal was sent to it.
    pub open spec fn dismissal_answer(self, is_there: bool, answer: Result<(), Error>) -> bool {
        if is_there {
            answer == Ok::<(), Error>(()) && self.anchor.was_sent_dismissal()
        } else {
            answer == Err::<(), Error>(Error::TetherDropped)
        }
    }

    /// Whether `answer` is what a request for metrics is answered: readings
    /// exactly where the stage is there, and then taken of its own registry.
    pub open spec fn metrics_answer(self, is_there: bool, answer: Result<Readings, Error>) -> bool {
        if is_there {
            answer matches Ok(readings) && taken_of(readings@, self.anchor@.metrics)
        } else {
            answer == Err::<Readings, Error>(Error::TetherDropped)
        }
    }
}

/// The anchor that was found behind a weak reference, or the error where there was
/// none.
pub fn anchor_or_dropped(upgraded: Option<Arc<Anchor>>) -> (anchor: Result<Arc<Anchor>, Error>)
    ensures
        match upgraded {
            Some(found) => anchor == Ok::<Arc<Anchor>, Error>(found),
            None => anchor == Err::<Arc<Anchor>, Error>(Error::TetherDropped),
        },
    opens_invariants none
{
    match upgraded {
        Some(anchor) => Ok(anchor),
        None => Err(Error::TetherDropped),
    }
}

impl Tether {
    /// The tether to the stage that `anchor` belongs to.
    fn new(name: String, anchor: &Arc<Anchor>, policy: Policy) -> (tether: Tether)
        ensures
            tether@ == (TetherView { name: name@, anchor: *anchor, policy }),
        opens_invariants none
    {
        Tether { name, anchor_ref: downgraded(anchor), policy }
    }

    /// Whether an upgrade of the tether's own reference gave an anchor (`true`) or
    /// nothing (`false`).
    pub closed spec fn found_stage(&self, is_there: bool) -> bool {
        exists|anchor: Option<Arc<Anchor>>| #[trigger]
            call_ensures(upgraded, (&self.anchor_ref,), anchor) && (anchor is Some) == is_there
    }

    /// The reference by which the tether finds the stage.
    pub(crate) closed spec fn reference(&self) -> AnchorRef {
        self.anchor_ref
    }

    /// Whether the stage is there is what an upgrade of the tether's own reference
    /// gave, and that reference is to the anchor that the tether was made with.
    pub(crate) proof fn finding_is_upgrading(&self, is_there: bool)
        ensures
            self.found_stage(is_there) <==> exists|anchor: Option<Arc<Anchor>>| #[trigger]
                call_ensures(upgraded, (&self.reference(),), anchor) && (anchor is Some)
                    == is_there,
            anchor_behind(self.reference()) == self@.anchor,
    {
    }

    /// The name of the stage.
    pub fn name(&self) -> (name: &str)
        ensures
            name@ == self@.name,
    {
        self.name.as_str()
    }

    /// The anchor of the stage, if the stage is still there. It is the one that
    /// the tether was made with.
    pub fn try_anchor(&self) -> (anchor: Result<Arc<Anchor>, Error>)
        ensures
            self.found_stage(anchor is Ok),
            match anchor {
                Ok(found) => found == self@.anchor,
                Err(err) => err == Error::TetherDropped,
            },
        opens_invariants none
    {
        anchor_or_dropped(upgraded(&self.anchor_ref))
    }

    /// Asks the stage to tear itself down, if it is still there. The stage finds
    /// the dismissal on the anchor's channel, which is shared, so what a later
    /// look at the channel gives is not stated.
    pub fn dismiss_stage(&self) -> (answer: Result<(), Error>)
        ensures
            exists|is_there: bool| #[trigger]
                self.found_stage(is_there) && self@.dismissal_answer(is_there, answer),
        opens_invariants [ mark_of(self@.anchor@.dismissed_tx, true) ]
    {
        match self.try_anchor() {
            Ok(anchor) => {
                anchor.dismiss();
                Ok(())
            },
            Err(err) => Err(err),
        }
    }

    /// The state of a stage that is still there, given what its anchor showed.
    pub fn observed_state(&self, last_phase: StagePhase, idle: Nanos) -> (state: TetherState)
        ensures
            state == TetherState::of_stage(last_phase, idle, self@.policy.tick_timeout),
        opens_invariants none
    {
        if let Some(timeout) = &self.policy.tick_timeout {
            if idle > *timeout {
                TetherState::Blocked(last_phase)
            } else {
                TetherState::Alive(last_phase)
            }
        } else {
            TetherState::Alive(last_phase)
        }
    }

    /// The state of the stage. The phase and the idle time are what its anchor
    /// shows at that moment.
    pub fn check_state(&self) -> (state: TetherState)
        ensures
            exists|is_there: bool| #[trigger]
                self.found_stage(is_there) && self@.state_answer(is_there, state),
        opens_invariants none
    {
        match self.try_anchor() {
            Err(_) => TetherState::Dropped,
            Ok(anchor) => {
                let (last_phase, idle) = anchor.look();
                self.observed_state(last_phase, idle)
            },
        }
    }

    /// One look at the stage on the way to an expected state: whether it is
    /// there. Where it is not, the calling thread pauses for a moment.
    pub fn wait_round(&self, expected: &TetherState, backoff: &Backoff) -> (reached: bool)
        ensures
            exists|is_there: bool, state: TetherState|
                #![trigger self.found_stage(is_there), self@.state_answer(is_there, state)]
                self.found_stage(is_there) && self@.state_answer(is_there, state) && reached == (
                state == *expected),
            !reached ==> call_ensures(Backoff::snooze, (backoff,), ()),
        opens_invariants none
    {
        let state: TetherState = self.check_state();
        let reached: bool = state == *expected;
        if !reached {
            backoff.snooze();
        }
        reached
    }

    /// What the counters of the stage show, if it is still there.
    pub fn read_metrics(&self) -> (answer: Result<Readings, Error>)
        ensures
            exists|is_there: bool| #[trigger]
                self.found_stage(is_there) && self@.metrics_answer(is_there, answer),
    {
        match self.try_anchor() {
            Ok(anchor) => {
                let readings: Readings = collect_readings(anchor.metrics());
                Ok(readings)
            },
            Err(err) => Err(err),
        }
    }
}

/// A stage that has its tether but no machine yet. It is what the thread of the
/// stage starts from.
pub struct StageSetup {
    anchor: Arc<Anchor>,
    policy: Policy,
    name: String,
}

impl View for StageSetup {
    type V = TetherView;

    closed spec fn view(&self) -> TetherView {
        TetherView { name: self.name@, anchor: self.anchor, policy: self.policy }
    }
}

impl StageSetup {
    /// The machine of the stage, about to bootstrap `worker`.
    pub fn into_machine<W>(self, worker: W) -> (machine: StageMachine<W>) where W: Worker
        ensures
            machine@ == (MachineView {
                state: Some(StageState::Bootstrap(Retry::new())),
                anchor: self@.anchor,
                policy: self@.policy,
                name: self@.name,
                tick_count: 0,
                worker,
            }),
            self@.anchor@.first_phase == StagePhase::Bootstrap ==> machine@.in_step(),
        opens_invariants none
    {
        StageMachine::new(self.anchor, worker, self.policy, self.name)
    }
}

/// A new stage and the tether to it: the two share the anchor, the name and the
/// policy. A stage without a name is called an un-named stage.
pub fn prepare_stage<W>(worker: &W, policy: Policy, name: Option<&str>) -> (stage: (
    StageSetup,
    Tether,
)) where W: Worker
    ensures
        stage.0@ == stage.1@,
        stage.1@.name == (match name {
            Some(given) => given@,
            None => "un-named stage"@,
        }),
        stage.1@.policy == policy,
        call_ensures(W::metrics, (worker,), stage.1@.anchor@.metrics),
        stage.1@.anchor@.first_phase == StagePhase::Bootstrap,
        stage.1@.anchor@.born_dismissed == Some(false),
        made_with_clock_reading(stage.1@.anchor@.last_tick),
{
    let name: String = match name {
        Some(x) => x.to_owned(),
        None => "un-named stage".to_owned(),
    };
    let metrics: Registry = worker.metrics();
    let anchor: Arc<Anchor> = Arc::new(Anchor::new(metrics));
    let tether: Tether = Tether::new(name.clone(), &anchor, policy);
    (StageSetup { anchor, policy, name }, tether)
}

} // verus!
