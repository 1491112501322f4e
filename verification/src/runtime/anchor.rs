//! What the thread of a stage shares with its tether.
use crate::metrics::Registry;
use crate::retries::Nanos;
use crate::runtime::handles::{
    first_phase, mark_of, moment_cell, nanos_since, opening_value, phase_cell, watch_channel,
    watched_value,
};
use crate::runtime::stage::StagePhase;
use crossbeam::atomic::AtomicCell;
use std::time::Instant;
use tokio::sync::watch;
use vstd::prelude::*;

verus! {

/// Sentinel object that lives within the thread of the stage
pub struct Anchor {
    dismissed_rx: watch::Receiver<bool>,
    dismissed_tx: watch::Sender<bool>,
    last_state: AtomicCell<StagePhase>,
    last_tick: AtomicCell<Instant>,
    metrics: Registry,
}

/// What is fixed about an anchor from the start. What its cells and its channel
/// hold later on is up to the threads that share it.
pub struct AnchorView {
    pub metrics: Registry,
    /// The phase that it showed when it was made.
    pub first_phase: StagePhase,
    /// Whether it was dismissed when it was made, provided that dismissals are
    /// sent to where they are looked for.
    pub born_dismissed: Option<bool>,
    /// Where the moment of the last turn is kept.
    pub last_tick: AtomicCell<Instant>,
    /// Where the phase that the last turn led to is kept.
    pub last_state: AtomicCell<StagePhase>,
    /// Where dismissals are sent.
    pub dismissed_tx: watch::Sender<bool>,
    /// Where dismissals are looked for.
    pub dismissed_rx: watch::Receiver<bool>,
}

impl AnchorView {
    /// What a turn that led to `phase` may hand over: the phase, to the phase cell,
    /// and readings of the clock, to the tick cell.
    pub open spec fn turn_marks(self, phase: StagePhase) -> Set<int> {
        Set::new(
            |mark: int|
                mark == mark_of(self.last_state, phase) || exists|now: Instant|
                    call_ensures(Instant::now, (), now) && mark == #[trigger] mark_of(
                        self.last_tick,
                        now,
                    ),
        )
    }
}

impl View for Anchor {
    type V = AnchorView;

    closed spec fn view(&self) -> AnchorView {
        AnchorView {
            metrics: self.metrics,
            first_phase: first_phase(self.last_state),
            born_dismissed: opening_value(self.dismissed_tx, self.dismissed_rx),
            last_tick: self.last_tick,
            last_state: self.last_state,
            dismissed_tx: self.dismissed_tx,
            dismissed_rx: self.dismissed_rx,
        }
    }
}

/// Whether a cell was made with a reading of the clock.
pub closed spec fn made_with_clock_reading(cell: AtomicCell<Instant>) -> bool {
    exists|now: Instant|
        call_ensures(Instant::now, (), now) && #[trigger] call_ensures(moment_cell, (now,), cell)
}

impl Anchor {
    /// The anchor of a stage that is about to start.
    pub fn new(metrics: Registry) -> (anchor: Anchor)
        ensures
            anchor@ == (AnchorView {
                metrics,
                first_phase: StagePhase::Bootstrap,
                born_dismissed: Some(false),
                last_tick: anchor@.last_tick,
                last_state: anchor@.last_state,
                dismissed_tx: anchor@.dismissed_tx,
                dismissed_rx: anchor@.dismissed_rx,
            }),
            made_with_clock_reading(anchor@.last_tick),
        opens_invariants none
    {
        let (dismissed_tx, dismissed_rx) = watch_channel(false);
        let now: Instant = Instant::now();
        Anchor {
            dismissed_rx,
            dismissed_tx,
            last_tick: moment_cell(now),
            last_state: phase_cell(StagePhase::Bootstrap),
            metrics,
        }
    }

    /// The metrics of the stage.
    pub fn metrics(&self) -> (metrics: &Registry)
        ensures
            *metrics == self@.metrics,
        opens_invariants none
    {
        &self.metrics
    }

    /// The channel end on which a dismissal of this stage shows.
    pub closed spec fn receiver(&self) -> watch::Receiver<bool> {
        self.dismissed_rx
    }

    /// Where to wait for the dismissal of the stage.
    pub fn dismissal(&self) -> (receiver: &watch::Receiver<bool>)
        ensures
            *receiver == self.receiver(),
            *receiver == self@.dismissed_rx,
        opens_invariants none
    {
        &self.dismissed_rx
    }

    /// Whether `true` was sent on the channel of this anchor.
    pub closed spec fn was_sent_dismissal(&self) -> bool {
        exists|sent: Result<(), watch::error::SendError<bool>>|
            call_ensures(watch::Sender::<bool>::send, (&self.dismissed_tx, true), sent)
    }

    /// Sends the dismissal. Nothing else is ever sent on the channel, so a dismissal
    /// cannot be called back.
    pub(crate) fn dismiss(&self)
        ensures
            self.was_sent_dismissal(),
        opens_invariants [ mark_of(self@.dismissed_tx, true) ]
    {
        let _ = self.dismissed_tx.send(true);
    }

    /// Whether a look at the channel of this anchor gave `dismissed`.
    pub closed spec fn shows_dismissed(&self, dismissed: bool) -> bool {
        call_ensures(watched_value, (&self.dismissed_rx,), dismissed)
    }

    /// Looks for a dismissal.
    pub(crate) fn is_dismissed(&self) -> (dismissed: bool)
        ensures
            self.shows_dismissed(dismissed),
        opens_invariants none
    {
        watched_value(&self.dismissed_rx)
    }

    /// Whether `phase` was stored in this anchor's phase cell, and a reading of
    /// the clock in its tick cell.
    pub closed spec fn was_told(&self, phase: StagePhase) -> bool {
        &&& call_ensures(AtomicCell::<StagePhase>::store, (&self.last_state, phase), ())
        &&& exists|now: Instant|
            call_ensures(Instant::now, (), now) && #[trigger] call_ensures(
                AtomicCell::<Instant>::store,
                (&self.last_tick, now),
                (),
            )
    }

    /// Leaves the phase and the moment for the tether to see. Nothing else is ever
    /// stored in the two cells.
    pub(crate) fn tell(&self, phase: StagePhase)
        ensures
            self.was_told(phase),
        opens_invariants self@.turn_marks(phase)
    {
        self.last_state.store(phase);
        let now: Instant = Instant::now();
        self.last_tick.store(now);
    }

    /// Whether a look at this anchor's phase cell gave `phase`, and `idle` is the
    /// time that had passed since the moment that its tick cell gave.
    pub closed spec fn shows(&self, phase: StagePhase, idle: Nanos) -> bool {
        &&& call_ensures(AtomicCell::<StagePhase>::load, (&self.last_state,), phase)
        &&& exists|tick: Instant|
            call_ensures(AtomicCell::<Instant>::load, (&self.last_tick,), tick)
                && #[trigger] call_ensures(nanos_since, (&tick,), idle)
    }

    /// Looks at the phase and at how long ago the last turn was.
    pub(crate) fn look(&self) -> (seen: (StagePhase, Nanos))
        ensures
            self.shows(seen.0, seen.1),
        opens_invariants none
    {
        let phase: StagePhase = self.last_state.load();
        let tick: Instant = self.last_tick.load();
        let idle: Nanos = nanos_since(&tick);
        (phase, idle)
    }

    /// What is said of an anchor is said of the calls that were made on its own
    /// cells and its own channel: a dismissal is a `true` that was sent, a look at
    /// the phase is a load, and the idle time is measured from a loaded tick.
    pub(crate) proof fn facts_are_calls(&self, dismissed: bool, phase: StagePhase, idle: Nanos)
        ensures
            self.was_sent_dismissal() <==> exists|sent: Result<(), watch::error::SendError<bool>>|
                call_ensures(watch::Sender::<bool>::send, (&self@.dismissed_tx, true), sent),
            self.shows_dismissed(dismissed) <==> call_ensures(
                watched_value,
                (&self@.dismissed_rx,),
                dismissed,
            ),
            self.shows(phase, idle) ==> call_ensures(
                AtomicCell::<StagePhase>::load,
                (&self@.last_state,),
                phase,
            ),
            self.shows(phase, idle) ==> exists|tick: Instant|
                call_ensures(AtomicCell::<Instant>::load, (&self@.last_tick,), tick)
                    && #[trigger] call_ensures(nanos_since, (&tick,), idle),
            self.receiver() == self@.dismissed_rx,
    {
    }

    /// A turn leaves its mark in both cells: the phase that it led to was stored in
    /// the one, and a reading of the clock in the other.
    pub proof fn telling_stores_phase_and_tick(&self, phase: StagePhase)
        requires
            self.was_told(phase),
        ensures
            call_ensures(AtomicCell::<StagePhase>::store, (&self@.last_state, phase), ()),
            exists|now: Instant|
                call_ensures(Instant::now, (), now) && #[trigger] call_ensures(
                    AtomicCell::<Instant>::store,
                    (&self@.last_tick, now),
                    (),
                ),
    {
        let now = choose|now: Instant|
            call_ensures(Instant::now, (), now) && #[trigger] call_ensures(
                AtomicCell::<Instant>::store,
                (&self.last_tick, now),
                (),
            );
        assert(call_ensures(AtomicCell::<Instant>::store, (&self@.last_tick, now), ()));
    }
}

/// A cell that was made with a clock reading was made with what the clock gave.
pub(crate) proof fn first_tick_is_a_clock_reading(cell: AtomicCell<Instant>)
    requires
        made_with_clock_reading(cell),
    ensures
        exists|now: Instant|
            call_ensures(Instant::now, (), now) && #[trigger] call_ensures(
                moment_cell,
                (now,),
                cell,
            ),
{
}

/// Whatever a turn hands over is the phase that it led to, in the phase cell, or a
/// reading of the clock, in the tick cell. So these are what the two cells were left
/// with, in whatever order and however often they were stored.
pub proof fn turn_hands_over_phase_and_tick(anchor: AnchorView, phase: StagePhase, mark: int)
    requires
        anchor.turn_marks(phase).contains(mark),
    ensures
        mark == mark_of(anchor.last_state, phase) || exists|now: Instant|
            call_ensures(Instant::now, (), now) && mark == #[trigger] mark_of(
                anchor.last_tick,
                now,
            ),
{
}

} // verus!
