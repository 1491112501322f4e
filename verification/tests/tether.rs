use crossbeam::utils::Backoff;
use gasket::error::Error;
use gasket::metrics::{Counter, Registry};
use gasket::retries::Retry;
use gasket::runtime::{
    anchor_or_dropped, prepare_stage, Actuation, Policy, StageEvent, StageMachine, StagePhase, Tether,
    TetherState, WorkSchedule, Worker,
};
use std::sync::atomic::Ordering;
use std::sync::Arc;

struct Ticker {
    ticks: Counter,
}

impl Worker for Ticker {
    type WorkUnit = ();

    fn metrics(&self) -> Registry {
        let mut registry = Registry::new();
        registry.track_counter("ticks", &self.ticks);
        registry.track_counter("idle", &Counter::default());
        registry
    }
}

fn ticker() -> Ticker {
    Ticker { ticks: Counter::default() }
}

fn stage(tick_timeout: Option<u128>) -> (StageMachine<Ticker>, Tether) {
    let worker = ticker();
    let policy = Policy { tick_timeout, ..Policy::default() };
    let (setup, tether) = prepare_stage(&worker, policy, Some("ticker"));
    (setup.into_machine(worker), tether)
}

/// One turn in which the worker has nothing to do and nothing fails.
fn idle_turn(machine: &mut StageMachine<Ticker>) -> Option<StagePhase> {
    let turn = machine.begin_transition()?;
    let event = match turn.actuation {
        Actuation::Settled(event) => event,
        Actuation::Bootstrap(attempt) => StageEvent::of_bootstrap(attempt, Ok(())),
        Actuation::Schedule(attempt) => {
            StageEvent::of_schedule(attempt, Ok(WorkSchedule::Idle))
        }
        Actuation::Execute(unit, attempt) => StageEvent::of_execute(unit, attempt, Ok(())),
        Actuation::Teardown(attempt) => StageEvent::of_teardown(attempt, Ok(())),
    };
    Some(machine.finish_transition(turn.prev_phase, event).next_phase)
}

#[test]
fn stages_have_names() {
    let (machine, tether) = stage(None);
    assert_eq!(tether.name(), "ticker");
    assert_eq!(machine.name(), "ticker");
    let (_, unnamed) = prepare_stage(&ticker(), Policy::default(), None);
    assert_eq!(unnamed.name(), "un-named stage");
}

#[test]
fn a_new_stage_is_alive_in_bootstrap() {
    let (_machine, tether) = stage(None);
    assert_eq!(tether.check_state(), TetherState::Alive(StagePhase::Bootstrap));
}

#[test]
fn each_turn_shows_on_the_tether() {
    let (mut machine, tether) = stage(Some(u128::MAX));
    assert_eq!(idle_turn(&mut machine), Some(StagePhase::Working));
    assert_eq!(tether.check_state(), TetherState::Alive(StagePhase::Working));
    assert_eq!(idle_turn(&mut machine), Some(StagePhase::Working));
    assert_eq!(tether.dismiss_stage(), Ok(()));
    assert_eq!(idle_turn(&mut machine), Some(StagePhase::Teardown));
    assert_eq!(tether.check_state(), TetherState::Alive(StagePhase::Teardown));
    assert_eq!(idle_turn(&mut machine), Some(StagePhase::Ended));
    assert_eq!(tether.check_state(), TetherState::Alive(StagePhase::Ended));
    assert_eq!(idle_turn(&mut machine), None);
}

#[test]
fn a_dismissed_stage_ends() {
    let (mut machine, tether) = stage(None);
    assert_eq!(tether.dismiss_stage(), Ok(()));
    assert!(matches!(
        machine.actuate(gasket::runtime::StageState::Scheduling(Retry::new())),
        Actuation::Settled(StageEvent::Dismissed)
    ));
    assert_eq!(idle_turn(&mut machine), Some(StagePhase::Teardown));
    assert_eq!(idle_turn(&mut machine), Some(StagePhase::Ended));
    assert_eq!(idle_turn(&mut machine), None);
}

#[test]
fn a_dropped_stage_leaves_its_tether() {
    let (machine, tether) = stage(None);
    drop(machine);
    assert_eq!(tether.check_state(), TetherState::Dropped);
    assert_eq!(tether.dismiss_stage(), Err(Error::TetherDropped));
    assert_eq!(tether.read_metrics(), Err(Error::TetherDropped));
    assert!(matches!(tether.try_anchor(), Err(Error::TetherDropped)));
}

#[test]
fn a_live_stage_is_found() {
    let (machine, tether) = stage(None);
    let found = tether.try_anchor().ok().unwrap();
    assert!(Arc::ptr_eq(&found, machine.anchor()));
    let same = anchor_or_dropped(Some(found)).ok().unwrap();
    assert!(Arc::ptr_eq(&same, machine.anchor()));
    assert!(matches!(anchor_or_dropped(None), Err(Error::TetherDropped)));
}

#[test]
fn a_tether_keeps_to_its_own_stage() {
    let (mut one, tether_one) = stage(None);
    let (mut two, tether_two) = stage(None);
    assert_eq!(tether_one.dismiss_stage(), Ok(()));
    assert_eq!(idle_turn(&mut one), Some(StagePhase::Teardown));
    assert_eq!(idle_turn(&mut two), Some(StagePhase::Working));
    assert_eq!(tether_one.check_state(), TetherState::Alive(StagePhase::Teardown));
    assert_eq!(tether_two.check_state(), TetherState::Alive(StagePhase::Working));
    drop(one);
    assert_eq!(tether_one.check_state(), TetherState::Dropped);
    assert_eq!(tether_two.check_state(), TetherState::Alive(StagePhase::Working));
}

#[test]
fn a_tether_does_not_keep_its_stage_alive() {
    let (setup, tether) = prepare_stage(&ticker(), Policy::default(), None);
    assert_eq!(tether.check_state(), TetherState::Alive(StagePhase::Bootstrap));
    let machine = setup.into_machine(ticker());
    assert_eq!(machine.name(), "un-named stage");
    assert_eq!(tether.check_state(), TetherState::Alive(StagePhase::Bootstrap));
    drop(machine);
    assert_eq!(tether.check_state(), TetherState::Dropped);
}

#[test]
fn a_stage_without_turns_becomes_blocked() {
    let (_machine, tether) = stage(Some(0));
    let mut state = tether.check_state();
    while state == TetherState::Alive(StagePhase::Bootstrap) {
        state = tether.check_state();
    }
    assert_eq!(state, TetherState::Blocked(StagePhase::Bootstrap));
}

#[test]
fn only_a_longer_idle_time_blocks() {
    let (_machine, tether) = stage(Some(50));
    let phase = StagePhase::Working;
    assert_eq!(tether.observed_state(phase, 50), TetherState::Alive(phase));
    assert_eq!(tether.observed_state(phase, 51), TetherState::Blocked(phase));
    let (_machine, patient) = stage(None);
    assert_eq!(patient.observed_state(phase, u128::MAX), TetherState::Alive(phase));
}

#[test]
fn waiting_ends_in_the_expected_state() {
    let (mut machine, tether) = stage(None);
    let backoff = Backoff::new();
    let working = TetherState::Alive(StagePhase::Working);
    assert!(!tether.wait_round(&working, &backoff));
    assert!(!tether.wait_round(&TetherState::Dropped, &backoff));
    idle_turn(&mut machine);
    assert!(tether.wait_round(&working, &backoff));
    drop(machine);
    assert!(tether.wait_round(&TetherState::Dropped, &backoff));
}

#[test]
fn metrics_are_read_in_order() {
    let (mut machine, tether) = stage(None);
    machine.worker_mut().ticks.fetch_add(3, Ordering::Relaxed);
    let readings = tether.read_metrics().unwrap();
    assert_eq!(readings, vec![("ticks".to_string(), 3), ("idle".to_string(), 0)]);
}

#[test]
fn the_dismissal_shows_on_the_receiver() {
    let (machine, tether) = stage(None);
    assert!(!*machine.anchor().dismissal().borrow());
    assert_eq!(tether.dismiss_stage(), Ok(()));
    assert!(*machine.anchor().dismissal().borrow());
    assert_eq!(machine.anchor().metrics().counters.len(), 2);
}

#[test]
fn a_dismissal_can_be_repeated() {
    let (mut machine, tether) = stage(None);
    assert_eq!(tether.dismiss_stage(), Ok(()));
    assert_eq!(tether.dismiss_stage(), Ok(()));
    assert!(*machine.anchor().dismissal().borrow());
    assert_eq!(idle_turn(&mut machine), Some(StagePhase::Teardown));
    assert_eq!(tether.dismiss_stage(), Ok(()));
    assert_eq!(idle_turn(&mut machine), Some(StagePhase::Ended));
}

#[test]
fn a_turn_resets_the_idle_time() {
    let (mut machine, tether) = stage(Some(5_000_000));
    let blocked = TetherState::Blocked(StagePhase::Bootstrap);
    let backoff = Backoff::new();
    while !tether.wait_round(&blocked, &backoff) {}
    assert_eq!(idle_turn(&mut machine), Some(StagePhase::Working));
    let mut looks = 0;
    while looks < 100 && !tether.wait_round(
        &TetherState::Alive(StagePhase::Working),
        &backoff,
    ) {
        idle_turn(&mut machine);
        looks += 1;
    }
    assert!(looks < 100);
}

#[test]
fn dropped_is_final() {
    let (machine, tether) = stage(Some(0));
    drop(machine);
    for _ in 0..3 {
        assert_eq!(tether.check_state(), TetherState::Dropped);
        assert_eq!(tether.dismiss_stage(), Err(Error::TetherDropped));
        assert_eq!(tether.read_metrics(), Err(Error::TetherDropped));
    }
}

#[test]
fn a_default_registry_tracks_nothing() {
    assert!(Registry::default().counters.is_empty());
    assert!(Registry::new().counters.is_empty());
}
