use gasket::error::Error;
use gasket::metrics::Registry;
use gasket::retries::{Policy as RetryPolicy, Retry};
use gasket::runtime::{
    Actuation, Anchor, Attempt, Policy, StageEvent, StageMachine, StagePhase, StageState, Transition,
    WorkSchedule, Worker,
};
use std::sync::Arc;

/// A worker that replies by script and keeps a list of what was asked of it.
struct Scripted {
    bootstraps: Vec<Result<(), Error>>,
    schedules: Vec<Result<WorkSchedule<u32>, Error>>,
    executions: Vec<Result<(), Error>>,
    teardowns: Vec<Result<(), Error>>,
    calls: Vec<String>,
}

impl Worker for Scripted {
    type WorkUnit = u32;

    fn metrics(&self) -> Registry {
        Registry::new()
    }
}

fn scripted() -> Scripted {
    Scripted {
        bootstraps: vec![],
        schedules: vec![],
        executions: vec![],
        teardowns: vec![],
        calls: vec![],
    }
}

/// The next reply of a script, or the last resort once the script is over.
fn reply<T>(script: &mut Vec<T>, otherwise: T) -> T {
    if script.is_empty() {
        otherwise
    } else {
        script.remove(0)
    }
}

fn turn(machine: &mut StageMachine<Scripted>) -> Option<Transition> {
    let turn = machine.begin_transition()?;
    assert!(machine.in_turn());
    let worker = machine.worker_mut();
    let event = match turn.actuation {
        Actuation::Settled(event) => event,
        Actuation::Bootstrap(attempt) => {
            worker.calls.push(format!("bootstrap {}", attempt.retry.failed));
            StageEvent::of_bootstrap(attempt, reply(&mut worker.bootstraps, Ok(())))
        }
        Actuation::Schedule(attempt) => {
            worker.calls.push(format!("schedule {}", attempt.retry.failed));
            StageEvent::of_schedule(attempt, reply(&mut worker.schedules, Ok(WorkSchedule::Done)))
        }
        Actuation::Execute(unit, attempt) => {
            worker.calls.push(format!("execute {} {}", unit, attempt.retry.failed));
            StageEvent::of_execute(unit, attempt, reply(&mut worker.executions, Ok(())))
        }
        Actuation::Teardown(attempt) => {
            worker.calls.push(format!("teardown {}", attempt.retry.failed));
            StageEvent::of_teardown(attempt, reply(&mut worker.teardowns, Ok(())))
        }
    };
    let done = machine.finish_transition(turn.prev_phase, event);
    assert!(!machine.in_turn());
    Some(done)
}

fn machine(worker: Scripted, policy: Policy) -> StageMachine<Scripted> {
    let anchor = Arc::new(Anchor::new(Registry::new()));
    StageMachine::new(anchor, worker, policy, "scripted".to_string())
}

/// Runs a stage to its end and gives the phases after each turn and the calls.
fn run(worker: Scripted, policy: Policy) -> (Vec<StagePhase>, Vec<String>) {
    let mut machine = machine(worker, policy);
    let mut phases = vec![];
    while let Some(done) = turn(&mut machine) {
        assert_eq!(done.switched, done.prev_phase != done.next_phase);
        phases.push(done.next_phase);
    }
    let calls = machine.worker_mut().calls.clone();
    (phases, calls)
}

fn retrying(max_retries: usize) -> RetryPolicy {
    RetryPolicy { max_retries, backoff_unit: 1, backoff_factor: 2, max_backoff: 100 }
}

fn lenient() -> Policy {
    Policy {
        tick_timeout: None,
        bootstrap_retry: retrying(1),
        work_retry: retrying(2),
        teardown_retry: retrying(3),
    }
}

fn attempt(failed: usize, backoff: RetryPolicy) -> Attempt {
    Attempt { retry: Retry { failed }, backoff }
}

#[test]
fn default_policy_never_retries() {
    let policy = Policy::default();
    assert_eq!(policy.tick_timeout, None);
    assert_eq!(policy.bootstrap_retry, RetryPolicy::no_retry());
    assert_eq!(policy.work_retry, RetryPolicy::no_retry());
    assert_eq!(policy.teardown_retry, RetryPolicy::no_retry());
}

#[test]
fn a_stage_works_until_its_worker_is_done() {
    let mut worker = scripted();
    worker.schedules =
        vec![Ok(WorkSchedule::Unit(5)), Ok(WorkSchedule::Idle), Ok(WorkSchedule::Unit(6))];
    let (phases, calls) = run(worker, Policy::default());
    assert_eq!(
        calls,
        vec![
            "bootstrap 0",
            "schedule 0",
            "execute 5 0",
            "schedule 0",
            "schedule 0",
            "execute 6 0",
            "schedule 0",
            "teardown 0",
        ]
    );
    assert_eq!(phases[0], StagePhase::Working);
    assert_eq!(phases[6], StagePhase::Teardown);
    assert_eq!(phases[7], StagePhase::Ended);
}

#[test]
fn an_ended_stage_takes_no_turn() {
    let mut machine = machine(scripted(), Policy::default());
    while turn(&mut machine).is_some() {}
    let calls = machine.worker_mut().calls.len();
    assert!(turn(&mut machine).is_none());
    assert!(!machine.in_turn());
    assert_eq!(machine.worker_mut().calls.len(), calls);
}

#[test]
fn a_failed_unit_is_executed_again_until_the_limit() {
    let mut worker = scripted();
    worker.schedules = vec![Ok(WorkSchedule::Unit(9))];
    worker.executions = vec![Err(Error::RetryableError); 10];
    let (phases, calls) = run(worker, lenient());
    assert_eq!(
        calls,
        vec!["bootstrap 0", "schedule 0", "execute 9 0", "execute 9 1", "execute 9 2", "teardown 0"]
    );
    assert_eq!(phases[4], StagePhase::Working);
    assert_eq!(phases[5], StagePhase::Teardown);
}

#[test]
fn a_restart_bootstraps_again() {
    let mut worker = scripted();
    worker.schedules = vec![
        Err(Error::RetryableError),
        Err(Error::ShouldRestart),
        Ok(WorkSchedule::Unit(3)),
    ];
    worker.executions = vec![Err(Error::ShouldRestart)];
    let (_, calls) = run(worker, lenient());
    assert_eq!(
        calls,
        vec![
            "bootstrap 0",
            "schedule 0",
            "schedule 1",
            "bootstrap 0",
            "schedule 0",
            "execute 3 0",
            "bootstrap 0",
            "schedule 0",
            "teardown 0",
        ]
    );
}

#[test]
fn a_bootstrap_that_keeps_failing_is_given_up() {
    let mut worker = scripted();
    worker.bootstraps = vec![Err(Error::ShouldRestart), Err(Error::RetryableError)];
    let (phases, calls) = run(worker, lenient());
    assert_eq!(calls, vec!["bootstrap 0", "bootstrap 1", "teardown 0"]);
    assert_eq!(
        phases,
        vec![
            StagePhase::Bootstrap,
            StagePhase::Bootstrap,
            StagePhase::Teardown,
            StagePhase::Ended
        ]
    );
}

#[test]
fn dismissable_errors_are_passed_over() {
    let mut worker = scripted();
    worker.bootstraps = vec![Err(Error::DismissableError)];
    worker.schedules = vec![Err(Error::DismissableError), Ok(WorkSchedule::Unit(1))];
    worker.executions = vec![Err(Error::DismissableError)];
    let (_, calls) = run(worker, Policy::default());
    assert_eq!(
        calls,
        vec!["bootstrap 0", "schedule 0", "schedule 0", "execute 1 0", "schedule 0", "teardown 0"]
    );
}

#[test]
fn a_teardown_ends_after_its_retries() {
    let mut worker = scripted();
    worker.teardowns = vec![Err(Error::RetryableError); 20];
    let (phases, calls) = run(worker, lenient());
    assert_eq!(
        calls,
        vec!["bootstrap 0", "schedule 0", "teardown 0", "teardown 1", "teardown 2", "teardown 3"]
    );
    assert_eq!(phases.len(), 7);
    assert_eq!(phases[5], StagePhase::Teardown);
    assert_eq!(phases[6], StagePhase::Ended);
}

#[test]
fn a_teardown_error_without_retry_ends_the_stage() {
    let mut worker = scripted();
    worker.teardowns = vec![Err(Error::ShouldRestart)];
    let (phases, calls) = run(worker, lenient());
    assert_eq!(calls, vec!["bootstrap 0", "schedule 0", "teardown 0"]);
    assert_eq!(phases[2], StagePhase::Ended);
}

fn expect_attempt(actuation: Actuation<Scripted>, expected: Attempt) {
    match actuation {
        Actuation::Bootstrap(found)
        | Actuation::Schedule(found)
        | Actuation::Execute(_, found)
        | Actuation::Teardown(found) => assert_eq!(found, expected),
        Actuation::Settled(_) => panic!("the worker should have been called"),
    }
}

#[test]
fn each_kind_of_work_has_its_backoff() {
    let policy = lenient();
    let machine = machine(scripted(), policy);
    let retry = Retry { failed: 1 };
    expect_attempt(
        machine.actuate_given(StageState::Bootstrap(retry), false),
        attempt(1, policy.bootstrap_retry),
    );
    expect_attempt(
        machine.actuate_given(StageState::Scheduling(retry), false),
        attempt(1, policy.teardown_retry),
    );
    expect_attempt(
        machine.actuate_given(StageState::Executing(4, retry), false),
        attempt(1, policy.teardown_retry),
    );
    expect_attempt(
        machine.actuate_given(StageState::Teardown(retry), false),
        attempt(1, policy.teardown_retry),
    );
}

#[test]
fn exhausted_work_fails_without_the_worker() {
    let machine = machine(scripted(), lenient());
    let retry = Retry { failed: 4 };
    assert!(matches!(
        machine.actuate_given(StageState::Bootstrap(Retry { failed: 2 }), false),
        Actuation::Settled(StageEvent::BootstrapError(Error::MaxRetries, Retry { failed: 2 }))
    ));
    assert!(matches!(
        machine.actuate_given(StageState::Scheduling(retry), false),
        Actuation::Settled(StageEvent::ScheduleError(Error::MaxRetries, Retry { failed: 4 }))
    ));
    assert!(matches!(
        machine.actuate_given(StageState::Executing(8, retry), false),
        Actuation::Settled(StageEvent::ExecuteError(8, Error::MaxRetries, Retry { failed: 4 }))
    ));
    assert!(matches!(
        machine.actuate_given(StageState::Teardown(retry), false),
        Actuation::Settled(StageEvent::TeardownError(Error::MaxRetries, Retry { failed: 4 }))
    ));
}

#[test]
fn a_dismissal_spares_only_the_teardown() {
    let machine = machine(scripted(), lenient());
    let retry = Retry::new();
    for state in vec![
        StageState::Bootstrap(retry),
        StageState::Scheduling(retry),
        StageState::Executing(1, retry),
        StageState::Scheduling(Retry { failed: 50 }),
    ] {
        assert!(matches!(
            machine.actuate_given(state, true),
            Actuation::Settled(StageEvent::Dismissed)
        ));
    }
    assert!(matches!(
        machine.actuate_given(StageState::Teardown(retry), true),
        Actuation::Teardown(_)
    ));
}

#[test]
fn a_machine_that_is_not_dismissed_calls_its_worker() {
    let machine = machine(scripted(), Policy::default());
    assert!(matches!(
        machine.actuate(StageState::Bootstrap(Retry::new())),
        Actuation::Bootstrap(_)
    ));
}

#[test]
fn each_event_leads_to_its_state() {
    let machine = machine(scripted(), lenient());
    let fresh = Retry { failed: 0 };
    let retry = Retry { failed: 1 };
    let again = Retry { failed: 2 };
    let show = |event: StageEvent<Scripted>| match machine.apply(event) {
        StageState::Bootstrap(retry) => ("bootstrap", 0, retry),
        StageState::Scheduling(retry) => ("scheduling", 0, retry),
        StageState::Executing(unit, retry) => ("executing", unit, retry),
        StageState::Teardown(retry) => ("teardown", 0, retry),
        StageState::Ended => ("ended", 0, fresh),
    };
    assert_eq!(show(StageEvent::BootstrapOk), ("scheduling", 0, fresh));
    assert_eq!(show(StageEvent::NextUnit(7)), ("executing", 7, fresh));
    assert_eq!(show(StageEvent::WorkerIdle), ("scheduling", 0, fresh));
    assert_eq!(show(StageEvent::WorkerDone), ("teardown", 0, fresh));
    assert_eq!(show(StageEvent::MessagingError), ("teardown", 0, fresh));
    assert_eq!(show(StageEvent::Dismissed), ("teardown", 0, fresh));
    assert_eq!(show(StageEvent::ExecuteOk), ("scheduling", 0, fresh));
    assert_eq!(show(StageEvent::TeardownOk), ("ended", 0, fresh));
    for (err, bootstrap, schedule, execute, teardown) in vec![
        (
            Error::ShouldRestart,
            ("bootstrap", 0, again),
            ("bootstrap", 0, fresh),
            ("bootstrap", 0, fresh),
            ("ended", 0, fresh),
        ),
        (
            Error::RetryableError,
            ("bootstrap", 0, again),
            ("scheduling", 0, again),
            ("executing", 7, again),
            ("teardown", 0, again),
        ),
        (
            Error::DismissableError,
            ("scheduling", 0, fresh),
            ("scheduling", 0, fresh),
            ("scheduling", 0, fresh),
            ("ended", 0, fresh),
        ),
        (
            Error::WorkPanic,
            ("teardown", 0, fresh),
            ("teardown", 0, fresh),
            ("teardown", 0, fresh),
            ("ended", 0, fresh),
        ),
        (
            Error::MaxRetries,
            ("teardown", 0, fresh),
            ("teardown", 0, fresh),
            ("teardown", 0, fresh),
            ("ended", 0, fresh),
        ),
    ] {
        assert_eq!(show(StageEvent::BootstrapError(err, retry)), bootstrap);
        assert_eq!(show(StageEvent::ScheduleError(err, retry)), schedule);
        assert_eq!(show(StageEvent::ExecuteError(7, err, retry)), execute);
        assert_eq!(show(StageEvent::TeardownError(err, retry)), teardown);
    }
}

#[test]
fn replies_become_events() {
    let att = attempt(1, RetryPolicy::no_retry());
    assert!(matches!(
        StageEvent::<Scripted>::of_bootstrap(att, Ok(())),
        StageEvent::BootstrapOk
    ));
    assert!(matches!(
        StageEvent::<Scripted>::of_bootstrap(att, Err(Error::SendError)),
        StageEvent::BootstrapError(Error::SendError, Retry { failed: 1 })
    ));
    assert!(matches!(
        StageEvent::<Scripted>::of_schedule(att, Ok(WorkSchedule::Idle)),
        StageEvent::WorkerIdle
    ));
    assert!(matches!(
        StageEvent::<Scripted>::of_schedule(att, Ok(WorkSchedule::Done)),
        StageEvent::WorkerDone
    ));
    assert!(matches!(
        StageEvent::<Scripted>::of_schedule(att, Ok(WorkSchedule::Unit(2))),
        StageEvent::NextUnit(2)
    ));
    assert!(matches!(
        StageEvent::<Scripted>::of_schedule(att, Err(Error::RecvError)),
        StageEvent::ScheduleError(Error::RecvError, Retry { failed: 1 })
    ));
    assert!(matches!(
        StageEvent::<Scripted>::of_execute(3, att, Ok(())),
        StageEvent::ExecuteOk
    ));
    assert!(matches!(
        StageEvent::<Scripted>::of_execute(3, att, Err(Error::NotConnected)),
        StageEvent::ExecuteError(3, Error::NotConnected, Retry { failed: 1 })
    ));
    assert!(matches!(
        StageEvent::<Scripted>::of_teardown(att, Ok(())),
        StageEvent::TeardownOk
    ));
    assert!(matches!(
        StageEvent::<Scripted>::of_teardown(att, Err(Error::WorkPanic)),
        StageEvent::TeardownError(Error::WorkPanic, Retry { failed: 1 })
    ));
}

#[test]
fn states_belong_to_phases() {
    let retry = Retry::new();
    let phase = |state: StageState<Scripted>| StagePhase::from(&state);
    assert_eq!(phase(StageState::Bootstrap(retry)), StagePhase::Bootstrap);
    assert_eq!(phase(StageState::Scheduling(retry)), StagePhase::Working);
    assert_eq!(phase(StageState::Executing(1, retry)), StagePhase::Working);
    assert_eq!(phase(StageState::Teardown(retry)), StagePhase::Teardown);
    assert_eq!(phase(StageState::Ended), StagePhase::Ended);
}

#[test]
fn scheduling_ignores_the_other_policies() {
    let one = Policy { work_retry: retrying(2), ..Policy::default() };
    let other = lenient();
    for failed in 0..5 {
        let retry = Retry { failed };
        let settled = |policy: Policy| {
            matches!(
                machine(scripted(), policy).actuate_given(StageState::Scheduling(retry), false),
                Actuation::Settled(StageEvent::ScheduleError(Error::MaxRetries, _))
            )
        };
        assert_eq!(settled(one), failed > 2);
        assert_eq!(settled(other), failed > 2);
    }
}

#[test]
fn a_stage_that_fails_for_good_is_torn_down_all_the_same() {
    let mut worker = scripted();
    worker.bootstraps = vec![Err(Error::WorkPanic)];
    let (phases, calls) = run(worker, Policy::default());
    assert_eq!(calls, vec!["bootstrap 0", "teardown 0"]);
    assert_eq!(phases, vec![StagePhase::Teardown, StagePhase::Ended]);
}
