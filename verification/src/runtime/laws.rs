//! What holds of a stage over all of its turns, whatever its worker replies and
//! whenever it is dismissed.
use crate::error::Error;
use crate::metrics::{taken_of, Readings, Registry};
use crate::retries;
use crate::retries::{Nanos, Retry};
use crate::runtime::anchor::Anchor;
use crate::runtime::logging::{stage_error_line, LogLevel};
use crate::runtime::machine::{Actuation, Attempt, MachineView};
use crate::runtime::policy::Policy;
use crate::runtime::stage::{
    ScheduleResult, StageEvent, StagePhase, StageState, WorkSchedule, Worker,
};
use crate::runtime::tether::{TetherState, TetherView};
use std::sync::Arc;
use vstd::prelude::*;

verus! {

/// Whether a stage gets from `before` to `after` in one turn that ends in
/// `event`. A stage that has ended stays as it is.
pub open spec fn takes_turn<W: Worker>(
    policy: Policy,
    before: StageState<W>,
    dismissed: bool,
    event: StageEvent<W>,
    after: StageState<W>,
) -> bool {
    match before.actuation(policy, dismissed) {
        None => after == before,
        Some(actuation) => actuation.may_end_in(event) && after == event.next_state(),
    }
}

/// What a machine does between the begin and the end of a transition is one turn
/// of its stage, provided that the event is one that the begun turn can end in.
pub proof fn transition_takes_a_turn<W: Worker>(
    policy: Policy,
    state: StageState<W>,
    dismissed: bool,
    actuation: Actuation<W>,
    event: StageEvent<W>,
)
    requires
        state.actuation(policy, dismissed) == Some(actuation),
        actuation.may_end_in(event),
    ensures
        takes_turn(policy, state, dismissed, event, event.next_state()),
{
}

/// A run of a stage: the states it goes through and, for each turn between two
/// of them, whether the stage was dismissed and the event that the turn ended in.
pub open spec fn is_run<W: Worker>(
    policy: Policy,
    states: Seq<StageState<W>>,
    turns: Seq<(bool, StageEvent<W>)>,
) -> bool {
    &&& states.len() == turns.len() + 1
    &&& forall|i: int|
        0 <= i < turns.len() ==> takes_turn(
            policy,
            states[i],
            (#[trigger] turns[i]).0,
            turns[i].1,
            states[i + 1],
        )
}

/// The phases follow each other in order. A stage may bootstrap again from its
/// working phase, it ends only out of teardown, and it never comes back from
/// there.
pub proof fn phases_keep_their_order<W: Worker>(
    policy: Policy,
    before: StageState<W>,
    dismissed: bool,
    event: StageEvent<W>,
    after: StageState<W>,
)
    requires
        takes_turn(policy, before, dismissed, event, after),
    ensures
        match before.phase() {
            StagePhase::Bootstrap | StagePhase::Working => after.phase() != StagePhase::Ended,
            StagePhase::Teardown => after.phase() == StagePhase::Teardown || after.phase()
                == StagePhase::Ended,
            StagePhase::Ended => after.phase() == StagePhase::Ended,
        },
{
}

/// Once a stage is in teardown, or past it, the worker is neither bootstrapped
/// nor given any work again.
pub proof fn teardown_is_one_way<W: Worker>(
    policy: Policy,
    states: Seq<StageState<W>>,
    turns: Seq<(bool, StageEvent<W>)>,
    i: int,
    j: int,
)
    requires
        is_run(policy, states, turns),
        0 <= i <= j < states.len(),
        states[i] is Teardown || states[i] is Ended,
    ensures
        states[j] is Teardown || states[j] is Ended,
        states[i] is Ended ==> states[j] is Ended,
    decreases j - i,
{
    if i < j {
        let turn = turns[i];
        phases_keep_their_order(policy, states[i], turn.0, turn.1, states[i + 1]);
        teardown_is_one_way(policy, states, turns, i + 1, j);
    }
}

/// A dismissed stage that is not in teardown yet, and has not ended, starts its
/// teardown in its next turn. The worker has no say in it.
pub proof fn dismissal_starts_teardown<W: Worker>(
    policy: Policy,
    before: StageState<W>,
    event: StageEvent<W>,
    after: StageState<W>,
)
    requires
        takes_turn(policy, before, true, event, after),
        before !is Teardown,
        before !is Ended,
    ensures
        before.actuation(policy, true) == Some(Actuation::<W>::Settled(StageEvent::Dismissed)),
        after == StageState::<W>::Teardown(Retry::new()),
{
}

/// A dismissal changes nothing about a stage that is in teardown already.
pub proof fn dismissal_spares_teardown<W: Worker>(policy: Policy, retry: Retry)
    ensures
        StageState::<W>::Teardown(retry).actuation(policy, true) == StageState::<W>::Teardown(
            retry,
        ).actuation(policy, false),
{
}

/// How many turns a teardown takes at most.
pub open spec fn turns_of_teardown(policy: Policy, retry: Retry) -> int {
    if retry.failed <= policy.teardown_retry.max_retries {
        policy.teardown_retry.max_retries - retry.failed + 2
    } else {
        1
    }
}

/// A teardown ends after as many turns as its retries allow, whatever the worker
/// replies. Only a limit of `usize::MAX`, which the count of failures never gets
/// past, allows a teardown without end.
pub proof fn teardown_ends<W: Worker>(
    policy: Policy,
    states: Seq<StageState<W>>,
    turns: Seq<(bool, StageEvent<W>)>,
    i: int,
    retry: Retry,
    j: int,
)
    requires
        is_run(policy, states, turns),
        policy.teardown_retry.max_retries < usize::MAX,
        0 <= i < states.len(),
        states[i] == StageState::<W>::Teardown(retry),
        i + turns_of_teardown(policy, retry) <= j < states.len(),
    ensures
        states[j] is Ended,
    decreases j - i,
{
    let turn = turns[i];
    assert(takes_turn(policy, states[i], turn.0, turn.1, states[i + 1]));
    match states[i + 1] {
        StageState::Teardown(next) => {
            assert(next == retry.next());
            teardown_ends(policy, states, turns, i + 1, next, j);
        },
        _ => {
            teardown_is_one_way(policy, states, turns, i + 1, j);
        },
    }
}

/// A stage that is dismissed, and stays so, ends: one turn to take notice and
/// then the turns of a teardown are enough, whatever it was doing and whatever
/// the worker replies.
pub proof fn dismissed_stage_ends<W: Worker>(
    policy: Policy,
    states: Seq<StageState<W>>,
    turns: Seq<(bool, StageEvent<W>)>,
)
    requires
        is_run(policy, states, turns),
        policy.teardown_retry.max_retries < usize::MAX,
        forall|i: int| 0 <= i < turns.len() ==> (#[trigger] turns[i]).0,
        turns.len() >= 1 + turns_of_teardown(policy, Retry::new()),
    ensures
        states.last() is Ended,
{
    let last = states.len() - 1;
    match states[0] {
        StageState::Ended => {
            teardown_is_one_way(policy, states, turns, 0, last);
        },
        StageState::Teardown(retry) => {
            teardown_ends(policy, states, turns, 0, retry, last);
        },
        _ => {
            let turn = turns[0];
            dismissal_starts_teardown(policy, states[0], turn.1, states[1]);
            teardown_ends(policy, states, turns, 1, Retry::new(), last);
        },
    }
}

/// A stage that was dismissed through its tether ends: once the dismissal has been
/// sent, and as long as the looks that the stage takes at the anchor it shares with
/// the tether show it, one turn and the turns of a teardown are enough.
pub proof fn dismissal_ends_the_stage<W: Worker>(
    tether: TetherView,
    answer: Result<(), Error>,
    states: Seq<StageState<W>>,
    turns: Seq<(bool, StageEvent<W>)>,
)
    requires
        tether.dismissal_answer(true, answer),
        is_run(tether.policy, states, turns),
        tether.policy.teardown_retry.max_retries < usize::MAX,
        forall|i: int|
            0 <= i < turns.len() ==> (#[trigger] turns[i]).0 && tether.anchor.shows_dismissed(
                turns[i].0,
            ),
        turns.len() >= 1 + turns_of_teardown(tether.policy, Retry::new()),
    ensures
        answer is Ok,
        tether.anchor.was_sent_dismissal(),
        states.last() is Ended,
{
    dismissed_stage_ends(tether.policy, states, turns);
}

/// Whatever brought a run to its end, be it a worker that was done, a dismissal, a
/// fatal error or retries that were used up, the worker was given the chance to
/// tear itself down.
pub proof fn ended_run_was_torn_down<W: Worker>(
    policy: Policy,
    states: Seq<StageState<W>>,
    turns: Seq<(bool, StageEvent<W>)>,
    j: int,
)
    requires
        is_run(policy, states, turns),
        states[0] == StageState::<W>::Bootstrap(Retry::new()),
        0 <= j < states.len(),
        states[j] is Ended,
    ensures
        exists|i: int|
            0 <= i < j && ((#[trigger] states[i]).actuation(policy, turns[i].0) matches Some(
                Actuation::Teardown(_),
            )),
    decreases j,
{
    let h = j - 1;
    let turn = turns[h];
    assert(takes_turn(policy, states[h], turn.0, turn.1, states[h + 1]));
    match states[h] {
        StageState::Ended => {
            ended_run_was_torn_down(policy, states, turns, h);
        },
        StageState::Teardown(retry) => {
            if !retry.has_next(&policy.teardown_retry) {
                let before = turns[h - 1];
                assert(takes_turn(policy, states[h - 1], before.0, before.1, states[h]));
                assert(states[h - 1].actuation(policy, turns[h - 1].0) matches Some(
                    Actuation::Teardown(_),
                ));
            }
        },
        _ => {},
    }
}

/// Whether the anchor was told of each turn of a run, with the phase it led to.
pub open spec fn each_turn_is_told<W: Worker>(
    anchor: Arc<Anchor>,
    states: Seq<StageState<W>>,
    turns: Seq<(bool, StageEvent<W>)>,
) -> bool {
    forall|i: int|
        #![trigger turns[i]]
        0 <= i < turns.len() && states[i] !is Ended ==> anchor.was_told(states[i + 1].phase())
}

/// The last phase that a run tells the anchor is the end: the turn that ends the
/// stage tells it, and there is no turn after that.
pub proof fn last_phase_told_is_the_end<W: Worker>(
    anchor: Arc<Anchor>,
    policy: Policy,
    states: Seq<StageState<W>>,
    turns: Seq<(bool, StageEvent<W>)>,
    j: int,
)
    requires
        is_run(policy, states, turns),
        states[0] == StageState::<W>::Bootstrap(Retry::new()),
        each_turn_is_told(anchor, states, turns),
        0 <= j < states.len(),
        states[j] is Ended,
    ensures
        exists|i: int| #[trigger] ends_with(states, i, j) && anchor.was_told(StagePhase::Ended),
    decreases j,
{
    let h = j - 1;
    let turn = turns[h];
    assert(takes_turn(policy, states[h], turn.0, turn.1, states[h + 1]));
    if states[h] is Ended {
        last_phase_told_is_the_end(anchor, policy, states, turns, h);
        let i = choose|i: int| #[trigger] ends_with(states, i, h);
        assert(ends_with(states, i, j));
    } else {
        assert(ends_with(states, h, j));
    }
}

/// Whether turn `i` of a run is the one that ends the stage, which has ended ever
/// since, up to state `j`.
pub open spec fn ends_with<W: Worker>(states: Seq<StageState<W>>, i: int, j: int) -> bool {
    &&& 0 <= i < j
    &&& states[i] is Teardown
    &&& forall|k: int| i < k <= j ==> (#[trigger] states[k]) is Ended
}

/// Whether turn `i` of a run bootstrapped the worker, so that it has been at work
/// ever since, up to state `j`.
pub open spec fn at_work_since<W: Worker>(
    policy: Policy,
    states: Seq<StageState<W>>,
    turns: Seq<(bool, StageEvent<W>)>,
    i: int,
    j: int,
) -> bool {
    &&& 0 <= i < j
    &&& states[i].actuation(policy, turns[i].0) matches Some(Actuation::Bootstrap(_))
    &&& match turns[i].1 {
        StageEvent::BootstrapOk => true,
        StageEvent::BootstrapError(err, _) => err is DismissableError,
        _ => false,
    }
    &&& forall|k: int| i < k <= j ==> (#[trigger] states[k]).phase() == StagePhase::Working
}

/// The worker is bootstrapped before any work is performed and after each
/// restart: whenever a stage is at work, there is a turn that bootstrapped the
/// worker, with success or with an error that could be passed over, and the stage
/// has not left its working phase since.
pub proof fn work_follows_bootstrap<W: Worker>(
    policy: Policy,
    states: Seq<StageState<W>>,
    turns: Seq<(bool, StageEvent<W>)>,
    j: int,
)
    requires
        is_run(policy, states, turns),
        states[0] == StageState::<W>::Bootstrap(Retry::new()),
        0 <= j < states.len(),
        states[j].phase() == StagePhase::Working,
    ensures
        exists|i: int| at_work_since(policy, states, turns, i, j),
    decreases j,
{
    let turn = turns[j - 1];
    assert(takes_turn(policy, states[j - 1], turn.0, turn.1, states[j]));
    if states[j - 1].phase() == StagePhase::Working {
        let h = j - 1;
        work_follows_bootstrap(policy, states, turns, h);
        let i = choose|i: int| at_work_since(policy, states, turns, i, h);
        assert(at_work_since(policy, states, turns, i, j));
    } else {
        assert(at_work_since(policy, states, turns, j - 1, j));
    }
}

/// The retries that a state counts, and the policy that limits them.
pub open spec fn retry_limit<W: Worker>(policy: Policy, state: StageState<W>) -> Option<
    (Retry, retries::Policy),
> {
    match state {
        StageState::Bootstrap(retry) => Some((retry, policy.bootstrap_retry)),
        StageState::Scheduling(retry) => Some((retry, policy.work_retry)),
        StageState::Executing(_, retry) => Some((retry, policy.work_retry)),
        StageState::Teardown(retry) => Some((retry, policy.teardown_retry)),
        StageState::Ended => None,
    }
}

/// No work fails more often than its first attempt and its allowed retries can.
pub proof fn retries_are_limited<W: Worker>(
    policy: Policy,
    states: Seq<StageState<W>>,
    turns: Seq<(bool, StageEvent<W>)>,
    j: int,
)
    requires
        is_run(policy, states, turns),
        states[0] == StageState::<W>::Bootstrap(Retry::new()),
        0 <= j < states.len(),
    ensures
        retry_limit(policy, states[j]) matches Some((retry, limit)) ==> retry.failed
            <= limit.max_retries + 1,
    decreases j,
{
    if j > 0 {
        let turn = turns[j - 1];
        retries_are_limited(policy, states, turns, j - 1);
        assert(takes_turn(policy, states[j - 1], turn.0, turn.1, states[j]));
    }
}

/// Work whose retries are used up is given up without the worker: the stage goes
/// into teardown, or out of it.
pub proof fn exhausted_work_is_given_up<W: Worker>(
    policy: Policy,
    before: StageState<W>,
    dismissed: bool,
    event: StageEvent<W>,
    after: StageState<W>,
)
    requires
        takes_turn(policy, before, dismissed, event, after),
        retry_limit(policy, before) matches Some((retry, limit)) && !retry.has_next(&limit),
    ensures
        before.actuation(policy, dismissed) matches Some(Actuation::Settled(_)),
        before is Teardown ==> after is Ended,
        before !is Teardown ==> after == StageState::<W>::Teardown(Retry::new()),
{
}

/// A count of failures goes on only where the same work is tried again, at the
/// worker's request. All other work starts with a count of its own.
pub proof fn count_starts_anew<W: Worker>(
    policy: Policy,
    before: StageState<W>,
    dismissed: bool,
    event: StageEvent<W>,
    after: StageState<W>,
)
    requires
        takes_turn(policy, before, dismissed, event, after),
    ensures
        retry_limit(policy, after) matches Some((retry, _)) ==> {
            ||| retry == Retry::new()
            ||| {
                &&& event.failure() matches Some((err, failed)) && (err is RetryableError || (
                before is Bootstrap && err is ShouldRestart)) && retry == failed.next()
                &&& match (before, after) {
                    (StageState::Bootstrap(counted), StageState::Bootstrap(_)) => retry
                        == counted.next(),
                    (StageState::Scheduling(counted), StageState::Scheduling(_)) => retry
                        == counted.next(),
                    (
                        StageState::Executing(unit, counted),
                        StageState::Executing(same, _),
                    ) => same == unit && retry == counted.next(),
                    (StageState::Teardown(counted), StageState::Teardown(_)) => retry
                        == counted.next(),
                    _ => false,
                }
            }
        },
{
}

/// The errors that ask for something other than an end.
pub open spec fn is_fatal(err: Error) -> bool {
    err !is ShouldRestart && err !is RetryableError && err !is DismissableError
}

/// A fatal error takes a stage into its teardown, and a teardown to its end.
pub proof fn fatal_error_starts_teardown<W: Worker>(
    policy: Policy,
    before: StageState<W>,
    dismissed: bool,
    event: StageEvent<W>,
    after: StageState<W>,
)
    requires
        takes_turn(policy, before, dismissed, event, after),
        before !is Ended,
        event.failure() matches Some((err, _)) && is_fatal(err),
    ensures
        before is Teardown ==> after is Ended,
        before !is Teardown ==> after == StageState::<W>::Teardown(Retry::new()),
{
}

/// An error that can be passed over leaves a stage at work, unless it is in
/// teardown.
pub proof fn dismissable_error_is_passed_over<W: Worker>(
    policy: Policy,
    before: StageState<W>,
    dismissed: bool,
    event: StageEvent<W>,
    after: StageState<W>,
)
    requires
        takes_turn(policy, before, dismissed, event, after),
        before !is Ended,
        before !is Teardown,
        event.failure() matches Some((err, _)) && err is DismissableError,
    ensures
        after == StageState::<W>::Scheduling(Retry::new()),
{
}

/// Work that has not failed yet is attempted under every policy, unless the stage
/// is dismissed first.
pub proof fn first_attempt_is_granted<W: Worker>(policy: Policy, state: StageState<W>)
    requires
        retry_limit(policy, state) matches Some((retry, _)) && retry == Retry::new(),
    ensures
        state.actuation(policy, false) matches Some(actuation) && actuation !is Settled,
{
}

/// Without retries, work is attempted once and not again.
pub proof fn no_retry_grants_one_attempt()
    ensures
        Retry::new().has_next(&retries::Policy::no_retry()),
        !Retry::new().next().has_next(&retries::Policy::no_retry()),
{
}

/// A unit whose execution failed is executed again as it is, with one more failure
/// on its count, exactly where the worker asked for a retry. Otherwise it is gone.
pub proof fn failed_unit_is_kept_for_retry<W: Worker>(
    policy: Policy,
    unit: W::WorkUnit,
    retry: Retry,
    event: StageEvent<W>,
    after: StageState<W>,
)
    requires
        takes_turn(policy, StageState::<W>::Executing(unit, retry), false, event, after),
    ensures
        after is Executing <==> event == StageEvent::<W>::ExecuteError(
            unit,
            Error::RetryableError,
            retry,
        ),
        after is Executing ==> after == StageState::<W>::Executing(unit, retry.next()),
{
}

/// What a worker schedules is what happens in the next turn of a stage that is
/// not dismissed: a unit is executed, an idle worker is asked again, and a worker
/// that is done is torn down.
pub proof fn schedule_is_followed<W: Worker>(policy: Policy, unit: W::WorkUnit)
    ensures
        StageEvent::<W>::NextUnit(unit).next_state().actuation(policy, false) == Some(
            Actuation::<W>::Execute(
                unit,
                Attempt { retry: Retry::new(), backoff: policy.teardown_retry },
            ),
        ),
        StageEvent::<W>::WorkerIdle.next_state().actuation(policy, false) == Some(
            Actuation::<W>::Schedule(
                Attempt { retry: Retry::new(), backoff: policy.teardown_retry },
            ),
        ),
        StageEvent::<W>::WorkerDone.next_state().actuation(policy, false) == Some(
            Actuation::<W>::Teardown(
                Attempt { retry: Retry::new(), backoff: policy.teardown_retry },
            ),
        ),
{
}

/// What a scheduling turn comes to depends on the work policy alone: under equal
/// work policies it is settled by the same event, or the same reply leads to the
/// same event. The other settings can only change how long the stage holds back.
pub proof fn scheduling_depends_on_work_policy_alone<W: Worker>(
    one: Policy,
    other: Policy,
    retry: Retry,
    reply: ScheduleResult<W::WorkUnit>,
)
    requires
        one.work_retry == other.work_retry,
    ensures
        match (
            StageState::<W>::Scheduling(retry).actuation(one, false),
            StageState::<W>::Scheduling(retry).actuation(other, false),
        ) {
            (Some(Actuation::Settled(a)), Some(Actuation::Settled(b))) => a == b,
            (
                Some(Actuation::Schedule(a)),
                Some(Actuation::Schedule(b)),
            ) => StageEvent::<W>::schedule_event(a, reply) == StageEvent::<W>::schedule_event(
                b,
                reply,
            ),
            _ => false,
        },
{
}

/// A worker at work that asks for a restart is bootstrapped anew, with a count of
/// its own, unless the stage is dismissed first.
pub proof fn restart_bootstraps_again<W: Worker>(
    policy: Policy,
    unit: W::WorkUnit,
    retry: Retry,
)
    ensures
        StageEvent::<W>::ScheduleError(Error::ShouldRestart, retry).next_state()
            == StageState::<W>::Bootstrap(Retry::new()),
        StageEvent::<W>::ExecuteError(unit, Error::ShouldRestart, retry).next_state()
            == StageState::<W>::Bootstrap(Retry::new()),
        StageState::<W>::Bootstrap(Retry::new()).actuation(policy, false) == Some(
            Actuation::<W>::Bootstrap(
                Attempt { retry: Retry::new(), backoff: policy.bootstrap_retry },
            ),
        ),
{
}

/// A stage is reported as blocked exactly where it has a limit and has been idle
/// for longer than that. Either way the phase it showed last is reported.
pub proof fn blocked_means_timed_out(phase: StagePhase, idle: Nanos, timeout: Option<Nanos>)
    ensures
        TetherState::of_stage(phase, idle, timeout) is Blocked <==> (timeout matches Some(limit)
            && idle > limit),
        TetherState::of_stage(phase, idle, timeout) == TetherState::Blocked(phase)
            || TetherState::of_stage(phase, idle, timeout) == TetherState::Alive(phase),
{
}

/// Dropped is final. A weak reference that gave nothing once gives nothing later,
/// so a stage that was seen as dropped is seen so ever after, and dismissals and
/// requests for metrics are answered accordingly.
pub proof fn dropped_is_final(
    tether: TetherView,
    is_there: Seq<bool>,
    i: int,
    seen: TetherState,
    j: int,
    state: TetherState,
    dismissal: Result<(), Error>,
    metrics: Result<Readings, Error>,
)
    requires
        forall|a: int, b: int|
            0 <= a <= b < is_there.len() && !(#[trigger] is_there[a]) ==> !(#[trigger] is_there[b]),
        0 <= i <= j < is_there.len(),
        tether.state_answer(is_there[i], seen),
        seen is Dropped,
        tether.state_answer(is_there[j], state),
        tether.dismissal_answer(is_there[j], dismissal),
        tether.metrics_answer(is_there[j], metrics),
    ensures
        state is Dropped,
        dismissal == Err::<(), Error>(Error::TetherDropped),
        metrics == Err::<Readings, Error>(Error::TetherDropped),
{
    assert(!is_there[i]);
    assert(!is_there[j]);
}

/// Waiting, which is to take rounds until one answers that the expected state is
/// reached, ends at the first look that gives that state, phase and all, and not
/// before. Without such a look it does not end.
pub proof fn waiting_ends_at_the_first_match(
    tether: TetherView,
    expected: TetherState,
    is_there: Seq<bool>,
    looks: Seq<TetherState>,
    reached: Seq<bool>,
)
    requires
        is_there.len() == looks.len() == reached.len(),
        forall|i: int|
            #![trigger looks[i]]
            0 <= i < looks.len() ==> tether.state_answer(is_there[i], looks[i]) && reached[i] == (
            looks[i] == expected),
    ensures
        forall|n: int|
            #![trigger reached[n]]
            0 <= n < reached.len() ==> ((reached[n] && forall|i: int|
                0 <= i < n ==> !(#[trigger] reached[i])) <==> (looks[n] == expected && forall|i: int|
                0 <= i < n ==> (#[trigger] looks[i]) != expected)),
        (forall|i: int| 0 <= i < looks.len() ==> (#[trigger] looks[i]) != expected) ==> forall|
            i: int,
        |
            0 <= i < reached.len() ==> !(#[trigger] reached[i]),
{
    assert forall|n: int| #![trigger reached[n]] 0 <= n < reached.len() implies ((reached[n]
        && forall|i: int| 0 <= i < n ==> !(#[trigger] reached[i])) <==> (looks[n] == expected
        && forall|i: int| 0 <= i < n ==> (#[trigger] looks[i]) != expected)) by {
        let look = looks[n];
        if reached[n] && forall|i: int| 0 <= i < n ==> !(#[trigger] reached[i]) {
            assert forall|i: int| 0 <= i < n implies (#[trigger] looks[i]) != expected by {
                assert(!reached[i]);
            }
        }
        if looks[n] == expected && forall|i: int| 0 <= i < n ==> (#[trigger] looks[i]) != expected {
            assert forall|i: int| 0 <= i < n implies !(#[trigger] reached[i]) by {
                assert(looks[i] != expected);
            }
        }
    }
    if forall|i: int| 0 <= i < looks.len() ==> (#[trigger] looks[i]) != expected {
        assert forall|i: int| 0 <= i < reached.len() implies !(#[trigger] reached[i]) by {
            assert(looks[i] != expected);
        }
    }
}

/// A second dismissal is answered like the first for as long as the stage is
/// there, and it is the same dismissal that was sent.
pub proof fn dismissal_can_be_repeated(
    tether: TetherView,
    first: Result<(), Error>,
    second: Result<(), Error>,
)
    requires
        tether.dismissal_answer(true, first),
        tether.dismissal_answer(true, second),
    ensures
        first is Ok,
        second == first,
        tether.anchor.was_sent_dismissal(),
{
}

/// The metrics that are read of a stage are read from the registry that its worker
/// gave when the stage was prepared.
pub proof fn metrics_are_those_of_the_worker<W: Worker>(
    worker: W,
    tether: TetherView,
    answer: Result<Readings, Error>,
)
    requires
        call_ensures(W::metrics, (&worker,), tether.anchor@.metrics),
        tether.metrics_answer(true, answer),
    ensures
        answer matches Ok(readings) && exists|registry: Registry| #[trigger]
            call_ensures(W::metrics, (&worker,), registry) && taken_of(readings@, registry),
{
}

/// A tether watches the stage that it was made with: what the machine of that stage
/// tells its anchor is told to the anchor that the tether looks at, and a dismissal
/// through the tether is sent to the anchor that the machine looks at.
pub proof fn tether_and_machine_share_an_anchor<W: Worker>(
    tether: TetherView,
    setup: TetherView,
    machine: MachineView<W>,
    phase: StagePhase,
    answer: Result<(), Error>,
)
    requires
        setup == tether,
        machine.anchor == setup.anchor,
        machine.anchor.was_told(phase),
        tether.dismissal_answer(true, answer),
    ensures
        tether.anchor.was_told(phase),
        machine.anchor.was_sent_dismissal(),
{
}

/// The phase of a state is told by what the stage is doing alone, however often that
/// has failed.
pub proof fn phase_is_told_by_the_work<W: Worker>(unit: W::WorkUnit, retry: Retry)
    ensures
        StageState::<W>::Bootstrap(retry).phase() == StagePhase::Bootstrap,
        StageState::<W>::Scheduling(retry).phase() == StagePhase::Working,
        StageState::<W>::Executing(unit, retry).phase() == StagePhase::Working,
        StageState::<W>::Teardown(retry).phase() == StagePhase::Teardown,
        StageState::<W>::Ended.phase() == StagePhase::Ended,
{
}

/// A state converts into the phase that it belongs to.
pub proof fn state_converts_into_its_phase<W: Worker>(state: StageState<W>)
    ensures
        <StagePhase as vstd::std_specs::convert::FromSpec<&StageState<W>>>::obeys_from_spec(),
        <StagePhase as vstd::std_specs::convert::FromSpec<&StageState<W>>>::from_spec(&state)
            == state.phase(),
{
}

/// Every attempt within the limit is made. A stage that is not dismissed calls its
/// worker for as long as the count of failures has not passed the limit of the work
/// at hand, and it calls it for that very work, with the count as it is.
pub proof fn allowed_attempt_is_made<W: Worker>(policy: Policy, unit: W::WorkUnit, retry: Retry)
    ensures
        retry.failed <= policy.bootstrap_retry.max_retries ==> (StageState::<W>::Bootstrap(
            retry,
        ).actuation(policy, false) matches Some(Actuation::Bootstrap(attempt)) && attempt.retry
            == retry && attempt.backoff == policy.bootstrap_retry),
        retry.failed <= policy.work_retry.max_retries ==> (StageState::<W>::Scheduling(
            retry,
        ).actuation(policy, false) matches Some(Actuation::Schedule(attempt)) && attempt.retry
            == retry && attempt.backoff == policy.teardown_retry),
        retry.failed <= policy.work_retry.max_retries ==> (StageState::<W>::Executing(
            unit,
            retry,
        ).actuation(policy, false) matches Some(Actuation::Execute(given, attempt)) && given
            == unit && attempt.retry == retry && attempt.backoff == policy.teardown_retry),
        retry.failed <= policy.teardown_retry.max_retries ==> (StageState::<W>::Teardown(
            retry,
        ).actuation(policy, false) matches Some(Actuation::Teardown(attempt)) && attempt.retry
            == retry && attempt.backoff == policy.teardown_retry),
{
}

/// The worker is called exactly within the limits: a stage that is not dismissed and
/// has not ended settles its turn without the worker where the count of failures has
/// passed the limit of the work at hand, and nowhere else.
pub proof fn worker_is_called_within_the_limit<W: Worker>(policy: Policy, state: StageState<W>)
    requires
        state !is Ended,
    ensures
        retry_limit(policy, state) matches Some((retry, limit)) && ((state.actuation(
            policy,
            false,
        ) matches Some(actuation) && actuation !is Settled) <==> retry.failed
            <= limit.max_retries),
{
}

/// Work that is past its limit fails for that reason, as the kind of work that it is,
/// and with its count as it is.
pub proof fn refused_attempt_is_a_failure<W: Worker>(
    policy: Policy,
    unit: W::WorkUnit,
    retry: Retry,
)
    ensures
        retry.failed > policy.bootstrap_retry.max_retries ==> StageState::<W>::Bootstrap(
            retry,
        ).actuation(policy, false) == Some(
            Actuation::<W>::Settled(StageEvent::BootstrapError(Error::MaxRetries, retry)),
        ),
        retry.failed > policy.work_retry.max_retries ==> StageState::<W>::Scheduling(
            retry,
        ).actuation(policy, false) == Some(
            Actuation::<W>::Settled(StageEvent::ScheduleError(Error::MaxRetries, retry)),
        ),
        retry.failed > policy.work_retry.max_retries ==> StageState::<W>::Executing(
            unit,
            retry,
        ).actuation(policy, false) == Some(
            Actuation::<W>::Settled(StageEvent::ExecuteError(unit, Error::MaxRetries, retry)),
        ),
        retry.failed > policy.teardown_retry.max_retries ==> StageState::<W>::Teardown(
            retry,
        ).actuation(policy, false) == Some(
            Actuation::<W>::Settled(StageEvent::TeardownError(Error::MaxRetries, retry)),
        ),
{
}

/// Being dismissed makes no difference to a teardown, comes before everything else in
/// any other state, and there is a next turn exactly until the stage has ended.
pub proof fn dismissal_comes_first<W: Worker>(
    policy: Policy,
    state: StageState<W>,
    dismissed: bool,
)
    ensures
        state.actuation(policy, dismissed) is None <==> state is Ended,
        state is Teardown ==> state.actuation(policy, dismissed) == state.actuation(policy, false),
        dismissed && state !is Teardown && state !is Ended ==> state.actuation(policy, dismissed)
            == Some(Actuation::<W>::Settled(StageEvent::Dismissed)),
{
}

/// A failure that asks for the same work again raises the count by one, whatever the
/// count is, and the work stays as it is.
pub proof fn retry_raises_the_count<W: Worker>(unit: W::WorkUnit, retry: Retry, next: Retry)
    requires
        next.failed == retry.failed + 1,
    ensures
        StageEvent::<W>::BootstrapError(Error::RetryableError, retry).next_state()
            == StageState::<W>::Bootstrap(next),
        StageEvent::<W>::BootstrapError(Error::ShouldRestart, retry).next_state()
            == StageState::<W>::Bootstrap(next),
        StageEvent::<W>::ScheduleError(Error::RetryableError, retry).next_state()
            == StageState::<W>::Scheduling(next),
        StageEvent::<W>::ExecuteError(unit, Error::RetryableError, retry).next_state()
            == StageState::<W>::Executing(unit, next),
        StageEvent::<W>::TeardownError(Error::RetryableError, retry).next_state()
            == StageState::<W>::Teardown(next),
{
}

/// Whatever went well, or needs no second attempt, leads on with a count of zero.
pub proof fn success_leads_on_with_no_failures<W: Worker>(unit: W::WorkUnit, zero: Retry)
    requires
        zero.failed == 0,
    ensures
        StageEvent::<W>::BootstrapOk.next_state() == StageState::<W>::Scheduling(zero),
        StageEvent::<W>::WorkerIdle.next_state() == StageState::<W>::Scheduling(zero),
        StageEvent::<W>::ExecuteOk.next_state() == StageState::<W>::Scheduling(zero),
        StageEvent::<W>::NextUnit(unit).next_state() == StageState::<W>::Executing(unit, zero),
        StageEvent::<W>::WorkerDone.next_state() == StageState::<W>::Teardown(zero),
        StageEvent::<W>::MessagingError.next_state() == StageState::<W>::Teardown(zero),
        StageEvent::<W>::Dismissed.next_state() == StageState::<W>::Teardown(zero),
        StageEvent::<W>::TeardownOk.next_state() == StageState::<W>::Ended,
{
}

/// Where an error leads that does not ask for the same work again does not depend on
/// the count: it can be passed over, it asks for a restart, or it is fatal. In teardown
/// each of them ends the stage.
pub proof fn error_decides_where_to_go<W: Worker>(
    unit: W::WorkUnit,
    err: Error,
    retry: Retry,
    zero: Retry,
)
    requires
        zero.failed == 0,
    ensures
        err is DismissableError ==> {
            &&& StageEvent::<W>::BootstrapError(err, retry).next_state()
                == StageState::<W>::Scheduling(zero)
            &&& StageEvent::<W>::ScheduleError(err, retry).next_state()
                == StageState::<W>::Scheduling(zero)
            &&& StageEvent::<W>::ExecuteError(unit, err, retry).next_state()
                == StageState::<W>::Scheduling(zero)
        },
        err is ShouldRestart ==> {
            &&& StageEvent::<W>::ScheduleError(err, retry).next_state()
                == StageState::<W>::Bootstrap(zero)
            &&& StageEvent::<W>::ExecuteError(unit, err, retry).next_state()
                == StageState::<W>::Bootstrap(zero)
        },
        is_fatal(err) ==> {
            &&& StageEvent::<W>::BootstrapError(err, retry).next_state()
                == StageState::<W>::Teardown(zero)
            &&& StageEvent::<W>::ScheduleError(err, retry).next_state()
                == StageState::<W>::Teardown(zero)
            &&& StageEvent::<W>::ExecuteError(unit, err, retry).next_state()
                == StageState::<W>::Teardown(zero)
        },
        err !is RetryableError ==> StageEvent::<W>::TeardownError(err, retry).next_state()
            == StageState::<W>::Ended,
{
}

/// What a worker replies is what its turn comes to. A failure is reported with the
/// error as it came and the count of the attempt that failed, a unit comes back with
/// its failure, and how long the stage held back makes no difference.
pub proof fn reply_becomes_the_event<W: Worker>(
    attempt: Attempt,
    unit: W::WorkUnit,
    err: Error,
)
    ensures
        StageEvent::<W>::bootstrap_event(attempt, Ok(())) == StageEvent::<W>::BootstrapOk,
        StageEvent::<W>::bootstrap_event(attempt, Err(err)) == StageEvent::<W>::BootstrapError(
            err,
            attempt.retry,
        ),
        StageEvent::<W>::schedule_event(attempt, Ok(WorkSchedule::Idle))
            == StageEvent::<W>::WorkerIdle,
        StageEvent::<W>::schedule_event(attempt, Ok(WorkSchedule::Done))
            == StageEvent::<W>::WorkerDone,
        StageEvent::<W>::schedule_event(attempt, Ok(WorkSchedule::Unit(unit)))
            == StageEvent::<W>::NextUnit(unit),
        StageEvent::<W>::schedule_event(attempt, Err(err)) == StageEvent::<W>::ScheduleError(
            err,
            attempt.retry,
        ),
        StageEvent::<W>::execute_event(unit, attempt, Ok(())) == StageEvent::<W>::ExecuteOk,
        StageEvent::<W>::execute_event(unit, attempt, Err(err)) == StageEvent::<W>::ExecuteError(
            unit,
            err,
            attempt.retry,
        ),
        StageEvent::<W>::teardown_event(attempt, Ok(())) == StageEvent::<W>::TeardownOk,
        StageEvent::<W>::teardown_event(attempt, Err(err)) == StageEvent::<W>::TeardownError(
            err,
            attempt.retry,
        ),
{
}

/// The same work with another count of failures.
pub open spec fn with_failures<W: Worker>(work: StageState<W>, failed: int) -> StageState<W> {
    let retry = Retry { failed: failed as usize };
    match work {
        StageState::Bootstrap(_) => StageState::Bootstrap(retry),
        StageState::Scheduling(_) => StageState::Scheduling(retry),
        StageState::Executing(unit, _) => StageState::Executing(unit, retry),
        StageState::Teardown(_) => StageState::Teardown(retry),
        StageState::Ended => StageState::Ended,
    }
}

/// How many retries a policy allows the work that is at hand.
pub open spec fn allowed_retries<W: Worker>(policy: Policy, work: StageState<W>) -> usize {
    match work {
        StageState::Bootstrap(_) => policy.bootstrap_retry.max_retries,
        StageState::Scheduling(_) | StageState::Executing(_, _) => policy.work_retry.max_retries,
        _ => policy.teardown_retry.max_retries,
    }
}

/// Whether an event is a failure that asks for the same work again.
pub open spec fn asks_again<W: Worker>(event: StageEvent<W>) -> bool {
    match event {
        StageEvent::BootstrapError(err, _) => err is RetryableError || err is ShouldRestart,
        StageEvent::ScheduleError(err, _) => err is RetryableError,
        StageEvent::ExecuteError(_, err, _) => err is RetryableError,
        StageEvent::TeardownError(err, _) => err is RetryableError,
        _ => false,
    }
}

/// Work that keeps failing, and asks for another attempt each time, is attempted once
/// and then as many times as it may be tried again, with one more failure on its count
/// each time. The turn after that does not call the worker any more. This is for a
/// stage that is not dismissed and a limit that the count can get past.
pub proof fn failing_work_is_attempted_to_its_limit<W: Worker>(
    policy: Policy,
    work: StageState<W>,
    states: Seq<StageState<W>>,
    turns: Seq<(bool, StageEvent<W>)>,
    k: int,
)
    requires
        is_run(policy, states, turns),
        work !is Ended,
        states[0] == with_failures(work, 0),
        allowed_retries(policy, work) < usize::MAX,
        forall|i: int| 0 <= i < turns.len() ==> !(#[trigger] turns[i]).0,
        forall|i: int|
            0 <= i < turns.len() && i <= allowed_retries(policy, work) ==> asks_again(
                (#[trigger] turns[i]).1,
            ),
        0 <= k < states.len(),
        k <= allowed_retries(policy, work) + 1,
    ensures
        states[k] == with_failures(work, k),
        k <= allowed_retries(policy, work) <==> (states[k].actuation(policy, false) matches Some(
            actuation,
        ) && actuation !is Settled),
    decreases k,
{
    if k > 0 {
        failing_work_is_attempted_to_its_limit(policy, work, states, turns, k - 1);
        let turn = turns[k - 1];
        assert(takes_turn(policy, states[k - 1], turn.0, turn.1, states[k]));
    }
}

/// Work that keeps failing is given up: if each call of the worker ahead of the
/// teardown ends with it asking for another attempt, the stage is in teardown, or past
/// it, after one turn more than there are attempts, whether it is dismissed on the
/// way or not.
pub proof fn failing_work_leads_to_teardown<W: Worker>(
    policy: Policy,
    work: StageState<W>,
    states: Seq<StageState<W>>,
    turns: Seq<(bool, StageEvent<W>)>,
    j: int,
)
    requires
        is_run(policy, states, turns),
        work !is Ended,
        work !is Teardown,
        states[0] == with_failures(work, 0),
        allowed_retries(policy, work) < usize::MAX,
        forall|i: int|
            #![trigger turns[i]]
            0 <= i < turns.len() && (states[i].actuation(policy, turns[i].0) matches Some(actuation)
                && actuation !is Settled && actuation !is Teardown) ==> asks_again(turns[i].1),
        0 <= j < states.len(),
    ensures
        states[j] is Teardown || states[j] is Ended || (j <= allowed_retries(policy, work) + 1
            && states[j] == with_failures(work, j)),
        j >= allowed_retries(policy, work) + 2 ==> states[j] is Teardown || states[j] is Ended,
    decreases j,
{
    if j > 0 {
        failing_work_leads_to_teardown(policy, work, states, turns, j - 1);
        let turn = turns[j - 1];
        assert(takes_turn(policy, states[j - 1], turn.0, turn.1, states[j]));
    }
}

/// What a tether answers tells whether the stage is there: without it every answer
/// says so, and with it the state is as the stage's own anchor shows it, blocked
/// exactly where the time since the last turn is over the limit, the dismissal has
/// been sent, and there is a reading for each counter.
pub proof fn answers_tell_of_the_stage(
    tether: TetherView,
    is_there: bool,
    state: TetherState,
    dismissal: Result<(), Error>,
    metrics: Result<Readings, Error>,
)
    requires
        tether.state_answer(is_there, state),
        tether.dismissal_answer(is_there, dismissal),
        tether.metrics_answer(is_there, metrics),
    ensures
        state is Dropped <==> !is_there,
        dismissal == (if is_there {
            Ok::<(), Error>(())
        } else {
            Err::<(), Error>(Error::TetherDropped)
        }),
        metrics is Ok <==> is_there,
        !is_there ==> metrics == Err::<Readings, Error>(Error::TetherDropped),
        is_there ==> tether.anchor.was_sent_dismissal(),
        is_there ==> metrics->Ok_0@.len() == tether.anchor@.metrics.counters@.len(),
        is_there ==> exists|phase: StagePhase, idle: Nanos| #[trigger]
            tether.anchor.shows(phase, idle) && (state == TetherState::Blocked(phase) || state
                == TetherState::Alive(phase)) && (state is Blocked <==> (
            tether.policy.tick_timeout matches Some(limit) && idle > limit)),
{
    if is_there {
        let (phase, idle) = choose|phase: StagePhase, idle: Nanos| #[trigger]
            tether.anchor.shows(phase, idle) && state == TetherState::of_stage(
                phase,
                idle,
                tether.policy.tick_timeout,
            );
        blocked_means_timed_out(phase, idle, tether.policy.tick_timeout);
    }
}

/// A failure of any work is logged as its error asks, and with the retries of that
/// work, however many. What asks for another attempt is a warning and any other
/// failure is an error. An event that is not such a failure is logged without retries.
pub proof fn failures_are_logged_with_their_retries<W: Worker>(
    event: StageEvent<W>,
    unit: W::WorkUnit,
    err: Error,
    retry: Retry,
)
    ensures
        ({
            let line = stage_error_line(err);
            let record = (line.0, line.1, Some(retry));
            &&& StageEvent::<W>::BootstrapError(err, retry).record() == record
            &&& StageEvent::<W>::ScheduleError(err, retry).record() == record
            &&& StageEvent::<W>::ExecuteError(unit, err, retry).record() == record
            &&& StageEvent::<W>::TeardownError(err, retry).record() == record
        }),
        stage_error_line(err).0 == (if err is ShouldRestart || err is RetryableError {
            LogLevel::Warn
        } else {
            LogLevel::Error
        }),
        event.record().2 is Some <==> (event is BootstrapError || event is ScheduleError
            || event is ExecuteError || event is TeardownError),
{
}

} // verus!
