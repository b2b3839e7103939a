//! What holds of every run of the health probe.

use crate::probe::{
    spec_accepts, spec_action, spec_answers, spec_budget, spec_error, spec_pause_slices,
    spec_primary, spec_run, spec_start, spec_step, Action, Awaiting, Endpoint, Event, HealthProbe,
    Phase, ProbeConfig, ProbeTimeoutError,
};
use vstd::prelude::*;

verus! {

/// The shape of every state that a run can reach: what the machine waits for
/// fits its phase, the attempts begun never exceed what the loop allows, and
/// the machine rests in `Failed` only with all of them used.
pub open spec fn spec_consistent(s: HealthProbe) -> bool {
    &&& s.reached_live <==> s.phase == Phase::Live || s.phase == Phase::Ready || (s.phase
        == Phase::Failed && s.reached_live)
    &&& s.phase == Phase::Spawned ==> !s.reached_live
    &&& s.attempt <= spec_budget(s)
    &&& s.phase == Phase::Failed ==> s.attempt == spec_budget(s)
    &&& match s.awaiting {
        Awaiting::Reply(endpoint) => {
            &&& 1 <= s.attempt
            &&& s.phase == if s.reached_live {
                Phase::Live
            } else {
                Phase::Spawned
            }
            &&& endpoint == spec_primary(s) || endpoint == Endpoint::Root
        },
        Awaiting::Delay => s.phase == Phase::Live && s.attempt == 0,
        Awaiting::Pause { slices_left } => {
            &&& 1 <= s.attempt < spec_budget(s)
            &&& 1 <= slices_left <= spec_pause_slices(s)
            &&& s.phase == if s.reached_live {
                Phase::Live
            } else {
                Phase::Spawned
            }
        },
        Awaiting::Nothing => s.phase == Phase::Ready || s.phase == Phase::Failed,
    }
}

/// A fresh machine is consistent.
pub proof fn lemma_start_consistent(config: ProbeConfig)
    ensures
        spec_consistent(spec_start(config)),
{
}

/// A step keeps the machine consistent.
pub proof fn lemma_step_consistent(s: HealthProbe, event: Event)
    requires
        spec_consistent(s),
    ensures
        spec_consistent(spec_step(s, event)),
{
}

/// Every state that a run reaches is consistent, and has the bounds that the
/// run was started with.
pub proof fn lemma_run_consistent(config: ProbeConfig, events: Seq<Event>)
    ensures
        spec_consistent(spec_run(config, events)),
        spec_run(config, events).config == config,
    decreases events.len(),
{
    if events.len() == 0 {
        lemma_start_consistent(config);
    } else {
        lemma_run_consistent(config, events.drop_last());
        lemma_step_consistent(spec_run(config, events.drop_last()), events.last());
    }
}

/// The place of a phase in the order in which phases follow one another.
pub open spec fn spec_phase_rank(phase: Phase) -> int {
    match phase {
        Phase::Spawned => 0,
        Phase::Live => 1,
        Phase::Ready => 2,
        Phase::Failed => 3,
    }
}

/// One step moves the machine along `Spawned`, `Live`, `Ready` by at most one
/// phase, never back, and never out of `Ready` or `Failed`: in particular the
/// machine enters `Ready` from `Live` and from nowhere else.
pub proof fn lemma_step_phase_order(s: HealthProbe, event: Event)
    requires
        spec_consistent(s),
    ensures
        spec_step(s, event).phase == s.phase || match spec_step(s, event).phase {
            Phase::Spawned => false,
            Phase::Live => s.phase == Phase::Spawned,
            Phase::Ready => s.phase == Phase::Live,
            Phase::Failed => s.phase == Phase::Spawned || s.phase == Phase::Live,
        },
{
}

/// Whatever the endpoints answer and in whatever order the events arrive, a
/// run that has come to `Ready` was in `Live` at an earlier point.
pub proof fn lemma_ready_only_after_live(config: ProbeConfig, events: Seq<Event>)
    requires
        spec_run(config, events).phase == Phase::Ready,
    ensures
        exists|k: int|
            0 <= k < events.len() && (#[trigger] spec_run(config, events.take(k))).phase
                == Phase::Live,
    decreases events.len(),
{
    if events.len() == 0 {
        lemma_start_consistent(config);
    } else {
        let before = events.drop_last();
        lemma_run_consistent(config, before);
        lemma_step_phase_order(spec_run(config, before), events.last());
        if spec_run(config, before).phase == Phase::Live {
            assert(events.take(events.len() - 1) =~= before);
        } else {
            lemma_ready_only_after_live(config, before);
            let k = choose|k: int|
                0 <= k < before.len() && (#[trigger] spec_run(config, before.take(k))).phase
                    == Phase::Live;
            assert(events.take(k) =~= before.take(k));
        }
    }
}

/// In every state of every run, a request to the application's primary page
/// is asked for only in the phase `Live`, the window is shown only in `Ready`,
/// and the probe gives up only in `Failed`.
pub proof fn lemma_actions_fit_phase(config: ProbeConfig, events: Seq<Event>)
    ensures
        ({
            let s = spec_run(config, events);
            &&& spec_action(s) == Action::Get(Endpoint::Login) ==> s.phase == Phase::Live
            &&& spec_action(s) == Action::Get(Endpoint::Health) ==> s.phase == Phase::Spawned
            &&& spec_action(s) == Action::Finish <==> s.phase == Phase::Ready
            &&& spec_action(s) == Action::GiveUp <==> s.phase == Phase::Failed
        }),
{
    lemma_run_consistent(config, events);
}

/// Whatever the endpoints answer, a run ends in `Failed` only with every
/// attempt of the loop it was in used up: all liveness attempts where the
/// backend never answered, all readiness attempts where it answered but never
/// became ready.
pub proof fn lemma_failure_uses_whole_budget(config: ProbeConfig, events: Seq<Event>)
    requires
        spec_run(config, events).phase == Phase::Failed,
    ensures
        spec_error(spec_run(config, events)) == Some(
            if spec_run(config, events).reached_live {
                ProbeTimeoutError::NotReady { attempts: config.readiness_attempts }
            } else {
                ProbeTimeoutError::NotResponding { attempts: config.liveness_attempts }
            },
        ),
{
    lemma_run_consistent(config, events);
}

/// The event is not an answer that the liveness loop accepts.
pub open spec fn spec_keeps_waiting(event: Event) -> bool {
    match event {
        Event::Probed(a) => !spec_accepts(false, a),
        Event::Woke => true,
    }
}

/// No event of the sequence is an answer that the liveness loop accepts.
pub open spec fn spec_never_live(events: Seq<Event>) -> bool {
    forall|i: int| 0 <= i < events.len() ==> spec_keeps_waiting(#[trigger] events[i])
}

/// Every event of the sequence is the one that the machine was waiting for
/// when it arrived, as long as the machine was waiting for anything.
pub open spec fn spec_well_driven(config: ProbeConfig, events: Seq<Event>) -> bool {
    forall|i: int|
        0 <= i < events.len() ==> {
            let s = #[trigger] spec_run(config, events.take(i));
            s.awaiting is Nothing || spec_answers(s, events[i])
        }
}

/// How many events at most separate a state of the liveness loop from `Failed`
/// when no answer is accepted: three for each attempt not yet begun, and up
/// to three for the one under way.
pub open spec fn spec_liveness_distance(s: HealthProbe) -> int {
    if s.phase == Phase::Failed {
        0
    } else {
        3 * (s.config.liveness_attempts - s.attempt) + match s.awaiting {
            Awaiting::Reply(Endpoint::Root) => 2int,
            Awaiting::Reply(_) => 3int,
            _ => 1int,
        }
    }
}

/// A step on an event that the liveness loop does not accept leaves the
/// machine in the liveness loop, and brings it closer to `Failed` if the event
/// was the one awaited.
pub proof fn lemma_step_keeps_waiting(s: HealthProbe, event: Event)
    requires
        spec_consistent(s),
        !s.reached_live,
        spec_keeps_waiting(event),
    ensures
        !spec_step(s, event).reached_live,
        spec_answers(s, event) ==> spec_liveness_distance(spec_step(s, event))
            < spec_liveness_distance(s),
        !spec_answers(s, event) ==> spec_step(s, event) == s,
{
}

/// While the liveness endpoint never answers with a success status and the
/// root endpoint never does either, the machine stays in `Spawned` until it
/// fails, and it fails with exactly the configured number of attempts begun:
/// not one more, not one fewer.
pub proof fn lemma_liveness_fails_at_budget(config: ProbeConfig, events: Seq<Event>)
    requires
        spec_never_live(events),
    ensures
        ({
            let s = spec_run(config, events);
            &&& s.phase == Phase::Spawned || s.phase == Phase::Failed
            &&& !s.reached_live
            &&& s.attempt <= config.liveness_attempts
            &&& s.phase == Phase::Failed ==> s.attempt == config.liveness_attempts
            &&& s.phase == Phase::Failed ==> spec_error(s) == Some(
                ProbeTimeoutError::NotResponding { attempts: config.liveness_attempts },
            )
        }),
    decreases events.len(),
{
    lemma_run_consistent(config, events);
    if events.len() > 0 {
        let before = events.drop_last();
        assert forall|i: int| 0 <= i < before.len() implies spec_keeps_waiting(
            #[trigger] before[i],
        ) by {
            assert(before[i] == events[i]);
        }
        lemma_liveness_fails_at_budget(config, before);
        lemma_run_consistent(config, before);
        assert(spec_keeps_waiting(events[events.len() - 1]));
        lemma_step_keeps_waiting(spec_run(config, before), events.last());
    }
}

/// Under the same condition, a driver that answers what the machine asks
/// brings it to `Failed` with at most three events for each attempt allowed.
pub proof fn lemma_liveness_failure_is_reached(config: ProbeConfig, events: Seq<Event>)
    requires
        spec_never_live(events),
        spec_well_driven(config, events),
    ensures
        spec_run(config, events).phase == Phase::Failed || spec_liveness_distance(
            spec_run(config, events),
        ) + events.len() <= 3 * config.liveness_attempts,
        events.len() >= 3 * config.liveness_attempts ==> spec_run(config, events).phase
            == Phase::Failed,
    decreases events.len(),
{
    lemma_run_consistent(config, events);
    lemma_liveness_fails_at_budget(config, events);
    if events.len() > 0 {
        let before = events.drop_last();
        assert forall|i: int| 0 <= i < before.len() implies spec_keeps_waiting(
            #[trigger] before[i],
        ) by {
            assert(before[i] == events[i]);
        }
        assert forall|i: int| 0 <= i < before.len() implies ({
            let s = #[trigger] spec_run(config, before.take(i));
            s.awaiting is Nothing || spec_answers(s, before[i])
        }) by {
            assert(before.take(i) =~= events.take(i));
            assert(before[i] == events[i]);
        }
        lemma_liveness_failure_is_reached(config, before);
        lemma_run_consistent(config, before);
        lemma_liveness_fails_at_budget(config, before);
        let s = spec_run(config, before);
        assert(events.take(events.len() - 1) =~= before);
        assert(spec_keeps_waiting(events[events.len() - 1]));
        assert(s.awaiting is Nothing || spec_answers(s, events.last()));
        lemma_step_keeps_waiting(s, events.last());
    }
}

/// The time that an action makes the driver sleep, in milliseconds.
pub open spec fn spec_sleep_of(action: Action) -> int {
    match action {
        Action::Sleep { millis } => millis as int,
        _ => 0,
    }
}

/// The time slept over a run, in milliseconds: the sum of the sleeps that the
/// machine asked for and that were reported as over.
pub open spec fn spec_slept(config: ProbeConfig, events: Seq<Event>) -> int
    decreases events.len(),
{
    if events.len() == 0 {
        0
    } else {
        let before = spec_run(config, events.drop_last());
        spec_slept(config, events.drop_last()) + if spec_answers(before, events.last()) {
            spec_sleep_of(spec_action(before))
        } else {
            0
        }
    }
}

/// The pauses that lie between `attempts` attempts.
pub open spec fn spec_pauses(attempts: int) -> int {
    if attempts <= 0 {
        0
    } else {
        attempts - 1
    }
}

/// The longest that the readiness loop can sleep after its first attempt has
/// begun, in milliseconds: a pause of so many slices between any two attempts.
pub open spec fn spec_readiness_sleep_bound(config: ProbeConfig) -> int {
    spec_pauses(config.readiness_attempts as int) * (config.readiness_pause_slices
        * config.readiness_slice_ms)
}

/// The longest that a whole run can sleep, in milliseconds: a pause between
/// any two liveness attempts, the wait before the first readiness attempt,
/// and the pauses of the readiness loop.
pub open spec fn spec_sleep_bound(config: ProbeConfig) -> int {
    spec_pauses(config.liveness_attempts as int) * config.liveness_pause_ms
        + config.readiness_delay_ms + spec_readiness_sleep_bound(config)
}

/// The longest that the machine can still sleep from state `s` on, in
/// milliseconds.
pub open spec fn spec_sleep_left(s: HealthProbe) -> int {
    let slice = s.config.readiness_slice_ms as int;
    let pause = s.config.readiness_pause_slices * slice;
    if s.awaiting is Nothing {
        0
    } else if !s.reached_live {
        (s.config.liveness_attempts - s.attempt) * s.config.liveness_pause_ms
            + s.config.readiness_delay_ms + spec_readiness_sleep_bound(s.config)
    } else {
        match s.awaiting {
            Awaiting::Delay => s.config.readiness_delay_ms + spec_readiness_sleep_bound(s.config),
            Awaiting::Pause { slices_left } => (s.config.readiness_attempts - s.attempt - 1)
                * pause + slices_left * slice,
            _ => (s.config.readiness_attempts - s.attempt) * pause,
        }
    }
}

/// An answered step uses up no more sleep than the machine had left.
pub proof fn lemma_step_sleep(s: HealthProbe, event: Event)
    requires
        spec_consistent(s),
        spec_answers(s, event),
    ensures
        0 <= spec_sleep_left(spec_step(s, event)),
        spec_sleep_of(spec_action(s)) + spec_sleep_left(spec_step(s, event)) <= spec_sleep_left(s),
{
    let t = spec_step(s, event);
    let slice = s.config.readiness_slice_ms as int;
    let slices = s.config.readiness_pause_slices as int;
    let pause = slices * slice;
    let n = s.config.liveness_attempts as int;
    let m = s.config.readiness_attempts as int;
    let a = s.attempt as int;
    let lp = s.config.liveness_pause_ms as int;
    lemma_step_consistent(s, event);
    assert(0 <= pause) by (nonlinear_arith)
        requires
            0 <= slices,
            0 <= slice,
            pause == slices * slice,
    ;
    assert(0 <= spec_readiness_sleep_bound(s.config)) by (nonlinear_arith)
        requires
            0 <= pause,
            0 <= spec_pauses(m),
            spec_readiness_sleep_bound(s.config) == spec_pauses(m) * pause,
    ;
    assert((n - a) * lp == (n - a - 1) * lp + lp) by (nonlinear_arith);
    assert((m - a) * pause == (m - a - 1) * pause + pause) by (nonlinear_arith);
    assert(0 <= a <= n ==> 0 <= (n - a) * lp) by (nonlinear_arith)
        requires
            0 <= lp,
    ;
    assert(a < n ==> 0 <= (n - a - 1) * lp) by (nonlinear_arith)
        requires
            0 <= lp,
    ;
    assert(0 <= a <= m ==> 0 <= (m - a) * pause) by (nonlinear_arith)
        requires
            0 <= pause,
    ;
    assert(a < m ==> 0 <= (m - a - 1) * pause) by (nonlinear_arith)
        requires
            0 <= pause,
    ;
    match s.awaiting {
        Awaiting::Pause { slices_left } => {
            let k = slices_left as int;
            assert(k * slice == (k - 1) * slice + slice) by (nonlinear_arith);
            assert(1 <= k ==> 0 <= (k - 1) * slice) by (nonlinear_arith)
                requires
                    0 <= slice,
            ;
        },
        Awaiting::Delay => {
            assert(m >= 1 ==> spec_readiness_sleep_bound(s.config) == (m - 1) * pause);
        },
        Awaiting::Reply(endpoint) => {
            if s.reached_live && slices == 0 {
                assert(pause == 0) by (nonlinear_arith)
                    requires
                        slices == 0,
                        pause == slices * slice,
                ;
                assert((m - a) * pause == 0) by (nonlinear_arith)
                    requires
                        pause == 0,
                ;
                assert((m - a - 1) * pause == 0) by (nonlinear_arith)
                    requires
                        pause == 0,
                ;
            }
        },
        Awaiting::Nothing => {},
    }
}

/// Whatever the endpoints answer and however long a run goes on, the time
/// slept in it stays within a bound that the attempt budgets and the pauses
/// fix in advance.
pub proof fn lemma_sleep_is_bounded(config: ProbeConfig, events: Seq<Event>)
    ensures
        0 <= spec_slept(config, events),
        spec_slept(config, events) + spec_sleep_left(spec_run(config, events)) <= spec_sleep_bound(
            config,
        ),
        spec_slept(config, events) <= spec_sleep_bound(config),
    decreases events.len(),
{
    lemma_run_consistent(config, events);
    let slice = config.readiness_slice_ms as int;
    let slices = config.readiness_pause_slices as int;
    let n = config.liveness_attempts as int;
    let lp = config.liveness_pause_ms as int;
    assert(0 <= slices * slice) by (nonlinear_arith)
        requires
            0 <= slices,
            0 <= slice,
    ;
    assert(0 <= spec_readiness_sleep_bound(config)) by (nonlinear_arith)
        requires
            0 <= slices * slice,
            0 <= spec_pauses(config.readiness_attempts as int),
            spec_readiness_sleep_bound(config) == spec_pauses(config.readiness_attempts as int) * (
            slices * slice),
    ;
    assert(0 <= spec_pauses(n) * lp) by (nonlinear_arith)
        requires
            0 <= spec_pauses(n),
            0 <= lp,
    ;
    if events.len() == 0 {
        lemma_start_consistent(config);
    } else {
        let before = spec_run(config, events.drop_last());
        lemma_sleep_is_bounded(config, events.drop_last());
        lemma_run_consistent(config, events.drop_last());
        if spec_answers(before, events.last()) {
            lemma_step_sleep(before, events.last());
        } else {
            lemma_sleep_left_is_not_negative(before);
        }
    }
}

/// The sleep that a reachable state has left is never negative.
pub proof fn lemma_sleep_left_is_not_negative(s: HealthProbe)
    requires
        spec_consistent(s),
    ensures
        0 <= spec_sleep_left(s),
{
    let slice = s.config.readiness_slice_ms as int;
    let slices = s.config.readiness_pause_slices as int;
    let pause = slices * slice;
    let n = s.config.liveness_attempts as int;
    let m = s.config.readiness_attempts as int;
    let a = s.attempt as int;
    let lp = s.config.liveness_pause_ms as int;
    assert(0 <= pause) by (nonlinear_arith)
        requires
            0 <= slices,
            0 <= slice,
            pause == slices * slice,
    ;
    assert(0 <= spec_readiness_sleep_bound(s.config)) by (nonlinear_arith)
        requires
            0 <= pause,
            0 <= spec_pauses(m),
            spec_readiness_sleep_bound(s.config) == spec_pauses(m) * pause,
    ;
    assert(a <= n ==> 0 <= (n - a) * lp) by (nonlinear_arith)
        requires
            0 <= lp,
    ;
    assert(a <= m ==> 0 <= (m - a) * pause) by (nonlinear_arith)
        requires
            0 <= pause,
    ;
    assert(a < m ==> 0 <= (m - a - 1) * pause) by (nonlinear_arith)
        requires
            0 <= pause,
    ;
    if let Awaiting::Pause { slices_left } = s.awaiting {
        assert(0 <= slices_left * slice) by (nonlinear_arith)
            requires
                0 <= slices_left,
                0 <= slice,
        ;
    }
}

} // verus!
