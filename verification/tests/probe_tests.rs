use backend_supervisor::probe::{
    Action, Awaiting, Endpoint, Event, HealthProbe, Phase, ProbeAttempt, ProbeConfig,
    ProbeOutcome, ProbeTimeoutError,
};
use backend_supervisor::status::HttpStatus;

fn status(endpoint: Endpoint, code: u16) -> Event {
    Event::Probed(ProbeAttempt {
        endpoint,
        outcome: ProbeOutcome::Status(HttpStatus::new(code)),
        timestamp_ms: 0,
    })
}

fn no_answer(endpoint: Endpoint) -> Event {
    Event::Probed(ProbeAttempt { endpoint, outcome: ProbeOutcome::TransportError, timestamp_ms: 0 })
}

/// Answers every action with what `reply` gives for a request, until the
/// machine rests or `limit` actions were taken. Returns the actions taken.
fn drive(
    probe: &mut HealthProbe,
    limit: usize,
    mut reply: impl FnMut(Endpoint, usize) -> ProbeOutcome,
) -> Vec<Action> {
    let mut actions = Vec::new();
    let mut action = probe.action();
    let mut requests = 0usize;
    while actions.len() < limit {
        actions.push(action);
        let event = match action {
            Action::Get(endpoint) => {
                requests += 1;
                Event::Probed(ProbeAttempt {
                    endpoint,
                    outcome: reply(endpoint, requests),
                    timestamp_ms: requests as u64,
                })
            },
            Action::Sleep { .. } => Event::Woke,
            Action::Finish | Action::GiveUp => break,
        };
        action = probe.step(event);
    }
    actions
}

fn count(actions: &[Action], wanted: Action) -> usize {
    actions.iter().filter(|a| **a == wanted).count()
}

#[test]
fn standard_bounds() {
    let c = ProbeConfig::standard();
    assert_eq!(c.liveness_attempts, 20);
    assert_eq!(c.liveness_pause_ms, 2000);
    assert_eq!(c.readiness_attempts, 15);
    assert_eq!(c.readiness_delay_ms, 3000);
    assert_eq!(c.readiness_pause_slices, 4);
    assert_eq!(c.readiness_slice_ms, 500);
}

#[test]
fn endpoint_addresses() {
    assert_eq!(Endpoint::Health.url(), "http://localhost:8000/api/health");
    assert_eq!(Endpoint::Root.url(), "http://localhost:8000/");
    assert_eq!(Endpoint::Login.url(), "http://localhost:8000/login");
}

#[test]
fn a_fresh_probe_asks_the_health_endpoint() {
    let p = HealthProbe::start(ProbeConfig::standard());
    assert_eq!(p.phase, Phase::Spawned);
    assert_eq!(p.attempt, 1);
    assert_eq!(p.awaiting, Awaiting::Reply(Endpoint::Health));
    assert!(!p.reached_live);
    assert_eq!(p.action(), Action::Get(Endpoint::Health));
    assert_eq!(p.error(), None);
}

#[test]
fn a_success_status_on_health_makes_the_backend_live() {
    let mut p = HealthProbe::start(ProbeConfig::standard());
    let next = p.step(status(Endpoint::Health, 200));
    assert_eq!(p.phase, Phase::Live);
    assert!(p.reached_live);
    assert_eq!(p.attempt, 0);
    assert_eq!(next, Action::Sleep { millis: 3000 });
}

#[test]
fn a_failure_status_on_health_pauses_without_asking_the_root() {
    let mut p = HealthProbe::start(ProbeConfig::standard());
    let next = p.step(status(Endpoint::Health, 503));
    assert_eq!(p.phase, Phase::Spawned);
    assert_eq!(next, Action::Sleep { millis: 2000 });
    assert_eq!(p.step(Event::Woke), Action::Get(Endpoint::Health));
    assert_eq!(p.attempt, 2);
}

#[test]
fn no_answer_on_health_asks_the_root() {
    let mut p = HealthProbe::start(ProbeConfig::standard());
    assert_eq!(p.step(no_answer(Endpoint::Health)), Action::Get(Endpoint::Root));
    assert_eq!(p.attempt, 1);
    assert_eq!(p.step(status(Endpoint::Root, 200)), Action::Sleep { millis: 3000 });
    assert_eq!(p.phase, Phase::Live);
}

#[test]
fn a_demand_for_authentication_on_the_root_is_no_sign_of_liveness() {
    let mut p = HealthProbe::start(ProbeConfig::standard());
    p.step(no_answer(Endpoint::Health));
    assert_eq!(p.step(status(Endpoint::Root, 401)), Action::Sleep { millis: 2000 });
    assert_eq!(p.phase, Phase::Spawned);
}

#[test]
fn no_answer_on_the_root_fails_the_attempt() {
    let mut p = HealthProbe::start(ProbeConfig::standard());
    p.step(no_answer(Endpoint::Health));
    assert_eq!(p.step(no_answer(Endpoint::Root)), Action::Sleep { millis: 2000 });
    assert_eq!(p.phase, Phase::Spawned);
    assert_eq!(p.attempt, 1);
}

#[test]
fn liveness_fails_after_exactly_the_budget_of_failure_statuses() {
    let mut p = HealthProbe::start(ProbeConfig::standard());
    let actions = drive(&mut p, 10_000, |_, _| ProbeOutcome::Status(HttpStatus::new(500)));
    assert_eq!(p.phase, Phase::Failed);
    assert_eq!(p.attempt, 20);
    assert_eq!(count(&actions, Action::Get(Endpoint::Health)), 20);
    assert_eq!(count(&actions, Action::Get(Endpoint::Root)), 0);
    assert_eq!(count(&actions, Action::Get(Endpoint::Login)), 0);
    assert_eq!(count(&actions, Action::Sleep { millis: 2000 }), 19);
    assert_eq!(actions.last(), Some(&Action::GiveUp));
    assert_eq!(p.error(), Some(ProbeTimeoutError::NotResponding { attempts: 20 }));
}

#[test]
fn liveness_fails_after_exactly_the_budget_when_nothing_answers() {
    let mut p = HealthProbe::start(ProbeConfig::standard());
    let actions = drive(&mut p, 10_000, |_, _| ProbeOutcome::TransportError);
    assert_eq!(p.phase, Phase::Failed);
    assert_eq!(p.attempt, 20);
    assert_eq!(count(&actions, Action::Get(Endpoint::Health)), 20);
    assert_eq!(count(&actions, Action::Get(Endpoint::Root)), 20);
    assert_eq!(count(&actions, Action::Sleep { millis: 2000 }), 19);
    assert_eq!(actions.len(), 60);
    assert!(!p.reached_live);
}

#[test]
fn liveness_budget_of_other_sizes_is_kept_exactly() {
    for budget in [1u32, 2, 3, 7] {
        let config = ProbeConfig { liveness_attempts: budget, ..ProbeConfig::standard() };
        let mut p = HealthProbe::start(config);
        let actions = drive(&mut p, 10_000, |_, _| ProbeOutcome::Status(HttpStatus::new(404)));
        assert_eq!(p.phase, Phase::Failed);
        assert_eq!(count(&actions, Action::Get(Endpoint::Health)), budget as usize);
        assert_eq!(p.error(), Some(ProbeTimeoutError::NotResponding { attempts: budget }));
    }
}

#[test]
fn a_budget_of_no_attempts_fails_at_once() {
    let config = ProbeConfig { liveness_attempts: 0, ..ProbeConfig::standard() };
    let p = HealthProbe::start(config);
    assert_eq!(p.phase, Phase::Failed);
    assert_eq!(p.action(), Action::GiveUp);
    assert_eq!(p.error(), Some(ProbeTimeoutError::NotResponding { attempts: 0 }));
}

#[test]
fn health_on_the_third_attempt_then_login_at_once_reaches_ready() {
    let mut p = HealthProbe::start(ProbeConfig::standard());
    let mut phases = vec![p.phase];
    let mut health = 0;
    let mut action = p.action();
    loop {
        let event = match action {
            Action::Get(Endpoint::Health) => {
                health += 1;
                status(Endpoint::Health, if health == 3 { 200 } else { 503 })
            },
            Action::Get(Endpoint::Login) => status(Endpoint::Login, 200),
            Action::Get(Endpoint::Root) => unreachable!(),
            Action::Sleep { .. } => Event::Woke,
            Action::Finish => break,
            Action::GiveUp => panic!("gave up"),
        };
        action = p.step(event);
        if *phases.last().unwrap() != p.phase {
            phases.push(p.phase);
        }
    }
    assert_eq!(health, 3);
    assert_eq!(phases, vec![Phase::Spawned, Phase::Live, Phase::Ready]);
    assert_eq!(p.attempt, 1);
    assert_eq!(p.error(), None);
}

#[test]
fn readiness_waits_three_seconds_before_its_first_attempt() {
    let mut p = HealthProbe::start(ProbeConfig::standard());
    assert_eq!(p.step(status(Endpoint::Health, 204)), Action::Sleep { millis: 3000 });
    assert_eq!(p.awaiting, Awaiting::Delay);
    assert_eq!(p.step(Event::Woke), Action::Get(Endpoint::Login));
    assert_eq!(p.attempt, 1);
    assert_eq!(p.phase, Phase::Live);
}

fn live_probe(config: ProbeConfig) -> HealthProbe {
    let mut p = HealthProbe::start(config);
    p.step(status(Endpoint::Health, 200));
    p.step(Event::Woke);
    assert_eq!(p.action(), Action::Get(Endpoint::Login));
    p
}

#[test]
fn a_success_status_on_login_makes_the_backend_ready() {
    let mut p = live_probe(ProbeConfig::standard());
    assert_eq!(p.step(status(Endpoint::Login, 200)), Action::Finish);
    assert_eq!(p.phase, Phase::Ready);
    assert_eq!(p.awaiting, Awaiting::Nothing);
}

#[test]
fn a_failure_status_on_login_pauses_in_four_slices() {
    let mut p = live_probe(ProbeConfig::standard());
    assert_eq!(p.step(status(Endpoint::Login, 401)), Action::Sleep { millis: 500 });
    assert_eq!(p.awaiting, Awaiting::Pause { slices_left: 4 });
    assert_eq!(p.step(Event::Woke), Action::Sleep { millis: 500 });
    assert_eq!(p.step(Event::Woke), Action::Sleep { millis: 500 });
    assert_eq!(p.step(Event::Woke), Action::Sleep { millis: 500 });
    assert_eq!(p.step(Event::Woke), Action::Get(Endpoint::Login));
    assert_eq!(p.attempt, 2);
}

#[test]
fn no_answer_on_login_asks_the_root_which_may_demand_authentication() {
    let mut p = live_probe(ProbeConfig::standard());
    assert_eq!(p.step(no_answer(Endpoint::Login)), Action::Get(Endpoint::Root));
    assert_eq!(p.step(status(Endpoint::Root, 401)), Action::Finish);
    assert_eq!(p.phase, Phase::Ready);
}

#[test]
fn the_root_fallback_of_readiness_accepts_success_and_rejects_the_rest() {
    for (code, ready) in [(200u16, true), (299, true), (401, true), (403, false), (500, false)] {
        let mut p = live_probe(ProbeConfig::standard());
        p.step(no_answer(Endpoint::Login));
        p.step(status(Endpoint::Root, code));
        assert_eq!(p.phase == Phase::Ready, ready, "code {}", code);
    }
}

#[test]
fn readiness_fails_after_exactly_its_budget() {
    let mut p = live_probe(ProbeConfig::standard());
    let actions = drive(&mut p, 10_000, |_, _| ProbeOutcome::Status(HttpStatus::new(500)));
    assert_eq!(p.phase, Phase::Failed);
    assert!(p.reached_live);
    assert_eq!(p.attempt, 15);
    assert_eq!(count(&actions, Action::Get(Endpoint::Login)), 15);
    assert_eq!(count(&actions, Action::Sleep { millis: 500 }), 14 * 4);
    assert_eq!(p.error(), Some(ProbeTimeoutError::NotReady { attempts: 15 }));
}

#[test]
fn readiness_without_pause_slices_goes_straight_to_the_next_attempt() {
    let config = ProbeConfig { readiness_pause_slices: 0, ..ProbeConfig::standard() };
    let mut p = live_probe(config);
    assert_eq!(p.step(status(Endpoint::Login, 500)), Action::Get(Endpoint::Login));
    assert_eq!(p.attempt, 2);
}

#[test]
fn events_that_are_not_awaited_change_nothing() {
    let mut p = HealthProbe::start(ProbeConfig::standard());
    let before = p;
    assert_eq!(p.step(Event::Woke), Action::Get(Endpoint::Health));
    assert_eq!(p, before);
    assert_eq!(p.step(status(Endpoint::Login, 200)), Action::Get(Endpoint::Health));
    assert_eq!(p, before);
    assert_eq!(p.step(status(Endpoint::Root, 200)), Action::Get(Endpoint::Health));
    assert_eq!(p, before);
    assert!(!p.answers(&Event::Woke));
    assert!(p.answers(&status(Endpoint::Health, 500)));
}

#[test]
fn a_probe_at_rest_stays_at_rest() {
    let mut p = live_probe(ProbeConfig::standard());
    p.step(status(Endpoint::Login, 200));
    let ready = p;
    assert_eq!(p.step(status(Endpoint::Login, 500)), Action::Finish);
    assert_eq!(p.step(Event::Woke), Action::Finish);
    assert_eq!(p, ready);

    let mut q = HealthProbe::start(ProbeConfig { liveness_attempts: 1, ..ProbeConfig::standard() });
    assert_eq!(q.step(status(Endpoint::Health, 500)), Action::GiveUp);
    let failed = q;
    assert_eq!(q.step(status(Endpoint::Health, 200)), Action::GiveUp);
    assert_eq!(q, failed);
}

#[test]
fn ready_is_never_reached_without_live_whatever_arrives() {
    let events = [
        status(Endpoint::Login, 200),
        status(Endpoint::Root, 401),
        status(Endpoint::Root, 200),
        Event::Woke,
        no_answer(Endpoint::Login),
        status(Endpoint::Health, 500),
        no_answer(Endpoint::Health),
        status(Endpoint::Health, 200),
    ];
    let mut seed = 12345u64;
    for _ in 0..200 {
        let mut p = HealthProbe::start(ProbeConfig { liveness_attempts: 3, ..ProbeConfig::standard() });
        let mut seen_live = p.phase == Phase::Live;
        for _ in 0..60 {
            seed = seed.wrapping_mul(6364136223846793005).wrapping_add(1442695040888963407);
            let event = events[((seed >> 33) % events.len() as u64) as usize];
            p.step(event);
            seen_live = seen_live || p.phase == Phase::Live;
            if p.phase == Phase::Ready {
                assert!(seen_live);
            }
        }
    }
}

#[test]
fn run_gives_the_state_that_stepping_gives() {
    let events = vec![
        status(Endpoint::Health, 500),
        Event::Woke,
        no_answer(Endpoint::Health),
        status(Endpoint::Root, 200),
        Event::Woke,
        status(Endpoint::Login, 200),
    ];
    let mut stepped = HealthProbe::start(ProbeConfig::standard());
    for e in &events {
        stepped.step(*e);
    }
    let ran = HealthProbe::run(ProbeConfig::standard(), &events);
    assert_eq!(ran, stepped);
    assert_eq!(ran.phase, Phase::Ready);
    assert_eq!(
        HealthProbe::run(ProbeConfig::standard(), &Vec::new()),
        HealthProbe::start(ProbeConfig::standard())
    );
}

#[test]
fn accepted_answers() {
    let answer = |endpoint, code| ProbeAttempt {
        endpoint,
        outcome: ProbeOutcome::Status(HttpStatus::new(code)),
        timestamp_ms: 9,
    };
    assert!(answer(Endpoint::Health, 200).accepted(false));
    assert!(answer(Endpoint::Root, 200).accepted(false));
    assert!(!answer(Endpoint::Root, 401).accepted(false));
    assert!(answer(Endpoint::Root, 401).accepted(true));
    assert!(!answer(Endpoint::Login, 401).accepted(true));
    assert!(!answer(Endpoint::Health, 401).accepted(true));
    assert!(answer(Endpoint::Login, 200).accepted(true));
    let silent = ProbeAttempt {
        endpoint: Endpoint::Root,
        outcome: ProbeOutcome::TransportError,
        timestamp_ms: 9,
    };
    assert!(!silent.accepted(false));
    assert!(!silent.accepted(true));
}

#[test]
fn timeout_messages() {
    assert_eq!(
        ProbeTimeoutError::NotResponding { attempts: 20 }.message(),
        "Python server started but not responding properly on port 8000. Check for errors in the Python console."
    );
    assert_eq!(ProbeTimeoutError::NotReady { attempts: 15 }.message(), "Failed to start server");
}

fn slept(actions: &[Action]) -> u64 {
    actions
        .iter()
        .map(|a| match a {
            Action::Sleep { millis } => *millis,
            _ => 0,
        })
        .sum()
}

#[test]
fn the_time_slept_stays_within_the_bound_of_the_budgets() {
    let mut p = HealthProbe::start(ProbeConfig::standard());
    let liveness = drive(&mut p, 10_000, |_, _| ProbeOutcome::TransportError);
    assert_eq!(slept(&liveness), 19 * 2000);

    let mut q = HealthProbe::start(ProbeConfig::standard());
    let whole = drive(&mut q, 10_000, |endpoint, asked| match (endpoint, asked) {
        (Endpoint::Health, 39) => ProbeOutcome::Status(HttpStatus::new(200)),
        _ => ProbeOutcome::TransportError,
    });
    assert_eq!(q.phase, Phase::Failed);
    assert!(q.reached_live);
    assert_eq!(slept(&whole), 19 * 2000 + 3000 + 14 * 4 * 500);
}
