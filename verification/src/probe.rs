//! The health probe: a bounded-retry state machine that first waits for the
//! backend to answer at all, and then for it to serve the application's
//! primary page.
//!
//! The machine itself performs no request and no sleep. It says which action
//! comes next; whoever drives it performs the action and hands back what
//! happened.

use crate::status::{spec_is_success, spec_unauthorized, HttpStatus};
use vstd::prelude::*;

verus! {

/// How far the backend has come.
#[derive(Clone, Copy, Debug, PartialEq, Eq, Structural)]
pub enum Phase {
    /// The process runs; nothing has answered yet.
    Spawned,
    /// The backend answers requests.
    Live,
    /// The backend serves the application.
    Ready,
    /// The backend did not come up within the attempts allowed.
    Failed,
}

/// The endpoints of the backend that the probe asks.
#[derive(Clone, Copy, Debug, PartialEq, Eq, Structural)]
pub enum Endpoint {
    /// `/api/health`, the dedicated liveness endpoint.
    Health,
    /// `/`, the fallback for both phases.
    Root,
    /// `/login`, the primary page of the application.
    Login,
}

/// What one request came to.
#[derive(Clone, Copy, Debug, PartialEq, Eq, Structural)]
pub enum ProbeOutcome {
    /// The backend answered with this status.
    Status(HttpStatus),
    /// No answer arrived.
    TransportError,
}

/// The record of one request.
#[derive(Clone, Copy, Debug, PartialEq, Eq, Structural)]
pub struct ProbeAttempt {
    pub endpoint: Endpoint,
    pub outcome: ProbeOutcome,
    /// When the request ended, in milliseconds on the driver's clock.
    pub timestamp_ms: u64,
}

/// What the driver reports back to the machine.
#[derive(Clone, Copy, Debug, PartialEq, Eq, Structural)]
pub enum Event {
    /// The request that was asked for has ended.
    Probed(ProbeAttempt),
    /// The sleep that was asked for is over.
    Woke,
}

/// What the driver is to do next.
#[derive(Clone, Copy, Debug, PartialEq, Eq, Structural)]
pub enum Action {
    /// Send a GET request to the endpoint.
    Get(Endpoint),
    /// Sleep for so many milliseconds.
    Sleep { millis: u64 },
    /// The backend is ready: show the application.
    Finish,
    /// The backend failed: report the error and exit.
    GiveUp,
}

/// What the machine is waiting for.
#[derive(Clone, Copy, Debug, PartialEq, Eq, Structural)]
pub enum Awaiting {
    /// The answer to a request sent to this endpoint.
    Reply(Endpoint),
    /// The end of the wait that precedes the first readiness attempt.
    Delay,
    /// The end of one slice of the pause between two attempts.
    Pause { slices_left: u32 },
    /// Nothing: the machine has come to rest.
    Nothing,
}

/// The bounds of the two polling loops.
#[derive(Clone, Copy, Debug, PartialEq, Eq, Structural)]
pub struct ProbeConfig {
    /// Attempts allowed for the liveness phase.
    pub liveness_attempts: u32,
    /// Pause between two liveness attempts, in milliseconds.
    pub liveness_pause_ms: u64,
    /// Attempts allowed for the readiness phase.
    pub readiness_attempts: u32,
    /// Wait before the first readiness attempt, in milliseconds.
    pub readiness_delay_ms: u64,
    /// Number of slices that make up the pause between two readiness attempts.
    pub readiness_pause_slices: u32,
    /// Length of one such slice, in milliseconds.
    pub readiness_slice_ms: u64,
}

/// The bounds that the supervisor uses unless told otherwise: twenty liveness
/// attempts two seconds apart, then, after three seconds, fifteen readiness
/// attempts with four half-second slices between them.
pub open spec fn spec_default_config() -> ProbeConfig {
    ProbeConfig {
        liveness_attempts: 20,
        liveness_pause_ms: 2000,
        readiness_attempts: 15,
        readiness_delay_ms: 3000,
        readiness_pause_slices: 4,
        readiness_slice_ms: 500,
    }
}

/// Why the probe gave up.
#[derive(Clone, Copy, Debug, PartialEq, Eq, Structural)]
pub enum ProbeTimeoutError {
    /// The backend never answered.
    NotResponding { attempts: u32 },
    /// The backend answered but never served the application.
    NotReady { attempts: u32 },
}

/// The state of the health probe.
#[derive(Clone, Copy, Debug, PartialEq, Eq, Structural)]
pub struct HealthProbe {
    pub config: ProbeConfig,
    pub phase: Phase,
    /// Attempts begun in the polling loop that the machine is in, or was in
    /// when it came to rest.
    pub attempt: u32,
    pub awaiting: Awaiting,
    /// The machine has been in the phase `Live`.
    pub reached_live: bool,
}

/// The attempts that the current polling loop allows.
pub open spec fn spec_budget(s: HealthProbe) -> u32 {
    if s.reached_live {
        s.config.readiness_attempts
    } else {
        s.config.liveness_attempts
    }
}

/// The endpoint that each attempt of the current polling loop asks first.
pub open spec fn spec_primary(s: HealthProbe) -> Endpoint {
    if s.reached_live {
        Endpoint::Login
    } else {
        Endpoint::Health
    }
}

/// Whether an answer lets the current polling loop succeed. A success status
/// always does. While waiting for readiness, a demand for authentication from
/// the root path does too: it shows that the backend listens and routes.
pub open spec fn spec_accepts(readiness: bool, attempt: ProbeAttempt) -> bool {
    match attempt.outcome {
        ProbeOutcome::TransportError => false,
        ProbeOutcome::Status(status) => spec_is_success(status.code) || (readiness
            && attempt.endpoint == Endpoint::Root && status.code == spec_unauthorized()),
    }
}

/// Whether the fallback endpoint is asked next: when the primary endpoint of
/// the loop gave no answer at all.
pub open spec fn spec_falls_back(s: HealthProbe, attempt: ProbeAttempt) -> bool {
    attempt.endpoint == spec_primary(s) && attempt.outcome is TransportError
}

/// The machine after the current polling loop has succeeded.
pub open spec fn spec_advance(s: HealthProbe) -> HealthProbe {
    if s.reached_live {
        HealthProbe { phase: Phase::Ready, awaiting: Awaiting::Nothing, ..s }
    } else {
        HealthProbe {
            phase: Phase::Live,
            attempt: 0,
            awaiting: Awaiting::Delay,
            reached_live: true,
            ..s
        }
    }
}

/// The machine at rest in `Failed`.
pub open spec fn spec_fail(s: HealthProbe) -> HealthProbe {
    HealthProbe { phase: Phase::Failed, awaiting: Awaiting::Nothing, ..s }
}

/// The machine at the start of one more attempt, or at rest in `Failed` when
/// the loop allows no more.
pub open spec fn spec_next_attempt(s: HealthProbe) -> HealthProbe {
    if s.attempt < spec_budget(s) {
        HealthProbe {
            attempt: (s.attempt + 1) as u32,
            awaiting: Awaiting::Reply(spec_primary(s)),
            ..s
        }
    } else {
        spec_fail(s)
    }
}

/// The slices of the pause between two attempts of the current loop.
pub open spec fn spec_pause_slices(s: HealthProbe) -> u32 {
    if s.reached_live {
        s.config.readiness_pause_slices
    } else {
        1
    }
}

/// The machine after an attempt has failed: at rest in `Failed` when this was
/// the last attempt allowed, pausing before the next one otherwise.
pub open spec fn spec_attempt_failed(s: HealthProbe) -> HealthProbe {
    if s.attempt < spec_budget(s) {
        if spec_pause_slices(s) == 0 {
            spec_next_attempt(s)
        } else {
            HealthProbe { awaiting: Awaiting::Pause { slices_left: spec_pause_slices(s) }, ..s }
        }
    } else {
        spec_fail(s)
    }
}

/// The machine right after the process has been spawned.
pub open spec fn spec_start(config: ProbeConfig) -> HealthProbe {
    spec_next_attempt(
        HealthProbe {
            config,
            phase: Phase::Spawned,
            attempt: 0,
            awaiting: Awaiting::Nothing,
            reached_live: false,
        },
    )
}

/// Whether `event` is what the machine is waiting for.
pub open spec fn spec_answers(s: HealthProbe, event: Event) -> bool {
    match s.awaiting {
        Awaiting::Reply(endpoint) => event matches Event::Probed(a) && a.endpoint == endpoint,
        Awaiting::Delay => event is Woke,
        Awaiting::Pause { slices_left } => event is Woke,
        Awaiting::Nothing => false,
    }
}

/// The transition function. An event that the machine is not waiting for
/// leaves it as it is.
pub open spec fn spec_step(s: HealthProbe, event: Event) -> HealthProbe {
    if !spec_answers(s, event) {
        s
    } else {
        match s.awaiting {
            Awaiting::Reply(endpoint) => {
                let attempt = event->Probed_0;
                if spec_accepts(s.reached_live, attempt) {
                    spec_advance(s)
                } else if spec_falls_back(s, attempt) {
                    HealthProbe { awaiting: Awaiting::Reply(Endpoint::Root), ..s }
                } else {
                    spec_attempt_failed(s)
                }
            },
            Awaiting::Delay => spec_next_attempt(s),
            Awaiting::Pause { slices_left } => if slices_left > 1 {
                HealthProbe {
                    awaiting: Awaiting::Pause { slices_left: (slices_left - 1) as u32 },
                    ..s
                }
            } else {
                spec_next_attempt(s)
            },
            Awaiting::Nothing => s,
        }
    }
}

/// What the driver is to do in state `s`.
pub open spec fn spec_action(s: HealthProbe) -> Action {
    match s.awaiting {
        Awaiting::Reply(endpoint) => Action::Get(endpoint),
        Awaiting::Delay => Action::Sleep { millis: s.config.readiness_delay_ms },
        Awaiting::Pause { slices_left } => Action::Sleep {
            millis: if s.reached_live {
                s.config.readiness_slice_ms
            } else {
                s.config.liveness_pause_ms
            },
        },
        Awaiting::Nothing => if s.phase == Phase::Ready {
            Action::Finish
        } else {
            Action::GiveUp
        },
    }
}

/// The machine after it was started and given `events` one after the other.
pub open spec fn spec_run(config: ProbeConfig, events: Seq<Event>) -> HealthProbe
    decreases events.len(),
{
    if events.len() == 0 {
        spec_start(config)
    } else {
        spec_step(spec_run(config, events.drop_last()), events.last())
    }
}

/// Why the machine gave up, if it did.
pub open spec fn spec_error(s: HealthProbe) -> Option<ProbeTimeoutError> {
    if s.phase != Phase::Failed {
        None
    } else if s.reached_live {
        Some(ProbeTimeoutError::NotReady { attempts: s.attempt })
    } else {
        Some(ProbeTimeoutError::NotResponding { attempts: s.attempt })
    }
}

/// What the user is told when the backend never answered.
pub open spec fn spec_not_responding_message() -> Seq<char> {
    "Python server started but not responding properly on port 8000. Check for errors in the Python console."@
}

/// What the user is told when the backend answered but never became ready.
pub open spec fn spec_not_ready_message() -> Seq<char> {
    "Failed to start server"@
}

impl ProbeTimeoutError {
    /// A description of the failure for the user.
    pub fn message(&self) -> (m: &'static str)
        ensures
            m@ == match *self {
                ProbeTimeoutError::NotResponding { attempts } => spec_not_responding_message(),
                ProbeTimeoutError::NotReady { attempts } => spec_not_ready_message(),
            },
    {
        match self {
            ProbeTimeoutError::NotResponding { .. } =>
                "Python server started but not responding properly on port 8000. Check for errors in the Python console.",
            ProbeTimeoutError::NotReady { .. } => "Failed to start server",
        }
    }
}

/// The address at which the backend listens.
pub open spec fn spec_base_url() -> Seq<char> {
    "http://localhost:8000"@
}

/// The address of an endpoint.
pub open spec fn spec_url(endpoint: Endpoint) -> Seq<char> {
    spec_base_url() + match endpoint {
        Endpoint::Health => "/api/health"@,
        Endpoint::Root => "/"@,
        Endpoint::Login => "/login"@,
    }
}

impl Endpoint {
    /// The address to which a request for this endpoint goes.
    pub fn url(&self) -> (u: String)
        ensures
            u@ == spec_url(*self),
    {
        let mut u = String::from_str("http://localhost:8000");
        match self {
            Endpoint::Health => u.append("/api/health"),
            Endpoint::Root => u.append("/"),
            Endpoint::Login => u.append("/login"),
        }
        u
    }
}

impl ProbeConfig {
    /// The bounds that the supervisor uses unless told otherwise.
    pub fn standard() -> (config: ProbeConfig)
        ensures
            config == spec_default_config(),
    {
        ProbeConfig {
            liveness_attempts: 20,
            liveness_pause_ms: 2000,
            readiness_attempts: 15,
            readiness_delay_ms: 3000,
            readiness_pause_slices: 4,
            readiness_slice_ms: 500,
        }
    }
}

impl ProbeAttempt {
    /// Whether this answer lets a polling loop succeed: the liveness loop, or,
    /// with `readiness` set, the readiness loop.
    pub fn accepted(&self, readiness: bool) -> (r: bool)
        ensures
            r == spec_accepts(readiness, *self),
    {
        match self.outcome {
            ProbeOutcome::TransportError => false,
            ProbeOutcome::Status(status) => {
                if status.is_success() {
                    true
                } else if readiness {
                    match self.endpoint {
                        Endpoint::Root => status.is_unauthorized(),
                        _ => false,
                    }
                } else {
                    false
                }
            },
        }
    }
}

impl HealthProbe {
    /// The machine right after the process has been spawned.
    pub fn start(config: ProbeConfig) -> (p: HealthProbe)
        ensures
            p == spec_start(config),
    {
        let mut p = HealthProbe {
            config,
            phase: Phase::Spawned,
            attempt: 0,
            awaiting: Awaiting::Nothing,
            reached_live: false,
        };
        p.next_attempt();
        p
    }

    fn budget(&self) -> (n: u32)
        ensures
            n == spec_budget(*self),
    {
        if self.reached_live {
            self.config.readiness_attempts
        } else {
            self.config.liveness_attempts
        }
    }

    fn primary(&self) -> (e: Endpoint)
        ensures
            e == spec_primary(*self),
    {
        if self.reached_live {
            Endpoint::Login
        } else {
            Endpoint::Health
        }
    }

    fn fail(&mut self)
        ensures
            *final(self) == spec_fail(*old(self)),
    {
        self.phase = Phase::Failed;
        self.awaiting = Awaiting::Nothing;
    }

    fn next_attempt(&mut self)
        ensures
            *final(self) == spec_next_attempt(*old(self)),
    {
        if self.attempt < self.budget() {
            self.awaiting = Awaiting::Reply(self.primary());
            self.attempt = self.attempt + 1;
        } else {
            self.fail();
        }
    }

    fn attempt_failed(&mut self)
        ensures
            *final(self) == spec_attempt_failed(*old(self)),
    {
        if self.attempt < self.budget() {
            let slices = if self.reached_live {
                self.config.readiness_pause_slices
            } else {
                1
            };
            if slices == 0 {
                self.next_attempt();
            } else {
                self.awaiting = Awaiting::Pause { slices_left: slices };
            }
        } else {
            self.fail();
        }
    }

    fn advance(&mut self)
        ensures
            *final(self) == spec_advance(*old(self)),
    {
        if self.reached_live {
            self.phase = Phase::Ready;
            self.awaiting = Awaiting::Nothing;
        } else {
            self.phase = Phase::Live;
            self.attempt = 0;
            self.awaiting = Awaiting::Delay;
            self.reached_live = true;
        }
    }

    /// Whether `event` is what the machine is waiting for.
    pub fn answers(&self, event: &Event) -> (r: bool)
        ensures
            r == spec_answers(*self, *event),
    {
        match self.awaiting {
            Awaiting::Reply(endpoint) => {
                match event {
                    Event::Probed(attempt) => attempt.endpoint == endpoint,
                    Event::Woke => false,
                }
            },
            Awaiting::Delay => matches!(event, Event::Woke),
            Awaiting::Pause { slices_left } => matches!(event, Event::Woke),
            Awaiting::Nothing => false,
        }
    }

    /// What the driver is to do now.
    pub fn action(&self) -> (a: Action)
        ensures
            a == spec_action(*self),
    {
        match self.awaiting {
            Awaiting::Reply(endpoint) => Action::Get(endpoint),
            Awaiting::Delay => Action::Sleep { millis: self.config.readiness_delay_ms },
            Awaiting::Pause { slices_left } => {
                if self.reached_live {
                    Action::Sleep { millis: self.config.readiness_slice_ms }
                } else {
                    Action::Sleep { millis: self.config.liveness_pause_ms }
                }
            },
            Awaiting::Nothing => {
                match self.phase {
                    Phase::Ready => Action::Finish,
                    _ => Action::GiveUp,
                }
            },
        }
    }

    /// Takes in what happened and says what the driver is to do next.
    pub fn step(&mut self, event: Event) -> (next: Action)
        ensures
            *final(self) == spec_step(*old(self), event),
            next == spec_action(*final(self)),
    {
        match self.awaiting {
            Awaiting::Reply(endpoint) => {
                match event {
                    Event::Probed(attempt) => {
                        if attempt.endpoint == endpoint {
                            if attempt.accepted(self.reached_live) {
                                self.advance();
                            } else if attempt.endpoint == self.primary() && matches!(
                                attempt.outcome,
                                ProbeOutcome::TransportError
                            ) {
                                self.awaiting = Awaiting::Reply(Endpoint::Root);
                            } else {
                                self.attempt_failed();
                            }
                        }
                    },
                    Event::Woke => {},
                }
            },
            Awaiting::Delay => {
                match event {
                    Event::Woke => {
                        self.next_attempt();
                    },
                    Event::Probed(_) => {},
                }
            },
            Awaiting::Pause { slices_left } => {
                match event {
                    Event::Woke => {
                        if slices_left > 1 {
                            self.awaiting = Awaiting::Pause { slices_left: slices_left - 1 };
                        } else {
                            self.next_attempt();
                        }
                    },
                    Event::Probed(_) => {},
                }
            },
            Awaiting::Nothing => {},
        }
        self.action()
    }

    /// Starts a machine and gives it `events` one after the other.
    pub fn run(config: ProbeConfig, events: &Vec<Event>) -> (p: HealthProbe)
        ensures
            p == spec_run(config, events@),
    {
        let mut p = HealthProbe::start(config);
        let mut i: usize = 0;
        assert(events@.take(0) =~= Seq::<Event>::empty());
        while i < events.len()
            invariant
                i <= events.len(),
                p == spec_run(config, events@.take(i as int)),
            decreases events.len() - i,
        {
            let _ = p.step(events[i]);
            proof {
                let next = events@.take(i + 1);
                assert(next.drop_last() =~= events@.take(i as int));
                assert(next.last() == events@[i as int]);
            }
            i = i + 1;
        }
        assert(events@.take(i as int) =~= events@);
        p
    }

    /// Why the machine gave up, if it did.
    pub fn error(&self) -> (e: Option<ProbeTimeoutError>)
        ensures
            e == spec_error(*self),
    {
        match self.phase {
            Phase::Failed => {
                if self.reached_live {
                    Some(ProbeTimeoutError::NotReady { attempts: self.attempt })
                } else {
                    Some(ProbeTimeoutError::NotResponding { attempts: self.attempt })
                }
            },
            _ => None,
        }
    }
}

} // verus!
