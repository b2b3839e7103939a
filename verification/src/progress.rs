//! Progress events for the presentation layer: for every step of the startup
//! a message and a percentage that never falls, for every failure a message
//! flagged as an error and no percentage.

use crate::text::{contains, decimal, push_decimal, str_contains};
use vstd::prelude::*;

verus! {

/// One notice to the presentation layer.
#[derive(Clone, Debug, PartialEq, Eq)]
pub struct ProgressEvent {
    pub message: String,
    /// Percentage done, absent when the startup has failed.
    pub progress: Option<u32>,
    pub is_error: bool,
}

pub struct ProgressEventView {
    pub message: Seq<char>,
    pub progress: Option<u32>,
    pub is_error: bool,
}

impl View for ProgressEvent {
    type V = ProgressEventView;

    open spec fn view(&self) -> ProgressEventView {
        ProgressEventView {
            message: self.message@,
            progress: self.progress,
            is_error: self.is_error,
        }
    }
}

/// A sign that the backend is starting up, read off its files.
#[derive(Clone, Copy, Debug, PartialEq, Eq, Structural)]
pub enum Indicator {
    /// The database file was written to a moment ago.
    DatabaseActive,
    /// The log holds the backend's startup banner.
    FrameworkStarting,
    /// The log holds informational lines.
    LoggingActive,
}

/// The steps of a startup that goes well, in the order in which they occur.
#[derive(Clone, Copy, Debug, PartialEq, Eq, Structural)]
pub enum Stage {
    FindingWorkingDirectory,
    CheckingEntryFile,
    LookingForInterpreter,
    StartingProcess,
    ProcessStarted,
    LoadingModules,
    InitializingFramework,
    SettingUpDatabase,
    /// An indicator was seen in the given round of looking for one.
    IndicatorSeen { round: u32, indicator: Indicator },
    ConfiguringMiddleware,
    RegisteringRoutes,
    BindingPort,
    StartupComplete,
    /// Readiness attempt `attempt` of `of` begins.
    ReadinessAttempt { attempt: u32, of: u32 },
    /// Slice `slice` of `slices` of the pause after readiness attempt
    /// `attempt` of `of` is over.
    RetryWait { attempt: u32, of: u32, slice: u32, slices: u32 },
    ConnectionEstablished,
    Ready,
}

/// The percentage at which the readiness phase begins.
pub open spec fn spec_readiness_base() -> int {
    38
}

/// The share of the percentage scale that the readiness attempts take up.
pub open spec fn spec_readiness_span() -> int {
    52
}

/// The percentage shown when readiness attempt `attempt` of `of` begins.
pub open spec fn spec_attempt_percent(attempt: u32, of: u32) -> int {
    if of == 0 {
        spec_readiness_base()
    } else {
        spec_readiness_base() + (attempt * spec_readiness_span()) / (of as int)
    }
}

/// The percentage shown during the pause after a readiness attempt: one more
/// than at the attempt once the last slice is over.
pub open spec fn spec_wait_percent(attempt: u32, of: u32, slice: u32, slices: u32) -> int {
    spec_attempt_percent(attempt, of) + if slices == 0 {
        0
    } else {
        slice as int / slices as int
    }
}

/// The percentage that belongs to a stage by itself.
pub open spec fn spec_nominal_percent(stage: Stage) -> int {
    match stage {
        Stage::FindingWorkingDirectory => 5,
        Stage::CheckingEntryFile => 8,
        Stage::LookingForInterpreter => 12,
        Stage::StartingProcess => 15,
        Stage::ProcessStarted => 18,
        Stage::LoadingModules => 20,
        Stage::InitializingFramework => 23,
        Stage::SettingUpDatabase => 26,
        Stage::IndicatorSeen { round, indicator } => 26 + round,
        Stage::ConfiguringMiddleware => 30,
        Stage::RegisteringRoutes => 33,
        Stage::BindingPort => 36,
        Stage::StartupComplete => 38,
        Stage::ReadinessAttempt { attempt, of } => spec_attempt_percent(attempt, of),
        Stage::RetryWait { attempt, of, slice, slices } => spec_wait_percent(
            attempt,
            of,
            slice,
            slices,
        ),
        Stage::ConnectionEstablished => 95,
        Stage::Ready => 100,
    }
}

/// The percentage that is shown for a stage when `last` was shown before: the
/// stage's own, cut off at 100, but never less than `last`.
pub open spec fn spec_shown_percent(last: u32, stage: Stage) -> u32 {
    let nominal = spec_nominal_percent(stage);
    let capped = if nominal > 100 {
        100
    } else {
        nominal
    };
    if capped < last {
        last
    } else {
        capped as u32
    }
}

/// The text of an indicator.
pub open spec fn spec_indicator_message(indicator: Indicator) -> Seq<char> {
    match indicator {
        Indicator::DatabaseActive => "Database recently accessed"@,
        Indicator::FrameworkStarting => "FastAPI startup detected"@,
        Indicator::LoggingActive => "Server logging active"@,
    }
}

/// " (a/n)": how far the attempts have come.
pub open spec fn spec_count_suffix(attempt: u32, of: u32) -> Seq<char> {
    " ("@ + decimal(attempt as nat) + "/"@ + decimal(of as nat) + ")"@
}

/// What a readiness attempt is said to be doing. The wording goes by how far
/// the attempts have come: up to the third, the seventh, the twelfth, beyond.
pub open spec fn spec_attempt_activity(attempt: u32) -> Seq<char> {
    if attempt <= 3 {
        "Waiting for server to bind..."@
    } else if attempt <= 7 {
        "Testing HTTP endpoints..."@
    } else if attempt <= 12 {
        "Verifying database connection..."@
    } else {
        "Final connectivity check..."@
    }
}

/// The message of a stage.
pub open spec fn spec_message(stage: Stage) -> Seq<char> {
    match stage {
        Stage::FindingWorkingDirectory => "Finding working directory..."@,
        Stage::CheckingEntryFile => "Checking for app.py..."@,
        Stage::LookingForInterpreter => "Looking for Python environment..."@,
        Stage::StartingProcess => "Starting Python process..."@,
        Stage::ProcessStarted => "Python process started..."@,
        Stage::LoadingModules => "Loading Python modules..."@,
        Stage::InitializingFramework => "Initializing FastAPI..."@,
        Stage::SettingUpDatabase => "Setting up database..."@,
        Stage::IndicatorSeen { round, indicator } => spec_indicator_message(indicator),
        Stage::ConfiguringMiddleware => "Configuring middleware..."@,
        Stage::RegisteringRoutes => "Registering API routes..."@,
        Stage::BindingPort => "Binding to port 8000..."@,
        Stage::StartupComplete => "Server startup complete"@,
        Stage::ReadinessAttempt { attempt, of } => spec_attempt_activity(attempt)
            + spec_count_suffix(attempt, of),
        Stage::RetryWait { attempt, of, slice, slices } => "Waiting before retry..."@
            + spec_count_suffix(attempt, of),
        Stage::ConnectionEstablished => "Connection established!"@,
        Stage::Ready => "Ready!"@,
    }
}

/// The event for a stage when `last` was the percentage shown before.
pub open spec fn spec_stage_event(last: u32, stage: Stage) -> ProgressEventView {
    ProgressEventView {
        message: spec_message(stage),
        progress: Some(spec_shown_percent(last, stage)),
        is_error: false,
    }
}

/// The event for a launch that failed for the given reason.
pub open spec fn spec_failure_event(reason: Seq<char>) -> ProgressEventView {
    ProgressEventView { message: "Error: "@ + reason, progress: None, is_error: true }
}

/// The event for a backend that never became ready.
pub open spec fn spec_not_ready_event() -> ProgressEventView {
    ProgressEventView {
        message: crate::probe::spec_not_ready_message(),
        progress: None,
        is_error: true,
    }
}

/// How long a stage stays on show before the startup goes on, in
/// milliseconds.
pub open spec fn spec_hold_millis(stage: Stage) -> u64 {
    match stage {
        Stage::FindingWorkingDirectory => 100,
        Stage::CheckingEntryFile => 100,
        Stage::LookingForInterpreter => 100,
        Stage::ProcessStarted => 300,
        Stage::LoadingModules => 800,
        Stage::InitializingFramework => 600,
        Stage::ConfiguringMiddleware => 400,
        Stage::RegisteringRoutes => 500,
        Stage::BindingPort => 600,
        Stage::StartupComplete => 400,
        Stage::ConnectionEstablished => 200,
        Stage::Ready => 300,
        _ => 0,
    }
}

impl Indicator {
    /// The text of this indicator.
    pub fn message(&self) -> (m: &'static str)
        ensures
            m@ == spec_indicator_message(*self),
    {
        match self {
            Indicator::DatabaseActive => "Database recently accessed",
            Indicator::FrameworkStarting => "FastAPI startup detected",
            Indicator::LoggingActive => "Server logging active",
        }
    }
}

/// Appends " (a/n)" to `buf`.
fn push_count_suffix(buf: &mut String, attempt: u32, of: u32)
    ensures
        final(buf)@ == old(buf)@ + spec_count_suffix(attempt, of),
{
    buf.append(" (");
    push_decimal(buf, attempt);
    buf.append("/");
    push_decimal(buf, of);
    buf.append(")");
    assert(buf@ =~= old(buf)@ + spec_count_suffix(attempt, of));
}

impl Stage {
    /// The percentage that belongs to this stage by itself, cut off at 100.
    pub fn percent(&self) -> (p: u32)
        ensures
            p == spec_shown_percent(0, *self),
    {
        match *self {
            Stage::FindingWorkingDirectory => 5,
            Stage::CheckingEntryFile => 8,
            Stage::LookingForInterpreter => 12,
            Stage::StartingProcess => 15,
            Stage::ProcessStarted => 18,
            Stage::LoadingModules => 20,
            Stage::InitializingFramework => 23,
            Stage::SettingUpDatabase => 26,
            Stage::IndicatorSeen { round, indicator } => {
                if round >= 74 {
                    100
                } else {
                    26 + round
                }
            },
            Stage::ConfiguringMiddleware => 30,
            Stage::RegisteringRoutes => 33,
            Stage::BindingPort => 36,
            Stage::StartupComplete => 38,
            Stage::ReadinessAttempt { attempt, of } => cap(attempt_percent(attempt, of)),
            Stage::RetryWait { attempt, of, slice, slices } => {
                let base: u64 = attempt_percent(attempt, of);
                let extra: u64 = if slices == 0 {
                    0
                } else {
                    (slice / slices) as u64
                };
                cap(base + extra)
            },
            Stage::ConnectionEstablished => 95,
            Stage::Ready => 100,
        }
    }

    /// How long this stage stays on show before the startup goes on, in
    /// milliseconds.
    pub fn hold_millis(&self) -> (ms: u64)
        ensures
            ms == spec_hold_millis(*self),
    {
        match *self {
            Stage::FindingWorkingDirectory => 100,
            Stage::CheckingEntryFile => 100,
            Stage::LookingForInterpreter => 100,
            Stage::ProcessStarted => 300,
            Stage::LoadingModules => 800,
            Stage::InitializingFramework => 600,
            Stage::ConfiguringMiddleware => 400,
            Stage::RegisteringRoutes => 500,
            Stage::BindingPort => 600,
            Stage::StartupComplete => 400,
            Stage::ConnectionEstablished => 200,
            Stage::Ready => 300,
            _ => 0,
        }
    }

    /// The message of this stage.
    pub fn message(&self) -> (m: String)
        ensures
            m@ == spec_message(*self),
    {
        match *self {
            Stage::FindingWorkingDirectory => String::from_str("Finding working directory..."),
            Stage::CheckingEntryFile => String::from_str("Checking for app.py..."),
            Stage::LookingForInterpreter => String::from_str("Looking for Python environment..."),
            Stage::StartingProcess => String::from_str("Starting Python process..."),
            Stage::ProcessStarted => String::from_str("Python process started..."),
            Stage::LoadingModules => String::from_str("Loading Python modules..."),
            Stage::InitializingFramework => String::from_str("Initializing FastAPI..."),
            Stage::SettingUpDatabase => String::from_str("Setting up database..."),
            Stage::IndicatorSeen { round, indicator } => String::from_str(indicator.message()),
            Stage::ConfiguringMiddleware => String::from_str("Configuring middleware..."),
            Stage::RegisteringRoutes => String::from_str("Registering API routes..."),
            Stage::BindingPort => String::from_str("Binding to port 8000..."),
            Stage::StartupComplete => String::from_str("Server startup complete"),
            Stage::ReadinessAttempt { attempt, of } => {
                let mut m = if attempt <= 3 {
                    String::from_str("Waiting for server to bind...")
                } else if attempt <= 7 {
                    String::from_str("Testing HTTP endpoints...")
                } else if attempt <= 12 {
                    String::from_str("Verifying database connection...")
                } else {
                    String::from_str("Final connectivity check...")
                };
                push_count_suffix(&mut m, attempt, of);
                m
            },
            Stage::RetryWait { attempt, of, slice, slices } => {
                let mut m = String::from_str("Waiting before retry...");
                push_count_suffix(&mut m, attempt, of);
                m
            },
            Stage::ConnectionEstablished => String::from_str("Connection established!"),
            Stage::Ready => String::from_str("Ready!"),
        }
    }
}

/// The percentage shown when readiness attempt `attempt` of `of` begins.
fn attempt_percent(attempt: u32, of: u32) -> (p: u64)
    ensures
        p == spec_attempt_percent(attempt, of),
        p <= 38 + 52 * 0xffff_ffff,
{
    if of == 0 {
        38
    } else {
        let scaled: u64 = (attempt as u64) * 52;
        assert(scaled / (of as u64) <= scaled) by (nonlinear_arith)
            requires
                of >= 1,
        ;
        38 + scaled / (of as u64)
    }
}

/// Cuts a percentage off at 100.
fn cap(p: u64) -> (r: u32)
    ensures
        r == if p > 100 {
            100
        } else {
            p
        },
{
    if p > 100 {
        100
    } else {
        p as u32
    }
}

/// Hands out the progress events of one startup and sees to it that the
/// percentage never falls.
#[derive(Debug)]
pub struct ProgressReporter {
    last: u32,
}

impl ProgressReporter {
    #[verifier::type_invariant]
    spec fn within_scale(&self) -> bool {
        self.last <= 100
    }

    /// The percentage shown last, 0 before the first event.
    pub closed spec fn spec_last(&self) -> u32 {
        self.last
    }

    /// A reporter that has shown nothing yet.
    pub fn new() -> (r: ProgressReporter)
        ensures
            r.spec_last() == 0,
    {
        ProgressReporter { last: 0 }
    }

    /// The percentage shown last, 0 before the first event.
    pub fn last(&self) -> (p: u32)
        ensures
            p == self.spec_last(),
            p <= 100,
    {
        proof {
            use_type_invariant(self);
        }
        self.last
    }

    /// The event for `stage`. Its percentage is the stage's own unless a
    /// higher one was shown before; it becomes the percentage shown last.
    pub fn report(&mut self, stage: Stage) -> (event: ProgressEvent)
        ensures
            event@ == spec_stage_event(old(self).spec_last(), stage),
            final(self).spec_last() == spec_shown_percent(old(self).spec_last(), stage),
            old(self).spec_last() <= final(self).spec_last() <= 100,
    {
        proof {
            use_type_invariant(&*self);
        }
        let own = stage.percent();
        let shown = if own < self.last {
            self.last
        } else {
            own
        };
        self.last = shown;
        ProgressEvent { message: stage.message(), progress: Some(shown), is_error: false }
    }

    /// The event for a launch that failed for the given reason: an error
    /// without a percentage. The percentage shown last stays.
    pub fn report_failure(&self, reason: &str) -> (event: ProgressEvent)
        ensures
            event@ == spec_failure_event(reason@),
    {
        let mut message = String::from_str("Error: ");
        message.append(reason);
        ProgressEvent { message, progress: None, is_error: true }
    }

    /// The event for a backend that never became ready: an error without a
    /// percentage. The percentage shown last stays.
    pub fn report_not_ready(&self) -> (event: ProgressEvent)
        ensures
            event@ == spec_not_ready_event(),
    {
        ProgressEvent {
            message: String::from_str("Failed to start server"),
            progress: None,
            is_error: true,
        }
    }
}

/// How recent a change of the database file must be to count, in seconds.
pub open spec fn spec_recent_secs() -> u64 {
    10
}

/// How long, in bytes, a log must be for informational lines to count.
pub open spec fn spec_log_floor() -> int {
    100
}

/// The indicator that the backend's files show, if any: a database file
/// changed less than ten seconds ago; else the startup banner in the log; else
/// informational lines in a log of more than a hundred bytes.
pub open spec fn spec_indicator(db_age_secs: Option<u64>, log: Option<Seq<char>>) -> Option<
    Indicator,
> {
    if db_age_secs matches Some(age) && age < spec_recent_secs() {
        Some(Indicator::DatabaseActive)
    } else if log matches Some(text) && contains(text, "Starting Trade Journal"@) {
        Some(Indicator::FrameworkStarting)
    } else if log matches Some(text) && contains(text, "INFO"@) && vstd::utf8::encode_utf8(
        text,
    ).len() > spec_log_floor() {
        Some(Indicator::LoggingActive)
    } else {
        None
    }
}

/// The file name of the backend's database.
pub fn database_file_name() -> (s: &'static str)
    ensures
        s@ == "trade_journal.db"@,
{
    "trade_journal.db"
}

/// The view of an optional text.
pub open spec fn opt_text(s: Option<&str>) -> Option<Seq<char>> {
    match s {
        None => None,
        Some(t) => Some(t@),
    }
}

/// Reads the signs of a starting backend off what its files hold:
/// `db_age_secs` is the time since the database file was last changed, where
/// that could be read, and `log` is the content of the log, where there is one.
pub fn startup_indicator(db_age_secs: Option<u64>, log: Option<&str>) -> (r: Option<Indicator>)
    ensures
        r == spec_indicator(db_age_secs, opt_text(log)),
{
    if let Some(age) = db_age_secs {
        if age < 10 {
            return Some(Indicator::DatabaseActive);
        }
    }
    if let Some(text) = log {
        if str_contains(text, "Starting Trade Journal") {
            return Some(Indicator::FrameworkStarting);
        }
        if str_contains(text, "INFO") && text.as_bytes().len() > 100 {
            return Some(Indicator::LoggingActive);
        }
    }
    None
}

/// What is shown while looking for an indicator: whether one was seen, and
/// the text to show.
pub fn indicator_status(indicator: Option<Indicator>) -> (r: (bool, String))
    ensures
        r.0 == indicator is Some,
        r.1@ == match indicator {
            Some(i) => spec_indicator_message(i),
            None => "Starting up..."@,
        },
{
    match indicator {
        Some(i) => (true, String::from_str(i.message())),
        None => (false, String::from_str("Starting up...")),
    }
}

} // verus!
