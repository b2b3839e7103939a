//! The course of one startup, from looking for the working directory to
//! showing the application or giving up.
//!
//! The supervisor decides; it does not act. It hands out commands, the driver
//! carries them out in order and reports the result of the last one back.

use crate::launch::{
    spec_launch_message, spec_plan, spec_settle_error, spec_settle_millis, LaunchError,
    LaunchErrorView, LaunchPlan, LaunchPlanView, LaunchProbe, Platform, ProcessLauncher,
    SettleOutcome,
};
use crate::paths::{
    entry_paths, spec_choice, spec_resolution_message, Layout, PathResolver,
};
use crate::probe::{
    spec_action, spec_answers, spec_not_responding_message, spec_start, spec_step, Action,
    Awaiting, Endpoint, Event, HealthProbe, Phase, ProbeAttempt, ProbeConfig,
};
use crate::progress::{
    spec_failure_event, spec_hold_millis, spec_not_ready_event, spec_shown_percent,
    spec_stage_event, Indicator, ProgressEvent, ProgressEventView, ProgressReporter, Stage,
};
use vstd::prelude::*;

verus! {

/// Where a startup stands: what the supervisor is waiting to be told.
#[derive(Clone, Copy, Debug, PartialEq, Eq, Structural)]
pub enum Step {
    /// What the host's directories hold.
    Resolving,
    /// What the working directory holds.
    Inspecting,
    /// Whether the process could be spawned.
    Spawning,
    /// The end of the settle interval.
    Settling,
    /// What became of the child in the settle interval.
    Checking,
    /// What the health probe asked for.
    Probing,
    /// Whether the backend's files show a sign of life, asked so many times
    /// before.
    Watching { round: u32 },
    /// Nothing: the application is on show.
    Done,
    /// Nothing: the startup has failed.
    Exited,
}

/// What the driver reports back.
#[derive(Clone, Debug, PartialEq, Eq)]
pub enum Input {
    /// The host's directories and what they hold.
    Layout(Layout),
    /// What the working directory holds.
    Inspected(LaunchProbe),
    /// The log file could not be set up, so nothing was spawned.
    LogUnavailable { reason: String },
    /// The process could not be spawned.
    SpawnFailed { reason: String },
    /// The process runs.
    Spawned,
    /// What became of the child in the settle interval.
    Settled(SettleOutcome),
    /// A request has ended.
    Probed(ProbeAttempt),
    /// What the backend's files show.
    Indicator(Option<Indicator>),
    /// A sleep is over.
    Woke,
}

/// What the driver is to do.
#[derive(Clone, Debug, PartialEq, Eq)]
pub enum Command {
    /// Hand the event to the presentation layer.
    Report(ProgressEvent),
    /// Keep what is on show for so many milliseconds.
    Hold { millis: u64 },
    /// Find the host's directories and look for the entry file in each.
    FindLayout,
    /// Look for interpreters and the launch script in the working directory.
    Inspect { dir: String },
    /// Set up the log file and spawn the process in the working directory.
    Spawn { dir: String, plan: LaunchPlan },
    /// Sleep for so many milliseconds, then report that the sleep is over.
    Sleep { millis: u64 },
    /// Look whether the child has exited.
    CheckChild,
    /// Note the phase in the supervisor's state.
    RecordPhase(Phase),
    /// Look at the backend's files for a sign of life.
    LookForIndicator,
    /// Send a GET request to the endpoint.
    Get(Endpoint),
    /// Show the application window.
    ShowWindow,
    /// Close the splash window.
    CloseSplash,
    /// Terminate the child, if there is one, and wait until it has exited.
    Terminate,
    /// End the application with this exit status.
    Exit { code: i32 },
}

pub enum CommandView {
    Report(ProgressEventView),
    Hold { millis: u64 },
    FindLayout,
    Inspect { dir: Seq<char> },
    Spawn { dir: Seq<char>, plan: LaunchPlanView },
    Sleep { millis: u64 },
    CheckChild,
    RecordPhase(Phase),
    LookForIndicator,
    Get(Endpoint),
    ShowWindow,
    CloseSplash,
    Terminate,
    Exit { code: i32 },
}

impl View for Command {
    type V = CommandView;

    open spec fn view(&self) -> CommandView {
        match self {
            Command::Report(event) => CommandView::Report(event@),
            Command::Hold { millis } => CommandView::Hold { millis: *millis },
            Command::FindLayout => CommandView::FindLayout,
            Command::Inspect { dir } => CommandView::Inspect { dir: dir@ },
            Command::Spawn { dir, plan } => CommandView::Spawn { dir: dir@, plan: plan@ },
            Command::Sleep { millis } => CommandView::Sleep { millis: *millis },
            Command::CheckChild => CommandView::CheckChild,
            Command::RecordPhase(phase) => CommandView::RecordPhase(*phase),
            Command::LookForIndicator => CommandView::LookForIndicator,
            Command::Get(endpoint) => CommandView::Get(*endpoint),
            Command::ShowWindow => CommandView::ShowWindow,
            Command::CloseSplash => CommandView::CloseSplash,
            Command::Terminate => CommandView::Terminate,
            Command::Exit { code } => CommandView::Exit { code: *code },
        }
    }
}

/// The views of a sequence of commands.
pub open spec fn command_views(v: Seq<Command>) -> Seq<CommandView> {
    Seq::new(v.len(), |i: int| v[i]@)
}

/// What the supervisor knows, as plain values.
pub struct SupervisorView {
    pub platform: Platform,
    pub step: Step,
    pub probe: HealthProbe,
    /// The percentage shown last.
    pub shown: u32,
    /// The working directory, once it is resolved.
    pub working_directory: Option<Seq<char>>,
}

/// The exit status of a startup that failed.
pub open spec fn spec_failure_code() -> i32 {
    1
}

/// How long an error stays on show before the application ends, in
/// milliseconds.
pub open spec fn spec_error_grace_millis() -> u64 {
    3000
}

/// How long the last stage stays on show before the window appears, in
/// milliseconds.
pub open spec fn spec_show_delay_millis() -> u64 {
    1000
}

/// How long the splash window stays after the application window has
/// appeared, in milliseconds.
pub open spec fn spec_splash_linger_millis() -> u64 {
    200
}

/// How often the backend's files are looked at for a sign of life.
pub open spec fn spec_indicator_rounds() -> u32 {
    9
}

/// The time between two looks at the backend's files, in milliseconds.
pub open spec fn spec_indicator_interval_millis() -> u64 {
    100
}

/// The commands that put a stage on show: the report, and the hold if the
/// stage has one.
pub open spec fn spec_emit(shown: u32, stage: Stage) -> Seq<CommandView> {
    if spec_hold_millis(stage) == 0 {
        seq![CommandView::Report(spec_stage_event(shown, stage))]
    } else {
        seq![
            CommandView::Report(spec_stage_event(shown, stage)),
            CommandView::Hold { millis: spec_hold_millis(stage) },
        ]
    }
}

/// The commands that put the stages on show one after the other.
pub open spec fn spec_emit_all(shown: u32, stages: Seq<Stage>) -> Seq<CommandView>
    decreases stages.len(),
{
    if stages.len() == 0 {
        Seq::empty()
    } else {
        spec_emit_all(shown, stages.drop_last()) + spec_emit(
            spec_shown_after(shown, stages.drop_last()),
            stages.last(),
        )
    }
}

/// The percentage on show after the stages were put on show one after the
/// other.
pub open spec fn spec_shown_after(shown: u32, stages: Seq<Stage>) -> u32
    decreases stages.len(),
{
    if stages.len() == 0 {
        shown
    } else {
        spec_shown_percent(spec_shown_after(shown, stages.drop_last()), stages.last())
    }
}

/// The command that carries out an action of the health probe.
pub open spec fn spec_action_command(action: Action) -> CommandView {
    match action {
        Action::Get(endpoint) => CommandView::Get(endpoint),
        Action::Sleep { millis } => CommandView::Sleep { millis },
        Action::Finish => CommandView::ShowWindow,
        Action::GiveUp => CommandView::Exit { code: spec_failure_code() },
    }
}

/// The commands that end a startup that has failed: the error goes on show
/// and stays for the grace period, the child, if one was spawned, is
/// terminated, and the application exits with a non-zero status.
pub open spec fn spec_give_up(event: ProgressEventView, spawned: bool) -> Seq<CommandView> {
    seq![CommandView::Report(event), CommandView::Hold { millis: spec_error_grace_millis() }]
        + if spawned {
        seq![CommandView::Terminate]
    } else {
        Seq::empty()
    } + seq![CommandView::Exit { code: spec_failure_code() }]
}

/// The supervisor at the beginning of a startup, with its first commands.
pub open spec fn spec_begin(platform: Platform, config: ProbeConfig) -> (
    SupervisorView,
    Seq<CommandView>,
) {
    (
        SupervisorView {
            platform,
            step: Step::Resolving,
            probe: spec_start(config),
            shown: spec_shown_percent(0, Stage::FindingWorkingDirectory),
            working_directory: None,
        },
        spec_emit(0, Stage::FindingWorkingDirectory) + seq![CommandView::FindLayout],
    )
}

/// The stages shown once the host's directories are known and one of them
/// holds the entry file.
pub open spec fn spec_resolved_stages() -> Seq<Stage> {
    seq![Stage::CheckingEntryFile, Stage::LookingForInterpreter]
}

/// The stages shown when the backend has begun to answer.
pub open spec fn spec_live_stages() -> Seq<Stage> {
    seq![
        Stage::ProcessStarted,
        Stage::LoadingModules,
        Stage::InitializingFramework,
        Stage::SettingUpDatabase,
    ]
}

/// The stages shown after the backend's files were looked at.
pub open spec fn spec_settled_stages() -> Seq<Stage> {
    seq![
        Stage::ConfiguringMiddleware,
        Stage::RegisteringRoutes,
        Stage::BindingPort,
        Stage::StartupComplete,
    ]
}

/// The stages shown when the backend has become ready.
pub open spec fn spec_ready_stages() -> Seq<Stage> {
    seq![Stage::ConnectionEstablished, Stage::Ready]
}

/// What happens when the host's directories are known.
pub open spec fn spec_on_layout(s: SupervisorView, layout: Layout) -> (
    SupervisorView,
    Seq<CommandView>,
) {
    match spec_choice(layout) {
        Some((source, dir)) => (
            SupervisorView {
                step: Step::Inspecting,
                shown: spec_shown_after(s.shown, spec_resolved_stages()),
                working_directory: Some(dir),
                ..s
            },
            spec_emit_all(s.shown, spec_resolved_stages()) + seq![CommandView::Inspect { dir }],
        ),
        None => (
            SupervisorView {
                step: Step::Exited,
                shown: spec_shown_percent(s.shown, Stage::CheckingEntryFile),
                ..s
            },
            spec_emit(s.shown, Stage::CheckingEntryFile) + spec_give_up(
                spec_failure_event(spec_resolution_message(entry_paths(layout.spec_chain()))),
                false,
            ),
        ),
    }
}

/// The working directory, empty as long as none is resolved.
pub open spec fn spec_dir(s: SupervisorView) -> Seq<char> {
    match s.working_directory {
        Some(dir) => dir,
        None => Seq::empty(),
    }
}

/// What happens when the content of the working directory is known.
pub open spec fn spec_on_inspected(s: SupervisorView, probe: LaunchProbe) -> (
    SupervisorView,
    Seq<CommandView>,
) {
    (
        SupervisorView {
            step: Step::Spawning,
            shown: spec_shown_percent(s.shown, Stage::StartingProcess),
            ..s
        },
        spec_emit(s.shown, Stage::StartingProcess) + seq![
            CommandView::Spawn { dir: spec_dir(s), plan: spec_plan(s.platform, probe) },
        ],
    )
}

/// What happens when a launch has failed.
pub open spec fn spec_on_launch_error(s: SupervisorView, error: LaunchErrorView, spawned: bool) -> (
    SupervisorView,
    Seq<CommandView>,
) {
    (
        SupervisorView { step: Step::Exited, ..s },
        spec_give_up(spec_failure_event(spec_launch_message(error)), spawned),
    )
}

/// What happens when the health probe has come to a new state.
pub open spec fn spec_on_probe(s: SupervisorView, before: HealthProbe, after: HealthProbe) -> (
    SupervisorView,
    Seq<CommandView>,
) {
    if after.phase == Phase::Failed {
        (
            SupervisorView { step: Step::Exited, probe: after, ..s },
            seq![CommandView::RecordPhase(Phase::Failed)] + spec_give_up(
                if after.reached_live {
                    spec_not_ready_event()
                } else {
                    spec_failure_event(spec_not_responding_message())
                },
                true,
            ),
        )
    } else if after.phase == Phase::Ready {
        (
            SupervisorView {
                step: Step::Done,
                probe: after,
                shown: spec_shown_after(s.shown, spec_ready_stages()),
                ..s
            },
            seq![CommandView::RecordPhase(Phase::Ready)] + spec_emit_all(
                s.shown,
                spec_ready_stages(),
            ) + seq![
                CommandView::Hold { millis: spec_show_delay_millis() },
                CommandView::ShowWindow,
                CommandView::Hold { millis: spec_splash_linger_millis() },
                CommandView::CloseSplash,
            ],
        )
    } else if after.phase == Phase::Live && before.phase != Phase::Live {
        (
            SupervisorView {
                step: Step::Watching { round: 0 },
                probe: after,
                shown: spec_shown_after(s.shown, spec_live_stages()),
                ..s
            },
            seq![CommandView::RecordPhase(Phase::Live)] + spec_emit_all(
                s.shown,
                spec_live_stages(),
            ) + seq![
                CommandView::Hold { millis: spec_indicator_interval_millis() },
                CommandView::LookForIndicator,
            ],
        )
    } else {
        let waited = spec_wait_stage(before);
        let shown = spec_shown_after(s.shown, waited);
        let begun = spec_attempt_stage(before, after);
        (
            SupervisorView {
                step: Step::Probing,
                probe: after,
                shown: spec_shown_after(shown, begun),
                ..s
            },
            spec_emit_all(s.shown, waited) + spec_emit_all(shown, begun) + seq![
                spec_action_command(spec_action(after)),
            ],
        )
    }
}

/// The stage to show when a slice of a pause between readiness attempts is
/// over, if that is what has just happened.
pub open spec fn spec_wait_stage(before: HealthProbe) -> Seq<Stage> {
    match before.awaiting {
        Awaiting::Pause { slices_left } => if before.reached_live && 1 <= slices_left
            <= before.config.readiness_pause_slices {
            seq![
                Stage::RetryWait {
                    attempt: before.attempt,
                    of: before.config.readiness_attempts,
                    slice: (before.config.readiness_pause_slices - slices_left + 1) as u32,
                    slices: before.config.readiness_pause_slices,
                },
            ]
        } else {
            Seq::empty()
        },
        _ => Seq::empty(),
    }
}

/// The stage to show when a further readiness attempt begins, if that is what
/// has just happened. The first attempt is shown before the wait that
/// precedes it.
pub open spec fn spec_attempt_stage(before: HealthProbe, after: HealthProbe) -> Seq<Stage> {
    if after.awaiting == Awaiting::Reply(Endpoint::Login) && after.attempt != before.attempt
        && !(before.awaiting is Delay) {
        seq![
            Stage::ReadinessAttempt {
                attempt: after.attempt,
                of: after.config.readiness_attempts,
            },
        ]
    } else {
        Seq::empty()
    }
}

/// The stage to show before the wait that precedes the first readiness
/// attempt, if there is an attempt to make.
pub open spec fn spec_first_attempt_stage(probe: HealthProbe) -> Seq<Stage> {
    if probe.config.readiness_attempts >= 1 {
        seq![Stage::ReadinessAttempt { attempt: 1, of: probe.config.readiness_attempts }]
    } else {
        Seq::empty()
    }
}

/// What happens when the child was looked at after the settle interval.
pub open spec fn spec_on_settled(s: SupervisorView, outcome: SettleOutcome) -> (
    SupervisorView,
    Seq<CommandView>,
) {
    match spec_settle_error(outcome) {
        Some(error) => spec_on_launch_error(s, error, true),
        None => if s.probe.phase == Phase::Failed {
            spec_on_probe(s, s.probe, s.probe)
        } else {
            (
                SupervisorView { step: Step::Probing, ..s },
                seq![spec_action_command(spec_action(s.probe))],
            )
        },
    }
}

/// What happens when the backend's files were looked at.
pub open spec fn spec_on_indicator(s: SupervisorView, round: u32, seen: Option<Indicator>) -> (
    SupervisorView,
    Seq<CommandView>,
) {
    if seen is None && round + 1 < spec_indicator_rounds() {
        (
            SupervisorView { step: Step::Watching { round: (round + 1) as u32 }, ..s },
            seq![
                CommandView::Hold { millis: spec_indicator_interval_millis() },
                CommandView::LookForIndicator,
            ],
        )
    } else {
        let noticed = match seen {
            Some(indicator) => seq![Stage::IndicatorSeen { round, indicator }],
            None => Seq::empty(),
        };
        let shown = spec_shown_after(s.shown, noticed);
        let settled = spec_shown_after(shown, spec_settled_stages());
        let first = spec_first_attempt_stage(s.probe);
        (
            SupervisorView { step: Step::Probing, shown: spec_shown_after(settled, first), ..s },
            spec_emit_all(s.shown, noticed) + spec_emit_all(shown, spec_settled_stages())
                + spec_emit_all(settled, first) + seq![spec_action_command(spec_action(s.probe))],
        )
    }
}

/// The event that an input is for the health probe, if it is one.
pub open spec fn spec_probe_event(input: Input) -> Option<Event> {
    match input {
        Input::Probed(attempt) => Some(Event::Probed(attempt)),
        Input::Woke => Some(Event::Woke),
        _ => None,
    }
}

/// The transition function: the supervisor after `input`, and the commands
/// for the driver. An input that the supervisor is not waiting for changes
/// nothing and asks for nothing.
pub open spec fn spec_handle(s: SupervisorView, input: Input) -> (
    SupervisorView,
    Seq<CommandView>,
) {
    match s.step {
        Step::Resolving => match input {
            Input::Layout(layout) => spec_on_layout(s, layout),
            _ => (s, Seq::empty()),
        },
        Step::Inspecting => match input {
            Input::Inspected(probe) => spec_on_inspected(s, probe),
            _ => (s, Seq::empty()),
        },
        Step::Spawning => match input {
            Input::LogUnavailable { reason } => spec_on_launch_error(
                s,
                LaunchErrorView::LogUnavailable { reason: reason@ },
                false,
            ),
            Input::SpawnFailed { reason } => spec_on_launch_error(
                s,
                LaunchErrorView::SpawnFailed { reason: reason@ },
                false,
            ),
            Input::Spawned => (
                SupervisorView { step: Step::Settling, ..s },
                seq![CommandView::Sleep { millis: spec_settle_millis() }],
            ),
            _ => (s, Seq::empty()),
        },
        Step::Settling => match input {
            Input::Woke => (
                SupervisorView { step: Step::Checking, ..s },
                seq![CommandView::CheckChild],
            ),
            _ => (s, Seq::empty()),
        },
        Step::Checking => match input {
            Input::Settled(outcome) => spec_on_settled(s, outcome),
            _ => (s, Seq::empty()),
        },
        Step::Probing => match spec_probe_event(input) {
            Some(event) => if spec_answers(s.probe, event) {
                spec_on_probe(s, s.probe, spec_step(s.probe, event))
            } else {
                (s, Seq::empty())
            },
            None => (s, Seq::empty()),
        },
        Step::Watching { round } => match input {
            Input::Indicator(seen) => spec_on_indicator(s, round, seen),
            _ => (s, Seq::empty()),
        },
        Step::Done => (s, Seq::empty()),
        Step::Exited => (s, Seq::empty()),
    }
}

/// Decides the course of one startup.
#[derive(Debug)]
pub struct Supervisor {
    platform: Platform,
    step: Step,
    probe: HealthProbe,
    reporter: ProgressReporter,
    working_directory: Option<String>,
}

impl View for Supervisor {
    type V = SupervisorView;

    closed spec fn view(&self) -> SupervisorView {
        SupervisorView {
            platform: self.platform,
            step: self.step,
            probe: self.probe,
            shown: self.reporter.spec_last(),
            working_directory: match self.working_directory {
                Some(dir) => Some(dir@),
                None => None,
            },
        }
    }
}

/// Adds a command to the end of `out`.
fn push(out: &mut Vec<Command>, command: Command)
    ensures
        command_views(final(out)@) == command_views(old(out)@).push(command@),
{
    out.push(command);
    assert(command_views(out@) =~= command_views(old(out)@).push(command@));
}

/// The command that carries out an action of the health probe.
fn action_command(action: Action) -> (c: Command)
    ensures
        c@ == spec_action_command(action),
{
    match action {
        Action::Get(endpoint) => Command::Get(endpoint),
        Action::Sleep { millis } => Command::Sleep { millis },
        Action::Finish => Command::ShowWindow,
        Action::GiveUp => Command::Exit { code: 1 },
    }
}

/// Adds the commands that end a failed startup.
fn give_up(out: &mut Vec<Command>, event: ProgressEvent, spawned: bool)
    ensures
        command_views(final(out)@) == command_views(old(out)@) + spec_give_up(event@, spawned),
{
    push(out, Command::Report(event));
    push(out, Command::Hold { millis: 3000 });
    if spawned {
        push(out, Command::Terminate);
    }
    push(out, Command::Exit { code: 1 });
    assert(command_views(out@) =~= command_views(old(out)@) + spec_give_up(event@, spawned));
}

impl Supervisor {
    /// Where the startup stands.
    pub fn step(&self) -> (r: Step)
        ensures
            r == self@.step,
    {
        self.step
    }

    /// The health probe of this startup.
    pub fn probe(&self) -> (r: HealthProbe)
        ensures
            r == self@.probe,
    {
        self.probe
    }

    /// The percentage shown last.
    pub fn shown(&self) -> (r: u32)
        ensures
            r == self@.shown,
    {
        self.reporter.last()
    }

    /// Adds the commands that put `stage` on show.
    fn emit(&mut self, out: &mut Vec<Command>, stage: Stage)
        ensures
            final(self)@ == (SupervisorView {
                shown: spec_shown_percent(old(self)@.shown, stage),
                ..old(self)@
            }),
            command_views(final(out)@) == command_views(old(out)@) + spec_emit(
                old(self)@.shown,
                stage,
            ),
    {
        let event = self.reporter.report(stage);
        push(out, Command::Report(event));
        let millis = stage.hold_millis();
        if millis != 0 {
            push(out, Command::Hold { millis });
        }
        assert(command_views(out@) =~= command_views(old(out)@) + spec_emit(
            old(self)@.shown,
            stage,
        ));
    }

    /// Adds the commands that put `stages` on show one after the other.
    fn emit_all(&mut self, out: &mut Vec<Command>, stages: &Vec<Stage>)
        ensures
            final(self)@ == (SupervisorView {
                shown: spec_shown_after(old(self)@.shown, stages@),
                ..old(self)@
            }),
            command_views(final(out)@) == command_views(old(out)@) + spec_emit_all(
                old(self)@.shown,
                stages@,
            ),
    {
        let ghost shown = self@.shown;
        let mut i: usize = 0;
        assert(stages@.take(0) =~= Seq::<Stage>::empty());
        assert(command_views(out@) =~= command_views(old(out)@) + spec_emit_all(
            shown,
            stages@.take(0),
        ));
        while i < stages.len()
            invariant
                i <= stages.len(),
                self@ == (SupervisorView {
                    shown: spec_shown_after(shown, stages@.take(i as int)),
                    ..old(self)@
                }),
                shown == old(self)@.shown,
                command_views(out@) == command_views(old(out)@) + spec_emit_all(
                    shown,
                    stages@.take(i as int),
                ),
            decreases stages.len() - i,
        {
            let ghost so_far = command_views(out@);
            self.emit(out, stages[i]);
            proof {
                let next = stages@.take(i + 1);
                assert(next.drop_last() =~= stages@.take(i as int));
                assert(next.last() == stages@[i as int]);
                assert(command_views(out@) =~= command_views(old(out)@) + spec_emit_all(
                    shown,
                    next,
                ));
            }
            i = i + 1;
        }
        assert(stages@.take(i as int) =~= stages@);
    }

    /// The supervisor at the beginning of a startup, with its first commands.
    pub fn begin(platform: Platform, config: ProbeConfig) -> (r: (Supervisor, Vec<Command>))
        ensures
            (r.0@, command_views(r.1@)) == spec_begin(platform, config),
    {
        let mut supervisor = Supervisor {
            platform,
            step: Step::Resolving,
            probe: HealthProbe::start(config),
            reporter: ProgressReporter::new(),
            working_directory: None,
        };
        let mut out: Vec<Command> = Vec::new();
        assert(command_views(out@) =~= Seq::<CommandView>::empty());
        supervisor.emit(&mut out, Stage::FindingWorkingDirectory);
        push(&mut out, Command::FindLayout);
        assert(command_views(out@) =~= spec_begin(platform, config).1);
        (supervisor, out)
    }

    fn on_layout(&mut self, layout: &Layout, out: &mut Vec<Command>)
        requires
            old(out)@.len() == 0,
        ensures
            (final(self)@, command_views(final(out)@)) == spec_on_layout(old(self)@, *layout),
    {
        assert(command_views(out@) =~= Seq::<CommandView>::empty());
        match PathResolver::resolve(layout) {
            Ok(found) => {
                let stages = vec![Stage::CheckingEntryFile, Stage::LookingForInterpreter];
                assert(stages@ =~= spec_resolved_stages());
                self.emit_all(out, &stages);
                push(out, Command::Inspect { dir: found.dir.clone() });
                self.working_directory = Some(found.dir);
                self.step = Step::Inspecting;
                assert(command_views(out@) =~= spec_on_layout(old(self)@, *layout).1);
            },
            Err(error) => {
                self.emit(out, Stage::CheckingEntryFile);
                let message = error.message();
                let event = self.reporter.report_failure(message.as_str());
                give_up(out, event, false);
                self.step = Step::Exited;
                assert(command_views(out@) =~= spec_on_layout(old(self)@, *layout).1);
            },
        }
    }

    fn on_inspected(&mut self, probe: LaunchProbe, out: &mut Vec<Command>)
        requires
            old(out)@.len() == 0,
        ensures
            (final(self)@, command_views(final(out)@)) == spec_on_inspected(old(self)@, probe),
    {
        assert(command_views(out@) =~= Seq::<CommandView>::empty());
        self.emit(out, Stage::StartingProcess);
        let dir = match &self.working_directory {
            Some(dir) => dir.clone(),
            None => String::new(),
        };
        push(out, Command::Spawn { dir, plan: ProcessLauncher::plan(self.platform, probe) });
        self.step = Step::Spawning;
        assert(command_views(out@) =~= spec_on_inspected(old(self)@, probe).1);
    }

    fn on_launch_error(&mut self, error: &LaunchError, spawned: bool, out: &mut Vec<Command>)
        requires
            old(out)@.len() == 0,
        ensures
            (final(self)@, command_views(final(out)@)) == spec_on_launch_error(
                old(self)@,
                error@,
                spawned,
            ),
    {
        assert(command_views(out@) =~= Seq::<CommandView>::empty());
        let message = error.message();
        let event = self.reporter.report_failure(message.as_str());
        give_up(out, event, spawned);
        self.step = Step::Exited;
        assert(command_views(out@) =~= spec_on_launch_error(old(self)@, error@, spawned).1);
    }

    /// Follows the health probe, which has just come from `before` to the
    /// state that the supervisor holds.
    fn on_probe(&mut self, before: HealthProbe, out: &mut Vec<Command>)
        requires
            old(out)@.len() == 0,
        ensures
            (final(self)@, command_views(final(out)@)) == spec_on_probe(
                old(self)@,
                before,
                old(self)@.probe,
            ),
    {
        assert(command_views(out@) =~= Seq::<CommandView>::empty());
        let after = self.probe;
        match after.phase {
            Phase::Failed => {
                push(out, Command::RecordPhase(Phase::Failed));
                let event = if after.reached_live {
                    self.reporter.report_not_ready()
                } else {
                    self.reporter.report_failure(
                        "Python server started but not responding properly on port 8000. Check for errors in the Python console.",
                    )
                };
                give_up(out, event, true);
                self.step = Step::Exited;
                assert(command_views(out@) =~= spec_on_probe(old(self)@, before, after).1);
                return ;
            },
            Phase::Ready => {
                push(out, Command::RecordPhase(Phase::Ready));
                let stages = vec![Stage::ConnectionEstablished, Stage::Ready];
                assert(stages@ =~= spec_ready_stages());
                self.emit_all(out, &stages);
                push(out, Command::Hold { millis: 1000 });
                push(out, Command::ShowWindow);
                push(out, Command::Hold { millis: 200 });
                push(out, Command::CloseSplash);
                self.step = Step::Done;
                assert(command_views(out@) =~= spec_on_probe(old(self)@, before, after).1);
                return ;
            },
            _ => {},
        }
        let became_live = matches!(after.phase, Phase::Live) && !matches!(
            before.phase,
            Phase::Live
        );
        if became_live {
            push(out, Command::RecordPhase(Phase::Live));
            let stages = vec![
                Stage::ProcessStarted,
                Stage::LoadingModules,
                Stage::InitializingFramework,
                Stage::SettingUpDatabase,
            ];
            assert(stages@ =~= spec_live_stages());
            self.emit_all(out, &stages);
            push(out, Command::Hold { millis: 100 });
            push(out, Command::LookForIndicator);
            self.step = Step::Watching { round: 0 };
            assert(command_views(out@) =~= spec_on_probe(old(self)@, before, after).1);
        } else {
            let mut waited: Vec<Stage> = Vec::new();
            match before.awaiting {
                Awaiting::Pause { slices_left } => {
                    let slices = before.config.readiness_pause_slices;
                    if before.reached_live && 1 <= slices_left && slices_left <= slices {
                        waited.push(
                            Stage::RetryWait {
                                attempt: before.attempt,
                                of: before.config.readiness_attempts,
                                slice: slices - slices_left + 1,
                                slices,
                            },
                        );
                    }
                },
                _ => {},
            }
            assert(waited@ =~= spec_wait_stage(before));
            let mut begun: Vec<Stage> = Vec::new();
            let was_delayed = matches!(before.awaiting, Awaiting::Delay);
            let asks_login = matches!(after.awaiting, Awaiting::Reply(Endpoint::Login));
            if asks_login && after.attempt != before.attempt && !was_delayed {
                begun.push(
                    Stage::ReadinessAttempt {
                        attempt: after.attempt,
                        of: after.config.readiness_attempts,
                    },
                );
            }
            assert(begun@ =~= spec_attempt_stage(before, after));
            self.emit_all(out, &waited);
            self.emit_all(out, &begun);
            push(out, action_command(after.action()));
            self.step = Step::Probing;
            assert(command_views(out@) =~= spec_on_probe(old(self)@, before, after).1);
        }
    }

    fn on_settled(&mut self, outcome: SettleOutcome, out: &mut Vec<Command>)
        requires
            old(out)@.len() == 0,
        ensures
            (final(self)@, command_views(final(out)@)) == spec_on_settled(old(self)@, outcome),
    {
        match ProcessLauncher::settle((), outcome) {
            Err(error) => {
                self.on_launch_error(&error, true, out);
            },
            Ok(_) => {
                if matches!(self.probe.phase, Phase::Failed) {
                    self.on_probe(self.probe, out);
                } else {
                    push(out, action_command(self.probe.action()));
                    self.step = Step::Probing;
                    assert(command_views(out@) =~= spec_on_settled(old(self)@, outcome).1);
                }
            },
        }
    }

    fn on_indicator(&mut self, round: u32, seen: Option<Indicator>, out: &mut Vec<Command>)
        requires
            old(out)@.len() == 0,
        ensures
            (final(self)@, command_views(final(out)@)) == spec_on_indicator(
                old(self)@,
                round,
                seen,
            ),
    {
        assert(command_views(out@) =~= Seq::<CommandView>::empty());
        if seen.is_none() && round < 8 {
            push(out, Command::Hold { millis: 100 });
            push(out, Command::LookForIndicator);
            self.step = Step::Watching { round: round + 1 };
            assert(command_views(out@) =~= spec_on_indicator(old(self)@, round, seen).1);
        } else {
            let mut noticed: Vec<Stage> = Vec::new();
            if let Some(indicator) = seen {
                noticed.push(Stage::IndicatorSeen { round, indicator });
            }
            assert(noticed@ =~= match seen {
                Some(indicator) => seq![Stage::IndicatorSeen { round, indicator }],
                None => Seq::<Stage>::empty(),
            });
            let stages = vec![
                Stage::ConfiguringMiddleware,
                Stage::RegisteringRoutes,
                Stage::BindingPort,
                Stage::StartupComplete,
            ];
            assert(stages@ =~= spec_settled_stages());
            let mut first: Vec<Stage> = Vec::new();
            if self.probe.config.readiness_attempts >= 1 {
                first.push(
                    Stage::ReadinessAttempt {
                        attempt: 1,
                        of: self.probe.config.readiness_attempts,
                    },
                );
            }
            assert(first@ =~= spec_first_attempt_stage(self.probe));
            self.emit_all(out, &noticed);
            self.emit_all(out, &stages);
            self.emit_all(out, &first);
            push(out, action_command(self.probe.action()));
            self.step = Step::Probing;
            assert(command_views(out@) =~= spec_on_indicator(old(self)@, round, seen).1);
        }
    }

    /// Takes in what the driver reports and hands out the commands that
    /// follow from it. An input that the supervisor is not waiting for changes
    /// nothing and asks for nothing.
    pub fn handle(&mut self, input: Input) -> (out: Vec<Command>)
        ensures
            (final(self)@, command_views(out@)) == spec_handle(old(self)@, input),
    {
        let mut out: Vec<Command> = Vec::new();
        assert(command_views(out@) =~= Seq::<CommandView>::empty());
        match self.step {
            Step::Resolving => {
                match input {
                    Input::Layout(layout) => {
                        self.on_layout(&layout, &mut out);
                    },
                    _ => {},
                }
            },
            Step::Inspecting => {
                match input {
                    Input::Inspected(probe) => {
                        self.on_inspected(probe, &mut out);
                    },
                    _ => {},
                }
            },
            Step::Spawning => {
                match input {
                    Input::LogUnavailable { reason } => {
                        let error = LaunchError::LogUnavailable { reason };
                        self.on_launch_error(&error, false, &mut out);
                    },
                    Input::SpawnFailed { reason } => {
                        let error = LaunchError::SpawnFailed { reason };
                        self.on_launch_error(&error, false, &mut out);
                    },
                    Input::Spawned => {
                        push(&mut out, Command::Sleep { millis: crate::launch::settle_millis() });
                        self.step = Step::Settling;
                        assert(command_views(out@) =~= spec_handle(old(self)@, input).1);
                    },
                    _ => {},
                }
            },
            Step::Settling => {
                match input {
                    Input::Woke => {
                        push(&mut out, Command::CheckChild);
                        self.step = Step::Checking;
                        assert(command_views(out@) =~= spec_handle(old(self)@, input).1);
                    },
                    _ => {},
                }
            },
            Step::Checking => {
                match input {
                    Input::Settled(outcome) => {
                        self.on_settled(outcome, &mut out);
                    },
                    _ => {},
                }
            },
            Step::Probing => {
                let event = match input {
                    Input::Probed(attempt) => Some(Event::Probed(attempt)),
                    Input::Woke => Some(Event::Woke),
                    _ => None,
                };
                if let Some(event) = event {
                    if self.probe.answers(&event) {
                        let before = self.probe;
                        let _ = self.probe.step(event);
                        self.on_probe(before, &mut out);
                    }
                }
            },
            Step::Watching { round } => {
                match input {
                    Input::Indicator(seen) => {
                        self.on_indicator(round, seen, &mut out);
                    },
                    _ => {},
                }
            },
            Step::Done => {},
            Step::Exited => {},
        }
        out
    }
}

} // verus!
