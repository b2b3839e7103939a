use backend_supervisor::launch::{LaunchPlan, LaunchProbe, Operand, Platform, SettleOutcome};
use backend_supervisor::paths::{Candidate, Layout};
use backend_supervisor::probe::{
    Endpoint, Phase, ProbeAttempt, ProbeConfig, ProbeOutcome,
};
use backend_supervisor::progress::{Indicator, ProgressEvent};
use backend_supervisor::shutdown::{ShutdownCoordinator, SupervisorState};
use backend_supervisor::status::HttpStatus;
use backend_supervisor::supervisor::{Command, Input, Step, Supervisor};

fn candidate(dir: &str, has_entry: bool) -> Candidate {
    Candidate { dir: dir.to_string(), entry_path: format!("{}/app.py", dir), has_entry }
}

fn layout(packaged: bool, development: bool, current: bool) -> Layout {
    Layout {
        packaged: Some(candidate("/app/resources", packaged)),
        development: Some(candidate("/work/journal", development)),
        current_dir: Some(candidate("/home/me", current)),
    }
}

fn bare_probe() -> LaunchProbe {
    LaunchProbe { venv_interpreter: false, dot_venv_interpreter: false, launch_script: false }
}

fn answer(endpoint: Endpoint, code: u16) -> Input {
    Input::Probed(ProbeAttempt {
        endpoint,
        outcome: ProbeOutcome::Status(HttpStatus::new(code)),
        timestamp_ms: 0,
    })
}

fn silence(endpoint: Endpoint) -> Input {
    Input::Probed(ProbeAttempt { endpoint, outcome: ProbeOutcome::TransportError, timestamp_ms: 0 })
}

fn report(message: &str, progress: u32) -> Command {
    Command::Report(ProgressEvent {
        message: message.to_string(),
        progress: Some(progress),
        is_error: false,
    })
}

fn error(message: &str) -> Command {
    Command::Report(ProgressEvent { message: message.to_string(), progress: None, is_error: true })
}

fn hold(millis: u64) -> Command {
    Command::Hold { millis }
}

/// What a driver does with the world it is given: it carries out every
/// command, keeps the supervisor's state about the child, and reports the
/// result of the last command back.
struct World {
    layout: Layout,
    probe: LaunchProbe,
    spawn: Result<(), String>,
    settle: SettleOutcome,
    indicator_round: Option<u32>,
    health_succeeds_at: Option<u32>,
    login_succeeds_at: Option<u32>,
    health_asked: u32,
    login_asked: u32,
    looked: u32,
    state: SupervisorState<&'static str>,
    terminated: Vec<&'static str>,
    log: Vec<Command>,
    exit: Option<i32>,
}

impl World {
    fn new(layout: Layout) -> World {
        World {
            layout,
            probe: bare_probe(),
            spawn: Ok(()),
            settle: SettleOutcome::Running,
            indicator_round: None,
            health_succeeds_at: None,
            login_succeeds_at: None,
            health_asked: 0,
            login_asked: 0,
            looked: 0,
            state: SupervisorState::new("".to_string(), "".to_string()),
            terminated: Vec::new(),
            log: Vec::new(),
            exit: None,
        }
    }

    fn perform(&mut self, command: &Command) -> Option<Input> {
        match command {
            Command::Report(_) | Command::Hold { .. } | Command::CloseSplash => None,
            Command::ShowWindow => None,
            Command::FindLayout => Some(Input::Layout(self.layout.clone())),
            Command::Inspect { .. } => Some(Input::Inspected(self.probe)),
            Command::Spawn { .. } => match &self.spawn {
                Ok(()) => {
                    self.state.store_child("child", 4242).unwrap();
                    Some(Input::Spawned)
                },
                Err(reason) => Some(Input::SpawnFailed { reason: reason.clone() }),
            },
            Command::Sleep { .. } => Some(Input::Woke),
            Command::CheckChild => Some(Input::Settled(self.settle.clone())),
            Command::RecordPhase(phase) => {
                self.state.record_phase(*phase);
                None
            },
            Command::LookForIndicator => {
                let round = self.looked;
                self.looked += 1;
                Some(Input::Indicator(if self.indicator_round == Some(round) {
                    Some(Indicator::FrameworkStarting)
                } else {
                    None
                }))
            },
            Command::Get(Endpoint::Health) => {
                self.health_asked += 1;
                Some(if self.health_succeeds_at == Some(self.health_asked) {
                    answer(Endpoint::Health, 200)
                } else {
                    answer(Endpoint::Health, 503)
                })
            },
            Command::Get(Endpoint::Login) => {
                self.login_asked += 1;
                Some(if self.login_succeeds_at == Some(self.login_asked) {
                    answer(Endpoint::Login, 200)
                } else {
                    answer(Endpoint::Login, 500)
                })
            },
            Command::Get(Endpoint::Root) => Some(silence(Endpoint::Root)),
            Command::Terminate => {
                if let Some(taken) = ShutdownCoordinator::shutdown(&mut self.state, Platform::Unix) {
                    self.terminated.push(taken.handle);
                }
                None
            },
            Command::Exit { code } => {
                self.exit = Some(*code);
                None
            },
        }
    }

    fn run(&mut self, config: ProbeConfig) -> Supervisor {
        let (mut supervisor, mut commands) = Supervisor::begin(Platform::Unix, config);
        for _ in 0..10_000 {
            let mut next = None;
            for command in &commands {
                next = self.perform(command);
                self.log.push(command.clone());
                if self.exit.is_some() {
                    return supervisor;
                }
            }
            match next {
                Some(input) => commands = supervisor.handle(input),
                None => return supervisor,
            }
        }
        panic!("the startup did not come to rest");
    }

    fn reports(&self) -> Vec<ProgressEvent> {
        self.log
            .iter()
            .filter_map(|c| match c {
                Command::Report(e) => Some(e.clone()),
                _ => None,
            })
            .collect()
    }

    fn asked(&self, endpoint: Endpoint) -> usize {
        self.log.iter().filter(|c| **c == Command::Get(endpoint)).count()
    }

    fn spawns(&self) -> usize {
        self.log.iter().filter(|c| matches!(c, Command::Spawn { .. })).count()
    }
}

#[test]
fn a_startup_begins_by_looking_for_the_working_directory() {
    let (supervisor, commands) = Supervisor::begin(Platform::Unix, ProbeConfig::standard());
    assert_eq!(supervisor.step(), Step::Resolving);
    assert_eq!(supervisor.shown(), 5);
    assert_eq!(
        commands,
        vec![report("Finding working directory...", 5), hold(100), Command::FindLayout]
    );
}

#[test]
fn health_on_the_third_attempt_and_login_at_once_shows_the_application() {
    let mut world = World::new(layout(true, false, false));
    world.health_succeeds_at = Some(3);
    world.login_succeeds_at = Some(1);
    let supervisor = world.run(ProbeConfig::standard());

    assert_eq!(supervisor.step(), Step::Done);
    assert_eq!(supervisor.probe().phase, Phase::Ready);
    assert_eq!(world.asked(Endpoint::Health), 3);
    assert_eq!(world.asked(Endpoint::Login), 1);
    assert_eq!(world.spawns(), 1);
    assert_eq!(world.exit, None);
    assert!(world.terminated.is_empty());
    assert!(world.state.has_child());
    assert_eq!(world.state.last_known_phase(), Some(Phase::Ready));

    let reports = world.reports();
    assert_eq!(
        reports.last(),
        Some(&ProgressEvent { message: "Ready!".to_string(), progress: Some(100), is_error: false })
    );
    assert!(reports.iter().all(|e| !e.is_error));
    let percentages: Vec<u32> = reports.iter().map(|e| e.progress.unwrap()).collect();
    assert!(percentages.windows(2).all(|w| w[0] <= w[1]));

    let live = world.log.iter().position(|c| *c == Command::RecordPhase(Phase::Live)).unwrap();
    let login = world.log.iter().position(|c| *c == Command::Get(Endpoint::Login)).unwrap();
    let ready = world.log.iter().position(|c| *c == Command::RecordPhase(Phase::Ready)).unwrap();
    let show = world.log.iter().position(|c| *c == Command::ShowWindow).unwrap();
    assert!(live < login && login < ready && ready < show);
    assert_eq!(
        &world.log[ready..],
        &[
            Command::RecordPhase(Phase::Ready),
            report("Connection established!", 95),
            hold(200),
            report("Ready!", 100),
            hold(300),
            hold(1000),
            Command::ShowWindow,
            hold(200),
            Command::CloseSplash,
        ]
    );
}

#[test]
fn an_entry_file_missing_everywhere_fails_the_startup_before_any_spawn() {
    let mut world = World::new(layout(false, false, false));
    let supervisor = world.run(ProbeConfig::standard());

    assert_eq!(supervisor.step(), Step::Exited);
    assert_eq!(world.exit, Some(1));
    assert_eq!(world.spawns(), 0);
    assert!(!world.state.has_child());
    assert!(!world.state.spawned());
    assert_eq!(world.state.last_known_phase(), None);
    assert_eq!(world.asked(Endpoint::Health), 0);
    assert_eq!(
        world.log,
        vec![
            report("Finding working directory...", 5),
            hold(100),
            Command::FindLayout,
            report("Checking for app.py...", 8),
            hold(100),
            error("Error: app.py not found at: /home/me/app.py"),
            hold(3000),
            Command::Exit { code: 1 },
        ]
    );
}

#[test]
fn liveness_attempts_that_all_fail_end_the_startup_without_readiness_probing() {
    let mut world = World::new(layout(false, true, false));
    let supervisor = world.run(ProbeConfig::standard());

    assert_eq!(supervisor.step(), Step::Exited);
    assert_eq!(supervisor.probe().phase, Phase::Failed);
    assert_eq!(world.exit, Some(1));
    assert_ne!(world.exit, Some(0));
    assert_eq!(world.asked(Endpoint::Health), 20);
    assert_eq!(world.asked(Endpoint::Login), 0);
    assert_eq!(world.asked(Endpoint::Root), 0);
    assert_eq!(world.terminated, vec!["child"]);
    assert!(!world.state.has_child());
    assert_eq!(world.state.last_known_phase(), Some(Phase::Failed));

    let errors: Vec<ProgressEvent> =
        world.reports().into_iter().filter(|e| e.is_error).collect();
    assert_eq!(
        errors,
        vec![ProgressEvent {
            message: "Error: Python server started but not responding properly on port 8000. Check for errors in the Python console.".to_string(),
            progress: None,
            is_error: true,
        }]
    );
    let n = world.log.len();
    assert_eq!(
        &world.log[n - 5..],
        &[
            Command::RecordPhase(Phase::Failed),
            error("Error: Python server started but not responding properly on port 8000. Check for errors in the Python console."),
            hold(3000),
            Command::Terminate,
            Command::Exit { code: 1 },
        ]
    );
}

#[test]
fn the_resolved_directory_is_inspected_and_spawned_in() {
    let (mut supervisor, _) = Supervisor::begin(Platform::Windows, ProbeConfig::standard());
    let commands = supervisor.handle(Input::Layout(layout(false, true, true)));
    assert_eq!(
        commands,
        vec![
            report("Checking for app.py...", 8),
            hold(100),
            report("Looking for Python environment...", 12),
            hold(100),
            Command::Inspect { dir: "/work/journal".to_string() },
        ]
    );
    assert_eq!(supervisor.step(), Step::Inspecting);

    let probe = LaunchProbe { venv_interpreter: true, dot_venv_interpreter: false, launch_script: false };
    let commands = supervisor.handle(Input::Inspected(probe));
    assert_eq!(
        commands,
        vec![
            report("Starting Python process...", 15),
            Command::Spawn {
                dir: "/work/journal".to_string(),
                plan: LaunchPlan {
                    program: Operand::InWorkingDir(vec![
                        "venv".to_string(),
                        "Scripts".to_string(),
                        "python.exe".to_string(),
                    ]),
                    args: vec![Operand::Word("app.py".to_string())],
                    redirect_output: false,
                    suppress_console: true,
                },
            },
        ]
    );
    assert_eq!(supervisor.step(), Step::Spawning);

    assert_eq!(supervisor.handle(Input::Spawned), vec![Command::Sleep { millis: 5000 }]);
    assert_eq!(supervisor.step(), Step::Settling);
    assert_eq!(supervisor.handle(Input::Woke), vec![Command::CheckChild]);
    assert_eq!(supervisor.step(), Step::Checking);
    assert_eq!(
        supervisor.handle(Input::Settled(SettleOutcome::Running)),
        vec![Command::Get(Endpoint::Health)]
    );
    assert_eq!(supervisor.step(), Step::Probing);
}

#[test]
fn a_spawn_that_fails_ends_the_startup_without_terminating_anything() {
    let mut world = World::new(layout(true, true, true));
    world.spawn = Err("No such file or directory (os error 2)".to_string());
    let supervisor = world.run(ProbeConfig::standard());
    assert_eq!(supervisor.step(), Step::Exited);
    assert_eq!(world.exit, Some(1));
    assert!(!world.log.contains(&Command::Terminate));
    let n = world.log.len();
    assert_eq!(
        &world.log[n - 3..],
        &[
            error("Error: Failed to start Python server: No such file or directory (os error 2). Make sure Python is installed and in PATH."),
            hold(3000),
            Command::Exit { code: 1 },
        ]
    );
}

#[test]
fn a_log_file_that_cannot_be_set_up_ends_the_startup() {
    let (mut supervisor, _) = Supervisor::begin(Platform::Unix, ProbeConfig::standard());
    supervisor.handle(Input::Layout(layout(true, false, false)));
    supervisor.handle(Input::Inspected(bare_probe()));
    let commands =
        supervisor.handle(Input::LogUnavailable { reason: "Permission denied".to_string() });
    assert_eq!(
        commands,
        vec![
            error("Error: Failed to create log file: Permission denied"),
            hold(3000),
            Command::Exit { code: 1 },
        ]
    );
    assert_eq!(supervisor.step(), Step::Exited);
}

#[test]
fn a_child_that_exits_in_the_settle_interval_is_never_probed() {
    let mut world = World::new(layout(true, false, false));
    world.settle = SettleOutcome::Exited {
        status: "exit status: 1".to_string(),
        stdout: "".to_string(),
        stderr: "Traceback".to_string(),
    };
    let supervisor = world.run(ProbeConfig::standard());
    assert_eq!(supervisor.step(), Step::Exited);
    assert_eq!(world.exit, Some(1));
    assert_eq!(world.asked(Endpoint::Health), 0);
    assert_eq!(world.terminated, vec!["child"]);
    let n = world.log.len();
    assert_eq!(
        &world.log[n - 4..],
        &[
            error("Error: Python process exited early with status: exit status: 1\n\nSTDOUT:\n\n\nSTDERR:\nTraceback"),
            hold(3000),
            Command::Terminate,
            Command::Exit { code: 1 },
        ]
    );
}

#[test]
fn a_child_whose_state_cannot_be_read_ends_the_startup() {
    let mut world = World::new(layout(true, false, false));
    world.settle = SettleOutcome::Unknown { reason: "Interrupted".to_string() };
    world.run(ProbeConfig::standard());
    assert_eq!(world.exit, Some(1));
    assert!(world
        .log
        .contains(&error("Error: Failed to check process status: Interrupted")));
    assert_eq!(world.terminated, vec!["child"]);
}

#[test]
fn readiness_that_never_comes_fails_after_its_budget() {
    let mut world = World::new(layout(true, false, false));
    world.health_succeeds_at = Some(1);
    let supervisor = world.run(ProbeConfig::standard());
    assert_eq!(supervisor.step(), Step::Exited);
    assert_eq!(supervisor.probe().phase, Phase::Failed);
    assert_eq!(world.asked(Endpoint::Login), 15);
    assert_eq!(world.exit, Some(1));
    assert_eq!(world.terminated, vec!["child"]);
    let n = world.log.len();
    assert_eq!(
        &world.log[n - 5..],
        &[
            Command::RecordPhase(Phase::Failed),
            error("Failed to start server"),
            hold(3000),
            Command::Terminate,
            Command::Exit { code: 1 },
        ]
    );
    let percentages: Vec<u32> = world.reports().iter().filter_map(|e| e.progress).collect();
    assert!(percentages.windows(2).all(|w| w[0] <= w[1]));
    assert_eq!(percentages.last(), Some(&90));
}

#[test]
fn becoming_live_shows_the_startup_stages_and_looks_for_an_indicator() {
    let (mut supervisor, _) = Supervisor::begin(Platform::Unix, ProbeConfig::standard());
    supervisor.handle(Input::Layout(layout(true, false, false)));
    supervisor.handle(Input::Inspected(bare_probe()));
    supervisor.handle(Input::Spawned);
    supervisor.handle(Input::Woke);
    supervisor.handle(Input::Settled(SettleOutcome::Running));
    let commands = supervisor.handle(answer(Endpoint::Health, 200));
    assert_eq!(
        commands,
        vec![
            Command::RecordPhase(Phase::Live),
            report("Python process started...", 18),
            hold(300),
            report("Loading Python modules...", 20),
            hold(800),
            report("Initializing FastAPI...", 23),
            hold(600),
            report("Setting up database...", 26),
            hold(100),
            Command::LookForIndicator,
        ]
    );
    assert_eq!(supervisor.step(), Step::Watching { round: 0 });

    assert_eq!(
        supervisor.handle(Input::Indicator(None)),
        vec![hold(100), Command::LookForIndicator]
    );
    assert_eq!(supervisor.step(), Step::Watching { round: 1 });
    let commands = supervisor.handle(Input::Indicator(Some(Indicator::DatabaseActive)));
    assert_eq!(
        commands,
        vec![
            report("Database recently accessed", 27),
            report("Configuring middleware...", 30),
            hold(400),
            report("Registering API routes...", 33),
            hold(500),
            report("Binding to port 8000...", 36),
            hold(600),
            report("Server startup complete", 38),
            hold(400),
            report("Waiting for server to bind... (1/15)", 41),
            Command::Sleep { millis: 3000 },
        ]
    );
    assert_eq!(supervisor.step(), Step::Probing);
    assert_eq!(supervisor.handle(Input::Woke), vec![Command::Get(Endpoint::Login)]);
}

#[test]
fn the_backend_files_are_looked_at_nine_times_at_most() {
    let mut world = World::new(layout(true, false, false));
    world.health_succeeds_at = Some(1);
    world.login_succeeds_at = Some(1);
    world.run(ProbeConfig::standard());
    assert_eq!(world.looked, 9);
    assert_eq!(world.log.iter().filter(|c| **c == Command::LookForIndicator).count(), 9);
}

#[test]
fn an_indicator_seen_late_keeps_the_percentage_from_falling() {
    let mut world = World::new(layout(true, false, false));
    world.health_succeeds_at = Some(1);
    world.login_succeeds_at = Some(1);
    world.indicator_round = Some(8);
    world.run(ProbeConfig::standard());
    let reports = world.reports();
    let seen = reports.iter().position(|e| e.message == "FastAPI startup detected").unwrap();
    assert_eq!(reports[seen].progress, Some(34));
    assert_eq!(reports[seen + 1].message, "Configuring middleware...");
    assert_eq!(reports[seen + 1].progress, Some(34));
    assert_eq!(reports[seen + 2].progress, Some(34));
    assert_eq!(reports[seen + 3].progress, Some(36));
}

#[test]
fn pauses_between_readiness_attempts_are_reported_slice_by_slice() {
    let (mut supervisor, _) = Supervisor::begin(Platform::Unix, ProbeConfig::standard());
    supervisor.handle(Input::Layout(layout(true, false, false)));
    supervisor.handle(Input::Inspected(bare_probe()));
    supervisor.handle(Input::Spawned);
    supervisor.handle(Input::Woke);
    supervisor.handle(Input::Settled(SettleOutcome::Running));
    supervisor.handle(answer(Endpoint::Health, 200));
    supervisor.handle(Input::Indicator(Some(Indicator::LoggingActive)));
    supervisor.handle(Input::Woke);
    assert_eq!(
        supervisor.handle(answer(Endpoint::Login, 503)),
        vec![Command::Sleep { millis: 500 }]
    );
    let wait = |p| report("Waiting before retry... (1/15)", p);
    assert_eq!(supervisor.handle(Input::Woke), vec![wait(41), Command::Sleep { millis: 500 }]);
    assert_eq!(supervisor.handle(Input::Woke), vec![wait(41), Command::Sleep { millis: 500 }]);
    assert_eq!(supervisor.handle(Input::Woke), vec![wait(41), Command::Sleep { millis: 500 }]);
    assert_eq!(
        supervisor.handle(Input::Woke),
        vec![
            wait(42),
            report("Waiting for server to bind... (2/15)", 44),
            Command::Get(Endpoint::Login),
        ]
    );
    assert_eq!(supervisor.handle(silence(Endpoint::Login)), vec![Command::Get(Endpoint::Root)]);
    let commands = supervisor.handle(answer(Endpoint::Root, 401));
    assert_eq!(commands[0], Command::RecordPhase(Phase::Ready));
    assert!(commands.contains(&Command::ShowWindow));
    assert_eq!(supervisor.step(), Step::Done);
}

#[test]
fn inputs_that_are_not_awaited_change_nothing() {
    let (mut supervisor, _) = Supervisor::begin(Platform::Unix, ProbeConfig::standard());
    assert_eq!(supervisor.handle(Input::Woke), Vec::new());
    assert_eq!(supervisor.handle(Input::Spawned), Vec::new());
    assert_eq!(supervisor.handle(answer(Endpoint::Health, 200)), Vec::new());
    assert_eq!(supervisor.handle(Input::Inspected(bare_probe())), Vec::new());
    assert_eq!(supervisor.step(), Step::Resolving);
    assert_eq!(supervisor.shown(), 5);

    supervisor.handle(Input::Layout(layout(true, false, false)));
    supervisor.handle(Input::Inspected(bare_probe()));
    supervisor.handle(Input::Spawned);
    supervisor.handle(Input::Woke);
    supervisor.handle(Input::Settled(SettleOutcome::Running));
    assert_eq!(supervisor.handle(answer(Endpoint::Login, 200)), Vec::new());
    assert_eq!(supervisor.handle(Input::Woke), Vec::new());
    assert_eq!(supervisor.handle(Input::Indicator(None)), Vec::new());
    assert_eq!(supervisor.step(), Step::Probing);
    assert_eq!(supervisor.probe().phase, Phase::Spawned);
}

#[test]
fn a_supervisor_at_rest_asks_for_nothing() {
    let mut world = World::new(layout(false, false, false));
    let mut supervisor = world.run(ProbeConfig::standard());
    assert_eq!(supervisor.step(), Step::Exited);
    assert_eq!(supervisor.handle(Input::Layout(layout(true, true, true))), Vec::new());
    assert_eq!(supervisor.handle(Input::Woke), Vec::new());
    assert_eq!(supervisor.step(), Step::Exited);
}

#[test]
fn a_budget_of_no_liveness_attempts_fails_once_the_child_has_settled() {
    let config = ProbeConfig { liveness_attempts: 0, ..ProbeConfig::standard() };
    let mut world = World::new(layout(true, false, false));
    let supervisor = world.run(config);
    assert_eq!(supervisor.step(), Step::Exited);
    assert_eq!(world.asked(Endpoint::Health), 0);
    assert_eq!(world.terminated, vec!["child"]);
    assert_eq!(world.exit, Some(1));
}

#[test]
fn closing_the_window_after_a_good_startup_terminates_the_child_once() {
    let mut world = World::new(layout(true, false, false));
    world.health_succeeds_at = Some(1);
    world.login_succeeds_at = Some(1);
    world.run(ProbeConfig::standard());
    assert!(world.state.has_child());
    let first = ShutdownCoordinator::shutdown(&mut world.state, Platform::Unix);
    assert_eq!(first.map(|s| s.handle), Some("child"));
    let second = ShutdownCoordinator::shutdown(&mut world.state, Platform::Unix);
    assert!(second.is_none());
}
