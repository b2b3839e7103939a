//! Planning the launch of the backend process and judging what became of it
//! once the settle interval has passed.

use crate::text::{contains, lemma_contains_middle, texts};
use vstd::prelude::*;

verus! {

/// The family of operating systems that the supervisor was built for.
#[derive(Clone, Copy, Debug, PartialEq, Eq, Structural)]
pub enum Platform {
    Windows,
    Unix,
}

/// What was found in the working directory before the launch.
#[derive(Clone, Copy, Debug, PartialEq, Eq, Structural)]
pub struct LaunchProbe {
    /// The interpreter of a virtual environment named `venv` is there.
    pub venv_interpreter: bool,
    /// The interpreter of a virtual environment named `.venv` is there.
    pub dot_venv_interpreter: bool,
    /// The wrapper launch script is there.
    pub launch_script: bool,
}

/// Something named on a command line: a plain word, or a path given by its
/// names below the working directory.
#[derive(Clone, Debug, PartialEq, Eq)]
pub enum Operand {
    Word(String),
    InWorkingDir(Vec<String>),
}

pub enum OperandView {
    Word(Seq<char>),
    InWorkingDir(Seq<Seq<char>>),
}

impl View for Operand {
    type V = OperandView;

    open spec fn view(&self) -> OperandView {
        match self {
            Operand::Word(w) => OperandView::Word(w@),
            Operand::InWorkingDir(names) => OperandView::InWorkingDir(texts(names@)),
        }
    }
}

/// The views of a sequence of operands.
pub open spec fn operand_views(v: Seq<Operand>) -> Seq<OperandView> {
    Seq::new(v.len(), |i: int| v[i]@)
}

/// How the backend process is to be started. The working directory of the
/// child is always the resolved working directory.
#[derive(Clone, Debug, PartialEq, Eq)]
pub struct LaunchPlan {
    pub program: Operand,
    pub args: Vec<Operand>,
    /// Standard output and standard error of the child go to the log file.
    pub redirect_output: bool,
    /// The child is started without a console window.
    pub suppress_console: bool,
}

pub struct LaunchPlanView {
    pub program: OperandView,
    pub args: Seq<OperandView>,
    pub redirect_output: bool,
    pub suppress_console: bool,
}

impl View for LaunchPlan {
    type V = LaunchPlanView;

    open spec fn view(&self) -> LaunchPlanView {
        LaunchPlanView {
            program: self.program@,
            args: operand_views(self.args@),
            redirect_output: self.redirect_output,
            suppress_console: self.suppress_console,
        }
    }
}

/// The directory of a virtual environment in which its interpreter lies.
pub open spec fn spec_venv_bin(platform: Platform) -> Seq<char> {
    match platform {
        Platform::Windows => "Scripts"@,
        Platform::Unix => "bin"@,
    }
}

/// The file name of the interpreter inside a virtual environment.
pub open spec fn spec_venv_python(platform: Platform) -> Seq<char> {
    match platform {
        Platform::Windows => "python.exe"@,
        Platform::Unix => "python"@,
    }
}

/// Where the interpreter of the virtual environment `env` lies below the
/// working directory.
pub open spec fn spec_venv_interpreter(platform: Platform, env: Seq<char>) -> Seq<Seq<char>> {
    seq![env, spec_venv_bin(platform), spec_venv_python(platform)]
}

/// The name under which the system-wide interpreter is found.
pub open spec fn spec_system_interpreter(platform: Platform) -> Seq<char> {
    match platform {
        Platform::Windows => "python"@,
        Platform::Unix => "python3"@,
    }
}

/// The file name of the wrapper launch script.
pub open spec fn spec_launch_script(platform: Platform) -> Seq<char> {
    match platform {
        Platform::Windows => "launch_server.bat"@,
        Platform::Unix => "launch_server.sh"@,
    }
}

/// The shell that runs the wrapper launch script.
pub open spec fn spec_shell(platform: Platform) -> Seq<char> {
    match platform {
        Platform::Windows => "cmd"@,
        Platform::Unix => "bash"@,
    }
}

/// The interpreter to run: that of `venv` if it is there, else that of
/// `.venv` if it is there, else the system-wide one.
pub open spec fn spec_interpreter(platform: Platform, probe: LaunchProbe) -> OperandView {
    if probe.venv_interpreter {
        OperandView::InWorkingDir(spec_venv_interpreter(platform, "venv"@))
    } else if probe.dot_venv_interpreter {
        OperandView::InWorkingDir(spec_venv_interpreter(platform, ".venv"@))
    } else {
        OperandView::Word(spec_system_interpreter(platform))
    }
}

/// The launch plan. With a wrapper script the shell runs the script, and on
/// Unix the child's output goes to the log file; without one the interpreter
/// runs the entry file. On Windows the child gets no console window.
pub open spec fn spec_plan(platform: Platform, probe: LaunchProbe) -> LaunchPlanView {
    let script = OperandView::InWorkingDir(seq![spec_launch_script(platform)]);
    if probe.launch_script {
        LaunchPlanView {
            program: OperandView::Word(spec_shell(platform)),
            args: match platform {
                Platform::Windows => seq![OperandView::Word("/C"@), script],
                Platform::Unix => seq![script],
            },
            redirect_output: platform == Platform::Unix,
            suppress_console: platform == Platform::Windows,
        }
    } else {
        LaunchPlanView {
            program: spec_interpreter(platform, probe),
            args: seq![OperandView::Word(crate::paths::spec_entry_file())],
            redirect_output: false,
            suppress_console: platform == Platform::Windows,
        }
    }
}

/// The process-creation flag that keeps a console window from appearing.
pub open spec fn spec_create_no_window() -> u32 {
    0x0800_0000
}

/// The time given to the child before it is looked at again, in milliseconds.
pub open spec fn spec_settle_millis() -> u64 {
    5000
}

/// The file name of the log that receives the child's output.
pub fn log_file_name() -> (s: &'static str)
    ensures
        s@ == "tauri_python_server.log"@,
{
    "tauri_python_server.log"
}

/// The time given to the child before it is looked at again, in milliseconds.
pub fn settle_millis() -> (ms: u64)
    ensures
        ms == spec_settle_millis(),
{
    5000
}

/// The file name of the wrapper launch script.
pub fn launch_script_name(platform: Platform) -> (s: &'static str)
    ensures
        s@ == spec_launch_script(platform),
{
    match platform {
        Platform::Windows => "launch_server.bat",
        Platform::Unix => "launch_server.sh",
    }
}

/// Where the interpreter of the virtual environment `env` lies below the
/// working directory.
pub fn venv_interpreter(platform: Platform, env: &str) -> (names: Vec<String>)
    ensures
        texts(names@) == spec_venv_interpreter(platform, env@),
{
    let mut names: Vec<String> = Vec::new();
    names.push(String::from_str(env));
    match platform {
        Platform::Windows => {
            names.push(String::from_str("Scripts"));
            names.push(String::from_str("python.exe"));
        },
        Platform::Unix => {
            names.push(String::from_str("bin"));
            names.push(String::from_str("python"));
        },
    }
    assert(texts(names@) =~= spec_venv_interpreter(platform, env@));
    names
}

/// The state of the child when the settle interval has passed.
#[derive(Clone, Debug, PartialEq, Eq)]
pub enum SettleOutcome {
    /// The child is still running.
    Running,
    /// The child has exited; what it wrote was captured.
    Exited { status: String, stdout: String, stderr: String },
    /// The state of the child could not be read.
    Unknown { reason: String },
}

/// Why no backend process is running.
#[derive(Clone, Debug, PartialEq, Eq)]
pub enum LaunchError {
    /// The log file could not be set up.
    LogUnavailable { reason: String },
    /// The process could not be started.
    SpawnFailed { reason: String },
    /// The process exited within the settle interval.
    ExitedEarly { status: String, stdout: String, stderr: String },
    /// The state of the process could not be read after the settle interval.
    StatusUnknown { reason: String },
}

pub enum LaunchErrorView {
    LogUnavailable { reason: Seq<char> },
    SpawnFailed { reason: Seq<char> },
    ExitedEarly { status: Seq<char>, stdout: Seq<char>, stderr: Seq<char> },
    StatusUnknown { reason: Seq<char> },
}

impl View for LaunchError {
    type V = LaunchErrorView;

    open spec fn view(&self) -> LaunchErrorView {
        match self {
            LaunchError::LogUnavailable { reason } => LaunchErrorView::LogUnavailable {
                reason: reason@,
            },
            LaunchError::SpawnFailed { reason } => LaunchErrorView::SpawnFailed { reason: reason@ },
            LaunchError::ExitedEarly { status, stdout, stderr } => LaunchErrorView::ExitedEarly {
                status: status@,
                stdout: stdout@,
                stderr: stderr@,
            },
            LaunchError::StatusUnknown { reason } => LaunchErrorView::StatusUnknown {
                reason: reason@,
            },
        }
    }
}

/// The text of a launch error.
pub open spec fn spec_launch_message(e: LaunchErrorView) -> Seq<char> {
    match e {
        LaunchErrorView::LogUnavailable { reason } => "Failed to create log file: "@ + reason,
        LaunchErrorView::SpawnFailed { reason } => "Failed to start Python server: "@ + reason
            + ". Make sure Python is installed and in PATH."@,
        LaunchErrorView::ExitedEarly { status, stdout, stderr } =>
            "Python process exited early with status: "@ + status + "\n\nSTDOUT:\n"@ + stdout
            + "\n\nSTDERR:\n"@ + stderr,
        LaunchErrorView::StatusUnknown { reason } => "Failed to check process status: "@ + reason,
    }
}

/// What the settle outcome means for the launch: nothing to report while the
/// child runs, an error otherwise.
pub open spec fn spec_settle_error(outcome: SettleOutcome) -> Option<LaunchErrorView> {
    match outcome {
        SettleOutcome::Running => None,
        SettleOutcome::Exited { status, stdout, stderr } => Some(
            LaunchErrorView::ExitedEarly { status: status@, stdout: stdout@, stderr: stderr@ },
        ),
        SettleOutcome::Unknown { reason } => Some(
            LaunchErrorView::StatusUnknown { reason: reason@ },
        ),
    }
}

impl LaunchError {
    /// A description of the failure for the user.
    pub fn message(&self) -> (m: String)
        ensures
            m@ == spec_launch_message(self@),
    {
        match self {
            LaunchError::LogUnavailable { reason } => {
                let mut m = String::from_str("Failed to create log file: ");
                m.append(reason.as_str());
                m
            },
            LaunchError::SpawnFailed { reason } => {
                let mut m = String::from_str("Failed to start Python server: ");
                m.append(reason.as_str());
                m.append(". Make sure Python is installed and in PATH.");
                m
            },
            LaunchError::ExitedEarly { status, stdout, stderr } => {
                let mut m = String::from_str("Python process exited early with status: ");
                m.append(status.as_str());
                m.append("\n\nSTDOUT:\n");
                m.append(stdout.as_str());
                m.append("\n\nSTDERR:\n");
                m.append(stderr.as_str());
                m
            },
            LaunchError::StatusUnknown { reason } => {
                let mut m = String::from_str("Failed to check process status: ");
                m.append(reason.as_str());
                m
            },
        }
    }
}

/// Builds launch plans and judges launches.
pub struct ProcessLauncher {}

impl ProcessLauncher {
    /// The interpreter to run when there is no wrapper script.
    pub fn interpreter(platform: Platform, probe: LaunchProbe) -> (program: Operand)
        ensures
            program@ == spec_interpreter(platform, probe),
    {
        if probe.venv_interpreter {
            Operand::InWorkingDir(venv_interpreter(platform, "venv"))
        } else if probe.dot_venv_interpreter {
            Operand::InWorkingDir(venv_interpreter(platform, ".venv"))
        } else {
            match platform {
                Platform::Windows => Operand::Word(String::from_str("python")),
                Platform::Unix => Operand::Word(String::from_str("python3")),
            }
        }
    }

    /// The plan for starting the backend on `platform`, given what was found
    /// in the working directory.
    pub fn plan(platform: Platform, probe: LaunchProbe) -> (plan: LaunchPlan)
        ensures
            plan@ == spec_plan(platform, probe),
    {
        if probe.launch_script {
            let mut script_names: Vec<String> = Vec::new();
            script_names.push(String::from_str(launch_script_name(platform)));
            let script = Operand::InWorkingDir(script_names);
            assert(script@ == OperandView::InWorkingDir(seq![spec_launch_script(platform)])) by {
                assert(texts(script_names@) =~= seq![spec_launch_script(platform)]);
            }
            let mut args: Vec<Operand> = Vec::new();
            match platform {
                Platform::Windows => {
                    args.push(Operand::Word(String::from_str("/C")));
                    args.push(script);
                    assert(operand_views(args@) =~= seq![OperandView::Word("/C"@), script@]);
                    LaunchPlan {
                        program: Operand::Word(String::from_str("cmd")),
                        args,
                        redirect_output: false,
                        suppress_console: true,
                    }
                },
                Platform::Unix => {
                    args.push(script);
                    assert(operand_views(args@) =~= seq![script@]);
                    LaunchPlan {
                        program: Operand::Word(String::from_str("bash")),
                        args,
                        redirect_output: true,
                        suppress_console: false,
                    }
                },
            }
        } else {
            let mut args: Vec<Operand> = Vec::new();
            args.push(Operand::Word(String::from_str(crate::paths::entry_file())));
            assert(operand_views(args@) =~= seq![
                OperandView::Word(crate::paths::spec_entry_file()),
            ]);
            let suppress_console = match platform {
                Platform::Windows => true,
                Platform::Unix => false,
            };
            LaunchPlan {
                program: Self::interpreter(platform, probe),
                args,
                redirect_output: false,
                suppress_console,
            }
        }
    }

    /// The process-creation flags that `plan` asks for.
    pub fn creation_flags(plan: &LaunchPlan) -> (flags: u32)
        ensures
            flags == if plan.suppress_console {
                spec_create_no_window()
            } else {
                0
            },
    {
        if plan.suppress_console {
            0x0800_0000
        } else {
            0
        }
    }

    /// Judges the launch once the settle interval has passed: the handle of
    /// the child is handed on only if the child is still running. A child that
    /// has exited by then makes the launch fail with its exit status and what
    /// it wrote.
    pub fn settle<H>(handle: H, outcome: SettleOutcome) -> (r: Result<H, LaunchError>)
        ensures
            match r {
                Ok(h) => h == handle && spec_settle_error(outcome) is None,
                Err(e) => spec_settle_error(outcome) == Some(e@),
            },
    {
        match outcome {
            SettleOutcome::Running => Ok(handle),
            SettleOutcome::Exited { status, stdout, stderr } => Err(
                LaunchError::ExitedEarly { status, stdout, stderr },
            ),
            SettleOutcome::Unknown { reason } => Err(LaunchError::StatusUnknown { reason }),
        }
    }
}

/// A child that exits within the settle interval never counts as launched:
/// the outcome is an error, and the text of that error holds the exit status
/// that was captured.
pub proof fn lemma_early_exit_is_reported(outcome: SettleOutcome)
    requires
        outcome is Exited,
    ensures
        spec_settle_error(outcome) is Some,
        spec_settle_error(outcome)->Some_0 is ExitedEarly,
        contains(
            spec_launch_message(spec_settle_error(outcome)->Some_0),
            outcome->Exited_status@,
        ),
        contains(
            spec_launch_message(spec_settle_error(outcome)->Some_0),
            outcome->stdout@,
        ),
        contains(
            spec_launch_message(spec_settle_error(outcome)->Some_0),
            outcome->stderr@,
        ),
{
    let status = outcome->Exited_status@;
    let out = outcome->stdout@;
    let err = outcome->stderr@;
    let head = "Python process exited early with status: "@;
    let m1 = "\n\nSTDOUT:\n"@;
    let m2 = "\n\nSTDERR:\n"@;
    let msg = spec_launch_message(spec_settle_error(outcome)->Some_0);
    assert(msg =~= head + status + (m1 + out + m2 + err));
    lemma_contains_middle(head, status, m1 + out + m2 + err);
    assert(msg =~= (head + status + m1) + out + (m2 + err));
    lemma_contains_middle(head + status + m1, out, m2 + err);
    assert(msg =~= (head + status + m1 + out + m2) + err + Seq::<char>::empty());
    lemma_contains_middle(head + status + m1 + out + m2, err, Seq::<char>::empty());
}

} // verus!
