//! The state that the supervisor keeps about the backend process, and the
//! shutdown that takes the process handle out of it exactly once.

use crate::launch::Platform;
use crate::probe::Phase;
use crate::text::{decimal, decimal_string, texts};
use vstd::prelude::*;

verus! {

/// How a child process is brought to an end. Either way the supervisor then
/// waits until the child has exited.
#[derive(Clone, Debug, PartialEq, Eq)]
pub enum Termination {
    /// Run this command, which kills the process and all its descendants.
    KillTree { program: String, args: Vec<String> },
    /// Send the termination signal to the process itself.
    Signal,
}

pub enum TerminationView {
    KillTree { program: Seq<char>, args: Seq<Seq<char>> },
    Signal,
}

impl View for Termination {
    type V = TerminationView;

    open spec fn view(&self) -> TerminationView {
        match self {
            Termination::KillTree { program, args } => TerminationView::KillTree {
                program: program@,
                args: texts(args@),
            },
            Termination::Signal => TerminationView::Signal,
        }
    }
}

/// How the process with id `pid` is terminated on `platform`: on Windows the
/// whole process tree is killed by force, elsewhere the process is signalled.
pub open spec fn spec_termination(platform: Platform, pid: u32) -> TerminationView {
    match platform {
        Platform::Windows => TerminationView::KillTree {
            program: "taskkill"@,
            args: seq!["/PID"@, decimal(pid as nat), "/T"@, "/F"@],
        },
        Platform::Unix => TerminationView::Signal,
    }
}

/// What the supervisor knows about the backend process, as plain values.
pub struct SupervisorModel<H> {
    pub working_directory: Seq<char>,
    pub log_file_path: Seq<char>,
    /// The handle of the child and its process id.
    pub child: Option<(H, u32)>,
    /// The phase last recorded, none before a process was spawned.
    pub last_known_phase: Option<Phase>,
    /// A spawn has succeeded.
    pub spawned: bool,
    /// Termination has been requested.
    pub termination_requested: bool,
}

impl<H> SupervisorModel<H> {
    /// A handle is held exactly from a successful spawn until termination is
    /// requested.
    pub open spec fn wf(self) -> bool {
        self.child is Some <==> self.spawned && !self.termination_requested
    }

    /// The state before anything was spawned.
    pub open spec fn initial(working_directory: Seq<char>, log_file_path: Seq<char>) -> Self {
        SupervisorModel {
            working_directory,
            log_file_path,
            child: None,
            last_known_phase: None,
            spawned: false,
            termination_requested: false,
        }
    }

    /// Whether a freshly spawned child can be taken in: only the first one,
    /// and only while no termination was requested.
    pub open spec fn admits_child(self) -> bool {
        !self.spawned && !self.termination_requested
    }

    /// The state after the working directory and the log file were made known.
    pub open spec fn after_locate(self, working_directory: Seq<char>, log_file_path: Seq<char>) -> Self {
        SupervisorModel { working_directory, log_file_path, ..self }
    }

    /// The state after a freshly spawned child was offered.
    pub open spec fn after_store(self, handle: H, pid: u32) -> Self {
        if self.admits_child() {
            SupervisorModel {
                child: Some((handle, pid)),
                last_known_phase: Some(Phase::Spawned),
                spawned: true,
                ..self
            }
        } else {
            self
        }
    }

    /// The state after `phase` was reported. There is no phase to record
    /// before a process was spawned.
    pub open spec fn after_record(self, phase: Phase) -> Self {
        if self.spawned {
            SupervisorModel { last_known_phase: Some(phase), ..self }
        } else {
            self
        }
    }

    /// The state after a shutdown.
    pub open spec fn after_shutdown(self) -> Self {
        SupervisorModel { child: None, termination_requested: true, ..self }
    }
}

/// The place of the child handle. There is a handle in it exactly from a
/// successful spawn until termination is requested.
#[derive(Debug)]
enum ChildSlot<H> {
    /// Nothing was spawned and no termination was requested.
    Vacant,
    /// The child runs: its handle and its process id.
    Occupied(H, u32),
    /// The handle was taken out to terminate the child.
    Released,
    /// Termination was requested before anything was spawned.
    Cancelled,
}

/// The single source of truth about the backend process while the supervisor
/// runs.
#[derive(Debug)]
pub struct SupervisorState<H> {
    working_directory: String,
    log_file_path: String,
    slot: ChildSlot<H>,
    last_known_phase: Option<Phase>,
}

/// A handle taken out of the state, with the way to terminate its process.
#[derive(Debug)]
pub struct Shutdown<H> {
    pub handle: H,
    pub pid: u32,
    pub termination: Termination,
}

impl<H> View for SupervisorState<H> {
    type V = SupervisorModel<H>;

    closed spec fn view(&self) -> SupervisorModel<H> {
        SupervisorModel {
            working_directory: self.working_directory@,
            log_file_path: self.log_file_path@,
            child: match self.slot {
                ChildSlot::Occupied(handle, pid) => Some((handle, pid)),
                _ => None,
            },
            last_known_phase: self.last_known_phase,
            spawned: self.slot is Occupied || self.slot is Released,
            termination_requested: self.slot is Released || self.slot is Cancelled,
        }
    }
}

impl<H> SupervisorState<H> {
    /// The state before anything was spawned.
    pub fn new(working_directory: String, log_file_path: String) -> (s: Self)
        ensures
            s@ == SupervisorModel::<H>::initial(working_directory@, log_file_path@),
            s@.wf(),
    {
        SupervisorState {
            working_directory,
            log_file_path,
            slot: ChildSlot::Vacant,
            last_known_phase: None,
        }
    }

    /// Notes the working directory of the backend and the path of its log
    /// file.
    pub fn locate(&mut self, working_directory: String, log_file_path: String)
        ensures
            final(self)@ == old(self)@.after_locate(working_directory@, log_file_path@),
            final(self)@.wf(),
    {
        self.working_directory = working_directory;
        self.log_file_path = log_file_path;
    }

    /// Takes in the handle of a freshly spawned child and its process id. A
    /// second child, or one that arrives after termination was requested, is
    /// handed back, so that the caller can terminate it.
    pub fn store_child(&mut self, handle: H, pid: u32) -> (r: Result<(), H>)
        ensures
            final(self)@ == old(self)@.after_store(handle, pid),
            final(self)@.wf(),
            match r {
                Ok(_) => old(self)@.admits_child(),
                Err(h) => !old(self)@.admits_child() && h == handle,
            },
    {
        match self.slot {
            ChildSlot::Vacant => {
                self.slot = ChildSlot::Occupied(handle, pid);
                self.last_known_phase = Some(Phase::Spawned);
                Ok(())
            },
            _ => Err(handle),
        }
    }

    /// Notes the phase that the backend has come to.
    pub fn record_phase(&mut self, phase: Phase)
        ensures
            final(self)@ == old(self)@.after_record(phase),
            final(self)@.wf(),
    {
        match self.slot {
            ChildSlot::Occupied(_, _) | ChildSlot::Released => {
                self.last_known_phase = Some(phase);
            },
            _ => {},
        }
    }

    /// Whether a child handle is held.
    pub fn has_child(&self) -> (r: bool)
        ensures
            r == self@.child is Some,
            r == (self@.spawned && !self@.termination_requested),
    {
        match self.slot {
            ChildSlot::Occupied(_, _) => true,
            _ => false,
        }
    }

    /// The phase last recorded, none before a process was spawned.
    pub fn last_known_phase(&self) -> (r: Option<Phase>)
        ensures
            r == self@.last_known_phase,
    {
        self.last_known_phase
    }

    /// Whether a spawn has succeeded.
    pub fn spawned(&self) -> (r: bool)
        ensures
            r == self@.spawned,
    {
        match self.slot {
            ChildSlot::Occupied(_, _) | ChildSlot::Released => true,
            _ => false,
        }
    }

    /// Whether termination has been requested.
    pub fn termination_requested(&self) -> (r: bool)
        ensures
            r == self@.termination_requested,
    {
        match self.slot {
            ChildSlot::Released | ChildSlot::Cancelled => true,
            _ => false,
        }
    }

    /// The working directory of the backend.
    pub fn working_directory(&self) -> (r: &str)
        ensures
            r@ == self@.working_directory,
    {
        self.working_directory.as_str()
    }

    /// The path of the log file.
    pub fn log_file_path(&self) -> (r: &str)
        ensures
            r@ == self@.log_file_path,
    {
        self.log_file_path.as_str()
    }

    /// Every state holds a handle exactly from a successful spawn until
    /// termination is requested.
    pub proof fn lemma_wf(&self)
        ensures
            self@.wf(),
    {
    }
}

/// The way to terminate the process with id `pid` on `platform`.
pub fn termination(platform: Platform, pid: u32) -> (t: Termination)
    ensures
        t@ == spec_termination(platform, pid),
{
    match platform {
        Platform::Windows => {
            let mut args: Vec<String> = Vec::new();
            args.push(String::from_str("/PID"));
            args.push(decimal_string(pid));
            args.push(String::from_str("/T"));
            args.push(String::from_str("/F"));
            assert(texts(args@) =~= seq!["/PID"@, decimal(pid as nat), "/T"@, "/F"@]);
            Termination::KillTree { program: String::from_str("taskkill"), args }
        },
        Platform::Unix => Termination::Signal,
    }
}

/// What a shutdown hands out in a given state: the handle held, if any, with
/// the way to terminate its process.
pub open spec fn spec_shutdown_yield<H>(state: SupervisorModel<H>, platform: Platform) -> Option<
    (H, u32, TerminationView),
> {
    match state.child {
        None => None,
        Some((handle, pid)) => Some((handle, pid, spec_termination(platform, pid))),
    }
}

/// The view of what a shutdown handed out.
pub open spec fn shutdown_view<H>(r: Option<Shutdown<H>>) -> Option<(H, u32, TerminationView)> {
    match r {
        None => None,
        Some(s) => Some((s.handle, s.pid, s.termination@)),
    }
}

/// Ends the backend process when the application closes.
pub struct ShutdownCoordinator {}

impl ShutdownCoordinator {
    /// Takes the child handle out of the state and hands it out with the way
    /// to terminate its process. With no handle in the state, because the
    /// launch never succeeded or a shutdown came before, nothing is handed out
    /// and nothing is to be terminated.
    pub fn shutdown<H>(state: &mut SupervisorState<H>, platform: Platform) -> (r: Option<
        Shutdown<H>,
    >)
        ensures
            shutdown_view(r) == spec_shutdown_yield(old(state)@, platform),
            final(state)@ == old(state)@.after_shutdown(),
            final(state)@.wf(),
            final(state)@.child is None,
    {
        let mut taken: ChildSlot<H> = ChildSlot::Cancelled;
        core::mem::swap(&mut state.slot, &mut taken);
        match taken {
            ChildSlot::Occupied(handle, pid) => {
                state.slot = ChildSlot::Released;
                Some(Shutdown { handle, pid, termination: termination(platform, pid) })
            },
            ChildSlot::Released => {
                state.slot = ChildSlot::Released;
                None
            },
            _ => None,
        }
    }
}

/// A second shutdown in sequence finds no handle: it hands out nothing, so
/// the process is terminated at most once, and it leaves the state as the
/// first shutdown left it.
pub proof fn lemma_shutdown_is_idempotent<H>(state: SupervisorModel<H>, platform: Platform)
    ensures
        spec_shutdown_yield(state.after_shutdown(), platform) is None,
        state.after_shutdown().after_shutdown() == state.after_shutdown(),
        state.after_shutdown().wf(),
{
}

/// Once termination was requested, no child is ever taken in again: every
/// handle that arrives later is handed back.
pub proof fn lemma_no_child_after_shutdown<H>(state: SupervisorModel<H>, handle: H, pid: u32)
    ensures
        state.after_shutdown().after_store(handle, pid) == state.after_shutdown(),
        state.after_shutdown().after_store(handle, pid).child is None,
{
}

} // verus!
