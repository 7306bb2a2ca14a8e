//! The supervisor of the sidecar process.
//!
//! The supervisor owns the decisions and the host owns the process: each
//! request returns an `Action`, the host does what it asks, and hands what
//! came of it to `SidecarState::resume`, until the action is a reply. The
//! host keeps the supervisor behind its lock for the whole of a request.

use crate::error::{Directory, SidecarError};
use crate::log_sink::{failure_line, log_file_path, startup_line};
use crate::model::{
    command_for, ActionView, EventView, LaunchCommandView, PendingView, PlanView,
    SidecarStateView,
};
use crate::resolver::{
    development_path, fallback_path, interpreter_name, native_path, script_path, BuildMode,
    Config, Requirement, ResolvedPath, Strategy,
};
use crate::text::integer_text;
use vstd::prelude::*;

verus! {

/// How the host is to create the process. `variable` is set to `log_dir` in
/// the child's environment, and with `capture_output` the child's standard
/// output and standard error are piped to the host.
#[derive(Debug, PartialEq, Eq)]
pub struct LaunchCommand {
    pub program: String,
    pub script: Option<String>,
    pub variable: String,
    pub log_dir: String,
    pub capture_output: bool,
}

/// What the host reports when it has done what an action asked. A `String`
/// in a failure is the host's description of the cause. A process that has
/// exited is reported with its exit code, or, where the operating system
/// gives none, with the host's description of how it ended.
#[derive(Debug, PartialEq, Eq)]
pub enum Event {
    DirectoryFound(String),
    DirectoryMissing(String),
    Exists(bool),
    Probed(bool),
    LogOpened,
    LogFailed(String),
    Launched(u32),
    LaunchFailed(String),
    Terminated,
    TerminateFailed(String),
    StillRunning,
    Exited(i32),
    ExitedWithoutCode(String),
    ReapFailed(String),
}

/// What the supervisor hands back: a reply, which ends the request, or a
/// step for the host.
#[derive(Debug, PartialEq, Eq)]
pub enum Action {
    /// The request succeeded. `note` is a line to append to the log.
    Done { message: String, note: Option<String> },
    /// The request failed. `note` is a line to append to the log.
    Failed { error: SidecarError, note: Option<String> },
    /// Name this directory: `DirectoryFound` or `DirectoryMissing`.
    Lookup(Directory),
    /// Tell whether this path exists on disk: `Exists`.
    CheckExists(String),
    /// Run this program with `--version`: `Probed`, with whether it ran.
    Probe(String),
    /// Create `dir` and what leads to it, and open `file` in it for
    /// appending: `LogOpened` or `LogFailed`.
    OpenLog { dir: String, file: String },
    /// Create the process: `Launched` with its id, or `LaunchFailed`.
    Launch(LaunchCommand),
    /// Kill the process with this id, and keep its handle where that fails:
    /// `Terminated` or `TerminateFailed`.
    Terminate(u32),
    /// Check without waiting whether the process with this id has exited:
    /// `StillRunning`, `Exited`, `ExitedWithoutCode` or `ReapFailed`.
    Reap(u32),
}

/// A start that has found its entry point.
#[derive(Debug, PartialEq, Eq)]
struct Plan {
    config: Config,
    target: ResolvedPath,
}

/// What the supervisor is waiting for.
#[derive(Debug, PartialEq, Eq)]
enum Pending {
    Nothing,
    Resolving(Config),
    CheckingPrimary { config: Config, primary: String },
    CheckingFallback { config: Config, primary: String },
    Probing(Plan),
    LocatingLog(Plan),
    LocatingData(Plan),
    OpeningLog { plan: Plan, log_dir: String },
    Launching(Plan),
    Stopping(u32),
    Checking,
}

/// The supervisor's state: the one process it may hold, and the step of the
/// request under way.
#[derive(Debug, PartialEq, Eq)]
pub struct SidecarState {
    process: Option<u32>,
    pending: Pending,
}

/// A line for the log, where there is one, as a sequence of characters.
pub open spec fn note_view(note: Option<String>) -> Option<Seq<char>> {
    match note {
        Some(text) => Some(text@),
        None => None,
    }
}

impl View for LaunchCommand {
    type V = LaunchCommandView;

    open spec fn view(&self) -> LaunchCommandView {
        LaunchCommandView {
            program: self.program@,
            script: note_view(self.script),
            variable: self.variable@,
            log_dir: self.log_dir@,
            capture_output: self.capture_output,
        }
    }
}

impl View for Event {
    type V = EventView;

    open spec fn view(&self) -> EventView {
        match self {
            Event::DirectoryFound(dir) => EventView::DirectoryFound(dir@),
            Event::DirectoryMissing(cause) => EventView::DirectoryMissing(cause@),
            Event::Exists(found) => EventView::Exists(*found),
            Event::Probed(found) => EventView::Probed(*found),
            Event::LogOpened => EventView::LogOpened,
            Event::LogFailed(cause) => EventView::LogFailed(cause@),
            Event::Launched(pid) => EventView::Launched(*pid),
            Event::LaunchFailed(cause) => EventView::LaunchFailed(cause@),
            Event::Terminated => EventView::Terminated,
            Event::TerminateFailed(cause) => EventView::TerminateFailed(cause@),
            Event::StillRunning => EventView::StillRunning,
            Event::Exited(code) => EventView::Exited(*code),
            Event::ExitedWithoutCode(description) => EventView::ExitedWithoutCode(description@),
            Event::ReapFailed(cause) => EventView::ReapFailed(cause@),
        }
    }
}

impl View for Action {
    type V = ActionView;

    open spec fn view(&self) -> ActionView {
        match self {
            Action::Done { message, note } => ActionView::Done {
                message: message@,
                note: note_view(*note),
            },
            Action::Failed { error, note } => ActionView::Failed {
                error: error@,
                note: note_view(*note),
            },
            Action::Lookup(directory) => ActionView::Lookup(*directory),
            Action::CheckExists(path) => ActionView::CheckExists(path@),
            Action::Probe(program) => ActionView::Probe(program@),
            Action::OpenLog { dir, file } => ActionView::OpenLog { dir: dir@, file: file@ },
            Action::Launch(command) => ActionView::Launch(command@),
            Action::Terminate(pid) => ActionView::Terminate(*pid),
            Action::Reap(pid) => ActionView::Reap(*pid),
        }
    }
}

impl View for Plan {
    type V = PlanView;

    closed spec fn view(&self) -> PlanView {
        PlanView { config: self.config, target: self.target@ }
    }
}

impl View for Pending {
    type V = PendingView;

    closed spec fn view(&self) -> PendingView {
        match self {
            Pending::Nothing => PendingView::Nothing,
            Pending::Resolving(config) => PendingView::Resolving(*config),
            Pending::CheckingPrimary { config, primary } => PendingView::CheckingPrimary {
                config: *config,
                primary: primary@,
            },
            Pending::CheckingFallback { config, primary } => PendingView::CheckingFallback {
                config: *config,
                primary: primary@,
            },
            Pending::Probing(plan) => PendingView::Probing(plan@),
            Pending::LocatingLog(plan) => PendingView::LocatingLog(plan@),
            Pending::LocatingData(plan) => PendingView::LocatingData(plan@),
            Pending::OpeningLog { plan, log_dir } => PendingView::OpeningLog {
                plan: plan@,
                log_dir: log_dir@,
            },
            Pending::Launching(plan) => PendingView::Launching(plan@),
            Pending::Stopping(pid) => PendingView::Stopping(*pid),
            Pending::Checking => PendingView::Checking,
        }
    }
}

impl View for SidecarState {
    type V = SidecarStateView;

    closed spec fn view(&self) -> SidecarStateView {
        SidecarStateView { process: self.process, pending: self.pending@ }
    }
}

/// A reply without a line for the log.
fn done(message: &str) -> (action: Action)
    ensures
        action@ == crate::model::done(message@),
{
    Action::Done { message: String::from_str(message), note: None }
}

/// A failure without a line for the log.
fn failed(error: SidecarError) -> (action: Action)
    ensures
        action@ == crate::model::failed(error@),
{
    Action::Failed { error, note: None }
}

/// Builds the command that starts the entry point of `plan`.
fn command(plan: &Plan, log_dir: String) -> (command: LaunchCommand)
    ensures
        command@ == command_for(plan@, log_dir@),
{
    let variable = String::from_str("YA_API_LOG_DIR");
    match plan.target.interpreter {
        Requirement::RunDirectly => LaunchCommand {
            program: plan.target.path.clone(),
            script: None,
            variable,
            log_dir,
            capture_output: true,
        },
        Requirement::RunViaInterpreter => LaunchCommand {
            program: String::from_str(interpreter_name()),
            script: Some(plan.target.path.clone()),
            variable,
            log_dir,
            capture_output: true,
        },
    }
}

impl SidecarState {
    /// A supervisor that holds no process and waits for nothing.
    pub fn new() -> (state: SidecarState)
        ensures
            state@ == SidecarStateView::idle(),
            state@.consistent(),
    {
        SidecarState { process: None, pending: Pending::Nothing }
    }

    /// The id of the process held, if one is.
    pub fn process(&self) -> (pid: Option<u32>)
        ensures
            pid == self@.process,
    {
        self.process
    }

    /// Whether no request is under way.
    pub fn is_quiet(&self) -> (quiet: bool)
        ensures
            quiet == self@.quiet(),
    {
        match self.pending {
            Pending::Nothing => true,
            _ => false,
        }
    }

    fn proceed(&mut self, plan: Plan) -> (action: Action)
        ensures
            (final(self)@, action@) == old(self)@.proceed(plan@),
    {
        match plan.target.interpreter {
            Requirement::RunViaInterpreter => {
                self.pending = Pending::Probing(plan);
                Action::Probe(String::from_str(interpreter_name()))
            },
            Requirement::RunDirectly => {
                self.pending = Pending::LocatingLog(plan);
                Action::Lookup(Directory::Log)
            },
        }
    }

    fn located(&mut self, config: Config, dir: String) -> (action: Action)
        ensures
            (final(self)@, action@) == old(self)@.located(config, dir@),
    {
        match config.mode {
            BuildMode::Development => {
                let path = development_path(config.platform, dir.as_str());
                self.proceed(
                    Plan {
                        config,
                        target: ResolvedPath { path, interpreter: Requirement::RunViaInterpreter },
                    },
                )
            },
            BuildMode::Packaged => match config.strategy {
                Strategy::NativeBinary => {
                    let path = native_path(config.platform, dir.as_str());
                    self.proceed(
                        Plan {
                            config,
                            target: ResolvedPath { path, interpreter: Requirement::RunDirectly },
                        },
                    )
                },
                Strategy::InterpreterScript => {
                    let primary = script_path(config.platform, dir.as_str());
                    let asked = primary.clone();
                    self.pending = Pending::CheckingPrimary { config, primary };
                    Action::CheckExists(asked)
                },
            },
        }
    }

    fn chosen(&mut self, config: Config, path: String) -> (action: Action)
        ensures
            (final(self)@, action@) == old(self)@.chosen(config, path@),
    {
        self.proceed(
            Plan {
                config,
                target: ResolvedPath { path, interpreter: Requirement::RunViaInterpreter },
            },
        )
    }

    fn log_located(&mut self, plan: Plan, dir: String) -> (action: Action)
        ensures
            (final(self)@, action@) == old(self)@.log_located(plan@, dir@),
    {
        let file = log_file_path(plan.config.platform, dir.as_str());
        let log_dir = dir.clone();
        self.pending = Pending::OpeningLog { plan, log_dir };
        Action::OpenLog { dir, file }
    }

    /// Takes a report from the host and gives the next action.
    pub fn resume(&mut self, event: Event) -> (action: Action)
        ensures
            (final(self)@, action@) == old(self)@.after(event@),
            old(self)@.consistent() ==> final(self)@.consistent(),
    {
        let mut pending = Pending::Nothing;
        core::mem::swap(&mut self.pending, &mut pending);
        match (pending, event) {
            (Pending::Resolving(config), Event::DirectoryFound(dir)) => self.located(config, dir),
            (Pending::Resolving(config), Event::DirectoryMissing(cause)) => {
                let directory = match config.mode {
                    BuildMode::Development => Directory::Working,
                    BuildMode::Packaged => Directory::Resource,
                };
                failed(SidecarError::PathUnavailable { directory, cause })
            },
            (Pending::CheckingPrimary { config, primary }, Event::Exists(true)) => self.chosen(
                config,
                primary,
            ),
            (Pending::CheckingPrimary { config, primary }, Event::Exists(false)) => {
                self.pending = Pending::CheckingFallback { config, primary };
                Action::CheckExists(fallback_path(config.platform))
            },
            (Pending::CheckingFallback { config, .. }, Event::Exists(true)) => {
                let path = fallback_path(config.platform);
                self.chosen(config, path)
            },
            (Pending::CheckingFallback { config, primary }, Event::Exists(false)) => self.chosen(
                config,
                primary,
            ),
            (Pending::Probing(plan), Event::Probed(true)) => {
                self.pending = Pending::LocatingLog(plan);
                Action::Lookup(Directory::Log)
            },
            (Pending::Probing(_), Event::Probed(false)) => failed(
                SidecarError::InterpreterUnavailable,
            ),
            (Pending::LocatingLog(plan), Event::DirectoryFound(dir)) => self.log_located(plan, dir),
            (Pending::LocatingLog(plan), Event::DirectoryMissing(_)) => {
                self.pending = Pending::LocatingData(plan);
                Action::Lookup(Directory::Data)
            },
            (Pending::LocatingData(plan), Event::DirectoryFound(dir)) => self.log_located(
                plan,
                dir,
            ),
            (Pending::LocatingData(plan), Event::DirectoryMissing(cause)) => failed(
                SidecarError::PathUnavailable { directory: Directory::Data, cause },
            ),
            (Pending::OpeningLog { plan, log_dir }, Event::LogOpened) => {
                let launch = command(&plan, log_dir);
                self.pending = Pending::Launching(plan);
                Action::Launch(launch)
            },
            (Pending::OpeningLog { .. }, Event::LogFailed(cause)) => failed(
                SidecarError::LogUnavailable { cause },
            ),
            (Pending::Launching(plan), Event::Launched(pid)) => {
                self.process = Some(pid);
                Action::Done {
                    message: String::from_str("yaLLMa3API spawned successfully"),
                    note: Some(startup_line(pid, plan.target.path.as_str())),
                }
            },
            (Pending::Launching(_), Event::LaunchFailed(cause)) => {
                let note = failure_line(cause.as_str());
                Action::Failed { error: SidecarError::SpawnFailed { cause }, note: Some(note) }
            },
            (Pending::Stopping(_), Event::Terminated) => done("yaLLMa3API killed successfully"),
            (Pending::Stopping(pid), Event::TerminateFailed(cause)) => {
                self.process = Some(pid);
                failed(SidecarError::KillFailed { cause })
            },
            (Pending::Checking, Event::StillRunning) => done("yaLLMa3API is running"),
            (Pending::Checking, Event::Exited(code)) => {
                let mut message = String::from_str("yaLLMa3API exited with status: ");
                let number = integer_text(code);
                message.append(number.as_str());
                Action::Done { message, note: None }
            },
            (Pending::Checking, Event::ExitedWithoutCode(description)) => {
                let mut message = String::from_str("yaLLMa3API exited with status: ");
                message.append(description.as_str());
                Action::Done { message, note: None }
            },
            (Pending::Checking, Event::ReapFailed(cause)) => failed(
                SidecarError::StatusFailed { cause },
            ),
            (pending, _) => {
                self.pending = pending;
                failed(SidecarError::UnexpectedEvent)
            },
        }
    }
}

/// Asks the supervisor to start the sidecar.
pub fn spawn_yallma3api(state: &mut SidecarState, config: Config) -> (action: Action)
    ensures
        (final(state)@, action@) == old(state)@.start(config),
        old(state)@.consistent() ==> final(state)@.consistent(),
{
    if !state.is_quiet() {
        return failed(SidecarError::Busy);
    }
    if state.process.is_some() {
        return done("yaLLMa3API is already running");
    }
    state.pending = Pending::Resolving(config);
    match config.mode {
        BuildMode::Development => Action::Lookup(Directory::Working),
        BuildMode::Packaged => Action::Lookup(Directory::Resource),
    }
}

/// Asks the supervisor to stop the sidecar.
pub fn kill_yallma3api(state: &mut SidecarState) -> (action: Action)
    ensures
        (final(state)@, action@) == old(state)@.stop(),
        old(state)@.consistent() ==> final(state)@.consistent(),
{
    if !state.is_quiet() {
        return failed(SidecarError::Busy);
    }
    match state.process.take() {
        None => done("yaLLMa3API is not running"),
        Some(pid) => {
            state.pending = Pending::Stopping(pid);
            Action::Terminate(pid)
        },
    }
}

/// Asks the supervisor whether the sidecar is running.
pub fn get_yallma3api_status(state: &mut SidecarState) -> (action: Action)
    ensures
        (final(state)@, action@) == old(state)@.status(),
        old(state)@.consistent() ==> final(state)@.consistent(),
{
    if !state.is_quiet() {
        return failed(SidecarError::Busy);
    }
    match state.process {
        None => done("yaLLMa3API is not running"),
        Some(pid) => {
            state.pending = Pending::Checking;
            Action::Reap(pid)
        },
    }
}

} // verus!
