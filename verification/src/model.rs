//! The supervisor as a state machine over plain values.
//!
//! A request or a report from the host takes a state to the next state and to
//! an action: either the reply to the caller, or the next thing the host is
//! to do. The supervisor holds at most one process, and at most one request
//! is under way at any time.

use crate::error::{Directory, SidecarErrorView};
use crate::log_sink::{failure_line_of, log_file_in, quoted, startup_line_of};
use crate::resolver::{
    development_target, fallback_target, interpreter, native_under, script_under, BuildMode,
    Config, Requirement, ResolvedPathView, Strategy,
};
use crate::text::signed_decimal;
use vstd::prelude::*;

verus! {

/// A start that has found its entry point.
pub struct PlanView {
    pub config: Config,
    pub target: ResolvedPathView,
}

/// How the host is to create the process: the program, the script handed to
/// it where the program is an interpreter, the one variable added to the
/// child's environment, and whether the child's standard output and standard
/// error are to be piped to the host.
pub struct LaunchCommandView {
    pub program: Seq<char>,
    pub script: Option<Seq<char>>,
    pub variable: Seq<char>,
    pub log_dir: Seq<char>,
    pub capture_output: bool,
}

/// What the host reports when it has done what an action asked.
pub enum EventView {
    DirectoryFound(Seq<char>),
    DirectoryMissing(Seq<char>),
    Exists(bool),
    Probed(bool),
    LogOpened,
    LogFailed(Seq<char>),
    Launched(u32),
    LaunchFailed(Seq<char>),
    Terminated,
    TerminateFailed(Seq<char>),
    StillRunning,
    Exited(i32),
    ExitedWithoutCode(Seq<char>),
    ReapFailed(Seq<char>),
}

/// What the supervisor hands back: a reply, which ends the request, or a
/// step for the host.
pub enum ActionView {
    Done { message: Seq<char>, note: Option<Seq<char>> },
    Failed { error: SidecarErrorView, note: Option<Seq<char>> },
    Lookup(Directory),
    CheckExists(Seq<char>),
    Probe(Seq<char>),
    OpenLog { dir: Seq<char>, file: Seq<char> },
    Launch(LaunchCommandView),
    Terminate(u32),
    Reap(u32),
}

/// What the supervisor is waiting for.
pub enum PendingView {
    Nothing,
    Resolving(Config),
    CheckingPrimary { config: Config, primary: Seq<char> },
    CheckingFallback { config: Config, primary: Seq<char> },
    Probing(PlanView),
    LocatingLog(PlanView),
    LocatingData(PlanView),
    OpeningLog { plan: PlanView, log_dir: Seq<char> },
    Launching(PlanView),
    Stopping(u32),
    Checking,
}

/// The supervisor's state: the process it holds, by its id, and the step it
/// is waiting for.
pub struct SidecarStateView {
    pub process: Option<u32>,
    pub pending: PendingView,
}

/// The reply of a start while a process is held.
pub open spec fn already_running() -> Seq<char> {
    "yaLLMa3API is already running"@
}

/// The reply of a start that created the process.
pub open spec fn spawned() -> Seq<char> {
    "yaLLMa3API spawned successfully"@
}

/// The reply of a stop that delivered the signal.
pub open spec fn killed() -> Seq<char> {
    "yaLLMa3API killed successfully"@
}

/// The reply of a stop or a status request while no process is held.
pub open spec fn not_running() -> Seq<char> {
    "yaLLMa3API is not running"@
}

/// The reply of a status request while the process has not exited.
pub open spec fn running() -> Seq<char> {
    "yaLLMa3API is running"@
}

/// The reply for a process that has exited with `code`.
pub open spec fn exited(code: i32) -> Seq<char> {
    "yaLLMa3API exited with status: "@ + signed_decimal(code as int)
}

/// The reply for a process that has exited and left no code, from the
/// host's description of how it ended.
pub open spec fn exited_without_code(description: Seq<char>) -> Seq<char> {
    "yaLLMa3API exited with status: "@ + description
}

/// The variable that tells the child where the log directory is.
pub open spec fn log_dir_variable() -> Seq<char> {
    "YA_API_LOG_DIR"@
}

/// The directory a start asks for first.
pub open spec fn wanted_directory(config: Config) -> Directory {
    match config.mode {
        BuildMode::Development => Directory::Working,
        BuildMode::Packaged => Directory::Resource,
    }
}

/// The command that starts the entry point of `plan`. The child's output is
/// always piped to the host, which copies it to the log.
pub open spec fn command_for(plan: PlanView, log_dir: Seq<char>) -> LaunchCommandView {
    match plan.target.interpreter {
        Requirement::RunDirectly => LaunchCommandView {
            program: plan.target.path,
            script: None,
            variable: log_dir_variable(),
            log_dir,
            capture_output: true,
        },
        Requirement::RunViaInterpreter => LaunchCommandView {
            program: interpreter(),
            script: Some(plan.target.path),
            variable: log_dir_variable(),
            log_dir,
            capture_output: true,
        },
    }
}

/// A reply without a line for the log.
pub open spec fn done(message: Seq<char>) -> ActionView {
    ActionView::Done { message, note: None }
}

/// A failure without a line for the log.
pub open spec fn failed(error: SidecarErrorView) -> ActionView {
    ActionView::Failed { error, note: None }
}

impl ActionView {
    /// Whether the action ends the request.
    pub open spec fn is_reply(self) -> bool {
        self is Done || self is Failed
    }
}

impl SidecarStateView {
    /// The state of a supervisor that holds no process and waits for nothing.
    pub open spec fn idle() -> SidecarStateView {
        SidecarStateView { process: None, pending: PendingView::Nothing }
    }

    /// Whether no request is under way.
    pub open spec fn quiet(self) -> bool {
        self.pending is Nothing
    }

    /// The same state, waiting for `pending`.
    pub open spec fn waiting(self, pending: PendingView) -> SidecarStateView {
        SidecarStateView { process: self.process, pending }
    }

    /// The same state with the request ended.
    pub open spec fn settled(self) -> SidecarStateView {
        SidecarStateView { process: self.process, pending: PendingView::Nothing }
    }

    /// What holds of every state the supervisor reaches: while a start is
    /// under way no process is held; while a stop is under way the process
    /// it is stopping is set aside with it, and none is held beside; and a
    /// check is under way only while one is held.
    pub open spec fn consistent(self) -> bool {
        match self.pending {
            PendingView::Nothing => true,
            PendingView::Checking => self.process is Some,
            _ => self.process is None,
        }
    }

    /// A start with its entry point found goes on to the probe where an
    /// interpreter is needed, and to the log directory where none is.
    pub open spec fn proceed(self, plan: PlanView) -> (SidecarStateView, ActionView) {
        match plan.target.interpreter {
            Requirement::RunViaInterpreter => (
                self.waiting(PendingView::Probing(plan)),
                ActionView::Probe(interpreter()),
            ),
            Requirement::RunDirectly => (
                self.waiting(PendingView::LocatingLog(plan)),
                ActionView::Lookup(Directory::Log),
            ),
        }
    }

    /// A start that has the directory it asked for first.
    pub open spec fn located(self, config: Config, dir: Seq<char>) -> (
        SidecarStateView,
        ActionView,
    ) {
        match config.mode {
            BuildMode::Development => self.proceed(
                PlanView {
                    config,
                    target: ResolvedPathView {
                        path: development_target(config.platform, dir),
                        interpreter: Requirement::RunViaInterpreter,
                    },
                },
            ),
            BuildMode::Packaged => match config.strategy {
                Strategy::NativeBinary => self.proceed(
                    PlanView {
                        config,
                        target: ResolvedPathView {
                            path: native_under(config.platform, dir),
                            interpreter: Requirement::RunDirectly,
                        },
                    },
                ),
                Strategy::InterpreterScript => (
                    self.waiting(
                        PendingView::CheckingPrimary {
                            config,
                            primary: script_under(config.platform, dir),
                        },
                    ),
                    ActionView::CheckExists(script_under(config.platform, dir)),
                ),
            },
        }
    }

    /// A start that has chosen `path` as its script.
    pub open spec fn chosen(self, config: Config, path: Seq<char>) -> (
        SidecarStateView,
        ActionView,
    ) {
        self.proceed(
            PlanView {
                config,
                target: ResolvedPathView { path, interpreter: Requirement::RunViaInterpreter },
            },
        )
    }

    /// A start that has its log directory.
    pub open spec fn log_located(self, plan: PlanView, dir: Seq<char>) -> (
        SidecarStateView,
        ActionView,
    ) {
        (
            self.waiting(PendingView::OpeningLog { plan, log_dir: dir }),
            ActionView::OpenLog { dir, file: log_file_in(plan.config.platform, dir) },
        )
    }

    /// A request to start the sidecar.
    ///
    /// While another request is under way the reply is `Busy`. With a process
    /// held the reply is "already running", whatever became of that process.
    /// Otherwise the start begins by asking for the directory its build mode
    /// needs. The state changes in the last case only.
    pub open spec fn start(self, config: Config) -> (SidecarStateView, ActionView) {
        if !self.quiet() {
            (self, failed(SidecarErrorView::Busy))
        } else if self.process is Some {
            (self, done(already_running()))
        } else {
            (
                self.waiting(PendingView::Resolving(config)),
                ActionView::Lookup(wanted_directory(config)),
            )
        }
    }

    /// A request to stop the sidecar.
    ///
    /// While another request is under way the reply is `Busy`. With no
    /// process held the reply is "not running". Otherwise the host is asked
    /// to terminate the process, which the stop holds until the host has
    /// answered.
    pub open spec fn stop(self) -> (SidecarStateView, ActionView) {
        if !self.quiet() {
            (self, failed(SidecarErrorView::Busy))
        } else {
            match self.process {
                None => (self, done(not_running())),
                Some(pid) => (
                    SidecarStateView { process: None, pending: PendingView::Stopping(pid) },
                    ActionView::Terminate(pid),
                ),
            }
        }
    }

    /// A request for the sidecar's status.
    ///
    /// While another request is under way the reply is `Busy`. With no
    /// process held the reply is "not running" and the state is left as it
    /// was. Otherwise the host is asked whether the process has exited.
    pub open spec fn status(self) -> (SidecarStateView, ActionView) {
        if !self.quiet() {
            (self, failed(SidecarErrorView::Busy))
        } else {
            match self.process {
                None => (self, done(not_running())),
                Some(pid) => (self.waiting(PendingView::Checking), ActionView::Reap(pid)),
            }
        }
    }

    /// The reply to a report that the pending step did not ask for. The state
    /// is left as it was.
    pub open spec fn unexpected(self) -> (SidecarStateView, ActionView) {
        (self, failed(SidecarErrorView::UnexpectedEvent))
    }

    /// A report from the host.
    ///
    /// Each pending step takes the reports that answer it; any other report
    /// is refused and changes nothing. A start moves from the directory to
    /// the choice of the script, the probe, the log directory (the data
    /// directory where the host has no log directory), the log file and the
    /// launch; any failure on the way ends it with no process held. Only a
    /// launch that succeeded puts a new process into the state. A stop ends
    /// with no process held where the signal was delivered, and with the
    /// process back in place, as it was found, where it was not. A check
    /// leaves the process in place whatever it finds.
    pub open spec fn after(self, event: EventView) -> (SidecarStateView, ActionView) {
        match self.pending {
            PendingView::Nothing => self.unexpected(),
            PendingView::Resolving(config) => match event {
                EventView::DirectoryFound(dir) => self.located(config, dir),
                EventView::DirectoryMissing(cause) => (
                    self.settled(),
                    failed(
                        SidecarErrorView::PathUnavailable {
                            directory: wanted_directory(config),
                            cause,
                        },
                    ),
                ),
                _ => self.unexpected(),
            },
            PendingView::CheckingPrimary { config, primary } => match event {
                EventView::Exists(true) => self.chosen(config, primary),
                EventView::Exists(false) => (
                    self.waiting(PendingView::CheckingFallback { config, primary }),
                    ActionView::CheckExists(fallback_target(config.platform)),
                ),
                _ => self.unexpected(),
            },
            PendingView::CheckingFallback { config, primary } => match event {
                EventView::Exists(true) => self.chosen(config, fallback_target(config.platform)),
                EventView::Exists(false) => self.chosen(config, primary),
                _ => self.unexpected(),
            },
            PendingView::Probing(plan) => match event {
                EventView::Probed(true) => (
                    self.waiting(PendingView::LocatingLog(plan)),
                    ActionView::Lookup(Directory::Log),
                ),
                EventView::Probed(false) => (
                    self.settled(),
                    failed(SidecarErrorView::InterpreterUnavailable),
                ),
                _ => self.unexpected(),
            },
            PendingView::LocatingLog(plan) => match event {
                EventView::DirectoryFound(dir) => self.log_located(plan, dir),
                EventView::DirectoryMissing(_) => (
                    self.waiting(PendingView::LocatingData(plan)),
                    ActionView::Lookup(Directory::Data),
                ),
                _ => self.unexpected(),
            },
            PendingView::LocatingData(plan) => match event {
                EventView::DirectoryFound(dir) => self.log_located(plan, dir),
                EventView::DirectoryMissing(cause) => (
                    self.settled(),
                    failed(
                        SidecarErrorView::PathUnavailable { directory: Directory::Data, cause },
                    ),
                ),
                _ => self.unexpected(),
            },
            PendingView::OpeningLog { plan, log_dir } => match event {
                EventView::LogOpened => (
                    self.waiting(PendingView::Launching(plan)),
                    ActionView::Launch(command_for(plan, log_dir)),
                ),
                EventView::LogFailed(cause) => (
                    self.settled(),
                    failed(SidecarErrorView::LogUnavailable { cause }),
                ),
                _ => self.unexpected(),
            },
            PendingView::Launching(plan) => match event {
                EventView::Launched(pid) => (
                    SidecarStateView { process: Some(pid), pending: PendingView::Nothing },
                    ActionView::Done {
                        message: spawned(),
                        note: Some(startup_line_of(pid, quoted(plan.target.path))),
                    },
                ),
                EventView::LaunchFailed(cause) => (
                    self.settled(),
                    ActionView::Failed {
                        error: SidecarErrorView::SpawnFailed { cause },
                        note: Some(failure_line_of(cause)),
                    },
                ),
                _ => self.unexpected(),
            },
            PendingView::Stopping(pid) => match event {
                EventView::Terminated => (self.settled(), done(killed())),
                EventView::TerminateFailed(cause) => (
                    SidecarStateView { process: Some(pid), pending: PendingView::Nothing },
                    failed(SidecarErrorView::KillFailed { cause }),
                ),
                _ => self.unexpected(),
            },
            PendingView::Checking => match event {
                EventView::StillRunning => (self.settled(), done(running())),
                EventView::Exited(code) => (self.settled(), done(exited(code))),
                EventView::ExitedWithoutCode(description) => (
                    self.settled(),
                    done(exited_without_code(description)),
                ),
                EventView::ReapFailed(cause) => (
                    self.settled(),
                    failed(SidecarErrorView::StatusFailed { cause }),
                ),
                _ => self.unexpected(),
            },
        }
    }
}

} // verus!
