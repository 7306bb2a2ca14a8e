//! What holds of whole requests: a host that answers every step takes a
//! request from the supervisor's first action to its reply, and the laws
//! below say what the reply and the state then are.

use crate::error::{Directory, SidecarErrorView};
use crate::log_sink::{failure_line_of, quoted, startup_line_of};
use crate::model::{
    already_running, done, exited, exited_without_code, failed, killed, not_running, running,
    spawned, wanted_directory, ActionView, EventView, PendingView, PlanView, SidecarStateView,
};
use crate::resolver::{
    fallback_target, resolution, script_under, Config, Requirement, ResolvedPathView,
};
use vstd::prelude::*;

verus! {

/// What a host finds when it checks on the process.
pub enum Reaped {
    StillRunning,
    Exited(i32),
    ExitedWithoutCode(Seq<char>),
    Failed(Seq<char>),
}

/// How a host answers: what it would report for each step it is asked to do.
pub struct Host {
    pub working_dir: Result<Seq<char>, Seq<char>>,
    pub resource_dir: Result<Seq<char>, Seq<char>>,
    pub log_dir: Result<Seq<char>, Seq<char>>,
    pub data_dir: Result<Seq<char>, Seq<char>>,
    /// The paths that exist on disk.
    pub existing: Set<Seq<char>>,
    pub interpreter_found: bool,
    /// The cause, where the log file cannot be opened.
    pub log_failure: Option<Seq<char>>,
    /// The id of the process created, or the cause.
    pub launch: Result<u32, Seq<char>>,
    /// The cause, where the signal cannot be delivered.
    pub terminate_failure: Option<Seq<char>>,
    /// What a check on the process finds.
    pub reap: Reaped,
}

/// A request run to its reply: the state it leaves, the reply, and how many
/// times the host was asked to create a process on the way.
pub struct Run {
    pub state: SidecarStateView,
    pub reply: ActionView,
    pub launches: nat,
}

impl Host {
    /// The host's answer when asked for a directory.
    pub open spec fn directory(self, directory: Directory) -> Result<Seq<char>, Seq<char>> {
        match directory {
            Directory::Working => self.working_dir,
            Directory::Resource => self.resource_dir,
            Directory::Log => self.log_dir,
            Directory::Data => self.data_dir,
        }
    }

    /// The host's report on a step. A reply asks nothing of the host.
    pub open spec fn answer(self, action: ActionView) -> EventView {
        match action {
            ActionView::Lookup(directory) => match self.directory(directory) {
                Ok(dir) => EventView::DirectoryFound(dir),
                Err(cause) => EventView::DirectoryMissing(cause),
            },
            ActionView::CheckExists(path) => EventView::Exists(self.existing.contains(path)),
            ActionView::Probe(_) => EventView::Probed(self.interpreter_found),
            ActionView::OpenLog { .. } => match self.log_failure {
                None => EventView::LogOpened,
                Some(cause) => EventView::LogFailed(cause),
            },
            ActionView::Launch(_) => match self.launch {
                Ok(pid) => EventView::Launched(pid),
                Err(cause) => EventView::LaunchFailed(cause),
            },
            ActionView::Terminate(_) => match self.terminate_failure {
                None => EventView::Terminated,
                Some(cause) => EventView::TerminateFailed(cause),
            },
            ActionView::Reap(_) => match self.reap {
                Reaped::StillRunning => EventView::StillRunning,
                Reaped::Exited(code) => EventView::Exited(code),
                Reaped::ExitedWithoutCode(description) => EventView::ExitedWithoutCode(
                    description,
                ),
                Reaped::Failed(cause) => EventView::ReapFailed(cause),
            },
            _ => EventView::LogOpened,
        }
    }

    /// The directory the log goes to: the log directory, or the data
    /// directory where the host has no log directory.
    pub open spec fn log_directory(self) -> Result<Seq<char>, Seq<char>> {
        match self.log_dir {
            Ok(dir) => Ok(dir),
            Err(_) => self.data_dir,
        }
    }

    /// The entry point a start finds on this host.
    pub open spec fn resolves(self, config: Config) -> Result<ResolvedPathView, SidecarErrorView> {
        resolution(
            config,
            self.resource_dir,
            self.working_dir,
            self.resource_dir matches Ok(dir) && self.existing.contains(
                script_under(config.platform, dir),
            ),
            self.existing.contains(fallback_target(config.platform)),
        )
    }

    /// Why a start on this host ends before the process is asked for, if it
    /// does: the first of an unresolved entry point, a missing interpreter, a
    /// missing log directory, and a log file that cannot be opened.
    pub open spec fn refuses(self, config: Config) -> Option<SidecarErrorView> {
        match self.resolves(config) {
            Err(error) => Some(error),
            Ok(target) => if target.interpreter is RunViaInterpreter && !self.interpreter_found {
                Some(SidecarErrorView::InterpreterUnavailable)
            } else {
                match self.log_directory() {
                    Err(cause) => Some(
                        SidecarErrorView::PathUnavailable { directory: Directory::Data, cause },
                    ),
                    Ok(_) => match self.log_failure {
                        Some(cause) => Some(SidecarErrorView::LogUnavailable { cause }),
                        None => None,
                    },
                }
            },
        }
    }

    /// Whether a start on this host, from a supervisor that holds no process,
    /// creates one.
    pub open spec fn lets_start(self, config: Config) -> bool {
        self.refuses(config) is None && self.launch is Ok
    }
}

/// Lets `host` answer `action` and every action that follows, until one is a
/// reply or `steps` answers have been given.
pub open spec fn drive(state: SidecarStateView, action: ActionView, host: Host, steps: nat) -> Run
    decreases steps,
{
    if action.is_reply() || steps == 0 {
        Run { state, reply: action, launches: 0 }
    } else {
        let next = state.after(host.answer(action));
        let rest = drive(next.0, next.1, host, (steps - 1) as nat);
        Run {
            state: rest.state,
            reply: rest.reply,
            launches: rest.launches + if action is Launch {
                1nat
            } else {
                0nat
            },
        }
    }
}

/// The most answers a request takes.
pub open spec fn longest() -> nat {
    8
}

/// A start run to its reply on `host`.
pub open spec fn run_start(state: SidecarStateView, config: Config, host: Host) -> Run {
    let first = state.start(config);
    drive(first.0, first.1, host, longest())
}

/// A stop run to its reply on `host`.
pub open spec fn run_stop(state: SidecarStateView, host: Host) -> Run {
    let first = state.stop();
    drive(first.0, first.1, host, longest())
}

/// A status request run to its reply on `host`.
pub open spec fn run_status(state: SidecarStateView, host: Host) -> Run {
    let first = state.status();
    drive(first.0, first.1, host, longest())
}

/// What a start comes to.
///
/// While another request is under way it is refused; with a process held it
/// replies "already running". In both cases nothing changes and the host is
/// asked nothing. Otherwise it fails with what the host refuses, or asks for
/// the process once: with the process created the state holds it and the
/// reply is "spawned successfully", and without, the state holds none.
pub open spec fn start_outcome(state: SidecarStateView, config: Config, host: Host) -> Run {
    if !state.quiet() {
        Run { state, reply: failed(SidecarErrorView::Busy), launches: 0 }
    } else if state.process is Some {
        Run { state, reply: done(already_running()), launches: 0 }
    } else {
        match host.refuses(config) {
            Some(error) => Run { state, reply: failed(error), launches: 0 },
            None => match host.launch {
                Ok(pid) => Run {
                    state: SidecarStateView { process: Some(pid), pending: state.pending },
                    reply: ActionView::Done {
                        message: spawned(),
                        note: Some(
                            startup_line_of(pid, quoted(host.resolves(config)->Ok_0.path)),
                        ),
                    },
                    launches: 1,
                },
                Err(cause) => Run {
                    state,
                    reply: ActionView::Failed {
                        error: SidecarErrorView::SpawnFailed { cause },
                        note: Some(failure_line_of(cause)),
                    },
                    launches: 1,
                },
            },
        }
    }
}

/// What a stop comes to: with no process held, "not running"; with one, the
/// state holds none once the signal was delivered, and is left as it was
/// found, the process still in it, where the signal failed.
pub open spec fn stop_outcome(state: SidecarStateView, host: Host) -> Run {
    if !state.quiet() {
        Run { state, reply: failed(SidecarErrorView::Busy), launches: 0 }
    } else if state.process is None {
        Run { state, reply: done(not_running()), launches: 0 }
    } else {
        match host.terminate_failure {
            None => Run { state: SidecarStateView::idle(), reply: done(killed()), launches: 0 },
            Some(cause) => Run {
                state,
                reply: failed(SidecarErrorView::KillFailed { cause }),
                launches: 0,
            },
        }
    }
}

/// What a status request comes to: the state is left as it was, and the
/// reply tells what the host found.
pub open spec fn status_outcome(state: SidecarStateView, host: Host) -> Run {
    Run {
        state,
        reply: if !state.quiet() {
            failed(SidecarErrorView::Busy)
        } else if state.process is None {
            done(not_running())
        } else {
            match host.reap {
                Reaped::StillRunning => done(running()),
                Reaped::Exited(code) => done(exited(code)),
                Reaped::ExitedWithoutCode(description) => done(exited_without_code(description)),
                Reaped::Failed(cause) => failed(SidecarErrorView::StatusFailed { cause }),
            }
        },
        launches: 0,
    }
}

/// Every request and every report takes a consistent state to a consistent
/// state.
pub proof fn lemma_consistency_is_kept(state: SidecarStateView, config: Config, event: EventView)
    requires
        state.consistent(),
    ensures
        SidecarStateView::idle().consistent(),
        state.start(config).0.consistent(),
        state.stop().0.consistent(),
        state.status().0.consistent(),
        state.after(event).0.consistent(),
{
}

/// The host is asked to create a process only by a start that has opened the
/// log, in a state that holds no process. The process in the state changes
/// in two ways only: the report that the process asked for was created puts
/// it in, and the report that a signal failed puts back the process that the
/// stop had taken out.
pub proof fn lemma_launch_needs_empty_state(state: SidecarStateView, event: EventView)
    requires
        state.consistent(),
    ensures
        state.after(event).1 is Launch ==> state.process is None && state.pending is OpeningLog
            && state.after(event).0.pending is Launching,
        state.after(event).0.process != state.process ==> {
            ||| state.pending is Launching && event is Launched && state.after(event).0.process
                == Some(event->Launched_0)
            ||| state.pending is Stopping && event is TerminateFailed && state.after(
                event,
            ).0.process == Some(state.pending->Stopping_0)
        },
{
}

/// What a start comes to once its entry point is found: the probe, the log
/// directory, the log file and the launch, in this order, each ending the
/// start where it fails.
spec fn plan_outcome(state: SidecarStateView, plan: PlanView, host: Host) -> Run {
    if plan.target.interpreter is RunViaInterpreter && !host.interpreter_found {
        Run {
            state: state.settled(),
            reply: failed(SidecarErrorView::InterpreterUnavailable),
            launches: 0,
        }
    } else {
        match host.log_directory() {
            Err(cause) => Run {
                state: state.settled(),
                reply: failed(
                    SidecarErrorView::PathUnavailable { directory: Directory::Data, cause },
                ),
                launches: 0,
            },
            Ok(_) => match host.log_failure {
                Some(cause) => Run {
                    state: state.settled(),
                    reply: failed(SidecarErrorView::LogUnavailable { cause }),
                    launches: 0,
                },
                None => match host.launch {
                    Ok(pid) => Run {
                        state: SidecarStateView {
                            process: Some(pid),
                            pending: PendingView::Nothing,
                        },
                        reply: ActionView::Done {
                            message: spawned(),
                            note: Some(startup_line_of(pid, quoted(plan.target.path))),
                        },
                        launches: 1,
                    },
                    Err(cause) => Run {
                        state: state.settled(),
                        reply: ActionView::Failed {
                            error: SidecarErrorView::SpawnFailed { cause },
                            note: Some(failure_line_of(cause)),
                        },
                        launches: 1,
                    },
                },
            },
        }
    }
}

/// A start that has opened the log comes to the launch and its result.
proof fn lemma_launch_runs(
    state: SidecarStateView,
    plan: PlanView,
    dir: Seq<char>,
    host: Host,
    steps: nat,
)
    requires
        steps >= 2,
        host.log_directory() == Ok::<Seq<char>, Seq<char>>(dir),
        !(plan.target.interpreter is RunViaInterpreter && !host.interpreter_found),
    ensures
        drive(state.log_located(plan, dir).0, state.log_located(plan, dir).1, host, steps)
            == plan_outcome(state, plan, host),
{
    reveal_with_fuel(drive, 3);
}

/// A start that has passed the probe comes to the log and the launch.
proof fn lemma_log_runs(state: SidecarStateView, plan: PlanView, host: Host, steps: nat)
    requires
        steps >= 4,
        !(plan.target.interpreter is RunViaInterpreter && !host.interpreter_found),
    ensures
        drive(
            state.waiting(PendingView::LocatingLog(plan)),
            ActionView::Lookup(Directory::Log),
            host,
            steps,
        ) == plan_outcome(state, plan, host),
{
    reveal_with_fuel(drive, 3);
    let asked = state.waiting(PendingView::LocatingLog(plan));
    match host.log_directory() {
        Ok(dir) => {
            match host.log_dir {
                Ok(_) => {
                    lemma_launch_runs(asked, plan, dir, host, (steps - 1) as nat);
                },
                Err(_) => {
                    let again = asked.waiting(PendingView::LocatingData(plan));
                    lemma_launch_runs(again, plan, dir, host, (steps - 2) as nat);
                },
            }
        },
        Err(_) => {},
    }
}

/// A start that has found its entry point comes to what `plan_outcome` says.
proof fn lemma_plan_runs(state: SidecarStateView, plan: PlanView, host: Host, steps: nat)
    requires
        steps >= 5,
    ensures
        drive(state.proceed(plan).0, state.proceed(plan).1, host, steps) == plan_outcome(
            state,
            plan,
            host,
        ),
{
    reveal_with_fuel(drive, 2);
    match plan.target.interpreter {
        Requirement::RunViaInterpreter => {
            if host.interpreter_found {
                let probing = state.waiting(PendingView::Probing(plan));
                lemma_log_runs(probing, plan, host, (steps - 1) as nat);
            }
        },
        Requirement::RunDirectly => {
            lemma_log_runs(state, plan, host, steps);
        },
    }
}

/// A start on a host comes to what `start_outcome` says, in at most
/// `longest()` answers.
pub proof fn lemma_start_runs_to_outcome(state: SidecarStateView, config: Config, host: Host)
    ensures
        run_start(state, config, host) == start_outcome(state, config, host),
        run_start(state, config, host).reply.is_reply(),
{
    reveal_with_fuel(drive, 2);
    if state.quiet() && state.process is None {
        let asked = state.waiting(PendingView::Resolving(config));
        match host.directory(wanted_directory(config)) {
            Err(_) => {},
            Ok(dir) => {
                let next = asked.located(config, dir);
                assert(run_start(state, config, host) == drive(next.0, next.1, host, 7));
                match host.resolves(config) {
                    Ok(target) => {
                        let plan = PlanView { config, target };
                        assert(plan_outcome(state, plan, host) == start_outcome(
                            state,
                            config,
                            host,
                        ));
                        if config.mode is Packaged && config.strategy is InterpreterScript {
                            let primary = script_under(config.platform, dir);
                            if host.existing.contains(primary) {
                                lemma_plan_runs(next.0, plan, host, 6);
                            } else {
                                let second = next.0.waiting(
                                    PendingView::CheckingFallback { config, primary },
                                );
                                lemma_plan_runs(second, plan, host, 5);
                                assert(drive(next.0, next.1, host, 7) == drive(
                                    second,
                                    ActionView::CheckExists(fallback_target(config.platform)),
                                    host,
                                    6,
                                ));
                            }
                        } else {
                            lemma_plan_runs(asked, plan, host, 7);
                        }
                    },
                    Err(_) => {},
                }
            },
        }
    }
}

/// A stop on a host comes to what `stop_outcome` says.
pub proof fn lemma_stop_runs_to_outcome(state: SidecarStateView, host: Host)
    ensures
        run_stop(state, host) == stop_outcome(state, host),
        run_stop(state, host).reply.is_reply(),
{
    reveal_with_fuel(drive, 3);
}

/// A status request on a host comes to what `status_outcome` says.
pub proof fn lemma_status_runs_to_outcome(state: SidecarStateView, host: Host)
    ensures
        run_status(state, host) == status_outcome(state, host),
        run_status(state, host).reply.is_reply(),
{
    reveal_with_fuel(drive, 3);
}

/// Starts made one after the other, each run to its reply before the next
/// begins.
pub struct Rounds {
    /// The state after the last of them.
    pub state: SidecarStateView,
    /// How many of them created a process.
    pub created: nat,
    /// The reply of each, in order.
    pub replies: Seq<ActionView>,
}

/// Whether a run asked the host for a process and the host created it.
pub open spec fn created_by(run: Run, host: Host) -> nat {
    if run.launches > 0 && host.launch is Ok {
        1
    } else {
        0
    }
}

/// One start for each host of `hosts`, in order, each on its own host.
pub open spec fn starts(state: SidecarStateView, config: Config, hosts: Seq<Host>) -> Rounds
    decreases hosts.len(),
{
    if hosts.len() == 0 {
        Rounds { state, created: 0, replies: Seq::empty() }
    } else {
        let run = run_start(state, config, hosts.first());
        let rest = starts(run.state, config, hosts.drop_first());
        Rounds {
            state: rest.state,
            created: created_by(run, hosts.first()) + rest.created,
            replies: seq![run.reply] + rest.replies,
        }
    }
}

/// While a process is held, a start replies "already running", asks the host
/// nothing and changes nothing, whatever the host would have answered.
pub proof fn lemma_start_while_running(state: SidecarStateView, config: Config, host: Host)
    requires
        state.quiet(),
        state.process is Some,
    ensures
        state.start(config) == (state, done(already_running())),
        run_start(state, config, host) == (Run {
            state,
            reply: done(already_running()),
            launches: 0,
        }),
{
    lemma_start_runs_to_outcome(state, config, host);
}

/// While a process is held, any number of starts leave the state as it was:
/// none creates a process and each replies "already running".
pub proof fn lemma_starts_while_running(state: SidecarStateView, config: Config, hosts: Seq<Host>)
    requires
        state.quiet(),
        state.process is Some,
    ensures
        starts(state, config, hosts).state == state,
        starts(state, config, hosts).created == 0,
        starts(state, config, hosts).replies.len() == hosts.len(),
        forall|j: int|
            0 <= j < hosts.len() ==> #[trigger] starts(state, config, hosts).replies[j] == done(
                already_running(),
            ),
    decreases hosts.len(),
{
    if hosts.len() > 0 {
        lemma_start_while_running(state, config, hosts.first());
        lemma_starts_while_running(state, config, hosts.drop_first());
    }
}

/// Among any number of starts at most one creates a process, and none does
/// while one is held: whatever each host answers, no second process comes to
/// stand beside the first.
pub proof fn lemma_at_most_one_spawn(state: SidecarStateView, config: Config, hosts: Seq<Host>)
    requires
        state.quiet(),
    ensures
        starts(state, config, hosts).created <= 1,
        state.process is Some ==> starts(state, config, hosts).created == 0,
        starts(state, config, hosts).created == 1 ==> starts(state, config, hosts).state.process
            is Some,
        starts(state, config, hosts).state.quiet(),
        starts(state, config, hosts).replies.len() == hosts.len(),
    decreases hosts.len(),
{
    if hosts.len() > 0 {
        let run = run_start(state, config, hosts.first());
        lemma_start_runs_to_outcome(state, config, hosts.first());
        lemma_at_most_one_spawn(run.state, config, hosts.drop_first());
        if run.state.process is Some {
            lemma_starts_while_running(run.state, config, hosts.drop_first());
        }
    }
}

/// Of starts made one after the other from a supervisor that holds no
/// process, on hosts that each would let a start through, exactly one creates
/// a process: the first. It replies "spawned successfully", the state holds
/// the process it created, and every later start replies "already running".
pub proof fn lemma_exactly_one_spawn(state: SidecarStateView, config: Config, hosts: Seq<Host>)
    requires
        state.quiet(),
        state.process is None,
        hosts.len() > 0,
        forall|i: int| 0 <= i < hosts.len() ==> (#[trigger] hosts[i]).lets_start(config),
    ensures
        starts(state, config, hosts).created == 1,
        starts(state, config, hosts).state.process == Some(hosts[0].launch->Ok_0),
        starts(state, config, hosts).replies.len() == hosts.len(),
        starts(state, config, hosts).replies[0] is Done,
        starts(state, config, hosts).replies[0]->Done_message == spawned(),
        forall|j: int|
            1 <= j < hosts.len() ==> #[trigger] starts(state, config, hosts).replies[j] == done(
                already_running(),
            ),
{
    let first = hosts.first();
    let run = run_start(state, config, first);
    lemma_start_runs_to_outcome(state, config, first);
    assert(first.lets_start(config));
    let later = hosts.drop_first();
    lemma_starts_while_running(run.state, config, later);
    let rest = starts(run.state, config, later);
    let all = starts(state, config, hosts);
    assert forall|j: int| 1 <= j < hosts.len() implies #[trigger] all.replies[j] == done(
        already_running(),
    ) by {
        assert(all.replies[j] == rest.replies[j - 1]);
    }
}

/// A stop whose signal was delivered, followed at once by a start, leaves
/// exactly one process, the new one: the stop empties the state, and the
/// start, on a host that lets it through, asks for one process and holds what
/// it got.
pub proof fn lemma_kill_then_spawn(
    state: SidecarStateView,
    config: Config,
    stopper: Host,
    starter: Host,
)
    requires
        state.quiet(),
        state.process is Some,
        stopper.terminate_failure is None,
        starter.lets_start(config),
    ensures
        run_stop(state, stopper).state == SidecarStateView::idle(),
        run_stop(state, stopper).reply == done(killed()),
        run_stop(state, stopper).launches == 0,
        run_start(run_stop(state, stopper).state, config, starter).launches == 1,
        run_start(run_stop(state, stopper).state, config, starter).state == (SidecarStateView {
            process: Some(starter.launch->Ok_0),
            pending: PendingView::Nothing,
        }),
        run_start(run_stop(state, stopper).state, config, starter).reply is Done,
        run_start(run_stop(state, stopper).state, config, starter).reply->Done_message
            == spawned(),
{
    lemma_stop_runs_to_outcome(state, stopper);
    lemma_start_runs_to_outcome(SidecarStateView::idle(), config, starter);
}

/// A stop or a status request that the operating system fails leaves the
/// state as it was found: the process is still held, so the request can be
/// made again.
pub proof fn lemma_failures_keep_the_process(state: SidecarStateView, host: Host)
    requires
        state.quiet(),
        state.process is Some,
    ensures
        host.terminate_failure matches Some(cause) ==> run_stop(state, host) == (Run {
            state,
            reply: failed(SidecarErrorView::KillFailed { cause }),
            launches: 0,
        }),
        host.reap matches Reaped::Failed(cause) ==> run_status(state, host) == (Run {
            state,
            reply: failed(SidecarErrorView::StatusFailed { cause }),
            launches: 0,
        }),
{
    lemma_stop_runs_to_outcome(state, host);
    lemma_status_runs_to_outcome(state, host);
}

/// A status request to a supervisor that holds no process replies "not
/// running" at once: the first action is the reply, so the host is asked
/// nothing, and the state is left as it was.
pub proof fn lemma_status_when_idle(state: SidecarStateView, host: Host)
    requires
        state.quiet(),
        state.process is None,
    ensures
        state.status() == (state, done(not_running())),
        run_status(state, host) == (Run { state, reply: done(not_running()), launches: 0 }),
{
    lemma_status_runs_to_outcome(state, host);
}

/// While a request is under way every other request is refused and changes
/// nothing: requests do not interleave.
pub proof fn lemma_requests_do_not_interleave(state: SidecarStateView, config: Config)
    requires
        !state.quiet(),
    ensures
        state.start(config) == (state, failed(SidecarErrorView::Busy)),
        state.stop() == (state, failed(SidecarErrorView::Busy)),
        state.status() == (state, failed(SidecarErrorView::Busy)),
{
}

/// What reaches the supervisor: a request from a caller, or a report from the
/// host.
pub enum Input {
    Start(Config),
    Stop,
    Status,
    Report(EventView),
}

/// The supervisor's answer to an input.
pub open spec fn step(state: SidecarStateView, input: Input) -> (SidecarStateView, ActionView) {
    match input {
        Input::Start(config) => state.start(config),
        Input::Stop => state.stop(),
        Input::Status => state.status(),
        Input::Report(event) => state.after(event),
    }
}

/// Whether `input` puts a new process into the state: it is the report that
/// the process asked for was created.
pub open spec fn records_process(state: SidecarStateView, input: Input) -> bool {
    state.pending is Launching && input is Report && input->Report_0 is Launched
}

/// How many of `inputs`, taken in order from `state`, put a new process into
/// the state.
pub open spec fn processes_recorded(state: SidecarStateView, inputs: Seq<Input>) -> nat
    decreases inputs.len(),
{
    if inputs.len() == 0 {
        0
    } else {
        let rest = processes_recorded(step(state, inputs.first()).0, inputs.drop_first());
        if records_process(state, inputs.first()) {
            rest + 1
        } else {
            rest
        }
    }
}

/// Whatever requests and reports arrive, and in whatever order, as long as
/// none of them is a stop at most one puts a new process into the state, and
/// none does while one is held.
pub proof fn lemma_one_process_without_stop(state: SidecarStateView, inputs: Seq<Input>)
    requires
        state.consistent(),
        forall|i: int| 0 <= i < inputs.len() ==> !(#[trigger] inputs[i] is Stop),
    ensures
        processes_recorded(state, inputs) <= 1,
        state.process is Some ==> processes_recorded(state, inputs) == 0,
    decreases inputs.len(),
{
    if inputs.len() > 0 {
        let first = inputs.first();
        let later = inputs.drop_first();
        assert(!(inputs[0] is Stop));
        assert forall|i: int| 0 <= i < later.len() implies !(#[trigger] later[i] is Stop) by {
            assert(later[i] == inputs[i + 1]);
        }
        lemma_one_process_without_stop(step(state, first).0, later);
    }
}

} // verus!
