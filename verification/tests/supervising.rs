use sidecar::error::{Directory, SidecarError};
use sidecar::platform::Platform;
use sidecar::resolver::{BuildMode, Config, Strategy};
use sidecar::supervisor::{Action, Event, LaunchCommand};
use sidecar::{get_yallma3api_status, kill_yallma3api, spawn_yallma3api, SidecarState};

struct Host {
    working_dir: Result<String, String>,
    resource_dir: Result<String, String>,
    log_dir: Result<String, String>,
    data_dir: Result<String, String>,
    existing: Vec<String>,
    interpreter_found: bool,
    log_failure: Option<String>,
    launch: Result<u32, String>,
    terminate_failure: Option<String>,
    reap: Event,
    launches: usize,
    kills: Vec<u32>,
    steps: usize,
}

fn willing_host() -> Host {
    Host {
        working_dir: Ok(String::from("/home/u/studio/src-tauri")),
        resource_dir: Ok(String::from("/opt/studio/resources")),
        log_dir: Ok(String::from("/home/u/.local/share/studio/logs")),
        data_dir: Ok(String::from("/home/u/.local/share/studio")),
        existing: vec![String::from("/opt/studio/resources/yaLLMa3API/index.js")],
        interpreter_found: true,
        log_failure: None,
        launch: Ok(4242),
        terminate_failure: None,
        reap: Event::StillRunning,
        launches: 0,
        kills: Vec::new(),
        steps: 0,
    }
}

fn lookup(answer: &Result<String, String>) -> Event {
    match answer {
        Ok(dir) => Event::DirectoryFound(dir.clone()),
        Err(cause) => Event::DirectoryMissing(cause.clone()),
    }
}

fn answer(host: &mut Host, action: &Action) -> Event {
    host.steps += 1;
    match action {
        Action::Lookup(Directory::Working) => lookup(&host.working_dir),
        Action::Lookup(Directory::Resource) => lookup(&host.resource_dir),
        Action::Lookup(Directory::Log) => lookup(&host.log_dir),
        Action::Lookup(Directory::Data) => lookup(&host.data_dir),
        Action::CheckExists(path) => Event::Exists(host.existing.contains(path)),
        Action::Probe(_) => Event::Probed(host.interpreter_found),
        Action::OpenLog { .. } => match &host.log_failure {
            None => Event::LogOpened,
            Some(cause) => Event::LogFailed(cause.clone()),
        },
        Action::Launch(_) => {
            host.launches += 1;
            match &host.launch {
                Ok(pid) => Event::Launched(*pid),
                Err(cause) => Event::LaunchFailed(cause.clone()),
            }
        }
        Action::Terminate(pid) => {
            host.kills.push(*pid);
            match &host.terminate_failure {
                None => Event::Terminated,
                Some(cause) => Event::TerminateFailed(cause.clone()),
            }
        }
        Action::Reap(_) => match &host.reap {
            Event::Exited(code) => Event::Exited(*code),
            Event::ExitedWithoutCode(description) => Event::ExitedWithoutCode(description.clone()),
            Event::ReapFailed(cause) => Event::ReapFailed(cause.clone()),
            _ => Event::StillRunning,
        },
        Action::Done { .. } | Action::Failed { .. } => unreachable!(),
    }
}

fn drive(state: &mut SidecarState, first: Action, host: &mut Host) -> Result<String, String> {
    let mut action = first;
    loop {
        match action {
            Action::Done { message, .. } => return Ok(message),
            Action::Failed { error, .. } => return Err(error.message()),
            step => {
                let event = answer(host, &step);
                action = state.resume(event);
            }
        }
    }
}

fn spawn(state: &mut SidecarState, config: Config, host: &mut Host) -> Result<String, String> {
    let first = spawn_yallma3api(state, config);
    drive(state, first, host)
}

fn kill(state: &mut SidecarState, host: &mut Host) -> Result<String, String> {
    let first = kill_yallma3api(state);
    drive(state, first, host)
}

fn status(state: &mut SidecarState, host: &mut Host) -> Result<String, String> {
    let first = get_yallma3api_status(state);
    drive(state, first, host)
}

fn development() -> Config {
    Config {
        mode: BuildMode::Development,
        platform: Platform::Linux,
        strategy: Strategy::NativeBinary,
    }
}

fn packaged_native() -> Config {
    Config { mode: BuildMode::Packaged, platform: Platform::Linux, strategy: Strategy::NativeBinary }
}

fn packaged_script() -> Config {
    Config {
        mode: BuildMode::Packaged,
        platform: Platform::Linux,
        strategy: Strategy::InterpreterScript,
    }
}

fn ok(message: &str) -> Result<String, String> {
    Ok(String::from(message))
}

fn err(message: &str) -> Result<String, String> {
    Err(String::from(message))
}

#[test]
fn a_new_supervisor_is_idle() {
    let state = SidecarState::new();
    assert_eq!(state.process(), None);
    assert!(state.is_quiet());
}

#[test]
fn spawn_status_kill_in_turn() {
    let mut state = SidecarState::new();
    let mut host = willing_host();
    assert_eq!(spawn(&mut state, packaged_native(), &mut host), ok("yaLLMa3API spawned successfully"));
    assert_eq!(spawn(&mut state, packaged_native(), &mut host), ok("yaLLMa3API is already running"));
    assert_eq!(status(&mut state, &mut host), ok("yaLLMa3API is running"));
    assert_eq!(kill(&mut state, &mut host), ok("yaLLMa3API killed successfully"));
    assert_eq!(status(&mut state, &mut host), ok("yaLLMa3API is not running"));
    assert_eq!(kill(&mut state, &mut host), ok("yaLLMa3API is not running"));
    assert_eq!(host.launches, 1);
    assert_eq!(host.kills, vec![4242]);
    assert_eq!(state.process(), None);
}

#[test]
fn spawn_without_the_interpreter_fails_and_holds_nothing() {
    let mut state = SidecarState::new();
    let mut host = willing_host();
    host.interpreter_found = false;
    assert_eq!(
        spawn(&mut state, development(), &mut host),
        err("Failed to find the interpreter: node")
    );
    assert_eq!(host.launches, 0);
    assert_eq!(state.process(), None);
    assert_eq!(status(&mut state, &mut host), ok("yaLLMa3API is not running"));
}

#[test]
fn the_probe_failure_is_its_own_error() {
    let mut state = SidecarState::new();
    assert_eq!(spawn_yallma3api(&mut state, development()), Action::Lookup(Directory::Working));
    assert_eq!(
        state.resume(Event::DirectoryFound(String::from("/w/app"))),
        Action::Probe(String::from("node"))
    );
    assert_eq!(
        state.resume(Event::Probed(false)),
        Action::Failed { error: SidecarError::InterpreterUnavailable, note: None }
    );
    assert!(state.is_quiet());
}

#[test]
fn of_many_spawns_one_creates_a_process() {
    let mut state = SidecarState::new();
    let mut host = willing_host();
    let mut replies = Vec::new();
    for _ in 0..5 {
        replies.push(spawn(&mut state, packaged_script(), &mut host));
    }
    assert_eq!(host.launches, 1);
    assert_eq!(replies[0], ok("yaLLMa3API spawned successfully"));
    for reply in &replies[1..] {
        assert_eq!(*reply, ok("yaLLMa3API is already running"));
    }
    assert_eq!(state.process(), Some(4242));
}

#[test]
fn a_spawn_while_running_asks_the_host_nothing() {
    let mut state = SidecarState::new();
    let mut host = willing_host();
    spawn(&mut state, development(), &mut host).unwrap();
    let steps = host.steps;
    assert_eq!(
        spawn_yallma3api(&mut state, development()),
        Action::Done { message: String::from("yaLLMa3API is already running"), note: None }
    );
    assert_eq!(host.steps, steps);
    assert!(state.is_quiet());
}

#[test]
fn kill_then_spawn_leaves_the_new_process_alone() {
    let mut state = SidecarState::new();
    let mut host = willing_host();
    spawn(&mut state, packaged_native(), &mut host).unwrap();
    assert_eq!(kill(&mut state, &mut host), ok("yaLLMa3API killed successfully"));
    assert_eq!(state.process(), None);
    host.launch = Ok(5151);
    assert_eq!(spawn(&mut state, packaged_native(), &mut host), ok("yaLLMa3API spawned successfully"));
    assert_eq!(state.process(), Some(5151));
    assert_eq!(host.launches, 2);
    assert_eq!(host.kills, vec![4242]);
}

#[test]
fn status_when_idle_asks_the_host_nothing() {
    let mut state = SidecarState::new();
    assert_eq!(
        get_yallma3api_status(&mut state),
        Action::Done { message: String::from("yaLLMa3API is not running"), note: None }
    );
    assert_eq!(state.process(), None);
    assert!(state.is_quiet());
}

#[test]
fn kill_when_idle_asks_the_host_nothing() {
    let mut state = SidecarState::new();
    assert_eq!(
        kill_yallma3api(&mut state),
        Action::Done { message: String::from("yaLLMa3API is not running"), note: None }
    );
    assert!(state.is_quiet());
}

#[test]
fn a_development_start_step_by_step() {
    let mut state = SidecarState::new();
    assert_eq!(spawn_yallma3api(&mut state, development()), Action::Lookup(Directory::Working));
    assert!(!state.is_quiet());
    assert_eq!(
        state.resume(Event::DirectoryFound(String::from("/home/u/studio/src-tauri"))),
        Action::Probe(String::from("node"))
    );
    assert_eq!(state.resume(Event::Probed(true)), Action::Lookup(Directory::Log));
    assert_eq!(
        state.resume(Event::DirectoryFound(String::from("/var/log/studio"))),
        Action::OpenLog {
            dir: String::from("/var/log/studio"),
            file: String::from("/var/log/studio/server.log"),
        }
    );
    assert_eq!(
        state.resume(Event::LogOpened),
        Action::Launch(LaunchCommand {
            program: String::from("node"),
            script: Some(String::from("/home/u/studio/yaLLMa3API/index.js")),
            variable: String::from("YA_API_LOG_DIR"),
            log_dir: String::from("/var/log/studio"),
            capture_output: true,
        })
    );
    assert_eq!(state.process(), None);
    assert_eq!(
        state.resume(Event::Launched(31337)),
        Action::Done {
            message: String::from("yaLLMa3API spawned successfully"),
            note: Some(String::from(
                "Server started with PID: 31337 at \"/home/u/studio/yaLLMa3API/index.js\"\n"
            )),
        }
    );
    assert_eq!(state.process(), Some(31337));
    assert!(state.is_quiet());
}

#[test]
fn a_native_start_skips_the_probe_and_runs_the_executable() {
    let mut state = SidecarState::new();
    assert_eq!(
        spawn_yallma3api(&mut state, packaged_native()),
        Action::Lookup(Directory::Resource)
    );
    assert_eq!(
        state.resume(Event::DirectoryFound(String::from("/opt/studio/resources"))),
        Action::Lookup(Directory::Log)
    );
    assert_eq!(
        state.resume(Event::DirectoryFound(String::from("/logs"))),
        Action::OpenLog { dir: String::from("/logs"), file: String::from("/logs/server.log") }
    );
    assert_eq!(
        state.resume(Event::LogOpened),
        Action::Launch(LaunchCommand {
            program: String::from("/opt/studio/resources/bin/index-x86_64-unknown-linux-gnu"),
            script: None,
            variable: String::from("YA_API_LOG_DIR"),
            log_dir: String::from("/logs"),
            capture_output: true,
        })
    );
}

#[test]
fn a_script_start_checks_the_resources_first() {
    let mut state = SidecarState::new();
    spawn_yallma3api(&mut state, packaged_script());
    assert_eq!(
        state.resume(Event::DirectoryFound(String::from("/opt/studio/resources"))),
        Action::CheckExists(String::from("/opt/studio/resources/yaLLMa3API/index.js"))
    );
    assert_eq!(state.resume(Event::Exists(true)), Action::Probe(String::from("node")));
    state.resume(Event::Probed(true));
    state.resume(Event::DirectoryFound(String::from("/logs")));
    match state.resume(Event::LogOpened) {
        Action::Launch(command) => {
            assert_eq!(command.program, "node");
            assert_eq!(
                command.script,
                Some(String::from("/opt/studio/resources/yaLLMa3API/index.js"))
            );
        }
        other => panic!("{:?}", other),
    }
}

#[test]
fn a_script_start_falls_back_to_the_installed_location() {
    let mut state = SidecarState::new();
    spawn_yallma3api(&mut state, packaged_script());
    state.resume(Event::DirectoryFound(String::from("/opt/studio/resources")));
    assert_eq!(
        state.resume(Event::Exists(false)),
        Action::CheckExists(String::from("/usr/lib/yaLLMa3/yaLLMa3API/index.js"))
    );
    assert_eq!(state.resume(Event::Exists(true)), Action::Probe(String::from("node")));
    state.resume(Event::Probed(true));
    state.resume(Event::DirectoryFound(String::from("/logs")));
    match state.resume(Event::LogOpened) {
        Action::Launch(command) => {
            assert_eq!(command.script, Some(String::from("/usr/lib/yaLLMa3/yaLLMa3API/index.js")));
        }
        other => panic!("{:?}", other),
    }
}

#[test]
fn a_script_start_goes_on_unchecked_when_nothing_exists() {
    let mut state = SidecarState::new();
    let mut host = willing_host();
    host.existing.clear();
    host.launch = Err(String::from("No such file or directory (os error 2)"));
    assert_eq!(
        spawn(&mut state, packaged_script(), &mut host),
        err("Failed to spawn yaLLMa3API: No such file or directory (os error 2)")
    );
    assert_eq!(host.launches, 1);
    assert_eq!(state.process(), None);
}

#[test]
fn the_data_directory_stands_in_for_the_log_directory() {
    let mut state = SidecarState::new();
    spawn_yallma3api(&mut state, packaged_native());
    state.resume(Event::DirectoryFound(String::from("/res")));
    assert_eq!(
        state.resume(Event::DirectoryMissing(String::from("no log dir"))),
        Action::Lookup(Directory::Data)
    );
    assert_eq!(
        state.resume(Event::DirectoryFound(String::from("/data"))),
        Action::OpenLog { dir: String::from("/data"), file: String::from("/data/server.log") }
    );
}

#[test]
fn a_start_without_any_log_directory_fails() {
    let mut state = SidecarState::new();
    let mut host = willing_host();
    host.log_dir = Err(String::from("no log dir"));
    host.data_dir = Err(String::from("unknown path"));
    assert_eq!(
        spawn(&mut state, packaged_native(), &mut host),
        err("Failed to get app data directory: unknown path")
    );
    assert_eq!(host.launches, 0);
    assert_eq!(state.process(), None);
}

#[test]
fn a_start_without_its_first_directory_fails() {
    let mut state = SidecarState::new();
    let mut host = willing_host();
    host.working_dir = Err(String::from("denied"));
    host.resource_dir = Err(String::from("unknown path"));
    assert_eq!(
        spawn(&mut state, development(), &mut host),
        err("Failed to get current directory: denied")
    );
    assert_eq!(
        spawn(&mut state, packaged_native(), &mut host),
        err("Failed to get resource directory: unknown path")
    );
    assert_eq!(host.launches, 0);
    assert!(state.is_quiet());
}

#[test]
fn a_start_without_the_log_file_fails() {
    let mut state = SidecarState::new();
    let mut host = willing_host();
    host.log_failure = Some(String::from("read-only file system"));
    assert_eq!(
        spawn(&mut state, packaged_native(), &mut host),
        err("Failed to open the log file: read-only file system")
    );
    assert_eq!(host.launches, 0);
    assert_eq!(state.process(), None);
}

#[test]
fn a_failed_launch_leaves_a_line_for_the_log() {
    let mut state = SidecarState::new();
    spawn_yallma3api(&mut state, packaged_native());
    state.resume(Event::DirectoryFound(String::from("/res")));
    state.resume(Event::DirectoryFound(String::from("/logs")));
    state.resume(Event::LogOpened);
    assert_eq!(
        state.resume(Event::LaunchFailed(String::from("permission denied"))),
        Action::Failed {
            error: SidecarError::SpawnFailed { cause: String::from("permission denied") },
            note: Some(String::from("❌ Failed to start server: permission denied\n")),
        }
    );
    assert_eq!(state.process(), None);
    assert!(state.is_quiet());
}

#[test]
fn a_start_can_be_tried_again_after_a_failure() {
    let mut state = SidecarState::new();
    let mut host = willing_host();
    host.launch = Err(String::from("permission denied"));
    assert!(spawn(&mut state, packaged_native(), &mut host).is_err());
    host.launch = Ok(99);
    assert_eq!(spawn(&mut state, packaged_native(), &mut host), ok("yaLLMa3API spawned successfully"));
    assert_eq!(state.process(), Some(99));
}

#[test]
fn a_kill_that_fails_leaves_the_process_held() {
    let mut state = SidecarState::new();
    let mut host = willing_host();
    spawn(&mut state, packaged_native(), &mut host).unwrap();
    host.terminate_failure = Some(String::from("operation not permitted"));
    assert_eq!(
        kill(&mut state, &mut host),
        err("Failed to kill yaLLMa3API: operation not permitted")
    );
    assert_eq!(state.process(), Some(4242));
    assert!(state.is_quiet());
    assert_eq!(status(&mut state, &mut host), ok("yaLLMa3API is running"));
    assert_eq!(spawn(&mut state, packaged_native(), &mut host), ok("yaLLMa3API is already running"));
    assert_eq!(host.launches, 1);
}

#[test]
fn a_kill_that_failed_can_be_tried_again() {
    let mut state = SidecarState::new();
    let mut host = willing_host();
    spawn(&mut state, packaged_native(), &mut host).unwrap();
    host.terminate_failure = Some(String::from("operation not permitted"));
    assert!(kill(&mut state, &mut host).is_err());
    host.terminate_failure = None;
    assert_eq!(kill(&mut state, &mut host), ok("yaLLMa3API killed successfully"));
    assert_eq!(state.process(), None);
    assert_eq!(host.kills, vec![4242, 4242]);
    assert_eq!(kill(&mut state, &mut host), ok("yaLLMa3API is not running"));
}

#[test]
fn a_failed_signal_puts_the_process_back() {
    let mut state = SidecarState::new();
    let mut host = willing_host();
    spawn(&mut state, packaged_native(), &mut host).unwrap();
    assert_eq!(kill_yallma3api(&mut state), Action::Terminate(4242));
    assert_eq!(
        state.resume(Event::TerminateFailed(String::from("no such process"))),
        Action::Failed {
            error: SidecarError::KillFailed { cause: String::from("no such process") },
            note: None,
        }
    );
    assert_eq!(state.process(), Some(4242));
    assert!(state.is_quiet());
}

#[test]
fn kill_takes_the_process_out_before_the_signal() {
    let mut state = SidecarState::new();
    let mut host = willing_host();
    spawn(&mut state, packaged_native(), &mut host).unwrap();
    assert_eq!(kill_yallma3api(&mut state), Action::Terminate(4242));
    assert_eq!(state.process(), None);
    assert!(!state.is_quiet());
}

#[test]
fn status_reports_an_exit_and_keeps_the_process() {
    let mut state = SidecarState::new();
    let mut host = willing_host();
    spawn(&mut state, packaged_native(), &mut host).unwrap();
    host.reap = Event::Exited(1);
    assert_eq!(status(&mut state, &mut host), ok("yaLLMa3API exited with status: 1"));
    assert_eq!(state.process(), Some(4242));
    assert_eq!(spawn(&mut state, packaged_native(), &mut host), ok("yaLLMa3API is already running"));
    assert_eq!(host.launches, 1);
    assert_eq!(kill(&mut state, &mut host), ok("yaLLMa3API killed successfully"));
    assert_eq!(spawn(&mut state, packaged_native(), &mut host), ok("yaLLMa3API spawned successfully"));
    assert_eq!(host.launches, 2);
}

#[test]
fn status_writes_the_exit_code_in_decimal() {
    let mut state = SidecarState::new();
    let mut host = willing_host();
    spawn(&mut state, packaged_native(), &mut host).unwrap();
    host.reap = Event::Exited(0);
    assert_eq!(status(&mut state, &mut host), ok("yaLLMa3API exited with status: 0"));
    host.reap = Event::Exited(137);
    assert_eq!(status(&mut state, &mut host), ok("yaLLMa3API exited with status: 137"));
    host.reap = Event::Exited(-1073741819);
    assert_eq!(status(&mut state, &mut host), ok("yaLLMa3API exited with status: -1073741819"));
}

#[test]
fn status_describes_an_exit_without_a_code() {
    let mut state = SidecarState::new();
    let mut host = willing_host();
    spawn(&mut state, packaged_native(), &mut host).unwrap();
    host.reap = Event::ExitedWithoutCode(String::from("signal: 9 (SIGKILL)"));
    assert_eq!(
        status(&mut state, &mut host),
        ok("yaLLMa3API exited with status: signal: 9 (SIGKILL)")
    );
    assert_eq!(state.process(), Some(4242));
}

#[test]
fn status_asks_for_the_process_it_holds() {
    let mut state = SidecarState::new();
    let mut host = willing_host();
    spawn(&mut state, packaged_native(), &mut host).unwrap();
    assert_eq!(get_yallma3api_status(&mut state), Action::Reap(4242));
    assert_eq!(
        state.resume(Event::StillRunning),
        Action::Done { message: String::from("yaLLMa3API is running"), note: None }
    );
    assert_eq!(state.process(), Some(4242));
}

#[test]
fn a_status_that_fails_leaves_the_state_as_found() {
    let mut state = SidecarState::new();
    let mut host = willing_host();
    spawn(&mut state, packaged_native(), &mut host).unwrap();
    host.reap = Event::ReapFailed(String::from("invalid argument"));
    assert_eq!(
        status(&mut state, &mut host),
        err("Failed to check yaLLMa3API status: invalid argument")
    );
    assert_eq!(state.process(), Some(4242));
    assert!(state.is_quiet());
}

#[test]
fn a_request_during_another_is_refused() {
    let mut state = SidecarState::new();
    spawn_yallma3api(&mut state, packaged_native());
    let busy = || Action::Failed { error: SidecarError::Busy, note: None };
    assert_eq!(spawn_yallma3api(&mut state, packaged_native()), busy());
    assert_eq!(kill_yallma3api(&mut state), busy());
    assert_eq!(get_yallma3api_status(&mut state), busy());
    assert_eq!(
        state.resume(Event::DirectoryFound(String::from("/res"))),
        Action::Lookup(Directory::Log)
    );
}

#[test]
fn a_report_nobody_asked_for_changes_nothing() {
    let mut state = SidecarState::new();
    let refused = || Action::Failed { error: SidecarError::UnexpectedEvent, note: None };
    assert_eq!(state.resume(Event::Launched(1)), refused());
    assert_eq!(state.process(), None);
    assert!(state.is_quiet());
    spawn_yallma3api(&mut state, packaged_native());
    assert_eq!(state.resume(Event::Launched(1)), refused());
    assert_eq!(state.resume(Event::Terminated), refused());
    assert_eq!(state.process(), None);
    assert!(!state.is_quiet());
    assert_eq!(
        state.resume(Event::DirectoryFound(String::from("/res"))),
        Action::Lookup(Directory::Log)
    );
}

#[test]
fn every_error_has_its_message() {
    let cause = || String::from("why");
    assert_eq!(
        SidecarError::PathUnavailable { directory: Directory::Working, cause: cause() }.message(),
        "Failed to get current directory: why"
    );
    assert_eq!(
        SidecarError::PathUnavailable { directory: Directory::Resource, cause: cause() }.message(),
        "Failed to get resource directory: why"
    );
    assert_eq!(
        SidecarError::PathUnavailable { directory: Directory::Log, cause: cause() }.message(),
        "Failed to get app log directory: why"
    );
    assert_eq!(
        SidecarError::PathUnavailable { directory: Directory::Data, cause: cause() }.message(),
        "Failed to get app data directory: why"
    );
    assert_eq!(
        SidecarError::InterpreterUnavailable.message(),
        "Failed to find the interpreter: node"
    );
    assert_eq!(
        SidecarError::LogUnavailable { cause: cause() }.message(),
        "Failed to open the log file: why"
    );
    assert_eq!(SidecarError::SpawnFailed { cause: cause() }.message(), "Failed to spawn yaLLMa3API: why");
    assert_eq!(SidecarError::KillFailed { cause: cause() }.message(), "Failed to kill yaLLMa3API: why");
    assert_eq!(
        SidecarError::StatusFailed { cause: cause() }.message(),
        "Failed to check yaLLMa3API status: why"
    );
    assert_eq!(SidecarError::Busy.message(), "yaLLMa3API is busy with another request");
    assert_eq!(SidecarError::UnexpectedEvent.message(), "yaLLMa3API was not waiting for this event");
}
