use bedrock_manager::{Platform, QueryError, Server, StartError, StartStep, StopError, StopStep};

fn session_server() -> Server {
    Server::new("/srv/bedrock/server".to_string(), Platform::Session)
}

fn run_start(server: &mut Server) -> Result<(), StartError> {
    let mut step = server.start()?;
    loop {
        match server.advance_start(step, Ok(()))? {
            Some(next) => step = next,
            None => return Ok(()),
        }
    }
}

#[test]
fn new_server_is_stopped() {
    let server = session_server();
    assert!(!server.is_running());
    assert_eq!(server.get_work_dir(), "/srv/bedrock/server");
    assert_eq!(server.platform(), Platform::Session);
}

#[test]
fn start_steps_on_session_platform() {
    let mut server = session_server();
    assert_eq!(server.start(), Ok(StartStep::CheckDependency));
    assert_eq!(
        server.advance_start(StartStep::CheckDependency, Ok(())),
        Ok(Some(StartStep::PrepareConfig))
    );
    assert_eq!(
        server.advance_start(StartStep::PrepareConfig, Ok(())),
        Ok(Some(StartStep::LocateExecutable))
    );
    assert_eq!(
        server.advance_start(StartStep::LocateExecutable, Ok(())),
        Ok(Some(StartStep::PrepareRuntime))
    );
    assert_eq!(
        server.advance_start(StartStep::PrepareRuntime, Ok(())),
        Ok(Some(StartStep::Launch))
    );
    assert!(!server.is_running());
    assert_eq!(server.advance_start(StartStep::Launch, Ok(())), Ok(None));
    assert!(server.is_running());
}

#[test]
fn start_steps_on_handle_platform() {
    let mut server = Server::new("C:\\bedrock".to_string(), Platform::Handle);
    assert_eq!(server.start(), Ok(StartStep::PrepareConfig));
    assert_eq!(
        server.advance_start(StartStep::LocateExecutable, Ok(())),
        Ok(Some(StartStep::Launch))
    );
    assert_eq!(server.advance_start(StartStep::Launch, Ok(())), Ok(None));
    assert!(server.is_running());
    assert!(server.holds_process());
    assert_eq!(server.stop(), Ok(StopStep::Kill));
}

#[test]
fn start_then_stop_scenario() {
    let mut server = session_server();
    assert_eq!(run_start(&mut server), Ok(()));
    assert!(server.is_running());
    assert_eq!(server.stop(), Ok(StopStep::SendStop));
    assert_eq!(server.finish_stop(Ok(())), Ok(()));
    assert!(!server.is_running());
}

#[test]
fn start_without_executable_fails() {
    let mut server = session_server();
    assert_eq!(server.start(), Ok(StartStep::CheckDependency));
    assert_eq!(server.advance_start(StartStep::CheckDependency, Ok(())), Ok(Some(StartStep::PrepareConfig)));
    assert_eq!(server.advance_start(StartStep::PrepareConfig, Ok(())), Ok(Some(StartStep::LocateExecutable)));
    assert_eq!(
        server.advance_start(StartStep::LocateExecutable, Err("not found".to_string())),
        Err(StartError::ExecutableNotFound)
    );
    assert!(!server.is_running());
}

#[test]
fn start_step_errors() {
    let mut server = session_server();
    assert_eq!(
        server.advance_start(StartStep::CheckDependency, Err("which failed".to_string())),
        Err(StartError::MissingDependency)
    );
    assert_eq!(
        server.advance_start(StartStep::PrepareConfig, Err("disk full".to_string())),
        Err(StartError::ConfigError("disk full".to_string()))
    );
    assert_eq!(
        server.advance_start(StartStep::PrepareRuntime, Err("denied".to_string())),
        Err(StartError::ExecutionError("denied".to_string()))
    );
    assert_eq!(
        server.advance_start(StartStep::Launch, Err("spawn failed".to_string())),
        Err(StartError::ExecutionError("spawn failed".to_string()))
    );
    assert!(!server.is_running());
}

#[test]
fn second_start_is_already_running() {
    let mut server = session_server();
    assert_eq!(run_start(&mut server), Ok(()));
    assert_eq!(server.start(), Err(StartError::AlreadyRunning));
    assert!(server.is_running());
}

#[test]
fn stop_when_stopped_is_not_running() {
    let mut server = session_server();
    assert_eq!(server.stop(), Err(StopError::NotRunning));
    assert!(!server.is_running());
    let handle = Server::new("dir".to_string(), Platform::Handle);
    assert_eq!(handle.stop(), Err(StopError::NotRunning));
    assert_eq!(run_start(&mut server), Ok(()));
    assert_eq!(server.finish_stop(Ok(())), Ok(()));
    assert_eq!(server.stop(), Err(StopError::NotRunning));
}

#[test]
fn failed_stop_keeps_running() {
    let mut server = session_server();
    assert_eq!(run_start(&mut server), Ok(()));
    assert_eq!(
        server.finish_stop(Err("no screen session".to_string())),
        Err(StopError::StopCommandFailed("no screen session".to_string()))
    );
    assert!(server.is_running());
}

#[test]
fn attach_runs_from_any_state() {
    let mut server = session_server();
    assert_eq!(server.attach_to_existing("12345.minecraft"), Ok(()));
    assert!(server.is_running());
    assert_eq!(server.attach_to_existing("other"), Ok(()));
    assert!(server.is_running());
    assert_eq!(server.stop(), Ok(StopStep::SendStop));
}

#[test]
fn attached_handle_server_cannot_be_killed() {
    let mut server = Server::new("dir".to_string(), Platform::Handle);
    assert_eq!(server.attach_to_existing("bedrock_server"), Ok(()));
    assert!(server.is_running());
    assert_eq!(server.stop(), Err(StopError::NotRunning));
}

#[test]
fn teardown_stops_running_server_once() {
    let mut server = session_server();
    assert_eq!(server.teardown(), None);
    assert_eq!(run_start(&mut server), Ok(()));
    assert_eq!(server.teardown(), Some(Ok(StopStep::SendStop)));
    let mut handle = Server::new("dir".to_string(), Platform::Handle);
    assert_eq!(run_start(&mut handle), Ok(()));
    assert_eq!(handle.teardown(), Some(Ok(StopStep::Kill)));
}

#[test]
fn no_sessions_listed_is_empty() {
    let server = session_server();
    let listing = "No Sockets found in /run/screen/S-root.\n".to_string();
    assert_eq!(server.check_existing_servers(Ok(listing)), Ok(Vec::<String>::new()));
    assert_eq!(server.check_existing_servers(Ok(String::new())), Ok(Vec::<String>::new()));
}

#[test]
fn sessions_listed_in_order() {
    let server = session_server();
    let listing = "There are screens on:\n\t12345.minecraft\t(Detached)\n\t777.other\t(Attached)\n\t888.minecraft.x\t(Detached)\r\n2 Sockets in /run/screen/S-root.\n".to_string();
    assert_eq!(
        server.check_existing_servers(Ok(listing)),
        Ok(vec!["minecraft\t(Detached)".to_string(), "minecraft".to_string()])
    );
}

#[test]
fn session_line_without_dot_is_skipped() {
    let server = session_server();
    let listing = "minecraft\n".to_string();
    assert_eq!(server.check_existing_servers(Ok(listing)), Ok(Vec::<String>::new()));
}

#[test]
fn process_listing_on_handle_platform() {
    let server = Server::new("dir".to_string(), Platform::Handle);
    let found = "Image Name   PID\nbedrock_server.exe   4242 Console\n".to_string();
    assert_eq!(server.check_existing_servers(Ok(found)), Ok(vec!["bedrock_server".to_string()]));
    let none = "INFO: No tasks are running which match the specified criteria.\n".to_string();
    assert_eq!(server.check_existing_servers(Ok(none)), Ok(Vec::<String>::new()));
}

#[test]
fn failed_query_is_an_error() {
    let server = session_server();
    assert_eq!(
        server.check_existing_servers(Err("screen: not found".to_string())),
        Err(QueryError::QueryFailed("screen: not found".to_string()))
    );
}
