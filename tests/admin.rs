use bedrock_manager::{CommandPlan, Delivery, Platform, Server, ServerAdmin};

fn session_admin() -> ServerAdmin {
    ServerAdmin::new("server".to_string(), Platform::Session)
}

fn check_session(plan: CommandPlan, input: &str) {
    assert_eq!(plan.delivery, Delivery::TypeIntoSession);
    assert_eq!(plan.target, "minecraft");
    assert_eq!(plan.input, input);
    assert_eq!(plan.transcript, "latest.log");
}

#[test]
fn list_on_stopped_manager_is_passed_through() {
    let server = Server::new("server".to_string(), Platform::Session);
    assert!(!server.is_running());
    let admin = ServerAdmin::new(server.get_work_dir().to_string(), server.platform());
    check_session(admin.execute_command("list"), "list\n");
}

#[test]
fn command_on_handle_platform() {
    let admin = ServerAdmin::new("server".to_string(), Platform::Handle);
    let plan = admin.op_player("Alex");
    assert_eq!(plan.delivery, Delivery::PassToExecutable);
    assert_eq!(plan.target, "bedrock_server.exe");
    assert_eq!(plan.input, "/op Alex");
    assert_eq!(plan.transcript, "server.log");
    assert_eq!(admin.work_dir(), "server");
    assert_eq!(admin.platform(), Platform::Handle);
}

#[test]
fn gamemode_command_text() {
    check_session(session_admin().set_gamemode("Steve", "creative"), "/gamemode creative Steve\n");
}

#[test]
fn op_and_deop_command_text() {
    check_session(session_admin().op_player("Steve"), "/op Steve\n");
    check_session(session_admin().deop_player("Steve"), "/deop Steve\n");
}

#[test]
fn kick_command_text() {
    check_session(session_admin().kick_player("Steve", "spam"), "/kick Steve spam\n");
}

#[test]
fn whitelist_command_text() {
    check_session(session_admin().whitelist_add("Steve"), "/whitelist add Steve\n");
    check_session(session_admin().whitelist_remove("Steve"), "/whitelist remove Steve\n");
}

#[test]
fn list_and_teleport_command_text() {
    check_session(session_admin().list_players(), "/list\n");
    check_session(session_admin().teleport_player("Steve", "100 64 -20"), "/tp Steve 100 64 -20\n");
}

#[test]
fn give_command_text() {
    check_session(session_admin().give_item("Steve", "diamond", 64), "/give Steve diamond 64\n");
    check_session(session_admin().give_item("Steve", "apple", 0), "/give Steve apple 0\n");
    check_session(
        session_admin().give_item("Steve", "dirt", u32::MAX),
        "/give Steve dirt 4294967295\n",
    );
}
