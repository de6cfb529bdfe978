use ghidra_cli::daemon::handler::{
    client_step, ClientAction, ClientEvent, CLIENT_IDLE_SECS, analysis_done_reply, bridge_died, bridge_requirement, imported_program_name, plan_command,
    program_reply, reply_status, started_reply, Command, Handling, ReplyField,
};
use ghidra_cli::daemon::route::{ArgValue, BridgeState};

fn text_field(f: &(String, ReplyField)) -> (String, String) {
    match &f.1 {
        ReplyField::Text(t) => (f.0.clone(), t.clone()),
        ReplyField::Flag(b) => (f.0.clone(), b.to_string()),
    }
}

#[test]
fn ping_and_status_are_answered_at_once() {
    match plan_command(Command::Ping, BridgeState::Absent) {
        Handling::Reply(v) => assert_eq!(v.iter().map(text_field).collect::<Vec<_>>(), vec![("status".to_string(), "ok".to_string())]),
        _ => panic!("expected a reply"),
    }
    match plan_command(Command::Status, BridgeState::Running) {
        Handling::Reply(v) => assert_eq!(text_field(&v[0]), ("bridge_running".to_string(), "true".to_string())),
        _ => panic!("expected a reply"),
    }
    match plan_command(Command::Status, BridgeState::Stopped) {
        Handling::Reply(v) => assert_eq!(text_field(&v[0]), ("bridge_running".to_string(), "false".to_string())),
        _ => panic!("expected a reply"),
    }
    match plan_command(Command::Shutdown, BridgeState::Running) {
        Handling::Reply(v) => assert_eq!(text_field(&v[0]), ("status".to_string(), "shutting_down".to_string())),
        _ => panic!("expected a reply"),
    }
}

#[test]
fn queries_need_a_running_bridge() {
    match plan_command(Command::ListImports, BridgeState::Absent) {
        Handling::Refuse(m) => assert_eq!(m, "No program loaded. Run 'ghidra import <binary>' first."),
        _ => panic!("expected a refusal"),
    }
    match plan_command(Command::ListImports, BridgeState::Stopped) {
        Handling::Refuse(m) => assert_eq!(m, "Bridge is not running. Try restarting the daemon."),
        _ => panic!("expected a refusal"),
    }
    match plan_command(Command::Decompile { address: "0x401000".to_string() }, BridgeState::Running) {
        Handling::Query(c, Some(args)) => {
            assert_eq!(c, "decompile");
            assert_eq!(args.len(), 1);
            assert_eq!(args[0].0, "address");
            assert!(matches!(&args[0].1, ArgValue::Text(a) if a == "0x401000"));
        }
        _ => panic!("expected a query"),
    }
    match plan_command(Command::ListFunctions { limit: Some(5), filter: None }, BridgeState::Running) {
        Handling::Query(c, Some(args)) => {
            assert_eq!(c, "list_functions");
            assert_eq!(args[0].0, "limit");
            assert!(matches!(args[0].1, ArgValue::MaybeCount(Some(5))));
            assert_eq!(args[1].0, "filter");
            assert!(matches!(args[1].1, ArgValue::MaybeText(None)));
        }
        _ => panic!("expected a query"),
    }
    assert!(matches!(plan_command(Command::MemoryMap, BridgeState::Running), Handling::Query(c, None) if c == "memory_map"));
}

#[test]
fn import_reuses_or_starts_the_bridge() {
    let cmd = || Command::Import { binary_path: "/bin/ls".to_string(), project: "p".to_string(), program: None };
    assert!(matches!(plan_command(cmd(), BridgeState::Running), Handling::ImportHere { binary_path, program: None } if binary_path == "/bin/ls"));
    assert!(matches!(plan_command(cmd(), BridgeState::Absent), Handling::StartImport { project, .. } if project == "p"));
    let an = || Command::Analyze { project: "p".to_string(), program: "ls".to_string() };
    assert!(matches!(plan_command(an(), BridgeState::Running), Handling::AnalyzeHere { .. }));
    assert!(matches!(plan_command(an(), BridgeState::Stopped), Handling::StartProcess { program, .. } if program == "ls"));
    assert!(matches!(plan_command(Command::ExecuteCli { command_json: "{}".to_string() }, BridgeState::Absent), Handling::RunCli(j) if j == "{}"));
}

#[test]
fn bridge_requirement_messages() {
    assert!(bridge_requirement(BridgeState::Running).is_ok());
    assert_eq!(bridge_requirement(BridgeState::Absent).unwrap_err(), "No program loaded. Run 'ghidra import <binary>' first.");
}

#[test]
fn bridge_replies_and_names() {
    assert!(reply_status("success", None, "Import failed").is_ok());
    assert_eq!(reply_status("error", None, "Import failed").unwrap_err(), "Import failed");
    assert_eq!(reply_status("error", Some("bad file".to_string()), "Import failed").unwrap_err(), "bad file");
    assert_eq!(imported_program_name(Some("a".to_string()), Some("b")), "a");
    assert_eq!(imported_program_name(None, Some("b")), "b");
    assert_eq!(imported_program_name(None, None), "unknown");
    assert_eq!(program_reply("ls".to_string()).iter().map(text_field).collect::<Vec<_>>(), vec![("program".to_string(), "ls".to_string())]);
    assert_eq!(text_field(&analysis_done_reply()[0]), ("status".to_string(), "analysis_complete".to_string()));
    let s = started_reply("ls".to_string());
    assert_eq!(s.iter().map(text_field).collect::<Vec<_>>(), vec![("status".to_string(), "bridge_started".to_string()), ("program".to_string(), "ls".to_string())]);
}

#[test]
fn a_dead_bridge_is_noticed() {
    assert!(bridge_died("bridge process died unexpectedly", true));
    assert!(bridge_died("timeout", false));
    assert!(!bridge_died("timeout", true));
}

#[test]
fn client_connections_follow_the_protocol() {
    assert!(matches!(client_step(ClientEvent::Request { id: 7, command: Command::Shutdown }), ClientAction::Shutdown(7)));
    assert!(matches!(client_step(ClientEvent::Request { id: 8, command: Command::Ping }), ClientAction::Handle(8, Command::Ping)));
    match client_step(ClientEvent::Invalid("expected value at line 1".to_string())) {
        ClientAction::Reject(m) => assert_eq!(m, "Invalid request: expected value at line 1"),
        _ => panic!("expected a rejection"),
    }
    assert!(matches!(client_step(ClientEvent::Closed), ClientAction::Close));
    assert_eq!(CLIENT_IDLE_SECS, 300);
}
