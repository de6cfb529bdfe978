use ghidra_cli::cli::{
    Commands, CommentCommands, CommentSetArgs, DecompileArgs, GraphCommands, GraphFunctionArgs,
    MemReadArgs, MemoryCommands, ProgramCommands, ProgramTargetArgs, QueryArgs, QueryOptions,
    SymbolCommands, SymbolGetArgs, BatchArgs,
};
use ghidra_cli::daemon::cache::{Cache, CacheEntry};
use ghidra_cli::daemon::process::{ensure_not_running, info_file_name, lock_file_name};
use ghidra_cli::daemon::route::{
    batch_entries, parse_batch, reply_outcome, resolve_address, route_command, ArgValue, BridgeState, Route,
    SuccessReply,
};
use ghidra_cli::daemon::rpc::{
    execute_reply, ping_reply, status_reply, status_response, ClientError, DaemonRequest,
    DaemonResponse, ServerStep,
};
use ghidra_cli::daemon::BridgeConfig;
use std::path::PathBuf;

fn no_options() -> QueryOptions {
    QueryOptions {
        program: None,
        project: None,
        filter: None,
        fields: None,
        format: None,
        limit: None,
        offset: None,
        sort: None,
        count: false,
        json: false,
    }
}

fn query(data_type: &str, limit: Option<usize>, filter: Option<&str>) -> Commands {
    Commands::Query(QueryArgs {
        data_type: data_type.to_string(),
        program: None,
        project: None,
        filter: filter.map(|s| s.to_string()),
        fields: None,
        format: None,
        limit,
        offset: None,
        sort: None,
        count: false,
        json: false,
    })
}

#[test]
fn test_bridge_config() {
    let config = BridgeConfig {
        project_path: PathBuf::from("/test/project"),
        ghidra_install_dir: PathBuf::from("/opt/ghidra"),
    };

    assert_eq!(config.project_path, PathBuf::from("/test/project"));
    assert_eq!(config.ghidra_install_dir, PathBuf::from("/opt/ghidra"));
}

#[test]
fn test_resolve_address_hex() {
    assert_eq!(resolve_address("0x1000").unwrap(), "0x1000");
}

#[test]
fn test_resolve_address_name() {
    assert_eq!(resolve_address("main").unwrap(), "main");
}

#[test]
fn test_batch_placeholder() {
    assert!(true);
}

#[test]
fn test_diff_handlers_exist() {
    assert!(true);
}

#[test]
fn test_disasm_placeholder() {
    assert!(true);
}

#[test]
fn test_find_placeholder() {
    assert!(true);
}

#[test]
fn test_placeholder() {
    assert!(true);
}

#[test]
fn test_script_placeholder() {
    assert!(true);
}

#[test]
fn test_stats_placeholder() {
    assert!(true);
}

#[test]
fn test_state_creation() {
    // Loading daemon state needs a real Ghidra project.
}

#[test]
fn query_functions_becomes_list_functions() {
    match route_command(&query("functions", Some(5), Some("size > 10")), BridgeState::Running) {
        Ok(Route::Call(call)) => {
            assert_eq!(call.command, "list_functions");
            assert!(matches!(call.reply, SuccessReply::PrettyData));
            assert_eq!(call.context, "Bridge command failed");
            assert_eq!(call.failure, "Unknown error");
            let args = call.args.expect("arguments");
            assert_eq!(args.len(), 2);
            assert_eq!(args[0].0, "limit");
            assert!(matches!(args[0].1, ArgValue::MaybeCount(Some(5))));
            assert_eq!(args[1].0, "filter");
            match &args[1].1 {
                ArgValue::MaybeText(Some(f)) => assert_eq!(f, "size > 10"),
                _ => panic!("filter argument"),
            }
        }
        _ => panic!("expected a bridge call"),
    }
}

#[test]
fn unknown_query_type_is_refused_before_the_bridge_is_checked() {
    match route_command(&query("widgets", None, None), BridgeState::Absent) {
        Err(m) => assert_eq!(m, "Unknown query type: widgets"),
        _ => panic!("expected an error"),
    }
    match route_command(&query("imports", None, None), BridgeState::Absent) {
        Err(m) => assert_eq!(m, "Bridge not initialized"),
        _ => panic!("expected an error"),
    }
    match route_command(&query("exports", None, None), BridgeState::Stopped) {
        Err(m) => assert_eq!(m, "Bridge is not running"),
        _ => panic!("expected an error"),
    }
}

#[test]
fn handler_commands_need_the_bridge_first() {
    let delete = Commands::Program(ProgramCommands::Delete(ProgramTargetArgs { program: None, project: None }));
    match route_command(&delete, BridgeState::Stopped) {
        Err(m) => assert_eq!(m, "Bridge is not running"),
        _ => panic!("expected an error"),
    }
    match route_command(&delete, BridgeState::Running) {
        Err(m) => assert_eq!(m, "Program name required"),
        _ => panic!("expected an error"),
    }
    let delete_named = Commands::Program(ProgramCommands::Delete(ProgramTargetArgs {
        program: Some("a.out".to_string()),
        project: None,
    }));
    match route_command(&delete_named, BridgeState::Running) {
        Ok(Route::Call(call)) => {
            assert_eq!(call.command, "program_delete");
            assert_eq!(call.failure, "Failed to delete program");
            match call.reply {
                SuccessReply::Fixed(fields) => {
                    assert_eq!(fields, vec![
                        ("status".to_string(), "deleted".to_string()),
                        ("program".to_string(), "a.out".to_string()),
                    ]);
                }
                _ => panic!("expected an acknowledgement"),
            }
        }
        _ => panic!("expected a bridge call"),
    }
}

#[test]
fn symbol_get_sends_the_name_as_address() {
    let cmd = Commands::Symbol(SymbolCommands::Get(SymbolGetArgs { name: "main".to_string(), options: no_options() }));
    match route_command(&cmd, BridgeState::Running) {
        Ok(Route::Call(call)) => {
            assert_eq!(call.command, "symbol_get");
            let args = call.args.unwrap();
            assert_eq!(args[0].0, "address");
            match &args[0].1 {
                ArgValue::Text(t) => assert_eq!(t, "main"),
                _ => panic!("text argument"),
            }
        }
        _ => panic!("expected a bridge call"),
    }
}

#[test]
fn optional_arguments_are_added_only_when_given() {
    let set = Commands::Comment(CommentCommands::SetText(CommentSetArgs {
        address: "0x401000".to_string(),
        text: "entry".to_string(),
        comment_type: None,
        program: None,
        project: None,
    }));
    match route_command(&set, BridgeState::Running) {
        Ok(Route::Call(call)) => assert_eq!(call.args.unwrap().len(), 2),
        _ => panic!("expected a bridge call"),
    }
    let callers = Commands::Graph(GraphCommands::Callers(GraphFunctionArgs {
        positional_target: Some("main".to_string()),
        target: None,
        depth: Some(3),
        options: no_options(),
    }));
    match route_command(&callers, BridgeState::Running) {
        Ok(Route::Call(call)) => {
            assert_eq!(call.command, "graph_callers");
            let args = call.args.unwrap();
            assert_eq!(args.len(), 2);
            assert!(matches!(args[1].1, ArgValue::Count(3)));
        }
        _ => panic!("expected a bridge call"),
    }
}

#[test]
fn decompile_sends_the_resolved_target() {
    let cmd = Commands::Decompile(DecompileArgs {
        positional_target: Some("main".to_string()),
        target: None,
        options: no_options(),
    });
    match route_command(&cmd, BridgeState::Running) {
        Ok(Route::Call(call)) => {
            assert_eq!(call.command, "decompile");
            assert!(matches!(&call.args.unwrap()[0].1, ArgValue::MaybeText(Some(a)) if a == "main"));
        }
        _ => panic!("expected a bridge call"),
    }
    let flagged = Commands::Decompile(DecompileArgs {
        positional_target: Some("main".to_string()),
        target: Some("0x401000".to_string()),
        options: no_options(),
    });
    match route_command(&flagged, BridgeState::Running) {
        Ok(Route::Call(call)) => {
            assert!(matches!(&call.args.unwrap()[0].1, ArgValue::MaybeText(Some(a)) if a == "0x401000"));
        }
        _ => panic!("expected a bridge call"),
    }
}

#[test]
fn unsupported_commands_are_refused() {
    let read = Commands::Memory(MemoryCommands::Read(MemReadArgs {
        address: "0x0".to_string(),
        size: 4,
        options: no_options(),
    }));
    match route_command(&read, BridgeState::Running) {
        Err(m) => assert_eq!(m, "Memory command not yet supported in daemon"),
        _ => panic!("expected an error"),
    }
    match route_command(&Commands::Version, BridgeState::Running) {
        Err(m) => assert_eq!(m, "Command not yet supported in daemon: Version"),
        _ => panic!("expected an error"),
    }
    match route_command(&Commands::Batch(BatchArgs { script_file: "cmds.txt".to_string(), project: None, program: None }), BridgeState::Absent) {
        Ok(Route::Batch(p)) => assert_eq!(p, "cmds.txt"),
        _ => panic!("expected a batch"),
    }
}

#[test]
fn reply_outcomes() {
    let call = match route_command(&query("imports", None, None), BridgeState::Running) {
        Ok(Route::Call(c)) => c,
        _ => panic!("expected a call"),
    };
    assert!(reply_outcome(&call, "success", None).is_ok());
    assert_eq!(reply_outcome(&call, "error", None).unwrap_err(), "Unknown error");
    assert_eq!(reply_outcome(&call, "error", Some("no program".to_string())).unwrap_err(), "no program");
}

#[test]
fn batch_lines_skip_blanks_and_comments() {
    let lines: Vec<String> = vec!["  query functions  ", "", "# note", "decompile main"]
        .into_iter()
        .map(|s| s.to_string())
        .collect();
    let entries = batch_entries(&lines);
    assert_eq!(entries.len(), 2);
    assert_eq!(entries[0].line, 1);
    assert_eq!(entries[0].command, "query functions");
    assert_eq!(entries[1].line, 4);
    assert_eq!(entries[1].command, "decompile main");
}

#[test]
fn server_steps_and_client_replies() {
    assert!(matches!(DaemonRequest::Ping.server_step(), ServerStep::Reply(DaemonResponse::Pong)));
    match DaemonRequest::Shutdown.server_step() {
        ServerStep::Shutdown(DaemonResponse::Success(m)) => assert_eq!(m, "Daemon shutting down"),
        _ => panic!("expected shutdown"),
    }
    assert!(matches!(DaemonRequest::Status.server_step(), ServerStep::ReportStatus));
    assert!(matches!(DaemonRequest::Execute(Commands::Version).server_step(), ServerStep::Submit(Commands::Version)));

    assert_eq!(execute_reply(DaemonResponse::Success("out".to_string())).unwrap(), "out");
    assert!(matches!(execute_reply(DaemonResponse::Error("bad".to_string())), Err(ClientError::Daemon(m)) if m == "bad"));
    assert!(matches!(execute_reply(DaemonResponse::Pong), Err(ClientError::UnexpectedResponse)));
    assert!(ping_reply(&DaemonResponse::Pong).is_ok());
    assert!(ping_reply(&DaemonResponse::Success(String::new())).is_err());
    let status = status_reply(status_response(12, "/p".to_string())).unwrap();
    assert_eq!(status.uptime_seconds, 12);
    assert_eq!(status.queue_depth, 0);
    assert_eq!(status.project_path, "/p");
    assert!(status_reply(DaemonResponse::Pong).is_err());
}

#[test]
fn daemon_file_names_use_the_md5_of_the_project_path() {
    // md5("") = d41d8cd98f00b204e9800998ecf8427e (RFC 1321 test suite).
    assert_eq!(lock_file_name(""), "daemon-d41d8cd98f00b204e9800998ecf8427e.lock");
    assert_eq!(info_file_name(""), "daemon-d41d8cd98f00b204e9800998ecf8427e.info");
    let lock = lock_file_name("/test/project");
    assert_eq!(lock.len(), "daemon-".len() + 32 + ".lock".len());
    assert!(lock.starts_with("daemon-") && lock.ends_with(".lock"));
    assert_ne!(lock_file_name("/a"), lock_file_name("/b"));
}

#[test]
fn second_daemon_is_refused() {
    assert!(ensure_not_running(None).is_ok());
    assert_eq!(ensure_not_running(Some(4242)).unwrap_err(), "Daemon is already running (PID: 4242)");
}

#[test]
fn test_cache_operations() {
    let mut cache = Cache::new();
    let command = Commands::Version;
    assert!(cache.get(&command, 0).is_none());
    cache.set(&command, "test result".to_string(), 0);
    assert_eq!(cache.get(&command, 10), Some("test result".to_string()));
    cache.clear();
    assert!(cache.get(&command, 10).is_none());
}

#[test]
fn test_cache_expiration() {
    let mut cache = Cache::with_ttl(100);
    let command = Commands::Version;
    cache.set(&command, "test".to_string(), 1000);
    assert!(cache.get(&command, 1100).is_some());
    assert!(cache.get(&command, 1150).is_none());
    cache.set(&command, "newer".to_string(), 1150);
    assert_eq!(cache.get(&command, 1200), Some("newer".to_string()));
    cache.set_by_key("other".to_string(), "x".to_string(), 0);
    cache.cleanup(1200);
    assert!(cache.get_by_key("other", 1200).is_none());
    assert_eq!(cache.get(&command, 1200), Some("newer".to_string()));
}

#[test]
fn cache_entry_expiry() {
    let e = CacheEntry::new("v".to_string(), 500);
    assert_eq!(e.value, "v");
    assert!(!e.is_expired(600, 100));
    assert!(e.is_expired(601, 100));
    assert!(!e.is_expired(0, 100));
}

#[test]
fn batch_text_is_split_into_numbered_commands() {
    let entries = parse_batch("# setup\n  function list  \n\r\n\ndecompile main\n");
    let got: Vec<(usize, String)> = entries.into_iter().map(|e| (e.line, e.command)).collect();
    assert_eq!(got, vec![(2, "function list".to_string()), (5, "decompile main".to_string())]);
}

#[test]
fn batch_lines_are_trimmed_of_unicode_white_space() {
    let entries = parse_batch("\u{3000}decompile main\u{a0}\n\u{2003}\u{85}\n");
    let got: Vec<(usize, String)> = entries.into_iter().map(|e| (e.line, e.command)).collect();
    assert_eq!(got, vec![(1, "decompile main".to_string())]);
}
