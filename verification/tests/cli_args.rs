use ghidra_cli::cli::{
    Commands, DecompileArgs, DisasmArgs, FindCallsArgs, FunctionCommands, FunctionGetArgs,
    GraphFunctionArgs, QueryOptions, XRefArgs,
};

fn no_options() -> QueryOptions {
    QueryOptions {
        program: None,
        project: None,
        filter: None,
        fields: None,
        format: None,
        limit: None,
        offset: None,
        sort: None,
        count: false,
        json: false,
    }
}

#[test]
fn parses_decompile_target_flag() {
    // `ghidra decompile --target FUN_00401000`
    let command = Commands::Decompile(DecompileArgs {
        positional_target: None,
        target: Some("FUN_00401000".to_string()),
        options: no_options(),
    });
    match command {
        Commands::Decompile(args) => assert_eq!(args.resolved_target(), "FUN_00401000"),
        _ => panic!("expected decompile command"),
    }
}

#[test]
fn parses_function_get_positional_target() {
    // `ghidra function get main`
    let command = Commands::Function(FunctionCommands::Get(FunctionGetArgs {
        positional_target: Some("main".to_string()),
        target: None,
        options: no_options(),
    }));
    match command {
        Commands::Function(FunctionCommands::Get(args)) => {
            assert_eq!(args.resolved_target(), "main");
        }
        _ => panic!("expected function get command"),
    }
}

#[test]
fn target_flag_wins_over_positional() {
    let args = XRefArgs {
        positional_target: Some("main".to_string()),
        target: Some("0x401000".to_string()),
        options: no_options(),
    };
    assert_eq!(args.resolved_target(), "0x401000");
    let calls = FindCallsArgs {
        positional_target: Some("printf".to_string()),
        target: None,
        options: no_options(),
    };
    assert_eq!(calls.resolved_target(), "printf");
    let graph = GraphFunctionArgs {
        positional_target: None,
        target: Some("FUN_1000".to_string()),
        depth: Some(2),
        options: no_options(),
    };
    assert_eq!(graph.resolved_target(), "FUN_1000");
    let disasm = DisasmArgs {
        positional_target: Some("entry".to_string()),
        target: None,
        num_instructions: Some(10),
        options: no_options(),
    };
    assert_eq!(disasm.resolved_target(), "entry");
}
