use ghidra_cli::cli::{
    Commands, ConfigCommands, DecompileArgs, MemoryCommands, QueryOptions, ScriptCommands, ScriptRunArgs,
};
use ghidra_cli::command_text::command_text;

fn no_options() -> QueryOptions {
    QueryOptions {
        program: None,
        project: None,
        filter: None,
        fields: None,
        format: None,
        limit: None,
        offset: None,
        sort: None,
        count: false,
        json: false,
    }
}

const NO_OPTIONS: &str = "QueryOptions { program: None, project: None, filter: None, fields: None, format: None, limit: None, offset: None, sort: None, count: false, json: false }";

#[test]
fn unit_and_struct_variants() {
    assert_eq!(command_text(&Commands::Version), "Version");
    assert_eq!(
        command_text(&Commands::Start { project: Some("p".to_string()), program: None }),
        "Start { project: Some(\"p\"), program: None }"
    );
    assert_eq!(
        command_text(&Commands::Config(ConfigCommands::SetValue { key: "k".to_string(), value: "v".to_string() })),
        "Config(Set { key: \"k\", value: \"v\" })"
    );
}

#[test]
fn nested_argument_groups() {
    let cmd = Commands::Decompile(DecompileArgs {
        positional_target: Some("main".to_string()),
        target: None,
        options: no_options(),
    });
    assert_eq!(
        command_text(&cmd),
        format!("Decompile(DecompileArgs {{ positional_target: Some(\"main\"), target: None, options: {} }})", NO_OPTIONS)
    );
    let mut opts = no_options();
    opts.limit = Some(25);
    opts.json = true;
    assert_eq!(
        command_text(&Commands::Memory(MemoryCommands::MemoryMap(opts))),
        "Memory(Map(QueryOptions { program: None, project: None, filter: None, fields: None, format: None, limit: Some(25), offset: None, sort: None, count: false, json: true }))"
    );
}

#[test]
fn strings_are_quoted_and_escaped() {
    let cmd = Commands::Script(ScriptCommands::Run(ScriptRunArgs {
        script_path: "a\"b\\c\n\t\u{1b}é".to_string(),
        program: None,
        project: None,
        args: vec!["x".to_string(), "y z".to_string()],
    }));
    assert_eq!(
        command_text(&cmd),
        "Script(Run(ScriptRunArgs { script_path: \"a\\\"b\\\\c\\n\\t\\u{1b}é\", program: None, project: None, args: [\"x\", \"y z\"] }))"
    );
    let empty = Commands::Script(ScriptCommands::Run(ScriptRunArgs {
        script_path: String::new(),
        program: None,
        project: None,
        args: vec![],
    }));
    assert_eq!(command_text(&empty), "Script(Run(ScriptRunArgs { script_path: \"\", program: None, project: None, args: [] }))");
}
