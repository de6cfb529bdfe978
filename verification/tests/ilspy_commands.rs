use ghidra_cli::ilspy::cli::{DecompileArgs, OutputFormat, TypeKind};
use ghidra_cli::ilspy::commands::{
    arrange_detect_results, check_search_pattern, decompile_format, decompile_target, select_methods,
    select_types, DecompileTarget,
};
use ghidra_cli::ilspy::format::{format_detect, format_methods, format_search, format_types, DetectResult, Rendered};
use ghidra_cli::ilspy::types::{MethodInfo, ParameterInfo, SearchMatch, SearchResult, TypeInfo};
use std::path::PathBuf;

fn type_info(full_name: &str, kind: &str) -> TypeInfo {
    TypeInfo {
        full_name: full_name.to_string(),
        ns: String::new(),
        name: full_name.to_string(),
        kind: kind.to_string(),
        method_count: 2,
        property_count: 1,
        field_count: 0,
        is_public: true,
    }
}

fn method(name: &str) -> MethodInfo {
    MethodInfo {
        declaring_type: "App.Program".to_string(),
        name: name.to_string(),
        return_type: "int".to_string(),
        parameters: vec![
            ParameterInfo { name: "args".to_string(), param_type: "string[]".to_string() },
            ParameterInfo { name: "n".to_string(), param_type: "int".to_string() },
        ],
        accessibility: "Public".to_string(),
        is_static: true,
        is_virtual: false,
        is_abstract: false,
    }
}

fn detected(path: &str, is_dotnet: bool) -> DetectResult {
    DetectResult {
        path: path.to_string(),
        is_dotnet,
        framework: if is_dotnet { ".NET 8.0".to_string() } else { "Native".to_string() },
        recommended_tool: if is_dotnet { "ilspy".to_string() } else { "ghidra".to_string() },
    }
}

#[test]
fn type_listing_filters() {
    let types = vec![type_info("App.Widget", "Class"), type_info("App.IWidget", "Interface"), type_info("App.Other", "Class")];
    let r = select_types(types.clone(), Some("WIDGET"), None);
    assert_eq!(r.iter().map(|t| t.full_name.as_str()).collect::<Vec<_>>(), vec!["App.Widget", "App.IWidget"]);
    let r = select_types(types.clone(), Some("widget"), Some(TypeKind::Class));
    assert_eq!(r.len(), 1);
    let r = select_types(types.clone(), None, None);
    assert_eq!(r.len(), 3);
    let r = select_types(types, Some(""), Some(TypeKind::Struct));
    assert!(r.is_empty());
}

#[test]
fn method_listing_filters() {
    let r = select_methods(vec![method("Main"), method("Run"), method("remain")], Some("MAIN"));
    assert_eq!(r.iter().map(|m| m.name.as_str()).collect::<Vec<_>>(), vec!["Main", "remain"]);
}

#[test]
fn decompile_targets_and_formats() {
    let args = |t: Option<&str>, m: Option<&str>| DecompileArgs {
        assembly: PathBuf::from("a.dll"),
        type_filter: t.map(|s| s.to_string()),
        method: m.map(|s| s.to_string()),
    };
    match decompile_target(&args(Some("A.B"), Some("Run"))) {
        DecompileTarget::Method { type_full_name, method } => {
            assert_eq!(type_full_name, "A.B");
            assert_eq!(method, "Run");
        }
        _ => panic!("expected a method"),
    }
    assert!(matches!(decompile_target(&args(Some("A.B"), None)), DecompileTarget::Type(t) if t == "A.B"));
    assert!(matches!(decompile_target(&args(None, Some("Run"))), DecompileTarget::Full));
    assert_eq!(decompile_format(OutputFormat::Table), OutputFormat::Source);
    assert_eq!(decompile_format(OutputFormat::Compact), OutputFormat::Source);
    assert_eq!(decompile_format(OutputFormat::JsonPretty), OutputFormat::JsonPretty);
}

#[test]
fn search_patterns_are_checked() {
    assert!(check_search_pattern("foo.*bar").is_ok());
    assert!(check_search_pattern("(unclosed").unwrap_err().starts_with("Invalid regex pattern: "));
}

#[test]
fn detection_results_list_dotnet_first_then_by_name() {
    let results = vec![detected("b.exe", false), detected("z.dll", true), detected("a.exe", false), detected("c.dll", true)];
    let r = arrange_detect_results(results.clone(), false, false);
    assert_eq!(r.iter().map(|d| d.path.as_str()).collect::<Vec<_>>(), vec!["c.dll", "z.dll", "a.exe", "b.exe"]);
    let only_native = arrange_detect_results(results.clone(), false, true);
    assert_eq!(only_native.iter().map(|d| d.path.as_str()).collect::<Vec<_>>(), vec!["a.exe", "b.exe"]);
    let none = arrange_detect_results(results, true, true);
    assert!(none.is_empty());
}

#[test]
fn equal_names_keep_their_order() {
    let mut first = detected("same.dll", true);
    first.framework = "first".to_string();
    let mut second = detected("same.dll", true);
    second.framework = "second".to_string();
    let r = arrange_detect_results(vec![first, detected("a.dll", true), second], false, false);
    assert_eq!(r.iter().map(|d| d.framework.as_str()).collect::<Vec<_>>(), vec![".NET 8.0", "first", "second"]);
}

#[test]
fn compact_renderings() {
    match format_types(&[type_info("App.Widget", "Class")], OutputFormat::Compact) {
        Rendered::Text(t) => assert_eq!(t, "App.Widget (Class) [2 methods, 1 props, 0 fields]"),
        _ => panic!("expected text"),
    }
    match format_methods(&[method("Main")], OutputFormat::Source) {
        Rendered::Text(t) => assert_eq!(t, "App.Program::Main → int public static(string[] args, int n)"),
        _ => panic!("expected text"),
    }
    match format_detect(&[detected("a.dll", true), detected("b.exe", false)], OutputFormat::Compact) {
        Rendered::Text(t) => assert_eq!(t, "a.dll: .NET 8.0 [ilspy]\nb.exe: Native [ghidra]"),
        _ => panic!("expected text"),
    }
    match format_detect(&[detected("a.dll", true)], OutputFormat::Table) {
        Rendered::Table { header, rows } => {
            assert_eq!(header, vec!["File", "Type", "Framework", "Tool"]);
            assert_eq!(rows, vec![vec!["a.dll", ".NET", ".NET 8.0", "ilspy"]]);
        }
        _ => panic!("expected a table"),
    }
    assert!(matches!(format_types(&[], OutputFormat::Json), Rendered::Json));
}

#[test]
fn search_rendering() {
    match format_search(&[], OutputFormat::Table) {
        Rendered::Text(t) => assert_eq!(t, "No matches found."),
        _ => panic!("expected text"),
    }
    let results = vec![SearchResult {
        type_full_name: "App.Program".to_string(),
        match_count: 1,
        matches: vec![SearchMatch { line: 12, matched: "Foo()".to_string(), context: "a\r\nb\n".to_string() }],
    }];
    match format_search(&results, OutputFormat::Compact) {
        Rendered::Text(t) => assert_eq!(t, "── App.Program (1 matches) ──\n  Line 12: Foo()\n    a\n    b"),
        _ => panic!("expected text"),
    }
}
