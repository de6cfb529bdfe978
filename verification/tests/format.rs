use ghidra_cli::format::{
    auto_detect_format, format_csv, format_json_value, format_minimal, DefaultFormatter, JsonObject,
    JsonValue, OutputFormat, Rendering,
};

fn text(s: &str) -> JsonValue {
    JsonValue::Str(s.to_string())
}

fn number(n: i64) -> JsonValue {
    JsonValue::Number(n.to_string())
}

fn object(members: Vec<(&str, JsonValue)>, json: &str) -> JsonValue {
    JsonValue::Object(JsonObject {
        members: members.into_iter().map(|(k, v)| (k.to_string(), v)).collect(),
        json: json.to_string(),
    })
}

#[test]
fn test_format_json() {
    let data = vec![object(vec![("name", text("test")), ("value", number(123))], r#"{"name":"test","value":123}"#)];
    let formatter = DefaultFormatter;
    assert!(matches!(formatter.format(&data, OutputFormat::Json), Rendering::PrettyJson));
}

#[test]
fn test_format_count() {
    let data = vec![
        object(vec![("name", text("test1"))], r#"{"name":"test1"}"#),
        object(vec![("name", text("test2"))], r#"{"name":"test2"}"#),
    ];
    let formatter = DefaultFormatter;
    match formatter.format(&data, OutputFormat::Count) {
        Rendering::Text(t) => assert_eq!(t, "2"),
        _ => panic!("expected text"),
    }
}

#[test]
fn format_names_parse_in_any_case() {
    assert_eq!(OutputFormat::from_str("JSON").unwrap(), OutputFormat::Json);
    assert_eq!(OutputFormat::from_str("ndjson").unwrap(), OutputFormat::JsonStream);
    assert_eq!(OutputFormat::from_str("Json-Stream").unwrap(), OutputFormat::JsonStream);
    assert_eq!(OutputFormat::from_str("c").unwrap(), OutputFormat::C);
    match OutputFormat::from_str("yaml") {
        Err(e) => assert_eq!(e.message(), "Invalid format: Unknown format: yaml"),
        Ok(f) => panic!("unexpected {:?}", f),
    }
}

#[test]
fn format_audiences() {
    assert!(OutputFormat::Table.is_human_friendly());
    assert!(!OutputFormat::Table.is_machine_friendly());
    assert!(OutputFormat::Tsv.is_machine_friendly());
    assert!(!OutputFormat::Hex.is_human_friendly() && !OutputFormat::Hex.is_machine_friendly());
    assert_eq!(auto_detect_format(true), OutputFormat::Compact);
    assert_eq!(auto_detect_format(false), OutputFormat::JsonCompact);
}

#[test]
fn cell_texts() {
    assert_eq!(format_json_value(&JsonValue::Null), "null");
    assert_eq!(format_json_value(&JsonValue::Bool(true)), "true");
    assert_eq!(format_json_value(&text("x")), "x");
    let arr = JsonValue::Array(vec![number(1), text("a"), JsonValue::Array(vec![])]);
    assert_eq!(format_json_value(&arr), "[1, a, []]");
    assert_eq!(format_json_value(&object(vec![], "{}")), "{}");
}

#[test]
fn csv_and_tsv() {
    let data = vec![
        object(vec![("address", text("0x1000")), ("name", text("main"))], ""),
        number(7),
        object(vec![("name", text("f"))], ""),
    ];
    assert_eq!(format_csv(&data, ","), "address,name\n0x1000,main\n,f\n");
    assert_eq!(format_csv(&data, "\t"), "address\tname\n0x1000\tmain\n\tf\n");
    assert_eq!(format_csv(&[], ","), "");
    assert_eq!(format_csv(&[number(1)], ","), "");
}

#[test]
fn minimal_prefers_address_then_name_then_id() {
    let data = vec![
        object(vec![("address", text("0x1")), ("name", text("a"))], ""),
        object(vec![("id", number(9)), ("name", text("b"))], ""),
        object(vec![("id", number(9)), ("size", number(4))], ""),
        object(vec![("size", number(4))], ""),
        object(vec![], "{}"),
        text("plain"),
    ];
    assert_eq!(format_minimal(&data), "0x1\nb\n9\n4\n\nplain\n");
}

#[test]
fn tables() {
    let formatter = DefaultFormatter;
    match formatter.format(&[], OutputFormat::Table) {
        Rendering::Text(t) => assert_eq!(t, "No results"),
        _ => panic!("expected text"),
    }
    match formatter.format(&[number(1), number(2), number(3)], OutputFormat::Table) {
        Rendering::Text(t) => assert_eq!(t, "3 results"),
        _ => panic!("expected text"),
    }
    let data = vec![object(vec![("a", number(1)), ("b", text("x"))], ""), object(vec![("b", text("y"))], "")];
    match formatter.format(&data, OutputFormat::Table) {
        Rendering::Table { header, rows } => {
            assert_eq!(header, vec!["a".to_string(), "b".to_string()]);
            assert_eq!(rows, vec![vec!["1".to_string(), "x".to_string()], vec!["".to_string(), "y".to_string()]]);
        }
        _ => panic!("expected a table"),
    }
    assert!(matches!(formatter.format(&data, OutputFormat::Hex), Rendering::PrettyJson));
    assert!(matches!(formatter.format(&data, OutputFormat::JsonStream), Rendering::JsonLines));
}
