use ghidra_cli::filter::{
    evaluate_exists, evaluate_string_op, field_path_breaks, get_field_value, ExistenceCheck, StringOp,
};
use ghidra_cli::format::{JsonObject, JsonValue};

fn object(members: Vec<(&str, JsonValue)>) -> JsonValue {
    JsonValue::Object(JsonObject {
        members: members.into_iter().map(|(k, v)| (k.to_string(), v)).collect(),
        json: String::new(),
    })
}

fn text(s: &str) -> JsonValue {
    JsonValue::Str(s.to_string())
}

#[test]
fn test_evaluate_string_op() {
    let data = object(vec![("name", text("test_function"))]);
    assert!(evaluate_string_op("name", StringOp::Contains, "func", &data).unwrap());
}

#[test]
fn string_operators_ignore_case_of_strings() {
    let data = object(vec![("name", text("Main_Entry")), ("size", JsonValue::Number("120".to_string())), ("live", JsonValue::Bool(true))]);
    assert!(evaluate_string_op("name", StringOp::StartsWith, "MAIN", &data).unwrap());
    assert!(evaluate_string_op("name", StringOp::EndsWith, "entry", &data).unwrap());
    assert!(!evaluate_string_op("name", StringOp::EndsWith, "main", &data).unwrap());
    assert!(evaluate_string_op("size", StringOp::StartsWith, "12", &data).unwrap());
    assert!(evaluate_string_op("live", StringOp::Contains, "ru", &data).unwrap());
    assert!(!evaluate_string_op("missing", StringOp::Contains, "", &data).unwrap());
    assert!(evaluate_string_op("name", StringOp::Regex, "^main_[a-z]+$", &data).unwrap());
    match evaluate_string_op("name", StringOp::Regex, "(", &data) {
        Err(e) => assert!(e.message().starts_with("Invalid filter expression: Invalid regex: ")),
        Ok(b) => panic!("unexpected {}", b),
    }
}

#[test]
fn field_paths_follow_members_and_indices() {
    let data = object(vec![(
        "function",
        object(vec![
            ("name", text("test")),
            ("xrefs", object(vec![("count", JsonValue::Number("10".to_string()))])),
            ("args", JsonValue::Array(vec![text("a"), text("b")])),
        ]),
    )]);
    match get_field_value("function.xrefs.count", &data) {
        Some(JsonValue::Number(n)) => assert_eq!(n, "10"),
        _ => panic!("expected the count"),
    }
    match get_field_value("function.args[1]", &data) {
        Some(JsonValue::Str(s)) => assert_eq!(s, "b"),
        _ => panic!("expected the second argument"),
    }
    assert!(get_field_value("function.args[2]", &data).is_none());
    assert!(get_field_value("function.args[x]", &data).is_none());
    assert!(get_field_value("function.nope", &data).is_none());
    assert!(get_field_value("function.", &data).is_none());
}

#[test]
fn existence_checks() {
    let data = object(vec![("a", JsonValue::Null), ("b", text("")), ("c", JsonValue::Array(vec![])), ("d", text("x"))]);
    assert!(evaluate_exists("a", ExistenceCheck::Exists, &data));
    assert!(!evaluate_exists("z", ExistenceCheck::Exists, &data));
    assert!(evaluate_exists("a", ExistenceCheck::Null, &data));
    assert!(evaluate_exists("z", ExistenceCheck::Null, &data));
    assert!(!evaluate_exists("b", ExistenceCheck::Null, &data));
    assert!(evaluate_exists("b", ExistenceCheck::Empty, &data));
    assert!(evaluate_exists("c", ExistenceCheck::Empty, &data));
    assert!(!evaluate_exists("d", ExistenceCheck::Empty, &data));
}

#[test]
fn malformed_indices_are_caught_only_where_the_walk_reaches_them() {
    let data = object(vec![("a", JsonValue::Array(vec![text("x")]))]);
    assert!(field_path_breaks("a[", &data));
    assert!(!field_path_breaks("a[0]", &data));
    assert!(!field_path_breaks("missing.b[", &data));
    assert!(field_path_breaks("a[0].b[", &object(vec![("a", JsonValue::Array(vec![object(vec![("b", text("y"))])]))])));
    assert!(!field_path_breaks("plain.path", &data));
    assert!(get_field_value("missing.b[", &data).is_none());
}
