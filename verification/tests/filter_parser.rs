use ghidra_cli::error::GhidraError;
use ghidra_cli::filter::parser::{lex, Token};
use ghidra_cli::filter::{
    parse_filter, CompareOp, ExistenceCheck, Filter, FilterExpr, LogicalOp, StringOp, Value,
};

fn compare_parts(e: &FilterExpr) -> (&str, CompareOp, &Value) {
    match e {
        FilterExpr::Compare { field, op, value } => (field.as_str(), *op, value),
        _ => panic!("Expected Compare expression"),
    }
}

fn value_of(input: &str) -> Value {
    let filter = parse_filter(input).unwrap();
    match filter.expr {
        FilterExpr::Compare { value, .. } => value,
        _ => panic!("Expected Compare expression"),
    }
}

fn refused(input: &str) -> bool {
    matches!(parse_filter(input), Err(GhidraError::FilterParseError(m)) if m == input)
}

#[test]
fn test_parse_simple() {
    let filter = parse_filter("name=test").unwrap();
    assert!(matches!(filter.expr, FilterExpr::Compare { .. }));
}

#[test]
fn test_parse_and() {
    let filter = parse_filter("name=test AND size>100").unwrap();
    assert!(matches!(filter.expr, FilterExpr::Logical { .. }));
}

#[test]
fn test_parse_hex() {
    let filter = parse_filter("address=0x401000").unwrap();
    if let FilterExpr::Compare { value, .. } = filter.expr {
        assert!(matches!(value, Value::Hex(0x401000)));
    } else {
        panic!("Expected Compare expression");
    }
}

#[test]
fn test_parse_simple_filter() {
    let filter = Filter::parse("name=test").unwrap();
    assert!(matches!(filter.expr, FilterExpr::Compare { .. }));
}

#[test]
fn test_parse_logical_filter() {
    let filter = Filter::parse("name=test AND size>100").unwrap();
    assert!(matches!(filter.expr, FilterExpr::Logical { .. }));
}

#[test]
fn comparison_reads_field_operator_and_value() {
    let filter = parse_filter("size > 100").unwrap();
    let (field, op, value) = compare_parts(&filter.expr);
    assert_eq!(field, "size");
    assert_eq!(op, CompareOp::Greater);
    assert!(matches!(value, Value::Integer(100)));
    let filter = parse_filter("name=test").unwrap();
    let (field, op, value) = compare_parts(&filter.expr);
    assert_eq!(field, "name");
    assert_eq!(op, CompareOp::Equal);
    assert!(matches!(value, Value::String(s) if s == "test"));
}

#[test]
fn every_comparison_operator() {
    let cases = [
        ("a = 1", CompareOp::Equal),
        ("a != 1", CompareOp::NotEqual),
        ("a > 1", CompareOp::Greater),
        ("a >= 1", CompareOp::GreaterEqual),
        ("a < 1", CompareOp::Less),
        ("a <= 1", CompareOp::LessEqual),
    ];
    for (input, expected) in cases {
        let filter = parse_filter(input).unwrap();
        assert_eq!(compare_parts(&filter.expr).1, expected, "{input}");
    }
}

#[test]
fn literal_kinds() {
    assert!(matches!(value_of("a = -42"), Value::Integer(-42)));
    assert!(matches!(value_of("a = 9223372036854775807"), Value::Integer(i64::MAX)));
    assert!(matches!(value_of("a = -9223372036854775808"), Value::Integer(i64::MIN)));
    assert!(matches!(value_of("a = 0xFFffFFffFFffFFff"), Value::Hex(u64::MAX)));
    assert!(matches!(value_of("a = 3.25"), Value::Number(t) if t == "3.25"));
    assert!(matches!(value_of("a = TRUE"), Value::Boolean(true)));
    assert!(matches!(value_of("a = false"), Value::Boolean(false)));
    assert!(matches!(value_of("a = 'two words'"), Value::String(s) if s == "two words"));
    assert!(matches!(value_of("a = \"x\""), Value::String(s) if s == "x"));
}

#[test]
fn out_of_range_numbers_are_refused() {
    assert!(refused("a = 9223372036854775808"));
    assert!(refused("a = -9223372036854775809"));
    assert!(refused("a = 0x10000000000000000"));
    assert!(refused("a = 0x"));
}

#[test]
fn logical_chains_combine_left_to_right() {
    let filter = parse_filter("a=1 OR b=2 && c=3").unwrap();
    match filter.expr {
        FilterExpr::Logical { op: LogicalOp::And, left, right } => {
            assert!(matches!(*left, FilterExpr::Logical { op: LogicalOp::Or, .. }));
            assert_eq!(compare_parts(&right).0, "c");
        }
        _ => panic!("Expected a logical expression"),
    }
}

#[test]
fn negation_and_parentheses() {
    let filter = parse_filter("NOT (a=1 || b=2)").unwrap();
    match filter.expr {
        FilterExpr::Not(inner) => assert!(matches!(*inner, FilterExpr::Logical { op: LogicalOp::Or, .. })),
        _ => panic!("Expected a negation"),
    }
    let filter = parse_filter("!a=1").unwrap();
    assert!(matches!(filter.expr, FilterExpr::Not(_)));
}

#[test]
fn string_operators() {
    let filter = parse_filter("name contains 'main'").unwrap();
    assert!(matches!(
        filter.expr,
        FilterExpr::StringOp { ref field, op: StringOp::Contains, ref value } if field == "name" && value == "main"
    ));
    let cases = [
        ("name ~ x", StringOp::Contains),
        ("name ^ x", StringOp::StartsWith),
        ("name $ x", StringOp::EndsWith),
        ("name =~ 'x.*'", StringOp::Regex),
    ];
    for (input, expected) in cases {
        match parse_filter(input).unwrap().expr {
            FilterExpr::StringOp { op, .. } => assert_eq!(op, expected, "{input}"),
            _ => panic!("Expected a string operation"),
        }
    }
    assert!(refused("name ~ 12"));
}

#[test]
fn existence_and_in_lists() {
    let filter = parse_filter("comment EXISTS").unwrap();
    assert!(matches!(filter.expr, FilterExpr::Exists { check: ExistenceCheck::Exists, .. }));
    let filter = parse_filter("comment EMPTY").unwrap();
    assert!(matches!(filter.expr, FilterExpr::Exists { check: ExistenceCheck::Empty, .. }));
    let filter = parse_filter("comment NULL").unwrap();
    assert!(matches!(filter.expr, FilterExpr::Exists { check: ExistenceCheck::Null, .. }));
    let filter = parse_filter("kind IN (func, 'data', 3)").unwrap();
    match filter.expr {
        FilterExpr::In { field, values } => {
            assert_eq!(field, "kind");
            assert_eq!(values.len(), 3);
            assert!(matches!(&values[0], Value::String(s) if s == "func"));
            assert!(matches!(&values[1], Value::String(s) if s == "data"));
            assert!(matches!(values[2], Value::Integer(3)));
        }
        _ => panic!("Expected an IN list"),
    }
}

#[test]
fn malformed_expressions_are_refused() {
    for input in ["", "name", "name =", "a=1 AND", "(a=1", "a=1)", "a = 'open", "a & b", "a=1 b=2", "IN (1)", "x IN ()"] {
        assert!(refused(input), "{input:?}");
    }
}

#[test]
fn lexer_splits_tokens() {
    let toks = lex("a>=0x1F&&(b~'c d')").unwrap();
    assert_eq!(toks.len(), 9);
    assert!(matches!(&toks[0], Token::Word(w) if w == "a"));
    assert!(matches!(toks[1], Token::Cmp(CompareOp::GreaterEqual)));
    assert!(matches!(&toks[2], Token::Word(w) if w == "0x1F"));
    assert!(matches!(toks[3], Token::And));
    assert!(matches!(toks[4], Token::LParen));
    assert!(matches!(toks[6], Token::Str(StringOp::Contains)));
    assert!(matches!(&toks[7], Token::Quoted(q) if q == "c d"));
    assert!(matches!(toks[8], Token::RParen));
    assert!(lex("a # b").is_none());
}

#[test]
fn value_accessors() {
    assert_eq!(value_of("a = 'x'").as_str(), Some("x"));
    assert_eq!(value_of("a = 5").as_str(), None);
    assert_eq!(value_of("a = true").as_bool(), Some(true));
    assert_eq!(value_of("a = x").as_bool(), None);
}
