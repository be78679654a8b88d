use json_to_sql::convert::{convert, convert_items, ConvertError};
use json_to_sql::json::{JsonItem, JsonScalar};
use json_to_sql::sql::{escape_sql_str, render_scalar, unescape_sql_str};
use json_to_sql::state::AppState;

#[test]
fn two_records_shared_keys() {
    let input = r#"[{"name":"John","age":30},{"name":"Alice","age":25}]"#;
    let stmts = convert(input, "people").unwrap();
    assert_eq!(
        stmts,
        vec![
            "INSERT INTO people (name, age) VALUES ('John', 30);".to_string(),
            "INSERT INTO people (name, age) VALUES ('Alice', 25);".to_string(),
        ]
    );
}

#[test]
fn one_statement_per_record_in_input_order() {
    let input = r#"[{"id":1},{"id":2},{"id":3},{"id":4}]"#;
    let stmts = convert(input, "t").unwrap();
    assert_eq!(stmts.len(), 4);
    for (i, stmt) in stmts.iter().enumerate() {
        assert_eq!(stmt, &format!("INSERT INTO t (id) VALUES ({});", i + 1));
    }
}

#[test]
fn empty_array_yields_no_statements() {
    let stmts = convert("[]", "people").unwrap();
    assert!(stmts.is_empty());
}

#[test]
fn valid_json_object_is_parse_error() {
    let result = convert(r#"{"name":"John"}"#, "people");
    assert!(matches!(result, Err(ConvertError::Parse(_))));
}

#[test]
fn valid_json_number_is_parse_error() {
    let result = convert("42", "people");
    assert!(matches!(result, Err(ConvertError::Parse(_))));
}

#[test]
fn invalid_json_is_parse_error() {
    let result = convert(r#"[{"name":"#, "people");
    assert!(matches!(result, Err(ConvertError::Parse(_))));
}

#[test]
fn first_element_not_object_is_schema_error() {
    let result = convert("[1, 2]", "people");
    assert!(matches!(result, Err(ConvertError::Schema(0))));
}

#[test]
fn later_element_not_object_is_schema_error() {
    let result = convert(r#"[{"a":1}, 5]"#, "people");
    assert!(matches!(result, Err(ConvertError::Schema(1))));
}

#[test]
fn missing_field_renders_null() {
    let input = r#"[{"name":"John","age":30},{"name":"Alice"}]"#;
    let stmts = convert(input, "people").unwrap();
    assert_eq!(stmts[1], "INSERT INTO people (name, age) VALUES ('Alice', NULL);");
}

#[test]
fn extra_field_is_ignored() {
    let input = r#"[{"a":1},{"a":2,"b":3}]"#;
    let stmts = convert(input, "t").unwrap();
    assert_eq!(stmts[1], "INSERT INTO t (a) VALUES (2);");
}

#[test]
fn string_with_quote_is_escaped() {
    let input = r#"[{"name":"O'Brien"}]"#;
    let stmts = convert(input, "people").unwrap();
    assert_eq!(stmts[0], "INSERT INTO people (name) VALUES ('O''Brien');");
}

#[test]
fn escape_examples() {
    assert_eq!(escape_sql_str(""), "");
    assert_eq!(escape_sql_str("'"), "''");
    assert_eq!(escape_sql_str("a'b"), "a''b");
    assert_eq!(escape_sql_str("no quotes"), "no quotes");
}

#[test]
fn escape_roundtrip() {
    let originals = ["", "'", "it's a 'test'", "''", "plain", "end'"];
    for original in originals {
        let escaped = escape_sql_str(original);
        assert_eq!(unescape_sql_str(&escaped), original);
    }
}

#[test]
fn booleans_and_null_rendered() {
    let input = r#"[{"x":true,"y":false,"z":null}]"#;
    let stmts = convert(input, "t").unwrap();
    assert_eq!(stmts[0], "INSERT INTO t (x, y, z) VALUES (TRUE, FALSE, NULL);");
}

#[test]
fn nested_values_keep_their_json_text() {
    let input = r#"[{"x":[1,2],"y":{"k":"v"}}]"#;
    let stmts = convert(input, "t").unwrap();
    assert_eq!(stmts[0], r#"INSERT INTO t (x, y) VALUES ([1,2], {"k":"v"});"#);
}

#[test]
fn fractional_number_keeps_its_text() {
    let input = r#"[{"x":2.5,"y":-7}]"#;
    let stmts = convert(input, "t").unwrap();
    assert_eq!(stmts[0], "INSERT INTO t (x, y) VALUES (2.5, -7);");
}

#[test]
fn column_order_follows_the_text() {
    let input = r#"[{"zeta":1,"alpha":2}]"#;
    let stmts = convert(input, "t").unwrap();
    assert_eq!(stmts[0], "INSERT INTO t (zeta, alpha) VALUES (1, 2);");
}

#[test]
fn convert_items_builds_statements() {
    let items = vec![
        JsonItem::Object(vec![
            ("a".to_string(), JsonScalar::Num("1".to_string())),
            ("b".to_string(), JsonScalar::Str("x".to_string())),
        ]),
        JsonItem::Object(vec![("a".to_string(), JsonScalar::Bool(true))]),
    ];
    let stmts = convert_items(&items, "t").unwrap();
    assert_eq!(
        stmts,
        vec![
            "INSERT INTO t (a, b) VALUES (1, 'x');".to_string(),
            "INSERT INTO t (a, b) VALUES (TRUE, NULL);".to_string(),
        ]
    );
}

#[test]
fn convert_items_rejects_non_object() {
    let items = vec![JsonItem::Other];
    let result = convert_items(&items, "t");
    assert!(matches!(result, Err(ConvertError::Schema(0))));
}

#[test]
fn render_scalar_examples() {
    assert_eq!(render_scalar(&JsonScalar::Null), "NULL");
    assert_eq!(render_scalar(&JsonScalar::Bool(true)), "TRUE");
    assert_eq!(render_scalar(&JsonScalar::Bool(false)), "FALSE");
    assert_eq!(render_scalar(&JsonScalar::Num("30".to_string())), "30");
    assert_eq!(render_scalar(&JsonScalar::Str("a'b".to_string())), "'a''b'");
    assert_eq!(render_scalar(&JsonScalar::Nested("[1]".to_string())), "[1]");
}

#[test]
fn app_state_default_is_empty() {
    let state = AppState::default();
    assert!(state.table_name.is_empty());
    assert!(state.file_content.is_empty());
}

#[test]
fn app_state_same_compares_both_fields() {
    let a = AppState { table_name: "t".to_string(), file_content: "[]".to_string() };
    let b = AppState { table_name: "t".to_string(), file_content: "[]".to_string() };
    let c = AppState { table_name: "u".to_string(), file_content: "[]".to_string() };
    assert!(a.same(&b));
    assert!(!a.same(&c));
}
