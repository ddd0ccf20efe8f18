use heappy::cli::table::{format_json_value, layout_table, print_table};
use heappy::json::JsonValue;
use heappy::server::protocol::ColumnMeta;
use serde_json::{Number, Value};

fn column(name: &str) -> ColumnMeta {
    ColumnMeta { name: name.to_string(), data_type: "Utf8".to_string() }
}

fn object(fields: Vec<(&str, Value)>) -> JsonValue {
    let mut map = serde_json::Map::new();
    for (name, value) in fields {
        map.insert(name.to_string(), value);
    }
    JsonValue::Object(map)
}

#[test]
fn values_have_their_texts() {
    assert_eq!(format_json_value(&JsonValue::String("a \"b\"".to_string())), "a \"b\"");
    assert_eq!(format_json_value(&JsonValue::Null), "NULL");
    assert_eq!(format_json_value(&JsonValue::Bool(true)), "true");
    assert_eq!(format_json_value(&JsonValue::Bool(false)), "false");
    assert_eq!(format_json_value(&JsonValue::Number(Number::from(-7))), "-7");
    assert_eq!(
        format_json_value(&JsonValue::Number(Number::from_f64(1.5).unwrap())),
        "1.5"
    );
    assert_eq!(
        format_json_value(&JsonValue::Array(vec![Value::from(1), Value::Null, Value::from("x")])),
        "[1,null,\"x\"]"
    );
    assert_eq!(format_json_value(&object(vec![("k", Value::from(2))])), "{\"k\":2}");
}

#[test]
fn empty_result_says_so() {
    assert_eq!(print_table(&vec![column("a")], &Vec::new()), vec!["(empty result)"]);
}

#[test]
fn table_has_names_rule_and_rows() {
    let columns = vec![column("id"), column("name")];
    let rows = vec![
        object(vec![("id", Value::from(1)), ("name", Value::from("alpha"))]),
        object(vec![("id", Value::from(1234))]),
    ];
    assert_eq!(
        print_table(&columns, &rows),
        vec!["id   | name ", "-----+------", "1    | alpha", "1234 | NULL "]
    );
}

#[test]
fn row_that_is_no_object_is_left_out() {
    let rows = vec![JsonValue::Bool(true), object(vec![("a", Value::from("x"))])];
    assert_eq!(print_table(&vec![column("a")], &rows), vec!["a", "-", "x"]);
}

#[test]
fn widths_count_bytes_and_padding_characters() {
    let rows = vec![object(vec![("a", Value::from("üü"))])];
    assert_eq!(print_table(&vec![column("a")], &rows), vec!["a   ", "----", "üü  "]);
}

#[test]
fn lines_of_a_table_align() {
    let names = vec!["ü".to_string(), "wide name".to_string()];
    let cells = vec![
        vec!["1".to_string(), "".to_string()],
        vec!["ööö".to_string(), "a longer cell".to_string()],
    ];
    let lines = layout_table(&names, &cells);
    assert_eq!(lines.len(), 4);
    for line in &lines {
        assert_eq!(line.chars().count(), lines[0].chars().count());
    }
}

#[test]
fn result_without_columns_has_empty_lines() {
    assert_eq!(print_table(&Vec::new(), &vec![object(Vec::new())]), vec!["", "", ""]);
}
