use heappy::cli::table::format_json_value;
use heappy::engine::rows::{
    arrow_value_to_json, row_to_json, rows_to_json, ArrowCell, ArrowResult, FloatCell,
};
use heappy::json::JsonValue;
use heappy::server::protocol::ColumnMeta;
use serde_json::{Number, Value};

fn column(name: &str, data_type: &str) -> ColumnMeta {
    ColumnMeta { name: name.to_string(), data_type: data_type.to_string() }
}

fn float(v: f64) -> FloatCell {
    FloatCell { number: Number::from_f64(v), text: v.to_string() }
}

#[test]
fn integers_become_numbers() {
    let cells = vec![
        (ArrowCell::Int8(-128), Number::from(-128)),
        (ArrowCell::Int16(-300), Number::from(-300)),
        (ArrowCell::Int32(5), Number::from(5)),
        (ArrowCell::Int64(i64::MIN), Number::from(i64::MIN)),
        (ArrowCell::UInt8(255), Number::from(255)),
        (ArrowCell::UInt16(65535), Number::from(65535)),
        (ArrowCell::UInt32(4_000_000_000), Number::from(4_000_000_000u64)),
        (ArrowCell::UInt64(u64::MAX), Number::from(u64::MAX)),
    ];
    for (cell, number) in cells {
        assert_eq!(arrow_value_to_json(cell), JsonValue::Number(number));
    }
}

#[test]
fn integers_are_written_in_decimal() {
    assert_eq!(format_json_value(&arrow_value_to_json(ArrowCell::Int16(-42))), "-42");
    assert_eq!(format_json_value(&arrow_value_to_json(ArrowCell::Int8(0))), "0");
    assert_eq!(
        format_json_value(&arrow_value_to_json(ArrowCell::UInt64(u64::MAX))),
        "18446744073709551615"
    );
    assert_eq!(
        format_json_value(&arrow_value_to_json(ArrowCell::Int64(i64::MIN))),
        "-9223372036854775808"
    );
}

#[test]
fn integer_width_and_sign_do_not_matter() {
    assert_eq!(
        arrow_value_to_json(ArrowCell::Int8(7)),
        arrow_value_to_json(ArrowCell::UInt64(7))
    );
}

#[test]
fn floats_become_numbers_or_texts() {
    assert_eq!(
        arrow_value_to_json(ArrowCell::Float64(float(1.5))),
        JsonValue::Number(Number::from_f64(1.5).unwrap())
    );
    assert_eq!(
        arrow_value_to_json(ArrowCell::Float32(float(f64::NAN))),
        JsonValue::String("NaN".to_string())
    );
    assert_eq!(
        arrow_value_to_json(ArrowCell::Float64(float(f64::INFINITY))),
        JsonValue::String("inf".to_string())
    );
}

#[test]
fn other_cells_become_their_values() {
    assert_eq!(arrow_value_to_json(ArrowCell::Null), JsonValue::Null);
    assert_eq!(arrow_value_to_json(ArrowCell::Boolean(true)), JsonValue::Bool(true));
    assert_eq!(
        arrow_value_to_json(ArrowCell::Utf8("a".to_string())),
        JsonValue::String("a".to_string())
    );
    assert_eq!(
        arrow_value_to_json(ArrowCell::LargeUtf8("b".to_string())),
        JsonValue::String("b".to_string())
    );
    assert_eq!(
        arrow_value_to_json(ArrowCell::Other(Some("2024-01-01".to_string()))),
        JsonValue::String("2024-01-01".to_string())
    );
    assert_eq!(
        arrow_value_to_json(ArrowCell::Other(None)),
        JsonValue::String("?".to_string())
    );
}

#[test]
fn row_is_an_object_of_its_columns() {
    let columns = vec![column("id", "Int32"), column("name", "Utf8")];
    let cells = vec![ArrowCell::Int32(1), ArrowCell::Utf8("x".to_string())];
    match row_to_json(&columns, cells) {
        JsonValue::Object(fields) => {
            assert_eq!(fields.len(), 2);
            assert_eq!(fields.get("id"), Some(&Value::from(1)));
            assert_eq!(fields.get("name"), Some(&Value::from("x")));
        }
        other => panic!("{:?}", other),
    }
}

#[test]
fn last_column_of_a_name_counts() {
    let columns = vec![column("n", "Int32"), column("n", "Boolean")];
    match row_to_json(&columns, vec![ArrowCell::Int32(1), ArrowCell::Boolean(false)]) {
        JsonValue::Object(fields) => {
            assert_eq!(fields.len(), 1);
            assert_eq!(fields.get("n"), Some(&Value::Bool(false)));
        }
        other => panic!("{:?}", other),
    }
}

#[test]
fn rows_of_all_batches_stay_in_order() {
    let result = ArrowResult {
        columns: vec![column("n", "Int32")],
        batches: vec![
            vec![vec![ArrowCell::Int32(1)], vec![ArrowCell::Int32(2)]],
            Vec::new(),
            vec![vec![ArrowCell::Null]],
        ],
    };
    let (columns, rows) = rows_to_json(result);
    assert_eq!(columns, vec![column("n", "Int32")]);
    let values: Vec<Option<Value>> = rows
        .iter()
        .map(|row| match row {
            JsonValue::Object(fields) => fields.get("n").cloned(),
            _ => None,
        })
        .collect();
    assert_eq!(values, vec![Some(Value::from(1)), Some(Value::from(2)), Some(Value::Null)]);
}
