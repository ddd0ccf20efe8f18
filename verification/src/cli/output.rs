//! Query results as a JSON document.
use crate::json::{
    array_from, array_items, integer_number, json_to_string_pretty, models, no_fields,
    number_from_unsigned, object_fields, object_new, pretty_text, set_field, value_from, Json,
    JsonValue,
};
use crate::server::protocol::ColumnMeta;
use vstd::prelude::*;

verus! {

/// The fields that describe a column.
pub open spec fn column_fields(column: ColumnMeta) -> Map<Seq<char>, Json> {
    no_fields().insert("name"@, Json::String(column.name@)).insert(
        "data_type"@,
        Json::String(column.data_type@),
    )
}

/// Whether a value is the object that describes a column.
pub open spec fn describes(value: Json, column: ColumnMeta) -> bool {
    value matches Json::Object(fields) && object_fields(fields) == column_fields(column)
}

/// Whether a value is the array of the objects that describe the columns.
pub open spec fn describes_all(value: Json, columns: Seq<ColumnMeta>) -> bool {
    &&& value matches Json::Array(items)
    &&& array_items(items).len() == columns.len()
    &&& forall|i: int| #![trigger columns[i]]
        0 <= i < columns.len() ==> describes(array_items(items)[i], columns[i])
}

/// Whether a value is the array of the rows.
pub open spec fn holds_rows(value: Json, rows: Seq<JsonValue>) -> bool {
    value matches Json::Array(items) && array_items(items) == models(rows)
}

/// Whether an object is the document of a query result: its columns, its rows,
/// their number, and the time that the query took.
pub open spec fn is_document(
    object: serde_json::Map<String, serde_json::Value>,
    columns: Seq<ColumnMeta>,
    rows: Seq<JsonValue>,
    query_time_ms: serde_json::Number,
) -> bool {
    let fields = object_fields(object);
    &&& fields.dom() == set!["columns"@, "rows"@, "row_count"@, "query_time_ms"@]
    &&& describes_all(fields["columns"@], columns)
    &&& holds_rows(fields["rows"@], rows)
    &&& fields["row_count"@] == Json::Number(integer_number(rows.len() as int))
    &&& fields["query_time_ms"@] == Json::Number(query_time_ms)
}

/// Whether a text is the document of a query result.
pub open spec fn is_document_text(
    text: Seq<char>,
    columns: Seq<ColumnMeta>,
    rows: Seq<JsonValue>,
    query_time_ms: serde_json::Number,
) -> bool {
    exists|object: serde_json::Map<String, serde_json::Value>|
        #[trigger] is_document(object, columns, rows, query_time_ms) && text == pretty_text(
            Json::Object(object),
        )
}

fn describe(column: ColumnMeta) -> (value: JsonValue)
    ensures
        describes(value@, column),
{
    let mut object = object_new();
    set_field(&mut object, "name", JsonValue::String(column.name));
    set_field(&mut object, "data_type", JsonValue::String(column.data_type));
    JsonValue::Object(object)
}

/// The document of a query result.
pub fn query_document(
    columns: Vec<ColumnMeta>,
    rows: Vec<JsonValue>,
    query_time_ms: serde_json::Number,
) -> (object: serde_json::Map<String, serde_json::Value>)
    ensures
        is_document(object, columns@, rows@, query_time_ms),
{
    let ghost all = columns@;
    let ghost n = rows@.len();
    let row_count: usize = rows.len();
    let mut described: Vec<JsonValue> = Vec::new();
    for column in iter: columns
        invariant
            iter.seq() == all,
            described@.len() == iter.index(),
            forall|i: int| #![trigger described@[i]]
                0 <= i < described@.len() ==> describes(described@[i]@, all[i]),
    {
        described.push(describe(column));
    }
    let ghost shown = described@;
    let mut object = object_new();
    let items = array_from(&described);
    let ghost first = items@;
    set_field(&mut object, "columns", JsonValue::Array(items));
    set_field(&mut object, "rows", JsonValue::Array(array_from(&rows)));
    set_field(
        &mut object,
        "row_count",
        JsonValue::Number(number_from_unsigned(row_count as u64)),
    );
    set_field(&mut object, "query_time_ms", JsonValue::Number(query_time_ms));
    proof {
        reveal_strlit("columns");
        reveal_strlit("rows");
        reveal_strlit("row_count");
        reveal_strlit("query_time_ms");
        assert("columns"@.len() == 7 && "rows"@.len() == 4 && "row_count"@.len() == 9
            && "query_time_ms"@.len() == 13);
        let fields = object_fields(object);
        assert(fields.dom() =~= set!["columns"@, "rows"@, "row_count"@, "query_time_ms"@]);
        assert forall|i: int| #![trigger all[i]] 0 <= i < all.len() implies describes(
            array_items(first)[i],
            all[i],
        ) by {
            assert(describes(shown[i]@, all[i]));
        }
    }
    object
}

/// The text of the document of a query result.
pub fn query_json_text(
    columns: Vec<ColumnMeta>,
    rows: Vec<JsonValue>,
    query_time_ms: serde_json::Number,
) -> (text: String)
    ensures
        is_document_text(text@, columns@, rows@, query_time_ms),
{
    let object = query_document(columns, rows, query_time_ms);
    json_to_string_pretty(&value_from(&JsonValue::Object(object)))
}

}
