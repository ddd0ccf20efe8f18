//! The rows of a query result as JSON objects.
use crate::json::{
    integer_number, integer_text, no_fields, number_from_signed, number_from_unsigned, number_text,
    object_fields, object_new, set_field, Json, JsonValue,
};
use crate::server::protocol::ColumnMeta;
use vstd::prelude::*;

verus! {

/// A floating-point cell: the JSON number of its value, which infinities and
/// NaN do not have, and its text.
#[derive(Debug, PartialEq)]
pub struct FloatCell {
    pub number: Option<serde_json::Number>,
    pub text: String,
}

/// A cell of a result batch. `Other` holds a cell of any type that has no
/// variant of its own, as the text it is displayed with, if it can be displayed.
#[derive(Debug, PartialEq)]
pub enum ArrowCell {
    Null,
    Boolean(bool),
    Int8(i8),
    Int16(i16),
    Int32(i32),
    Int64(i64),
    UInt8(u8),
    UInt16(u16),
    UInt32(u32),
    UInt64(u64),
    Float32(FloatCell),
    Float64(FloatCell),
    Utf8(String),
    LargeUtf8(String),
    Other(Option<String>),
}

/// What a query gave back: the columns, and batches of rows of cells.
#[derive(Debug, PartialEq)]
pub struct ArrowResult {
    pub columns: Vec<ColumnMeta>,
    pub batches: Vec<Vec<Vec<ArrowCell>>>,
}

/// The integer that a cell holds.
pub open spec fn cell_integer(cell: ArrowCell) -> Option<int> {
    match cell {
        ArrowCell::Int8(n) => Some(n as int),
        ArrowCell::Int16(n) => Some(n as int),
        ArrowCell::Int32(n) => Some(n as int),
        ArrowCell::Int64(n) => Some(n as int),
        ArrowCell::UInt8(n) => Some(n as int),
        ArrowCell::UInt16(n) => Some(n as int),
        ArrowCell::UInt32(n) => Some(n as int),
        ArrowCell::UInt64(n) => Some(n as int),
        _ => None,
    }
}

/// The JSON value of a floating-point cell: its number, or else its text.
pub open spec fn float_json(cell: FloatCell) -> Json {
    match cell.number {
        Some(n) => Json::Number(n),
        None => Json::String(cell.text@),
    }
}

/// The JSON value of a cell.
pub open spec fn cell_json(cell: ArrowCell) -> Json {
    match cell {
        ArrowCell::Null => Json::Null,
        ArrowCell::Boolean(b) => Json::Bool(b),
        ArrowCell::Float32(f) => float_json(f),
        ArrowCell::Float64(f) => float_json(f),
        ArrowCell::Utf8(s) => Json::String(s@),
        ArrowCell::LargeUtf8(s) => Json::String(s@),
        ArrowCell::Other(Some(s)) => Json::String(s@),
        ArrowCell::Other(None) => Json::String("?"@),
        _ => Json::Number(integer_number(cell_integer(cell)->0)),
    }
}

/// The fields of a row: each column name with the value of its cell; of columns
/// that share a name, the last counts.
pub open spec fn row_fields(columns: Seq<ColumnMeta>, cells: Seq<ArrowCell>) -> Map<Seq<char>, Json>
    decreases cells.len(),
{
    if cells.len() == 0 {
        no_fields()
    } else {
        row_fields(columns, cells.drop_last()).insert(
            columns[cells.len() - 1].name@,
            cell_json(cells.last()),
        )
    }
}

/// Whether a JSON value is the object of a row.
pub open spec fn is_row(value: JsonValue, columns: Seq<ColumnMeta>, cells: Seq<ArrowCell>) -> bool {
    value matches JsonValue::Object(fields) && object_fields(fields) == row_fields(columns, cells)
}

/// The rows of all batches, one batch after another.
pub open spec fn all_rows(batches: Seq<Vec<Vec<ArrowCell>>>) -> Seq<Vec<ArrowCell>>
    decreases batches.len(),
{
    if batches.len() == 0 {
        Seq::empty()
    } else {
        all_rows(batches.drop_last()) + batches.last()@
    }
}

/// Whether the JSON values are the rows of a query result, in their order.
pub open spec fn are_rows(rows: Seq<JsonValue>, result: ArrowResult) -> bool {
    &&& rows.len() == all_rows(result.batches@).len()
    &&& forall|i: int| #![trigger rows[i]]
        0 <= i < rows.len() ==> is_row(rows[i], result.columns@, all_rows(result.batches@)[i]@)
}

/// Whether no row has more cells than there are columns.
pub open spec fn fits_columns(result: ArrowResult) -> bool {
    forall|b: int, r: int|
        #![trigger result.batches@[b]@[r]]
        0 <= b < result.batches@.len() && 0 <= r < result.batches@[b]@.len()
            ==> result.batches@[b]@[r]@.len() <= result.columns@.len()
}

fn float_to_json(cell: FloatCell) -> (value: JsonValue)
    ensures
        value@ == float_json(cell),
{
    match cell.number {
        Some(n) => JsonValue::Number(n),
        None => JsonValue::String(cell.text),
    }
}

/// The JSON value of a cell. Integers are written in decimal.
pub fn arrow_value_to_json(cell: ArrowCell) -> (value: JsonValue)
    ensures
        value@ == cell_json(cell),
        cell_integer(cell) matches Some(n) ==> value@ matches Json::Number(number) && number_text(
            number,
        ) == integer_text(n),
{
    match cell {
        ArrowCell::Null => JsonValue::Null,
        ArrowCell::Boolean(b) => JsonValue::Bool(b),
        ArrowCell::Int8(n) => JsonValue::Number(number_from_signed(n as i64)),
        ArrowCell::Int16(n) => JsonValue::Number(number_from_signed(n as i64)),
        ArrowCell::Int32(n) => JsonValue::Number(number_from_signed(n as i64)),
        ArrowCell::Int64(n) => JsonValue::Number(number_from_signed(n)),
        ArrowCell::UInt8(n) => JsonValue::Number(number_from_unsigned(n as u64)),
        ArrowCell::UInt16(n) => JsonValue::Number(number_from_unsigned(n as u64)),
        ArrowCell::UInt32(n) => JsonValue::Number(number_from_unsigned(n as u64)),
        ArrowCell::UInt64(n) => JsonValue::Number(number_from_unsigned(n)),
        ArrowCell::Float32(f) => float_to_json(f),
        ArrowCell::Float64(f) => float_to_json(f),
        ArrowCell::Utf8(s) => JsonValue::String(s),
        ArrowCell::LargeUtf8(s) => JsonValue::String(s),
        ArrowCell::Other(Some(s)) => JsonValue::String(s),
        ArrowCell::Other(None) => JsonValue::String("?".to_string()),
    }
}

/// The JSON object of a row.
pub fn row_to_json(columns: &Vec<ColumnMeta>, cells: Vec<ArrowCell>) -> (value: JsonValue)
    requires
        cells@.len() <= columns@.len(),
    ensures
        is_row(value, columns@, cells@),
{
    let mut object = object_new();
    let mut i: usize = 0;
    let width: usize = columns.len();
    let ghost all = cells@;
    for cell in iter: cells
        invariant
            iter.seq() == all,
            width == columns@.len(),
            i == iter.index(),
            all.len() <= columns@.len(),
            object_fields(object) == row_fields(columns@, all.take(i as int)),
    {
        assert(all.take(i + 1).drop_last() =~= all.take(i as int));
        set_field(&mut object, columns[i].name.as_str(), arrow_value_to_json(cell));
        i = i + 1;
    }
    assert(all.take(i as int) =~= all);
    JsonValue::Object(object)
}

/// The columns of a query result, and its rows as JSON objects in the order of the batches.
pub fn rows_to_json(result: ArrowResult) -> (out: (Vec<ColumnMeta>, Vec<JsonValue>))
    requires
        fits_columns(result),
    ensures
        out.0 == result.columns,
        are_rows(out.1@, result),
{
    let columns = result.columns;
    let mut rows: Vec<JsonValue> = Vec::new();
    let ghost batches = result.batches@;
    for batch in outer: result.batches
        invariant
            outer.seq() == batches,
            columns@ == result.columns@,
            fits_columns(result),
            batches == result.batches@,
            rows@.len() == all_rows(batches.take(outer.index() as int)).len(),
            forall|i: int| #![trigger rows@[i]]
                0 <= i < rows@.len() ==> is_row(
                    rows@[i],
                    columns@,
                    all_rows(batches.take(outer.index() as int))[i]@,
                ),
    {
        let ghost done = all_rows(batches.take(outer.index() as int));
        let ghost lines = batch@;
        assert(batches.take(outer.index() + 1).drop_last() =~= batches.take(outer.index() as int));
        assert(lines == batches[outer.index() as int]@);
        for cells in inner: batch
            invariant
                inner.seq() == lines,
                forall|r: int| 0 <= r < lines.len() ==> (#[trigger] lines[r])@.len() <= columns@.len(),
                rows@.len() == done.len() + inner.index(),
                forall|i: int| #![trigger rows@[i]]
                    0 <= i < rows@.len() ==> is_row(rows@[i], columns@, (done + lines)[i]@),
        {
            rows.push(row_to_json(&columns, cells));
        }
    }
    assert(batches.take(batches.len() as int) =~= batches);
    (columns, rows)
}

/// A row has a field for every column that it has a cell for, and no other.
pub proof fn law_row_has_the_column_names(columns: Seq<ColumnMeta>, cells: Seq<ArrowCell>, name: Seq<char>)
    requires
        cells.len() <= columns.len(),
    ensures
        row_fields(columns, cells).contains_key(name) <==> exists|i: int|
            0 <= i < cells.len() && (#[trigger] columns[i]).name@ == name,
    decreases cells.len(),
{
    if cells.len() > 0 {
        let front = cells.drop_last();
        law_row_has_the_column_names(columns, front, name);
        if columns[cells.len() - 1].name@ != name && row_fields(columns, front).contains_key(name) {
            let i = choose|i: int| 0 <= i < front.len() && (#[trigger] columns[i]).name@ == name;
            assert(columns[i].name@ == name);
        }
    }
}

/// The field of a column holds the cell of that column, unless a later column
/// has the same name.
pub proof fn law_last_column_of_a_name_counts(
    columns: Seq<ColumnMeta>,
    cells: Seq<ArrowCell>,
    i: int,
)
    requires
        0 <= i < cells.len() <= columns.len(),
        forall|j: int| i < j < cells.len() ==> (#[trigger] columns[j]).name@ != columns[i].name@,
    ensures
        row_fields(columns, cells).contains_key(columns[i].name@),
        row_fields(columns, cells)[columns[i].name@] == cell_json(cells[i]),
    decreases cells.len(),
{
    if i < cells.len() - 1 {
        assert(columns[cells.len() - 1].name@ != columns[i].name@);
        law_last_column_of_a_name_counts(columns, cells.drop_last(), i);
    }
}

}
