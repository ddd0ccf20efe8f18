//! Laws of the JSON rows of a query result.
use crate::engine::duckdb_client::QueryRows;
use crate::engine::rows::{
    all_rows, arrow_value_to_json, fits_columns, is_row, law_last_column_of_a_name_counts,
    law_row_has_the_column_names, row_to_json, rows_to_json, ArrowCell, ArrowResult, FloatCell,
};
use crate::engine::{DuckDbParquetEngine, EngineVariant, QueryAction, QueryEvent};
use crate::json::{integer_number, number_text, object_fields, Json, JsonValue};
use crate::laws::text::{decimal_value, law_integer_text_reads_back};
use crate::server::protocol::ColumnMeta;
use vstd::prelude::*;

verus! {

/// A cell gives null exactly if it is null, a truth value exactly if it holds one, and
/// never an array or an object.
pub proof fn law_kind_of_a_cell(cell: ArrowCell, value: JsonValue)
    requires
        call_ensures(arrow_value_to_json, (cell,), value),
    ensures
        value@ is Null <==> cell is Null,
        value@ is Bool <==> cell is Boolean,
        cell matches ArrowCell::Boolean(b) ==> value@ == Json::Bool(b),
        !(value@ is Array) && !(value@ is Object),
{
}

/// A floating-point cell of either width gives its number if it has one, and else the
/// string of its text.
pub proof fn law_float_cell(float: FloatCell, cell: ArrowCell, value: JsonValue)
    requires
        cell == ArrowCell::Float32(float) || cell == ArrowCell::Float64(float),
        call_ensures(arrow_value_to_json, (cell,), value),
    ensures
        float.number matches Some(n) ==> value@ == Json::Number(n),
        float.number is None ==> value@ == Json::String(float.text@),
{
}

/// Whether a cell holds an integer.
pub open spec fn holds_integer(cell: ArrowCell, n: int) -> bool {
    match cell {
        ArrowCell::Int8(m) => m == n,
        ArrowCell::Int16(m) => m == n,
        ArrowCell::Int32(m) => m == n,
        ArrowCell::Int64(m) => m == n,
        ArrowCell::UInt8(m) => m == n,
        ArrowCell::UInt16(m) => m == n,
        ArrowCell::UInt32(m) => m == n,
        ArrowCell::UInt64(m) => m == n,
        _ => false,
    }
}

/// An integer cell of any width gives a number that is written in decimal and reads
/// back as the integer; cells with the same integer give the same number.
pub proof fn law_integer_cell(
    cell: ArrowCell,
    other: ArrowCell,
    n: int,
    value: JsonValue,
    other_value: JsonValue,
)
    requires
        holds_integer(cell, n),
        holds_integer(other, n),
        call_ensures(arrow_value_to_json, (cell,), value),
        call_ensures(arrow_value_to_json, (other,), other_value),
    ensures
        value@ matches Json::Number(number) && number == integer_number(n) && (n >= 0
            ==> decimal_value(number_text(number)) == n) && (n < 0 ==> number_text(number)[0] == '-'
            && decimal_value(number_text(number).skip(1)) == -n),
        value@ == other_value@,
{
    law_integer_text_reads_back(n);
}

/// A cell of text gives the string of all of its text. A cell of another type gives
/// the text that it is displayed with, or a question mark if it cannot be displayed.
pub proof fn law_text_cell(text: String, cell: ArrowCell, value: JsonValue)
    requires
        call_ensures(arrow_value_to_json, (cell,), value),
    ensures
        cell == ArrowCell::Utf8(text) || cell == ArrowCell::LargeUtf8(text) || cell
            == ArrowCell::Other(Some(text)) ==> value@ == Json::String(text@),
        cell == ArrowCell::Other(None) ==> value@ == Json::String("?"@),
{
}

/// A row is an object with a field for the name of every column that it has a cell
/// for, and no other. The field holds what the cell gives; of columns with the same
/// name the last counts.
pub proof fn law_row_holds_its_cells(
    columns: Vec<ColumnMeta>,
    cells: Vec<ArrowCell>,
    row: JsonValue,
    i: int,
    value: JsonValue,
    name: Seq<char>,
)
    requires
        cells@.len() <= columns@.len(),
        call_ensures(row_to_json, (&columns, cells), row),
        0 <= i < cells@.len(),
        call_ensures(arrow_value_to_json, (cells@[i],), value),
    ensures
        row@ is Object,
        object_fields(row@->Object_0).contains_key(name) <==> exists|k: int|
            0 <= k < cells@.len() && (#[trigger] columns@[k]).name@ == name,
        (forall|j: int|
            i < j < cells@.len() ==> (#[trigger] columns@[j]).name@ != columns@[i].name@)
            ==> object_fields(row@->Object_0)[columns@[i].name@] == value@,
{
    law_row_has_the_column_names(columns@, cells@, name);
    if forall|j: int|
        i < j < cells@.len() ==> (#[trigger] columns@[j]).name@ != columns@[i].name@ {
        law_last_column_of_a_name_counts(columns@, cells@, i);
    }
}

/// The number of rows in the first `b` batches.
pub open spec fn rows_before(batches: Seq<Vec<Vec<ArrowCell>>>, b: int) -> nat
    decreases b,
{
    if b <= 0 {
        0
    } else {
        rows_before(batches, b - 1) + batches[b - 1]@.len()
    }
}

proof fn lemma_row_position(batches: Seq<Vec<Vec<ArrowCell>>>, b: int, r: int)
    requires
        0 <= b < batches.len(),
        0 <= r < batches[b]@.len(),
    ensures
        rows_before(batches, b) + r < all_rows(batches).len(),
        all_rows(batches)[rows_before(batches, b) + r] == batches[b]@[r],
    decreases batches.len(),
{
    let front = batches.drop_last();
    lemma_row_total(front);
    lemma_rows_before(batches, front, b);
    if b < front.len() {
        lemma_row_position(front, b, r);
    } else {
        lemma_rows_before(batches, front, front.len() as int);
    }
}

proof fn lemma_rows_before(a: Seq<Vec<Vec<ArrowCell>>>, b: Seq<Vec<Vec<ArrowCell>>>, n: int)
    requires
        n <= a.len(),
        n <= b.len(),
        forall|i: int| 0 <= i < n ==> a[i] == b[i],
    ensures
        rows_before(a, n) == rows_before(b, n),
    decreases n,
{
    if n > 0 {
        lemma_rows_before(a, b, n - 1);
    }
}

proof fn lemma_row_total(batches: Seq<Vec<Vec<ArrowCell>>>)
    ensures
        all_rows(batches).len() == rows_before(batches, batches.len() as int),
    decreases batches.len(),
{
    if batches.len() > 0 {
        let front = batches.drop_last();
        lemma_row_total(front);
        lemma_rows_before(batches, front, front.len() as int);
    }
}

/// A query result keeps its columns, and gives as many rows as its batches have, batch
/// after batch: the row at each place is what the row of that batch gives by itself.
pub proof fn law_result_keeps_its_rows(
    result: ArrowResult,
    out: QueryRows,
    b: int,
    r: int,
    row: JsonValue,
)
    requires
        fits_columns(result),
        call_ensures(rows_to_json, (result,), out),
        0 <= b < result.batches@.len(),
        0 <= r < result.batches@[b]@.len(),
        call_ensures(row_to_json, (&result.columns, result.batches@[b]@[r]), row),
    ensures
        out.0 == result.columns,
        out.1@.len() == rows_before(result.batches@, result.batches@.len() as int),
        rows_before(result.batches@, b) + r < out.1@.len(),
        out.1@[rows_before(result.batches@, b) + r]@ is Object,
        row@ is Object,
        object_fields(out.1@[rows_before(result.batches@, b) + r]@->Object_0) == object_fields(
            row@->Object_0,
        ),
{
    lemma_row_total(result.batches@);
    lemma_row_position(result.batches@, b, r);
    let k = rows_before(result.batches@, b) + r;
    assert(is_row(out.1@[k], result.columns@, all_rows(result.batches@)[k]@));
}

/// An engine in this process gives the rows of what was executed, and its error if it
/// failed.
pub proof fn law_inline_engine_gives_the_result(
    engine: DuckDbParquetEngine,
    result: ArrowResult,
    error: String,
    rows: QueryRows,
    given: Result<QueryRows, String>,
    failed: Result<QueryRows, String>,
)
    requires
        fits_columns(result),
        call_ensures(rows_to_json, (result,), rows),
        call_ensures(DuckDbParquetEngine::query_json, (&engine, Ok(result)), given),
        call_ensures(DuckDbParquetEngine::query_json, (&engine, Err(error)), failed),
    ensures
        given is Ok,
        given->Ok_0.0@ == rows.0@,
        given->Ok_0.1@.len() == rows.1@.len(),
        forall|i: int| #![trigger given->Ok_0.1@[i]]
            0 <= i < rows.1@.len() ==> object_fields(given->Ok_0.1@[i]@->Object_0) == object_fields(
                rows.1@[i]@->Object_0,
            ),
        failed == Err::<QueryRows, String>(error),
{
    assert forall|i: int| #![trigger given->Ok_0.1@[i]] 0 <= i < rows.1@.len() implies object_fields(
        given->Ok_0.1@[i]@->Object_0,
    ) == object_fields(rows.1@[i]@->Object_0) by {
        assert(is_row(rows.1@[i], result.columns@, all_rows(result.batches@)[i]@));
    }
}

/// An engine in this process executes the very statement that it is given, and ends
/// with what came of it; it asks no server.
pub proof fn law_inline_query_executes_the_statement(
    engine: DuckDbParquetEngine,
    sql: &str,
    executed: Result<ArrowResult, String>,
    first: QueryAction,
    last: QueryAction,
    given: Result<QueryRows, String>,
)
    requires
        executed matches Ok(arrow) ==> fits_columns(arrow),
        call_ensures(
            EngineVariant::query_json,
            (&EngineVariant::Inline(engine), sql, QueryEvent::Started),
            first,
        ),
        call_ensures(
            EngineVariant::query_json,
            (&EngineVariant::Inline(engine), sql, QueryEvent::Executed(executed)),
            last,
        ),
        call_ensures(DuckDbParquetEngine::query_json, (&engine, executed), given),
    ensures
        first matches QueryAction::Execute { sql: text } && text@ == sql@,
        last is Finish,
        last->Finish_0 is Ok <==> executed is Ok,
        executed matches Err(e) ==> last == QueryAction::Finish(Err(e)),
        executed matches Ok(arrow) ==> last->Finish_0->Ok_0.0@ == arrow.columns@
            && last->Finish_0->Ok_0.1@.len() == given->Ok_0.1@.len(),
{
}

}
