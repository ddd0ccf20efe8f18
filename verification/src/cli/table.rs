//! Query results as a table of text.
use crate::json::{
    json_text, json_to_string, object_fields, object_get, value_from, Json, JsonValue,
};
use crate::server::protocol::ColumnMeta;
use crate::text::{join, joined, padded, push_padded, push_repeated, repeated, texts};
use vstd::prelude::*;
use vstd::utf8::{encode_scalar, encode_utf8};

verus! {

/// The text of a value in a table: strings stand without quotes.
pub open spec fn cell_text(value: Json) -> Seq<char> {
    match value {
        Json::String(s) => s,
        Json::Null => "NULL"@,
        _ => json_text(value),
    }
}

/// The text of a field of a row; a field that is missing counts as null.
pub open spec fn field_text(fields: Map<Seq<char>, Json>, name: Seq<char>) -> Seq<char> {
    if fields.contains_key(name) {
        cell_text(fields[name])
    } else {
        cell_text(Json::Null)
    }
}

/// The names of the columns.
pub open spec fn names_of(columns: Seq<ColumnMeta>) -> Seq<Seq<char>> {
    Seq::new(columns.len(), |i: int| columns[i].name@)
}

/// The texts of a row, in the order of the columns.
pub open spec fn row_texts(columns: Seq<ColumnMeta>, fields: Map<Seq<char>, Json>) -> Seq<Seq<char>> {
    Seq::new(columns.len(), |i: int| field_text(fields, columns[i].name@))
}

/// The texts of the rows. A row that is no object is left out.
pub open spec fn cells_of(columns: Seq<ColumnMeta>, rows: Seq<JsonValue>) -> Seq<Seq<Seq<char>>>
    decreases rows.len(),
{
    if rows.len() == 0 {
        Seq::empty()
    } else {
        let cells = cells_of(columns, rows.drop_last());
        match rows.last()@ {
            Json::Object(row) => cells.push(row_texts(columns, object_fields(row))),
            _ => cells,
        }
    }
}

/// The texts of a list of lists of strings.
pub open spec fn all_texts(lists: Seq<Vec<String>>) -> Seq<Seq<Seq<char>>> {
    Seq::new(lists.len(), |r: int| texts(lists[r]@))
}

/// The length of a text in bytes.
pub open spec fn byte_len(s: Seq<char>) -> nat {
    encode_utf8(s).len()
}

/// The width of column `i`: the most bytes that its name or one of its cells takes.
pub open spec fn column_width(names: Seq<Seq<char>>, cells: Seq<Seq<Seq<char>>>, i: int) -> nat
    decreases cells.len(),
{
    if cells.len() == 0 {
        byte_len(names[i])
    } else {
        let above = column_width(names, cells.drop_last(), i);
        let here = byte_len(cells.last()[i]);
        if above < here {
            here
        } else {
            above
        }
    }
}

/// The widths of the columns.
pub open spec fn widths_of(names: Seq<Seq<char>>, cells: Seq<Seq<Seq<char>>>) -> Seq<nat> {
    Seq::new(names.len(), |i: int| column_width(names, cells, i))
}

/// A line of cells, each padded to the width of its column.
pub open spec fn cell_line(cells: Seq<Seq<char>>, widths: Seq<nat>) -> Seq<char> {
    joined(Seq::new(cells.len(), |i: int| padded(cells[i], widths[i])), " | "@)
}

/// The line below the column names.
pub open spec fn rule_line(widths: Seq<nat>) -> Seq<char> {
    joined(Seq::new(widths.len(), |i: int| repeated('-', widths[i])), "-+-"@)
}

/// The lines of a table: the names, a rule, and the rows.
pub open spec fn layout(names: Seq<Seq<char>>, cells: Seq<Seq<Seq<char>>>) -> Seq<Seq<char>> {
    let widths = widths_of(names, cells);
    seq![cell_line(names, widths), rule_line(widths)] + Seq::new(
        cells.len(),
        |r: int| cell_line(cells[r], widths),
    )
}

/// The lines that are printed for a query result.
pub open spec fn table_lines(columns: Seq<ColumnMeta>, rows: Seq<JsonValue>) -> Seq<Seq<char>> {
    if rows.len() == 0 {
        seq!["(empty result)"@]
    } else {
        layout(names_of(columns), cells_of(columns, rows))
    }
}

spec fn as_nats(widths: Seq<usize>) -> Seq<nat> {
    Seq::new(widths.len(), |i: int| widths[i] as nat)
}

/// The text of a value in a table.
pub fn format_json_value(value: &JsonValue) -> (text: String)
    ensures
        text@ == cell_text(value@),
{
    match value {
        JsonValue::String(s) => s.clone(),
        JsonValue::Null => "NULL".to_string(),
        _ => json_to_string(&value_from(value)),
    }
}

fn format_row(
    columns: &Vec<ColumnMeta>,
    fields: &serde_json::Map<String, serde_json::Value>,
) -> (cells: Vec<String>)
    ensures
        texts(cells@) == row_texts(columns@, object_fields(*fields)),
{
    let mut cells: Vec<String> = Vec::new();
    let mut i: usize = 0;
    while i < columns.len()
        invariant
            i <= columns.len(),
            cells.len() == i,
            forall|k: int| 0 <= k < i ==> (#[trigger] cells@[k])@ == field_text(
                object_fields(*fields),
                columns@[k].name@,
            ),
        decreases columns.len() - i,
    {
        let text = match object_get(fields, columns[i].name.as_str()) {
            Some(value) => format_json_value(&value),
            None => format_json_value(&JsonValue::Null),
        };
        cells.push(text);
        i = i + 1;
    }
    assert(texts(cells@) =~= row_texts(columns@, object_fields(*fields)));
    cells
}

fn compute_widths(names: &Vec<String>, cells: &Vec<Vec<String>>) -> (widths: Vec<usize>)
    requires
        forall|r: int| 0 <= r < cells@.len() ==> (#[trigger] cells@[r])@.len() == names@.len(),
    ensures
        as_nats(widths@) == widths_of(texts(names@), all_texts(cells@)),
{
    let ghost all = all_texts(cells@);
    let mut widths: Vec<usize> = Vec::new();
    let mut i: usize = 0;
    while i < names.len()
        invariant
            i <= names.len(),
            widths.len() == i,
            forall|k: int| 0 <= k < i ==> #[trigger] widths@[k] == byte_len(names@[k]@),
        decreases names.len() - i,
    {
        widths.push(names[i].as_str().as_bytes().len());
        i = i + 1;
    }
    let mut r: usize = 0;
    while r < cells.len()
        invariant
            r <= cells.len(),
            all == all_texts(cells@),
            widths.len() == names.len(),
            forall|k: int| 0 <= k < cells@.len() ==> (#[trigger] cells@[k])@.len() == names@.len(),
            forall|k: int| 0 <= k < widths.len() ==> #[trigger] widths@[k] == column_width(
                texts(names@),
                all.take(r as int),
                k,
            ),
        decreases cells.len() - r,
    {
        let ghost before = all.take(r as int);
        let ghost after = all.take(r + 1);
        assert(after.drop_last() =~= before);
        let row = &cells[r];
        assert(after.last() == texts(row@));
        let mut i: usize = 0;
        while i < row.len()
            invariant
                i <= row.len(),
                row.len() == widths.len(),
                after.len() > 0,
                after.drop_last() == before,
                after.last() == texts(row@),
                forall|k: int| 0 <= k < i ==> #[trigger] widths@[k] == column_width(
                    texts(names@),
                    after,
                    k,
                ),
                forall|k: int| i <= k < widths.len() ==> #[trigger] widths@[k] == column_width(
                    texts(names@),
                    before,
                    k,
                ),
            decreases row.len() - i,
        {
            let len: usize = row[i].as_str().as_bytes().len();
            if widths[i] < len {
                widths.set(i, len);
            }
            i = i + 1;
        }
        r = r + 1;
    }
    assert(all.take(r as int) =~= all);
    assert(as_nats(widths@) =~= widths_of(texts(names@), all));
    widths
}

fn render_cells(cells: &Vec<String>, widths: &Vec<usize>) -> (line: String)
    requires
        cells.len() == widths.len(),
    ensures
        line@ == cell_line(texts(cells@), as_nats(widths@)),
{
    let mut parts: Vec<String> = Vec::new();
    let mut i: usize = 0;
    while i < cells.len()
        invariant
            i <= cells.len(),
            cells.len() == widths.len(),
            parts.len() == i,
            forall|k: int| 0 <= k < i ==> (#[trigger] parts@[k])@ == padded(
                cells@[k]@,
                widths@[k] as nat,
            ),
        decreases cells.len() - i,
    {
        let mut part = String::new();
        push_padded(&mut part, cells[i].as_str(), widths[i]);
        assert(part@ =~= padded(cells@[i as int]@, widths@[i as int] as nat));
        parts.push(part);
        i = i + 1;
    }
    assert(texts(parts@) =~= Seq::new(
        texts(cells@).len(),
        |i: int| padded(texts(cells@)[i], as_nats(widths@)[i]),
    ));
    join(&parts, " | ")
}

fn render_rule(widths: &Vec<usize>) -> (line: String)
    ensures
        line@ == rule_line(as_nats(widths@)),
{
    let mut parts: Vec<String> = Vec::new();
    let mut i: usize = 0;
    while i < widths.len()
        invariant
            i <= widths.len(),
            parts.len() == i,
            forall|k: int| 0 <= k < i ==> (#[trigger] parts@[k])@ == repeated('-', widths@[k] as nat),
        decreases widths.len() - i,
    {
        let mut part = String::new();
        push_repeated(&mut part, '-', widths[i]);
        assert(part@ =~= repeated('-', widths@[i as int] as nat));
        parts.push(part);
        i = i + 1;
    }
    assert(texts(parts@) =~= Seq::new(
        as_nats(widths@).len(),
        |i: int| repeated('-', as_nats(widths@)[i]),
    ));
    join(&parts, "-+-")
}

/// The lines of a table of texts.
pub fn layout_table(names: &Vec<String>, cells: &Vec<Vec<String>>) -> (lines: Vec<String>)
    requires
        forall|r: int| 0 <= r < cells@.len() ==> (#[trigger] cells@[r])@.len() == names@.len(),
    ensures
        texts(lines@) == layout(texts(names@), all_texts(cells@)),
{
    let widths = compute_widths(names, cells);
    let ghost ws = as_nats(widths@);
    assert(ws.len() == widths.len());
    let mut lines: Vec<String> = Vec::new();
    lines.push(render_cells(names, &widths));
    lines.push(render_rule(&widths));
    let ghost top = seq![cell_line(texts(names@), ws), rule_line(ws)];
    let mut r: usize = 0;
    while r < cells.len()
        invariant
            r <= cells.len(),
            widths.len() == names.len(),
            ws == as_nats(widths@),
            top.len() == 2,
            forall|k: int| 0 <= k < cells@.len() ==> (#[trigger] cells@[k])@.len() == names@.len(),
            texts(lines@) =~= top + Seq::new(
                r as nat,
                |k: int| cell_line(all_texts(cells@)[k], ws),
            ),
        decreases cells.len() - r,
    {
        let ghost before = lines@;
        let line = render_cells(&cells[r], &widths);
        lines.push(line);
        assert(texts(lines@) =~= texts(before).push(line@));
        r = r + 1;
    }
    lines
}

/// The lines of the table that is printed for a query result.
pub fn print_table(columns: &Vec<ColumnMeta>, rows: &Vec<JsonValue>) -> (lines: Vec<String>)
    ensures
        texts(lines@) == table_lines(columns@, rows@),
{
    if rows.len() == 0 {
        let mut lines: Vec<String> = Vec::new();
        lines.push("(empty result)".to_string());
        assert(texts(lines@) =~= table_lines(columns@, rows@));
        return lines;
    }
    let mut names: Vec<String> = Vec::new();
    let mut i: usize = 0;
    while i < columns.len()
        invariant
            i <= columns.len(),
            names.len() == i,
            forall|k: int| 0 <= k < i ==> (#[trigger] names@[k])@ == columns@[k].name@,
        decreases columns.len() - i,
    {
        names.push(columns[i].name.clone());
        i = i + 1;
    }
    assert(texts(names@) =~= names_of(columns@));
    let mut cells: Vec<Vec<String>> = Vec::new();
    let mut r: usize = 0;
    while r < rows.len()
        invariant
            r <= rows.len(),
            all_texts(cells@) =~= cells_of(columns@, rows@.take(r as int)),
            forall|k: int| 0 <= k < cells@.len() ==> (#[trigger] cells@[k])@.len() == columns@.len(),
        decreases rows.len() - r,
    {
        let ghost after = rows@.take(r + 1);
        assert(after.drop_last() =~= rows@.take(r as int));
        if let JsonValue::Object(fields) = &rows[r] {
            let row = format_row(columns, fields);
            assert(row@.len() == texts(row@).len());
            let ghost before = cells@;
            cells.push(row);
            assert(all_texts(cells@) =~= all_texts(before).push(texts(row@)));
        }
        r = r + 1;
    }
    assert(rows@.take(r as int) =~= rows@);
    layout_table(&names, &cells)
}

proof fn lemma_at_least_one_byte_each(s: Seq<char>)
    ensures
        s.len() <= byte_len(s),
    decreases s.len(),
{
    if s.len() > 0 {
        lemma_at_least_one_byte_each(s.drop_first());
        assert(encode_scalar(s[0] as u32).len() >= 1);
    }
}

proof fn lemma_width_covers(names: Seq<Seq<char>>, cells: Seq<Seq<Seq<char>>>, i: int)
    ensures
        names[i].len() <= column_width(names, cells, i),
        forall|r: int| 0 <= r < cells.len() ==> (#[trigger] cells[r])[i].len() <= column_width(
            names,
            cells,
            i,
        ),
    decreases cells.len(),
{
    lemma_at_least_one_byte_each(names[i]);
    if cells.len() > 0 {
        let front = cells.drop_last();
        lemma_width_covers(names, front, i);
        lemma_at_least_one_byte_each(cells.last()[i]);
        assert forall|r: int| 0 <= r < cells.len() implies (#[trigger] cells[r])[i].len()
            <= column_width(names, cells, i) by {
            if r < front.len() {
                assert(cells[r] == front[r]);
            }
        }
    }
}

proof fn lemma_joined_lengths(a: Seq<Seq<char>>, b: Seq<Seq<char>>, s: Seq<char>, t: Seq<char>)
    requires
        a.len() == b.len(),
        s.len() == t.len(),
        forall|i: int| 0 <= i < a.len() ==> (#[trigger] a[i]).len() == b[i].len(),
    ensures
        joined(a, s).len() == joined(b, t).len(),
    decreases a.len(),
{
    if a.len() > 1 {
        lemma_joined_lengths(a.drop_last(), b.drop_last(), s, t);
        assert(a[a.len() - 1].len() == b[b.len() - 1].len());
    } else if a.len() == 1 {
        assert(a[0].len() == b[0].len());
    }
}

proof fn lemma_line_length(cells: Seq<Seq<char>>, widths: Seq<nat>)
    requires
        cells.len() == widths.len(),
        forall|i: int| 0 <= i < cells.len() ==> (#[trigger] cells[i]).len() <= widths[i],
    ensures
        cell_line(cells, widths).len() == rule_line(widths).len(),
{
    reveal_strlit(" | ");
    reveal_strlit("-+-");
    let a = Seq::new(cells.len(), |i: int| padded(cells[i], widths[i]));
    let b = Seq::new(widths.len(), |i: int| repeated('-', widths[i]));
    assert forall|i: int| 0 <= i < a.len() implies (#[trigger] a[i]).len() == b[i].len() by {
        assert(cells[i].len() <= widths[i]);
    }
    lemma_joined_lengths(a, b, " | "@, "-+-"@);
}

/// All lines of a table have the same number of characters.
pub proof fn law_table_lines_align(names: Seq<Seq<char>>, cells: Seq<Seq<Seq<char>>>, k: int)
    requires
        forall|r: int| 0 <= r < cells.len() ==> (#[trigger] cells[r]).len() == names.len(),
        0 <= k < layout(names, cells).len(),
    ensures
        layout(names, cells)[k].len() == layout(names, cells)[0].len(),
{
    let widths = widths_of(names, cells);
    assert forall|i: int| 0 <= i < names.len() implies (#[trigger] names[i]).len() <= widths[i] by {
        lemma_width_covers(names, cells, i);
    }
    lemma_line_length(names, widths);
    if k >= 2 {
        let row = cells[k - 2];
        assert forall|i: int| 0 <= i < row.len() implies (#[trigger] row[i]).len() <= widths[i] by {
            lemma_width_covers(names, cells, i);
        }
        lemma_line_length(row, widths);
    }
}

proof fn lemma_cells_have_columns(columns: Seq<ColumnMeta>, rows: Seq<JsonValue>)
    ensures
        forall|r: int|
            0 <= r < cells_of(columns, rows).len() ==> (#[trigger] cells_of(columns, rows)[r]).len()
                == columns.len(),
    decreases rows.len(),
{
    if rows.len() > 0 {
        let front = cells_of(columns, rows.drop_last());
        lemma_cells_have_columns(columns, rows.drop_last());
        assert forall|r: int| 0 <= r < cells_of(columns, rows).len() implies (
        #[trigger] cells_of(columns, rows)[r]).len() == columns.len() by {
            if r < front.len() {
                assert(cells_of(columns, rows)[r] == front[r]);
            }
        }
    }
}

/// All lines that are printed for a query result have the same number of characters.
pub proof fn law_printed_lines_align(columns: Seq<ColumnMeta>, rows: Seq<JsonValue>, k: int)
    requires
        0 <= k < table_lines(columns, rows).len(),
    ensures
        table_lines(columns, rows)[k].len() == table_lines(columns, rows)[0].len(),
{
    if rows.len() > 0 {
        lemma_cells_have_columns(columns, rows);
        law_table_lines_align(names_of(columns), cells_of(columns, rows), k);
    }
}

/// The table of a result whose rows are objects, and are not none, has the line
/// of the names, the rule, and a line for each row.
pub proof fn law_table_has_a_line_per_row(columns: Seq<ColumnMeta>, rows: Seq<JsonValue>)
    requires
        rows.len() > 0,
        forall|r: int| 0 <= r < rows.len() ==> (#[trigger] rows[r])@ is Object,
    ensures
        table_lines(columns, rows).len() == rows.len() + 2,
{
    lemma_cells_per_row(columns, rows);
}

proof fn lemma_cells_per_row(columns: Seq<ColumnMeta>, rows: Seq<JsonValue>)
    requires
        forall|r: int| 0 <= r < rows.len() ==> (#[trigger] rows[r])@ is Object,
    ensures
        cells_of(columns, rows).len() == rows.len(),
    decreases rows.len(),
{
    if rows.len() > 0 {
        assert(rows[rows.len() - 1]@ is Object);
        assert forall|r: int| 0 <= r < rows.drop_last().len() implies (
        #[trigger] rows.drop_last()[r])@ is Object by {
            assert(rows[r]@ is Object);
        }
        lemma_cells_per_row(columns, rows.drop_last());
    }
}

}
