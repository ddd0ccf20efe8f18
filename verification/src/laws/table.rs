//! Laws of the table of a query result.
use crate::cli::table::{
    all_texts, cell_line, cells_of, column_width, format_json_value, layout, layout_table, names_of,
    print_table, row_texts, rule_line, widths_of,
};
use crate::json::{compact_text, number_text, object_fields, Json, JsonValue};
use crate::laws::text::law_padding_adds_blanks;
use crate::server::protocol::ColumnMeta;
use crate::text::{joined, padded, repeated, texts};
use vstd::prelude::*;
use vstd::utf8::{encode_scalar, encode_utf8};

verus! {

/// Whether a text shows a value: a string as it is, without quotes, null in capitals, a
/// truth value by its word, and all else by its JSON text.
pub open spec fn shows(text: Seq<char>, value: Json) -> bool {
    match value {
        Json::Null => text == "NULL"@,
        Json::String(s) => text == s,
        Json::Bool(b) => text == if b {
            "true"@
        } else {
            "false"@
        },
        Json::Number(n) => text == number_text(n),
        Json::Array(items) => text == compact_text(value),
        Json::Object(fields) => text == compact_text(value),
    }
}

/// A value stands in a table as its kind says.
pub proof fn law_value_is_shown(value: JsonValue, text: String)
    requires
        call_ensures(format_json_value, (&value,), text),
    ensures
        shows(text@, value@),
{
}

/// Whether each width is the largest number of bytes that the name of its column or one
/// of its cells takes in UTF-8.
pub open spec fn are_widths(
    widths: Seq<nat>,
    names: Seq<String>,
    cells: Seq<Vec<String>>,
) -> bool {
    &&& widths.len() == names.len()
    &&& forall|i: int| 0 <= i < names.len() ==> encode_utf8((#[trigger] names[i])@).len() <= widths[i]
    &&& forall|r: int, i: int|
        0 <= r < cells.len() && 0 <= i < names.len() ==> encode_utf8(
            (#[trigger] cells[r]@[i])@,
        ).len() <= widths[i]
    &&& forall|i: int|
        0 <= i < widths.len() ==> encode_utf8(names[i]@).len() == #[trigger] widths[i] || exists|
            r: int,
        |
            0 <= r < cells.len() && encode_utf8((#[trigger] cells[r]@[i])@).len() == widths[i]
}

/// Where a column begins in each line: behind the columns before it, each followed by
/// three characters.
pub open spec fn column_start(widths: Seq<nat>, i: int) -> int
    decreases i,
{
    if i <= 0 {
        0
    } else {
        column_start(widths, i - 1) + widths[i - 1] + 3
    }
}

/// Whether a line shows the texts in their columns: each at the beginning of its column
/// and followed by blanks, with a bar between each two columns and nothing behind the
/// last.
pub open spec fn shows_cells(line: Seq<char>, cells: Seq<String>, widths: Seq<nat>) -> bool {
    let n = widths.len() as int;
    &&& cells.len() == n
    &&& n > 0 ==> line.len() == column_start(widths, n - 1) + widths[n - 1]
    &&& n == 0 ==> line.len() == 0
    &&& forall|i: int, k: int| #![trigger cells[i]@[k]]
        0 <= i < n && 0 <= k < cells[i]@.len() ==> line[column_start(widths, i) + k]
            == cells[i]@[k]
    &&& forall|i: int, k: int| #![trigger cells[i], line[k]]
        0 <= i < n && column_start(widths, i) + cells[i]@.len() <= k < column_start(widths, i)
            + widths[i] ==> line[k] == ' '
    &&& forall|i: int| #![trigger widths[i]]
        0 <= i < n - 1 ==> line.subrange(
            column_start(widths, i) + widths[i],
            column_start(widths, i) + widths[i] + 3,
        ) == " | "@
}

/// Whether a line is ruled: dashes below each column, with a cross below each bar.
pub open spec fn is_ruled(line: Seq<char>, widths: Seq<nat>) -> bool {
    let n = widths.len() as int;
    &&& n > 0 ==> line.len() == column_start(widths, n - 1) + widths[n - 1]
    &&& n == 0 ==> line.len() == 0
    &&& forall|i: int, k: int| #![trigger widths[i], line[k]]
        0 <= i < n && column_start(widths, i) <= k < column_start(widths, i) + widths[i]
            ==> line[k] == '-'
    &&& forall|i: int| #![trigger widths[i]]
        0 <= i < n - 1 ==> line.subrange(
            column_start(widths, i) + widths[i],
            column_start(widths, i) + widths[i] + 3,
        ) == "-+-"@
}

proof fn lemma_starts_grow(widths: Seq<nat>, i: int, j: int)
    requires
        0 <= i < j <= widths.len(),
    ensures
        column_start(widths, i) + widths[i] + 3 <= column_start(widths, j),
        0 <= column_start(widths, i),
    decreases j,
{
    if i > 0 {
        lemma_starts_grow(widths, 0, i);
    }
    if i + 1 < j {
        lemma_starts_grow(widths, i, j - 1);
    }
}

/// The parts stand at the starts of their columns, and the separators between them.
proof fn lemma_parts_stand(parts: Seq<Seq<char>>, widths: Seq<nat>, sep: Seq<char>)
    requires
        sep.len() == 3,
        parts.len() == widths.len(),
        forall|i: int| 0 <= i < parts.len() ==> (#[trigger] parts[i]).len() == widths[i],
    ensures
        parts.len() > 0 ==> joined(parts, sep).len() == column_start(widths, parts.len() - 1)
            + widths[parts.len() - 1],
        parts.len() == 0 ==> joined(parts, sep).len() == 0,
        forall|i: int, k: int| #![trigger parts[i][k]]
            0 <= i < parts.len() && 0 <= k < widths[i] ==> joined(parts, sep)[column_start(
                widths,
                i,
            ) + k] == parts[i][k],
        forall|i: int| #![trigger widths[i]]
            0 <= i < parts.len() - 1 ==> joined(parts, sep).subrange(
                column_start(widths, i) + widths[i],
                column_start(widths, i) + widths[i] + 3,
            ) == sep,
    decreases parts.len(),
{
    let n = parts.len() as int;
    if n == 1 {
        assert(parts[0].len() == widths[0]);
    }
    if n > 1 {
        let front = parts.drop_last();
        let before = widths.drop_last();
        lemma_parts_stand(front, before, sep);
        lemma_same_starts(before, widths, n - 1);
        let line = joined(parts, sep);
        let head = joined(front, sep);
        assert(line == head + sep + parts.last());
        assert(head.len() == column_start(widths, n - 2) + widths[n - 2]);
        assert(column_start(widths, n - 1) == head.len() + 3);
        assert(parts[n - 1].len() == widths[n - 1]);
        assert forall|i: int, k: int| #![trigger parts[i][k]] 0 <= i < n && 0 <= k
            < widths[i] implies line[column_start(widths, i) + k] == parts[i][k] by {
            if i < n - 1 {
                assert(front[i][k] == parts[i][k]);
                lemma_same_starts(before, widths, i);
                lemma_starts_grow(widths, i, n - 1);
                assert(0 <= column_start(widths, i) + k < head.len());
            }
        }
        assert forall|i: int| #![trigger widths[i]] 0 <= i < n - 1 implies line.subrange(
            column_start(widths, i) + widths[i],
            column_start(widths, i) + widths[i] + 3,
        ) == sep by {
            let at = column_start(widths, i) + widths[i];
            lemma_starts_grow(widths, i, n - 1);
            if i < n - 2 {
                assert(before[i] == widths[i]);
                lemma_same_starts(before, widths, i);
                lemma_starts_grow(widths, i, n - 2);
                assert(head.subrange(at, at + 3) == sep);
                assert(line.subrange(at, at + 3) =~= head.subrange(at, at + 3));
            } else {
                assert(line.subrange(at, at + 3) =~= sep);
            }
        }
    }
}

proof fn lemma_same_starts(before: Seq<nat>, widths: Seq<nat>, i: int)
    requires
        i <= before.len() <= widths.len(),
        forall|k: int| 0 <= k < before.len() ==> before[k] == widths[k],
    ensures
        column_start(before, i) == column_start(widths, i),
    decreases i,
{
    if i > 0 {
        lemma_same_starts(before, widths, i - 1);
    }
}

proof fn lemma_bytes_cover(s: Seq<char>)
    ensures
        s.len() <= encode_utf8(s).len(),
    decreases s.len(),
{
    if s.len() > 0 {
        lemma_bytes_cover(s.drop_first());
        assert(encode_scalar(s[0] as u32).len() >= 1);
    }
}

proof fn lemma_width_is_the_largest(names: Seq<Seq<char>>, cells: Seq<Seq<Seq<char>>>, i: int)
    ensures
        encode_utf8(names[i]).len() <= column_width(names, cells, i),
        forall|r: int| #![trigger cells[r]]
            0 <= r < cells.len() ==> encode_utf8(cells[r][i]).len() <= column_width(
                names,
                cells,
                i,
            ),
        encode_utf8(names[i]).len() == column_width(names, cells, i) || exists|r: int|
            #![trigger cells[r]]
            0 <= r < cells.len() && encode_utf8(cells[r][i]).len() == column_width(names, cells, i),
    decreases cells.len(),
{
    if cells.len() > 0 {
        let front = cells.drop_last();
        lemma_width_is_the_largest(names, front, i);
        assert forall|r: int| #![trigger cells[r]] 0 <= r < cells.len() implies encode_utf8(
            cells[r][i],
        ).len() <= column_width(names, cells, i) by {
            if r < front.len() {
                assert(front[r] == cells[r]);
            }
        }
        let last = cells.len() - 1;
        assert(cells[last] == cells.last());
        if column_width(names, cells, i) != encode_utf8(cells[last][i]).len() {
            if encode_utf8(names[i]).len() != column_width(names, cells, i) {
                let r = choose|r: int| #![trigger front[r]]
                    0 <= r < front.len() && encode_utf8(front[r][i]).len() == column_width(
                        names,
                        front,
                        i,
                    );
                assert(front[r] == cells[r]);
            }
        }
    }
}

proof fn lemma_widths_agree(names: Seq<String>, cells: Seq<Vec<String>>, widths: Seq<nat>)
    requires
        forall|r: int| 0 <= r < cells.len() ==> (#[trigger] cells[r])@.len() == names.len(),
        are_widths(widths, names, cells),
    ensures
        widths_of(texts(names), all_texts(cells)) == widths,
{
    let all = all_texts(cells);
    let mine = widths_of(texts(names), all);
    assert forall|i: int| 0 <= i < widths.len() implies mine[i] == widths[i] by {
        lemma_width_is_the_largest(texts(names), all, i);
        assert(texts(names)[i] == names[i]@);
        assert(mine[i] <= widths[i]) by {
            if encode_utf8(names[i]@).len() != mine[i] {
                let r = choose|r: int| #![trigger all[r]]
                    0 <= r < all.len() && encode_utf8(all[r][i]).len() == mine[i];
                assert(all[r] == texts(cells[r]@));
                assert(all[r][i] == cells[r]@[i]@);
            }
        }
        assert(widths[i] <= mine[i]) by {
            if encode_utf8(names[i]@).len() != widths[i] {
                let r = choose|r: int|
                    0 <= r < cells.len() && encode_utf8((#[trigger] cells[r]@[i])@).len()
                        == widths[i];
                assert(all[r] == texts(cells[r]@));
                assert(all[r][i] == cells[r]@[i]@);
            }
        }
    }
    assert(mine =~= widths);
}

proof fn lemma_cell_line(cells: Seq<String>, widths: Seq<nat>)
    requires
        cells.len() == widths.len(),
        forall|i: int| 0 <= i < cells.len() ==> encode_utf8((#[trigger] cells[i])@).len()
            <= widths[i],
    ensures
        shows_cells(cell_line(texts(cells), widths), cells, widths),
{
    reveal_strlit(" | ");
    let n = widths.len() as int;
    let line = cell_line(texts(cells), widths);
    let parts = Seq::new(texts(cells).len(), |i: int| padded(texts(cells)[i], widths[i]));
    assert forall|i: int| 0 <= i < parts.len() implies (#[trigger] parts[i]).len() == widths[i] by {
        law_padding_adds_blanks(cells[i]@, widths[i]);
        lemma_bytes_cover(cells[i]@);
    }
    lemma_parts_stand(parts, widths, " | "@);
    assert forall|i: int, k: int| #![trigger cells[i]@[k]] 0 <= i < n && 0 <= k
        < cells[i]@.len() implies line[column_start(widths, i) + k] == cells[i]@[k] by {
        law_padding_adds_blanks(cells[i]@, widths[i]);
        lemma_bytes_cover(cells[i]@);
        assert(parts[i][k] == parts[i].take(cells[i]@.len() as int)[k]);
    }
    assert forall|i: int, k: int| #![trigger cells[i], line[k]] 0 <= i < n && column_start(
        widths,
        i,
    ) + cells[i]@.len() <= k < column_start(widths, i) + widths[i] implies line[k] == ' ' by {
        law_padding_adds_blanks(cells[i]@, widths[i]);
        lemma_bytes_cover(cells[i]@);
        let at = k - column_start(widths, i);
        assert(parts[i][at] == ' ');
    }
}

/// A table has a line of the names, a rule, and a line for each row, in their order.
/// Every name and every cell stands whole in its column, and the columns are as wide as
/// the longest of them takes in bytes.
pub proof fn law_table_shows_every_cell(
    names: Vec<String>,
    cells: Vec<Vec<String>>,
    widths: Seq<nat>,
    lines: Vec<String>,
)
    requires
        forall|r: int| 0 <= r < cells@.len() ==> (#[trigger] cells@[r])@.len() == names@.len(),
        are_widths(widths, names@, cells@),
        call_ensures(layout_table, (&names, &cells), lines),
    ensures
        lines@.len() == cells@.len() + 2,
        shows_cells(lines@[0]@, names@, widths),
        is_ruled(lines@[1]@, widths),
        forall|r: int|
            0 <= r < cells@.len() ==> shows_cells(lines@[r + 2]@, (#[trigger] cells@[r])@, widths),
{
    let all = all_texts(cells@);
    lemma_widths_agree(names@, cells@, widths);
    assert(texts(lines@).len() == lines@.len());
    assert(texts(lines@) == layout(texts(names@), all));
    assert(texts(lines@)[0] == lines@[0]@);
    assert(texts(lines@)[1] == lines@[1]@);
    lemma_cell_line(names@, widths);
    reveal_strlit("-+-");
    let dashes = Seq::new(widths.len(), |i: int| repeated('-', widths[i]));
    lemma_parts_stand(dashes, widths, "-+-"@);
    let rule = rule_line(widths);
    assert forall|i: int, k: int| #![trigger widths[i], rule[k]] 0 <= i < widths.len()
        && column_start(widths, i) <= k < column_start(widths, i) + widths[i] implies rule[k]
        == '-' by {
        assert(dashes[i][k - column_start(widths, i)] == '-');
    }
    assert forall|r: int| 0 <= r < cells@.len() implies shows_cells(
        lines@[r + 2]@,
        (#[trigger] cells@[r])@,
        widths,
    ) by {
        assert(texts(lines@)[r + 2] == lines@[r + 2]@);
        assert(all[r] == texts(cells@[r]@));
        assert forall|i: int| 0 <= i < cells@[r]@.len() implies encode_utf8(
            (#[trigger] cells@[r]@[i])@,
        ).len() <= widths[i] by {}
        lemma_cell_line(cells@[r]@, widths);
    }
}

/// Whether the indices are those of the rows that are objects, in their order.
pub open spec fn are_objects(indices: Seq<int>, rows: Seq<JsonValue>) -> bool {
    &&& forall|a: int| 0 <= a < indices.len() ==> 0 <= #[trigger] indices[a] < rows.len()
        && rows[indices[a]]@ is Object
    &&& forall|a: int, b: int| 0 <= a < b < indices.len() ==> indices[a] < indices[b]
    &&& forall|r: int|
        0 <= r < rows.len() && (#[trigger] rows[r])@ is Object ==> indices.contains(r)
}

proof fn lemma_cells_are_of_objects(
    columns: Seq<ColumnMeta>,
    rows: Seq<JsonValue>,
    indices: Seq<int>,
)
    requires
        are_objects(indices, rows),
    ensures
        cells_of(columns, rows).len() == indices.len(),
        forall|a: int| #![trigger indices[a]]
            0 <= a < indices.len() ==> cells_of(columns, rows)[a] == row_texts(
                columns,
                object_fields(rows[indices[a]]@->Object_0),
            ),
    decreases rows.len(),
{
    if rows.len() == 0 {
        if indices.len() > 0 {
            assert(0 <= indices[0] < rows.len());
        }
    } else {
        let front = rows.drop_last();
        let last = rows.len() - 1;
        assert(rows[last] == rows.last());
        let before = if rows.last()@ is Object {
            assert(indices.contains(last));
            indices.drop_last()
        } else {
            indices
        };
        if rows.last()@ is Object {
            let a = choose|a: int| 0 <= a < indices.len() && indices[a] == last;
            if a < indices.len() - 1 {
                assert(indices[a] < indices[indices.len() - 1]);
            }
            assert(indices.last() == last);
        }
        assert forall|a: int| 0 <= a < before.len() implies 0 <= #[trigger] before[a] < front.len()
            && front[before[a]]@ is Object by {
            assert(before[a] == indices[a]);
            if rows.last()@ is Object {
                assert(indices[a] < indices[indices.len() - 1]);
            }
            assert(indices[a] != last);
        }
        assert forall|r: int| 0 <= r < front.len() && (#[trigger] front[r])@
            is Object implies before.contains(r) by {
            assert(front[r] == rows[r]);
            assert(indices.contains(r));
            let a = choose|a: int| 0 <= a < indices.len() && indices[a] == r;
            assert(a < before.len() && before[a] == r);
        }
        lemma_cells_are_of_objects(columns, front, before);
        assert forall|a: int| #![trigger indices[a]] 0 <= a < indices.len() implies cells_of(
            columns,
            rows,
        )[a] == row_texts(columns, object_fields(rows[indices[a]]@->Object_0)) by {
            if a < before.len() {
                assert(before[a] == indices[a]);
                assert(front[before[a]] == rows[indices[a]]);
            }
        }
    }
}

/// Whether a text is what stands for a field of an object: its value, or that of null if
/// there is no such field.
pub open spec fn shows_field(text: Seq<char>, object: Json, name: Seq<char>) -> bool {
    &&& object matches Json::Object(fields)
    &&& object_fields(fields).contains_key(name) ==> shows(text, object_fields(fields)[name])
    &&& !object_fields(fields).contains_key(name) ==> text == "NULL"@
}

/// The table of a result with rows is that of the names of its columns and the fields of
/// its rows, each under the column of its name, with a line for each row that is an
/// object.
pub proof fn law_printed_table_is_that_of_the_result(
    columns: Vec<ColumnMeta>,
    rows: Vec<JsonValue>,
    lines: Vec<String>,
    names: Vec<String>,
    indices: Seq<int>,
    cells: Vec<Vec<String>>,
    table: Vec<String>,
)
    requires
        rows@.len() > 0,
        call_ensures(print_table, (&columns, &rows), lines),
        names@.len() == columns@.len(),
        forall|i: int| 0 <= i < columns@.len() ==> (#[trigger] names@[i])@ == columns@[i].name@,
        are_objects(indices, rows@),
        cells@.len() == indices.len(),
        forall|a: int| 0 <= a < cells@.len() ==> (#[trigger] cells@[a])@.len() == columns@.len(),
        forall|a: int, i: int|
            0 <= a < cells@.len() && 0 <= i < columns@.len() ==> shows_field(
                (#[trigger] cells@[a]@[i])@,
                rows@[indices[a]]@,
                columns@[i].name@,
            ),
        call_ensures(layout_table, (&names, &cells), table),
    ensures
        lines@.len() == table@.len(),
        forall|k: int| 0 <= k < table@.len() ==> (#[trigger] lines@[k])@ == table@[k]@,
{
    lemma_cells_are_of_objects(columns@, rows@, indices);
    assert(texts(names@) =~= names_of(columns@));
    let all = all_texts(cells@);
    let mine = cells_of(columns@, rows@);
    assert forall|a: int| 0 <= a < mine.len() implies all[a] == mine[a] by {
        let fields = object_fields(rows@[indices[a]]@->Object_0);
        assert(all[a] == texts(cells@[a]@));
        assert forall|i: int| 0 <= i < columns@.len() implies texts(cells@[a]@)[i] == row_texts(
            columns@,
            fields,
        )[i] by {
            assert(texts(cells@[a]@)[i] == cells@[a]@[i]@);
            assert(shows_field(cells@[a]@[i]@, rows@[indices[a]]@, columns@[i].name@));
        }
        assert(texts(cells@[a]@) =~= row_texts(columns@, fields));
    }
    assert(all =~= mine);
    assert(texts(lines@).len() == lines@.len());
    assert(texts(table@).len() == table@.len());
    assert forall|k: int| 0 <= k < table@.len() implies (#[trigger] lines@[k])@ == table@[k]@ by {
        assert(texts(lines@)[k] == lines@[k]@);
        assert(texts(table@)[k] == table@[k]@);
    }
}

/// A result without rows is told by one line, whatever its columns.
pub proof fn law_empty_result_is_told(columns: Vec<ColumnMeta>, rows: Vec<JsonValue>, lines: Vec<String>)
    requires
        rows@.len() == 0,
        call_ensures(print_table, (&columns, &rows), lines),
    ensures
        lines@.len() == 1,
        lines@[0]@ == "(empty result)"@,
{
    assert(texts(lines@).len() == lines@.len());
    assert(texts(lines@)[0] == lines@[0]@);
}

}
