//! Laws of the command that runs a query.
use crate::cli::output::{describes, is_document, query_document, query_json_text};
use crate::cli::query::{
    cmd_query_parquet, command_answers, is_query_run, query_summary, CommandAction, CommandEvent,
    QueryCommand,
};
use crate::cli::table::print_table;
use crate::cli::unresolved_message;
use crate::engine::duckdb_client::DuckDbClientEngine;
use crate::engine::{DuckDbParquetEngine, EngineVariant};
use crate::json::{
    array_items, integer_number, models, object_fields, pretty_text, value_model, Json, JsonValue,
};
use crate::laws::text::{decimal_value, law_decimal_digits_read_back};
use crate::server::protocol::ColumnMeta;
use crate::text::{decimal_digits, texts};
use vstd::prelude::*;

verus! {

/// Whether a value is an object of exactly two fields: the name of the column and
/// the name of its type.
pub open spec fn tells_column(value: serde_json::Value, column: ColumnMeta) -> bool {
    &&& value_model(value) matches Json::Object(object)
    &&& forall|field: Seq<char>| #[trigger]
        object_fields(object).contains_key(field) <==> field == "name"@ || field == "data_type"@
    &&& object_fields(object)["name"@] == Json::String(column.name@)
    &&& object_fields(object)["data_type"@] == Json::String(column.data_type@)
}

/// Whether an object has exactly four fields: the columns and the rows, one by one and
/// in order, the number of rows, and the time that the query took.
pub open spec fn tells_result(
    object: serde_json::Map<String, serde_json::Value>,
    columns: Seq<ColumnMeta>,
    rows: Seq<JsonValue>,
    query_time_ms: serde_json::Number,
) -> bool {
    let fields = object_fields(object);
    &&& forall|field: Seq<char>| #[trigger]
        fields.contains_key(field) <==> field == "columns"@ || field == "rows"@ || field
            == "row_count"@ || field == "query_time_ms"@
    &&& fields["columns"@] matches Json::Array(shown) && shown.len() == columns.len() && (forall|
        i: int,
    |
        0 <= i < columns.len() ==> tells_column(#[trigger] shown[i], columns[i]))
    &&& fields["rows"@] matches Json::Array(shown) && shown.len() == rows.len() && (forall|i: int|
        0 <= i < rows.len() ==> value_model(#[trigger] shown[i]) == rows[i]@)
    &&& fields["row_count"@] == Json::Number(integer_number(rows.len() as int))
    &&& fields["query_time_ms"@] == Json::Number(query_time_ms)
}

/// The document of a query result tells all its columns and all its rows, and nothing
/// else.
pub proof fn law_document_tells_the_result(
    columns: Vec<ColumnMeta>,
    rows: Vec<JsonValue>,
    query_time_ms: serde_json::Number,
    object: serde_json::Map<String, serde_json::Value>,
)
    requires
        call_ensures(query_document, (columns, rows, query_time_ms), object),
    ensures
        tells_result(object, columns@, rows@, query_time_ms),
{
    lemma_document(columns@, rows@, query_time_ms, object);
}

proof fn lemma_document(
    columns: Seq<ColumnMeta>,
    rows: Seq<JsonValue>,
    query_time_ms: serde_json::Number,
    object: serde_json::Map<String, serde_json::Value>,
)
    requires
        is_document(object, columns, rows, query_time_ms),
    ensures
        tells_result(object, columns, rows, query_time_ms),
{
    let fields = object_fields(object);
    reveal_strlit("name");
    reveal_strlit("data_type");
    assert("name"@.len() == 4 && "data_type"@.len() == 9);
    let shown = fields["columns"@]->Array_0;
    let items = array_items(shown);
    assert forall|i: int| 0 <= i < columns.len() implies tells_column(#[trigger] shown[i], columns[i]) by {
        assert(describes(items[i], columns[i]));
        assert(items[i] == value_model(shown[i]));
    }
    let shown = fields["rows"@]->Array_0;
    let items = array_items(shown);
    assert(items.len() == shown.len());
    assert forall|i: int| 0 <= i < rows.len() implies value_model(#[trigger] shown[i]) == rows[i]@ by {
        assert(items[i] == value_model(shown[i]));
        assert(models(rows)[i] == rows[i]@);
    }
}

/// The JSON text of a query result is the text of a document that tells it.
pub proof fn law_json_text_tells_the_result(
    columns: Vec<ColumnMeta>,
    rows: Vec<JsonValue>,
    query_time_ms: serde_json::Number,
    text: String,
)
    requires
        call_ensures(query_json_text, (columns, rows, query_time_ms), text),
    ensures
        exists|object: serde_json::Map<String, serde_json::Value>| #[trigger]
            tells_result(object, columns@, rows@, query_time_ms) && text@ == pretty_text(
                Json::Object(object),
            ),
{
    let object = choose|object: serde_json::Map<String, serde_json::Value>| #[trigger]
        is_document(object, columns@, rows@, query_time_ms) && text@
            == pretty_text(Json::Object(object));
    lemma_document(columns@, rows@, query_time_ms, object);
}

/// A query that succeeded is printed in the form that was asked for, whatever engine
/// answered it: as JSON exactly with the flag, and then as the text of a document that
/// tells just these columns and rows; as the table of these columns and rows exactly
/// without the flag.
pub proof fn law_result_is_printed_as_asked(
    command: QueryCommand,
    columns: Vec<ColumnMeta>,
    rows: Vec<JsonValue>,
    remote: bool,
    query_time_ms: serde_json::Number,
    elapsed_ms: String,
    action: CommandAction,
    table: Vec<String>,
    row_count: usize,
    elapsed: &str,
    below: String,
)
    requires
        call_ensures(
            cmd_query_parquet,
            (
                &command,
                CommandEvent::QueryRun {
                    outcome: Ok((columns, rows)),
                    remote,
                    query_time_ms,
                    elapsed_ms,
                },
            ),
            action,
        ),
        call_ensures(print_table, (&columns, &rows), table),
        row_count == rows@.len(),
        elapsed@ == elapsed_ms@,
        call_ensures(query_summary, (row_count, elapsed, remote), below),
    ensures
        action is PrintJson <==> command.json,
        action is PrintTable <==> !command.json,
        command.json ==> exists|object: serde_json::Map<String, serde_json::Value>| #[trigger]
            tells_result(object, columns@, rows@, query_time_ms) && action->text@ == pretty_text(
                Json::Object(object),
            ),
        !command.json ==> action->lines@.len() == table@.len(),
        !command.json ==> forall|k: int|
            0 <= k < table@.len() ==> (#[trigger] action->lines@[k])@ == table@[k]@,
        !command.json ==> action->summary@ == below@,
{
    if command.json {
        let text = action->text@;
        let object = choose|object: serde_json::Map<String, serde_json::Value>| #[trigger]
            is_document(object, columns@, rows@, query_time_ms) && text
                == pretty_text(Json::Object(object));
        lemma_document(columns@, rows@, query_time_ms, object);
    } else {
        let lines = action->lines@;
        assert(texts(lines).len() == lines.len());
        assert(texts(table@).len() == table@.len());
        assert forall|k: int| 0 <= k < table@.len() implies (#[trigger] lines[k])@ == table@[k]@ by {
            assert(texts(lines)[k] == lines[k]@);
            assert(texts(table@)[k] == table@[k]@);
        }
    }
}

/// In every run of the command, wherever a query has succeeded, JSON is printed exactly
/// with the flag and a table exactly without it.
pub proof fn law_every_run_prints_as_asked(
    command: QueryCommand,
    events: Seq<CommandEvent>,
    actions: Seq<CommandAction>,
    i: int,
)
    requires
        is_query_run(command, events, actions),
        0 <= i < events.len(),
    ensures
        (events[i] is QueryRun && events[i]->outcome is Ok) <==> actions[i] is PrintJson
            || actions[i] is PrintTable,
        actions[i] is PrintJson ==> command.json,
        actions[i] is PrintTable ==> !command.json,
        actions[i] is PrintJson || actions[i] is PrintTable ==> i > 0 && actions[i - 1] is RunQuery
            && actions[i - 1]->sql@ == command.sql@ && events[i]->remote == (
        actions[i - 1]->RunQuery_engine is Remote),
{
    assert(command.runs(events[i], actions[i]));
    if i > 0 {
        assert(command_answers(actions[i - 1], events[i]));
        assert(command.runs(events[i - 1], actions[i - 1]));
    }
}

/// The line below a table tells the number of rows, the time, and whether a server
/// answered.
pub proof fn law_summary_tells_rows_time_and_server(
    row_count: usize,
    elapsed_ms: &str,
    remote: bool,
    text: String,
)
    requires
        call_ensures(query_summary, (row_count, elapsed_ms, remote), text),
    ensures
        decimal_value(decimal_digits(row_count as nat)) == row_count,
        remote ==> text@ == "\n"@ + decimal_digits(row_count as nat) + " row(s) in "@ + elapsed_ms@
            + "ms"@ + " (via server)"@,
        !remote ==> text@ == "\n"@ + decimal_digits(row_count as nat) + " row(s) in "@ + elapsed_ms@
            + "ms"@,
{
    law_decimal_digits_read_back(row_count as nat);
    reveal_strlit("");
    if !remote {
        assert(text@ =~= "\n"@ + decimal_digits(row_count as nat) + " row(s) in "@ + elapsed_ms@
            + "ms"@);
    }
}

/// The command resolves the given path if no server may be used, and opens an engine
/// for it otherwise. The engine that it gets runs the whole statement. A line is logged
/// exactly if that engine is a running server.
pub proof fn law_command_runs_the_statement(
    command: QueryCommand,
    resolved: String,
    built: DuckDbParquetEngine,
    client: DuckDbClientEngine,
    first: CommandAction,
    second: CommandAction,
    own: CommandAction,
    inline: CommandAction,
    remote: CommandAction,
)
    requires
        call_ensures(cmd_query_parquet, (&command, CommandEvent::Started), first),
        call_ensures(cmd_query_parquet, (&command, CommandEvent::Resolved(Ok(resolved))), second),
        call_ensures(cmd_query_parquet, (&command, CommandEvent::InlineBuilt(Ok(built))), own),
        call_ensures(
            cmd_query_parquet,
            (&command, CommandEvent::EngineOpened(Ok(EngineVariant::Inline(built)))),
            inline,
        ),
        call_ensures(
            cmd_query_parquet,
            (&command, CommandEvent::EngineOpened(Ok(EngineVariant::Remote(client)))),
            remote,
        ),
    ensures
        command.no_server ==> first is Resolve && first->Resolve_parquet_dir@
            == command.parquet_dir@,
        !command.no_server ==> first is OpenEngine && first->OpenEngine_parquet_dir@
            == command.parquet_dir@,
        second is BuildInline && second->BuildInline_parquet_dir@ == resolved@,
        own is RunQuery && own->RunQuery_engine == EngineVariant::Inline(built) && own->sql@
            == command.sql@ && own->log is None,
        inline is RunQuery && inline->RunQuery_engine == EngineVariant::Inline(built)
            && inline->sql@ == command.sql@ && inline->log is None,
        remote is RunQuery && remote->RunQuery_engine == EngineVariant::Remote(client)
            && remote->sql@ == command.sql@ && remote->log is Some && remote->log->0@
            == "Connected to running server"@,
{
}

/// Each failure ends the program with code 1 and a message that tells what failed and
/// the whole error.
pub proof fn law_failures_are_told(
    command: QueryCommand,
    e: String,
    remote: bool,
    query_time_ms: serde_json::Number,
    elapsed_ms: String,
    unresolved: CommandAction,
    unbuilt: CommandAction,
    unopened: CommandAction,
    unanswered: CommandAction,
)
    requires
        call_ensures(cmd_query_parquet, (&command, CommandEvent::Resolved(Err(e))), unresolved),
        call_ensures(cmd_query_parquet, (&command, CommandEvent::InlineBuilt(Err(e))), unbuilt),
        call_ensures(cmd_query_parquet, (&command, CommandEvent::EngineOpened(Err(e))), unopened),
        call_ensures(
            cmd_query_parquet,
            (
                &command,
                CommandEvent::QueryRun { outcome: Err(e), remote, query_time_ms, elapsed_ms },
            ),
            unanswered,
        ),
    ensures
        unresolved is Exit && unresolved->code == 1 && unresolved->message@
            == "Error: cannot resolve path "@ + command.parquet_dir@ + ": "@ + e@,
        unbuilt is Exit && unbuilt->code == 1 && unbuilt->message@ == "Error creating engine: "@
            + e@,
        unopened is Exit && unopened->code == 1 && unopened->message@ == "Error: "@ + e@,
        unanswered is Exit && unanswered->code == 1 && unanswered->message@ == "Query error: "@
            + e@,
{
}

/// The message of an unresolved path names the path and the error.
pub proof fn law_unresolved_path_is_named(path: &str, error: &str, text: String)
    requires
        call_ensures(unresolved_message, (path, error), text),
    ensures
        text@ == "Error: cannot resolve path "@ + path@ + ": "@ + error@,
{
}

}
