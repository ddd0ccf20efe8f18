//! The command that runs a query over a directory.
use crate::cli::output::{is_document_text, query_json_text};
use crate::cli::table::{print_table, table_lines};
use crate::cli::{prefixed, unresolved_message, unresolved_text};
use crate::engine::duckdb_client::QueryRows;
use crate::engine::{DuckDbParquetEngine, EngineVariant};
use crate::text::{decimal_digits, push_decimal, texts};
use vstd::prelude::*;

verus! {

/// What the command was asked for.
#[derive(Debug, PartialEq)]
pub struct QueryCommand {
    /// The directory, as it was given.
    pub parquet_dir: String,
    /// The statement to run.
    pub sql: String,
    /// Output as JSON.
    pub json: bool,
    /// Use an engine in this process, whether a server runs or not.
    pub no_server: bool,
}

/// What was done last, with what came of it.
#[derive(Debug, PartialEq)]
pub enum CommandEvent {
    Started,
    /// The resolved path of the directory.
    Resolved(Result<String, String>),
    /// The engine in this process.
    InlineBuilt(Result<DuckDbParquetEngine, String>),
    /// The engine that was chosen, a server being started for a large directory.
    EngineOpened(Result<EngineVariant, String>),
    /// The outcome of the query, whether a server answered it, and how many
    /// milliseconds it took, as a number and as a text of one decimal place.
    QueryRun {
        outcome: Result<QueryRows, String>,
        remote: bool,
        query_time_ms: serde_json::Number,
        elapsed_ms: String,
    },
}

/// What to do next.
#[derive(Debug, PartialEq)]
pub enum CommandAction {
    /// Resolves the path.
    Resolve { parquet_dir: String },
    /// Opens an engine in this process over the directory.
    BuildInline { parquet_dir: String },
    /// Chooses an engine for the directory, starting a server if it is large.
    OpenEngine { parquet_dir: String },
    /// Logs the line, if there is one, and runs the statement on the engine.
    RunQuery { engine: EngineVariant, sql: String, log: Option<String> },
    PrintJson { text: String },
    /// Prints the lines, then logs the summary.
    PrintTable { lines: Vec<String>, summary: String },
    /// Logs the message and ends the program with the code.
    Exit { code: i32, message: String },
}

/// The line below a table.
pub open spec fn summary_text(row_count: nat, elapsed_ms: Seq<char>, remote: bool) -> Seq<char> {
    "\n"@ + decimal_digits(row_count) + " row(s) in "@ + elapsed_ms + "ms"@ + if remote {
        " (via server)"@
    } else {
        ""@
    }
}

/// Whether an action ends the program with code 1 and that message.
pub open spec fn exits_with(action: CommandAction, text: Seq<char>) -> bool {
    action matches CommandAction::Exit { code, message } && code == 1 && message@ == text
}

/// The line below a table.
pub fn query_summary(row_count: usize, elapsed_ms: &str, remote: bool) -> (text: String)
    ensures
        text@ == summary_text(row_count as nat, elapsed_ms@, remote),
{
    let mut text = "\n".to_string();
    push_decimal(&mut text, row_count as u128);
    text.append(" row(s) in ");
    text.append(elapsed_ms);
    text.append("ms");
    if remote {
        text.append(" (via server)");
    }
    proof {
        reveal_strlit("");
        assert(text@ =~= summary_text(row_count as nat, elapsed_ms@, remote));
    }
    text
}

impl QueryCommand {
    /// The course of the command.
    pub open spec fn runs(&self, event: CommandEvent, action: CommandAction) -> bool {
        match event {
            CommandEvent::Started => if self.no_server {
                action matches CommandAction::Resolve { parquet_dir } && parquet_dir@
                    == self.parquet_dir@
            } else {
                action matches CommandAction::OpenEngine { parquet_dir } && parquet_dir@
                    == self.parquet_dir@
            },
            CommandEvent::Resolved(Ok(parquet_dir)) => action == (CommandAction::BuildInline {
                parquet_dir,
            }),
            CommandEvent::Resolved(Err(e)) => exits_with(
                action,
                unresolved_text(self.parquet_dir@, e@),
            ),
            CommandEvent::InlineBuilt(Ok(opened)) => {
                &&& action matches CommandAction::RunQuery { engine, sql, log }
                &&& engine == EngineVariant::Inline(opened)
                &&& sql@ == self.sql@
                &&& log is None
            },
            CommandEvent::InlineBuilt(Err(e)) => exits_with(action, "Error creating engine: "@ + e@),
            CommandEvent::EngineOpened(Ok(opened)) => {
                &&& action matches CommandAction::RunQuery { engine, sql, log }
                &&& engine == opened
                &&& sql@ == self.sql@
                &&& opened is Inline ==> log is None
                &&& opened is Remote ==> log is Some && log->0@ == "Connected to running server"@
            },
            CommandEvent::EngineOpened(Err(e)) => exits_with(action, "Error: "@ + e@),
            CommandEvent::QueryRun { outcome: Err(e), remote, query_time_ms, elapsed_ms } =>
                exits_with(action, "Query error: "@ + e@),
            CommandEvent::QueryRun {
                outcome: Ok((columns, rows)),
                remote,
                query_time_ms,
                elapsed_ms,
            } => if self.json {
                action matches CommandAction::PrintJson { text } && is_document_text(
                    text@,
                    columns@,
                    rows@,
                    query_time_ms,
                )
            } else {
                &&& action matches CommandAction::PrintTable { lines, summary }
                &&& texts(lines@) == table_lines(columns@, rows@)
                &&& summary@ == summary_text(rows@.len(), elapsed_ms@, remote)
            },
        }
    }
}

/// What the command does next.
pub fn cmd_query_parquet(command: &QueryCommand, event: CommandEvent) -> (action: CommandAction)
    ensures
        command.runs(event, action),
{
    match event {
        CommandEvent::Started => {
            let parquet_dir = command.parquet_dir.clone();
            if command.no_server {
                CommandAction::Resolve { parquet_dir }
            } else {
                CommandAction::OpenEngine { parquet_dir }
            }
        },
        CommandEvent::Resolved(Ok(parquet_dir)) => CommandAction::BuildInline { parquet_dir },
        CommandEvent::Resolved(Err(e)) => CommandAction::Exit {
            code: 1,
            message: unresolved_message(command.parquet_dir.as_str(), e.as_str()),
        },
        CommandEvent::InlineBuilt(Ok(engine)) => CommandAction::RunQuery {
            engine: EngineVariant::Inline(engine),
            sql: command.sql.clone(),
            log: None,
        },
        CommandEvent::InlineBuilt(Err(e)) => CommandAction::Exit {
            code: 1,
            message: prefixed("Error creating engine: ", e.as_str()),
        },
        CommandEvent::EngineOpened(Ok(engine)) => {
            let log = if engine.is_remote() {
                Some("Connected to running server".to_string())
            } else {
                None
            };
            CommandAction::RunQuery { engine, sql: command.sql.clone(), log }
        },
        CommandEvent::EngineOpened(Err(e)) => CommandAction::Exit {
            code: 1,
            message: prefixed("Error: ", e.as_str()),
        },
        CommandEvent::QueryRun { outcome: Err(e), .. } => CommandAction::Exit {
            code: 1,
            message: prefixed("Query error: ", e.as_str()),
        },
        CommandEvent::QueryRun {
            outcome: Ok((columns, rows)),
            remote,
            query_time_ms,
            elapsed_ms,
        } => {
            let row_count: usize = rows.len();
            if command.json {
                CommandAction::PrintJson { text: query_json_text(columns, rows, query_time_ms) }
            } else {
                CommandAction::PrintTable {
                    lines: print_table(&columns, &rows),
                    summary: query_summary(row_count, elapsed_ms.as_str(), remote),
                }
            }
        },
    }
}

/// Whether an event can come of an action.
pub open spec fn command_answers(action: CommandAction, event: CommandEvent) -> bool {
    match action {
        CommandAction::Resolve { parquet_dir } => event is Resolved,
        CommandAction::BuildInline { parquet_dir } => event is InlineBuilt,
        CommandAction::OpenEngine { parquet_dir } => event is EngineOpened,
        CommandAction::RunQuery { engine, sql, log } => event is QueryRun && event->remote == (engine is Remote),
        _ => false,
    }
}

/// Whether the events and actions are those of the command, from its beginning on.
pub open spec fn is_query_run(
    command: QueryCommand,
    events: Seq<CommandEvent>,
    actions: Seq<CommandAction>,
) -> bool {
    &&& events.len() == actions.len()
    &&& events.len() > 0
    &&& events[0] is Started
    &&& forall|i: int| #![trigger events[i], actions[i]]
        0 <= i < events.len() ==> command.runs(events[i], actions[i])
    &&& forall|i: int, j: int| #![trigger actions[i], events[j]]
        0 <= i && j == i + 1 && j < events.len() ==> command_answers(actions[i], events[j])
}

proof fn lemma_query_run_shape(
    command: QueryCommand,
    events: Seq<CommandEvent>,
    actions: Seq<CommandAction>,
)
    requires
        is_query_run(command, events, actions),
    ensures
        events.len() <= 4,
        events.len() > 1 ==> if command.no_server {
            events[1] is Resolved
        } else {
            events[1] is EngineOpened
        },
        events.len() > 2 ==> if command.no_server {
            events[2] is InlineBuilt
        } else {
            events[2] is QueryRun && events.len() == 3
        },
        events.len() > 3 ==> events[3] is QueryRun,
{
    assert(command.runs(events[0], actions[0]));
    if events.len() > 1 {
        assert(command_answers(actions[0], events[1]));
        assert(command.runs(events[1], actions[1]));
    }
    if events.len() > 2 {
        assert(command_answers(actions[1], events[2]));
        assert(command.runs(events[2], actions[2]));
    }
    if events.len() > 3 {
        assert(command_answers(actions[2], events[3]));
        assert(command.runs(events[3], actions[3]));
    }
    if events.len() > 4 {
        assert(command_answers(actions[3], events[4]));
    }
}

/// Without a server, the query is run by an engine in this process only.
pub proof fn law_no_server_means_inline(
    command: QueryCommand,
    events: Seq<CommandEvent>,
    actions: Seq<CommandAction>,
    i: int,
)
    requires
        is_query_run(command, events, actions),
        command.no_server,
        0 <= i < actions.len(),
    ensures
        !(actions[i] is OpenEngine),
        actions[i] matches CommandAction::RunQuery { engine, sql, log } ==> engine is Inline,
        events[i] is QueryRun ==> !events[i]->remote,
{
    lemma_query_run_shape(command, events, actions);
    assert(command.runs(events[i], actions[i]));
    if i > 0 {
        assert(command_answers(actions[i - 1], events[i]));
        assert(command.runs(events[i - 1], actions[i - 1]));
    }
}

/// What is run is the statement that was asked for, and it is run once at most.
pub proof fn law_only_the_given_statement_is_run(
    command: QueryCommand,
    events: Seq<CommandEvent>,
    actions: Seq<CommandAction>,
    i: int,
)
    requires
        is_query_run(command, events, actions),
        0 <= i < actions.len(),
        actions[i] is RunQuery,
    ensures
        actions[i]->sql@ == command.sql@,
        forall|j: int| 0 <= j < actions.len() && j != i ==> !((#[trigger] actions[j]) is RunQuery),
{
    lemma_query_run_shape(command, events, actions);
    assert(command.runs(events[i], actions[i]));
    assert forall|j: int| 0 <= j < actions.len() && j != i implies !((#[trigger] actions[j])
        is RunQuery) by {
        assert(command.runs(events[j], actions[j]));
    }
}

/// Whatever fails, the program ends with code 1; a result is printed otherwise.
pub proof fn law_failure_ends_with_code_one(
    command: QueryCommand,
    event: CommandEvent,
    action: CommandAction,
)
    requires
        command.runs(event, action),
    ensures
        action is Exit <==> match event {
            CommandEvent::Started => false,
            CommandEvent::Resolved(outcome) => outcome is Err,
            CommandEvent::InlineBuilt(outcome) => outcome is Err,
            CommandEvent::EngineOpened(outcome) => outcome is Err,
            CommandEvent::QueryRun { outcome, remote, query_time_ms, elapsed_ms } => outcome is Err,
        },
        action matches CommandAction::Exit { code, message } ==> code == 1,
{
}

}
