//! Query engines over a directory of Parquet files.
pub mod choice;
pub mod duckdb_client;
pub mod naming;
pub mod paths;
pub mod rows;
pub mod views;
pub mod wait;

use crate::engine::duckdb_client::{
    exchanges, query_result, ClientAction, ClientEvent, DuckDbClientEngine, QueryRows,
};
use crate::engine::rows::{are_rows, fits_columns, rows_to_json, ArrowResult};
use crate::engine::views::{
    bases_of, creates_views, register_parquet_views, successes, DirEntry, ViewRegistration,
};
use crate::server::protocol::Asked;
use vstd::prelude::*;

pub use crate::engine::choice::{parquet_engine, parquet_engine_auto_serve};
pub use crate::engine::paths::socket_path_for;
pub use crate::engine::wait::wait_for_socket_pub;

verus! {

/// An engine in this process, over the views of a directory.
#[derive(Debug, PartialEq)]
pub struct DuckDbParquetEngine {
    table_count: usize,
    parquet_dir: String,
}

/// The engine that answers queries: one in this process, or a running server.
#[derive(Debug, PartialEq)]
pub enum EngineVariant {
    Inline(DuckDbParquetEngine),
    Remote(DuckDbClientEngine),
}

/// What was done last to open an engine in this process, with what came of it.
#[derive(Debug, PartialEq)]
pub enum OpenEvent {
    Started,
    DatabaseOpened(Result<(), String>),
    /// The resolved path of the directory.
    Resolved(Result<String, String>),
    /// The entries of the directory.
    Listed { parquet_dir: String, entries: Result<Vec<DirEntry>, String> },
    /// Every view was tried.
    Registered { parquet_dir: String, registration: ViewRegistration },
}

/// What to do next to open an engine in this process.
#[derive(Debug, PartialEq)]
pub enum OpenAction {
    OpenDatabase,
    Resolve { dir: String },
    List { parquet_dir: String },
    /// Tries the views one after another.
    Register { parquet_dir: String, registration: ViewRegistration },
    Finish(Result<DuckDbParquetEngine, String>),
}

/// What was done last for a query.
#[derive(Debug, PartialEq)]
pub enum QueryEvent {
    Started,
    Executed(Result<ArrowResult, String>),
    Client(ClientEvent),
}

/// What to do next for a query.
#[derive(Debug, PartialEq)]
pub enum QueryAction {
    Execute { sql: String },
    Client(ClientAction<QueryRows>),
    Finish(Result<QueryRows, String>),
}

/// What an engine in this process makes of the outcome of a statement.
pub open spec fn inline_result(
    executed: Result<ArrowResult, String>,
    result: Result<QueryRows, String>,
) -> bool {
    match executed {
        Ok(arrow) => result matches Ok((columns, rows)) && columns == arrow.columns && are_rows(
            rows@,
            arrow,
        ),
        Err(e) => result == Err::<QueryRows, String>(e),
    }
}

impl DuckDbParquetEngine {
    /// The number of views that were created.
    pub closed spec fn tables(&self) -> usize {
        self.table_count
    }

    /// The text of the path of the directory.
    pub closed spec fn dir(&self) -> Seq<char> {
        self.parquet_dir@
    }

    /// Whether an event can occur: registered is a directory only once every view was tried.
    pub open spec fn admits(event: OpenEvent) -> bool {
        event matches OpenEvent::Registered { parquet_dir, registration } ==> !registration.pending()
    }

    /// The course of opening an engine over the directory at a path: the database is
    /// opened, the path resolved, the directory listed, and a view created for each
    /// base name of its Parquet files. Views that cannot be created are not counted.
    pub open spec fn opens(path: Seq<char>, event: OpenEvent, action: OpenAction) -> bool {
        match event {
            OpenEvent::Started => action == OpenAction::OpenDatabase,
            OpenEvent::DatabaseOpened(Ok(_)) => action matches OpenAction::Resolve { dir } && dir@
                == path,
            OpenEvent::Resolved(Ok(parquet_dir)) => action == (OpenAction::List { parquet_dir }),
            OpenEvent::Listed { parquet_dir, entries: Ok(entries) } => {
                &&& action matches OpenAction::Register { parquet_dir: dir, registration }
                &&& dir == parquet_dir
                &&& creates_views(registration.statements(), entries@)
                &&& registration.outcomes().len() == 0
            },
            OpenEvent::Registered { parquet_dir, registration } => {
                &&& action matches OpenAction::Finish(Ok(engine))
                &&& engine.tables() == successes(registration.outcomes())
                &&& engine.dir() == parquet_dir@
            },
            OpenEvent::DatabaseOpened(Err(e)) | OpenEvent::Resolved(Err(e)) => action
                == OpenAction::Finish(Err(e)),
            OpenEvent::Listed { parquet_dir, entries: Err(e) } => action == OpenAction::Finish(Err(e)),
        }
    }

    /// What to do next to open an engine over a directory.
    pub fn new(dir: &str, event: OpenEvent) -> (action: OpenAction)
        requires
            Self::admits(event),
        ensures
            Self::opens(dir@, event, action),
    {
        match event {
            OpenEvent::Started => OpenAction::OpenDatabase,
            OpenEvent::DatabaseOpened(Ok(_)) => OpenAction::Resolve { dir: dir.to_string() },
            OpenEvent::Resolved(Ok(parquet_dir)) => OpenAction::List { parquet_dir },
            OpenEvent::Listed { parquet_dir, entries: Ok(entries) } => OpenAction::Register {
                parquet_dir,
                registration: register_parquet_views(&entries),
            },
            OpenEvent::Registered { parquet_dir, registration } => OpenAction::Finish(
                Ok(DuckDbParquetEngine { table_count: registration.table_count(), parquet_dir }),
            ),
            OpenEvent::DatabaseOpened(Err(e)) => OpenAction::Finish(Err(e)),
            OpenEvent::Resolved(Err(e)) => OpenAction::Finish(Err(e)),
            OpenEvent::Listed { entries: Err(e), .. } => OpenAction::Finish(Err(e)),
        }
    }

    /// The number of tables that can be queried.
    pub fn table_count(&self) -> (count: usize)
        ensures
            count == self.tables(),
    {
        self.table_count
    }

    /// The directory of the tables.
    pub fn parquet_dir(&self) -> (dir: &str)
        ensures
            dir@ == self.dir(),
    {
        self.parquet_dir.as_str()
    }

    /// The columns and the JSON rows of a statement that was executed, or its error.
    pub fn query_json(&self, executed: Result<ArrowResult, String>) -> (result: Result<
        QueryRows,
        String,
    >)
        requires
            executed matches Ok(arrow) ==> fits_columns(arrow),
        ensures
            inline_result(executed, result),
    {
        match executed {
            Ok(arrow) => Ok(rows_to_json(arrow)),
            Err(e) => Err(e),
        }
    }
}

impl EngineVariant {
    /// Whether an event can occur with this engine.
    pub open spec fn expects(&self, event: QueryEvent) -> bool {
        match event {
            QueryEvent::Started => true,
            QueryEvent::Executed(executed) => self is Inline && (executed matches Ok(arrow)
                ==> fits_columns(arrow)),
            QueryEvent::Client(_) => self is Remote,
        }
    }

    /// The course of a query: executed here, or exchanged with the server.
    pub open spec fn runs(&self, sql: Seq<char>, event: QueryEvent, action: QueryAction) -> bool {
        match self {
            EngineVariant::Inline(_) => match event {
                QueryEvent::Executed(executed) => action matches QueryAction::Finish(result)
                    && inline_result(executed, result),
                _ => action matches QueryAction::Execute { sql: text } && text@ == sql,
            },
            EngineVariant::Remote(client) => {
                let event = match event {
                    QueryEvent::Client(event) => event,
                    _ => ClientEvent::Started,
                };
                &&& action matches QueryAction::Client(action)
                &&& exchanges(client.socket_path@, 60, Asked::Query(sql), event, action)
                &&& event matches ClientEvent::Received { reply, debug } ==> query_result(
                    reply,
                    debug@,
                    action,
                )
            },
        }
    }

    /// What to do next to execute a query.
    pub fn query_json(&self, sql: &str, event: QueryEvent) -> (action: QueryAction)
        requires
            self.expects(event),
        ensures
            self.runs(sql@, event, action),
    {
        match self {
            EngineVariant::Inline(engine) => match event {
                QueryEvent::Executed(executed) => QueryAction::Finish(engine.query_json(executed)),
                _ => QueryAction::Execute { sql: sql.to_string() },
            },
            EngineVariant::Remote(client) => match event {
                QueryEvent::Client(event) => QueryAction::Client(client.query_json(sql, event)),
                _ => QueryAction::Client(client.query_json(sql, ClientEvent::Started)),
            },
        }
    }

    /// Whether a running server answers.
    pub fn is_remote(&self) -> (remote: bool)
        ensures
            remote == (self is Remote),
    {
        match self {
            EngineVariant::Inline(_) => false,
            EngineVariant::Remote(_) => true,
        }
    }
}

/// Whether an event can come of an action: it speaks of the same directory, and the
/// views that were tried are those that were to be created, each of them once.
pub open spec fn open_answers(action: OpenAction, event: OpenEvent) -> bool {
    match action {
        OpenAction::OpenDatabase => event is DatabaseOpened,
        OpenAction::Resolve { dir } => event is Resolved,
        OpenAction::List { parquet_dir } => event matches OpenEvent::Listed {
            parquet_dir: listed,
            entries,
        } && listed == parquet_dir,
        OpenAction::Register { parquet_dir, registration } => {
            &&& event matches OpenEvent::Registered { parquet_dir: registered, registration: done }
            &&& registered == parquet_dir
            &&& done.statements() == registration.statements()
            &&& done.outcomes().len() == done.statements().len()
        },
        OpenAction::Finish(result) => false,
    }
}

/// Whether the events and actions are those of opening an engine, from the beginning on.
pub open spec fn is_opening(
    path: Seq<char>,
    events: Seq<OpenEvent>,
    actions: Seq<OpenAction>,
) -> bool {
    &&& events.len() == actions.len()
    &&& events.len() > 0
    &&& events[0] is Started
    &&& forall|i: int| #![trigger events[i], actions[i]]
        0 <= i < events.len() ==> DuckDbParquetEngine::opens(path, events[i], actions[i])
    &&& forall|i: int, j: int| #![trigger actions[i], events[j]]
        0 <= i && j == i + 1 && j < events.len() ==> open_answers(actions[i], events[j])
}

/// An engine that was opened is over the directory that the path resolved to. A view
/// was tried for every base name of the listed Parquet files, and those that were
/// created are counted.
pub proof fn law_engine_is_over_the_listed_directory(
    path: Seq<char>,
    events: Seq<OpenEvent>,
    actions: Seq<OpenAction>,
    engine: DuckDbParquetEngine,
)
    requires
        is_opening(path, events, actions),
        actions.last() == OpenAction::Finish(Ok(engine)),
    ensures
        events.len() == 5,
        events[2] matches OpenEvent::Resolved(Ok(dir)) && engine.dir() == dir@,
        events[3] matches OpenEvent::Listed { parquet_dir, entries: Ok(entries) } && (
        events[4] matches OpenEvent::Registered { parquet_dir: registered, registration }
            && creates_views(registration.statements(), entries@) && registration.outcomes().len()
            == bases_of(entries@).len() && engine.tables() == successes(registration.outcomes())),
{
    assert(DuckDbParquetEngine::opens(path, events[0], actions[0]));
    if events.len() > 1 {
        assert(open_answers(actions[0], events[1]));
        assert(DuckDbParquetEngine::opens(path, events[1], actions[1]));
    }
    if events.len() > 2 {
        assert(open_answers(actions[1], events[2]));
        assert(DuckDbParquetEngine::opens(path, events[2], actions[2]));
    }
    if events.len() > 3 {
        assert(open_answers(actions[2], events[3]));
        assert(DuckDbParquetEngine::opens(path, events[3], actions[3]));
    }
    if events.len() > 4 {
        assert(open_answers(actions[3], events[4]));
        assert(DuckDbParquetEngine::opens(path, events[4], actions[4]));
    }
    if events.len() > 5 {
        assert(open_answers(actions[4], events[5]));
    }
}

}
