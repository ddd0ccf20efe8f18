//! One connection to the server: a request is read, answered, and that is all.
use crate::engine::duckdb_client::{
    ping_result, query_result, status_result, ClientAction, DuckDbClientEngine, QueryRows,
    ServerStatus,
};
use crate::engine::DuckDbParquetEngine;
use crate::server::protocol::{Request, Response};
use vstd::prelude::*;

verus! {

/// What was done last on a connection, with what came of it.
#[derive(Debug, PartialEq)]
pub enum ConnectionEvent {
    Accepted,
    BlockingSet(Result<(), String>),
    TimeoutSet(Result<(), String>),
    MessageRead(Result<Vec<u8>, String>),
    RequestParsed(Result<Request, String>),
    QueryRun { outcome: Result<QueryRows, String>, query_time_ms: serde_json::Number },
    UptimeRead { secs: u64 },
    /// The answer was sent, or could not be, which does not matter.
    Answered { shutdown: bool },
}

/// What to do next on a connection.
#[derive(Debug, PartialEq)]
pub enum ConnectionAction {
    SetBlocking,
    SetReadTimeout { secs: u64 },
    ReadMessage,
    ParseRequest { message: Vec<u8> },
    RunQuery { sql: String },
    ReadUptime,
    /// Sends the response; `shutdown` comes back with the event that it was sent.
    Answer { response: Response, shutdown: bool },
    /// Logs a line, if there is one, and closes; `shutdown` ends the server.
    Close { log: Option<String>, shutdown: bool },
}

/// How long the server waits for a request, in seconds.
pub const REQUEST_SECS: u64 = 30;

/// Whether an action closes the connection, logging that text, and the server goes on.
pub open spec fn drops_with(action: ConnectionAction, text: Seq<char>) -> bool {
    action matches ConnectionAction::Close { log: Some(line), shutdown } && line@ == text && !shutdown
}

/// Whether an action answers with that error, and the server goes on.
pub open spec fn answers_error(action: ConnectionAction, text: Seq<char>) -> bool {
    action matches ConnectionAction::Answer { response: Response::Error { message }, shutdown }
        && message@ == text && !shutdown
}

/// What the server does about a request that could be parsed.
pub open spec fn takes_request(request: Request, action: ConnectionAction) -> bool {
    match request {
        Request::Query { sql } => action == (ConnectionAction::RunQuery { sql }),
        Request::Ping => action == (ConnectionAction::Answer {
            response: Response::Pong,
            shutdown: false,
        }),
        Request::Status => action == ConnectionAction::ReadUptime,
        Request::Shutdown => action == (ConnectionAction::Answer {
            response: Response::Pong,
            shutdown: true,
        }),
    }
}

/// What the server answers to a query.
pub open spec fn answers_query(
    outcome: Result<QueryRows, String>,
    query_time_ms: serde_json::Number,
    action: ConnectionAction,
) -> bool {
    match outcome {
        Ok((columns, rows)) => action == (ConnectionAction::Answer {
            response: Response::Result { columns, rows, row_count: rows.len(), query_time_ms },
            shutdown: false,
        }),
        Err(e) => answers_error(action, e@),
    }
}

/// The course of a connection to the server of an engine.
pub open spec fn handles(
    engine: DuckDbParquetEngine,
    event: ConnectionEvent,
    action: ConnectionAction,
) -> bool {
    match event {
        ConnectionEvent::Accepted => action == ConnectionAction::SetBlocking,
        ConnectionEvent::BlockingSet(Ok(_)) => action == (ConnectionAction::SetReadTimeout {
            secs: REQUEST_SECS,
        }),
        ConnectionEvent::BlockingSet(Err(e)) => drops_with(action, "set_nonblocking error: "@ + e@),
        ConnectionEvent::TimeoutSet(Ok(_)) => action == ConnectionAction::ReadMessage,
        ConnectionEvent::TimeoutSet(Err(e)) => drops_with(action, "set_read_timeout error: "@ + e@),
        ConnectionEvent::MessageRead(Ok(message)) => action == (ConnectionAction::ParseRequest {
            message,
        }),
        ConnectionEvent::MessageRead(Err(e)) => drops_with(action, "Read error: "@ + e@),
        ConnectionEvent::RequestParsed(Ok(request)) => takes_request(request, action),
        ConnectionEvent::RequestParsed(Err(e)) => answers_error(action, "Invalid request: "@ + e@),
        ConnectionEvent::QueryRun { outcome, query_time_ms } => answers_query(
            outcome,
            query_time_ms,
            action,
        ),
        ConnectionEvent::UptimeRead { secs } => action matches ConnectionAction::Answer {
            response: Response::Status { table_count, parquet_dir, uptime_secs },
            shutdown,
        } && table_count == engine.tables() && parquet_dir@ == engine.dir() && uptime_secs == secs
            && !shutdown,
        ConnectionEvent::Answered { shutdown: false } => action == (ConnectionAction::Close {
            log: None,
            shutdown: false,
        }),
        ConnectionEvent::Answered { shutdown: true } => action matches ConnectionAction::Close {
            log: Some(line),
            shutdown,
        } && line@ == "Shutdown requested"@ && shutdown,
    }
}

fn close_with(prefix: &str, error: &str) -> (action: ConnectionAction)
    ensures
        drops_with(action, prefix@ + error@),
{
    let mut line = prefix.to_string();
    line.append(error);
    ConnectionAction::Close { log: Some(line), shutdown: false }
}

/// What to do next on a connection to the server of an engine.
pub fn next_on_connection(engine: &DuckDbParquetEngine, event: ConnectionEvent) -> (action:
    ConnectionAction)
    ensures
        handles(*engine, event, action),
{
    match event {
        ConnectionEvent::Accepted => ConnectionAction::SetBlocking,
        ConnectionEvent::BlockingSet(Ok(_)) => ConnectionAction::SetReadTimeout {
            secs: REQUEST_SECS,
        },
        ConnectionEvent::BlockingSet(Err(e)) => close_with("set_nonblocking error: ", e.as_str()),
        ConnectionEvent::TimeoutSet(Ok(_)) => ConnectionAction::ReadMessage,
        ConnectionEvent::TimeoutSet(Err(e)) => close_with("set_read_timeout error: ", e.as_str()),
        ConnectionEvent::MessageRead(Ok(message)) => ConnectionAction::ParseRequest { message },
        ConnectionEvent::MessageRead(Err(e)) => close_with("Read error: ", e.as_str()),
        ConnectionEvent::RequestParsed(Err(e)) => {
            let mut message = "Invalid request: ".to_string();
            message.append(e.as_str());
            ConnectionAction::Answer { response: Response::Error { message }, shutdown: false }
        },
        ConnectionEvent::RequestParsed(Ok(Request::Query { sql })) => ConnectionAction::RunQuery {
            sql,
        },
        ConnectionEvent::RequestParsed(Ok(Request::Ping)) => ConnectionAction::Answer {
            response: Response::Pong,
            shutdown: false,
        },
        ConnectionEvent::RequestParsed(Ok(Request::Status)) => ConnectionAction::ReadUptime,
        ConnectionEvent::RequestParsed(Ok(Request::Shutdown)) => ConnectionAction::Answer {
            response: Response::Pong,
            shutdown: true,
        },
        ConnectionEvent::QueryRun { outcome: Ok((columns, rows)), query_time_ms } => {
            let row_count: usize = rows.len();
            ConnectionAction::Answer {
                response: Response::Result { columns, rows, row_count, query_time_ms },
                shutdown: false,
            }
        },
        ConnectionEvent::QueryRun { outcome: Err(message), query_time_ms: _ } =>
            ConnectionAction::Answer { response: Response::Error { message }, shutdown: false },
        ConnectionEvent::UptimeRead { secs } => ConnectionAction::Answer {
            response: Response::Status {
                table_count: engine.table_count(),
                parquet_dir: engine.parquet_dir().to_string(),
                uptime_secs: secs,
            },
            shutdown: false,
        },
        ConnectionEvent::Answered { shutdown: false } => ConnectionAction::Close {
            log: None,
            shutdown: false,
        },
        ConnectionEvent::Answered { shutdown: true } => ConnectionAction::Close {
            log: Some("Shutdown requested".to_string()),
            shutdown: true,
        },
    }
}

/// Whether an event can come of an action.
pub open spec fn connection_answers(action: ConnectionAction, event: ConnectionEvent) -> bool {
    match action {
        ConnectionAction::SetBlocking => event is BlockingSet,
        ConnectionAction::SetReadTimeout { secs } => event is TimeoutSet,
        ConnectionAction::ReadMessage => event is MessageRead,
        ConnectionAction::ParseRequest { message } => event is RequestParsed,
        ConnectionAction::RunQuery { sql } => event is QueryRun,
        ConnectionAction::ReadUptime => event is UptimeRead,
        ConnectionAction::Answer { response, shutdown } => event == (ConnectionEvent::Answered {
            shutdown,
        }),
        ConnectionAction::Close { log, shutdown } => false,
    }
}

/// Whether the events and actions are those of a connection, from its beginning on.
pub open spec fn is_connection(
    engine: DuckDbParquetEngine,
    events: Seq<ConnectionEvent>,
    actions: Seq<ConnectionAction>,
) -> bool {
    &&& events.len() == actions.len()
    &&& events.len() > 0
    &&& events[0] is Accepted
    &&& forall|i: int| #![trigger events[i], actions[i]]
        0 <= i < events.len() ==> handles(engine, events[i], actions[i])
    &&& forall|i: int, j: int| #![trigger actions[i], events[j]]
        0 <= i && j == i + 1 && j < events.len() ==> connection_answers(actions[i], events[j])
}

proof fn lemma_connection_shape(
    engine: DuckDbParquetEngine,
    events: Seq<ConnectionEvent>,
    actions: Seq<ConnectionAction>,
)
    requires
        is_connection(engine, events, actions),
    ensures
        events.len() <= 7,
        events.len() > 1 ==> events[1] is BlockingSet,
        events.len() > 2 ==> events[2] is TimeoutSet,
        events.len() > 3 ==> events[3] is MessageRead,
        events.len() > 4 ==> events[4] is RequestParsed,
        events.len() > 5 ==> events[5] is Answered || events[5] is QueryRun || events[5] is UptimeRead,
        events.len() > 6 ==> events[6] is Answered && !(events[5] is Answered),
{
    assert(handles(engine, events[0], actions[0]));
    if events.len() > 1 {
        assert(connection_answers(actions[0], events[1]));
        assert(handles(engine, events[1], actions[1]));
    }
    if events.len() > 2 {
        assert(connection_answers(actions[1], events[2]));
        assert(handles(engine, events[2], actions[2]));
    }
    if events.len() > 3 {
        assert(connection_answers(actions[2], events[3]));
        assert(handles(engine, events[3], actions[3]));
    }
    if events.len() > 4 {
        assert(connection_answers(actions[3], events[4]));
        assert(handles(engine, events[4], actions[4]));
    }
    if events.len() > 5 {
        assert(connection_answers(actions[4], events[5]));
        assert(handles(engine, events[5], actions[5]));
    }
    if events.len() > 6 {
        assert(connection_answers(actions[5], events[6]));
        assert(handles(engine, events[6], actions[6]));
    }
    if events.len() > 7 {
        assert(connection_answers(actions[6], events[7]));
    }
}

/// Every message that is read and parsed, validly or not, is answered exactly
/// once before the connection closes; without one, nothing is answered.
pub proof fn law_every_request_is_answered_once(
    engine: DuckDbParquetEngine,
    events: Seq<ConnectionEvent>,
    actions: Seq<ConnectionAction>,
)
    requires
        is_connection(engine, events, actions),
        actions.last() is Close,
    ensures
        events.len() > 4 ==> {
            &&& events[4] is RequestParsed
            &&& actions[actions.len() - 2] is Answer
            &&& forall|i: int|
                0 <= i < actions.len() && (#[trigger] actions[i]) is Answer ==> i == actions.len() - 2
        },
        events.len() <= 4 ==> forall|i: int|
            0 <= i < actions.len() ==> !((#[trigger] actions[i]) is Answer),
{
    lemma_connection_shape(engine, events, actions);
    let n = events.len() as int;
    assert forall|i: int| 0 <= i < n && (#[trigger] actions[i]) is Close implies i == n - 1 by {
        if i < n - 1 {
            assert(connection_answers(actions[i], events[i + 1]));
        }
    }
    assert forall|i: int| 0 <= i < n && (#[trigger] actions[i]) is Answer implies i >= 4 by {
        assert(handles(engine, events[i], actions[i]));
    }
    assert(handles(engine, events[n - 1], actions[n - 1]));
    if n > 4 {
        assert(connection_answers(actions[n - 2], events[n - 1]));
        assert(handles(engine, events[n - 2], actions[n - 2]));
        assert forall|i: int| 0 <= i < n && (#[trigger] actions[i]) is Answer implies i == n - 2 by {
            if i < n - 1 {
                assert(connection_answers(actions[i], events[i + 1]));
            }
        }
    }
}

/// A connection ends the server exactly if its request was to shut down.
pub proof fn law_only_a_shutdown_request_ends_the_server(
    engine: DuckDbParquetEngine,
    events: Seq<ConnectionEvent>,
    actions: Seq<ConnectionAction>,
)
    requires
        is_connection(engine, events, actions),
        actions.last() is Close,
    ensures
        actions.last()->Close_shutdown <==> events.len() > 4 && events[4]
            == ConnectionEvent::RequestParsed(Ok(Request::Shutdown)),
{
    lemma_connection_shape(engine, events, actions);
    let n = events.len() as int;
    assert(handles(engine, events[n - 1], actions[n - 1]));
    if n > 4 {
        assert(handles(engine, events[4], actions[4]));
        assert(connection_answers(actions[n - 2], events[n - 1]));
        assert(handles(engine, events[n - 2], actions[n - 2]));
    }
    if n > 5 {
        assert(connection_answers(actions[4], events[5]));
        assert(handles(engine, events[5], actions[5]));
    }
}

/// A message that is no valid request is answered with an error that says so.
pub proof fn law_invalid_request_is_answered_with_an_error(
    engine: DuckDbParquetEngine,
    error: String,
    action: ConnectionAction,
)
    requires
        handles(engine, ConnectionEvent::RequestParsed(Err(error)), action),
    ensures
        answers_error(action, "Invalid request: "@ + error@),
{
}

/// The rows that a server found for a query, or its error message, are what its client gets.
pub proof fn law_query_reaches_the_client(
    engine: DuckDbParquetEngine,
    outcome: Result<QueryRows, String>,
    query_time_ms: serde_json::Number,
    answer: ConnectionAction,
    debug: Seq<char>,
    got: ClientAction<QueryRows>,
)
    requires
        handles(engine, ConnectionEvent::QueryRun { outcome, query_time_ms }, answer),
        query_result(Ok(answer->response), debug, got),
    ensures
        match outcome {
            Ok(rows) => got == ClientAction::Finish(Ok::<QueryRows, String>(rows)),
            Err(e) => got matches ClientAction::Finish(Err(message)) && message@ == e@,
        },
{
}

/// A server that receives a ping is found by the client that sent it.
pub proof fn law_ping_finds_the_server(
    engine: DuckDbParquetEngine,
    answer: ConnectionAction,
    socket_path: Seq<char>,
    debug: Seq<char>,
    got: ClientAction<DuckDbClientEngine>,
)
    requires
        handles(engine, ConnectionEvent::RequestParsed(Ok(Request::Ping)), answer),
        ping_result(socket_path, Ok(answer->response), debug, got),
    ensures
        got matches ClientAction::Finish(Ok(client)) && client.socket_path@ == socket_path,
{
}

/// A client gets the table count, the directory and the uptime of its server.
pub proof fn law_status_reaches_the_client(
    engine: DuckDbParquetEngine,
    uptime_secs: u64,
    answer: ConnectionAction,
    debug: Seq<char>,
    got: ClientAction<ServerStatus>,
)
    requires
        handles(engine, ConnectionEvent::UptimeRead { secs: uptime_secs }, answer),
        status_result(Ok(answer->response), debug, got),
    ensures
        got matches ClientAction::Finish(Ok(status)) && status.0 == engine.tables() && status.1@
            == engine.dir() && status.2 == uptime_secs,
{
}

}
