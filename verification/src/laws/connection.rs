//! Laws of what a server does on a connection.
use crate::engine::duckdb_client::QueryRows;
use crate::engine::DuckDbParquetEngine;
use crate::server::connection::{next_on_connection, ConnectionAction, ConnectionEvent};
use crate::server::protocol::{Request, Response};
use crate::server::HeappyServer;
use vstd::prelude::*;

verus! {

/// Whether an action closes the connection with a line that ends in the error, and
/// the server goes on.
pub open spec fn drops_for(action: ConnectionAction, what: Seq<char>, error: Seq<char>) -> bool {
    action matches ConnectionAction::Close { log, shutdown } && !shutdown && log is Some
        && log->0@ == what + error
}

/// A connection that cannot be set up or read is dropped, whatever the error is, which
/// is logged; the server goes on.
pub proof fn law_broken_connection_is_dropped(
    engine: DuckDbParquetEngine,
    error: String,
    blocking: ConnectionAction,
    timeout: ConnectionAction,
    read: ConnectionAction,
)
    requires
        call_ensures(
            next_on_connection,
            (&engine, ConnectionEvent::BlockingSet(Err(error))),
            blocking,
        ),
        call_ensures(
            next_on_connection,
            (&engine, ConnectionEvent::TimeoutSet(Err(error))),
            timeout,
        ),
        call_ensures(next_on_connection, (&engine, ConnectionEvent::MessageRead(Err(error))), read),
    ensures
        drops_for(blocking, "set_nonblocking error: "@, error@),
        drops_for(timeout, "set_read_timeout error: "@, error@),
        drops_for(read, "Read error: "@, error@),
{
}

/// A message is handed on whole to be understood.
pub proof fn law_message_is_parsed_whole(
    engine: DuckDbParquetEngine,
    message: Vec<u8>,
    action: ConnectionAction,
)
    requires
        call_ensures(next_on_connection, (&engine, ConnectionEvent::MessageRead(Ok(message))), action),
    ensures
        action matches ConnectionAction::ParseRequest { message: m } && m@ == message@,
{
}

/// A query is run with the statement that was asked for, whole, and answered with all
/// columns and rows that came of it, their number, and the time; a query that failed
/// is answered with its error. The server goes on.
pub proof fn law_query_is_run_and_answered(
    engine: DuckDbParquetEngine,
    sql: String,
    outcome: Result<QueryRows, String>,
    query_time_ms: serde_json::Number,
    run: ConnectionAction,
    answer: ConnectionAction,
)
    requires
        call_ensures(
            next_on_connection,
            (&engine, ConnectionEvent::RequestParsed(Ok(Request::Query { sql }))),
            run,
        ),
        call_ensures(
            next_on_connection,
            (&engine, ConnectionEvent::QueryRun { outcome, query_time_ms }),
            answer,
        ),
    ensures
        run matches ConnectionAction::RunQuery { sql: text } && text@ == sql@,
        answer is Answer && !answer->Answer_shutdown,
        outcome matches Ok(rows) ==> {
            &&& answer->response is Result
            &&& answer->response->columns@ == rows.0@
            &&& answer->response->rows@ == rows.1@
            &&& answer->response->row_count == rows.1@.len()
            &&& answer->response->query_time_ms == query_time_ms
        },
        outcome matches Err(e) ==> answer->response is Error && answer->response->message@ == e@,
{
}

/// The status that is answered is the engine's own table count and directory, with
/// the uptime that was read; asking for it changes nothing.
pub proof fn law_status_is_answered(
    engine: DuckDbParquetEngine,
    secs: u64,
    asked: ConnectionAction,
    answer: ConnectionAction,
    tables: usize,
    dir: &str,
)
    requires
        call_ensures(
            next_on_connection,
            (&engine, ConnectionEvent::RequestParsed(Ok(Request::Status))),
            asked,
        ),
        call_ensures(next_on_connection, (&engine, ConnectionEvent::UptimeRead { secs }), answer),
        call_ensures(DuckDbParquetEngine::table_count, (&engine,), tables),
        call_ensures(DuckDbParquetEngine::parquet_dir, (&engine,), dir),
    ensures
        asked is ReadUptime,
        answer is Answer && !answer->Answer_shutdown,
        answer->response is Status,
        answer->response->table_count == tables,
        answer->response->parquet_dir@ == dir@,
        answer->response->uptime_secs == secs,
{
}

/// A ping and a request to shut down are both answered with a pong, and only the
/// latter ends the server, once it is answered.
pub proof fn law_ping_and_shutdown_are_answered(
    engine: DuckDbParquetEngine,
    ping: ConnectionAction,
    shutdown: ConnectionAction,
    after: bool,
    closed: ConnectionAction,
)
    requires
        call_ensures(
            next_on_connection,
            (&engine, ConnectionEvent::RequestParsed(Ok(Request::Ping))),
            ping,
        ),
        call_ensures(
            next_on_connection,
            (&engine, ConnectionEvent::RequestParsed(Ok(Request::Shutdown))),
            shutdown,
        ),
        call_ensures(
            next_on_connection,
            (&engine, ConnectionEvent::Answered { shutdown: after }),
            closed,
        ),
    ensures
        ping == (ConnectionAction::Answer { response: Response::Pong, shutdown: false }),
        shutdown == (ConnectionAction::Answer { response: Response::Pong, shutdown: true }),
        closed is Close,
        closed->Close_shutdown == after,
        after ==> closed->log is Some && closed->log->0@ == "Shutdown requested"@,
        !after ==> closed->log is None,
{
}

/// A message that cannot be understood is answered with an error that holds the
/// reason, whatever that is; the server goes on.
pub proof fn law_invalid_message_is_answered(
    engine: DuckDbParquetEngine,
    error: String,
    answer: ConnectionAction,
)
    requires
        call_ensures(
            next_on_connection,
            (&engine, ConnectionEvent::RequestParsed(Err(error))),
            answer,
        ),
    ensures
        answer is Answer && !answer->Answer_shutdown,
        answer->response is Error,
        answer->response->message@ == "Invalid request: "@ + error@,
{
}

/// A connection that came in is made blocking, gets 30 seconds for its request, and is
/// read.
pub proof fn law_connection_is_prepared(
    engine: DuckDbParquetEngine,
    first: ConnectionAction,
    second: ConnectionAction,
    third: ConnectionAction,
    done: Result<(), String>,
)
    requires
        done is Ok,
        call_ensures(next_on_connection, (&engine, ConnectionEvent::Accepted), first),
        call_ensures(next_on_connection, (&engine, ConnectionEvent::BlockingSet(done)), second),
        call_ensures(next_on_connection, (&engine, ConnectionEvent::TimeoutSet(done)), third),
    ensures
        first is SetBlocking,
        second matches ConnectionAction::SetReadTimeout { secs } && secs == 30,
        third is ReadMessage,
{
}

/// A server handles its connections as is done for its engine: it runs what is asked,
/// ends only on a shutdown that was answered, and answers everything else.
pub proof fn law_server_handles_like_its_engine(
    server: HeappyServer,
    event: ConnectionEvent,
    action: ConnectionAction,
)
    requires
        call_ensures(HeappyServer::handle_connection, (&server, event), action),
    ensures
        action is Close ==> action->Close_shutdown == (event == (ConnectionEvent::Answered {
            shutdown: true,
        })),
        action is Close <==> match event {
            ConnectionEvent::BlockingSet(outcome) => outcome is Err,
            ConnectionEvent::TimeoutSet(outcome) => outcome is Err,
            ConnectionEvent::MessageRead(outcome) => outcome is Err,
            ConnectionEvent::Answered { shutdown } => true,
            _ => false,
        },
        event matches ConnectionEvent::RequestParsed(Ok(Request::Query { sql })) ==> (
        action matches ConnectionAction::RunQuery { sql: text } && text@ == sql@),
        event matches ConnectionEvent::QueryRun { outcome: Ok(rows), query_time_ms } ==> {
            &&& action is Answer
            &&& action->response is Result
            &&& action->response->columns@ == rows.0@
            &&& action->response->rows@ == rows.1@
            &&& action->response->row_count == rows.1@.len()
        },
        event matches ConnectionEvent::QueryRun { outcome: Err(e), query_time_ms } ==> {
            &&& action is Answer
            &&& action->response is Error
            &&& action->response->message@ == e@
        },
        event matches ConnectionEvent::UptimeRead { secs } ==> {
            &&& action is Answer
            &&& action->response is Status
            &&& action->response->table_count == server.engine.tables()
            &&& action->response->parquet_dir@ == server.engine.dir()
            &&& action->response->uptime_secs == secs
        },
{
}

}
