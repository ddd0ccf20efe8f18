//! Laws of the exchanges of a client with its server.
use crate::engine::duckdb_client::{
    ClientAction, ClientEvent, DuckDbClientEngine, QueryRows, ServerStatus,
};
use crate::engine::{EngineVariant, QueryAction, QueryEvent};
use vstd::prelude::*;

verus! {

/// The error that something ended in, if it did.
pub open spec fn error_of(event: ClientEvent) -> Option<Seq<char>> {
    match event {
        ClientEvent::Connected(Err(e)) => Some(e@),
        ClientEvent::TimeoutSet(Err(e)) => Some(e@),
        ClientEvent::Sent(Err(e)) => Some(e@),
        ClientEvent::Received { reply: Err(e), debug } => Some(e@),
        _ => None,
    }
}

/// Whether an action is the one that follows on a step that went well: connect, set
/// the timeout, send, receive, and end.
pub open spec fn follows<T>(event: ClientEvent, action: ClientAction<T>) -> bool {
    match event {
        ClientEvent::Started => action is Connect,
        ClientEvent::Connected(_) => action is SetReadTimeout,
        ClientEvent::TimeoutSet(_) => action is Send,
        ClientEvent::Sent(_) => action is Receive,
        ClientEvent::Received { reply, debug } => action is Finish,
    }
}

/// Whether an action ends an exchange with that error.
pub open spec fn ends_in_error<T>(action: ClientAction<T>, text: Seq<char>) -> bool {
    action matches ClientAction::Finish(result) && result is Err && result->Err_0@ == text
}

/// A query is an exchange in its order with the server behind the client's socket.
/// Nothing but the statement is sent, whole. The first error ends it. The columns and
/// the rows of the answer are the result; an error of the server is passed on.
pub proof fn law_query_exchange(
    client: DuckDbClientEngine,
    sql: &str,
    event: ClientEvent,
    action: ClientAction<QueryRows>,
)
    requires
        call_ensures(DuckDbClientEngine::query_json, (&client, sql, event), action),
    ensures
        error_of(event) matches Some(e) ==> ends_in_error(action, e),
        error_of(event) is None ==> follows(event, action),
        action matches ClientAction::Connect { socket_path } ==> socket_path@ == client.socket_path@,
        action matches ClientAction::SetReadTimeout { secs } ==> secs == 60,
        action matches ClientAction::Send(request) ==> request is Query && request->sql@ == sql@,
        event matches ClientEvent::Received { reply: Ok(response), debug } ==> {
            let result = action->Finish_0;
            &&& result is Ok <==> response is Result
            &&& response is Result ==> result->Ok_0.0 == response->columns && result->Ok_0.1
                == response->rows
            &&& response is Error ==> result->Err_0@ == response->message@
            &&& response is Pong || response is Status ==> result->Err_0@
                == "Unexpected response: "@ + debug@
        },
{
}

/// An attempt to reach a server sends a ping and succeeds exactly on a pong; the
/// client that comes of it is that of the socket.
pub proof fn law_ping_exchange(
    socket: &str,
    event: ClientEvent,
    action: ClientAction<DuckDbClientEngine>,
)
    requires
        call_ensures(DuckDbClientEngine::try_connect, (socket, event), action),
    ensures
        error_of(event) matches Some(e) ==> ends_in_error(action, e),
        error_of(event) is None ==> follows(event, action),
        action matches ClientAction::Connect { socket_path } ==> socket_path@ == socket@,
        action matches ClientAction::SetReadTimeout { secs } ==> secs == 5,
        action matches ClientAction::Send(request) ==> request is Ping,
        event matches ClientEvent::Received { reply: Ok(response), debug } ==> {
            let result = action->Finish_0;
            &&& result is Ok <==> response is Pong
            &&& result is Ok ==> result->Ok_0.socket_path@ == socket@
            &&& result is Err ==> result->Err_0@ == "Unexpected response to ping: "@ + debug@
        },
{
}

/// A request for the status gives the table count, the directory and the uptime of
/// the answer.
pub proof fn law_status_exchange(
    client: DuckDbClientEngine,
    event: ClientEvent,
    action: ClientAction<ServerStatus>,
)
    requires
        call_ensures(DuckDbClientEngine::status, (&client, event), action),
    ensures
        error_of(event) matches Some(e) ==> ends_in_error(action, e),
        error_of(event) is None ==> follows(event, action),
        action matches ClientAction::Connect { socket_path } ==> socket_path@ == client.socket_path@,
        action matches ClientAction::SetReadTimeout { secs } ==> secs == 5,
        action matches ClientAction::Send(request) ==> request is Status,
        event matches ClientEvent::Received { reply: Ok(response), debug } ==> {
            let result = action->Finish_0;
            &&& result is Ok <==> response is Status
            &&& result matches Ok(status) ==> status.0 == response->table_count && status.1@
                == response->parquet_dir@ && status.2 == response->uptime_secs
            &&& result is Err ==> result->Err_0@ == "Unexpected response: "@ + debug@
        },
{
}

/// A request to shut down is sent to the server, and once it was sent whatever is
/// received will do.
pub proof fn law_shutdown_exchange(
    client: DuckDbClientEngine,
    event: ClientEvent,
    action: ClientAction<()>,
)
    requires
        call_ensures(DuckDbClientEngine::shutdown, (&client, event), action),
    ensures
        event is Received ==> (action matches ClientAction::Finish(result) && result is Ok),
        !(event is Received) && error_of(event) is Some ==> ends_in_error(
            action,
            error_of(event)->0,
        ),
        error_of(event) is None ==> follows(event, action),
        action matches ClientAction::Connect { socket_path } ==> socket_path@ == client.socket_path@,
        action matches ClientAction::SetReadTimeout { secs } ==> secs == 5,
        action matches ClientAction::Send(request) ==> request is Shutdown,
{
}

/// Where a server answers, a query goes through its client alone: nothing is executed
/// in this process, and the statement is handed on whole.
pub proof fn law_remote_query_goes_through_the_client(
    client: DuckDbClientEngine,
    sql: &str,
    event: ClientEvent,
    first: QueryAction,
    action: QueryAction,
    remote: bool,
)
    requires
        call_ensures(
            EngineVariant::query_json,
            (&EngineVariant::Remote(client), sql, QueryEvent::Started),
            first,
        ),
        call_ensures(
            EngineVariant::query_json,
            (&EngineVariant::Remote(client), sql, QueryEvent::Client(event)),
            action,
        ),
        call_ensures(EngineVariant::is_remote, (&EngineVariant::Remote(client),), remote),
    ensures
        remote,
        first matches QueryAction::Client(step) && follows(ClientEvent::Started, step)
            && step->socket_path@ == client.socket_path@,
        action is Client,
        error_of(event) matches Some(e) ==> ends_in_error(action->Client_0, e),
        error_of(event) is None ==> follows(event, action->Client_0),
        action->Client_0 matches ClientAction::Connect { socket_path } ==> socket_path@
            == client.socket_path@,
        action->Client_0 matches ClientAction::SetReadTimeout { secs } ==> secs == 60,
        action->Client_0 matches ClientAction::Send(request) ==> request is Query && request->sql@
            == sql@,
        event matches ClientEvent::Received { reply: Ok(response), debug } ==> {
            let result = action->Client_0->Finish_0;
            &&& result is Ok <==> response is Result
            &&& response is Result ==> result->Ok_0.0 == response->columns && result->Ok_0.1
                == response->rows
            &&& response is Error ==> result->Err_0@ == response->message@
            &&& response is Pong || response is Status ==> result->Err_0@
                == "Unexpected response: "@ + debug@
        },
{
}

/// An engine in this process is no running server.
pub proof fn law_inline_engine_is_no_server(engine: EngineVariant, remote: bool)
    requires
        call_ensures(EngineVariant::is_remote, (&engine,), remote),
    ensures
        remote <==> !(engine is Inline),
{
}

}
