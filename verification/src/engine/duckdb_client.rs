//! The client side of a running server.
//!
//! Every call is one exchange: connect, set a read timeout, send a request,
//! receive the response. The first step that fails ends the exchange.
use crate::json::JsonValue;
use crate::server::protocol::{Asked, ColumnMeta, Request, Response};
use vstd::prelude::*;

verus! {

/// A client of the server behind a socket.
#[derive(Debug, PartialEq)]
pub struct DuckDbClientEngine {
    pub socket_path: String,
}

/// What was done last in an exchange. With the response comes its debug text.
#[derive(Debug, PartialEq)]
pub enum ClientEvent {
    Started,
    Connected(Result<(), String>),
    TimeoutSet(Result<(), String>),
    Sent(Result<(), String>),
    Received { reply: Result<Response, String>, debug: String },
}

/// What to do next in an exchange.
#[derive(Debug, PartialEq)]
pub enum ClientAction<T> {
    Connect { socket_path: String },
    SetReadTimeout { secs: u64 },
    Send(Request),
    Receive,
    Finish(Result<T, String>),
}

/// The columns and the rows of a query result.
pub type QueryRows = (Vec<ColumnMeta>, Vec<JsonValue>);

/// The table count, the directory and the uptime in seconds of a server.
pub type ServerStatus = (usize, String, u64);

/// Whether an action ends the exchange with an error of that text.
pub open spec fn fails_with<T>(action: ClientAction<T>, text: Seq<char>) -> bool {
    action matches ClientAction::Finish(Err(e)) && e@ == text
}

/// The course of an exchange up to the response.
pub open spec fn exchanges<T>(
    socket_path: Seq<char>,
    secs: u64,
    request: Asked,
    event: ClientEvent,
    action: ClientAction<T>,
) -> bool {
    match event {
        ClientEvent::Started => action matches ClientAction::Connect { socket_path: path } && path@
            == socket_path,
        ClientEvent::Connected(Ok(_)) => action == ClientAction::<T>::SetReadTimeout { secs },
        ClientEvent::TimeoutSet(Ok(_)) => action matches ClientAction::Send(sent) && sent@
            == request,
        ClientEvent::Sent(Ok(_)) => action == ClientAction::<T>::Receive,
        ClientEvent::Connected(Err(e)) => fails_with(action, e@),
        ClientEvent::TimeoutSet(Err(e)) => fails_with(action, e@),
        ClientEvent::Sent(Err(e)) => fails_with(action, e@),
        ClientEvent::Received { reply, debug } => true,
    }
}

/// What the answer to a ping makes of the attempt to reach a server.
pub open spec fn ping_result(
    socket_path: Seq<char>,
    reply: Result<Response, String>,
    debug: Seq<char>,
    action: ClientAction<DuckDbClientEngine>,
) -> bool {
    match reply {
        Ok(Response::Pong) => action matches ClientAction::Finish(Ok(client))
            && client.socket_path@ == socket_path,
        Ok(_) => fails_with(action, "Unexpected response to ping: "@ + debug),
        Err(e) => fails_with(action, e@),
    }
}

/// What the answer to a query gives.
pub open spec fn query_result(
    reply: Result<Response, String>,
    debug: Seq<char>,
    action: ClientAction<QueryRows>,
) -> bool {
    match reply {
        Ok(Response::Result { columns, rows, row_count, query_time_ms }) => action
            == ClientAction::Finish(Ok::<QueryRows, String>((columns, rows))),
        Ok(Response::Error { message }) => fails_with(action, message@),
        Ok(_) => fails_with(action, "Unexpected response: "@ + debug),
        Err(e) => fails_with(action, e@),
    }
}

/// What the answer to a status request gives.
pub open spec fn status_result(
    reply: Result<Response, String>,
    debug: Seq<char>,
    action: ClientAction<ServerStatus>,
) -> bool {
    match reply {
        Ok(Response::Status { table_count, parquet_dir, uptime_secs }) => action
            == ClientAction::Finish(Ok::<ServerStatus, String>((table_count, parquet_dir, uptime_secs))),
        Ok(_) => fails_with(action, "Unexpected response: "@ + debug),
        Err(e) => fails_with(action, e@),
    }
}

/// The next action of an exchange, or the response that came at its end.
fn exchange<T>(socket_path: &str, secs: u64, request: Request, event: ClientEvent) -> (next: Result<
    ClientAction<T>,
    (Result<Response, String>, String),
>)
    ensures
        match next {
            Ok(action) => !(event is Received) && exchanges(
                socket_path@,
                secs,
                request@,
                event,
                action,
            ),
            Err((reply, debug)) => event == (ClientEvent::Received { reply, debug }),
        },
{
    match event {
        ClientEvent::Started => Ok(ClientAction::Connect { socket_path: socket_path.to_string() }),
        ClientEvent::Connected(Ok(_)) => Ok(ClientAction::SetReadTimeout { secs }),
        ClientEvent::TimeoutSet(Ok(_)) => Ok(ClientAction::Send(request)),
        ClientEvent::Sent(Ok(_)) => Ok(ClientAction::Receive),
        ClientEvent::Connected(Err(e)) => Ok(ClientAction::Finish(Err(e))),
        ClientEvent::TimeoutSet(Err(e)) => Ok(ClientAction::Finish(Err(e))),
        ClientEvent::Sent(Err(e)) => Ok(ClientAction::Finish(Err(e))),
        ClientEvent::Received { reply, debug } => Err((reply, debug)),
    }
}

fn unexpected(prefix: &str, debug: &str) -> (text: String)
    ensures
        text@ == prefix@ + debug@,
{
    let mut text = prefix.to_string();
    text.append(debug);
    text
}

impl DuckDbClientEngine {
    /// Tries to reach a running server: it has to answer a ping.
    pub fn try_connect(socket_path: &str, event: ClientEvent) -> (action: ClientAction<
        DuckDbClientEngine,
    >)
        ensures
            exchanges(socket_path@, 5, Asked::Ping, event, action),
            event matches ClientEvent::Received { reply, debug } ==> ping_result(
                socket_path@,
                reply,
                debug@,
                action,
            ),
    {
        match exchange::<DuckDbClientEngine>(socket_path, 5, Request::Ping, event) {
            Ok(action) => action,
            Err((Ok(Response::Pong), _)) => ClientAction::Finish(
                Ok(DuckDbClientEngine { socket_path: socket_path.to_string() }),
            ),
            Err((Ok(_), debug)) => ClientAction::Finish(
                Err(unexpected("Unexpected response to ping: ", debug.as_str())),
            ),
            Err((Err(e), _)) => ClientAction::Finish(Err(e)),
        }
    }

    /// Runs a query on the server.
    pub fn query_json(&self, sql: &str, event: ClientEvent) -> (action: ClientAction<QueryRows>)
        ensures
            exchanges(self.socket_path@, 60, Asked::Query(sql@), event, action),
            event matches ClientEvent::Received { reply, debug } ==> query_result(
                reply,
                debug@,
                action,
            ),
    {
        let request = Request::Query { sql: sql.to_string() };
        match exchange::<QueryRows>(self.socket_path.as_str(), 60, request, event) {
            Ok(action) => action,
            Err((Ok(Response::Result { columns, rows, .. }), _)) => ClientAction::Finish(
                Ok((columns, rows)),
            ),
            Err((Ok(Response::Error { message }), _)) => ClientAction::Finish(Err(message)),
            Err((Ok(_), debug)) => ClientAction::Finish(
                Err(unexpected("Unexpected response: ", debug.as_str())),
            ),
            Err((Err(e), _)) => ClientAction::Finish(Err(e)),
        }
    }

    /// Asks the server for its status.
    pub fn status(&self, event: ClientEvent) -> (action: ClientAction<ServerStatus>)
        ensures
            exchanges(self.socket_path@, 5, Asked::Status, event, action),
            event matches ClientEvent::Received { reply, debug } ==> status_result(
                reply,
                debug@,
                action,
            ),
    {
        match exchange::<ServerStatus>(self.socket_path.as_str(), 5, Request::Status, event) {
            Ok(action) => action,
            Err((Ok(Response::Status { table_count, parquet_dir, uptime_secs }), _)) =>
                ClientAction::Finish(Ok((table_count, parquet_dir, uptime_secs))),
            Err((Ok(_), debug)) => ClientAction::Finish(
                Err(unexpected("Unexpected response: ", debug.as_str())),
            ),
            Err((Err(e), _)) => ClientAction::Finish(Err(e)),
        }
    }

    /// Asks the server to shut down. The server may close the connection
    /// instead of answering, so whatever is received will do.
    pub fn shutdown(&self, event: ClientEvent) -> (action: ClientAction<()>)
        ensures
            exchanges(self.socket_path@, 5, Asked::Shutdown, event, action),
            event is Received ==> action == ClientAction::Finish(Ok::<(), String>(())),
    {
        match exchange::<()>(self.socket_path.as_str(), 5, Request::Shutdown, event) {
            Ok(action) => action,
            Err(_) => ClientAction::Finish(Ok(())),
        }
    }
}

}
