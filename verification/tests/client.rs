use heappy::engine::duckdb_client::{ClientAction, ClientEvent, DuckDbClientEngine};
use heappy::engine::rows::{ArrowCell, ArrowResult};
use heappy::engine::{EngineVariant, OpenAction, OpenEvent, QueryAction, QueryEvent};
use heappy::engine::views::register_parquet_views;
use heappy::engine::DuckDbParquetEngine;
use heappy::json::JsonValue;
use heappy::server::protocol::{ColumnMeta, Request, Response};
use serde_json::Number;

fn client() -> DuckDbClientEngine {
    DuckDbClientEngine { socket_path: "/tmp/s.sock".to_string() }
}

fn received(reply: Result<Response, String>) -> ClientEvent {
    ClientEvent::Received { reply, debug: "Debug".to_string() }
}

fn error(text: &str) -> Result<(), String> {
    Err(text.to_string())
}

fn columns() -> Vec<ColumnMeta> {
    vec![ColumnMeta { name: "a".to_string(), data_type: "Int32".to_string() }]
}

fn inline() -> EngineVariant {
    let registered = OpenEvent::Registered {
        parquet_dir: "/d".to_string(),
        registration: register_parquet_views(&Vec::new()),
    };
    match DuckDbParquetEngine::new("heap", registered) {
        OpenAction::Finish(Ok(engine)) => EngineVariant::Inline(engine),
        other => panic!("{:?}", other),
    }
}

#[test]
fn connecting_is_checked_with_a_ping() {
    let path = "/tmp/s.sock";
    assert_eq!(
        DuckDbClientEngine::try_connect(path, ClientEvent::Started),
        ClientAction::Connect { socket_path: path.to_string() }
    );
    assert_eq!(
        DuckDbClientEngine::try_connect(path, ClientEvent::Connected(Ok(()))),
        ClientAction::SetReadTimeout { secs: 5 }
    );
    assert_eq!(
        DuckDbClientEngine::try_connect(path, ClientEvent::TimeoutSet(Ok(()))),
        ClientAction::Send(Request::Ping)
    );
    assert_eq!(
        DuckDbClientEngine::try_connect(path, ClientEvent::Sent(Ok(()))),
        ClientAction::Receive
    );
    assert_eq!(
        DuckDbClientEngine::try_connect(path, received(Ok(Response::Pong))),
        ClientAction::Finish(Ok(client()))
    );
}

#[test]
fn unexpected_answer_to_a_ping_is_an_error() {
    let reply = Ok(Response::Error { message: "busy".to_string() });
    assert_eq!(
        DuckDbClientEngine::try_connect("/tmp/s.sock", received(reply)),
        ClientAction::Finish(Err("Unexpected response to ping: Debug".to_string()))
    );
}

#[test]
fn first_failure_ends_the_exchange() {
    let events = || {
        vec![
            ClientEvent::Connected(error("e")),
            ClientEvent::TimeoutSet(error("e")),
            ClientEvent::Sent(error("e")),
        ]
    };
    for event in events() {
        assert_eq!(client().query_json("q", event), ClientAction::Finish(Err("e".to_string())));
    }
    for event in events() {
        assert_eq!(client().status(event), ClientAction::Finish(Err("e".to_string())));
    }
    for event in events() {
        assert_eq!(client().shutdown(event), ClientAction::Finish(Err("e".to_string())));
    }
    assert_eq!(
        client().query_json("q", received(Err("eof".to_string()))),
        ClientAction::Finish(Err("eof".to_string()))
    );
}

#[test]
fn query_returns_columns_and_rows() {
    assert_eq!(
        client().query_json("SELECT 1", ClientEvent::Connected(Ok(()))),
        ClientAction::SetReadTimeout { secs: 60 }
    );
    assert_eq!(
        client().query_json("SELECT 1", ClientEvent::TimeoutSet(Ok(()))),
        ClientAction::Send(Request::Query { sql: "SELECT 1".to_string() })
    );
    let reply = Response::Result {
        columns: columns(),
        rows: vec![JsonValue::Null],
        row_count: 9,
        query_time_ms: Number::from(1),
    };
    assert_eq!(
        client().query_json("SELECT 1", received(Ok(reply))),
        ClientAction::Finish(Ok((columns(), vec![JsonValue::Null])))
    );
}

#[test]
fn query_error_of_the_server_is_passed_on() {
    let reply = Response::Error { message: "no such table".to_string() };
    assert_eq!(
        client().query_json("q", received(Ok(reply))),
        ClientAction::Finish(Err("no such table".to_string()))
    );
    assert_eq!(
        client().query_json("q", received(Ok(Response::Pong))),
        ClientAction::Finish(Err("Unexpected response: Debug".to_string()))
    );
}

#[test]
fn status_is_passed_on() {
    assert_eq!(
        client().status(ClientEvent::TimeoutSet(Ok(()))),
        ClientAction::Send(Request::Status)
    );
    let reply = Response::Status {
        table_count: 3,
        parquet_dir: "/d".to_string(),
        uptime_secs: 12,
    };
    assert_eq!(
        client().status(received(Ok(reply))),
        ClientAction::Finish(Ok((3, "/d".to_string(), 12)))
    );
    assert_eq!(
        client().status(received(Ok(Response::Pong))),
        ClientAction::Finish(Err("Unexpected response: Debug".to_string()))
    );
}

#[test]
fn shutdown_needs_no_answer() {
    assert_eq!(
        client().shutdown(ClientEvent::TimeoutSet(Ok(()))),
        ClientAction::Send(Request::Shutdown)
    );
    assert_eq!(
        client().shutdown(received(Err("closed".to_string()))),
        ClientAction::Finish(Ok(()))
    );
    assert_eq!(client().shutdown(received(Ok(Response::Pong))), ClientAction::Finish(Ok(())));
}

#[test]
fn inline_engine_executes_here() {
    let engine = inline();
    assert!(!engine.is_remote());
    assert_eq!(
        engine.query_json("SELECT 1", QueryEvent::Started),
        QueryAction::Execute { sql: "SELECT 1".to_string() }
    );
    assert_eq!(
        engine.query_json("SELECT 1", QueryEvent::Executed(Err("syntax".to_string()))),
        QueryAction::Finish(Err("syntax".to_string()))
    );
    let arrow = ArrowResult {
        columns: columns(),
        batches: vec![vec![vec![ArrowCell::Int32(4)]]],
    };
    match engine.query_json("SELECT 1", QueryEvent::Executed(Ok(arrow))) {
        QueryAction::Finish(Ok((found, rows))) => {
            assert_eq!(found, columns());
            assert_eq!(rows.len(), 1);
        }
        other => panic!("{:?}", other),
    }
}

#[test]
fn remote_engine_asks_its_server() {
    let engine = EngineVariant::Remote(client());
    assert!(engine.is_remote());
    assert_eq!(
        engine.query_json("q", QueryEvent::Started),
        QueryAction::Client(ClientAction::Connect { socket_path: "/tmp/s.sock".to_string() })
    );
    let sent = QueryEvent::Client(ClientEvent::TimeoutSet(Ok(())));
    assert_eq!(
        engine.query_json("q", sent),
        QueryAction::Client(ClientAction::Send(Request::Query { sql: "q".to_string() }))
    );
}
