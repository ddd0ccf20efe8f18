use heappy::engine::duckdb_client::{ClientAction, ClientEvent, DuckDbClientEngine};
use heappy::engine::views::{register_parquet_views, DirEntry};
use heappy::engine::{DuckDbParquetEngine, OpenAction, OpenEvent};
use heappy::json::JsonValue;
use heappy::server::connection::{ConnectionAction, ConnectionEvent};
use heappy::server::protocol::{ColumnMeta, Request, Response};
use heappy::server::{
    Ending, HeappyServer, Launch, LaunchAction, LaunchEvent, ServerAction, ServerClock,
    ServerEvent, ServerStep,
};
use serde_json::Number;

fn engine() -> DuckDbParquetEngine {
    let mut registration = register_parquet_views(&vec![DirEntry {
        file_name: "a.parquet".to_string(),
        path: "/data/heap/a.parquet".to_string(),
    }]);
    registration.record(Ok(()));
    let registered =
        OpenEvent::Registered { parquet_dir: "/data/heap".to_string(), registration };
    match DuckDbParquetEngine::new("heap", registered) {
        OpenAction::Finish(Ok(engine)) => engine,
        other => panic!("{:?}", other),
    }
}

fn launch() -> Launch {
    HeappyServer::start(Ok("/data/heap".to_string()), 300_000_000_000).unwrap()
}

fn server() -> HeappyServer {
    match launch().next(LaunchEvent::EngineBuilt(Ok(engine()))) {
        LaunchAction::Run { server, .. } => server,
        other => panic!("{:?}", other),
    }
}

fn step(action: ServerAction) -> ServerStep {
    ServerStep { log: None, action }
}

fn logged(log: &str, action: ServerAction) -> ServerStep {
    ServerStep { log: Some(log.to_string()), action }
}

fn error() -> String {
    "e".to_string()
}

fn answer(response: Response) -> ConnectionAction {
    ConnectionAction::Answer { response, shutdown: false }
}

fn dropped(log: &str) -> ConnectionAction {
    ConnectionAction::Close { log: Some(log.to_string()), shutdown: false }
}

#[test]
fn start_needs_a_directory() {
    assert_eq!(HeappyServer::start(Err("no dir".to_string()), 1), Err("no dir".to_string()));
    assert_eq!(launch().socket_path, "/tmp/heappy-serve-7844e259.sock");
    assert_eq!(launch().pid_path, "/tmp/heappy-serve-7844e259.pid");
}

#[test]
fn start_refuses_beside_a_running_server() {
    assert_eq!(launch().next(LaunchEvent::Started), LaunchAction::CheckSocket { socket_path: launch().socket_path });
    assert_eq!(launch().next(LaunchEvent::SocketExists(true)), LaunchAction::Probe { socket_path: launch().socket_path });
    assert_eq!(
        launch().next(LaunchEvent::Probed(true)),
        LaunchAction::Fail("Server already running for /data/heap".to_string())
    );
}

#[test]
fn start_removes_a_dead_socket() {
    let build = || LaunchAction::BuildEngine {
        parquet_dir: "/data/heap".to_string(),
        log: "Registering parquet tables from /data/heap...".to_string(),
    };
    assert_eq!(launch().next(LaunchEvent::Probed(false)), LaunchAction::RemoveSocket { socket_path: launch().socket_path });
    assert_eq!(launch().next(LaunchEvent::SocketRemoved), build());
    assert_eq!(launch().next(LaunchEvent::SocketExists(false)), build());
}

#[test]
fn start_ends_with_the_engine() {
    match launch().next(LaunchEvent::EngineBuilt(Ok(engine()))) {
        LaunchAction::Run { server, log } => {
            assert_eq!(
                log,
                "Registered 1 tables. Starting server on /tmp/heappy-serve-7844e259.sock"
            );
            assert_eq!(server.engine, engine());
            assert_eq!(server.socket_path, launch().socket_path);
            assert_eq!(server.pid_path, launch().pid_path);
            assert_eq!(server.idle_timeout_nanos, 300_000_000_000);
        }
        other => panic!("{:?}", other),
    }
    assert_eq!(
        launch().next(LaunchEvent::EngineBuilt(Err(error()))),
        LaunchAction::Fail(error())
    );
}

fn next(event: ServerEvent) -> ServerStep {
    server().next(&mut ServerClock::new(), event)
}

fn set_up(outcome: Result<(), String>) -> ServerEvent {
    ServerEvent::NonblockingSet { outcome, now_nanos: 5 }
}

#[test]
fn server_sets_up_its_socket() {
    assert_eq!(
        next(ServerEvent::Started { pid: 4711 }),
        step(ServerAction::WritePid {
            pid_path: "/tmp/heappy-serve-7844e259.pid".to_string(),
            text: "4711".to_string(),
        })
    );
    assert_eq!(next(ServerEvent::PidWritten(Ok(()))), step(ServerAction::Bind { socket_path: "/tmp/heappy-serve-7844e259.sock".to_string() }));
    assert_eq!(next(ServerEvent::Bound(Ok(()))), step(ServerAction::SetNonblocking));
    assert_eq!(
        next(set_up(Ok(()))),
        logged("Server ready. Idle timeout: 300s", ServerAction::Accept)
    );
}

#[test]
fn failed_setup_cleans_up_once() {
    let cleans = || step(ServerAction::CleanUp(Ending::Failed(error())));
    assert_eq!(next(ServerEvent::PidWritten(Err(error()))), cleans());
    assert_eq!(next(ServerEvent::Bound(Err(error()))), cleans());
    assert_eq!(next(set_up(Err(error()))), cleans());
    assert_eq!(
        next(ServerEvent::CleanedUp(Ending::Failed(error()))),
        step(ServerAction::Finish(Err(error())))
    );
}

#[test]
fn server_goes_on_with_the_next_connection() {
    assert_eq!(
        next(ServerEvent::Accepted { now_nanos: 1 }),
        step(ServerAction::HandleConnection)
    );
    assert_eq!(next(ServerEvent::Handled { shutdown: false }), step(ServerAction::Accept));
    assert_eq!(next(ServerEvent::Slept), step(ServerAction::Accept));
    assert_eq!(
        next(ServerEvent::AcceptFailed(error())),
        logged("Accept error: e", ServerAction::Sleep { millis: 100 })
    );
}

#[test]
fn server_stops_when_it_is_idle_for_too_long() {
    let server = server();
    let limit: u128 = 300_000_000_000;
    let mut clock = ServerClock::new();
    let pause = || step(ServerAction::Sleep { millis: 100 });
    let stop = || {
        logged("Idle timeout reached, shutting down", ServerAction::CleanUp(Ending::Stopping))
    };
    server.next(&mut clock, ServerEvent::NonblockingSet { outcome: Ok(()), now_nanos: 1000 });
    let quiet = |now_nanos| ServerEvent::Quiet { now_nanos };
    assert_eq!(server.next(&mut clock, quiet(1000 + limit)), pause());
    assert_eq!(server.next(&mut clock, quiet(1001 + limit)), stop());
    assert_eq!(server.next(&mut clock, quiet(0)), pause());
}

#[test]
fn every_connection_restarts_the_idle_clock() {
    let server = server();
    let limit: u128 = 300_000_000_000;
    let mut clock = ServerClock::new();
    server.next(&mut clock, ServerEvent::NonblockingSet { outcome: Ok(()), now_nanos: 7 });
    server.next(&mut clock, ServerEvent::Accepted { now_nanos: limit });
    server.next(&mut clock, ServerEvent::Handled { shutdown: false });
    server.next(&mut clock, ServerEvent::AcceptFailed(error()));
    assert_eq!(clock, ServerClock { started_nanos: 7, last_nanos: limit });
    assert_eq!(
        server.next(&mut clock, ServerEvent::Quiet { now_nanos: 2 * limit }),
        step(ServerAction::Sleep { millis: 100 })
    );
    assert_eq!(
        server.next(&mut clock, ServerEvent::Quiet { now_nanos: 2 * limit + 1 }).action,
        ServerAction::CleanUp(Ending::Stopping)
    );
}

#[test]
fn uptime_counts_full_seconds() {
    let clock = ServerClock { started_nanos: 500_000_000, last_nanos: 0 };
    assert_eq!(clock.uptime_secs(0), 0);
    assert_eq!(clock.uptime_secs(2_499_999_999), 1);
    assert_eq!(clock.uptime_secs(2_500_000_000), 2);
    assert_eq!(clock.uptime_secs(u128::MAX), u64::MAX);
}

#[test]
fn shutdown_cleans_up_and_ends() {
    assert_eq!(
        next(ServerEvent::Handled { shutdown: true }),
        step(ServerAction::CleanUp(Ending::Stopping))
    );
    assert_eq!(
        next(ServerEvent::CleanedUp(Ending::Stopping)),
        step(ServerAction::CleanUp(Ending::Stopped))
    );
    assert_eq!(
        next(ServerEvent::CleanedUp(Ending::Stopped)),
        step(ServerAction::Finish(Ok(())))
    );
    let cleanup = server().cleanup();
    assert_eq!(cleanup.socket_path, "/tmp/heappy-serve-7844e259.sock");
    assert_eq!(cleanup.pid_path, "/tmp/heappy-serve-7844e259.pid");
    assert_eq!(cleanup.log, "Server stopped, socket cleaned up");
}

#[test]
fn connection_is_set_up_and_read() {
    let server = server();
    assert_eq!(
        server.handle_connection(ConnectionEvent::Accepted),
        ConnectionAction::SetBlocking
    );
    assert_eq!(
        server.handle_connection(ConnectionEvent::BlockingSet(Ok(()))),
        ConnectionAction::SetReadTimeout { secs: 30 }
    );
    assert_eq!(
        server.handle_connection(ConnectionEvent::TimeoutSet(Ok(()))),
        ConnectionAction::ReadMessage
    );
    assert_eq!(
        server.handle_connection(ConnectionEvent::MessageRead(Ok(vec![1, 2]))),
        ConnectionAction::ParseRequest { message: vec![1, 2] }
    );
}

#[test]
fn broken_connection_is_dropped() {
    let server = server();
    assert_eq!(
        server.handle_connection(ConnectionEvent::BlockingSet(Err(error()))),
        dropped("set_nonblocking error: e")
    );
    assert_eq!(
        server.handle_connection(ConnectionEvent::TimeoutSet(Err(error()))),
        dropped("set_read_timeout error: e")
    );
    assert_eq!(
        server.handle_connection(ConnectionEvent::MessageRead(Err(error()))),
        dropped("Read error: e")
    );
}

#[test]
fn invalid_request_is_answered() {
    assert_eq!(
        server().handle_connection(ConnectionEvent::RequestParsed(Err(error()))),
        answer(Response::Error { message: "Invalid request: e".to_string() })
    );
}

#[test]
fn query_answer_reaches_the_client() {
    let server = server();
    let sql = "SELECT 1".to_string();
    assert_eq!(
        server.handle_connection(ConnectionEvent::RequestParsed(Ok(Request::Query {
            sql: sql.clone()
        }))),
        ConnectionAction::RunQuery { sql }
    );
    let columns = || vec![ColumnMeta { name: "n".to_string(), data_type: "Int32".to_string() }];
    let rows = || vec![JsonValue::Null, JsonValue::Bool(true)];
    let response = || Response::Result {
        columns: columns(),
        rows: rows(),
        row_count: 2,
        query_time_ms: Number::from(7),
    };
    assert_eq!(
        server.handle_connection(ConnectionEvent::QueryRun {
            outcome: Ok((columns(), rows())),
            query_time_ms: Number::from(7),
        }),
        answer(response())
    );
    let client = DuckDbClientEngine { socket_path: "s".to_string() };
    let received = ClientEvent::Received { reply: Ok(response()), debug: String::new() };
    assert_eq!(
        client.query_json("SELECT 1", received),
        ClientAction::Finish(Ok((columns(), rows())))
    );
}

#[test]
fn query_error_is_answered() {
    assert_eq!(
        server().handle_connection(ConnectionEvent::QueryRun {
            outcome: Err(error()),
            query_time_ms: Number::from(0),
        }),
        answer(Response::Error { message: error() })
    );
}

#[test]
fn ping_and_status_are_answered() {
    let server = server();
    assert_eq!(
        server.handle_connection(ConnectionEvent::RequestParsed(Ok(Request::Ping))),
        answer(Response::Pong)
    );
    assert_eq!(
        server.handle_connection(ConnectionEvent::RequestParsed(Ok(Request::Status))),
        ConnectionAction::ReadUptime
    );
    assert_eq!(
        server.handle_connection(ConnectionEvent::UptimeRead { secs: 61 }),
        answer(Response::Status {
            table_count: 1,
            parquet_dir: "/data/heap".to_string(),
            uptime_secs: 61,
        })
    );
    assert_eq!(
        server.handle_connection(ConnectionEvent::Answered { shutdown: false }),
        ConnectionAction::Close { log: None, shutdown: false }
    );
}

#[test]
fn shutdown_request_ends_the_server() {
    let server = server();
    assert_eq!(
        server.handle_connection(ConnectionEvent::RequestParsed(Ok(Request::Shutdown))),
        ConnectionAction::Answer { response: Response::Pong, shutdown: true }
    );
    assert_eq!(
        server.handle_connection(ConnectionEvent::Answered { shutdown: true }),
        ConnectionAction::Close { log: Some("Shutdown requested".to_string()), shutdown: true }
    );
}
