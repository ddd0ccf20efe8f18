use heappy::cli::output::{query_document, query_json_text};
use heappy::cli::query::{
    cmd_query_parquet, query_summary, CommandAction, CommandEvent, QueryCommand,
};
use heappy::cli::serve::{cmd_serve, ServeAction, ServeCommand, ServeEvent, ServeFlags};
use heappy::engine::duckdb_client::DuckDbClientEngine;
use heappy::engine::views::register_parquet_views;
use heappy::engine::{DuckDbParquetEngine, EngineVariant, OpenAction, OpenEvent};
use heappy::json::JsonValue;
use heappy::server::protocol::ColumnMeta;
use serde_json::{Number, Value};

fn query(json: bool, no_server: bool) -> QueryCommand {
    QueryCommand {
        parquet_dir: "heap".to_string(),
        sql: "SELECT 1".to_string(),
        json,
        no_server,
    }
}

fn fails(message: &str) -> CommandAction {
    CommandAction::Exit { code: 1, message: message.to_string() }
}

fn inline() -> DuckDbParquetEngine {
    let registered = OpenEvent::Registered {
        parquet_dir: "/data/heap".to_string(),
        registration: register_parquet_views(&Vec::new()),
    };
    match DuckDbParquetEngine::new("heap", registered) {
        OpenAction::Finish(Ok(engine)) => engine,
        other => panic!("{:?}", other),
    }
}

fn remote() -> EngineVariant {
    EngineVariant::Remote(DuckDbClientEngine { socket_path: "s".to_string() })
}

fn error() -> String {
    "e".to_string()
}

fn columns() -> Vec<ColumnMeta> {
    vec![ColumnMeta { name: "n".to_string(), data_type: "Int32".to_string() }]
}

fn rows() -> Vec<JsonValue> {
    let mut fields = serde_json::Map::new();
    fields.insert("n".to_string(), Value::from(12));
    vec![JsonValue::Object(fields)]
}

fn run(remote: bool) -> CommandEvent {
    CommandEvent::QueryRun {
        outcome: Ok((columns(), rows())),
        remote,
        query_time_ms: Number::from_f64(3.25).unwrap(),
        elapsed_ms: "3.2".to_string(),
    }
}

fn serve(background: bool, stop: bool, status: bool) -> ServeCommand {
    let flags = ServeFlags { background, stop, status };
    cmd_serve("heap", Ok("/data/heap".to_string()), flags, 300).unwrap()
}

fn socket() -> String {
    "/tmp/heappy-serve-7844e259.sock".to_string()
}

fn exits(message: &str) -> ServeAction {
    ServeAction::Exit { code: 1, message: message.to_string() }
}

fn done(lines: Vec<&str>) -> ServeAction {
    ServeAction::Return { logs: lines.iter().map(|l| l.to_string()).collect() }
}

fn runs() -> ServeAction {
    ServeAction::RunServer { parquet_dir: "/data/heap".to_string(), idle_secs: 300 }
}

#[test]
fn query_without_server_is_inline() {
    let command = query(false, true);
    assert_eq!(
        cmd_query_parquet(&command, CommandEvent::Started),
        CommandAction::Resolve { parquet_dir: "heap".to_string() }
    );
    assert_eq!(
        cmd_query_parquet(&command, CommandEvent::Resolved(Ok("/data/heap".to_string()))),
        CommandAction::BuildInline { parquet_dir: "/data/heap".to_string() }
    );
    assert_eq!(
        cmd_query_parquet(&command, CommandEvent::InlineBuilt(Ok(inline()))),
        CommandAction::RunQuery {
            engine: EngineVariant::Inline(inline()),
            sql: "SELECT 1".to_string(),
            log: None,
        }
    );
}

#[test]
fn query_uses_the_engine_of_choice() {
    let command = query(false, false);
    assert_eq!(
        cmd_query_parquet(&command, CommandEvent::Started),
        CommandAction::OpenEngine { parquet_dir: "heap".to_string() }
    );
    assert_eq!(
        cmd_query_parquet(&command, CommandEvent::EngineOpened(Ok(remote()))),
        CommandAction::RunQuery {
            engine: remote(),
            sql: "SELECT 1".to_string(),
            log: Some("Connected to running server".to_string()),
        }
    );
    let opened = CommandEvent::EngineOpened(Ok(EngineVariant::Inline(inline())));
    assert_eq!(
        cmd_query_parquet(&command, opened),
        CommandAction::RunQuery {
            engine: EngineVariant::Inline(inline()),
            sql: "SELECT 1".to_string(),
            log: None,
        }
    );
}

#[test]
fn query_failures_exit_with_code_one() {
    let command = query(false, false);
    assert_eq!(
        cmd_query_parquet(&command, CommandEvent::Resolved(Err(error()))),
        fails("Error: cannot resolve path heap: e")
    );
    assert_eq!(
        cmd_query_parquet(&command, CommandEvent::InlineBuilt(Err(error()))),
        fails("Error creating engine: e")
    );
    assert_eq!(
        cmd_query_parquet(&command, CommandEvent::EngineOpened(Err(error()))),
        fails("Error: e")
    );
    let failed = CommandEvent::QueryRun {
        outcome: Err(error()),
        remote: true,
        query_time_ms: Number::from(1),
        elapsed_ms: "1.0".to_string(),
    };
    assert_eq!(cmd_query_parquet(&command, failed), fails("Query error: e"));
}

#[test]
fn query_prints_a_table_with_a_summary() {
    let lines = || vec!["n ".to_string(), "--".to_string(), "12".to_string()];
    assert_eq!(
        cmd_query_parquet(&query(false, false), run(true)),
        CommandAction::PrintTable {
            lines: lines(),
            summary: "\n1 row(s) in 3.2ms (via server)".to_string(),
        }
    );
    assert_eq!(
        cmd_query_parquet(&query(false, false), run(false)),
        CommandAction::PrintTable {
            lines: lines(),
            summary: "\n1 row(s) in 3.2ms".to_string(),
        }
    );
    assert_eq!(query_summary(0, "0.0", false), "\n0 row(s) in 0.0ms");
}

#[test]
fn query_prints_a_json_document() {
    let text = match cmd_query_parquet(&query(true, false), run(true)) {
        CommandAction::PrintJson { text } => text,
        other => panic!("{:?}", other),
    };
    assert_eq!(
        text,
        "{\n  \"columns\": [\n    {\n      \"data_type\": \"Int32\",\n      \"name\": \"n\"\n    }\n  ],\n  \
         \"query_time_ms\": 3.25,\n  \"row_count\": 1,\n  \"rows\": [\n    {\n      \"n\": 12\n    }\n  ]\n}"
    );
}

#[test]
fn document_holds_columns_rows_and_count() {
    let rows = vec![JsonValue::Null, JsonValue::Bool(true), JsonValue::String("x".to_string())];
    let document = query_document(columns(), rows, Number::from(9));
    assert_eq!(document.len(), 4);
    assert_eq!(document.get("row_count"), Some(&Value::from(3)));
    assert_eq!(document.get("query_time_ms"), Some(&Value::from(9)));
    assert_eq!(
        document.get("rows"),
        Some(&Value::Array(vec![Value::Null, Value::Bool(true), Value::from("x")]))
    );
    let described = match document.get("columns") {
        Some(Value::Array(items)) => items,
        other => panic!("{:?}", other),
    };
    assert_eq!(described.len(), 1);
    assert_eq!(described[0].get("name"), Some(&Value::from("n")));
    assert_eq!(described[0].get("data_type"), Some(&Value::from("Int32")));
}

#[test]
fn empty_document_has_empty_arrays() {
    assert_eq!(
        query_json_text(Vec::new(), Vec::new(), Number::from(0)),
        "{\n  \"columns\": [],\n  \"query_time_ms\": 0,\n  \"row_count\": 0,\n  \"rows\": []\n}"
    );
}

#[test]
fn serve_needs_a_directory() {
    let flags = ServeFlags { background: false, stop: false, status: false };
    assert_eq!(
        cmd_serve("heap", Err(error()), flags, 300),
        Err("Error: cannot resolve path heap: e".to_string())
    );
    let command = serve(false, false, false);
    assert_eq!(command.socket_path, "/tmp/heappy-serve-7844e259.sock");
    assert_eq!(command.pid_path, "/tmp/heappy-serve-7844e259.pid");
}

#[test]
fn serve_runs_in_the_foreground() {
    let command = serve(false, false, false);
    assert_eq!(command.next(ServeEvent::Started), runs());
    assert_eq!(command.next(ServeEvent::ServerEnded(Ok(()))), done(Vec::new()));
    assert_eq!(command.next(ServeEvent::ServerEnded(Err(error()))), exits("Server error: e"));
}

#[test]
fn stop_comes_before_status_and_start() {
    assert_eq!(serve(true, true, true).next(ServeEvent::Started), ServeAction::CheckSocket { socket_path: socket() });
    assert_eq!(
        serve(true, true, true).next(ServeEvent::Connected(true)),
        ServeAction::SendShutdown { socket_path: socket() }
    );
    assert_eq!(serve(true, false, true).next(ServeEvent::Started), ServeAction::CheckSocket { socket_path: socket() });
    assert_eq!(
        serve(true, false, true).next(ServeEvent::Connected(true)),
        ServeAction::ReadStatus { socket_path: socket() }
    );
}

#[test]
fn stop_asks_a_running_server() {
    let command = serve(false, true, false);
    assert_eq!(
        command.next(ServeEvent::SocketExists(false)),
        exits("No server running for /data/heap")
    );
    assert_eq!(command.next(ServeEvent::SocketExists(true)), ServeAction::Connect { socket_path: socket() });
    assert_eq!(
        command.next(ServeEvent::ShutdownSent(Ok(()))),
        done(vec!["Server shutdown requested"])
    );
    assert_eq!(
        command.next(ServeEvent::ShutdownSent(Err(error()))),
        done(vec!["Shutdown error: e", "Server shutdown requested"])
    );
}

#[test]
fn stop_cleans_up_behind_a_dead_server() {
    let command = serve(false, true, false);
    assert_eq!(
        command.next(ServeEvent::Connected(false)),
        ServeAction::RemoveStale {
            log: "Stale socket, cleaning up".to_string(),
            socket_path: "/tmp/heappy-serve-7844e259.sock".to_string(),
            pid_path: "/tmp/heappy-serve-7844e259.pid".to_string(),
        }
    );
    assert_eq!(command.next(ServeEvent::StaleRemoved), done(Vec::new()));
}

#[test]
fn status_is_printed() {
    let command = serve(false, false, true);
    assert_eq!(
        command.next(ServeEvent::StatusRead(Ok((12, "/data/heap".to_string(), 3600)))),
        ServeAction::Print {
            lines: vec![
                "Server running".to_string(),
                "  Parquet dir: /data/heap".to_string(),
                "  Tables: 12".to_string(),
                "  Uptime: 3600s".to_string(),
                "  Socket: /tmp/heappy-serve-7844e259.sock".to_string(),
            ],
        }
    );
    assert_eq!(command.next(ServeEvent::StatusRead(Err(error()))), exits("Status error: e"));
    assert_eq!(
        command.next(ServeEvent::Connected(false)),
        exits("Stale socket, no running server")
    );
}

#[test]
fn background_parent_waits_for_the_server() {
    let command = serve(true, false, false);
    assert_eq!(command.next(ServeEvent::Started), ServeAction::Fork);
    assert_eq!(command.next(ServeEvent::Forked { pid: -1 }), exits("Failed to fork"));
    assert_eq!(
        command.next(ServeEvent::Forked { pid: 4711 }),
        ServeAction::WaitForServer {
            log: "Server starting in background (PID 4711)\n".to_string(),
            socket_path: socket(),
            secs: 30,
        }
    );
    assert_eq!(
        command.next(ServeEvent::Waited(Ok(()))),
        ServeAction::Leave {
            log: "Server ready at /tmp/heappy-serve-7844e259.sock\n".to_string(),
        }
    );
    assert_eq!(
        command.next(ServeEvent::Waited(Err(error()))),
        ServeAction::Leave { log: "Warning: e\n".to_string() }
    );
}

#[test]
fn background_child_runs_the_server() {
    let command = serve(true, false, false);
    assert_eq!(command.next(ServeEvent::Forked { pid: 0 }), ServeAction::Detach);
    assert_eq!(command.next(ServeEvent::Detached), runs());
}
