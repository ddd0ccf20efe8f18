use heappy::engine::choice::{
    AutoServeAction, AutoServeEvent, EngineAction, EngineEvent, Place,
};
use heappy::engine::duckdb_client::DuckDbClientEngine;
use heappy::engine::views::register_parquet_views;
use heappy::engine::{
    parquet_engine, parquet_engine_auto_serve, DuckDbParquetEngine, EngineVariant, OpenAction,
    OpenEvent,
};

fn client() -> DuckDbClientEngine {
    DuckDbClientEngine { socket_path: "/tmp/s.sock".to_string() }
}

fn opened() -> DuckDbParquetEngine {
    let registered = OpenEvent::Registered {
        parquet_dir: "/data/heap".to_string(),
        registration: register_parquet_views(&Vec::new()),
    };
    match DuckDbParquetEngine::new("heap", registered) {
        OpenAction::Finish(Ok(engine)) => engine,
        other => panic!("{:?}", other),
    }
}

fn place() -> Place {
    Place {
        parquet_dir: "/data/heap".to_string(),
        socket_path: "/tmp/heappy-serve-7844e259.sock".to_string(),
    }
}

fn counted(files: usize) -> AutoServeEvent {
    AutoServeEvent::Counted { place: place(), files }
}

fn looked_up(found: bool) -> EngineEvent {
    EngineEvent::SocketExists { place: place(), found }
}

fn connected(client: Result<DuckDbClientEngine, String>) -> EngineEvent {
    EngineEvent::Connected { place: place(), client }
}

fn started(outcome: Result<(), String>) -> AutoServeEvent {
    AutoServeEvent::ServerStarted { place: place(), outcome }
}

#[test]
fn running_server_is_preferred() {
    assert_eq!(parquet_engine("heap", EngineEvent::Started), EngineAction::Resolve { dir: "heap".to_string() });
    assert_eq!(
        parquet_engine("heap", EngineEvent::Resolved(Ok("/data/heap".to_string()))),
        EngineAction::CheckSocket { place: place() }
    );
    assert_eq!(parquet_engine("heap", looked_up(true)), EngineAction::Connect { place: place() });
    assert_eq!(
        parquet_engine("heap", connected(Ok(client()))),
        EngineAction::Finish(Ok(EngineVariant::Remote(client())))
    );
}

#[test]
fn dead_socket_is_removed() {
    assert_eq!(
        parquet_engine("heap", connected(Err("refused".to_string()))),
        EngineAction::RemoveSocket { place: place() }
    );
    assert_eq!(
        parquet_engine("heap", EngineEvent::SocketRemoved { place: place() }),
        EngineAction::OpenInline { place: place() }
    );
}

#[test]
fn engine_is_inline_without_a_socket() {
    assert_eq!(parquet_engine("heap", looked_up(false)), EngineAction::OpenInline { place: place() });
    assert_eq!(
        parquet_engine("heap", EngineEvent::Opened(Ok(opened()))),
        EngineAction::Finish(Ok(EngineVariant::Inline(opened())))
    );
}

#[test]
fn engine_failures_are_passed_on() {
    assert_eq!(
        parquet_engine("heap", EngineEvent::Resolved(Err("no dir".to_string()))),
        EngineAction::Finish(Err("no dir".to_string()))
    );
    assert_eq!(
        parquet_engine("heap", EngineEvent::Opened(Err("no db".to_string()))),
        EngineAction::Finish(Err("no db".to_string()))
    );
}

#[test]
fn server_is_started_above_a_hundred_files() {
    assert_eq!(parquet_engine_auto_serve("heap", AutoServeEvent::Started), AutoServeAction::Resolve { dir: "heap".to_string() });
    assert_eq!(
        parquet_engine_auto_serve("heap", AutoServeEvent::Resolved(Ok("/data/heap".to_string()))),
        AutoServeAction::CheckSocket { place: place() }
    );
    assert_eq!(
        parquet_engine_auto_serve("heap", AutoServeEvent::SocketExists { place: place(), found: false }),
        AutoServeAction::CountFiles { place: place() }
    );
    assert_eq!(
        parquet_engine_auto_serve("heap", counted(100)),
        AutoServeAction::OpenEngine { dir: "heap".to_string() }
    );
    assert_eq!(
        parquet_engine_auto_serve("heap", counted(101)),
        AutoServeAction::StartServer {
            place: place(),
            args: vec![
                "serve".to_string(),
                "/data/heap".to_string(),
                "--background".to_string(),
            ],
        }
    );
    assert_eq!(
        parquet_engine_auto_serve("heap", started(Ok(()))),
        AutoServeAction::WaitForSocket { place: place(), secs: 30 }
    );
    assert_eq!(
        parquet_engine_auto_serve("heap", AutoServeEvent::Waited(Ok(()))),
        AutoServeAction::OpenEngine { dir: "heap".to_string() }
    );
}

#[test]
fn existing_socket_needs_no_new_server() {
    assert_eq!(
        parquet_engine_auto_serve("heap", AutoServeEvent::SocketExists { place: place(), found: true }),
        AutoServeAction::OpenEngine { dir: "heap".to_string() }
    );
}

#[test]
fn server_start_failures_are_passed_on() {
    let fail = || AutoServeAction::Fail("e".to_string());
    let error = || "e".to_string();
    assert_eq!(parquet_engine_auto_serve("heap", AutoServeEvent::Resolved(Err(error()))), fail());
    assert_eq!(parquet_engine_auto_serve("heap", started(Err(error()))), fail());
    assert_eq!(parquet_engine_auto_serve("heap", AutoServeEvent::Waited(Err(error()))), fail());
}
