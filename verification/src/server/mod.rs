//! The query server.
pub mod connection;
pub mod laws;
pub mod protocol;

use crate::engine::paths::{pid_path, server_paths_for, socket_path};
use crate::engine::DuckDbParquetEngine;
use crate::server::connection::{handles, next_on_connection, ConnectionAction, ConnectionEvent};
use crate::text::{decimal_digits, push_decimal};
use vstd::prelude::*;

verus! {

/// A server that is about to be started for a directory.
#[derive(Debug, PartialEq)]
pub struct Launch {
    pub parquet_dir: String,
    pub socket_path: String,
    pub pid_path: String,
    pub idle_timeout_nanos: u128,
}

/// A server with its engine.
#[derive(Debug, PartialEq)]
pub struct HeappyServer {
    pub engine: DuckDbParquetEngine,
    pub socket_path: String,
    pub pid_path: String,
    pub idle_timeout_nanos: u128,
}

/// What was done last to start a server, with what came of it.
#[derive(Debug, PartialEq)]
pub enum LaunchEvent {
    Started,
    /// Whether the socket exists.
    SocketExists(bool),
    /// Whether a server answered behind the socket.
    Probed(bool),
    /// The socket was removed, or could not be, which does not matter.
    SocketRemoved,
    /// The engine over the directory.
    EngineBuilt(Result<DuckDbParquetEngine, String>),
}

/// What to do next to start a server.
#[derive(Debug, PartialEq)]
pub enum LaunchAction {
    CheckSocket { socket_path: String },
    /// Tries to connect to the socket.
    Probe { socket_path: String },
    RemoveSocket { socket_path: String },
    /// Logs the line and builds the engine over the directory.
    BuildEngine { parquet_dir: String, log: String },
    /// Logs the line and runs the server.
    Run { server: HeappyServer, log: String },
    Fail(String),
}

/// How a server ends once it has cleaned up.
#[derive(Debug, PartialEq)]
pub enum Ending {
    /// It cleans up once more when it is dropped.
    Stopping,
    Stopped,
    Failed(String),
}

/// What was done last by a server, with what came of it. Times are those of a
/// clock that does not go backwards.
#[derive(Debug, PartialEq)]
pub enum ServerEvent {
    /// The server has a process id.
    Started { pid: u32 },
    PidWritten(Result<(), String>),
    Bound(Result<(), String>),
    /// The socket was set up; from then on the server may be idle.
    NonblockingSet { outcome: Result<(), String>, now_nanos: u128 },
    /// A connection came in.
    Accepted { now_nanos: u128 },
    /// The connection was handled; whether its request was to shut down.
    Handled { shutdown: bool },
    /// No connection waits.
    Quiet { now_nanos: u128 },
    AcceptFailed(String),
    Slept,
    CleanedUp(Ending),
}

/// What a server does next.
#[derive(Debug, PartialEq)]
pub enum ServerAction {
    /// Writes the text to the process id file.
    WritePid { pid_path: String, text: String },
    /// Listens on the socket.
    Bind { socket_path: String },
    SetNonblocking,
    Accept,
    HandleConnection,
    Sleep { millis: u64 },
    /// Removes the files of the server.
    CleanUp(Ending),
    Finish(Result<(), String>),
}

/// What a server does next, after logging a line if there is one.
#[derive(Debug, PartialEq)]
pub struct ServerStep {
    pub log: Option<String>,
    pub action: ServerAction,
}

/// When a server began to serve, and when it was last busy.
#[derive(Debug, Clone, Copy, PartialEq, Eq, Structural)]
pub struct ServerClock {
    pub started_nanos: u128,
    pub last_nanos: u128,
}

/// The files that a server removes at its end, and the line that it logs then.
#[derive(Debug, PartialEq)]
pub struct Cleanup {
    pub socket_path: String,
    pub pid_path: String,
    pub log: String,
}

/// The pause between two looks for a connection.
pub const ACCEPT_MILLIS: u64 = 100;

/// Whether a line to log has that text.
pub open spec fn logs(log: Option<String>, text: Seq<char>) -> bool {
    log matches Some(line) && line@ == text
}

/// When a server was last busy, after an event: every connection that comes in
/// counts, and so does the set-up of the socket.
pub open spec fn last_activity(last_nanos: u128, event: ServerEvent) -> u128 {
    match event {
        ServerEvent::NonblockingSet { outcome, now_nanos } => now_nanos,
        ServerEvent::Accepted { now_nanos } => now_nanos,
        _ => last_nanos,
    }
}

/// When a server began to serve, after an event: when its socket was set up.
pub open spec fn begin(started_nanos: u128, event: ServerEvent) -> u128 {
    match event {
        ServerEvent::NonblockingSet { outcome, now_nanos } => now_nanos,
        _ => started_nanos,
    }
}

/// The full seconds between two times, as far as 64 bits can hold them.
pub open spec fn secs_between(from_nanos: u128, to_nanos: u128) -> nat {
    if to_nanos <= from_nanos {
        0
    } else if (to_nanos - from_nanos) / 1_000_000_000 > u64::MAX {
        u64::MAX as nat
    } else {
        ((to_nanos - from_nanos) / 1_000_000_000) as nat
    }
}

impl ServerClock {
    /// The clock of a server that has not begun to serve.
    pub fn new() -> (clock: Self)
        ensures
            clock.started_nanos == 0,
            clock.last_nanos == 0,
    {
        ServerClock { started_nanos: 0, last_nanos: 0 }
    }

    /// For how many seconds the server has been serving.
    pub fn uptime_secs(&self, now_nanos: u128) -> (secs: u64)
        ensures
            secs == secs_between(self.started_nanos, now_nanos),
    {
        if now_nanos <= self.started_nanos {
            return 0;
        }
        let secs: u128 = (now_nanos - self.started_nanos) / 1_000_000_000;
        if secs > u64::MAX as u128 {
            u64::MAX
        } else {
            secs as u64
        }
    }
}

impl Launch {
    /// Whether the paths are those of the directory.
    pub open spec fn wf(&self) -> bool {
        &&& self.socket_path@ == socket_path(self.parquet_dir@)
        &&& self.pid_path@ == pid_path(self.parquet_dir@)
    }

    /// Whether a server is the one to start, with an engine.
    pub open spec fn makes(&self, engine: DuckDbParquetEngine, server: HeappyServer) -> bool {
        &&& server.engine == engine
        &&& server.socket_path@ == self.socket_path@
        &&& server.pid_path@ == self.pid_path@
        &&& server.idle_timeout_nanos == self.idle_timeout_nanos
    }

    /// The course of a start: a running server is left alone, a socket that
    /// nobody answers on is removed, and then the engine is built.
    pub open spec fn launches(&self, event: LaunchEvent, action: LaunchAction) -> bool {
        match event {
            LaunchEvent::Started => action matches LaunchAction::CheckSocket { socket_path }
                && socket_path@ == self.socket_path@,
            LaunchEvent::SocketExists(true) => action matches LaunchAction::Probe { socket_path }
                && socket_path@ == self.socket_path@,
            LaunchEvent::Probed(true) => action matches LaunchAction::Fail(e) && e@
                == "Server already running for "@ + self.parquet_dir@,
            LaunchEvent::Probed(false) => action matches LaunchAction::RemoveSocket { socket_path }
                && socket_path@ == self.socket_path@,
            LaunchEvent::SocketExists(false) | LaunchEvent::SocketRemoved => {
                &&& action matches LaunchAction::BuildEngine { parquet_dir, log }
                &&& parquet_dir@ == self.parquet_dir@
                &&& log@ == "Registering parquet tables from "@ + self.parquet_dir@ + "..."@
            },
            LaunchEvent::EngineBuilt(Ok(engine)) => {
                &&& action matches LaunchAction::Run { server, log }
                &&& self.makes(engine, server)
                &&& log@ == "Registered "@ + decimal_digits(engine.tables() as nat)
                    + " tables. Starting server on "@ + self.socket_path@
            },
            LaunchEvent::EngineBuilt(Err(e)) => action == LaunchAction::Fail(e),
        }
    }

    /// What to do next to start the server.
    pub fn next(&self, event: LaunchEvent) -> (action: LaunchAction)
        ensures
            self.launches(event, action),
    {
        match event {
            LaunchEvent::Started => LaunchAction::CheckSocket {
                socket_path: self.socket_path.clone(),
            },
            LaunchEvent::SocketExists(true) => LaunchAction::Probe {
                socket_path: self.socket_path.clone(),
            },
            LaunchEvent::SocketExists(false) => self.build_engine(),
            LaunchEvent::Probed(true) => {
                let mut error = "Server already running for ".to_string();
                error.append(self.parquet_dir.as_str());
                LaunchAction::Fail(error)
            },
            LaunchEvent::Probed(false) => LaunchAction::RemoveSocket {
                socket_path: self.socket_path.clone(),
            },
            LaunchEvent::SocketRemoved => self.build_engine(),
            LaunchEvent::EngineBuilt(Ok(engine)) => {
                let mut log = "Registered ".to_string();
                push_decimal(&mut log, engine.table_count() as u128);
                log.append(" tables. Starting server on ");
                log.append(self.socket_path.as_str());
                let server = HeappyServer {
                    engine,
                    socket_path: self.socket_path.clone(),
                    pid_path: self.pid_path.clone(),
                    idle_timeout_nanos: self.idle_timeout_nanos,
                };
                LaunchAction::Run { server, log }
            },
            LaunchEvent::EngineBuilt(Err(e)) => LaunchAction::Fail(e),
        }
    }

    fn build_engine(&self) -> (action: LaunchAction)
        ensures
            self.launches(LaunchEvent::SocketRemoved, action),
    {
        let mut log = "Registering parquet tables from ".to_string();
        log.append(self.parquet_dir.as_str());
        log.append("...");
        LaunchAction::BuildEngine { parquet_dir: self.parquet_dir.clone(), log }
    }
}

impl HeappyServer {
    /// Begins to start a server for a directory whose path was resolved.
    pub fn start(parquet_dir: Result<String, String>, idle_timeout_nanos: u128) -> (launch: Result<
        Launch,
        String,
    >)
        ensures
            match parquet_dir {
                Ok(dir) => launch matches Ok(l) && l.parquet_dir == dir && l.wf()
                    && l.idle_timeout_nanos == idle_timeout_nanos,
                Err(e) => launch == Err::<Launch, String>(e),
            },
    {
        match parquet_dir {
            Ok(parquet_dir) => {
                let paths = server_paths_for(parquet_dir.as_str());
                Ok(
                    Launch {
                        parquet_dir,
                        socket_path: paths.socket,
                        pid_path: paths.pid,
                        idle_timeout_nanos,
                    },
                )
            },
            Err(e) => Err(e),
        }
    }

    /// The course of a server: it writes its process id, listens, and handles
    /// one connection after another until it is told to shut down or has been
    /// idle for too long. However it ends, it cleans up first. `last_nanos` is
    /// the time when it was last busy.
    pub open spec fn serves(&self, last_nanos: u128, event: ServerEvent, step: ServerStep) -> bool {
        match event {
            ServerEvent::Started { pid } => step.log is None && (step.action matches
                ServerAction::WritePid { pid_path, text } && pid_path@ == self.pid_path@ && text@
                == decimal_digits(pid as nat)),
            ServerEvent::PidWritten(Ok(_)) => step.log is None && (step.action matches
                ServerAction::Bind { socket_path } && socket_path@ == self.socket_path@),
            ServerEvent::Bound(Ok(_)) => step.log is None && step.action
                == ServerAction::SetNonblocking,
            ServerEvent::NonblockingSet { outcome: Ok(_), now_nanos } => {
                &&& logs(
                    step.log,
                    "Server ready. Idle timeout: "@ + decimal_digits(
                        self.idle_timeout_nanos as nat / 1_000_000_000,
                    ) + "s"@,
                )
                &&& step.action == ServerAction::Accept
            },
            ServerEvent::PidWritten(Err(e)) | ServerEvent::Bound(Err(e)) => step.log is None
                && step.action == ServerAction::CleanUp(Ending::Failed(e)),
            ServerEvent::NonblockingSet { outcome: Err(e), now_nanos } => step.log is None
                && step.action == ServerAction::CleanUp(Ending::Failed(e)),
            ServerEvent::Accepted { now_nanos } => step.log is None && step.action
                == ServerAction::HandleConnection,
            ServerEvent::Handled { shutdown: true } => step.log is None && step.action
                == ServerAction::CleanUp(Ending::Stopping),
            ServerEvent::Quiet { now_nanos } => if now_nanos - last_nanos > self.idle_timeout_nanos {
                logs(step.log, "Idle timeout reached, shutting down"@) && step.action
                    == ServerAction::CleanUp(Ending::Stopping)
            } else {
                step.log is None && step.action == (ServerAction::Sleep { millis: ACCEPT_MILLIS })
            },
            ServerEvent::AcceptFailed(e) => logs(step.log, "Accept error: "@ + e@) && step.action
                == (ServerAction::Sleep { millis: ACCEPT_MILLIS }),
            ServerEvent::Handled { shutdown: false } | ServerEvent::Slept => step.log is None
                && step.action == ServerAction::Accept,
            ServerEvent::CleanedUp(Ending::Stopping) => step.log is None && step.action
                == ServerAction::CleanUp(Ending::Stopped),
            ServerEvent::CleanedUp(Ending::Stopped) => step.log is None && step.action
                == ServerAction::Finish(Ok(())),
            ServerEvent::CleanedUp(Ending::Failed(e)) => step.log is None && step.action
                == ServerAction::Finish(Err(e)),
        }
    }

    /// What the server does next.
    pub fn next(&self, clock: &mut ServerClock, event: ServerEvent) -> (step: ServerStep)
        ensures
            self.serves(old(clock).last_nanos, event, step),
            final(clock).last_nanos == last_activity(old(clock).last_nanos, event),
            final(clock).started_nanos == begin(old(clock).started_nanos, event),
    {
        match event {
            ServerEvent::Started { pid } => {
                let mut text = String::new();
                push_decimal(&mut text, pid as u128);
                assert(text@ =~= decimal_digits(pid as nat));
                ServerStep {
                    log: None,
                    action: ServerAction::WritePid { pid_path: self.pid_path.clone(), text },
                }
            },
            ServerEvent::PidWritten(Ok(_)) => ServerStep {
                log: None,
                action: ServerAction::Bind { socket_path: self.socket_path.clone() },
            },
            ServerEvent::Bound(Ok(_)) => ServerStep {
                log: None,
                action: ServerAction::SetNonblocking,
            },
            ServerEvent::NonblockingSet { outcome: Ok(_), now_nanos } => {
                clock.started_nanos = now_nanos;
                clock.last_nanos = now_nanos;
                let mut log = "Server ready. Idle timeout: ".to_string();
                push_decimal(&mut log, self.idle_timeout_nanos / 1_000_000_000);
                log.append("s");
                ServerStep { log: Some(log), action: ServerAction::Accept }
            },
            ServerEvent::PidWritten(Err(e)) => ServerStep {
                log: None,
                action: ServerAction::CleanUp(Ending::Failed(e)),
            },
            ServerEvent::Bound(Err(e)) => ServerStep {
                log: None,
                action: ServerAction::CleanUp(Ending::Failed(e)),
            },
            ServerEvent::NonblockingSet { outcome: Err(e), now_nanos } => {
                clock.started_nanos = now_nanos;
                clock.last_nanos = now_nanos;
                ServerStep { log: None, action: ServerAction::CleanUp(Ending::Failed(e)) }
            },
            ServerEvent::Accepted { now_nanos } => {
                clock.last_nanos = now_nanos;
                ServerStep { log: None, action: ServerAction::HandleConnection }
            },
            ServerEvent::Handled { shutdown: true } => ServerStep {
                log: None,
                action: ServerAction::CleanUp(Ending::Stopping),
            },
            ServerEvent::Handled { shutdown: false } => ServerStep {
                log: None,
                action: ServerAction::Accept,
            },
            ServerEvent::Quiet { now_nanos } => {
                if now_nanos > clock.last_nanos && now_nanos - clock.last_nanos
                    > self.idle_timeout_nanos {
                    ServerStep {
                        log: Some("Idle timeout reached, shutting down".to_string()),
                        action: ServerAction::CleanUp(Ending::Stopping),
                    }
                } else {
                    ServerStep { log: None, action: ServerAction::Sleep { millis: ACCEPT_MILLIS } }
                }
            },
            ServerEvent::AcceptFailed(e) => {
                let mut log = "Accept error: ".to_string();
                log.append(e.as_str());
                ServerStep { log: Some(log), action: ServerAction::Sleep { millis: ACCEPT_MILLIS } }
            },
            ServerEvent::Slept => ServerStep { log: None, action: ServerAction::Accept },
            ServerEvent::CleanedUp(Ending::Stopping) => ServerStep {
                log: None,
                action: ServerAction::CleanUp(Ending::Stopped),
            },
            ServerEvent::CleanedUp(Ending::Stopped) => ServerStep {
                log: None,
                action: ServerAction::Finish(Ok(())),
            },
            ServerEvent::CleanedUp(Ending::Failed(e)) => ServerStep {
                log: None,
                action: ServerAction::Finish(Err(e)),
            },
        }
    }

    /// What to do next on a connection.
    pub fn handle_connection(&self, event: ConnectionEvent) -> (action: ConnectionAction)
        ensures
            handles(self.engine, event, action),
    {
        next_on_connection(&self.engine, event)
    }

    /// What the server cleans up at its end.
    pub fn cleanup(&self) -> (cleanup: Cleanup)
        ensures
            cleanup.socket_path@ == self.socket_path@,
            cleanup.pid_path@ == self.pid_path@,
            cleanup.log@ == "Server stopped, socket cleaned up"@,
    {
        Cleanup {
            socket_path: self.socket_path.clone(),
            pid_path: self.pid_path.clone(),
            log: "Server stopped, socket cleaned up".to_string(),
        }
    }
}

}
