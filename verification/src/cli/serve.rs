//! The command that starts, stops or asks after the server of a directory.
use crate::cli::{prefixed, unresolved_message, unresolved_text};
use crate::engine::choice::SERVER_START_SECS;
use crate::engine::duckdb_client::ServerStatus;
use crate::engine::paths::{pid_path, server_paths_for, socket_path};
use crate::text::{decimal_digits, push_decimal, texts};
use vstd::prelude::*;

verus! {

/// What the command was asked for.
#[derive(Debug, Clone, Copy, PartialEq, Eq, Structural)]
pub struct ServeFlags {
    /// Run in the background.
    pub background: bool,
    /// Stop a running server.
    pub stop: bool,
    /// Show the status of a running server.
    pub status: bool,
}

/// The command for a directory whose path was resolved.
#[derive(Debug, PartialEq)]
pub struct ServeCommand {
    pub flags: ServeFlags,
    pub parquet_dir: String,
    pub socket_path: String,
    pub pid_path: String,
    /// For how many seconds the server may have nothing to do.
    pub idle_timeout: u64,
}

/// What was done last, with what came of it.
#[derive(Debug, PartialEq)]
pub enum ServeEvent {
    Started,
    /// Whether the socket exists.
    SocketExists(bool),
    /// Whether a server answered behind the socket.
    Connected(bool),
    ShutdownSent(Result<(), String>),
    StatusRead(Result<ServerStatus, String>),
    /// The files of a server that is gone were removed, or could not be, which does not matter.
    StaleRemoved,
    /// What the fork returned: the process id in the parent, 0 in the child.
    Forked { pid: i32 },
    /// In the parent: the server came up in time.
    Waited(Result<(), String>),
    /// In the child: it has left its terminal.
    Detached,
    /// The server has run.
    ServerEnded(Result<(), String>),
}

/// What to do next.
#[derive(Debug, PartialEq)]
pub enum ServeAction {
    CheckSocket { socket_path: String },
    /// Tries to reach a server behind the socket.
    Connect { socket_path: String },
    /// Asks the server behind the socket to shut down.
    SendShutdown { socket_path: String },
    /// Asks the server behind the socket for its status.
    ReadStatus { socket_path: String },
    /// Logs the line and removes the two files.
    RemoveStale { log: String, socket_path: String, pid_path: String },
    Fork,
    /// Writes the line and waits for a server behind the socket.
    WaitForServer { log: String, socket_path: String, secs: u64 },
    Detach,
    /// Runs the server of the directory.
    RunServer { parquet_dir: String, idle_secs: u64 },
    /// Logs the lines; the command is done.
    Return { logs: Vec<String> },
    /// Prints the lines; the command is done.
    Print { lines: Vec<String> },
    /// Logs the message and ends the program with the code.
    Exit { code: i32, message: String },
    /// Writes the line and ends the process at once, with code 0.
    Leave { log: String },
}

/// The text of the absence of a server.
pub open spec fn no_server_text(dir: Seq<char>) -> Seq<char> {
    "No server running for "@ + dir
}

/// The lines of a status report.
pub open spec fn status_lines(
    table_count: nat,
    dir: Seq<char>,
    uptime_secs: nat,
    socket: Seq<char>,
) -> Seq<Seq<char>> {
    seq![
        "Server running"@,
        "  Parquet dir: "@ + dir,
        "  Tables: "@ + decimal_digits(table_count),
        "  Uptime: "@ + decimal_digits(uptime_secs) + "s"@,
        "  Socket: "@ + socket,
    ]
}

/// Whether an action ends the program with code 1 and that message.
pub open spec fn exits_with(action: ServeAction, text: Seq<char>) -> bool {
    action matches ServeAction::Exit { code, message } && code == 1 && message@ == text
}

/// Whether an action runs the server of that directory.
pub open spec fn runs_server(action: ServeAction, dir: Seq<char>, secs: nat) -> bool {
    action matches ServeAction::RunServer { parquet_dir, idle_secs } && parquet_dir@ == dir
        && idle_secs == secs
}

/// Whether an action ends the command after logging those lines.
pub open spec fn returns_with(action: ServeAction, lines: Seq<Seq<char>>) -> bool {
    action matches ServeAction::Return { logs } && texts(logs@) == lines
}

impl ServeCommand {
    /// Whether the paths are those of the directory.
    pub open spec fn wf(&self) -> bool {
        &&& self.socket_path@ == socket_path(self.parquet_dir@)
        &&& self.pid_path@ == pid_path(self.parquet_dir@)
    }

    /// The course of the command. To stop a server comes before asking for its
    /// status, and that before starting one.
    pub open spec fn runs(&self, event: ServeEvent, action: ServeAction) -> bool {
        match event {
            ServeEvent::Started => if self.flags.stop || self.flags.status {
                action matches ServeAction::CheckSocket { socket_path } && socket_path@
                    == self.socket_path@
            } else if self.flags.background {
                action == ServeAction::Fork
            } else {
                runs_server(action, self.parquet_dir@, self.idle_timeout as nat)
            },
            ServeEvent::SocketExists(true) => action matches ServeAction::Connect { socket_path }
                && socket_path@ == self.socket_path@,
            ServeEvent::SocketExists(false) => exits_with(action, no_server_text(self.parquet_dir@)),
            ServeEvent::Connected(true) => if self.flags.stop {
                action matches ServeAction::SendShutdown { socket_path } && socket_path@
                    == self.socket_path@
            } else {
                action matches ServeAction::ReadStatus { socket_path } && socket_path@
                    == self.socket_path@
            },
            ServeEvent::Connected(false) => if self.flags.stop {
                &&& action matches ServeAction::RemoveStale { log, socket_path, pid_path }
                &&& log@ == "Stale socket, cleaning up"@
                &&& socket_path@ == self.socket_path@
                &&& pid_path@ == self.pid_path@
            } else {
                exits_with(action, "Stale socket, no running server"@)
            },
            ServeEvent::ShutdownSent(Ok(_)) => returns_with(
                action,
                seq!["Server shutdown requested"@],
            ),
            ServeEvent::ShutdownSent(Err(e)) => returns_with(
                action,
                seq!["Shutdown error: "@ + e@, "Server shutdown requested"@],
            ),
            ServeEvent::StaleRemoved => returns_with(action, Seq::empty()),
            ServeEvent::StatusRead(Ok((table_count, dir, uptime_secs))) => action matches
                ServeAction::Print { lines } && texts(lines@) == status_lines(
                table_count as nat,
                dir@,
                uptime_secs as nat,
                self.socket_path@,
            ),
            ServeEvent::StatusRead(Err(e)) => exits_with(action, "Status error: "@ + e@),
            ServeEvent::Forked { pid } => if pid < 0 {
                exits_with(action, "Failed to fork"@)
            } else if pid > 0 {
                &&& action matches ServeAction::WaitForServer { log, socket_path, secs }
                &&& socket_path@ == self.socket_path@
                &&& log@ == "Server starting in background (PID "@ + decimal_digits(pid as nat)
                    + ")\n"@
                &&& secs == SERVER_START_SECS
            } else {
                action == ServeAction::Detach
            },
            ServeEvent::Waited(Ok(_)) => action matches ServeAction::Leave { log } && log@
                == "Server ready at "@ + self.socket_path@ + "\n"@,
            ServeEvent::Waited(Err(e)) => action matches ServeAction::Leave { log } && log@
                == "Warning: "@ + e@ + "\n"@,
            ServeEvent::Detached => runs_server(
                action,
                self.parquet_dir@,
                self.idle_timeout as nat,
            ),
            ServeEvent::ServerEnded(Ok(_)) => returns_with(action, Seq::empty()),
            ServeEvent::ServerEnded(Err(e)) => exits_with(action, "Server error: "@ + e@),
        }
    }

    /// What the command does next.
    pub fn next(&self, event: ServeEvent) -> (action: ServeAction)
        ensures
            self.runs(event, action),
    {
        match event {
            ServeEvent::Started => {
                if self.flags.stop || self.flags.status {
                    ServeAction::CheckSocket { socket_path: self.socket_path.clone() }
                } else if self.flags.background {
                    ServeAction::Fork
                } else {
                    self.run_server()
                }
            },
            ServeEvent::SocketExists(true) => ServeAction::Connect {
                socket_path: self.socket_path.clone(),
            },
            ServeEvent::SocketExists(false) => ServeAction::Exit {
                code: 1,
                message: prefixed("No server running for ", self.parquet_dir.as_str()),
            },
            ServeEvent::Connected(true) => {
                let socket_path = self.socket_path.clone();
                if self.flags.stop {
                    ServeAction::SendShutdown { socket_path }
                } else {
                    ServeAction::ReadStatus { socket_path }
                }
            },
            ServeEvent::Connected(false) => {
                if self.flags.stop {
                    ServeAction::RemoveStale {
                        log: "Stale socket, cleaning up".to_string(),
                        socket_path: self.socket_path.clone(),
                        pid_path: self.pid_path.clone(),
                    }
                } else {
                    ServeAction::Exit {
                        code: 1,
                        message: "Stale socket, no running server".to_string(),
                    }
                }
            },
            ServeEvent::ShutdownSent(outcome) => {
                let mut logs: Vec<String> = Vec::new();
                if let Err(e) = outcome {
                    logs.push(prefixed("Shutdown error: ", e.as_str()));
                }
                logs.push("Server shutdown requested".to_string());
                let action = ServeAction::Return { logs };
                proof {
                    let lines = texts(action->logs@);
                    if outcome is Ok {
                        assert(lines =~= seq!["Server shutdown requested"@]);
                    } else {
                        assert(lines =~= seq![
                            "Shutdown error: "@ + outcome->Err_0@,
                            "Server shutdown requested"@,
                        ]);
                    }
                }
                action
            },
            ServeEvent::StaleRemoved => ServeCommand::done(),
            ServeEvent::StatusRead(Ok((table_count, dir, uptime_secs))) => self.report(
                table_count,
                dir.as_str(),
                uptime_secs,
            ),
            ServeEvent::StatusRead(Err(e)) => ServeAction::Exit {
                code: 1,
                message: prefixed("Status error: ", e.as_str()),
            },
            ServeEvent::Forked { pid } => {
                if pid < 0 {
                    ServeAction::Exit { code: 1, message: "Failed to fork".to_string() }
                } else if pid > 0 {
                    let mut log = "Server starting in background (PID ".to_string();
                    push_decimal(&mut log, pid as u128);
                    log.append(")\n");
                    ServeAction::WaitForServer {
                        log,
                        socket_path: self.socket_path.clone(),
                        secs: SERVER_START_SECS,
                    }
                } else {
                    ServeAction::Detach
                }
            },
            ServeEvent::Waited(Ok(_)) => {
                let mut log = prefixed("Server ready at ", self.socket_path.as_str());
                log.append("\n");
                ServeAction::Leave { log }
            },
            ServeEvent::Waited(Err(e)) => {
                let mut log = prefixed("Warning: ", e.as_str());
                log.append("\n");
                ServeAction::Leave { log }
            },
            ServeEvent::Detached => self.run_server(),
            ServeEvent::ServerEnded(Ok(_)) => ServeCommand::done(),
            ServeEvent::ServerEnded(Err(e)) => ServeAction::Exit {
                code: 1,
                message: prefixed("Server error: ", e.as_str()),
            },
        }
    }

    fn run_server(&self) -> (action: ServeAction)
        ensures
            runs_server(action, self.parquet_dir@, self.idle_timeout as nat),
    {
        ServeAction::RunServer {
            parquet_dir: self.parquet_dir.clone(),
            idle_secs: self.idle_timeout,
        }
    }

    fn done() -> (action: ServeAction)
        ensures
            returns_with(action, Seq::empty()),
    {
        let logs: Vec<String> = Vec::new();
        assert(texts(logs@) =~= Seq::empty());
        ServeAction::Return { logs }
    }

    fn report(&self, table_count: usize, dir: &str, uptime_secs: u64) -> (action: ServeAction)
        ensures
            action matches ServeAction::Print { lines } && texts(lines@) == status_lines(
                table_count as nat,
                dir@,
                uptime_secs as nat,
                self.socket_path@,
            ),
    {
        let mut tables = "  Tables: ".to_string();
        push_decimal(&mut tables, table_count as u128);
        let mut uptime = "  Uptime: ".to_string();
        push_decimal(&mut uptime, uptime_secs as u128);
        uptime.append("s");
        let mut lines: Vec<String> = Vec::new();
        lines.push("Server running".to_string());
        lines.push(prefixed("  Parquet dir: ", dir));
        lines.push(tables);
        lines.push(uptime);
        lines.push(prefixed("  Socket: ", self.socket_path.as_str()));
        assert(texts(lines@) =~= status_lines(
            table_count as nat,
            dir@,
            uptime_secs as nat,
            self.socket_path@,
        ));
        ServeAction::Print { lines }
    }
}

/// The command for a directory, from the outcome of resolving its path; the
/// message to exit with, code 1, if that failed.
pub fn cmd_serve(
    given_dir: &str,
    resolved: Result<String, String>,
    flags: ServeFlags,
    idle_timeout: u64,
) -> (command: Result<ServeCommand, String>)
    ensures
        match resolved {
            Ok(dir) => command matches Ok(c) && c.parquet_dir == dir && c.flags == flags
                && c.idle_timeout == idle_timeout && c.wf(),
            Err(e) => command matches Err(message) && message@ == unresolved_text(given_dir@, e@),
        },
{
    match resolved {
        Ok(parquet_dir) => {
            let paths = server_paths_for(parquet_dir.as_str());
            Ok(
                ServeCommand {
                    flags,
                    parquet_dir,
                    socket_path: paths.socket,
                    pid_path: paths.pid,
                    idle_timeout,
                },
            )
        },
        Err(e) => Err(unresolved_message(given_dir, e.as_str())),
    }
}

/// Whether an event can come of an action.
pub open spec fn serve_answers(action: ServeAction, event: ServeEvent) -> bool {
    match action {
        ServeAction::CheckSocket { socket_path } => event is SocketExists,
        ServeAction::Connect { socket_path } => event is Connected,
        ServeAction::SendShutdown { socket_path } => event is ShutdownSent,
        ServeAction::ReadStatus { socket_path } => event is StatusRead,
        ServeAction::RemoveStale { log, socket_path, pid_path } => event is StaleRemoved,
        ServeAction::Fork => event is Forked,
        ServeAction::WaitForServer { log, socket_path, secs } => event is Waited,
        ServeAction::Detach => event is Detached,
        ServeAction::RunServer { parquet_dir, idle_secs } => event is ServerEnded,
        _ => false,
    }
}

/// Whether the events and actions are those of the command, from its beginning on.
pub open spec fn is_serve_run(
    command: ServeCommand,
    events: Seq<ServeEvent>,
    actions: Seq<ServeAction>,
) -> bool {
    &&& events.len() == actions.len()
    &&& events.len() > 0
    &&& events[0] is Started
    &&& forall|i: int| #![trigger events[i], actions[i]]
        0 <= i < events.len() ==> command.runs(events[i], actions[i])
    &&& forall|i: int, j: int| #![trigger actions[i], events[j]]
        0 <= i && j == i + 1 && j < events.len() ==> serve_answers(actions[i], events[j])
}

proof fn lemma_serve_run_shape(
    command: ServeCommand,
    events: Seq<ServeEvent>,
    actions: Seq<ServeAction>,
)
    requires
        is_serve_run(command, events, actions),
    ensures
        events.len() <= 4,
        (command.flags.stop || command.flags.status) ==> {
            &&& events.len() > 1 ==> events[1] is SocketExists
            &&& events.len() > 2 ==> events[1] == ServeEvent::SocketExists(true)
                && events[2] is Connected
            &&& events.len() > 3 && command.flags.stop ==> if events[2] == ServeEvent::Connected(true) {
                events[3] is ShutdownSent
            } else {
                events[3] is StaleRemoved
            }
            &&& events.len() > 3 && !command.flags.stop ==> events[3] is StatusRead
        },
        !(command.flags.stop || command.flags.status) ==> {
            &&& events.len() > 1 ==> if command.flags.background {
                events[1] is Forked
            } else {
                events[1] is ServerEnded && events.len() == 2
            }
            &&& events.len() > 2 ==> events[2] is Waited || events[2] is Detached
            &&& events.len() > 3 ==> events[2] is Detached && events[3] is ServerEnded
            &&& events.len() > 2 && events[2] is Detached ==> events[1]
                == (ServeEvent::Forked { pid: 0 })
        },
{
    assert(command.runs(events[0], actions[0]));
    if events.len() > 1 {
        assert(serve_answers(actions[0], events[1]));
        assert(command.runs(events[1], actions[1]));
    }
    if events.len() > 2 {
        assert(serve_answers(actions[1], events[2]));
        assert(command.runs(events[2], actions[2]));
    }
    if events.len() > 3 {
        assert(serve_answers(actions[2], events[3]));
        assert(command.runs(events[3], actions[3]));
    }
    if events.len() > 4 {
        assert(serve_answers(actions[3], events[4]));
    }
}

/// Stopping a server or asking for its status never starts one or forks.
pub proof fn law_stop_and_status_start_nothing(
    command: ServeCommand,
    events: Seq<ServeEvent>,
    actions: Seq<ServeAction>,
    i: int,
)
    requires
        is_serve_run(command, events, actions),
        command.flags.stop || command.flags.status,
        0 <= i < actions.len(),
    ensures
        !(actions[i] is RunServer) && !(actions[i] is Fork),
{
    lemma_serve_run_shape(command, events, actions);
    assert(command.runs(events[i], actions[i]));
}

/// Files are removed only to stop a server that does not answer on its existing
/// socket, and they are the directory's own; a server is asked to shut down only
/// if it answers.
pub proof fn law_stop_acts_on_what_it_finds(
    command: ServeCommand,
    events: Seq<ServeEvent>,
    actions: Seq<ServeAction>,
    i: int,
)
    requires
        command.wf(),
        is_serve_run(command, events, actions),
        0 <= i < actions.len(),
    ensures
        actions[i] matches ServeAction::RemoveStale { log, socket_path: socket, pid_path: pid }
            ==> socket@ == socket_path(command.parquet_dir@) && pid@ == pid_path(
            command.parquet_dir@,
        ),
        actions[i] is RemoveStale ==> command.flags.stop && i == 2 && events[1]
            == ServeEvent::SocketExists(true) && events[2] == ServeEvent::Connected(false),
        actions[i] is SendShutdown ==> command.flags.stop && i == 2 && events[2]
            == ServeEvent::Connected(true),
{
    lemma_serve_run_shape(command, events, actions);
    assert(command.runs(events[i], actions[i]));
}

/// A server in the background runs in the child process; the parent waits and leaves.
pub proof fn law_background_server_runs_in_the_child(
    command: ServeCommand,
    events: Seq<ServeEvent>,
    actions: Seq<ServeAction>,
    i: int,
)
    requires
        is_serve_run(command, events, actions),
        command.flags.background,
        0 <= i < actions.len(),
        actions[i] is RunServer,
    ensures
        events.len() > 1,
        events[1] == (ServeEvent::Forked { pid: 0 }),
{
    lemma_serve_run_shape(command, events, actions);
    assert(command.runs(events[i], actions[i]));
    assert(command.runs(events[0], actions[0]));
}

}
