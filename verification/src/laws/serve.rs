//! Laws of the command that starts, stops or asks after a server.
use crate::cli::serve::{is_serve_run, serve_answers, ServeAction, ServeCommand, ServeEvent};
use crate::engine::paths::{sha256, socket_path_for};
use crate::laws::paths::{law_socket_is_named_by_the_directory, names_bytes};
use crate::laws::text::{decimal_value, law_decimal_digits_read_back};
use crate::text::{decimal_digits, texts};
use vstd::prelude::*;
use vstd::utf8::encode_utf8;

verus! {

/// Whether a line stands among the lines that are logged at the end.
pub open spec fn logs_line(action: ServeAction, line: Seq<char>) -> bool {
    action matches ServeAction::Return { logs } && exists|k: int|
        0 <= k < logs@.len() && (#[trigger] logs@[k])@ == line
}

/// A socket that is there is tried. To stop a server, whatever else was asked for, the
/// socket is looked for first, and a server that answers there is sent the request to
/// shut down at once.
pub proof fn law_stop_sends_the_request(
    command: ServeCommand,
    first: ServeAction,
    there: ServeAction,
    answered: ServeAction,
)
    requires
        call_ensures(ServeCommand::next, (&command, ServeEvent::Started), first),
        call_ensures(ServeCommand::next, (&command, ServeEvent::SocketExists(true)), there),
        call_ensures(ServeCommand::next, (&command, ServeEvent::Connected(true)), answered),
    ensures
        there is Connect && there->Connect_socket_path@ == command.socket_path@,
        command.flags.stop ==> first is CheckSocket && first->CheckSocket_socket_path@
            == command.socket_path@,
        command.flags.stop <==> answered is SendShutdown,
        answered is SendShutdown ==> answered->SendShutdown_socket_path@ == command.socket_path@,
{
}

/// In every run with the flag to stop: where the socket exists and a server answers, the
/// next action sends the request to shut down, and to the socket of the directory.
pub proof fn law_answering_server_is_asked_to_stop(
    command: ServeCommand,
    events: Seq<ServeEvent>,
    actions: Seq<ServeAction>,
    i: int,
    dir: &str,
    socket: String,
)
    requires
        command.flags.stop,
        is_serve_run(command, events, actions),
        0 <= i < events.len(),
        command.socket_path@ == socket@,
        dir@ == command.parquet_dir@,
        call_ensures(socket_path_for, (dir,), socket),
    ensures
        events[i] == ServeEvent::Connected(true) ==> actions[i] is SendShutdown
            && actions[i]->SendShutdown_socket_path@ == socket@ && names_bytes(
            actions[i]->SendShutdown_socket_path@,
            sha256(encode_utf8(command.parquet_dir@)),
            ".sock"@,
        ),
        events[i] == ServeEvent::Connected(true) ==> i > 0 && events[i - 1]
            == ServeEvent::SocketExists(true),
        events[i] == ServeEvent::SocketExists(true) ==> actions[i] is Connect
            && actions[i]->Connect_socket_path@ == socket@,
{
    assert(command.runs(events[i], actions[i]));
    if i > 0 {
        assert(serve_answers(actions[i - 1], events[i]));
        assert(command.runs(events[i - 1], actions[i - 1]));
    }
    law_socket_is_named_by_the_directory(dir, socket);
}

/// In every run, with whatever flags: the line that a shutdown was requested is logged
/// only if the request was sent just before, and it is logged whenever it was.
pub proof fn law_shutdown_is_reported_only_if_requested(
    command: ServeCommand,
    events: Seq<ServeEvent>,
    actions: Seq<ServeAction>,
    i: int,
)
    requires
        is_serve_run(command, events, actions),
        0 <= i < events.len(),
    ensures
        logs_line(actions[i], "Server shutdown requested"@) ==> i > 0 && actions[i - 1]
            is SendShutdown && command.flags.stop,
        i > 0 && actions[i - 1] is SendShutdown ==> logs_line(
            actions[i],
            "Server shutdown requested"@,
        ),
{
    assert(command.runs(events[i], actions[i]));
    if i > 0 {
        assert(serve_answers(actions[i - 1], events[i]));
        assert(command.runs(events[i - 1], actions[i - 1]));
    }
    if actions[i] is Return {
        let logs = actions[i]->logs@;
        assert(texts(logs).len() == logs.len());
        if events[i] is ShutdownSent {
            let last = logs.len() - 1;
            assert(texts(logs)[last] == logs[last]@);
        }
        if logs_line(actions[i], "Server shutdown requested"@) {
            assert(i > 0);
        }
    }
}

/// After the request to shut down only that is logged, behind the error if it failed.
pub proof fn law_request_is_logged(
    command: ServeCommand,
    done: Result<(), String>,
    e: String,
    sent: ServeAction,
    failed: ServeAction,
)
    requires
        done is Ok,
        call_ensures(ServeCommand::next, (&command, ServeEvent::ShutdownSent(done)), sent),
        call_ensures(ServeCommand::next, (&command, ServeEvent::ShutdownSent(Err(e))), failed),
    ensures
        sent is Return && sent->logs@.len() == 1 && sent->logs@[0]@ == "Server shutdown requested"@,
        failed is Return && failed->logs@.len() == 2 && failed->logs@[0]@ == "Shutdown error: "@
            + e@ && failed->logs@[1]@ == "Server shutdown requested"@,
{
    assert(texts(sent->logs@).len() == sent->logs@.len());
    assert(texts(sent->logs@)[0] == sent->logs@[0]@);
    assert(texts(failed->logs@).len() == failed->logs@.len());
    assert(texts(failed->logs@)[0] == failed->logs@[0]@);
    assert(texts(failed->logs@)[1] == failed->logs@[1]@);
}

/// A socket behind which nobody answers is cleaned up by the command that stops a
/// server, both files of the server and quietly, and is an error for one that only asks.
/// Where there is no socket, there is no server, and both fail.
pub proof fn law_missing_server_is_told(
    command: ServeCommand,
    first: ServeAction,
    missing: ServeAction,
    silent: ServeAction,
    removed: ServeAction,
)
    requires
        call_ensures(ServeCommand::next, (&command, ServeEvent::Started), first),
        call_ensures(ServeCommand::next, (&command, ServeEvent::SocketExists(false)), missing),
        call_ensures(ServeCommand::next, (&command, ServeEvent::Connected(false)), silent),
        call_ensures(ServeCommand::next, (&command, ServeEvent::StaleRemoved), removed),
    ensures
        command.flags.stop || command.flags.status ==> first is CheckSocket
            && first->CheckSocket_socket_path@ == command.socket_path@,
        missing is Exit && missing->code == 1 && missing->message@ == "No server running for "@
            + command.parquet_dir@,
        command.flags.stop ==> silent is RemoveStale && silent->RemoveStale_log@
            == "Stale socket, cleaning up"@ && silent->RemoveStale_socket_path@
            == command.socket_path@ && silent->pid_path@ == command.pid_path@,
        !command.flags.stop ==> silent is Exit && silent->code == 1 && silent->message@
            == "Stale socket, no running server"@,
        removed is Return && removed->logs@.len() == 0,
{
    assert(texts(removed->logs@).len() == removed->logs@.len());
}

/// To ask for the status of a server sends the question to its socket and prints five
/// lines: that it runs, its directory, its tables, its uptime, and the socket.
pub proof fn law_status_is_printed(
    command: ServeCommand,
    table_count: usize,
    dir: String,
    uptime_secs: u64,
    e: String,
    answered: ServeAction,
    printed: ServeAction,
    failed: ServeAction,
)
    requires
        call_ensures(ServeCommand::next, (&command, ServeEvent::Connected(true)), answered),
        call_ensures(
            ServeCommand::next,
            (&command, ServeEvent::StatusRead(Ok((table_count, dir, uptime_secs)))),
            printed,
        ),
        call_ensures(ServeCommand::next, (&command, ServeEvent::StatusRead(Err(e))), failed),
    ensures
        !command.flags.stop ==> answered is ReadStatus && answered->ReadStatus_socket_path@
            == command.socket_path@,
        printed is Print && printed->lines@.len() == 5,
        printed->lines@[0]@ == "Server running"@,
        printed->lines@[1]@ == "  Parquet dir: "@ + dir@,
        printed->lines@[2]@ == "  Tables: "@ + decimal_digits(table_count as nat),
        decimal_value(decimal_digits(table_count as nat)) == table_count,
        printed->lines@[3]@ == "  Uptime: "@ + decimal_digits(uptime_secs as nat) + "s"@,
        decimal_value(decimal_digits(uptime_secs as nat)) == uptime_secs,
        printed->lines@[4]@ == "  Socket: "@ + command.socket_path@,
        failed is Exit && failed->code == 1 && failed->message@ == "Status error: "@ + e@,
{
    let lines = printed->lines@;
    assert(texts(lines).len() == lines.len());
    assert(texts(lines)[0] == lines[0]@);
    assert(texts(lines)[1] == lines[1]@);
    assert(texts(lines)[2] == lines[2]@);
    assert(texts(lines)[3] == lines[3]@);
    assert(texts(lines)[4] == lines[4]@);
    law_decimal_digits_read_back(table_count as nat);
    law_decimal_digits_read_back(uptime_secs as nat);
}

/// Without the flags to stop and to ask, a server is run: at once in the foreground, or
/// in the child of a fork that has left its terminal. It is that of the directory, with
/// the idle time that was given. The program fails exactly if the server does.
pub proof fn law_server_is_run_as_asked(
    command: ServeCommand,
    done: Result<(), String>,
    e: String,
    first: ServeAction,
    child: ServeAction,
    detached: ServeAction,
    ended: ServeAction,
    failed: ServeAction,
)
    requires
        done is Ok,
        call_ensures(ServeCommand::next, (&command, ServeEvent::Started), first),
        call_ensures(ServeCommand::next, (&command, ServeEvent::Forked { pid: 0 }), child),
        call_ensures(ServeCommand::next, (&command, ServeEvent::Detached), detached),
        call_ensures(ServeCommand::next, (&command, ServeEvent::ServerEnded(done)), ended),
        call_ensures(ServeCommand::next, (&command, ServeEvent::ServerEnded(Err(e))), failed),
    ensures
        first is Fork <==> !command.flags.stop && !command.flags.status
            && command.flags.background,
        first is RunServer <==> !command.flags.stop && !command.flags.status
            && !command.flags.background,
        first is RunServer ==> first->parquet_dir@ == command.parquet_dir@ && first->idle_secs
            == command.idle_timeout,
        child is Detach,
        detached is RunServer && detached->parquet_dir@ == command.parquet_dir@
            && detached->idle_secs == command.idle_timeout,
        ended is Return && ended->logs@.len() == 0,
        failed is Exit && failed->code == 1 && failed->message@ == "Server error: "@ + e@,
{
    assert(texts(ended->logs@).len() == ended->logs@.len());
}

/// The parent of a fork tells the process id of the server and waits half a minute for
/// it at the socket of the directory. It leaves with the socket, or with a warning that
/// tells why the server is not there. A fork that failed ends the program.
pub proof fn law_parent_waits_for_the_server(
    command: ServeCommand,
    pid: i32,
    done: Result<(), String>,
    e: String,
    forked: ServeAction,
    ready: ServeAction,
    late: ServeAction,
)
    requires
        pid != 0,
        done is Ok,
        call_ensures(ServeCommand::next, (&command, ServeEvent::Forked { pid }), forked),
        call_ensures(ServeCommand::next, (&command, ServeEvent::Waited(done)), ready),
        call_ensures(ServeCommand::next, (&command, ServeEvent::Waited(Err(e))), late),
    ensures
        pid > 0 ==> forked is WaitForServer && forked->WaitForServer_socket_path@
            == command.socket_path@ && forked->secs == 30 && forked->WaitForServer_log@
            == "Server starting in background (PID "@ + decimal_digits(pid as nat) + ")\n"@,
        pid > 0 ==> decimal_value(decimal_digits(pid as nat)) == pid,
        pid < 0 ==> forked is Exit && forked->code == 1 && forked->message@ == "Failed to fork"@,
        ready is Leave && ready->Leave_log@ == "Server ready at "@ + command.socket_path@ + "\n"@,
        late is Leave && late->Leave_log@ == "Warning: "@ + e@ + "\n"@,
{
    if pid > 0 {
        law_decimal_digits_read_back(pid as nat);
    }
}

}
