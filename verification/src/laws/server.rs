//! Laws of the start and the running of a server.
use crate::engine::DuckDbParquetEngine;
use crate::server::{
    begin, last_activity, Cleanup, Ending, HeappyServer, Launch, LaunchAction, LaunchEvent,
    ServerAction, ServerClock, ServerEvent, ServerStep,
};
use crate::text::decimal_digits;
use vstd::prelude::*;

verus! {

/// The uptime is the number of whole seconds since the start.
pub proof fn law_uptime_counts_whole_seconds(clock: ServerClock, now_nanos: u128, secs: u64)
    requires
        call_ensures(ServerClock::uptime_secs, (&clock, now_nanos), secs),
    ensures
        now_nanos < clock.started_nanos ==> secs == 0,
        now_nanos >= clock.started_nanos ==> secs * 1_000_000_000 <= now_nanos - clock.started_nanos,
        now_nanos >= clock.started_nanos && secs < u64::MAX ==> now_nanos - clock.started_nanos < (
        secs + 1) * 1_000_000_000,
        now_nanos - clock.started_nanos >= u64::MAX * 1_000_000_000 <==> secs == u64::MAX,
{
}

/// The uptime never decreases as time goes on, and grows by a second with every
/// second.
pub proof fn law_uptime_grows_with_time(
    clock: ServerClock,
    earlier: u128,
    later: u128,
    a: u64,
    b: u64,
)
    requires
        earlier <= later,
        call_ensures(ServerClock::uptime_secs, (&clock, earlier), a),
        call_ensures(ServerClock::uptime_secs, (&clock, later), b),
    ensures
        a <= b,
        clock.started_nanos <= earlier && later == earlier + 1_000_000_000 && a < u64::MAX ==> b == a
            + 1,
{
    law_uptime_counts_whole_seconds(clock, earlier, a);
    law_uptime_counts_whole_seconds(clock, later, b);
}

/// A new clock has not run.
pub proof fn law_new_clock_stands_at_zero(clock: ServerClock)
    requires
        call_ensures(ServerClock::new, (), clock),
    ensures
        clock.started_nanos == 0,
        clock.last_nanos == 0,
{
}

/// The time from which the uptime counts is set when the socket was set up, and by
/// nothing else. The time from which idleness counts is set then, too, and by every
/// connection that comes in, and by nothing else.
pub proof fn law_clock_is_set_by_set_up_and_connections(
    started_nanos: u128,
    last_nanos: u128,
    event: ServerEvent,
)
    ensures
        event matches ServerEvent::NonblockingSet { outcome, now_nanos } ==> begin(
            started_nanos,
            event,
        ) == now_nanos && last_activity(last_nanos, event) == now_nanos,
        event matches ServerEvent::Accepted { now_nanos } ==> begin(started_nanos, event)
            == started_nanos && last_activity(last_nanos, event) == now_nanos,
        !(event is NonblockingSet) && !(event is Accepted) ==> begin(started_nanos, event)
            == started_nanos && last_activity(last_nanos, event) == last_nanos,
{
}

/// A start looks for the socket of the directory first, tries it if it is there, and
/// gives up exactly if somebody answers or the engine cannot be built.
pub proof fn law_start_gives_up_only_for_a_reason(
    launch: Launch,
    event: LaunchEvent,
    action: LaunchAction,
)
    requires
        call_ensures(Launch::next, (&launch, event), action),
    ensures
        action is Fail <==> match event {
            LaunchEvent::Probed(answered) => answered,
            LaunchEvent::EngineBuilt(built) => built is Err,
            _ => false,
        },
        event matches LaunchEvent::EngineBuilt(Err(e)) ==> action->Fail_0@ == e@,
        event is Probed && action is Fail ==> action->Fail_0@ == "Server already running for "@
            + launch.parquet_dir@,
        action is RemoveSocket <==> event == LaunchEvent::Probed(false),
        action is Probe <==> event == LaunchEvent::SocketExists(true),
        action is CheckSocket <==> event is Started,
        action matches LaunchAction::CheckSocket { socket_path } ==> socket_path@
            == launch.socket_path@,
        action matches LaunchAction::Probe { socket_path } ==> socket_path@ == launch.socket_path@,
        action matches LaunchAction::RemoveSocket { socket_path } ==> socket_path@
            == launch.socket_path@,
{
}

/// Once the socket is free the engine is built over the directory, and an engine that
/// was built is served, under the paths and with the idle limit of the start.
pub proof fn law_built_engine_is_served(
    launch: Launch,
    engine: DuckDbParquetEngine,
    free: LaunchAction,
    freed: LaunchAction,
    run: LaunchAction,
    tables: usize,
)
    requires
        call_ensures(Launch::next, (&launch, LaunchEvent::SocketExists(false)), free),
        call_ensures(Launch::next, (&launch, LaunchEvent::SocketRemoved), freed),
        call_ensures(Launch::next, (&launch, LaunchEvent::EngineBuilt(Ok(engine))), run),
        call_ensures(DuckDbParquetEngine::table_count, (&engine,), tables),
    ensures
        free is BuildEngine && free->parquet_dir@ == launch.parquet_dir@ && free->BuildEngine_log@
            == "Registering parquet tables from "@ + launch.parquet_dir@ + "..."@,
        freed is BuildEngine && freed->parquet_dir@ == launch.parquet_dir@
            && freed->BuildEngine_log@ == free->BuildEngine_log@,
        run is Run,
        run->server.engine == engine,
        run->server.socket_path@ == launch.socket_path@,
        run->server.pid_path@ == launch.pid_path@,
        run->server.idle_timeout_nanos == launch.idle_timeout_nanos,
        run->Run_log@ == "Registered "@ + decimal_digits(tables as nat)
            + " tables. Starting server on "@ + launch.socket_path@,
{
}

/// A server writes its whole process id and nothing else to its file, then listens on
/// its socket, sets it up, and says for how many whole seconds it may be idle.
pub proof fn law_server_sets_itself_up(
    server: HeappyServer,
    last: u128,
    pid: u32,
    done: Result<(), String>,
    now_nanos: u128,
    first: ServerStep,
    second: ServerStep,
    third: ServerStep,
    fourth: ServerStep,
)
    requires
        done is Ok,
        server.serves(last, ServerEvent::Started { pid }, first),
        server.serves(last, ServerEvent::PidWritten(done), second),
        server.serves(last, ServerEvent::Bound(done), third),
        server.serves(last, ServerEvent::NonblockingSet { outcome: done, now_nanos }, fourth),
    ensures
        first.action is WritePid && first.action->pid_path@ == server.pid_path@
            && first.action->text@ == decimal_digits(pid as nat),
        second.action is Bind && second.action->socket_path@ == server.socket_path@,
        third.action is SetNonblocking,
        fourth.action is Accept,
        fourth.log is Some && fourth.log->0@ == "Server ready. Idle timeout: "@ + decimal_digits(
            (server.idle_timeout_nanos / 1_000_000_000) as nat,
        ) + "s"@,
        first.log is None && second.log is None && third.log is None,
{
}

/// A set-up that fails, at whichever step, cleans up and ends the server with that
/// error.
pub proof fn law_failed_set_up_ends_the_server(
    server: HeappyServer,
    last: u128,
    error: String,
    now_nanos: u128,
    a: ServerStep,
    b: ServerStep,
    c: ServerStep,
    end: ServerStep,
)
    requires
        server.serves(last, ServerEvent::PidWritten(Err(error)), a),
        server.serves(last, ServerEvent::Bound(Err(error)), b),
        server.serves(last, ServerEvent::NonblockingSet { outcome: Err(error), now_nanos }, c),
        server.serves(last, ServerEvent::CleanedUp(Ending::Failed(error)), end),
    ensures
        a.action == ServerAction::CleanUp(Ending::Failed(error)),
        b.action == ServerAction::CleanUp(Ending::Failed(error)),
        c.action == ServerAction::CleanUp(Ending::Failed(error)),
        end.action matches ServerAction::Finish(result) && result is Err && result->Err_0@ == error@,
        a.log is None && b.log is None && c.log is None && end.log is None,
{
}

/// Every connection that comes in is handled. Afterwards the server looks for the next
/// one, unless it was told to shut down; then it cleans up, once and once more, and
/// ends well.
pub proof fn law_connections_are_handled_in_turn(
    server: HeappyServer,
    last: u128,
    now_nanos: u128,
    shutdown: bool,
    came: ServerStep,
    handled: ServerStep,
    slept: ServerStep,
    stopping: ServerStep,
    stopped: ServerStep,
)
    requires
        server.serves(last, ServerEvent::Accepted { now_nanos }, came),
        server.serves(last, ServerEvent::Handled { shutdown }, handled),
        server.serves(last, ServerEvent::Slept, slept),
        server.serves(last, ServerEvent::CleanedUp(Ending::Stopping), stopping),
        server.serves(last, ServerEvent::CleanedUp(Ending::Stopped), stopped),
    ensures
        came.action is HandleConnection,
        !shutdown ==> handled.action is Accept,
        shutdown ==> handled.action == ServerAction::CleanUp(Ending::Stopping),
        slept.action is Accept,
        stopping.action == ServerAction::CleanUp(Ending::Stopped),
        stopped.action matches ServerAction::Finish(result) && result is Ok,
        came.log is None && handled.log is None && slept.log is None && stopping.log is None
            && stopped.log is None,
{
}

/// Without a connection the server pauses for a tenth of a second, unless it has been
/// idle for longer than its limit; then it says so and cleans up. A connection that
/// could not be accepted is logged, and the server pauses, too.
pub proof fn law_quiet_server_pauses_or_stops(
    server: HeappyServer,
    last: u128,
    now_nanos: u128,
    error: String,
    quiet: ServerStep,
    failed: ServerStep,
)
    requires
        server.serves(last, ServerEvent::Quiet { now_nanos }, quiet),
        server.serves(last, ServerEvent::AcceptFailed(error), failed),
    ensures
        now_nanos - last <= server.idle_timeout_nanos ==> quiet.log is None && (
        quiet.action matches ServerAction::Sleep { millis } && millis == 100),
        now_nanos - last > server.idle_timeout_nanos ==> quiet.log is Some && quiet.log->0@
            == "Idle timeout reached, shutting down"@ && quiet.action == ServerAction::CleanUp(
            Ending::Stopping,
        ),
        failed.action matches ServerAction::Sleep { millis } && millis == 100,
        failed.log is Some && failed.log->0@ == "Accept error: "@ + error@,
{
}

/// What a server cleans up are its own two files.
pub proof fn law_server_cleans_up_its_own_files(server: HeappyServer, cleanup: Cleanup)
    requires
        call_ensures(HeappyServer::cleanup, (&server,), cleanup),
    ensures
        cleanup.socket_path@ == server.socket_path@,
        cleanup.pid_path@ == server.pid_path@,
        cleanup.log@ == "Server stopped, socket cleaned up"@,
{
}

/// Whatever happens to a server, its next step is one of its course, and its clock goes
/// on as told.
pub proof fn law_server_keeps_to_its_course(
    server: HeappyServer,
    clock: &mut ServerClock,
    event: ServerEvent,
    step: ServerStep,
)
    requires
        call_ensures(HeappyServer::next, (&server, clock, event), step),
    ensures
        server.serves(old(clock).last_nanos, event, step),
        final(clock).last_nanos == last_activity(old(clock).last_nanos, event),
        final(clock).started_nanos == begin(old(clock).started_nanos, event),
{
}

}
