//! Laws of getting an engine, and of waiting for a server.
use crate::engine::choice::{
    auto_start_server, parquet_engine, parquet_engine_auto_serve, AutoServeAction, AutoServeEvent,
    EngineAction, EngineEvent, Place,
};
use crate::engine::duckdb_client::DuckDbClientEngine;
use crate::engine::views::{register_parquet_views, DirEntry, ViewRegistration};
use crate::engine::wait::{wait_for_socket_pub, wait_timeout_message, WaitAction, WaitEvent};
use crate::engine::{DuckDbParquetEngine, EngineVariant, OpenAction, OpenEvent};
use crate::text::texts;
use vstd::prelude::*;

verus! {

/// Getting an engine fails exactly with the error of a path that does not resolve or
/// of an engine that does not open. A server that does not answer is no failure.
pub proof fn law_engine_fails_with_its_error(dir: &str, event: EngineEvent, action: EngineAction)
    requires
        call_ensures(parquet_engine, (dir, event), action),
    ensures
        (action matches EngineAction::Finish(result) && result is Err) <==> match event {
            EngineEvent::Resolved(outcome) => outcome is Err,
            EngineEvent::Opened(outcome) => outcome is Err,
            _ => false,
        },
        event matches EngineEvent::Resolved(Err(e)) ==> action == EngineAction::Finish(Err(e)),
        event matches EngineEvent::Opened(Err(e)) ==> action == EngineAction::Finish(Err(e)),
{
}

/// Getting an engine resolves the very path that was given, looks for the socket of
/// what it resolves to, and from then on acts on the place that it is told of. What
/// is found is what is used.
pub proof fn law_engine_is_the_one_found(
    dir: &str,
    place: Place,
    resolved: String,
    client: DuckDbClientEngine,
    refused: String,
    engine: DuckDbParquetEngine,
    first: EngineAction,
    looks: EngineAction,
    there: EngineAction,
    missing: EngineAction,
    answered: EngineAction,
    silent: EngineAction,
    removed: EngineAction,
    opened: EngineAction,
    expected: Place,
)
    requires
        call_ensures(parquet_engine, (dir, EngineEvent::Started), first),
        call_ensures(parquet_engine, (dir, EngineEvent::Resolved(Ok(resolved))), looks),
        call_ensures(Place::new, (resolved,), expected),
        call_ensures(parquet_engine, (dir, EngineEvent::SocketExists { place, found: true }), there),
        call_ensures(
            parquet_engine,
            (dir, EngineEvent::SocketExists { place, found: false }),
            missing,
        ),
        call_ensures(
            parquet_engine,
            (dir, EngineEvent::Connected { place, client: Ok(client) }),
            answered,
        ),
        call_ensures(
            parquet_engine,
            (dir, EngineEvent::Connected { place, client: Err(refused) }),
            silent,
        ),
        call_ensures(parquet_engine, (dir, EngineEvent::SocketRemoved { place }), removed),
        call_ensures(parquet_engine, (dir, EngineEvent::Opened(Ok(engine))), opened),
    ensures
        first is Resolve && first->dir@ == dir@,
        looks is CheckSocket && looks->CheckSocket_place.parquet_dir@ == resolved@
            && looks->CheckSocket_place.socket_path@ == expected.socket_path@,
        there == (EngineAction::Connect { place }),
        missing == (EngineAction::OpenInline { place }),
        answered == EngineAction::Finish(Ok(EngineVariant::Remote(client))),
        silent == (EngineAction::RemoveSocket { place }),
        removed == (EngineAction::OpenInline { place }),
        opened == EngineAction::Finish(Ok(EngineVariant::Inline(engine))),
{
}

/// With a server on demand, getting an engine fails exactly with the error of a path
/// that does not resolve, a server that does not start, or one that does not come up.
pub proof fn law_server_on_demand_fails_with_its_error(
    dir: &str,
    event: AutoServeEvent,
    action: AutoServeAction,
)
    requires
        call_ensures(parquet_engine_auto_serve, (dir, event), action),
    ensures
        action is Fail <==> match event {
            AutoServeEvent::Resolved(outcome) => outcome is Err,
            AutoServeEvent::ServerStarted { place, outcome } => outcome is Err,
            AutoServeEvent::Waited(outcome) => outcome is Err,
            _ => false,
        },
        event matches AutoServeEvent::Resolved(Err(e)) ==> action == AutoServeAction::Fail(e),
        event matches AutoServeEvent::ServerStarted { place, outcome: Err(e) } ==> action
            == AutoServeAction::Fail(e),
        event matches AutoServeEvent::Waited(Err(e)) ==> action == AutoServeAction::Fail(e),
{
}

/// The files of a directory are counted exactly if it has no socket, a server is
/// started exactly for more than a hundred, and the way goes on to the engine of the
/// given path in every other case that did not fail.
pub proof fn law_server_on_demand_is_started_for_many_files(
    dir: &str,
    place: Place,
    found: bool,
    files: usize,
    done: Result<(), String>,
    resolved: String,
    first: AutoServeAction,
    looks: AutoServeAction,
    looked: AutoServeAction,
    counted: AutoServeAction,
    started: AutoServeAction,
    waited: AutoServeAction,
    expected: Place,
)
    requires
        done is Ok,
        call_ensures(parquet_engine_auto_serve, (dir, AutoServeEvent::Started), first),
        call_ensures(parquet_engine_auto_serve, (dir, AutoServeEvent::Resolved(Ok(resolved))), looks),
        call_ensures(Place::new, (resolved,), expected),
        call_ensures(
            parquet_engine_auto_serve,
            (dir, AutoServeEvent::SocketExists { place, found }),
            looked,
        ),
        call_ensures(
            parquet_engine_auto_serve,
            (dir, AutoServeEvent::Counted { place, files }),
            counted,
        ),
        call_ensures(
            parquet_engine_auto_serve,
            (dir, AutoServeEvent::ServerStarted { place, outcome: done }),
            started,
        ),
        call_ensures(parquet_engine_auto_serve, (dir, AutoServeEvent::Waited(done)), waited),
    ensures
        first is Resolve && first->Resolve_dir@ == dir@,
        looks is CheckSocket && looks->CheckSocket_place.parquet_dir@ == resolved@
            && looks->CheckSocket_place.socket_path@ == expected.socket_path@,
        !found ==> looked == (AutoServeAction::CountFiles { place }),
        found ==> looked is OpenEngine && looked->OpenEngine_dir@ == dir@,
        files > 100 ==> counted is StartServer && counted->StartServer_place == place
            && counted->args@.len() == 3 && counted->args@[0]@ == "serve"@ && counted->args@[1]@
            == place.parquet_dir@ && counted->args@[2]@ == "--background"@,
        files <= 100 ==> counted is OpenEngine && counted->OpenEngine_dir@ == dir@,
        started is WaitForSocket && started->WaitForSocket_place == place && started->secs == 30,
        waited is OpenEngine && waited->OpenEngine_dir@ == dir@,
{
    if files > 100 {
        let args = counted->args@;
        assert(texts(args).len() == args.len());
        assert(texts(args)[0] == args[0]@ && texts(args)[1] == args[1]@ && texts(args)[2]
            == args[2]@);
    }
}

/// The program serves a directory in the background with three arguments: the command,
/// the whole path, and the flag.
pub proof fn law_server_is_started_with_the_directory(parquet_dir: &str, args: Vec<String>)
    requires
        call_ensures(auto_start_server, (parquet_dir,), args),
    ensures
        args@.len() == 3,
        args@[0]@ == "serve"@,
        args@[1]@ == parquet_dir@,
        args@[2]@ == "--background"@,
{
    assert(texts(args@).len() == args@.len());
    assert(texts(args@)[0] == args@[0]@ && texts(args@)[1] == args@[1]@ && texts(args@)[2]
        == args@[2]@);
}

/// Opening an engine fails exactly with the error of the first step that fails.
pub proof fn law_opening_fails_with_its_error(dir: &str, event: OpenEvent, action: OpenAction)
    requires
        DuckDbParquetEngine::admits(event),
        call_ensures(DuckDbParquetEngine::new, (dir, event), action),
    ensures
        (action matches OpenAction::Finish(result) && result is Err) <==> match event {
            OpenEvent::DatabaseOpened(outcome) => outcome is Err,
            OpenEvent::Resolved(outcome) => outcome is Err,
            OpenEvent::Listed { parquet_dir, entries } => entries is Err,
            _ => false,
        },
        event matches OpenEvent::DatabaseOpened(Err(e)) ==> action == OpenAction::Finish(Err(e)),
        event matches OpenEvent::Resolved(Err(e)) ==> action == OpenAction::Finish(Err(e)),
        event matches OpenEvent::Listed { parquet_dir, entries: Err(e) } ==> action
            == OpenAction::Finish(Err(e)),
{
}

/// Opening an engine opens the database, resolves the given path, lists what it
/// resolves to, and registers all that was listed there. The engine that comes of it
/// is over that directory and counts the views that were created.
pub proof fn law_engine_opens_over_its_directory(
    dir: &str,
    done: Result<(), String>,
    parquet_dir: String,
    entries: Vec<DirEntry>,
    planned: ViewRegistration,
    registration: ViewRegistration,
    tables: usize,
    first: OpenAction,
    second: OpenAction,
    third: OpenAction,
    fourth: OpenAction,
    last: OpenAction,
    counted: usize,
    over: &str,
)
    requires
        done is Ok,
        !registration.pending(),
        call_ensures(DuckDbParquetEngine::new, (dir, OpenEvent::Started), first),
        call_ensures(DuckDbParquetEngine::new, (dir, OpenEvent::DatabaseOpened(done)), second),
        call_ensures(DuckDbParquetEngine::new, (dir, OpenEvent::Resolved(Ok(parquet_dir))), third),
        call_ensures(
            DuckDbParquetEngine::new,
            (dir, OpenEvent::Listed { parquet_dir, entries: Ok(entries) }),
            fourth,
        ),
        call_ensures(register_parquet_views, (&entries,), planned),
        call_ensures(
            DuckDbParquetEngine::new,
            (dir, OpenEvent::Registered { parquet_dir, registration }),
            last,
        ),
        call_ensures(ViewRegistration::table_count, (&registration,), tables),
        last is Finish ==> call_ensures(
            DuckDbParquetEngine::table_count,
            (&last->Finish_0->Ok_0,),
            counted,
        ),
        last is Finish ==> call_ensures(
            DuckDbParquetEngine::parquet_dir,
            (&last->Finish_0->Ok_0,),
            over,
        ),
    ensures
        first is OpenDatabase,
        second is Resolve && second->dir@ == dir@,
        third == (OpenAction::List { parquet_dir }),
        fourth is Register && fourth->Register_parquet_dir@ == parquet_dir@,
        fourth->registration.outcomes().len() == 0,
        fourth->registration.statements().len() == planned.statements().len(),
        forall|k: int| #![trigger planned.statements()[k]]
            0 <= k < planned.statements().len() ==> fourth->registration.statements()[k].table_name@
                == planned.statements()[k].table_name@ && fourth->registration.statements()[k].sql@
                == planned.statements()[k].sql@,
        last matches OpenAction::Finish(result) && result is Ok,
        counted == tables,
        over@ == parquet_dir@,
{
    assert forall|k: int| #![trigger planned.statements()[k]] 0 <= k
        < planned.statements().len() implies fourth->registration.statements()[k].table_name@
        == planned.statements()[k].table_name@ && fourth->registration.statements()[k].sql@
        == planned.statements()[k].sql@ by {
        let other = fourth->registration.statements()[k];
    }
}

/// While there is time the socket is looked for, a socket that is there is tried, and a
/// connection ends the wait at once. A pause of a fifth of a second follows on
/// everything else, and the clock is read after it. At the limit the wait is over.
pub proof fn law_wait_goes_on_until_connected_or_late(
    socket: &str,
    timeout_nanos: u128,
    nanos: u128,
    first: WaitAction,
    timed: WaitAction,
    there: WaitAction,
    missing: WaitAction,
    connected: WaitAction,
    refused: WaitAction,
    slept: WaitAction,
)
    requires
        call_ensures(wait_for_socket_pub, (socket, timeout_nanos, WaitEvent::Started), first),
        call_ensures(wait_for_socket_pub, (socket, timeout_nanos, WaitEvent::Elapsed { nanos }), timed),
        call_ensures(wait_for_socket_pub, (socket, timeout_nanos, WaitEvent::Exists(true)), there),
        call_ensures(wait_for_socket_pub, (socket, timeout_nanos, WaitEvent::Exists(false)), missing),
        call_ensures(
            wait_for_socket_pub,
            (socket, timeout_nanos, WaitEvent::Connected(true)),
            connected,
        ),
        call_ensures(
            wait_for_socket_pub,
            (socket, timeout_nanos, WaitEvent::Connected(false)),
            refused,
        ),
        call_ensures(wait_for_socket_pub, (socket, timeout_nanos, WaitEvent::Slept), slept),
    ensures
        first is ReadClock && slept is ReadClock,
        timed is TimedOut <==> nanos >= timeout_nanos,
        nanos < timeout_nanos ==> timed is CheckExists && timed->CheckExists_socket_path@ == socket@,
        there is Connect && there->Connect_socket_path@ == socket@,
        connected is Ready,
        missing is Sleep && missing->millis == 200,
        refused is Sleep && refused->millis == 200,
{
}

/// A wait that ran out of time is reported as such.
pub proof fn law_timeout_is_reported(text: String)
    requires
        call_ensures(wait_timeout_message, (), text),
    ensures
        text@ == "Timeout waiting for server to start"@,
{
}

}
