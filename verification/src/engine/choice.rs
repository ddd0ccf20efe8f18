//! The choice between a running server and an engine in this process.
use crate::engine::duckdb_client::DuckDbClientEngine;
use crate::engine::paths::{socket_path, socket_path_for};
use crate::engine::{DuckDbParquetEngine, EngineVariant};
use crate::text::texts;
use vstd::prelude::*;

verus! {

/// A directory whose path was resolved, and where its server listens.
#[derive(Debug, PartialEq)]
pub struct Place {
    pub parquet_dir: String,
    pub socket_path: String,
}

/// What was done last to get an engine for a directory, with what came of it.
#[derive(Debug, PartialEq)]
pub enum EngineEvent {
    Started,
    /// The resolved path of the directory.
    Resolved(Result<String, String>),
    /// Whether the socket of the directory exists.
    SocketExists { place: Place, found: bool },
    /// The client of the server behind the socket.
    Connected { place: Place, client: Result<DuckDbClientEngine, String> },
    /// The socket was removed, or could not be, which does not matter.
    SocketRemoved { place: Place },
    /// An engine in this process.
    Opened(Result<DuckDbParquetEngine, String>),
}

/// What to do next to get an engine.
#[derive(Debug, PartialEq)]
pub enum EngineAction {
    Resolve { dir: String },
    CheckSocket { place: Place },
    Connect { place: Place },
    RemoveSocket { place: Place },
    OpenInline { place: Place },
    Finish(Result<EngineVariant, String>),
}

/// What was done last to get an engine with a server started on demand, with what came of it.
#[derive(Debug, PartialEq)]
pub enum AutoServeEvent {
    Started,
    /// The resolved path of the directory.
    Resolved(Result<String, String>),
    /// Whether the socket of the directory exists.
    SocketExists { place: Place, found: bool },
    /// The number of Parquet files in the directory.
    Counted { place: Place, files: usize },
    /// The server process was started.
    ServerStarted { place: Place, outcome: Result<(), String> },
    /// The server came up in time.
    Waited(Result<(), String>),
}

/// What to do next to get an engine with a server started on demand.
#[derive(Debug, PartialEq)]
pub enum AutoServeAction {
    Resolve { dir: String },
    CheckSocket { place: Place },
    CountFiles { place: Place },
    /// Starts this program with the arguments.
    StartServer { place: Place, args: Vec<String> },
    WaitForSocket { place: Place, secs: u64 },
    /// Goes on as for a directory whose server, if any, is running.
    OpenEngine { dir: String },
    Fail(String),
}

/// A directory with more Parquet files than this gets a server of its own.
pub const AUTO_SERVE_FILES: usize = 100;

/// How long a server may take to come up, in seconds.
pub const SERVER_START_SECS: u64 = 30;

impl Place {
    /// Whether this is the place of a directory.
    pub open spec fn is_of(&self, parquet_dir: Seq<char>) -> bool {
        &&& self.parquet_dir@ == parquet_dir
        &&& self.socket_path@ == socket_path(parquet_dir)
    }

    /// The place of a directory whose path was resolved.
    pub fn new(parquet_dir: String) -> (place: Self)
        ensures
            place.is_of(parquet_dir@),
    {
        let socket_path = socket_path_for(parquet_dir.as_str());
        Place { parquet_dir, socket_path }
    }
}

/// The course of getting an engine for the directory at a path: a running server is
/// preferred, and a socket that nobody answers on is removed.
pub open spec fn chooses(path: Seq<char>, event: EngineEvent, action: EngineAction) -> bool {
    match event {
        EngineEvent::Started => action matches EngineAction::Resolve { dir } && dir@ == path,
        EngineEvent::Resolved(Ok(dir)) => action matches EngineAction::CheckSocket { place }
            && place.is_of(dir@),
        EngineEvent::SocketExists { place, found: true } => action == (EngineAction::Connect {
            place,
        }),
        EngineEvent::Connected { place, client: Ok(client) } => action == EngineAction::Finish(
            Ok(EngineVariant::Remote(client)),
        ),
        EngineEvent::Connected { place, client: Err(_) } => action == (EngineAction::RemoveSocket {
            place,
        }),
        EngineEvent::SocketExists { place, found: false } => action == (EngineAction::OpenInline {
            place,
        }),
        EngineEvent::SocketRemoved { place } => action == (EngineAction::OpenInline { place }),
        EngineEvent::Opened(Ok(engine)) => action == EngineAction::Finish(
            Ok(EngineVariant::Inline(engine)),
        ),
        EngineEvent::Resolved(Err(e)) => action == EngineAction::Finish(Err(e)),
        EngineEvent::Opened(Err(e)) => action == EngineAction::Finish(Err(e)),
    }
}

/// The arguments with which this program serves a directory in the background.
pub open spec fn server_args(parquet_dir: Seq<char>) -> Seq<Seq<char>> {
    seq!["serve"@, parquet_dir, "--background"@]
}

/// Whether an action goes on to get an engine for the directory at a path.
pub open spec fn opens_at(action: AutoServeAction, path: Seq<char>) -> bool {
    action matches AutoServeAction::OpenEngine { dir } && dir@ == path
}

/// The course of getting an engine for the directory at a path, with a server on
/// demand: one is started for a large directory that has no socket yet.
pub open spec fn serves_first(
    path: Seq<char>,
    event: AutoServeEvent,
    action: AutoServeAction,
) -> bool {
    match event {
        AutoServeEvent::Started => action matches AutoServeAction::Resolve { dir } && dir@ == path,
        AutoServeEvent::Resolved(Ok(dir)) => action matches AutoServeAction::CheckSocket { place }
            && place.is_of(dir@),
        AutoServeEvent::SocketExists { place, found: true } => opens_at(action, path),
        AutoServeEvent::SocketExists { place, found: false } => action == (
        AutoServeAction::CountFiles { place }),
        AutoServeEvent::Counted { place, files } => if files > AUTO_SERVE_FILES {
            &&& action matches AutoServeAction::StartServer { place: started, args }
            &&& started == place
            &&& texts(args@) == server_args(place.parquet_dir@)
        } else {
            opens_at(action, path)
        },
        AutoServeEvent::ServerStarted { place, outcome: Ok(_) } => action == (
        AutoServeAction::WaitForSocket { place, secs: SERVER_START_SECS }),
        AutoServeEvent::Waited(Ok(_)) => opens_at(action, path),
        AutoServeEvent::Resolved(Err(e)) => action == AutoServeAction::Fail(e),
        AutoServeEvent::ServerStarted { place, outcome: Err(e) } => action == AutoServeAction::Fail(
            e,
        ),
        AutoServeEvent::Waited(Err(e)) => action == AutoServeAction::Fail(e),
    }
}

/// The arguments with which this program serves a directory in the background.
pub fn auto_start_server(parquet_dir: &str) -> (args: Vec<String>)
    ensures
        texts(args@) == server_args(parquet_dir@),
{
    let mut args: Vec<String> = Vec::new();
    args.push("serve".to_string());
    args.push(parquet_dir.to_string());
    args.push("--background".to_string());
    assert(texts(args@) =~= server_args(parquet_dir@));
    args
}

/// What to do next to get an engine, preferring a running server.
pub fn parquet_engine(dir: &str, event: EngineEvent) -> (action: EngineAction)
    ensures
        chooses(dir@, event, action),
{
    match event {
        EngineEvent::Started => EngineAction::Resolve { dir: dir.to_string() },
        EngineEvent::Resolved(Ok(resolved)) => EngineAction::CheckSocket {
            place: Place::new(resolved),
        },
        EngineEvent::SocketExists { place, found: true } => EngineAction::Connect { place },
        EngineEvent::SocketExists { place, found: false } => EngineAction::OpenInline { place },
        EngineEvent::Connected { place: _, client: Ok(client) } => EngineAction::Finish(
            Ok(EngineVariant::Remote(client)),
        ),
        EngineEvent::Connected { place, client: Err(_) } => EngineAction::RemoveSocket { place },
        EngineEvent::SocketRemoved { place } => EngineAction::OpenInline { place },
        EngineEvent::Opened(Ok(engine)) => EngineAction::Finish(Ok(EngineVariant::Inline(engine))),
        EngineEvent::Resolved(Err(e)) => EngineAction::Finish(Err(e)),
        EngineEvent::Opened(Err(e)) => EngineAction::Finish(Err(e)),
    }
}

/// What to do next to get an engine, with a server started for a large directory.
pub fn parquet_engine_auto_serve(dir: &str, event: AutoServeEvent) -> (action: AutoServeAction)
    ensures
        serves_first(dir@, event, action),
{
    match event {
        AutoServeEvent::Started => AutoServeAction::Resolve { dir: dir.to_string() },
        AutoServeEvent::Resolved(Ok(resolved)) => AutoServeAction::CheckSocket {
            place: Place::new(resolved),
        },
        AutoServeEvent::SocketExists { place: _, found: true } => AutoServeAction::OpenEngine {
            dir: dir.to_string(),
        },
        AutoServeEvent::SocketExists { place, found: false } => AutoServeAction::CountFiles {
            place,
        },
        AutoServeEvent::Counted { place, files } => {
            if files > AUTO_SERVE_FILES {
                let args = auto_start_server(place.parquet_dir.as_str());
                AutoServeAction::StartServer { place, args }
            } else {
                AutoServeAction::OpenEngine { dir: dir.to_string() }
            }
        },
        AutoServeEvent::ServerStarted { place, outcome: Ok(_) } => AutoServeAction::WaitForSocket {
            place,
            secs: SERVER_START_SECS,
        },
        AutoServeEvent::Waited(Ok(_)) => AutoServeAction::OpenEngine { dir: dir.to_string() },
        AutoServeEvent::Resolved(Err(e)) => AutoServeAction::Fail(e),
        AutoServeEvent::ServerStarted { place: _, outcome: Err(e) } => AutoServeAction::Fail(e),
        AutoServeEvent::Waited(Err(e)) => AutoServeAction::Fail(e),
    }
}

/// Whether an event can come of an action: it speaks of the same place, and a
/// client or an engine that was got belongs to that place.
pub open spec fn engine_answers(action: EngineAction, event: EngineEvent) -> bool {
    match action {
        EngineAction::Resolve { dir } => event is Resolved,
        EngineAction::CheckSocket { place } => event matches EngineEvent::SocketExists {
            place: p,
            found,
        } && p == place,
        EngineAction::Connect { place } => event matches EngineEvent::Connected { place: p, client }
            && p == place && (client matches Ok(c) ==> c.socket_path@ == place.socket_path@),
        EngineAction::RemoveSocket { place } => event == (EngineEvent::SocketRemoved { place }),
        EngineAction::OpenInline { place } => event matches EngineEvent::Opened(opened) && (
        opened matches Ok(engine) ==> engine.dir() == place.parquet_dir@),
        EngineAction::Finish(result) => false,
    }
}

/// Whether an event can come of an action: it speaks of the same place.
pub open spec fn auto_serve_answers(action: AutoServeAction, event: AutoServeEvent) -> bool {
    match action {
        AutoServeAction::Resolve { dir } => event is Resolved,
        AutoServeAction::CheckSocket { place } => event matches AutoServeEvent::SocketExists {
            place: p,
            found,
        } && p == place,
        AutoServeAction::CountFiles { place } => event matches AutoServeEvent::Counted {
            place: p,
            files,
        } && p == place,
        AutoServeAction::StartServer { place, args } => event matches AutoServeEvent::ServerStarted {
            place: p,
            outcome,
        } && p == place,
        AutoServeAction::WaitForSocket { place, secs } => event is Waited,
        AutoServeAction::OpenEngine { dir } => false,
        AutoServeAction::Fail(e) => false,
    }
}

/// Whether the events and actions are those of an attempt to get an engine, from
/// its beginning on.
pub open spec fn is_engine_run(
    path: Seq<char>,
    events: Seq<EngineEvent>,
    actions: Seq<EngineAction>,
) -> bool {
    &&& events.len() == actions.len()
    &&& events.len() > 0
    &&& events[0] is Started
    &&& forall|i: int| #![trigger events[i], actions[i]]
        0 <= i < events.len() ==> chooses(path, events[i], actions[i])
    &&& forall|i: int, j: int| #![trigger actions[i], events[j]]
        0 <= i && j == i + 1 && j < events.len() ==> engine_answers(actions[i], events[j])
}

/// Whether the events and actions are those of an attempt with a server on demand,
/// from its beginning on.
pub open spec fn is_auto_serve_run(
    path: Seq<char>,
    events: Seq<AutoServeEvent>,
    actions: Seq<AutoServeAction>,
) -> bool {
    &&& events.len() == actions.len()
    &&& events.len() > 0
    &&& events[0] is Started
    &&& forall|i: int| #![trigger events[i], actions[i]]
        0 <= i < events.len() ==> serves_first(path, events[i], actions[i])
    &&& forall|i: int, j: int| #![trigger actions[i], events[j]]
        0 <= i && j == i + 1 && j < events.len() ==> auto_serve_answers(actions[i], events[j])
}

/// Whether the socket was looked for and found or not.
pub open spec fn socket_found(event: EngineEvent, answer: bool) -> bool {
    event matches EngineEvent::SocketExists { place, found } && found == answer
}

/// Whether a server behind the socket answered or not.
pub open spec fn server_answered(event: EngineEvent, answer: bool) -> bool {
    event matches EngineEvent::Connected { place, client } && (client is Ok) == answer
}

proof fn lemma_engine_run_shape(
    path: Seq<char>,
    events: Seq<EngineEvent>,
    actions: Seq<EngineAction>,
)
    requires
        is_engine_run(path, events, actions),
    ensures
        events.len() <= 6,
        actions[0] is Resolve,
        events.len() > 1 ==> events[1] is Resolved && chooses(path, events[1], actions[1]),
        events.len() > 2 ==> {
            &&& events[1] matches EngineEvent::Resolved(Ok(dir))
            &&& events[2] matches EngineEvent::SocketExists { place, found }
            &&& place.is_of(dir@)
            &&& chooses(path, events[2], actions[2])
        },
        events.len() > 3 ==> chooses(path, events[3], actions[3]) && engine_answers(actions[2], events[3]),
        events.len() > 3 && socket_found(events[2], true) ==> events[3] is Connected,
        events.len() > 3 && socket_found(events[2], false) ==> events[3] is Opened && events.len()
            == 4,
        events.len() > 4 ==> {
            &&& socket_found(events[2], true)
            &&& server_answered(events[3], false)
            &&& events[4] == (EngineEvent::SocketRemoved { place: events[2]->SocketExists_place })
            &&& chooses(path, events[4], actions[4])
        },
        events.len() > 5 ==> events[5] is Opened && chooses(path, events[5], actions[5])
            && engine_answers(actions[4], events[5]),
{
    assert(chooses(path, events[0], actions[0]));
    if events.len() > 1 {
        assert(engine_answers(actions[0], events[1]));
        assert(chooses(path, events[1], actions[1]));
    }
    if events.len() > 2 {
        assert(engine_answers(actions[1], events[2]));
        assert(chooses(path, events[2], actions[2]));
    }
    if events.len() > 3 {
        assert(engine_answers(actions[2], events[3]));
        assert(chooses(path, events[3], actions[3]));
    }
    if events.len() > 4 {
        assert(engine_answers(actions[3], events[4]));
        assert(chooses(path, events[4], actions[4]));
    }
    if events.len() > 5 {
        assert(engine_answers(actions[4], events[5]));
        assert(chooses(path, events[5], actions[5]));
    }
    if events.len() > 6 {
        assert(engine_answers(actions[5], events[6]));
    }
}

/// When a server answers, it is used, and neither is the socket removed nor an
/// engine opened in this process.
pub proof fn law_running_server_is_used(
    path: Seq<char>,
    events: Seq<EngineEvent>,
    actions: Seq<EngineAction>,
    k: int,
)
    requires
        is_engine_run(path, events, actions),
        0 <= k < events.len(),
        server_answered(events[k], true),
    ensures
        actions.last() matches EngineAction::Finish(Ok(EngineVariant::Remote(_))),
        forall|i: int| 0 <= i < actions.len() ==> {
            let action = #[trigger] actions[i];
            !(action is RemoveSocket) && !(action is OpenInline)
        },
{
    lemma_engine_run_shape(path, events, actions);
    assert(k == 3 && events.len() == 4);
}

/// A socket is removed only if it is that of the directory, exists, and no server
/// answers behind it.
pub proof fn law_only_a_dead_socket_is_removed(
    path: Seq<char>,
    events: Seq<EngineEvent>,
    actions: Seq<EngineAction>,
    i: int,
)
    requires
        is_engine_run(path, events, actions),
        0 <= i < actions.len(),
        actions[i] is RemoveSocket,
    ensures
        i == 3,
        events[1] matches EngineEvent::Resolved(Ok(dir)) && actions[3]->RemoveSocket_place.is_of(
            dir@,
        ),
        socket_found(events[2], true),
        server_answered(events[3], false),
{
    lemma_engine_run_shape(path, events, actions);
}

/// An engine in this process is opened exactly if the path resolves and there
/// is no socket, or one that nobody answers on.
pub proof fn law_inline_engine_without_server(
    path: Seq<char>,
    events: Seq<EngineEvent>,
    actions: Seq<EngineAction>,
    i: int,
)
    requires
        is_engine_run(path, events, actions),
        0 <= i < actions.len(),
    ensures
        actions[i] is OpenInline <==> {
            ||| i == 2 && socket_found(events[2], false)
            ||| i == 4 && socket_found(events[2], true) && server_answered(events[3], false)
        },
{
    lemma_engine_run_shape(path, events, actions);
}

/// The engine that comes out is that of the directory: a client of the server at
/// the directory's socket, or an engine over the directory.
pub proof fn law_engine_is_that_of_the_directory(
    path: Seq<char>,
    events: Seq<EngineEvent>,
    actions: Seq<EngineAction>,
)
    requires
        is_engine_run(path, events, actions),
        actions.last() matches EngineAction::Finish(result) && result is Ok,
    ensures
        events.len() > 3,
        events[1] matches EngineEvent::Resolved(Ok(dir)) && match actions.last() {
            EngineAction::Finish(Ok(EngineVariant::Remote(client))) => client.socket_path@
                == socket_path(dir@),
            EngineAction::Finish(Ok(EngineVariant::Inline(engine))) => engine.dir() == dir@,
            _ => false,
        },
{
    lemma_engine_run_shape(path, events, actions);
}

proof fn lemma_auto_serve_run_shape(
    path: Seq<char>,
    events: Seq<AutoServeEvent>,
    actions: Seq<AutoServeAction>,
)
    requires
        is_auto_serve_run(path, events, actions),
    ensures
        events.len() <= 6,
        actions[0] is Resolve,
        events.len() > 1 ==> events[1] is Resolved && serves_first(path, events[1], actions[1]),
        events.len() > 2 ==> {
            &&& events[1] matches AutoServeEvent::Resolved(Ok(dir))
            &&& events[2] matches AutoServeEvent::SocketExists { place, found }
            &&& place.is_of(dir@)
            &&& serves_first(path, events[2], actions[2])
        },
        events.len() > 3 ==> {
            &&& events[2] matches AutoServeEvent::SocketExists { place, found }
            &&& !found
            &&& events[3] matches AutoServeEvent::Counted { place: p, files }
            &&& p == place
            &&& serves_first(path, events[3], actions[3])
        },
        events.len() > 4 ==> {
            &&& events[3] matches AutoServeEvent::Counted { place, files }
            &&& files > AUTO_SERVE_FILES
            &&& events[4] matches AutoServeEvent::ServerStarted { place: p, outcome }
            &&& p == place
            &&& serves_first(path, events[4], actions[4])
        },
        events.len() > 5 ==> {
            &&& events[4] matches AutoServeEvent::ServerStarted { place, outcome }
            &&& outcome is Ok
            &&& events[5] is Waited
            &&& serves_first(path, events[5], actions[5])
        },
{
    assert(serves_first(path, events[0], actions[0]));
    if events.len() > 1 {
        assert(auto_serve_answers(actions[0], events[1]));
        assert(serves_first(path, events[1], actions[1]));
    }
    if events.len() > 2 {
        assert(auto_serve_answers(actions[1], events[2]));
        assert(serves_first(path, events[2], actions[2]));
    }
    if events.len() > 3 {
        assert(auto_serve_answers(actions[2], events[3]));
        assert(serves_first(path, events[3], actions[3]));
    }
    if events.len() > 4 {
        assert(auto_serve_answers(actions[3], events[4]));
        assert(serves_first(path, events[4], actions[4]));
    }
    if events.len() > 5 {
        assert(auto_serve_answers(actions[4], events[5]));
        assert(serves_first(path, events[5], actions[5]));
    }
    if events.len() > 6 {
        assert(auto_serve_answers(actions[5], events[6]));
    }
}

/// Whether the directory was found without a socket and with that many files at least.
pub open spec fn is_large_without_socket(events: Seq<AutoServeEvent>, at_least: nat) -> bool {
    &&& events.len() > 3
    &&& events[2] matches AutoServeEvent::SocketExists { place, found }
    &&& !found
    &&& events[3] matches AutoServeEvent::Counted { place: counted, files }
    &&& files >= at_least
}

/// A server is started exactly if the directory has no socket and more than a
/// hundred Parquet files, and it is started for that directory.
pub proof fn law_server_starts_for_large_directories(
    path: Seq<char>,
    events: Seq<AutoServeEvent>,
    actions: Seq<AutoServeAction>,
    i: int,
)
    requires
        is_auto_serve_run(path, events, actions),
        0 <= i < actions.len(),
    ensures
        actions[i] is StartServer <==> i == 3 && is_large_without_socket(events, 101),
        actions[i] matches AutoServeAction::StartServer { place, args } ==> (events[1] matches
            AutoServeEvent::Resolved(Ok(dir)) && place.is_of(dir@) && texts(args@) == server_args(
            dir@,
        )),
{
    lemma_auto_serve_run_shape(path, events, actions);
}

/// A started server is waited for at the socket of the directory, for no longer
/// than it may take to come up.
pub proof fn law_started_server_is_waited_for(
    path: Seq<char>,
    events: Seq<AutoServeEvent>,
    actions: Seq<AutoServeAction>,
    i: int,
)
    requires
        is_auto_serve_run(path, events, actions),
        0 <= i < actions.len(),
        actions[i] is WaitForSocket,
    ensures
        i == 4,
        actions[3] is StartServer,
        events[1] matches AutoServeEvent::Resolved(Ok(dir)) && actions[4]->WaitForSocket_place.is_of(
            dir@,
        ),
        actions[4]->secs == 30,
{
    lemma_auto_serve_run_shape(path, events, actions);
}

/// The engine is opened only at the end, for the directory at the path, and if a server was started then only
/// after it came up.
pub proof fn law_engine_opens_after_the_server(
    path: Seq<char>,
    events: Seq<AutoServeEvent>,
    actions: Seq<AutoServeAction>,
    i: int,
    k: int,
)
    requires
        is_auto_serve_run(path, events, actions),
        0 <= i < actions.len(),
        actions[i] is OpenEngine,
        0 <= k < actions.len(),
    ensures
        i == actions.len() - 1,
        actions[i]->OpenEngine_dir@ == path,
        actions[k] is StartServer ==> (events[i] matches AutoServeEvent::Waited(outcome) && outcome
            is Ok),
{
    lemma_auto_serve_run_shape(path, events, actions);
    if i < events.len() - 1 {
        assert(auto_serve_answers(actions[i], events[i + 1]));
    }
}

}
