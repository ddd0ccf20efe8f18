//! What holds of every start and every run of a server.
use crate::engine::paths::{pid_path, socket_path};
use crate::engine::DuckDbParquetEngine;
use crate::server::{
    last_activity, Ending, HeappyServer, Launch, LaunchAction, LaunchEvent, ServerAction,
    ServerEvent, ServerStep,
};
use vstd::prelude::*;

verus! {

/// Whether an event can come of an action.
pub open spec fn launch_answers(action: LaunchAction, event: LaunchEvent) -> bool {
    match action {
        LaunchAction::CheckSocket { socket_path } => event is SocketExists,
        LaunchAction::Probe { socket_path } => event is Probed,
        LaunchAction::RemoveSocket { socket_path } => event is SocketRemoved,
        LaunchAction::BuildEngine { parquet_dir, log } => event matches LaunchEvent::EngineBuilt(
            built,
        ) && (built matches Ok(engine) ==> engine.dir() == parquet_dir@),
        LaunchAction::Run { server, log } => false,
        LaunchAction::Fail(e) => false,
    }
}

/// Whether an event can come of an action.
pub open spec fn server_answers(action: ServerAction, event: ServerEvent) -> bool {
    match action {
        ServerAction::WritePid { pid_path, text } => event is PidWritten,
        ServerAction::Bind { socket_path } => event is Bound,
        ServerAction::SetNonblocking => event is NonblockingSet,
        ServerAction::Accept => event is Accepted || event is Quiet || event is AcceptFailed,
        ServerAction::HandleConnection => event is Handled,
        ServerAction::Sleep { millis } => event is Slept,
        ServerAction::CleanUp(ending) => event == ServerEvent::CleanedUp(ending),
        ServerAction::Finish(result) => false,
    }
}

/// Whether the process id was written.
pub open spec fn wrote_pid(event: ServerEvent) -> bool {
    event matches ServerEvent::PidWritten(outcome) && outcome is Ok
}

/// Whether the socket was bound.
pub open spec fn bound(event: ServerEvent) -> bool {
    event matches ServerEvent::Bound(outcome) && outcome is Ok
}

/// Whether the socket was set up.
pub open spec fn set_up(event: ServerEvent) -> bool {
    event matches ServerEvent::NonblockingSet { outcome, now_nanos } && outcome is Ok
}

/// Whether the events and actions are those of a start, from its beginning on.
pub open spec fn is_launch(
    launch: Launch,
    events: Seq<LaunchEvent>,
    actions: Seq<LaunchAction>,
) -> bool {
    &&& events.len() == actions.len()
    &&& events.len() > 0
    &&& events[0] is Started
    &&& forall|i: int| #![trigger events[i], actions[i]]
        0 <= i < events.len() ==> launch.launches(events[i], actions[i])
    &&& forall|i: int, j: int| #![trigger actions[i], events[j]]
        0 <= i && j == i + 1 && j < events.len() ==> launch_answers(actions[i], events[j])
}

/// When a server was last busy, after all of some events.
pub open spec fn last_busy(events: Seq<ServerEvent>) -> u128
    decreases events.len(),
{
    if events.len() == 0 {
        0
    } else {
        last_activity(last_busy(events.drop_last()), events.last())
    }
}

/// Whether step `i` is the one that the server takes.
pub open spec fn takes_step(
    server: HeappyServer,
    events: Seq<ServerEvent>,
    steps: Seq<ServerStep>,
    i: int,
) -> bool {
    server.serves(last_busy(events.take(i)), events[i], steps[i])
}

/// Whether the events and steps are those of a server, from its beginning on.
pub open spec fn is_server_run(
    server: HeappyServer,
    events: Seq<ServerEvent>,
    steps: Seq<ServerStep>,
) -> bool {
    &&& events.len() == steps.len()
    &&& events.len() > 0
    &&& events[0] is Started
    &&& forall|i: int| #![trigger events[i], steps[i]]
        0 <= i < events.len() ==> takes_step(server, events, steps, i)
    &&& forall|i: int, j: int| #![trigger steps[i], events[j]]
        0 <= i && j == i + 1 && j < events.len() ==> server_answers(steps[i].action, events[j])
}

proof fn lemma_launch_shape(launch: Launch, events: Seq<LaunchEvent>, actions: Seq<LaunchAction>)
    requires
        is_launch(launch, events, actions),
    ensures
        events.len() <= 5,
        events.len() > 1 ==> events[1] is SocketExists,
        events.len() > 2 && events[1] == LaunchEvent::SocketExists(false) ==> events[2] is EngineBuilt
            && events.len() == 3,
        events.len() > 2 && events[1] == LaunchEvent::SocketExists(true) ==> events[2] is Probed,
        events.len() > 3 ==> events[1] == LaunchEvent::SocketExists(true) && events[2]
            == LaunchEvent::Probed(false) && events[3] is SocketRemoved,
        events.len() > 4 ==> events[4] is EngineBuilt,
{
    assert(launch.launches(events[0], actions[0]));
    if events.len() > 1 {
        assert(launch_answers(actions[0], events[1]));
        assert(launch.launches(events[1], actions[1]));
    }
    if events.len() > 2 {
        assert(launch_answers(actions[1], events[2]));
        assert(launch.launches(events[2], actions[2]));
    }
    if events.len() > 3 {
        assert(launch_answers(actions[2], events[3]));
        assert(launch.launches(events[3], actions[3]));
    }
    if events.len() > 4 {
        assert(launch_answers(actions[3], events[4]));
        assert(launch.launches(events[4], actions[4]));
    }
    if events.len() > 5 {
        assert(launch_answers(actions[4], events[5]));
    }
}

/// Where a server answers already, the start is refused; its socket is left
/// alone and no engine is built.
pub proof fn law_running_server_is_left_alone(
    launch: Launch,
    events: Seq<LaunchEvent>,
    actions: Seq<LaunchAction>,
)
    requires
        is_launch(launch, events, actions),
        events.contains(LaunchEvent::Probed(true)),
    ensures
        actions.last() matches LaunchAction::Fail(e) && e@ == "Server already running for "@
            + launch.parquet_dir@,
        forall|i: int| 0 <= i < actions.len() ==> {
            let action = #[trigger] actions[i];
            !(action is RemoveSocket) && !(action is BuildEngine) && !(action is Run)
        },
{
    lemma_launch_shape(launch, events, actions);
    let k = choose|k: int| 0 <= k < events.len() && events[k] == LaunchEvent::Probed(true);
    assert(k == 2 && events.len() == 3);
    assert(launch.launches(events[0], actions[0]));
    assert(launch.launches(events[1], actions[1]));
    assert(launch.launches(events[2], actions[2]));
}

/// A start removes only the socket of its directory, and only if it exists and
/// nobody answers on it.
pub proof fn law_start_removes_only_a_dead_socket(
    launch: Launch,
    events: Seq<LaunchEvent>,
    actions: Seq<LaunchAction>,
    i: int,
)
    requires
        launch.wf(),
        is_launch(launch, events, actions),
        0 <= i < actions.len(),
        actions[i] is RemoveSocket,
    ensures
        i == 2,
        actions[2]->RemoveSocket_socket_path@ == socket_path(launch.parquet_dir@),
        events[1] == LaunchEvent::SocketExists(true),
        events[2] == LaunchEvent::Probed(false),
{
    lemma_launch_shape(launch, events, actions);
    assert(launch.launches(events[i], actions[i]));
}

/// A server runs only after its engine was built, over the directory, and it is the
/// one that was asked for.
pub proof fn law_start_ends_with_the_engine(
    launch: Launch,
    events: Seq<LaunchEvent>,
    actions: Seq<LaunchAction>,
)
    requires
        is_launch(launch, events, actions),
        actions.last() is Run,
    ensures
        events.last() matches LaunchEvent::EngineBuilt(Ok(engine)) && engine.dir()
            == launch.parquet_dir@ && launch.makes(engine, actions.last()->server),
{
    let n = events.len() as int;
    assert(launch.launches(events[n - 1], actions[n - 1]));
    assert(launch_answers(actions[n - 2], events[n - 1]));
    assert(launch.launches(events[n - 2], actions[n - 2]));
}

/// A server listens where the clients of its directory look for it, and keeps
/// its process id beside.
pub proof fn law_server_listens_at_the_socket_of_its_directory(
    launch: Launch,
    engine: DuckDbParquetEngine,
    server: HeappyServer,
)
    requires
        launch.wf(),
        launch.makes(engine, server),
    ensures
        server.socket_path@ == socket_path(launch.parquet_dir@),
        server.pid_path@ == pid_path(launch.parquet_dir@),
{
}

proof fn lemma_server_start(server: HeappyServer, events: Seq<ServerEvent>, steps: Seq<ServerStep>)
    requires
        is_server_run(server, events, steps),
    ensures
        events.len() > 1 ==> events[1] is PidWritten,
        events.len() > 2 && wrote_pid(events[1]) ==> events[2] is Bound,
        events.len() > 3 ==> wrote_pid(events[1]),
        events.len() > 3 && bound(events[2]) ==> events[3] is NonblockingSet,
        events.len() > 4 ==> bound(events[2]),
        events.len() > 5 ==> set_up(events[3]),
{
    assert(takes_step(server, events, steps, 0));
    if events.len() > 1 {
        assert(server_answers(steps[0].action, events[1]));
        assert(takes_step(server, events, steps, 1));
    }
    if events.len() > 2 {
        assert(server_answers(steps[1].action, events[2]));
        assert(takes_step(server, events, steps, 2));
    }
    if events.len() > 3 {
        assert(server_answers(steps[2].action, events[3]));
        assert(takes_step(server, events, steps, 3));
    }
    if events.len() > 4 {
        assert(server_answers(steps[3].action, events[4]));
        assert(takes_step(server, events, steps, 4));
    }
    if events.len() > 5 {
        assert(server_answers(steps[4].action, events[5]));
    }
}

/// A server looks for connections only once its process id is written and its
/// socket is bound and set up.
pub proof fn law_server_listens_before_it_accepts(
    server: HeappyServer,
    events: Seq<ServerEvent>,
    steps: Seq<ServerStep>,
    i: int,
)
    requires
        is_server_run(server, events, steps),
        0 <= i < steps.len(),
        steps[i].action is Accept,
    ensures
        i >= 3,
        wrote_pid(events[1]),
        bound(events[2]),
        set_up(events[3]),
{
    lemma_server_start(server, events, steps);
    assert(takes_step(server, events, steps, i));
    if i > 0 {
        assert(server_answers(steps[i - 1].action, events[i]));
        assert(takes_step(server, events, steps, i - 1));
    }
    if events.len() > 3 {
        assert(takes_step(server, events, steps, 3));
    }
    if events.len() > 4 {
        assert(server_answers(steps[3].action, events[4]));
        assert(takes_step(server, events, steps, 4));
    }
}

/// A server that ends without an error was told to shut down or had been idle
/// for longer than its limit, and then cleaned up twice.
pub proof fn law_server_stops_for_a_reason(
    server: HeappyServer,
    events: Seq<ServerEvent>,
    steps: Seq<ServerStep>,
)
    requires
        is_server_run(server, events, steps),
        steps.last().action matches ServerAction::Finish(result) && result is Ok,
    ensures
        events.len() >= 4,
        events[events.len() - 1] == ServerEvent::CleanedUp(Ending::Stopped),
        events[events.len() - 2] == ServerEvent::CleanedUp(Ending::Stopping),
        match events[events.len() - 3] {
            ServerEvent::Handled { shutdown } => shutdown,
            ServerEvent::Quiet { now_nanos } => now_nanos - last_busy(
                events.take(events.len() - 3),
            ) > server.idle_timeout_nanos,
            _ => false,
        },
{
    let n = events.len() as int;
    assert(takes_step(server, events, steps, n - 1));
    assert(events[n - 1] == ServerEvent::CleanedUp(Ending::Stopped));
    assert(server_answers(steps[n - 2].action, events[n - 1]));
    assert(takes_step(server, events, steps, n - 2));
    assert(events[n - 2] == ServerEvent::CleanedUp(Ending::Stopping));
    assert(server_answers(steps[n - 3].action, events[n - 2]));
    assert(takes_step(server, events, steps, n - 3));
}

/// A server that ends with an error could not write its process id, bind its
/// socket or set it up; the error is that of the step that failed, and the
/// server has cleaned up.
pub proof fn law_server_fails_with_the_error_of_its_start(
    server: HeappyServer,
    events: Seq<ServerEvent>,
    steps: Seq<ServerStep>,
    error: String,
)
    requires
        is_server_run(server, events, steps),
        steps.last().action == ServerAction::Finish(Err(error)),
    ensures
        3 <= events.len() <= 5,
        events[events.len() - 1] == ServerEvent::CleanedUp(Ending::Failed(error)),
        match events[events.len() - 2] {
            ServerEvent::PidWritten(Err(e)) => e == error,
            ServerEvent::Bound(Err(e)) => e == error,
            ServerEvent::NonblockingSet { outcome: Err(e), now_nanos } => e == error,
            _ => false,
        },
{
    let n = events.len() as int;
    lemma_server_start(server, events, steps);
    assert(takes_step(server, events, steps, n - 1));
    assert(events[n - 1] == ServerEvent::CleanedUp(Ending::Failed(error)));
    assert(server_answers(steps[n - 2].action, events[n - 1]));
    assert(takes_step(server, events, steps, n - 2));
    if n > 5 {
        lemma_start_is_over(server, events, steps, n - 2);
    }
}

proof fn lemma_start_is_over(
    server: HeappyServer,
    events: Seq<ServerEvent>,
    steps: Seq<ServerStep>,
    i: int,
)
    requires
        is_server_run(server, events, steps),
        4 <= i < events.len(),
    ensures
        !(events[i] is Started || events[i] is PidWritten || events[i] is Bound
            || events[i] is NonblockingSet),
    decreases i,
{
    lemma_server_start(server, events, steps);
    assert(server_answers(steps[i - 1].action, events[i]));
    assert(takes_step(server, events, steps, i - 1));
    if i > 4 {
        lemma_start_is_over(server, events, steps, i - 1);
    }
}

/// Whether an event gives a server no reason to end: nothing of its start failed,
/// nobody asked it to shut down, and it has not been idle for longer than its limit.
pub open spec fn keeps_going(server: HeappyServer, events: Seq<ServerEvent>, i: int) -> bool {
    match events[i] {
        ServerEvent::PidWritten(outcome) => outcome is Ok,
        ServerEvent::Bound(outcome) => outcome is Ok,
        ServerEvent::NonblockingSet { outcome, now_nanos } => outcome is Ok,
        ServerEvent::Handled { shutdown } => !shutdown,
        ServerEvent::Quiet { now_nanos } => now_nanos - last_busy(events.take(i))
            <= server.idle_timeout_nanos,
        _ => true,
    }
}

/// A server goes on as long as nothing gives it a reason to end. A connection that
/// could not be accepted is no such reason.
pub proof fn law_busy_server_goes_on(
    server: HeappyServer,
    events: Seq<ServerEvent>,
    steps: Seq<ServerStep>,
)
    requires
        is_server_run(server, events, steps),
        forall|i: int| #![trigger events[i]] 0 <= i < events.len() ==> keeps_going(server, events, i),
    ensures
        forall|i: int| 0 <= i < steps.len() ==> {
            let action = (#[trigger] steps[i]).action;
            !(action is CleanUp) && !(action is Finish)
        },
{
    assert forall|i: int| 0 <= i < steps.len() implies {
        let action = (#[trigger] steps[i]).action;
        !(action is CleanUp) && !(action is Finish)
    } by {
        lemma_no_ending(server, events, steps, i);
    }
}

proof fn lemma_no_ending(
    server: HeappyServer,
    events: Seq<ServerEvent>,
    steps: Seq<ServerStep>,
    i: int,
)
    requires
        is_server_run(server, events, steps),
        forall|k: int| #![trigger events[k]] 0 <= k < events.len() ==> keeps_going(server, events, k),
        0 <= i < steps.len(),
    ensures
        !(steps[i].action is CleanUp) && !(steps[i].action is Finish),
    decreases i,
{
    assert(takes_step(server, events, steps, i));
    assert(keeps_going(server, events, i));
    if i > 0 {
        lemma_no_ending(server, events, steps, i - 1);
        assert(server_answers(steps[i - 1].action, events[i]));
    }
}

/// A server begins to stop exactly if a connection asked it to shut down, or if no
/// connection waits and the time since it was last busy is more than its limit.
pub proof fn law_server_stops_exactly_when_told_or_idle(
    server: HeappyServer,
    events: Seq<ServerEvent>,
    steps: Seq<ServerStep>,
    i: int,
)
    requires
        is_server_run(server, events, steps),
        0 <= i < steps.len(),
    ensures
        steps[i].action == ServerAction::CleanUp(Ending::Stopping) <==> match events[i] {
            ServerEvent::Handled { shutdown } => shutdown,
            ServerEvent::Quiet { now_nanos } => now_nanos - last_busy(events.take(i))
                > server.idle_timeout_nanos,
            _ => false,
        },
{
    assert(takes_step(server, events, steps, i));
}

/// Whether a connection came in at some event.
pub open spec fn came_in(event: ServerEvent) -> bool {
    event is Accepted
}

/// Every connection that comes in restarts the idle clock, whatever it carries:
/// until the next one, the server was last busy when it came in.
pub proof fn law_every_connection_restarts_the_idle_clock(
    server: HeappyServer,
    events: Seq<ServerEvent>,
    steps: Seq<ServerStep>,
    i: int,
    k: int,
)
    requires
        is_server_run(server, events, steps),
        0 <= i < k <= events.len(),
        came_in(events[i]),
        forall|j: int| i < j < k ==> !came_in(#[trigger] events[j]),
    ensures
        events[i] == (ServerEvent::Accepted { now_nanos: last_busy(events.take(k)) }),
    decreases k,
{
    let before = events.take(k).drop_last();
    assert(before =~= events.take(k - 1));
    assert(events.take(k).last() == events[k - 1]);
    if i < k - 1 {
        law_every_connection_restarts_the_idle_clock(server, events, steps, i, k - 1);
        lemma_accept_is_late(server, events, steps, i);
        lemma_start_is_over(server, events, steps, k - 1);
    }
}

/// Before the first connection, the server was last busy when its socket was set up.
pub proof fn law_idle_clock_starts_with_the_server(
    server: HeappyServer,
    events: Seq<ServerEvent>,
    steps: Seq<ServerStep>,
    k: int,
)
    requires
        is_server_run(server, events, steps),
        3 < k <= events.len(),
        set_up(events[3]),
        forall|j: int| 0 <= j < k ==> !came_in(#[trigger] events[j]),
    ensures
        events[3] matches ServerEvent::NonblockingSet { outcome, now_nanos } && now_nanos
            == last_busy(events.take(k)),
    decreases k,
{
    let before = events.take(k).drop_last();
    assert(before =~= events.take(k - 1));
    assert(events.take(k).last() == events[k - 1]);
    if k > 4 {
        law_idle_clock_starts_with_the_server(server, events, steps, k - 1);
        lemma_start_is_over(server, events, steps, k - 1);
    }
}

proof fn lemma_accept_is_late(
    server: HeappyServer,
    events: Seq<ServerEvent>,
    steps: Seq<ServerStep>,
    i: int,
)
    requires
        is_server_run(server, events, steps),
        0 <= i < events.len(),
        came_in(events[i]),
    ensures
        i >= 4,
{
    lemma_server_start(server, events, steps);
    if i > 0 {
        assert(server_answers(steps[i - 1].action, events[i]));
        assert(takes_step(server, events, steps, i - 1));
    }
}

}
