//! Waiting for a server to come up.
use vstd::prelude::*;

verus! {

/// What was done last while waiting for the socket of a server.
#[derive(Debug, Clone, Copy, PartialEq, Eq, Structural)]
pub enum WaitEvent {
    /// The waiting begins.
    Started,
    /// The time since the beginning was read.
    Elapsed { nanos: u128 },
    /// Whether the socket exists.
    Exists(bool),
    /// Whether a connection to the socket was made.
    Connected(bool),
    /// The pause is over.
    Slept,
}

/// What to do next while waiting.
#[derive(Debug, PartialEq)]
pub enum WaitAction {
    ReadClock,
    CheckExists { socket_path: String },
    Connect { socket_path: String },
    Sleep { millis: u64 },
    Ready,
    TimedOut,
}

/// The pause between two looks at the socket.
pub const POLL_MILLIS: u64 = 200;

/// The course of the waiting: within the time limit, look for the socket, try
/// to connect if it is there, and pause if it is not or does not answer.
pub open spec fn waits(
    socket: Seq<char>,
    timeout_nanos: u128,
    event: WaitEvent,
    action: WaitAction,
) -> bool {
    match event {
        WaitEvent::Started | WaitEvent::Slept => action == WaitAction::ReadClock,
        WaitEvent::Elapsed { nanos } => if nanos < timeout_nanos {
            action matches WaitAction::CheckExists { socket_path } && socket_path@ == socket
        } else {
            action == WaitAction::TimedOut
        },
        WaitEvent::Exists(true) => action matches WaitAction::Connect { socket_path } && socket_path@
            == socket,
        WaitEvent::Connected(true) => action == WaitAction::Ready,
        WaitEvent::Exists(false) | WaitEvent::Connected(false) => action == (WaitAction::Sleep {
            millis: POLL_MILLIS,
        }),
    }
}

/// Whether an event can come of an action.
pub open spec fn wait_answers(action: WaitAction, event: WaitEvent) -> bool {
    match action {
        WaitAction::ReadClock => event is Elapsed,
        WaitAction::CheckExists { socket_path } => event is Exists,
        WaitAction::Connect { socket_path } => event is Connected,
        WaitAction::Sleep { millis } => event is Slept,
        WaitAction::Ready | WaitAction::TimedOut => false,
    }
}

/// Whether the events and actions are those of a wait for a socket, from its
/// beginning on.
pub open spec fn is_wait(
    socket: Seq<char>,
    timeout_nanos: u128,
    events: Seq<WaitEvent>,
    actions: Seq<WaitAction>,
) -> bool {
    &&& events.len() == actions.len()
    &&& events.len() > 0
    &&& events[0] == WaitEvent::Started
    &&& forall|i: int| #![trigger events[i], actions[i]]
        0 <= i < events.len() ==> waits(socket, timeout_nanos, events[i], actions[i])
    &&& forall|i: int, j: int| #![trigger actions[i], events[j]]
        0 <= i && j == i + 1 && j < events.len() ==> wait_answers(actions[i], events[j])
}

/// Whether the clock was read at or after the time limit.
pub open spec fn at_limit(timeout_nanos: u128, event: WaitEvent) -> bool {
    event matches WaitEvent::Elapsed { nanos } && nanos >= timeout_nanos
}

/// What a wait that ran out of time is reported with.
pub open spec fn wait_timeout_text() -> Seq<char> {
    "Timeout waiting for server to start"@
}

fn wait_for_socket(socket: &str, timeout_nanos: u128, event: WaitEvent) -> (action: WaitAction)
    ensures
        waits(socket@, timeout_nanos, event, action),
{
    match event {
        WaitEvent::Started => WaitAction::ReadClock,
        WaitEvent::Slept => WaitAction::ReadClock,
        WaitEvent::Elapsed { nanos } => {
            if nanos < timeout_nanos {
                WaitAction::CheckExists { socket_path: socket.to_string() }
            } else {
                WaitAction::TimedOut
            }
        },
        WaitEvent::Exists(found) => {
            if found {
                WaitAction::Connect { socket_path: socket.to_string() }
            } else {
                WaitAction::Sleep { millis: POLL_MILLIS }
            }
        },
        WaitEvent::Connected(answered) => {
            if answered {
                WaitAction::Ready
            } else {
                WaitAction::Sleep { millis: POLL_MILLIS }
            }
        },
    }
}

/// What to do next while waiting for a server to come up behind a socket.
pub fn wait_for_socket_pub(socket: &str, timeout_nanos: u128, event: WaitEvent) -> (action:
    WaitAction)
    ensures
        waits(socket@, timeout_nanos, event, action),
{
    wait_for_socket(socket, timeout_nanos, event)
}

/// The message of a wait that ran out of time.
pub fn wait_timeout_message() -> (text: String)
    ensures
        text@ == wait_timeout_text(),
{
    "Timeout waiting for server to start".to_string()
}

/// A wait ends well only on a connection that was made to the socket, which was
/// found within the time limit.
pub proof fn law_ready_means_connected_in_time(
    socket: Seq<char>,
    timeout_nanos: u128,
    events: Seq<WaitEvent>,
    actions: Seq<WaitAction>,
)
    requires
        is_wait(socket, timeout_nanos, events, actions),
        actions.last() is Ready,
    ensures
        events.len() >= 4,
        events[events.len() - 1] == WaitEvent::Connected(true),
        actions[events.len() - 2] matches WaitAction::Connect { socket_path } && socket_path@
            == socket,
        events[events.len() - 2] == WaitEvent::Exists(true),
        events[events.len() - 3] matches WaitEvent::Elapsed { nanos } && nanos < timeout_nanos,
{
    let n = events.len() as int;
    assert(waits(socket, timeout_nanos, events[n - 1], actions[n - 1]));
    assert(events[n - 1] == WaitEvent::Connected(true));
    assert(wait_answers(actions[n - 2], events[n - 1]));
    assert(waits(socket, timeout_nanos, events[n - 2], actions[n - 2]));
    assert(events[n - 2] == WaitEvent::Exists(true));
    assert(wait_answers(actions[n - 3], events[n - 2]));
    assert(waits(socket, timeout_nanos, events[n - 3], actions[n - 3]));
}

/// A wait gives up exactly when its clock has reached the time limit, and never
/// goes on after that.
pub proof fn law_gives_up_at_the_limit(
    socket: Seq<char>,
    timeout_nanos: u128,
    events: Seq<WaitEvent>,
    actions: Seq<WaitAction>,
    i: int,
)
    requires
        is_wait(socket, timeout_nanos, events, actions),
        0 <= i < events.len(),
    ensures
        actions[i] is TimedOut <==> at_limit(timeout_nanos, events[i]),
        at_limit(timeout_nanos, events[i]) ==> i == events.len() - 1,
{
    assert(waits(socket, timeout_nanos, events[i], actions[i]));
    if i < events.len() - 1 {
        assert(wait_answers(actions[i], events[i + 1]));
    }
}

}
