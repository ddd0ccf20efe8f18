use heappy::engine::wait::{
    wait_for_socket_pub, wait_timeout_message, WaitAction, WaitEvent, POLL_MILLIS,
};

#[test]
fn waiting_reads_the_clock_first() {
    assert_eq!(wait_for_socket_pub("s.sock", 10, WaitEvent::Started), WaitAction::ReadClock);
    assert_eq!(wait_for_socket_pub("s.sock", 10, WaitEvent::Slept), WaitAction::ReadClock);
}

#[test]
fn waiting_ends_with_a_connection() {
    let limit: u128 = 30_000_000_000;
    assert_eq!(
        wait_for_socket_pub("s.sock", limit, WaitEvent::Elapsed { nanos: limit - 1 }),
        WaitAction::CheckExists { socket_path: "s.sock".to_string() }
    );
    assert_eq!(wait_for_socket_pub("s.sock", limit, WaitEvent::Exists(true)), WaitAction::Connect { socket_path: "s.sock".to_string() });
    assert_eq!(wait_for_socket_pub("s.sock", limit, WaitEvent::Connected(true)), WaitAction::Ready);
}

#[test]
fn waiting_pauses_without_a_server() {
    let pause = || WaitAction::Sleep { millis: 200 };
    assert_eq!(POLL_MILLIS, 200);
    assert_eq!(wait_for_socket_pub("s.sock", 1, WaitEvent::Exists(false)), pause());
    assert_eq!(wait_for_socket_pub("s.sock", 1, WaitEvent::Connected(false)), pause());
}

#[test]
fn waiting_gives_up_at_the_limit() {
    assert_eq!(
        wait_for_socket_pub("s.sock", 7, WaitEvent::Elapsed { nanos: 7 }),
        WaitAction::TimedOut
    );
    assert_eq!(
        wait_for_socket_pub("s.sock", 0, WaitEvent::Elapsed { nanos: 0 }),
        WaitAction::TimedOut
    );
    assert_eq!(wait_timeout_message(), "Timeout waiting for server to start");
}
