use sparrow::hdmem::MemError;
use sparrow::pollers::{ConnAction, ConnEvent, ConnLoop, Event, RETRY_DELAY_SECS};

#[test]
fn retry_delay_is_five_seconds() {
    assert_eq!(RETRY_DELAY_SECS, 5);
}

/// The attach-failure scenario: the loop emits "searching", the attach
/// fails, and after the fixed backoff it emits "searching" again — with
/// no "connected" or "disconnected" in between.
#[test]
fn attach_failure_searches_again_after_backoff() {
    let (mut conn, first, action) = ConnLoop::start();
    assert_eq!(first, Event::FindingGame);
    assert_eq!(action, ConnAction::Attach);

    let (emit, action) = conn.step(ConnEvent::AttachFailed);
    assert_eq!(emit, None); // nothing between the two "searching"s
    assert_eq!(action, ConnAction::Sleep);

    let (emit, action) = conn.step(ConnEvent::Slept);
    assert_eq!(emit, Some(Event::FindingGame));
    assert_eq!(action, ConnAction::Attach);
}

/// A successful attach emits "connected" and runs the supervisor; the
/// supervisor's first failure is emitted as the "disconnected" reason,
/// and the loop backs off and searches again.
#[test]
fn connection_lifetime_emits_connected_then_disconnected() {
    let (mut conn, first, _) = ConnLoop::start();
    assert_eq!(first, Event::FindingGame);

    let (emit, action) = conn.step(ConnEvent::Attached);
    assert_eq!(emit, Some(Event::GameConnected));
    assert_eq!(action, ConnAction::RunSupervisor);

    let (emit, action) = conn.step(ConnEvent::SupervisorDone(MemError::ReadFailure));
    assert_eq!(emit, Some(Event::GameDisconnected(MemError::ReadFailure)));
    assert_eq!(action, ConnAction::Sleep);

    let (emit, action) = conn.step(ConnEvent::Slept);
    assert_eq!(emit, Some(Event::FindingGame));
    assert_eq!(action, ConnAction::Attach);
}
