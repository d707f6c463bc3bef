use aircap::captures::readiness::{
    Bridge, BridgeAction, BridgeEvent, Direction, Interest, Phase,
};
use std::io;

fn would_block() -> io::Error {
    io::Error::from(io::ErrorKind::WouldBlock)
}

fn suspended(direction: Direction) -> Bridge {
    let (bridge, _) = Bridge::begin(direction);
    let (bridge, _) = bridge.step(BridgeEvent::Attempted(Err(would_block())));
    assert_eq!(bridge.phase, Phase::Suspended);
    bridge
}

#[test]
fn an_operation_starts_with_an_attempt() {
    let (bridge, action) = Bridge::begin(Direction::Receive);
    assert_eq!(bridge, Bridge { direction: Direction::Receive, phase: Phase::Attempting });
    assert!(matches!(action, BridgeAction::Attempt));
    let (bridge, action) = Bridge::begin(Direction::Send);
    assert_eq!(bridge, Bridge { direction: Direction::Send, phase: Phase::Attempting });
    assert!(matches!(action, BridgeAction::Attempt));
}

#[test]
fn a_transfer_completes_with_its_count() {
    let (bridge, _) = Bridge::begin(Direction::Receive);
    let (bridge, action) = bridge.step(BridgeEvent::Attempted(Ok(1500)));
    assert_eq!(bridge.phase, Phase::Finished);
    assert!(matches!(action, BridgeAction::Complete(Ok(1500))));
    let (bridge, _) = Bridge::begin(Direction::Send);
    let (bridge, action) = bridge.step(BridgeEvent::Attempted(Ok(0)));
    assert_eq!(bridge.phase, Phase::Finished);
    assert!(matches!(action, BridgeAction::Complete(Ok(0))));
}

#[test]
fn a_receive_that_would_block_waits_to_read() {
    let (bridge, _) = Bridge::begin(Direction::Receive);
    let (bridge, action) = bridge.step(BridgeEvent::Attempted(Err(would_block())));
    assert_eq!(bridge, Bridge { direction: Direction::Receive, phase: Phase::Suspended });
    assert!(matches!(action, BridgeAction::Suspend(Interest::Readable)));
}

#[test]
fn a_send_that_would_block_waits_to_write() {
    let (bridge, _) = Bridge::begin(Direction::Send);
    let (bridge, action) = bridge.step(BridgeEvent::Attempted(Err(would_block())));
    assert_eq!(bridge, Bridge { direction: Direction::Send, phase: Phase::Suspended });
    assert!(matches!(action, BridgeAction::Suspend(Interest::Writable)));
}

#[test]
fn any_other_failure_is_returned_and_not_retried() {
    let (bridge, _) = Bridge::begin(Direction::Receive);
    let reset = io::Error::from(io::ErrorKind::ConnectionReset);
    let (bridge, action) = bridge.step(BridgeEvent::Attempted(Err(reset)));
    assert_eq!(bridge.phase, Phase::Finished);
    match action {
        BridgeAction::Complete(Err(error)) => {
            assert_eq!(error.kind(), io::ErrorKind::ConnectionReset)
        }
        other => panic!("expected the failure, got {:?}", other),
    }
}

#[test]
fn a_wake_up_is_answered_by_one_attempt() {
    let (bridge, action) = suspended(Direction::Receive).step(BridgeEvent::Woken(Ok(())));
    assert_eq!(bridge, Bridge { direction: Direction::Receive, phase: Phase::Attempting });
    assert!(matches!(action, BridgeAction::Attempt));
    let (bridge, action) = bridge.step(BridgeEvent::Woken(Ok(())));
    assert_eq!(bridge.phase, Phase::Attempting);
    assert!(matches!(action, BridgeAction::Ignore));
}

#[test]
fn a_spurious_wake_up_suspends_again() {
    let (bridge, _) = suspended(Direction::Receive).step(BridgeEvent::Woken(Ok(())));
    let (bridge, action) = bridge.step(BridgeEvent::Attempted(Err(would_block())));
    assert_eq!(bridge.phase, Phase::Suspended);
    assert!(matches!(action, BridgeAction::Suspend(Interest::Readable)));
    let (bridge, action) = bridge.step(BridgeEvent::Woken(Ok(())));
    assert!(matches!(action, BridgeAction::Attempt));
    let (bridge, action) = bridge.step(BridgeEvent::Attempted(Ok(64)));
    assert_eq!(bridge.phase, Phase::Finished);
    assert!(matches!(action, BridgeAction::Complete(Ok(64))));
}

#[test]
fn a_failed_wait_is_returned() {
    let broken = io::Error::from(io::ErrorKind::BrokenPipe);
    let (bridge, action) = suspended(Direction::Send).step(BridgeEvent::Woken(Err(broken)));
    assert_eq!(bridge.phase, Phase::Finished);
    match action {
        BridgeAction::Complete(Err(error)) => assert_eq!(error.kind(), io::ErrorKind::BrokenPipe),
        other => panic!("expected the failure, got {:?}", other),
    }
}

#[test]
fn an_operation_does_not_return_while_nothing_arrives() {
    let (mut bridge, mut action) = Bridge::begin(Direction::Receive);
    let mut round: u32 = 0;
    while round < 100 {
        assert!(matches!(action, BridgeAction::Attempt));
        let step = bridge.step(BridgeEvent::Attempted(Err(would_block())));
        assert!(matches!(step.1, BridgeAction::Suspend(Interest::Readable)));
        let step = step.0.step(BridgeEvent::Woken(Ok(())));
        bridge = step.0;
        action = step.1;
        assert_ne!(bridge.phase, Phase::Finished);
        round += 1;
    }
}

#[test]
fn cancelling_a_suspended_operation_releases_its_interest() {
    let (bridge, action) = suspended(Direction::Receive).step(BridgeEvent::Cancelled);
    assert_eq!(bridge.phase, Phase::Finished);
    assert!(matches!(action, BridgeAction::Release));
    let (bridge, action) = Bridge::begin(Direction::Receive);
    assert!(matches!(action, BridgeAction::Attempt));
    let (bridge, action) = bridge.step(BridgeEvent::Attempted(Ok(3)));
    assert_eq!(bridge.phase, Phase::Finished);
    assert!(matches!(action, BridgeAction::Complete(Ok(3))));
}

#[test]
fn cancelling_before_the_attempt_ends_the_operation() {
    let (bridge, _) = Bridge::begin(Direction::Send);
    let (bridge, action) = bridge.step(BridgeEvent::Cancelled);
    assert_eq!(bridge, Bridge { direction: Direction::Send, phase: Phase::Finished });
    assert!(matches!(action, BridgeAction::Release));
}

#[test]
fn a_finished_operation_ignores_what_comes_later() {
    let (bridge, _) = suspended(Direction::Receive).step(BridgeEvent::Cancelled);
    let (bridge, action) = bridge.step(BridgeEvent::Woken(Ok(())));
    assert_eq!(bridge.phase, Phase::Finished);
    assert!(matches!(action, BridgeAction::Ignore));
    let (bridge, action) = bridge.step(BridgeEvent::Attempted(Ok(9)));
    assert_eq!(bridge.phase, Phase::Finished);
    assert!(matches!(action, BridgeAction::Ignore));
    let (bridge, action) = bridge.step(BridgeEvent::Cancelled);
    assert_eq!(bridge.phase, Phase::Finished);
    assert!(matches!(action, BridgeAction::Ignore));
}

#[test]
fn an_attempt_reported_while_suspended_is_ignored() {
    let (bridge, action) = suspended(Direction::Receive).step(BridgeEvent::Attempted(Ok(5)));
    assert_eq!(bridge.phase, Phase::Suspended);
    assert!(matches!(action, BridgeAction::Ignore));
}

#[test]
fn a_classified_failure() {
    let (bridge, _) = Bridge::begin(Direction::Send);
    let (next, action) = bridge.failed(io::Error::from(io::ErrorKind::Other), true);
    assert_eq!(next.phase, Phase::Suspended);
    assert!(matches!(action, BridgeAction::Suspend(Interest::Writable)));
    let (next, action) = bridge.failed(would_block(), false);
    assert_eq!(next.phase, Phase::Finished);
    match action {
        BridgeAction::Complete(Err(error)) => assert_eq!(error.kind(), io::ErrorKind::WouldBlock),
        other => panic!("expected the failure, got {:?}", other),
    }
    let (next, action) = next.failed(would_block(), true);
    assert_eq!(next.phase, Phase::Finished);
    assert!(matches!(action, BridgeAction::Ignore));
}

#[test]
fn interests_follow_the_direction() {
    assert_eq!(Direction::Receive.interest(), Interest::Readable);
    assert_eq!(Direction::Send.interest(), Interest::Writable);
}
