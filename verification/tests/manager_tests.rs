use stamper::codec::{decode, Frame};
use stamper::manager::{step, ManagerEvent, ManagerState};
use stamper::TaskMessage;

fn connect(state: &mut ManagerState, raw_handshake: &str) {
    let eff = step(
        state,
        ManagerEvent::ConnectSucceeded { handshake: decode(raw_handshake) },
    );
    assert!(eff.send.is_none());
    assert!(eff.emit.is_none());
}

#[test]
fn end_to_end_scenario() {
    let mut state = ManagerState::Connecting;

    // handshake negotiates a 1000 ms heartbeat
    connect(&mut state, "0{\"sid\":\"abc\",\"upgrades\":[],\"pingInterval\":1000}");
    match state {
        ManagerState::Active { heartbeat } => {
            assert_eq!(heartbeat.interval_ms, 1000);
            assert!(!heartbeat.awaiting_pong);
        }
        other => panic!("expected an active session, got {:?}", other),
    }

    // a queue-update event produces exactly one queue-changed message
    let eff = step(
        &mut state,
        ManagerEvent::FrameReceived { frame: decode("42[\"queue-update\", {}]") },
    );
    assert_eq!(eff.emit, Some(TaskMessage::SongQueueUpdate));
    assert!(eff.send.is_none());

    // a tick sends a ping; the raw pong clears the wait without emitting
    let eff = step(&mut state, ManagerEvent::HeartbeatTick);
    assert_eq!(eff.send, Some(Frame::Ping));
    let eff = step(&mut state, ManagerEvent::FrameReceived { frame: decode("3") });
    assert!(eff.emit.is_none());
    assert!(eff.send.is_none());
    match state {
        ManagerState::Active { heartbeat } => assert!(!heartbeat.awaiting_pong),
        other => panic!("expected an active session, got {:?}", other),
    }

    // a transport close causes exactly one reconnect attempt after the delay
    let eff = step(&mut state, ManagerEvent::ReadClosed);
    assert_eq!(state, ManagerState::Backoff);
    assert_eq!(eff.send, Some(Frame::Close));
    let eff = step(&mut state, ManagerEvent::DelayElapsed);
    assert_eq!(state, ManagerState::Connecting);
    assert!(eff.send.is_none());
    assert!(eff.emit.is_none());
}

#[test]
fn history_event_and_foreign_event() {
    let mut state = ManagerState::Connecting;
    connect(&mut state, "0{\"pingInterval\":1000}");
    let eff = step(
        &mut state,
        ManagerEvent::FrameReceived { frame: decode("42[\"new-playhistory\", {}]") },
    );
    assert_eq!(eff.emit, Some(TaskMessage::SongHistoryUpdate));
    let eff = step(
        &mut state,
        ManagerEvent::FrameReceived { frame: decode("42[\"crowd-joined\", {}]") },
    );
    assert!(eff.emit.is_none());
}

#[test]
fn unknown_and_control_frames_are_consumed_silently() {
    let mut state = ManagerState::Connecting;
    connect(&mut state, "0{\"pingInterval\":1000}");
    for raw in ["", "junk", "1", "2", "0{\"pingInterval\":7}"] {
        let eff = step(&mut state, ManagerEvent::FrameReceived { frame: decode(raw) });
        assert!(eff.emit.is_none(), "frame {:?} must not emit", raw);
        assert!(eff.send.is_none());
    }
    match state {
        ManagerState::Active { heartbeat } => assert_eq!(heartbeat.interval_ms, 1000),
        other => panic!("expected an active session, got {:?}", other),
    }
}

#[test]
fn malformed_handshake_still_connects_with_default() {
    let mut state = ManagerState::Connecting;
    connect(&mut state, "0{oops");
    match state {
        ManagerState::Active { heartbeat } => assert_eq!(heartbeat.interval_ms, 1000),
        other => panic!("expected an active session, got {:?}", other),
    }
}

#[test]
fn failed_connects_retry_after_each_delay() {
    let failures = 3;
    let mut state = ManagerState::Connecting;
    let mut attempts = 0;
    for _ in 0..failures {
        assert_eq!(state, ManagerState::Connecting);
        attempts += 1;
        step(&mut state, ManagerEvent::ConnectFailed);
        assert_eq!(state, ManagerState::Backoff);
        step(&mut state, ManagerEvent::DelayElapsed);
        assert_eq!(state, ManagerState::Connecting);
    }
    attempts += 1;
    connect(&mut state, "0{\"pingInterval\":1000}");
    assert!(matches!(state, ManagerState::Active { .. }));
    assert_eq!(attempts, failures + 1);
}

#[test]
fn heartbeat_timeout_tears_the_session_down() {
    let mut state = ManagerState::Connecting;
    connect(&mut state, "0{\"pingInterval\":1000}");
    let eff = step(&mut state, ManagerEvent::HeartbeatTick);
    assert_eq!(eff.send, Some(Frame::Ping));
    // no pong before the next tick: close and back off
    let eff = step(&mut state, ManagerEvent::HeartbeatTick);
    assert_eq!(eff.send, Some(Frame::Close));
    assert_eq!(state, ManagerState::Backoff);
}

#[test]
fn read_failure_closes_and_backs_off() {
    let mut state = ManagerState::Connecting;
    connect(&mut state, "0{\"pingInterval\":1000}");
    let eff = step(&mut state, ManagerEvent::ReadFailed);
    assert_eq!(eff.send, Some(Frame::Close));
    assert_eq!(state, ManagerState::Backoff);
}

#[test]
fn shutdown_from_active_closes_and_silences_everything() {
    let mut state = ManagerState::Connecting;
    connect(&mut state, "0{\"pingInterval\":1000}");
    let eff = step(&mut state, ManagerEvent::ShutdownRequested);
    assert_eq!(state, ManagerState::Terminal);
    assert_eq!(eff.send, Some(Frame::Close));
    assert!(eff.emit.is_none());

    // nothing observed afterwards produces a message or a new attempt
    let eff = step(
        &mut state,
        ManagerEvent::FrameReceived { frame: decode("42[\"queue-update\", {}]") },
    );
    assert!(eff.emit.is_none());
    assert!(eff.send.is_none());
    assert_eq!(state, ManagerState::Terminal);
    let eff = step(&mut state, ManagerEvent::HeartbeatTick);
    assert!(eff.send.is_none());
    assert_eq!(state, ManagerState::Terminal);
    let eff = step(&mut state, ManagerEvent::DelayElapsed);
    assert!(eff.send.is_none());
    assert_eq!(state, ManagerState::Terminal);
}

#[test]
fn shutdown_while_waiting_out_the_delay_exits_without_closing() {
    let mut state = ManagerState::Connecting;
    step(&mut state, ManagerEvent::ConnectFailed);
    assert_eq!(state, ManagerState::Backoff);
    let eff = step(&mut state, ManagerEvent::ShutdownRequested);
    assert_eq!(state, ManagerState::Terminal);
    assert!(eff.send.is_none());
    assert!(eff.emit.is_none());
}
