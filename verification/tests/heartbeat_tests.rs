use stamper::heartbeat::{HeartbeatState, TickAction};

#[test]
fn fresh_state_sends_ping_on_first_tick() {
    let mut hb = HeartbeatState::new(1000);
    assert!(!hb.awaiting_pong);
    assert_eq!(hb.on_tick(), TickAction::SendPing);
    assert!(hb.awaiting_pong);
    assert_eq!(hb.interval_ms, 1000);
}

#[test]
fn pong_between_every_ping_never_times_out() {
    let mut hb = HeartbeatState::new(250);
    for _ in 0..10 {
        assert_eq!(hb.on_tick(), TickAction::SendPing);
        hb.on_pong();
        assert!(!hb.awaiting_pong);
    }
}

#[test]
fn missing_pong_times_out_on_exactly_that_tick() {
    let mut hb = HeartbeatState::new(250);
    assert_eq!(hb.on_tick(), TickAction::SendPing);
    hb.on_pong();
    assert_eq!(hb.on_tick(), TickAction::SendPing);
    // no pong since the previous ping: the very next tick declares death
    assert_eq!(hb.on_tick(), TickAction::TimedOut);
}

#[test]
fn pong_without_outstanding_ping_is_a_no_op() {
    let mut hb = HeartbeatState::new(250);
    hb.on_pong();
    assert!(!hb.awaiting_pong);
    assert_eq!(hb.interval_ms, 250);
    assert_eq!(hb.on_tick(), TickAction::SendPing);
}
