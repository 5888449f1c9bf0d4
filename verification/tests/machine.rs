use mqtt_logger::session::{
    ConnState, InboundItem, LoopAction, Message, ReconnectStep, RetryPolicy, Session,
};

fn msg(topic: &str, payload: &str) -> InboundItem {
    InboundItem::Message(Message { topic: String::from(topic), payload: String::from(payload) })
}

fn connected_session() -> Session {
    let mut s = Session::new(RetryPolicy::standard());
    let subscribe_needed = s.on_connect_success(false);
    assert!(subscribe_needed);
    s.on_subscribe_success();
    s
}

#[test]
fn standard_policy_is_twelve_attempts_five_seconds_apart() {
    let p = RetryPolicy::standard();
    assert_eq!(p.max_attempts, 12);
    assert_eq!(p.delay_ms, 5000);
}

#[test]
fn connect_without_persisted_session_subscribes() {
    let mut s = Session::new(RetryPolicy::standard());
    let subscribe_needed = s.on_connect_success(false);
    assert!(subscribe_needed);
    assert_eq!(s.state, ConnState::Connected);
    s.on_subscribe_success();
    assert!(s.subscribed);
}

#[test]
fn connect_with_persisted_session_skips_subscribe() {
    let mut s = Session::new(RetryPolicy::standard());
    let subscribe_needed = s.on_connect_success(true);
    assert!(!subscribe_needed);
    assert_eq!(s.state, ConnState::Connected);
    assert!(s.subscribed);
}

#[test]
fn resubscribe_only_without_persisted_session() {
    let mut s = connected_session();
    assert!(!s.resubscribe_needed(true));
    assert!(s.subscribed);
    let mut t = connected_session();
    assert!(t.resubscribe_needed(false));
}

#[test]
fn messages_are_logged_in_arrival_order() {
    let mut s = connected_session();
    let items = [("sensors/1", "10"), ("sensors/2", "20"), ("sensors/3", "30")];
    let mut logged: Vec<(String, String)> = Vec::new();
    for (topic, payload) in items {
        match s.on_item(msg(topic, payload), true) {
            LoopAction::Log(m) => logged.push((m.topic, m.payload)),
            _ => panic!("a message must be logged"),
        }
        s.on_sink_result(true);
    }
    assert_eq!(s.state, ConnState::Connected);
    assert_eq!(logged.len(), 3);
    for (i, (topic, payload)) in items.iter().enumerate() {
        assert_eq!(logged[i].0, *topic);
        assert_eq!(logged[i].1, *payload);
    }
}

#[test]
fn spurious_sentinel_keeps_consuming() {
    let mut s = connected_session();
    let action = s.on_item(InboundItem::Disconnect, true);
    assert!(matches!(action, LoopAction::Skip));
    assert_eq!(s.state, ConnState::Connected);
    let next = s.on_item(msg("sensors/1", "10"), true);
    assert!(matches!(next, LoopAction::Log(_)));
}

#[test]
fn genuine_disconnect_reconnects_within_budget() {
    let mut s = connected_session();
    let action = s.on_item(InboundItem::Disconnect, false);
    assert!(matches!(action, LoopAction::Reconnect));
    assert_eq!(s.state, ConnState::Connecting);
    assert_eq!(s.attempts_left, 12);
    assert_eq!(s.on_reconnect_attempt(false), ReconnectStep::RetryAfterDelay(5000));
    assert_eq!(s.on_reconnect_attempt(false), ReconnectStep::RetryAfterDelay(5000));
    assert_eq!(s.on_reconnect_attempt(true), ReconnectStep::Resumed);
    assert_eq!(s.state, ConnState::Connected);
    let next = s.on_item(msg("sensors/2", "20"), true);
    assert!(matches!(next, LoopAction::Log(_)));
}

#[test]
fn reconnect_exhaustion_terminates() {
    let mut s = connected_session();
    s.on_item(InboundItem::Disconnect, false);
    for _ in 0..11 {
        assert_eq!(s.on_reconnect_attempt(false), ReconnectStep::RetryAfterDelay(5000));
    }
    assert_eq!(s.on_reconnect_attempt(false), ReconnectStep::GaveUp);
    assert_eq!(s.state, ConnState::Terminated);
    assert_eq!(s.exit_code(), 1);
}

#[test]
fn sink_failure_does_not_stop_consumption() {
    let mut s = connected_session();
    let first = s.on_item(msg("sensors/1", "10"), true);
    assert!(matches!(first, LoopAction::Log(_)));
    s.on_sink_result(false);
    assert_eq!(s.state, ConnState::Connected);
    let second = s.on_item(msg("sensors/2", "20"), true);
    match second {
        LoopAction::Log(m) => {
            assert_eq!(m.topic, "sensors/2");
            assert_eq!(m.payload, "20");
        }
        _ => panic!("the message after a sink failure must still be logged"),
    }
}

#[test]
fn subscribe_failure_is_fatal() {
    let mut s = Session::new(RetryPolicy::standard());
    let subscribe_needed = s.on_connect_success(false);
    assert!(subscribe_needed);
    s.on_subscribe_failure();
    assert_eq!(s.state, ConnState::Terminated);
    assert_eq!(s.exit_code(), 1);
}

#[test]
fn teardown_only_while_connected() {
    let s = connected_session();
    assert!(s.needs_teardown(true));
    assert!(!s.needs_teardown(false));
    assert_eq!(s.exit_code(), 0);
}
