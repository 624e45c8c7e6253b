use m3ua::{Asp, AspAction, AspState, M3uaMessage, MessageType, ProtocolData};

fn is_reply(a: &AspAction, mt: MessageType) -> bool {
    matches!(a, AspAction::Reply(m) if m.message_type == mt)
}

#[test]
fn handshake_progresses_down_inactive_active() {
    let mut asp = Asp::new();
    assert_eq!(asp.state(), AspState::Down);

    let a = asp.handle(&M3uaMessage::asp_up(None, None));
    assert!(is_reply(&a, MessageType::AspUpAck));
    assert_eq!(asp.state(), AspState::Inactive);

    let a = asp.handle(&M3uaMessage::asp_active(None, Some(100)));
    assert!(is_reply(&a, MessageType::AspActiveAck));
    assert_eq!(asp.state(), AspState::Active);
}

#[test]
fn data_delivers_only_when_active() {
    let mut asp = Asp::new();
    let data = M3uaMessage::data(
        None,
        None,
        ProtocolData::new(1, 2, 3, 2, 0, 0, vec![]),
        None,
    );

    // Down → DATA is out of state, ignored.
    assert!(matches!(asp.handle(&data), AspAction::Ignore));

    asp.handle(&M3uaMessage::asp_up(None, None));
    asp.handle(&M3uaMessage::asp_active(None, None));
    assert!(matches!(asp.handle(&data), AspAction::Deliver));
}

#[test]
fn heartbeat_is_acked() {
    let mut asp = Asp::new();
    assert!(is_reply(
        &asp.handle(&M3uaMessage::heartbeat(None)),
        MessageType::HeartbeatAck
    ));
}

#[test]
fn down_returns_to_down() {
    let mut asp = Asp::new();
    asp.handle(&M3uaMessage::asp_up(None, None));
    asp.handle(&M3uaMessage::asp_active(None, None));
    let a = asp.handle(&M3uaMessage::asp_down(None));
    assert!(is_reply(&a, MessageType::AspDownAck));
    assert_eq!(asp.state(), AspState::Down);
}
