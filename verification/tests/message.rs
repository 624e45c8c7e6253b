use m3ua::parameter::find_parameter;
use m3ua::{tags, M3uaMessage, MessageType, ProtocolData};

#[test]
fn aspup_round_trip() {
    let msg = M3uaMessage::asp_up(Some(1), Some("test"));
    let encoded = msg.encode();
    let decoded = M3uaMessage::decode(&encoded).unwrap();
    assert_eq!(decoded.message_type, MessageType::AspUp);
    assert_eq!(decoded.parameters.len(), 2);
}

#[test]
fn aspup_no_params() {
    let msg = M3uaMessage::asp_up(None, None);
    let encoded = msg.encode();
    assert_eq!(encoded.len(), 8); // header only
    let decoded = M3uaMessage::decode(&encoded).unwrap();
    assert_eq!(decoded.message_type, MessageType::AspUp);
    assert!(decoded.parameters.is_empty());
}

#[test]
fn data_message() {
    let pd = ProtocolData::new(100, 200, 3, 2, 0, 5, vec![0x09, 0x01, 0x03]);
    let msg = M3uaMessage::data(None, Some(1), pd.clone(), None);
    let encoded = msg.encode();
    let decoded = M3uaMessage::decode(&encoded).unwrap();

    assert_eq!(decoded.message_type, MessageType::Data);
    assert_eq!(decoded.routing_context(), Some(1));

    let decoded_pd = decoded.protocol_data().unwrap();
    assert_eq!(decoded_pd, pd);
}

#[test]
fn asp_lifecycle() {
    // Test the full ASP lifecycle message creation
    let aspup = M3uaMessage::asp_up(Some(42), None);
    assert_eq!(aspup.message_type, MessageType::AspUp);

    let aspup_ack = M3uaMessage::asp_up_ack(None);
    assert_eq!(aspup_ack.message_type, MessageType::AspUpAck);

    let aspac = M3uaMessage::asp_active(Some(1), Some(100));
    assert_eq!(aspac.message_type, MessageType::AspActive);

    let aspac_ack = M3uaMessage::asp_active_ack(Some(1), Some(100));
    assert_eq!(aspac_ack.message_type, MessageType::AspActiveAck);
}

#[test]
fn heartbeat_round_trip() {
    let msg = M3uaMessage::heartbeat(Some(vec![1, 2, 3, 4]));
    let encoded = msg.encode();
    let decoded = M3uaMessage::decode(&encoded).unwrap();
    assert_eq!(decoded.message_type, MessageType::Heartbeat);

    let hb_data = find_parameter(&decoded.parameters, tags::HEARTBEAT_DATA);
    assert_eq!(hb_data.unwrap().value, vec![1, 2, 3, 4]);
}

#[test]
fn duna_message() {
    let msg = M3uaMessage::duna(Some(1), vec![100, 200, 300]);
    let encoded = msg.encode();
    let decoded = M3uaMessage::decode(&encoded).unwrap();
    assert_eq!(decoded.message_type, MessageType::Duna);

    let apc = find_parameter(&decoded.parameters, tags::AFFECTED_POINT_CODE).unwrap();
    assert_eq!(apc.value.len(), 12); // 3 point codes × 4 bytes
}

#[test]
fn message_error_message() {
    let msg = M3uaMessage::error(0x01, Some(1), None);
    let encoded = msg.encode();
    let decoded = M3uaMessage::decode(&encoded).unwrap();
    assert_eq!(decoded.message_type, MessageType::Error);
}

#[test]
fn message_display() {
    let msg = M3uaMessage::asp_up(Some(1), None);
    let s = msg.to_string();
    assert!(s.contains("ASPUP"));
}
