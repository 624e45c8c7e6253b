use m3ua::message::{pack_affected_point_codes, unpack_affected_point_codes};
use m3ua::parameter::{decode_parameters, encode_parameters};
use m3ua::{
    tags, Asp, AspAction, AspState, CommonHeader, M3uaError, M3uaMessage, MessageClass, MessageType,
    Parameter, ProtocolData,
};

#[test]
fn header_decode_zeroes_reserved_octet_on_reencode() {
    let bytes = [1u8, 7, 3, 1, 0, 0, 0, 8];
    let h = CommonHeader::decode(&bytes).unwrap();
    assert_eq!(h.encode(), [1u8, 0, 3, 1, 0, 0, 0, 8]);
}

#[test]
fn header_round_trip_large_length() {
    let h = CommonHeader::new(MessageType::DeregRsp, 0xDEAD_BEEF);
    let enc = h.encode();
    assert_eq!(enc, [1, 0, 9, 4, 0xDE, 0xAD, 0xBE, 0xEF]);
    assert_eq!(CommonHeader::decode(&enc).unwrap(), h);
}

#[test]
fn header_error_variants() {
    assert_eq!(
        CommonHeader::decode(&[1, 0, 3]),
        Err(M3uaError::TooShort { expected: 8, actual: 3 })
    );
    assert_eq!(
        CommonHeader::decode(&[2, 0, 1, 1, 0, 0, 0, 8]),
        Err(M3uaError::InvalidVersion(2))
    );
    assert_eq!(
        CommonHeader::decode(&[1, 0, 3, 9, 0, 0, 0, 8]),
        Err(M3uaError::InvalidMessageType { class: 3, msg_type: 9 })
    );
    assert_eq!(MessageClass::from_u8(7), Err(M3uaError::InvalidMessageClass(7)));
}

#[test]
fn class_of_every_type_is_known() {
    for mt in [MessageType::Error, MessageType::Data, MessageType::Scon, MessageType::AspUp, MessageType::AspInactive, MessageType::RegReq] {
        assert!(MessageClass::from_u8(mt.class_and_type().0).is_ok());
    }
}

#[test]
fn display_texts_are_exact() {
    assert_eq!(MessageClass::Aspsm.to_string(), "ASPSM(3)");
    assert_eq!(MessageClass::Management.to_string(), "MGMT(0)");
    assert_eq!(
        CommonHeader::new(MessageType::Data, 100).to_string(),
        "M3UA Header [version=1, type=DATA, length=100]"
    );
    assert_eq!(
        Parameter::new(0x1234, vec![1, 2, 3]).to_string(),
        "Parameter [tag=0x1234 (Unknown), len=3]"
    );
    assert_eq!(
        Parameter::from_u32(tags::ROUTING_CONTEXT, 1).to_string(),
        "Parameter [tag=0x0006 (Routing Context), len=4]"
    );
    assert_eq!(
        Parameter::new(0xabcd, vec![]).to_string(),
        "Parameter [tag=0xabcd (Unknown), len=0]"
    );
    assert_eq!(
        ProtocolData::new(0, u32::MAX, 3, 2, 0, 5, vec![0; 20]).to_string(),
        "ProtocolData [opc=0, dpc=4294967295, si=3, ni=2, mp=0, sls=5, data_len=20]"
    );
    assert_eq!(M3uaMessage::asp_up(Some(1), None).to_string(), "M3UA ASPUP [1 parameters]");
}

#[test]
fn parameter_error_variants() {
    assert_eq!(
        Parameter::decode(&[0x00, 0x06]),
        Err(M3uaError::TooShort { expected: 4, actual: 2 })
    );
    assert_eq!(
        Parameter::decode(&[0x00, 0x06, 0x00, 0x02]),
        Err(M3uaError::InvalidParameter { tag: 6, length: 2 })
    );
    assert_eq!(
        Parameter::decode(&[0x00, 0x06, 0x00, 0x10]),
        Err(M3uaError::ParameterTooShort { tag: 6, expected: 16, actual: 4 })
    );
}

#[test]
fn parameter_consumed_stops_at_buffer_end() {
    // 3-octet value whose padding octet is missing from the buffer.
    let bytes = [0x12, 0x34, 0x00, 0x07, 1, 2, 3];
    let (p, n) = Parameter::decode(&bytes).unwrap();
    assert_eq!(p, Parameter::new(0x1234, vec![1, 2, 3]));
    assert_eq!(n, 7);
    // With the padding present the whole padded length is consumed.
    let (_, n) = Parameter::decode(&[0x12, 0x34, 0x00, 0x07, 1, 2, 3, 0, 9, 9]).unwrap();
    assert_eq!(n, 8);
}

#[test]
fn parameter_exact_wire_bytes() {
    let p = Parameter::new(0x0102, vec![0xAA, 0xBB, 0xCC, 0xDD, 0xEE]);
    assert_eq!(
        p.encode(),
        vec![0x01, 0x02, 0x00, 0x09, 0xAA, 0xBB, 0xCC, 0xDD, 0xEE, 0, 0, 0]
    );
    assert_eq!(p.wire_length(), 12);
    assert_eq!(Parameter::from_u32(7, 0x01020304).value, vec![1, 2, 3, 4]);
    assert_eq!(Parameter::new(7, vec![1, 2, 3, 4, 5]).as_u32(), Some(0x01020304));
}

#[test]
fn oversized_value_wraps_length_field() {
    // 65532 value octets make a length of 65536, which the 16-bit field holds as 0.
    let p = Parameter::new(0x0004, vec![0u8; 65532]);
    let enc = p.encode();
    assert_eq!(enc.len(), 65536);
    assert_eq!(&enc[0..4], &[0x00, 0x04, 0x00, 0x00]);
    assert_eq!(
        Parameter::decode(&enc),
        Err(M3uaError::InvalidParameter { tag: 4, length: 0 })
    );
}

#[test]
fn parameters_round_trip_with_stray_tail() {
    let params = vec![
        Parameter::new(1, vec![]),
        Parameter::new(2, vec![9]),
        Parameter::from_u32(3, 77),
    ];
    let mut bytes = encode_parameters(&params);
    assert_eq!(bytes.len(), 4 + 8 + 8);
    bytes.extend_from_slice(&[1, 2, 3]);
    assert_eq!(decode_parameters(&bytes).unwrap(), params);
    assert_eq!(decode_parameters(&[]).unwrap(), Vec::<Parameter>::new());
}

#[test]
fn decode_parameters_reports_inner_error() {
    let mut bytes = Parameter::from_u32(6, 1).encode();
    bytes.extend_from_slice(&[0x00, 0x07, 0x00, 0x01]);
    assert_eq!(
        decode_parameters(&bytes),
        Err(M3uaError::InvalidParameter { tag: 7, length: 1 })
    );
}

#[test]
fn protocol_data_exact_bytes_and_errors() {
    let pd = ProtocolData::new(0x01020304, 0x0A0B0C0D, 3, 2, 1, 5, vec![0xFF]);
    assert_eq!(
        pd.encode(),
        vec![1, 2, 3, 4, 0x0A, 0x0B, 0x0C, 0x0D, 3, 2, 1, 5, 0xFF]
    );
    assert_eq!(
        ProtocolData::decode(&[0; 11]),
        Err(M3uaError::TooShort { expected: 12, actual: 11 })
    );
}

#[test]
fn message_length_field_is_total_length() {
    let msg = M3uaMessage::asp_up(Some(1), Some("test"));
    let bytes = msg.encode();
    assert_eq!(bytes.len(), 24);
    assert_eq!(&bytes[4..8], &[0, 0, 0, 24]);
    assert_eq!(M3uaMessage::decode(&bytes).unwrap(), msg);
}

#[test]
fn message_round_trip_preserves_everything() {
    let pd = ProtocolData::new(7, 8, 9, 10, 11, 12, vec![1, 2, 3, 4, 5, 6, 7]);
    for msg in [
        M3uaMessage::data(Some(1), Some(2), pd.clone(), Some(3)),
        M3uaMessage::notify(5, None, Some(9)),
        M3uaMessage::error(4, None, Some(vec![1, 2, 3])),
        M3uaMessage::asp_down_ack(Some("bye")),
        M3uaMessage::heartbeat_ack(Some(vec![])),
    ] {
        assert_eq!(M3uaMessage::decode(&msg.encode()).unwrap(), msg);
    }
}

#[test]
fn message_decode_error_variants() {
    assert_eq!(
        M3uaMessage::decode(&[0x01, 0x00, 0x03]),
        Err(M3uaError::TooShort { expected: 8, actual: 3 })
    );
    assert_eq!(
        M3uaMessage::asp_up(None, None).protocol_data(),
        Err(M3uaError::MissingParameter(0x0210))
    );
    let bad = [1, 0, 3, 1, 0, 0, 0, 12, 0, 6, 0, 2];
    assert_eq!(
        M3uaMessage::decode(&bad),
        Err(M3uaError::InvalidParameter { tag: 6, length: 2 })
    );
}

#[test]
fn accessors_of_built_messages() {
    let pd = ProtocolData::new(1, 2, 3, 4, 5, 6, vec![]);
    let data = M3uaMessage::data(Some(11), None, pd.clone(), Some(12));
    assert_eq!(data.protocol_data().unwrap(), pd);
    assert_eq!(data.routing_context(), None);
    let dava = M3uaMessage::dava(None, vec![5, 6]);
    assert_eq!(dava.affected_point_codes(), vec![5, 6]);
    assert_eq!(dava.routing_context(), None);
    assert_eq!(M3uaMessage::asp_up(None, None).affected_point_codes(), Vec::<u32>::new());
    assert_eq!(M3uaMessage::duna(Some(3), vec![]).affected_point_codes(), Vec::<u32>::new());
}

#[test]
fn point_code_packing() {
    assert_eq!(
        pack_affected_point_codes(&[0x0102, 0x0A0B0C0D]),
        vec![0, 0, 1, 2, 0x0A, 0x0B, 0x0C, 0x0D]
    );
    assert_eq!(unpack_affected_point_codes(&[0, 0, 1, 2, 9, 9]), vec![0x0102]);
    assert_eq!(unpack_affected_point_codes(&[]), Vec::<u32>::new());
}

#[test]
fn asp_full_lifecycle() {
    let mut asp = Asp::new();
    // Heartbeat leaves Down unchanged.
    assert!(matches!(asp.handle(&M3uaMessage::heartbeat(Some(vec![1]))), AspAction::Reply(_)));
    assert_eq!(asp.state(), AspState::Down);
    asp.handle(&M3uaMessage::asp_up(Some(1), None));
    let data = M3uaMessage::data(None, None, ProtocolData::new(1, 2, 3, 0, 0, 0, vec![]), None);
    // Inactive: DATA is ignored.
    assert!(matches!(asp.handle(&data), AspAction::Ignore));
    match asp.handle(&M3uaMessage::asp_active(Some(2), Some(77))) {
        AspAction::Reply(m) => {
            assert_eq!(m.message_type, MessageType::AspActiveAck);
            assert_eq!(m.routing_context(), Some(77));
            assert_eq!(m.parameters.len(), 1);
        }
        _ => panic!("expected a reply"),
    }
    assert_eq!(asp.state(), AspState::Active);
    // An unrelated message is ignored and the state stays.
    assert!(matches!(asp.handle(&M3uaMessage::duna(None, vec![1])), AspAction::Ignore));
    assert_eq!(asp.state(), AspState::Active);
    match asp.handle(&M3uaMessage::asp_inactive(None)) {
        AspAction::Reply(m) => {
            assert_eq!(m.message_type, MessageType::AspInactiveAck);
            assert!(m.parameters.is_empty());
        }
        _ => panic!("expected a reply"),
    }
    assert_eq!(asp.state(), AspState::Inactive);
    assert!(matches!(asp.handle(&data), AspAction::Ignore));
}

#[test]
fn error_texts_are_exact() {
    assert_eq!(
        M3uaError::TooShort { expected: 8, actual: 3 }.to_string(),
        "message too short: expected at least 8 bytes, got 3"
    );
    assert_eq!(M3uaError::InvalidVersion(2).to_string(), "invalid version: expected 1, got 2");
    assert_eq!(M3uaError::InvalidMessageClass(7).to_string(), "invalid message class: 7");
    assert_eq!(
        M3uaError::InvalidMessageType { class: 3, msg_type: 9 }.to_string(),
        "invalid message type: class=3, type=9"
    );
    assert_eq!(
        M3uaError::InvalidParameter { tag: 6, length: 2 }.to_string(),
        "invalid parameter: tag=0x0006, length=2"
    );
    assert_eq!(
        M3uaError::ParameterTooShort { tag: 0x20a, expected: 16, actual: 4 }.to_string(),
        "parameter too short: tag=0x020a, expected at least 16 bytes, got 4"
    );
    assert_eq!(
        M3uaError::MissingParameter(0x0210).to_string(),
        "missing required parameter: tag=0x0210"
    );
}

#[test]
fn message_class_octets() {
    for (c, raw) in [
        (MessageClass::Management, 0u8),
        (MessageClass::Transfer, 1),
        (MessageClass::Ssnm, 2),
        (MessageClass::Aspsm, 3),
        (MessageClass::Asptm, 4),
        (MessageClass::Rkm, 9),
    ] {
        assert_eq!(c.as_u8(), raw);
        assert_eq!(MessageClass::from_u8(c.as_u8()).unwrap(), c);
    }
}

#[test]
fn asp_ignores_active_and_inactive_before_asp_up() {
    let mut asp = Asp::new();
    assert!(matches!(asp.handle(&M3uaMessage::asp_active(None, Some(1))), AspAction::Ignore));
    assert_eq!(asp.state(), AspState::Down);
    assert!(matches!(asp.handle(&M3uaMessage::asp_inactive(Some(1))), AspAction::Ignore));
    assert_eq!(asp.state(), AspState::Down);
    let data = M3uaMessage::data(None, None, ProtocolData::new(1, 2, 3, 0, 0, 0, vec![]), None);
    assert!(matches!(asp.handle(&data), AspAction::Ignore));
    // After ASP-DOWN the ASP is Down again, and ASP-ACTIVE is ignored once more.
    asp.handle(&M3uaMessage::asp_up(None, None));
    asp.handle(&M3uaMessage::asp_down(None));
    assert!(matches!(asp.handle(&M3uaMessage::asp_active(None, None)), AspAction::Ignore));
    assert_eq!(asp.state(), AspState::Down);
}

#[test]
fn heartbeat_ack_echoes_heartbeat_data() {
    let mut asp = Asp::new();
    match asp.handle(&M3uaMessage::heartbeat(Some(vec![0xDE, 0xAD, 0xBE, 0xEF, 0x01]))) {
        AspAction::Reply(m) => {
            assert_eq!(m, M3uaMessage::heartbeat_ack(Some(vec![0xDE, 0xAD, 0xBE, 0xEF, 0x01])));
        }
        _ => panic!("expected a reply"),
    }
    match asp.handle(&M3uaMessage::heartbeat(None)) {
        AspAction::Reply(m) => {
            assert_eq!(m.message_type, MessageType::HeartbeatAck);
            assert!(m.parameters.is_empty());
        }
        _ => panic!("expected a reply"),
    }
    assert_eq!(asp.state(), AspState::Down);
}
