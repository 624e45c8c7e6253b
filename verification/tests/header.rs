use m3ua::{CommonHeader, MessageClass, MessageType};

#[test]
fn header_round_trip() {
    let hdr = CommonHeader::new(MessageType::Data, 100);
    let encoded = hdr.encode();
    let decoded = CommonHeader::decode(&encoded).unwrap();
    assert_eq!(decoded, hdr);
}

#[test]
fn header_aspup() {
    let hdr = CommonHeader::new(MessageType::AspUp, 8);
    let encoded = hdr.encode();
    assert_eq!(encoded[0], 1); // version
    assert_eq!(encoded[1], 0); // reserved
    assert_eq!(encoded[2], 3); // class ASPSM
    assert_eq!(encoded[3], 1); // type ASPUP
}

#[test]
fn invalid_version() {
    let bytes = [2, 0, 1, 1, 0, 0, 0, 8];
    assert!(CommonHeader::decode(&bytes).is_err());
}

#[test]
fn invalid_class() {
    let bytes = [1, 0, 99, 1, 0, 0, 0, 8];
    assert!(CommonHeader::decode(&bytes).is_err());
}

#[test]
fn message_type_display() {
    assert_eq!(MessageType::Data.to_string(), "DATA");
    assert_eq!(MessageType::AspUp.to_string(), "ASPUP");
    assert_eq!(MessageType::AspActiveAck.to_string(), "ASPAC_ACK");
}

#[test]
fn message_class_round_trips() {
    for (raw, class) in [
        (0u8, MessageClass::Management),
        (1, MessageClass::Transfer),
        (2, MessageClass::Ssnm),
        (3, MessageClass::Aspsm),
        (4, MessageClass::Asptm),
        (9, MessageClass::Rkm),
    ] {
        assert_eq!(MessageClass::from_u8(raw).unwrap(), class);
    }
    assert!(MessageClass::from_u8(7).is_err());
}

#[test]
fn message_type_class_type_round_trips() {
    // Every variant maps to a (class, type) that maps back to itself.
    for mt in [
        MessageType::Error,
        MessageType::Notify,
        MessageType::Data,
        MessageType::Duna,
        MessageType::Dava,
        MessageType::Daud,
        MessageType::Scon,
        MessageType::Dupu,
        MessageType::Drst,
        MessageType::AspUp,
        MessageType::AspDown,
        MessageType::Heartbeat,
        MessageType::AspUpAck,
        MessageType::AspDownAck,
        MessageType::HeartbeatAck,
        MessageType::AspActive,
        MessageType::AspInactive,
        MessageType::AspActiveAck,
        MessageType::AspInactiveAck,
        MessageType::RegReq,
        MessageType::RegRsp,
        MessageType::DeregReq,
        MessageType::DeregRsp,
    ] {
        let (class, ty) = mt.class_and_type();
        assert_eq!(MessageType::from_class_type(class, ty).unwrap(), mt);
    }
    assert!(MessageType::from_class_type(3, 9).is_err());
}

#[test]
fn header_display() {
    let hdr = CommonHeader::new(MessageType::Data, 100);
    let s = hdr.to_string();
    assert!(s.contains("DATA"));
    assert!(s.contains("length=100"));
}

#[test]
fn decode_too_short() {
    assert!(CommonHeader::decode(&[1, 0, 3]).is_err());
}
