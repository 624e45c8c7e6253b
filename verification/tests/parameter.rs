use m3ua::parameter::{decode_parameters, encode_parameters, find_parameter};
use m3ua::{tags, Parameter};

#[test]
fn parameter_round_trip() {
    let param = Parameter::new(tags::ROUTING_CONTEXT, vec![0, 0, 0, 1]);
    let encoded = param.encode();
    let (decoded, consumed) = Parameter::decode(&encoded).unwrap();
    assert_eq!(decoded, param);
    assert_eq!(consumed, 8); // 4 header + 4 value, no padding needed
}

#[test]
fn parameter_padding() {
    // Value with 3 bytes needs 1 byte padding
    let param = Parameter::new(0x1234, vec![1, 2, 3]);
    let encoded = param.encode();
    assert_eq!(encoded.len(), 8); // 4 header + 3 value + 1 padding
    assert_eq!(encoded[7], 0); // padding byte
}

#[test]
fn parameter_from_u32() {
    let param = Parameter::from_u32(tags::ROUTING_CONTEXT, 42);
    assert_eq!(param.as_u32(), Some(42));
}

#[test]
fn multiple_parameters() {
    let params = vec![
        Parameter::from_u32(tags::ROUTING_CONTEXT, 1),
        Parameter::new(tags::INFO_STRING, b"hello".to_vec()),
    ];
    let encoded = encode_parameters(&params);
    let decoded = decode_parameters(&encoded).unwrap();
    assert_eq!(decoded.len(), 2);
    assert_eq!(decoded[0].tag, tags::ROUTING_CONTEXT);
    assert_eq!(decoded[1].tag, tags::INFO_STRING);
    assert_eq!(decoded[1].value, b"hello");
}

#[test]
fn find_parameter_works() {
    let params = vec![
        Parameter::from_u32(tags::ROUTING_CONTEXT, 1),
        Parameter::from_u32(tags::TRAFFIC_MODE_TYPE, 2),
    ];
    let found = find_parameter(&params, tags::TRAFFIC_MODE_TYPE);
    assert!(found.is_some());
    assert_eq!(found.unwrap().as_u32(), Some(2));

    assert!(find_parameter(&params, tags::ERROR_CODE).is_none());
}

#[test]
fn parameter_display() {
    let param = Parameter::from_u32(tags::ROUTING_CONTEXT, 1);
    let s = param.to_string();
    assert!(s.contains("Routing Context"));
}

#[test]
fn as_u32_none_when_too_short() {
    // A 3-byte value cannot yield a u32.
    let param = Parameter::new(tags::ROUTING_CONTEXT, vec![1, 2, 3]);
    assert_eq!(param.as_u32(), None);
}

#[test]
fn decode_rejects_short_and_bad_length() {
    // Fewer than 4 bytes: no room for a tag+length header.
    assert!(Parameter::decode(&[0x00, 0x06]).is_err());
    // Declared length < 4 is illegal.
    assert!(Parameter::decode(&[0x00, 0x06, 0x00, 0x02]).is_err());
    // Declared length overruns the buffer.
    assert!(Parameter::decode(&[0x00, 0x06, 0x00, 0x10]).is_err());
}

#[test]
fn decode_parameters_ignores_trailing_stray_bytes() {
    // One well-formed 8-byte parameter, then 2 stray bytes (< a header).
    let mut bytes = Parameter::from_u32(tags::ROUTING_CONTEXT, 1).encode();
    bytes.extend_from_slice(&[0xAA, 0xBB]);
    let params = decode_parameters(&bytes).unwrap();
    assert_eq!(params.len(), 1);
    assert_eq!(params[0].as_u32(), Some(1));
}
