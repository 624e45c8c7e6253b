use m3ua::ProtocolData;

#[test]
fn round_trip() {
    let pd = ProtocolData::new(100, 200, 3, 2, 0, 5, vec![0x09, 0x01, 0x03]);
    let encoded = pd.encode();
    let decoded = ProtocolData::decode(&encoded).unwrap();
    assert_eq!(decoded, pd);
}

#[test]
fn decode_header_only() {
    let pd = ProtocolData::new(1, 2, 3, 0, 0, 0, vec![]);
    let encoded = pd.encode();
    let decoded = ProtocolData::decode(&encoded).unwrap();
    assert_eq!(decoded.opc, 1);
    assert_eq!(decoded.dpc, 2);
    assert_eq!(decoded.si, 3);
    assert!(decoded.user_data.is_empty());
}

#[test]
fn too_short() {
    assert!(ProtocolData::decode(&[0; 11]).is_err());
}

#[test]
fn protocol_data_display() {
    let pd = ProtocolData::new(100, 200, 3, 2, 0, 5, vec![0; 20]);
    let s = pd.to_string();
    assert!(s.contains("opc=100"));
    assert!(s.contains("dpc=200"));
    assert!(s.contains("data_len=20"));
}
