use mcp_daemon::schema::{Base64Bytes, ProtocolVersion};

#[test]
fn test_base64_bytes() {
    let bytes = Base64Bytes(vec![1, 2, 3, 4, 5]);
    let text = bytes.to_base64();
    assert_eq!(text, "AQIDBAU=");
    let bytes = Base64Bytes::from_base64(&text).unwrap();
    assert_eq!(bytes.0, vec![1, 2, 3, 4, 5]);
}

#[test]
fn test_base64_bytes_serialization() {
    let bytes = Base64Bytes(vec![1, 2, 3, 4, 5]);
    assert_eq!(bytes.to_base64(), "AQIDBAU=");
}

#[test]
fn test_base64_bytes_deserialization() {
    let bytes = Base64Bytes::from_base64("AQIDBAU=").unwrap();
    assert_eq!(bytes.0, vec![1, 2, 3, 4, 5]);
}

#[test]
fn test_base64_bytes_default() {
    let bytes = Base64Bytes::default();
    assert_eq!(bytes.0, Vec::<u8>::new());
}

#[test]
fn test_base64_bytes_invalid_input() {
    let result = Base64Bytes::from_base64("invalid-base64");
    assert!(result.is_none());
}

#[test]
fn test_protocol_version() {
    assert_eq!(ProtocolVersion::latest().to_text(), "2025-03-26");
    assert_eq!(ProtocolVersion::v_2025_03_26().to_text(), "2025-03-26");
    assert_eq!(ProtocolVersion::latest().as_str(), "2025-03-26");
}

#[test]
fn empty_bytes_have_empty_text() {
    assert_eq!(Base64Bytes(Vec::new()).to_base64(), "");
    assert_eq!(Base64Bytes::from_base64("").unwrap().0, Vec::<u8>::new());
}
