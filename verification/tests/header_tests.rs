use jupyter_client::header::Header;

#[test]
fn test_msg_type() {
    let header = Header::new("test");
    assert_eq!(header.msg_type, "test");
}

#[test]
fn test_uuid() {
    // Ensure the msg_id is a proper uuid
    let header = Header::new("test");
    assert_eq!(header.msg_id.len(), 36);
    assert!(header.msg_id.contains("-"));
}

#[test]
fn header_date_is_stamped() {
    let header = Header::new("test");
    assert!(!header.date.is_empty());
    assert!(header.date.contains("T"));
}

#[test]
fn header_round_trips_through_its_bytes() {
    let header = Header::with_session("kernel_info_request", "sess-1");
    let bytes = header.to_bytes();
    let parsed: serde_json::Value = serde_json::from_slice(&bytes).unwrap();
    assert_eq!(parsed["date"], serde_json::Value::String(header.date.clone()));
    assert_eq!(parsed["msg_id"], serde_json::Value::String(header.msg_id.clone()));
    assert_eq!(parsed["username"], serde_json::Value::String("kernel".to_string()));
    assert_eq!(parsed["session"], serde_json::Value::String("sess-1".to_string()));
    assert_eq!(parsed["msg_type"], serde_json::Value::String("kernel_info_request".to_string()));
    assert_eq!(parsed["version"], serde_json::Value::String("5.0".to_string()));
}

#[test]
fn header_escapes_quotes_and_controls() {
    let mut header = Header::new("test");
    header.session = "a\"b\\c\nd".to_string();
    let bytes = header.to_bytes();
    let parsed: serde_json::Value = serde_json::from_slice(&bytes).unwrap();
    assert_eq!(parsed["session"], serde_json::Value::String("a\"b\\c\nd".to_string()));
}
