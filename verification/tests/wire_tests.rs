use jupyter_client::commands::Command;
use jupyter_client::errors::Error;
use jupyter_client::responses::{
    ExecutionState, IsCompleteStatus, Response, ShellResponse, IoPubResponse, Status, StreamType,
};
use jupyter_client::signer::Signer;
use jupyter_client::wire::WireEnvelope;

fn auth() -> Signer {
    let key = b"foobar0000000000000000000000000000000000000000000000000000000000".to_vec();
    Signer::new(key, "hmac-sha256").expect("creating auth object")
}

fn raw_response(header: &str, parent: &str, metadata: &str, content: &str) -> Vec<Vec<u8>> {
    let frames = vec![
        header.as_bytes().to_vec(),
        parent.as_bytes().to_vec(),
        metadata.as_bytes().to_vec(),
        content.as_bytes().to_vec(),
    ];
    let signature = auth().compute(&frames);
    let mut raw = vec!["<IDS|MSG>".as_bytes().to_vec(), signature.into_bytes()];
    raw.extend(frames);
    raw
}

fn empty_object() -> serde_json::Value {
    serde_json::Value::Object(serde_json::Map::new())
}

#[test]
fn test_kernel_info_into_packets() {
    let cmd = Command::KernelInfo;
    let (_header, wire) = cmd.into_wire("");
    let packets = wire.into_packets(&auth());

    assert_eq!(packets.len(), 6);
    assert_eq!(packets[0], "<IDS|MSG>".as_bytes().to_vec());

    let signed = vec![
        packets[2].clone(),
        packets[3].clone(),
        packets[4].clone(),
        packets[5].clone(),
    ];
    let expected_signature = auth().compute(&signed);
    assert_eq!(packets[1], expected_signature.into_bytes());

    let header_str = std::str::from_utf8(&packets[2]).unwrap();
    let header: serde_json::Value = serde_json::from_str(header_str).unwrap();
    assert_eq!(
        header["msg_type"],
        serde_json::Value::String("kernel_info_request".to_string())
    );

    // The rest of the packet should be empty maps
    let parent_header: serde_json::Value = serde_json::from_slice(&packets[3]).unwrap();
    assert_eq!(parent_header, empty_object());

    let metadata: serde_json::Value = serde_json::from_slice(&packets[4]).unwrap();
    assert_eq!(metadata, empty_object());

    let content: serde_json::Value = serde_json::from_slice(&packets[5]).unwrap();
    assert_eq!(content, empty_object());
}

#[test]
fn test_execute_request_into_packets() {
    let cmd = Command::Execute {
        code: "a = 10".to_string(),
        silent: false,
        store_history: true,
        user_expressions: Vec::new(),
        allow_stdin: true,
        stop_on_error: false,
    };
    let (_header, wire) = cmd.into_wire("");
    let packets = wire.into_packets(&auth());

    assert_eq!(packets[0], "<IDS|MSG>".as_bytes().to_vec());

    let signed = vec![
        packets[2].clone(),
        packets[3].clone(),
        packets[4].clone(),
        packets[5].clone(),
    ];
    let expected_signature = auth().compute(&signed);
    assert_eq!(packets[1], expected_signature.into_bytes());

    let header: serde_json::Value = serde_json::from_slice(&packets[2]).unwrap();
    assert_eq!(
        header["msg_type"],
        serde_json::Value::String("execute_request".to_string())
    );

    let parent_header: serde_json::Value = serde_json::from_slice(&packets[3]).unwrap();
    assert_eq!(parent_header, empty_object());

    let metadata: serde_json::Value = serde_json::from_slice(&packets[4]).unwrap();
    assert_eq!(metadata, empty_object());

    let content: serde_json::Value = serde_json::from_slice(&packets[5]).unwrap();
    let expected: serde_json::Value = serde_json::from_str(
        r#"{
            "code": "a = 10",
            "silent": false,
            "store_history": true,
            "user_expressions": {},
            "allow_stdin": true,
            "stop_on_error": false
        }"#,
    )
    .unwrap();
    assert_eq!(content, expected);
}

#[test]
fn test_is_complete_into_packets() {
    let cmd = Command::IsComplete {
        code: "a = 10".to_string(),
    };
    let (_header, wire) = cmd.into_wire("");
    let packets = wire.into_packets(&auth());

    assert_eq!(packets[0], "<IDS|MSG>".as_bytes().to_vec());

    let signed = vec![
        packets[2].clone(),
        packets[3].clone(),
        packets[4].clone(),
        packets[5].clone(),
    ];
    let expected_signature = auth().compute(&signed);
    assert_eq!(packets[1], expected_signature.into_bytes());

    let header: serde_json::Value = serde_json::from_slice(&packets[2]).unwrap();
    assert_eq!(
        header["msg_type"],
        serde_json::Value::String("is_complete_request".to_string())
    );

    let parent_header: serde_json::Value = serde_json::from_slice(&packets[3]).unwrap();
    assert_eq!(parent_header, empty_object());

    let metadata: serde_json::Value = serde_json::from_slice(&packets[4]).unwrap();
    assert_eq!(metadata, empty_object());

    let content: serde_json::Value = serde_json::from_slice(&packets[5]).unwrap();
    let expected: serde_json::Value = serde_json::from_str(r#"{"code": "a = 10"}"#).unwrap();
    assert_eq!(content, expected);
}

#[test]
fn wire_test_kernel_info_message_parsing() {
    let raw = raw_response(
        r#"{
            "date": "",
            "msg_id": "",
            "username": "",
            "session": "",
            "msg_type": "kernel_info_reply",
            "version": ""
        }"#,
        r#"{
            "date": "",
            "msg_id": "",
            "username": "",
            "session": "",
            "msg_type": "kernel_info_request",
            "version": ""
        }"#,
        r#"{}"#,
        r#"{
            "banner": "banner",
            "implementation": "implementation",
            "implementation_version": "implementation_version",
            "protocol_version": "protocol_version",
            "status": "ok",
            "help_links": [{"text": "text", "url": "url"}]
        }"#,
    );
    let msg = WireEnvelope::from_raw_response(&raw, &auth()).unwrap();
    let response = msg.into_response().unwrap();
    match response {
        Response::Shell(ShellResponse::KernelInfo {
            header,
            parent_header: _parent_header,
            metadata: _metadata,
            content,
        }) => {
            assert_eq!(header.msg_type, "kernel_info_reply");
            assert_eq!(content.banner, "banner");
            assert_eq!(content.implementation, "implementation");
            assert_eq!(content.implementation_version, "implementation_version");
            assert_eq!(content.protocol_version, "protocol_version");
            assert_eq!(content.status, Status::Okay);
            assert_eq!(content.help_links.len(), 1);
            assert_eq!(content.help_links[0].text, "text");
            assert_eq!(content.help_links[0].url, "url");
        }
        _ => unreachable!("Incorrect response type, should be KernelInfo"),
    }
}

#[test]
fn wire_test_execute_request_message_parsing() {
    let raw = raw_response(
        r#"{
            "date": "",
            "msg_id": "",
            "username": "",
            "session": "",
            "msg_type": "execute_reply",
            "version": ""
        }"#,
        r#"{
            "date": "",
            "msg_id": "",
            "username": "",
            "session": "",
            "msg_type": "execute_request",
            "version": ""
        }"#,
        r#"{}"#,
        r#"{
            "status": "ok",
            "execution_count": 4
        }"#,
    );
    let msg = WireEnvelope::from_raw_response(&raw, &auth()).unwrap();
    let response = msg.into_response().unwrap();
    match response {
        Response::Shell(ShellResponse::Execute {
            header,
            parent_header: _parent_header,
            metadata: _metadata,
            content,
        }) => {
            assert_eq!(header.msg_type, "execute_reply");
            assert_eq!(content.status, Status::Okay);
            assert_eq!(content.execution_count, 4);
        }
        _ => unreachable!("Incorrect response type, should be KernelInfo"),
    }
}

#[test]
fn wire_test_status_message_parsing() {
    let raw = raw_response(
        r#"{
            "date": "",
            "msg_id": "",
            "username": "",
            "session": "",
            "msg_type": "status",
            "version": ""
        }"#,
        r#"{
            "date": "",
            "msg_id": "",
            "username": "",
            "session": "",
            "msg_type": "execute_request",
            "version": ""
        }"#,
        r#"{}"#,
        r#"{
            "execution_state": "busy"
        }"#,
    );
    let msg = WireEnvelope::from_raw_response(&raw, &auth()).unwrap();
    let response = msg.into_response().unwrap();
    match response {
        Response::IoPub(IoPubResponse::Status {
            header,
            parent_header: _parent_header,
            metadata: _metadata,
            content,
        }) => {
            assert_eq!(header.msg_type, "status");
            assert_eq!(content.execution_state, ExecutionState::Busy);
        }
        _ => unreachable!("Incorrect response type, should be Status"),
    }
}

#[test]
fn wire_test_execute_input_parsing() {
    let raw = raw_response(
        r#"{
            "date": "",
            "msg_id": "",
            "username": "",
            "session": "",
            "msg_type": "execute_input",
            "version": ""
        }"#,
        r#"{
            "date": "",
            "msg_id": "",
            "username": "",
            "session": "",
            "msg_type": "",
            "version": ""
        }"#,
        r#"{}"#,
        r#"{
            "code": "a = 10",
            "execution_count": 4
        }"#,
    );
    let msg = WireEnvelope::from_raw_response(&raw, &auth()).unwrap();
    let response = msg.into_response().unwrap();
    match response {
        Response::IoPub(IoPubResponse::ExecuteInput {
            header,
            parent_header: _parent_header,
            metadata: _metadata,
            content,
        }) => {
            assert_eq!(header.msg_type, "execute_input");
            assert_eq!(content.code, "a = 10");
            assert_eq!(content.execution_count, 4);
        }
        _ => unreachable!("Incorrect response type, should be Status"),
    }
}

#[test]
fn wire_test_stream_parsing() {
    let raw = raw_response(
        r#"{
            "date": "",
            "msg_id": "",
            "username": "",
            "session": "",
            "msg_type": "stream",
            "version": ""
        }"#,
        r#"{
            "date": "",
            "msg_id": "",
            "username": "",
            "session": "",
            "msg_type": "",
            "version": ""
        }"#,
        r#"{}"#,
        r#"{
            "name": "stdout",
            "text": "10"
        }"#,
    );
    let msg = WireEnvelope::from_raw_response(&raw, &auth()).unwrap();
    let response = msg.into_response().unwrap();
    match response {
        Response::IoPub(IoPubResponse::Stream {
            header,
            parent_header: _parent_header,
            metadata: _metadata,
            content,
        }) => {
            assert_eq!(header.msg_type, "stream");
            assert_eq!(content.name, StreamType::Stdout);
            assert_eq!(content.text, "10");
        }
        _ => unreachable!("Incorrect response type, should be Stream"),
    }
}

#[test]
fn wire_test_is_complete_message_parsing() {
    let raw = raw_response(
        r#"{
            "date": "",
            "msg_id": "",
            "username": "",
            "session": "",
            "msg_type": "is_complete_reply",
            "version": ""
        }"#,
        r#"{
            "date": "",
            "msg_id": "",
            "username": "",
            "session": "",
            "msg_type": "is_complete_request",
            "version": ""
        }"#,
        r#"{}"#,
        r#"{
            "status": "complete"
        }"#,
    );
    let msg = WireEnvelope::from_raw_response(&raw, &auth()).unwrap();
    let response = msg.into_response().unwrap();
    match response {
        Response::Shell(ShellResponse::IsComplete {
            header,
            parent_header: _parent_header,
            metadata: _metadata,
            content,
        }) => {
            assert_eq!(header.msg_type, "is_complete_reply");
            assert_eq!(content, IsCompleteStatus::Complete);
        }
        _ => unreachable!("Incorrect response type, should be IsComplete"),
    }
}

#[test]
fn wire_test_is_complete_message_parsing_with_incomplete_reply() {
    let raw = raw_response(
        r#"{
            "date": "",
            "msg_id": "",
            "username": "",
            "session": "",
            "msg_type": "is_complete_reply",
            "version": ""
        }"#,
        r#"{
            "date": "",
            "msg_id": "",
            "username": "",
            "session": "",
            "msg_type": "is_complete_request",
            "version": ""
        }"#,
        r#"{}"#,
        r#"{
            "status": "incomplete",
            "indent": "  "
        }"#,
    );
    let msg = WireEnvelope::from_raw_response(&raw, &auth()).unwrap();
    let response = msg.into_response().unwrap();
    match response {
        Response::Shell(ShellResponse::IsComplete {
            header,
            parent_header: _parent_header,
            metadata: _metadata,
            content,
        }) => {
            assert_eq!(header.msg_type, "is_complete_reply");
            assert_eq!(content, IsCompleteStatus::Incomplete("  ".to_string()));
        }
        _ => unreachable!("Incorrect response type, should be IsComplete"),
    }
}

#[test]
fn round_trip_preserves_the_four_frames() {
    let (header, wire) = Command::KernelInfo.into_wire("sess");
    let original_header = wire.header.clone();
    let packets = wire.into_packets(&auth());
    let decoded = WireEnvelope::from_raw_response(&packets, &auth()).unwrap();
    assert_eq!(decoded.header, original_header);
    assert_eq!(decoded.parent_header, b"{}".to_vec());
    assert_eq!(decoded.metadata, b"{}".to_vec());
    assert_eq!(decoded.content, b"{}".to_vec());
    let hv: serde_json::Value = serde_json::from_slice(&decoded.header).unwrap();
    assert_eq!(hv["msg_id"], serde_json::Value::String(header.msg_id.clone()));
}

#[test]
fn identity_frames_are_retained_before_the_delimiter() {
    let (_header, wire) = Command::KernelInfo.into_wire("sess");
    let mut packets = wire.into_packets(&auth());
    let mut raw = vec![b"router-a".to_vec(), b"router-b".to_vec()];
    raw.append(&mut packets);
    let decoded = WireEnvelope::decode_frames(&raw, &auth()).unwrap();
    assert_eq!(
        decoded.identities,
        vec![b"router-a".to_vec(), b"router-b".to_vec()]
    );
    let hv: serde_json::Value = serde_json::from_slice(&decoded.envelope.header).unwrap();
    assert_eq!(
        hv["msg_type"],
        serde_json::Value::String("kernel_info_request".to_string())
    );
}

#[test]
fn delimiter_bytes_inside_a_frame_do_not_mislead_the_scan() {
    let frames = vec![
        br#"{"date":"","msg_id":"","username":"","session":"","msg_type":"stream","version":""}"#
            .to_vec(),
        br#"{"date":"","msg_id":"","username":"","session":"","msg_type":"","version":""}"#
            .to_vec(),
        b"{}".to_vec(),
        br#"{"name":"stdout","text":"look: <IDS|MSG> inside"}"#.to_vec(),
    ];
    let signature = auth().compute(&frames);
    let mut raw = vec!["<IDS|MSG>".as_bytes().to_vec(), signature.into_bytes()];
    raw.extend(frames);
    let msg = WireEnvelope::from_raw_response(&raw, &auth()).unwrap();
    match msg.into_response().unwrap() {
        Response::IoPub(IoPubResponse::Stream { content, .. }) => {
            assert_eq!(content.text, "look: <IDS|MSG> inside");
        }
        _ => unreachable!("should be Stream"),
    }
}

#[test]
fn tampered_content_fails_with_signature_mismatch() {
    let (_header, wire) = Command::KernelInfo.into_wire("sess");
    let mut packets = wire.into_packets(&auth());
    // Flip one bit of the content frame.
    let last = packets.len() - 1;
    packets[last][0] ^= 0x01;
    let r = WireEnvelope::from_raw_response(&packets, &auth());
    assert!(matches!(r, Err(Error::SignatureMismatch)));
}

#[test]
fn missing_delimiter_is_a_malformed_envelope() {
    let raw = vec![b"{}".to_vec(), b"{}".to_vec()];
    let r = WireEnvelope::from_raw_response(&raw, &auth());
    assert!(matches!(r, Err(Error::MalformedEnvelope)));
}

#[test]
fn short_frame_sequence_is_a_malformed_envelope() {
    let raw = vec![
        "<IDS|MSG>".as_bytes().to_vec(),
        b"".to_vec(),
        b"{}".to_vec(),
        b"{}".to_vec(),
    ];
    let r = WireEnvelope::from_raw_response(&raw, &auth());
    assert!(matches!(r, Err(Error::MalformedEnvelope)));
}

#[test]
fn empty_key_envelope_has_empty_signature_and_decodes() {
    let signer = Signer::new(Vec::new(), "hmac-sha256").unwrap();
    let (_header, wire) = Command::KernelInfo.into_wire("sess");
    let packets = wire.into_packets(&signer);
    assert_eq!(packets[1], Vec::<u8>::new());
    let decoded = WireEnvelope::from_raw_response(&packets, &signer).unwrap();
    assert_eq!(decoded.content, b"{}".to_vec());
}

#[test]
fn two_commands_share_the_session_but_not_the_msg_id() {
    let (first, _) = Command::KernelInfo.into_wire("sess-42");
    let (second, _) = Command::KernelInfo.into_wire("sess-42");
    assert_eq!(first.session, "sess-42");
    assert_eq!(second.session, "sess-42");
    assert_ne!(first.msg_id, second.msg_id);
}

#[test]
fn header_must_be_valid_json() {
    let frames = vec![
        b"not json".to_vec(),
        b"{}".to_vec(),
        b"{}".to_vec(),
        b"{}".to_vec(),
    ];
    let signature = auth().compute(&frames);
    let mut raw = vec!["<IDS|MSG>".as_bytes().to_vec(), signature.into_bytes()];
    raw.extend(frames);
    let msg = WireEnvelope::from_raw_response(&raw, &auth()).unwrap();
    assert!(matches!(msg.into_response(), Err(Error::MalformedEnvelope)));
}

#[test]
fn unknown_message_type_is_surfaced_not_fatal() {
    let raw = raw_response(
        r#"{
            "date": "",
            "msg_id": "",
            "username": "",
            "session": "",
            "msg_type": "comm_open",
            "version": ""
        }"#,
        r#"{
            "date": "",
            "msg_id": "",
            "username": "",
            "session": "",
            "msg_type": "",
            "version": ""
        }"#,
        r#"{}"#,
        r#"{"target_name": "x"}"#,
    );
    let msg = WireEnvelope::from_raw_response(&raw, &auth()).unwrap();
    match msg.into_response().unwrap() {
        Response::Unknown { msg_type, content } => {
            assert_eq!(msg_type, "comm_open");
            assert!(content.get("target_name").is_some());
        }
        _ => unreachable!("should be Unknown"),
    }
}
