use jupyter_client::errors::Error;
use jupyter_client::responses::{
    ExecutionState, IsCompleteStatus, Response, ShellResponse, IoPubResponse, Status, StreamType,
};
use jupyter_client::signer::Signer;
use jupyter_client::wire::WireEnvelope;

fn auth() -> Signer {
    let key = b"foobar0000000000000000000000000000000000000000000000000000000000".to_vec();
    Signer::new(key, "hmac-sha256").expect("creating auth object")
}

fn raw_response(header: &str, parent: &str, metadata: &str, content: &str) -> Vec<Vec<u8>> {
    let frames = vec![
        header.as_bytes().to_vec(),
        parent.as_bytes().to_vec(),
        metadata.as_bytes().to_vec(),
        content.as_bytes().to_vec(),
    ];
    let signature = auth().compute(&frames);
    let mut raw = vec!["<IDS|MSG>".as_bytes().to_vec(), signature.into_bytes()];
    raw.extend(frames);
    raw
}

#[test]
fn responses_test_kernel_info_message_parsing() {
    let raw = raw_response(
        r#"{
            "date": "",
            "msg_id": "",
            "username": "",
            "session": "",
            "msg_type": "kernel_info_reply",
            "version": ""
        }"#,
        r#"{
            "date": "",
            "msg_id": "",
            "username": "",
            "session": "",
            "msg_type": "kernel_info_request",
            "version": ""
        }"#,
        r#"{}"#,
        r#"{
            "banner": "banner",
            "implementation": "implementation",
            "implementation_version": "implementation_version",
            "protocol_version": "protocol_version",
            "status": "ok",
            "help_links": [{"text": "text", "url": "url"}]
        }"#,
    );
    let msg = WireEnvelope::from_raw_response(&raw, &auth()).unwrap();
    let response = msg.into_response().unwrap();
    match response {
        Response::Shell(ShellResponse::KernelInfo {
            header,
            parent_header: _parent_header,
            metadata: _metadata,
            content,
        }) => {
            assert_eq!(header.msg_type, "kernel_info_reply");
            assert_eq!(content.banner, "banner");
            assert_eq!(content.implementation, "implementation");
            assert_eq!(content.implementation_version, "implementation_version");
            assert_eq!(content.protocol_version, "protocol_version");
            assert_eq!(content.status, Status::Okay);
            assert_eq!(content.help_links.len(), 1);
            assert_eq!(content.help_links[0].text, "text");
            assert_eq!(content.help_links[0].url, "url");
        }
        _ => unreachable!("Incorrect response type, should be KernelInfo"),
    }
}

#[test]
fn responses_test_execute_request_message_parsing() {
    let raw = raw_response(
        r#"{
            "date": "",
            "msg_id": "",
            "username": "",
            "session": "",
            "msg_type": "execute_reply",
            "version": ""
        }"#,
        r#"{
            "date": "",
            "msg_id": "",
            "username": "",
            "session": "",
            "msg_type": "execute_request",
            "version": ""
        }"#,
        r#"{}"#,
        r#"{
            "status": "ok",
            "execution_count": 4
        }"#,
    );
    let msg = WireEnvelope::from_raw_response(&raw, &auth()).unwrap();
    let response = msg.into_response().unwrap();
    match response {
        Response::Shell(ShellResponse::Execute {
            header,
            parent_header: _parent_header,
            metadata: _metadata,
            content,
        }) => {
            assert_eq!(header.msg_type, "execute_reply");
            assert_eq!(content.status, Status::Okay);
            assert_eq!(content.execution_count, 4);
        }
        _ => unreachable!("Incorrect response type, should be KernelInfo"),
    }
}

#[test]
fn responses_test_status_message_parsing() {
    let raw = raw_response(
        r#"{
            "date": "",
            "msg_id": "",
            "username": "",
            "session": "",
            "msg_type": "status",
            "version": ""
        }"#,
        r#"{
            "date": "",
            "msg_id": "",
            "username": "",
            "session": "",
            "msg_type": "execute_request",
            "version": ""
        }"#,
        r#"{}"#,
        r#"{
            "status": "ok",
            "execution_state": "busy"
        }"#,
    );
    let msg = WireEnvelope::from_raw_response(&raw, &auth()).unwrap();
    let response = msg.into_response().unwrap();
    match response {
        Response::IoPub(IoPubResponse::Status {
            header,
            parent_header: _parent_header,
            metadata: _metadata,
            content,
        }) => {
            assert_eq!(header.msg_type, "status");
            assert_eq!(content.execution_state, ExecutionState::Busy);
        }
        _ => unreachable!("Incorrect response type, should be Status"),
    }
}

#[test]
fn responses_test_execute_input_parsing() {
    let raw = raw_response(
        r#"{
            "date": "",
            "msg_id": "",
            "username": "",
            "session": "",
            "msg_type": "execute_input",
            "version": ""
        }"#,
        r#"{
            "date": "",
            "msg_id": "",
            "username": "",
            "session": "",
            "msg_type": "",
            "version": ""
        }"#,
        r#"{}"#,
        r#"{
            "status": "ok",
            "code": "a = 10",
            "execution_count": 4
        }"#,
    );
    let msg = WireEnvelope::from_raw_response(&raw, &auth()).unwrap();
    let response = msg.into_response().unwrap();
    match response {
        Response::IoPub(IoPubResponse::ExecuteInput {
            header,
            parent_header: _parent_header,
            metadata: _metadata,
            content,
        }) => {
            assert_eq!(header.msg_type, "execute_input");
            assert_eq!(content.code, "a = 10");
            assert_eq!(content.execution_count, 4);
        }
        _ => unreachable!("Incorrect response type, should be Status"),
    }
}

#[test]
fn responses_test_stream_parsing() {
    let raw = raw_response(
        r#"{
            "date": "",
            "msg_id": "",
            "username": "",
            "session": "",
            "msg_type": "stream",
            "version": ""
        }"#,
        r#"{
            "date": "",
            "msg_id": "",
            "username": "",
            "session": "",
            "msg_type": "",
            "version": ""
        }"#,
        r#"{}"#,
        r#"{
            "status": "ok",
            "name": "stdout",
            "text": "10"
        }"#,
    );
    let msg = WireEnvelope::from_raw_response(&raw, &auth()).unwrap();
    let response = msg.into_response().unwrap();
    match response {
        Response::IoPub(IoPubResponse::Stream {
            header,
            parent_header: _parent_header,
            metadata: _metadata,
            content,
        }) => {
            assert_eq!(header.msg_type, "stream");
            assert_eq!(content.name, StreamType::Stdout);
            assert_eq!(content.text, "10");
        }
        _ => unreachable!("Incorrect response type, should be Stream"),
    }
}

#[test]
fn responses_test_is_complete_message_parsing() {
    let raw = raw_response(
        r#"{
            "date": "",
            "msg_id": "",
            "username": "",
            "session": "",
            "msg_type": "is_complete_reply",
            "version": ""
        }"#,
        r#"{
            "date": "",
            "msg_id": "",
            "username": "",
            "session": "",
            "msg_type": "is_complete_request",
            "version": ""
        }"#,
        r#"{}"#,
        r#"{
            "status": "complete"
        }"#,
    );
    let msg = WireEnvelope::from_raw_response(&raw, &auth()).unwrap();
    let response = msg.into_response().unwrap();
    match response {
        Response::Shell(ShellResponse::IsComplete {
            header,
            parent_header: _parent_header,
            metadata: _metadata,
            content,
        }) => {
            assert_eq!(header.msg_type, "is_complete_reply");
            assert_eq!(content, IsCompleteStatus::Complete);
        }
        _ => unreachable!("Incorrect response type, should be IsComplete"),
    }
}

#[test]
fn responses_test_is_complete_message_parsing_with_incomplete_reply() {
    let raw = raw_response(
        r#"{
            "date": "",
            "msg_id": "",
            "username": "",
            "session": "",
            "msg_type": "is_complete_reply",
            "version": ""
        }"#,
        r#"{
            "date": "",
            "msg_id": "",
            "username": "",
            "session": "",
            "msg_type": "is_complete_request",
            "version": ""
        }"#,
        r#"{}"#,
        r#"{
            "status": "incomplete",
            "indent": "  "
        }"#,
    );
    let msg = WireEnvelope::from_raw_response(&raw, &auth()).unwrap();
    let response = msg.into_response().unwrap();
    match response {
        Response::Shell(ShellResponse::IsComplete {
            header,
            parent_header: _parent_header,
            metadata: _metadata,
            content,
        }) => {
            assert_eq!(header.msg_type, "is_complete_reply");
            assert_eq!(content, IsCompleteStatus::Incomplete("  ".to_string()));
        }
        _ => unreachable!("Incorrect response type, should be IsComplete"),
    }
}

#[test]
fn test_shutdown_message_parsing() {
    let raw = raw_response(
        r#"{
            "date": "",
            "msg_id": "",
            "username": "",
            "session": "",
            "msg_type": "shutdown_reply",
            "version": ""
        }"#,
        r#"{
            "date": "",
            "msg_id": "",
            "username": "",
            "session": "",
            "msg_type": "kernel_info_request",
            "version": ""
        }"#,
        r#"{}"#,
        r#"{
            "status": "ok",
            "restart": false
        }"#,
    );
    let msg = WireEnvelope::from_raw_response(&raw, &auth()).unwrap();
    let response = msg.into_response().unwrap();
    match response {
        Response::Shell(ShellResponse::Shutdown {
            header,
            parent_header: _parent_header,
            metadata: _metadata,
            content,
        }) => {
            assert_eq!(header.msg_type, "shutdown_reply");
            assert_eq!(content.restart, false);
        }
        _ => unreachable!("Incorrect response type, should be KernelInfo"),
    }
}

#[test]
fn test_comm_info_message_parsing() {
    let raw = raw_response(
        r#"{
            "date": "",
            "msg_id": "",
            "username": "",
            "session": "",
            "msg_type": "comm_info_reply",
            "version": ""
        }"#,
        r#"{
            "date": "",
            "msg_id": "",
            "username": "",
            "session": "",
            "msg_type": "comm_info_request",
            "version": ""
        }"#,
        r#"{}"#,
        r#"{
            "status": "ok",
            "comms": {
                "u-u-i-d": {
                    "target_name": "foobar"
                }
            }
        }"#,
    );
    let msg = WireEnvelope::from_raw_response(&raw, &auth()).unwrap();
    let response = msg.into_response().unwrap();
    match response {
        Response::Shell(ShellResponse::CommInfo {
            header,
            parent_header: _parent_header,
            metadata: _metadata,
            content,
        }) => {
            assert_eq!(header.msg_type, "comm_info_reply");
            assert_eq!(content.comms.len(), 1);
            assert_eq!(content.comms[0].0, "u-u-i-d");
            assert_eq!(content.comms[0].1.len(), 1);
            assert_eq!(content.comms[0].1[0].0, "target_name");
            assert_eq!(content.comms[0].1[0].1, "foobar");
        }
        _ => unreachable!("Incorrect response type, should be CommInfo"),
    }
}

#[test]
fn test_execute_result_message_parsing() {
    let raw = raw_response(
        r#"{
            "date": "",
            "msg_id": "",
            "username": "",
            "session": "",
            "msg_type": "execute_result",
            "version": ""
        }"#,
        r#"{
            "date": "",
            "msg_id": "",
            "username": "",
            "session": "",
            "msg_type": "execute_request",
            "version": ""
        }"#,
        r#"{}"#,
        r#"{
            "data": {
                "text/plain": "10"
            },
            "metadata": {},
            "execution_count": 46
        }"#,
    );
    let msg = WireEnvelope::from_raw_response(&raw, &auth()).unwrap();
    let response = msg.into_response().unwrap();
    match response {
        Response::IoPub(IoPubResponse::ExecuteResult {
            header,
            parent_header: _parent_header,
            metadata: _metadata,
            content,
        }) => {
            assert_eq!(header.msg_type, "execute_result");
            assert_eq!(content.data.len(), 1);
            assert_eq!(content.data[0].0, "text/plain");
            assert_eq!(content.data[0].1, "10");
            assert!(content.metadata.is_empty_object());
            assert_eq!(content.execution_count, 46);
        }
        _ => unreachable!("Incorrect response type, should be ExecuteResult"),
    }
}

#[test]
fn test_clear_output_message_parsing() {
    let raw = raw_response(
        r#"{
            "date": "",
            "msg_id": "",
            "username": "",
            "session": "",
            "msg_type": "clear_output",
            "version": ""
        }"#,
        r#"{
            "date": "",
            "msg_id": "",
            "username": "",
            "session": "",
            "msg_type": "execute_request",
            "version": ""
        }"#,
        r#"{}"#,
        r#"{
            "wait": false
        }"#,
    );
    let msg = WireEnvelope::from_raw_response(&raw, &auth()).unwrap();
    let response = msg.into_response().unwrap();
    match response {
        Response::IoPub(IoPubResponse::ClearOutput {
            header,
            parent_header: _parent_header,
            metadata: _metadata,
            content,
        }) => {
            assert_eq!(header.msg_type, "clear_output");
            assert_eq!(content.wait, false);
        }
        _ => unreachable!("Incorrect response type, should be ClearOutput"),
    }
}

#[test]
fn execute_reply_with_error_carries_the_error_fields() {
    let raw = raw_response(
        r#"{
            "date": "",
            "msg_id": "",
            "username": "",
            "session": "",
            "msg_type": "execute_reply",
            "version": ""
        }"#,
        r#"{
            "date": "",
            "msg_id": "",
            "username": "",
            "session": "",
            "msg_type": "execute_request",
            "version": ""
        }"#,
        r#"{}"#,
        r#"{
            "status": "error",
            "execution_count": 3,
            "ename": "NameError",
            "evalue": "x",
            "traceback": ["long traceback line"]
        }"#,
    );
    let msg = WireEnvelope::from_raw_response(&raw, &auth()).unwrap();
    match msg.into_response().unwrap() {
        Response::Shell(ShellResponse::Execute { content, .. }) => {
            assert_eq!(content.status, Status::Error);
            assert_eq!(content.execution_count, 3);
            assert_eq!(content.ename, Some("NameError".to_string()));
            assert_eq!(content.evalue, Some("x".to_string()));
            assert_eq!(content.traceback, Some(vec!["long traceback line".to_string()]));
            assert!(content.payload.is_none());
            assert!(content.user_expressions.is_none());
        }
        _ => unreachable!("should be Execute"),
    }
}

#[test]
fn incomplete_reply_without_indent_is_a_schema_error() {
    let raw = raw_response(
        r#"{
            "date": "",
            "msg_id": "",
            "username": "",
            "session": "",
            "msg_type": "is_complete_reply",
            "version": ""
        }"#,
        r#"{
            "date": "",
            "msg_id": "",
            "username": "",
            "session": "",
            "msg_type": "is_complete_request",
            "version": ""
        }"#,
        r#"{}"#,
        r#"{
            "status": "incomplete"
        }"#,
    );
    let msg = WireEnvelope::from_raw_response(&raw, &auth()).unwrap();
    assert!(matches!(msg.into_response(), Err(Error::SchemaError)));
}

#[test]
fn unrecognised_status_value_is_a_schema_error() {
    let raw = raw_response(
        r#"{
            "date": "",
            "msg_id": "",
            "username": "",
            "session": "",
            "msg_type": "shutdown_reply",
            "version": ""
        }"#,
        r#"{
            "date": "",
            "msg_id": "",
            "username": "",
            "session": "",
            "msg_type": "shutdown_request",
            "version": ""
        }"#,
        r#"{}"#,
        r#"{
            "status": "partial",
            "restart": false
        }"#,
    );
    let msg = WireEnvelope::from_raw_response(&raw, &auth()).unwrap();
    assert!(matches!(msg.into_response(), Err(Error::SchemaError)));
}

#[test]
fn display_data_keeps_raw_representations() {
    let raw = raw_response(
        r#"{
            "date": "",
            "msg_id": "",
            "username": "",
            "session": "",
            "msg_type": "display_data",
            "version": ""
        }"#,
        r#"{
            "date": "",
            "msg_id": "",
            "username": "",
            "session": "",
            "msg_type": "execute_request",
            "version": ""
        }"#,
        r#"{}"#,
        r#"{
            "data": {"text/plain": "hello"},
            "metadata": {}
        }"#,
    );
    let msg = WireEnvelope::from_raw_response(&raw, &auth()).unwrap();
    match msg.into_response().unwrap() {
        Response::IoPub(IoPubResponse::DisplayData { content, .. }) => {
            assert_eq!(content.data.len(), 1);
            assert_eq!(content.data[0].0, "text/plain");
            assert!(content.transient.is_none());
        }
        _ => unreachable!("should be DisplayData"),
    }
}

#[test]
fn extreme_execution_count_decodes_exactly() {
    let raw = raw_response(
        r#"{
            "date": "",
            "msg_id": "",
            "username": "",
            "session": "",
            "msg_type": "execute_reply",
            "version": ""
        }"#,
        r#"{
            "date": "",
            "msg_id": "",
            "username": "",
            "session": "",
            "msg_type": "execute_request",
            "version": ""
        }"#,
        r#"{}"#,
        r#"{"status": "ok", "execution_count": -9223372036854775808}"#,
    );
    let msg = WireEnvelope::from_raw_response(&raw, &auth()).unwrap();
    match msg.into_response().unwrap() {
        Response::Shell(ShellResponse::Execute { content, .. }) => {
            assert_eq!(content.execution_count, i64::MIN);
        }
        _ => unreachable!("should be Execute"),
    }
}
