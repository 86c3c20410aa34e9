use jupyter_client::commands::Command;
use jupyter_client::errors::Error;
use jupyter_client::responses::{Response, ShellResponse};
use jupyter_client::session::{Session, ShellState};

fn reply_frames(session: &Session, header: &str, content: &str) -> Vec<Vec<u8>> {
    let frames = vec![
        header.as_bytes().to_vec(),
        br#"{"date":"","msg_id":"","username":"","session":"","msg_type":"","version":""}"#
            .to_vec(),
        b"{}".to_vec(),
        content.as_bytes().to_vec(),
    ];
    let signature = session.signer().compute(&frames);
    let mut raw = vec!["<IDS|MSG>".as_bytes().to_vec(), signature.into_bytes()];
    raw.extend(frames);
    raw
}

fn kernel_info_reply_header() -> &'static str {
    r#"{"date":"","msg_id":"","username":"","session":"","msg_type":"kernel_info_reply","version":""}"#
}

#[test]
fn session_starts_ready_and_exchanges_one_reply_per_request() {
    let mut session = Session::new(b"foobar".to_vec(), "hmac-sha256").unwrap();
    assert_eq!(session.state(), ShellState::Ready);

    let (header, packets) = session.encode_command(&Command::KernelInfo).unwrap();
    assert_eq!(session.state(), ShellState::AwaitingReply);
    assert_eq!(header.session, session.session_id());
    assert_eq!(packets[0], "<IDS|MSG>".as_bytes().to_vec());

    // A second send while a reply is outstanding fails at once.
    assert!(matches!(
        session.encode_command(&Command::KernelInfo),
        Err(Error::TransportBroken)
    ));

    let raw = reply_frames(
        &session,
        kernel_info_reply_header(),
        r#"{"banner":"b","implementation":"i","implementation_version":"1",
           "protocol_version":"5.3","status":"ok","help_links":[]}"#,
    );
    match session.accept_reply(&raw).unwrap() {
        Response::Shell(ShellResponse::KernelInfo { content, .. }) => {
            assert_eq!(content.banner, "b");
        }
        _ => unreachable!("should be KernelInfo"),
    }
    assert_eq!(session.state(), ShellState::Ready);
}

#[test]
fn commands_of_one_session_share_its_identifier_with_fresh_msg_ids() {
    let mut session = Session::new(b"foobar".to_vec(), "hmac-sha256").unwrap();
    let (first, _) = session.encode_command(&Command::KernelInfo).unwrap();
    let raw = reply_frames(
        &session,
        kernel_info_reply_header(),
        r#"{"banner":"b","implementation":"i","implementation_version":"1",
           "protocol_version":"5.3","status":"ok","help_links":[]}"#,
    );
    session.accept_reply(&raw).unwrap();
    let (second, _) = session.encode_command(&Command::KernelInfo).unwrap();

    assert_eq!(first.session, second.session);
    assert_eq!(first.session, session.session_id());
    assert_ne!(first.msg_id, second.msg_id);
    assert_eq!(first.msg_id.len(), 36);
}

#[test]
fn tampered_reply_poisons_the_channel() {
    let mut session = Session::new(b"foobar".to_vec(), "hmac-sha256").unwrap();
    session.encode_command(&Command::KernelInfo).unwrap();

    let mut raw = reply_frames(
        &session,
        kernel_info_reply_header(),
        r#"{"banner":"b","implementation":"i","implementation_version":"1",
           "protocol_version":"5.3","status":"ok","help_links":[]}"#,
    );
    // Flip one bit of the content frame.
    let last = raw.len() - 1;
    raw[last][0] ^= 0x01;

    assert!(matches!(
        session.accept_reply(&raw),
        Err(Error::SignatureMismatch)
    ));
    assert_eq!(session.state(), ShellState::Poisoned);

    // Every later exchange fails immediately.
    assert!(matches!(
        session.encode_command(&Command::KernelInfo),
        Err(Error::TransportBroken)
    ));
}

#[test]
fn schema_error_completes_the_exchange_without_poisoning() {
    let mut session = Session::new(b"foobar".to_vec(), "hmac-sha256").unwrap();
    session.encode_command(&Command::KernelInfo).unwrap();
    let raw = reply_frames(
        &session,
        kernel_info_reply_header(),
        r#"{"banner":"b"}"#,
    );
    assert!(matches!(session.accept_reply(&raw), Err(Error::SchemaError)));
    assert_eq!(session.state(), ShellState::Ready);
}

#[test]
fn reply_without_request_is_refused() {
    let mut session = Session::new(b"foobar".to_vec(), "hmac-sha256").unwrap();
    let raw = reply_frames(
        &session,
        kernel_info_reply_header(),
        r#"{"banner":"b","implementation":"i","implementation_version":"1",
           "protocol_version":"5.3","status":"ok","help_links":[]}"#,
    );
    assert!(matches!(
        session.accept_reply(&raw),
        Err(Error::TransportBroken)
    ));
    assert_eq!(session.state(), ShellState::Ready);
}

#[test]
fn iopub_messages_decode_without_touching_the_shell_state() {
    let mut session = Session::new(b"foobar".to_vec(), "hmac-sha256").unwrap();
    session.encode_command(&Command::KernelInfo).unwrap();
    let raw = reply_frames(
        &session,
        r#"{"date":"","msg_id":"","username":"","session":"","msg_type":"status","version":""}"#,
        r#"{"execution_state":"idle"}"#,
    );
    let decoded = session.decode_iopub(&raw).unwrap();
    assert!(matches!(decoded, Response::IoPub(_)));
    assert_eq!(session.state(), ShellState::AwaitingReply);
}
