use jupyter_client::connection::ConnectionDescription;
use jupyter_client::errors::Error;

fn example() -> String {
    r#"{"transport":"tcp","ip":"127.0.0.1","shell_port":54321,"iopub_port":54322,
        "hb_port":54323,"stdin_port":54324,"control_port":54325,
        "key":"00000000-0000-0000-0000-000000000000","signature_scheme":"hmac-sha256",
        "kernel_name":"python3"}"#
        .to_string()
}

#[test]
fn description_round_trips_the_example() {
    let desc = ConnectionDescription::from_slice(example().as_bytes()).unwrap();
    assert_eq!(desc.transport, "tcp");
    assert_eq!(desc.ip, "127.0.0.1");
    assert_eq!(desc.shell_port, 54321);
    assert_eq!(desc.iopub_port, 54322);
    assert_eq!(desc.hb_port, 54323);
    assert_eq!(desc.stdin_port, 54324);
    assert_eq!(desc.control_port, 54325);
    assert_eq!(desc.key, "00000000-0000-0000-0000-000000000000");
    assert_eq!(desc.signature_scheme, "hmac-sha256");
    assert_eq!(desc.kernel_name, "python3");
}

#[test]
fn unknown_fields_are_ignored() {
    let text = example().replace("\"transport\"", "\"extra_field\":42,\"transport\"");
    let desc = ConnectionDescription::from_slice(text.as_bytes()).unwrap();
    assert_eq!(desc.kernel_name, "python3");
}

#[test]
fn unsupported_transport_is_a_config_error() {
    let text = example().replace("\"tcp\"", "\"ipc\"");
    let r = ConnectionDescription::from_slice(text.as_bytes());
    assert!(matches!(r, Err(Error::ConfigError)));
}

#[test]
fn unsupported_signature_scheme_is_a_config_error() {
    let text = example().replace("hmac-sha256", "hmac-md5");
    let r = ConnectionDescription::from_slice(text.as_bytes());
    assert!(matches!(r, Err(Error::ConfigError)));
}

#[test]
fn out_of_range_port_is_a_config_error() {
    let text = example().replace("54321", "70000");
    let r = ConnectionDescription::from_slice(text.as_bytes());
    assert!(matches!(r, Err(Error::ConfigError)));
}

#[test]
fn missing_field_is_a_config_error() {
    let text = example().replace("\"ip\":\"127.0.0.1\",", "");
    let r = ConnectionDescription::from_slice(text.as_bytes());
    assert!(matches!(r, Err(Error::ConfigError)));
}

#[test]
fn malformed_document_is_a_config_error() {
    let r = ConnectionDescription::from_slice(b"not json at all");
    assert!(matches!(r, Err(Error::ConfigError)));
}

#[test]
fn empty_key_is_accepted() {
    let text = example().replace("00000000-0000-0000-0000-000000000000", "");
    let desc = ConnectionDescription::from_slice(text.as_bytes()).unwrap();
    assert_eq!(desc.key, "");
}
