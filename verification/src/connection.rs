//! The connection description: the JSON document the Jupyter runtime
//! writes to advertise a running kernel's transport parameters.

use vstd::prelude::*;

verus! {

use crate::errors::Error;
use crate::json::json_parse;
use crate::json::jv_get_str;
use crate::json::jv_get_u64;
use crate::json::get_str_field;
use crate::json::get_u64_field;
use crate::json::parse_json;
use crate::json::JsonView;
use crate::json::JsonValue;

/// A kernel's transport parameters. Only the `tcp` transport and the
/// `hmac-sha256` signature scheme are supported; every port is a valid,
/// non-zero TCP port. The key is kept as the byte string of the document's
/// `key` field, without normalization.
pub struct ConnectionDescription {
    pub transport: String,
    pub ip: String,
    pub shell_port: u16,
    pub iopub_port: u16,
    pub hb_port: u16,
    pub stdin_port: u16,
    pub control_port: u16,
    pub key: String,
    pub signature_scheme: String,
    pub kernel_name: String,
}

pub struct ConnectionDescriptionView {
    pub transport: Seq<char>,
    pub ip: Seq<char>,
    pub shell_port: u16,
    pub iopub_port: u16,
    pub hb_port: u16,
    pub stdin_port: u16,
    pub control_port: u16,
    pub key: Seq<char>,
    pub signature_scheme: Seq<char>,
    pub kernel_name: Seq<char>,
}

impl View for ConnectionDescription {
    type V = ConnectionDescriptionView;

    open spec fn view(&self) -> ConnectionDescriptionView {
        ConnectionDescriptionView {
            transport: self.transport@,
            ip: self.ip@,
            shell_port: self.shell_port,
            iopub_port: self.iopub_port,
            hb_port: self.hb_port,
            stdin_port: self.stdin_port,
            control_port: self.control_port,
            key: self.key@,
            signature_scheme: self.signature_scheme@,
            kernel_name: self.kernel_name@,
        }
    }
}

/// A port field must be a number in `1..=65535`.
pub open spec fn spec_port_field(j: JsonView, key: Seq<char>) -> Option<u16> {
    match jv_get_u64(j, key) {
        Some(p) => if 1 <= p <= 65535 {
            Some(p as u16)
        } else {
            None
        },
        None => None,
    }
}

fn port_field(j: &JsonValue, key: &str) -> (r: Option<u16>)
    ensures
        r == spec_port_field(j@, key@),
{
    match get_u64_field(j, key) {
        Some(p) => if 1 <= p && p <= 65535 {
            Some(p as u16)
        } else {
            None
        },
        None => None,
    }
}

/// What a connection description document must hold. A missing or
/// mistyped field, a transport other than `tcp`, or a signature scheme
/// other than `hmac-sha256` is a configuration error; unknown fields are
/// ignored.
pub open spec fn spec_connection_from_json(j: JsonView) -> Result<
    ConnectionDescriptionView,
    Error,
> {
    match (
        jv_get_str(j, "transport"@),
        jv_get_str(j, "ip"@),
        spec_port_field(j, "shell_port"@),
        spec_port_field(j, "iopub_port"@),
        spec_port_field(j, "hb_port"@),
        spec_port_field(j, "stdin_port"@),
        spec_port_field(j, "control_port"@),
        jv_get_str(j, "key"@),
        jv_get_str(j, "signature_scheme"@),
        jv_get_str(j, "kernel_name"@),
    ) {
        (
            Some(transport),
            Some(ip),
            Some(shell_port),
            Some(iopub_port),
            Some(hb_port),
            Some(stdin_port),
            Some(control_port),
            Some(key),
            Some(signature_scheme),
            Some(kernel_name),
        ) => {
            if transport != "tcp"@ {
                Err(Error::ConfigError)
            } else if signature_scheme != "hmac-sha256"@ {
                Err(Error::ConfigError)
            } else {
                Ok(
                    ConnectionDescriptionView {
                        transport,
                        ip,
                        shell_port,
                        iopub_port,
                        hb_port,
                        stdin_port,
                        control_port,
                        key,
                        signature_scheme,
                        kernel_name,
                    },
                )
            }
        },
        _ => Err(Error::ConfigError),
    }
}

/// What parsing a connection description from bytes yields: the bytes
/// must be a JSON document of the required shape.
pub open spec fn spec_connection_from_slice(bytes: Seq<u8>) -> Result<
    ConnectionDescriptionView,
    Error,
> {
    match json_parse(bytes) {
        None => Err(Error::ConfigError),
        Some(j) => spec_connection_from_json(j),
    }
}

impl ConnectionDescription {
    /// Parses a connection description document.
    pub fn from_slice(bytes: &[u8]) -> (r: Result<ConnectionDescription, Error>)
        ensures
            match r {
                Ok(c) => spec_connection_from_slice(bytes@) == Ok::<
                    ConnectionDescriptionView,
                    Error,
                >(c@),
                Err(e) => spec_connection_from_slice(bytes@) == Err::<
                    ConnectionDescriptionView,
                    Error,
                >(e),
            },
    {
        let j = match parse_json(bytes) {
            Some(v) => v,
            None => {
                return Err(Error::ConfigError);
            },
        };
        let transport = match get_str_field(&j, "transport") {
            Some(s) => s.clone(),
            None => {
                return Err(Error::ConfigError);
            },
        };
        let ip = match get_str_field(&j, "ip") {
            Some(s) => s.clone(),
            None => {
                return Err(Error::ConfigError);
            },
        };
        let shell_port = match port_field(&j, "shell_port") {
            Some(p) => p,
            None => {
                return Err(Error::ConfigError);
            },
        };
        let iopub_port = match port_field(&j, "iopub_port") {
            Some(p) => p,
            None => {
                return Err(Error::ConfigError);
            },
        };
        let hb_port = match port_field(&j, "hb_port") {
            Some(p) => p,
            None => {
                return Err(Error::ConfigError);
            },
        };
        let stdin_port = match port_field(&j, "stdin_port") {
            Some(p) => p,
            None => {
                return Err(Error::ConfigError);
            },
        };
        let control_port = match port_field(&j, "control_port") {
            Some(p) => p,
            None => {
                return Err(Error::ConfigError);
            },
        };
        let key = match get_str_field(&j, "key") {
            Some(s) => s.clone(),
            None => {
                return Err(Error::ConfigError);
            },
        };
        let signature_scheme = match get_str_field(&j, "signature_scheme") {
            Some(s) => s.clone(),
            None => {
                return Err(Error::ConfigError);
            },
        };
        let kernel_name = match get_str_field(&j, "kernel_name") {
            Some(s) => s.clone(),
            None => {
                return Err(Error::ConfigError);
            },
        };
        if !crate::bytestr::str_eq(transport.as_str(), "tcp") {
            return Err(Error::ConfigError);
        }
        if !crate::bytestr::str_eq(signature_scheme.as_str(), "hmac-sha256") {
            return Err(Error::ConfigError);
        }
        Ok(
            ConnectionDescription {
                transport,
                ip,
                shell_port,
                iopub_port,
                hb_port,
                stdin_port,
                control_port,
                key,
                signature_scheme,
                kernel_name,
            },
        )
    }
}

} // verus!
