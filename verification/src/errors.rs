//! The error taxonomy of the client.

use vstd::prelude::*;

verus! {

/// Everything that can go wrong between a caller and a kernel.
///
/// - `ConfigError`: the connection description is malformed, names an
///   unsupported transport, or names an unsupported signature scheme.
/// - `TransportError`: a socket operation failed.
/// - `TransportBroken`: the shell channel was poisoned by an earlier
///   envelope failure and refuses further exchanges.
/// - `MalformedEnvelope`: the delimiter frame is missing, too few frames
///   follow it, or a frame does not hold the JSON document it should.
/// - `SignatureMismatch`: the signature frame does not match the
///   authentication tag computed over the four logical frames.
/// - `SchemaError`: a frame holds well-formed JSON that does not match the
///   schema required by the message type.
/// - `Cancelled`: the client or consumer was dropped during a blocking
///   operation.
#[derive(Clone, Copy, Debug, PartialEq, Eq)]
pub enum Error {
    ConfigError,
    TransportError,
    TransportBroken,
    MalformedEnvelope,
    SignatureMismatch,
    SchemaError,
    Cancelled,
}

impl Error {
    /// A short human-readable name for the error, for callers that log.
    pub fn describe(&self) -> (r: &'static str)
        ensures
            r@ == self.spec_describe(),
    {
        match self {
            Error::ConfigError => "connection description is invalid",
            Error::TransportError => "socket operation failed",
            Error::TransportBroken => "shell channel is poisoned",
            Error::MalformedEnvelope => "envelope is malformed",
            Error::SignatureMismatch => "signature does not match",
            Error::SchemaError => "content does not match the schema",
            Error::Cancelled => "operation was cancelled",
        }
    }

    pub open spec fn spec_describe(self) -> Seq<char> {
        match self {
            Error::ConfigError => "connection description is invalid"@,
            Error::TransportError => "socket operation failed"@,
            Error::TransportBroken => "shell channel is poisoned"@,
            Error::MalformedEnvelope => "envelope is malformed"@,
            Error::SignatureMismatch => "signature does not match"@,
            Error::SchemaError => "content does not match the schema"@,
            Error::Cancelled => "operation was cancelled"@,
        }
    }
}

} // verus!
