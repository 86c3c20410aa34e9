//! A verified client-side implementation of the Jupyter wire protocol: the
//! signed multi-frame envelope format, the encoding of typed commands into
//! request messages, and the decoding of kernel replies into typed responses.
//!
//! The modules closest to the wire are `signer` (HMAC-SHA-256 authentication
//! tags over frame sequences) and `wire` (the `<IDS|MSG>` delimited envelope).
//! `commands` builds outbound request frames, `responses` dispatches inbound
//! replies on the header's message type, and `session` keeps the shell
//! channel's request/reply state machine.

pub mod bytestr;
pub mod json;
pub mod signer;
pub mod header;
pub mod wire;
pub mod commands;
pub mod responses;
pub mod connection;
pub mod session;
pub mod decimal;
pub mod errors;
