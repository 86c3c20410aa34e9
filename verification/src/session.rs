//! The shell channel's request/reply state machine.
//!
//! A session owns the connection's signer and the session identifier that
//! ties all of one client's requests together. The shell socket exchanges
//! strictly one reply per request: a send is permitted only in the ready
//! state, a reply is expected only while one is awaited, and an envelope
//! failure on a reply poisons the channel, after which every exchange
//! fails at once. The socket I/O itself lives outside the library; the
//! session decides, frame for frame, what is sent and what a received
//! frame sequence means.

use vstd::prelude::*;

verus! {

use crate::commands::spec_content_bytes;
use crate::commands::spec_msg_type;
use crate::commands::Command;
use crate::connection::ConnectionDescription;
use crate::errors::Error;
use crate::header::fresh_header_shape;
use crate::header::header_bytes;
use crate::header::Header;
use crate::responses::spec_into_response;
use crate::responses::Response;
use crate::responses::ResponseView;
use crate::signer::Signer;
use crate::wire::spec_decode;
use crate::wire::spec_packets;
use crate::wire::EnvelopeView;
use crate::wire::WireEnvelope;
use vstd::utf8::encode_utf8;

/// The shell channel's state.
#[derive(Debug, Clone, Copy, PartialEq, Eq, Structural)]
pub enum ShellState {
    /// No exchange in flight: a command may be sent.
    Ready,
    /// A request is out; the next frames received are its reply.
    AwaitingReply,
    /// An envelope failure broke the request/reply pairing; every further
    /// exchange fails with `TransportBroken`.
    Poisoned,
}

/// A client session: signer, session identifier, and shell channel state.
pub struct Session {
    signer: Signer,
    session_id: String,
    state: ShellState,
}

pub struct SessionView {
    pub key: Seq<u8>,
    pub session_id: Seq<char>,
    pub state: ShellState,
}

impl View for Session {
    type V = SessionView;

    closed spec fn view(&self) -> SessionView {
        SessionView { key: self.signer@, session_id: self.session_id@, state: self.state }
    }
}

/// The four logical frames of an outbound request: a fresh header, empty
/// parent header and metadata documents, and the command's content.
pub open spec fn request_envelope(h: crate::header::HeaderView, c: crate::commands::CommandView) -> EnvelopeView {
    EnvelopeView {
        header: header_bytes(h),
        parent_header: encode_utf8("{}"@),
        metadata: encode_utf8("{}"@),
        content: spec_content_bytes(c),
    }
}

/// Whether an error poisons the shell channel: the failures that break
/// the request/reply pairing do, a reply that merely violates a content
/// schema does not.
pub open spec fn poisons(e: Error) -> bool {
    e == Error::MalformedEnvelope || e == Error::SignatureMismatch
}

impl Session {
    /// A session for a parsed connection description, whose signature
    /// scheme has already been checked. The key is the byte string of the
    /// description's `key` field; the session identifier is a fresh UUID.
    pub fn from_connection(desc: &ConnectionDescription) -> (r: Result<Session, Error>)
        ensures
            desc@.signature_scheme == "hmac-sha256"@ ==> (r matches Ok(s) && s@.key == encode_utf8(
                desc@.key,
            ) && s@.state == ShellState::Ready),
            desc@.signature_scheme != "hmac-sha256"@ ==> r == Err::<Session, Error>(
                Error::ConfigError,
            ),
    {
        let key = crate::bytestr::str_to_bytes(desc.key.as_str());
        Session::new(key, desc.signature_scheme.as_str())
    }

    /// A session for the given key and signature scheme. Only
    /// `hmac-sha256` is supported.
    pub fn new(key: Vec<u8>, scheme: &str) -> (r: Result<Session, Error>)
        ensures
            scheme@ == "hmac-sha256"@ ==> (r matches Ok(s) && s@.key == key@ && s@.state
                == ShellState::Ready),
            scheme@ != "hmac-sha256"@ ==> r == Err::<Session, Error>(Error::ConfigError),
    {
        let signer = match Signer::new(key, scheme) {
            Ok(s) => s,
            Err(e) => {
                return Err(e);
            },
        };
        Ok(Session { signer, session_id: crate::header::msg_id(), state: ShellState::Ready })
    }

    /// The channel's current state.
    pub fn state(&self) -> (r: ShellState)
        ensures
            r == self@.state,
    {
        self.state
    }

    /// The session identifier carried by every outbound header.
    pub fn session_id(&self) -> (r: &str)
        ensures
            r@ == self@.session_id,
    {
        self.session_id.as_str()
    }

    /// The signer, for decoding side-channel messages received outside
    /// the shell exchange.
    pub fn signer(&self) -> (r: &Signer)
        ensures
            r@ == self@.key,
    {
        &self.signer
    }

    /// Encodes a command into its on-wire frames and moves the channel
    /// into the awaiting state. Permitted only when the channel is ready;
    /// otherwise nothing changes and the exchange fails at once. The
    /// stamped header is returned beside the frames: its session field is
    /// this session's identifier, its message id fresh.
    pub fn encode_command(&mut self, cmd: &Command) -> (r: Result<(Header, Vec<Vec<u8>>), Error>)
        ensures
            final(self)@.key == old(self)@.key,
            final(self)@.session_id == old(self)@.session_id,
            old(self)@.state == ShellState::Ready ==> (r matches Ok(hp) && fresh_header_shape(
                hp.0@,
                spec_msg_type(cmd@),
                old(self)@.session_id,
            ) && hp.1.deep_view() == spec_packets(request_envelope(hp.0@, cmd@), old(self)@.key)
                && final(self)@.state == ShellState::AwaitingReply),
            old(self)@.state != ShellState::Ready ==> r == Err::<(Header, Vec<Vec<u8>>), Error>(
                Error::TransportBroken,
            ) && final(self)@.state == old(self)@.state,
    {
        if !(self.state == ShellState::Ready) {
            return Err(Error::TransportBroken);
        }
        let (header, envelope) = cmd.into_wire(self.session_id.as_str());
        let packets = envelope.into_packets(&self.signer);
        self.state = ShellState::AwaitingReply;
        Ok((header, packets))
    }

    /// Decodes the frames received in reply to the outstanding request.
    /// Permitted only while a reply is awaited. A failure of the envelope
    /// itself (missing delimiter, bad frame count, bad signature, a frame
    /// that is not JSON) poisons the channel; a reply whose content merely
    /// violates its schema completes the exchange and leaves the channel
    /// ready.
    pub fn accept_reply(&mut self, raw: &Vec<Vec<u8>>) -> (r: Result<Response, Error>)
        ensures
            final(self)@.key == old(self)@.key,
            final(self)@.session_id == old(self)@.session_id,
            old(self)@.state != ShellState::AwaitingReply ==> r == Err::<Response, Error>(
                Error::TransportBroken,
            ) && final(self)@.state == old(self)@.state,
            old(self)@.state == ShellState::AwaitingReply ==> match spec_decode(
                raw.deep_view(),
                old(self)@.key,
            ) {
                Err(e) => r == Err::<Response, Error>(e) && final(self)@.state
                    == ShellState::Poisoned,
                Ok(m) => match spec_into_response(m.envelope) {
                    Ok(resp) => (r matches Ok(got) && got@ == resp) && final(self)@.state
                        == ShellState::Ready,
                    Err(e) => r == Err::<Response, Error>(e) && final(self)@.state == (if poisons(
                        e,
                    ) {
                        ShellState::Poisoned
                    } else {
                        ShellState::Ready
                    }),
                },
            },
    {
        if !(self.state == ShellState::AwaitingReply) {
            return Err(Error::TransportBroken);
        }
        let envelope = match WireEnvelope::from_raw_response(raw, &self.signer) {
            Ok(e) => e,
            Err(e) => {
                self.state = ShellState::Poisoned;
                return Err(e);
            },
        };
        match envelope.into_response() {
            Ok(resp) => {
                self.state = ShellState::Ready;
                Ok(resp)
            },
            Err(e) => {
                self.state = if matches!(e, Error::MalformedEnvelope) {
                    ShellState::Poisoned
                } else {
                    ShellState::Ready
                };
                Err(e)
            },
        }
    }

    /// Decodes a message published on the iopub channel. The subscription
    /// stream has no state to advance: each message stands alone.
    pub fn decode_iopub(&self, raw: &Vec<Vec<u8>>) -> (r: Result<Response, Error>)
        ensures
            match spec_decode(raw.deep_view(), self@.key) {
                Err(e) => r == Err::<Response, Error>(e),
                Ok(m) => match spec_into_response(m.envelope) {
                    Ok(resp) => r matches Ok(got) && got@ == resp,
                    Err(e) => r == Err::<Response, Error>(e),
                },
            },
    {
        let envelope = match WireEnvelope::from_raw_response(raw, &self.signer) {
            Ok(e) => e,
            Err(e) => {
                return Err(e);
            },
        };
        envelope.into_response()
    }
}

} // verus!
