//! Message headers.
//!
//! Every message carries a header of six string fields. Outbound headers
//! are stamped with a fresh message id (a canonical hyphenated UUID), the
//! current UTC time in RFC 3339 form, and the protocol version; the session
//! field ties all requests of one client together.

use vstd::prelude::*;

verus! {

use crate::bytestr::push_str_bytes;
use crate::errors::Error;
use crate::json::json_string_bytes;
use crate::json::get_str_field;
use crate::json::jv_get_str;
use crate::json::push_json_string;
use crate::json::JsonValue;
use crate::json::JsonView;
use vstd::utf8::encode_utf8;

/// The six header fields of a message.
#[derive(Debug, Clone, PartialEq, Eq)]
pub struct Header {
    pub date: String,
    pub msg_id: String,
    pub username: String,
    pub session: String,
    pub msg_type: String,
    pub version: String,
}

pub struct HeaderView {
    pub date: Seq<char>,
    pub msg_id: Seq<char>,
    pub username: Seq<char>,
    pub session: Seq<char>,
    pub msg_type: Seq<char>,
    pub version: Seq<char>,
}

impl View for Header {
    type V = HeaderView;

    open spec fn view(&self) -> HeaderView {
        HeaderView {
            date: self.date@,
            msg_id: self.msg_id@,
            username: self.username@,
            session: self.session@,
            msg_type: self.msg_type@,
            version: self.version@,
        }
    }
}

/// Relies on `uuid::Uuid::new_v4` and its `Display`: a fresh random UUID,
/// rendered in the canonical hyphenated form of 36 characters with hyphens
/// after the 8th, 13th, 18th and 23rd. The value is random, so nothing is
/// assumed beyond the shape.
#[verifier::external_body]
pub(crate) fn msg_id() -> (r: String)
    ensures
        r@.len() == 36,
        r@[8] == '-',
        r@[13] == '-',
        r@[18] == '-',
        r@[23] == '-',
{
    let u = uuid::Uuid::new_v4();
    u.to_string()
}

/// Relies on `chrono::Utc::now` and `to_rfc3339`: the current UTC time
/// rendered in RFC 3339 form. The value depends on the clock, so nothing
/// is assumed beyond it being non-empty.
#[verifier::external_body]
fn now_rfc3339() -> (r: String)
    ensures
        r@.len() >= 1,
{
    chrono::Utc::now().to_rfc3339()
}

/// Shape of an outbound header: freshly stamped date and message id, the
/// caller's session and message type, and the fields this client pins.
pub open spec fn fresh_header_shape(h: HeaderView, msg_type: Seq<char>, session: Seq<char>) -> bool {
    &&& h.date.len() >= 1
    &&& h.msg_id.len() == 36
    &&& h.msg_id[8] == '-'
    &&& h.msg_id[13] == '-'
    &&& h.msg_id[18] == '-'
    &&& h.msg_id[23] == '-'
    &&& h.username == "kernel"@
    &&& h.session == session
    &&& h.msg_type == msg_type
    &&& h.version == "5.0"@
}

impl Header {
    /// A fresh outbound header for the given message type, with an empty
    /// session. The date is stamped with the current UTC time and the
    /// message id with a fresh canonical UUID.
    pub fn new(msg_type: &str) -> (h: Header)
        ensures
            fresh_header_shape(h@, msg_type@, ""@),
    {
        Header::with_session(msg_type, "")
    }

    /// A fresh outbound header carrying the given session identifier.
    pub fn with_session(msg_type: &str, session: &str) -> (h: Header)
        ensures
            fresh_header_shape(h@, msg_type@, session@),
    {
        Header {
            date: now_rfc3339(),
            msg_id: msg_id(),
            username: "kernel".to_owned(),
            session: session.to_owned(),
            msg_type: msg_type.to_owned(),
            version: "5.0".to_owned(),
        }
    }

    /// The header's JSON rendering, as frame bytes.
    pub fn to_bytes(&self) -> (r: Vec<u8>)
        ensures
            r@ == header_bytes(self@),
    {
        let mut out: Vec<u8> = Vec::new();
        push_str_bytes(&mut out, "{\"date\":");
        push_json_string(&mut out, self.date.as_str());
        push_str_bytes(&mut out, ",\"msg_id\":");
        push_json_string(&mut out, self.msg_id.as_str());
        push_str_bytes(&mut out, ",\"username\":");
        push_json_string(&mut out, self.username.as_str());
        push_str_bytes(&mut out, ",\"session\":");
        push_json_string(&mut out, self.session.as_str());
        push_str_bytes(&mut out, ",\"msg_type\":");
        push_json_string(&mut out, self.msg_type.as_str());
        push_str_bytes(&mut out, ",\"version\":");
        push_json_string(&mut out, self.version.as_str());
        push_str_bytes(&mut out, "}");
        proof {
            assert(out@ =~= header_bytes(self@));
        }
        out
    }
}

/// The JSON document bytes of a header: an object with the six fields in
/// fixed order.
pub open spec fn header_bytes(h: HeaderView) -> Seq<u8> {
    encode_utf8("{\"date\":"@) + json_string_bytes(h.date) + encode_utf8(",\"msg_id\":"@)
        + json_string_bytes(h.msg_id) + encode_utf8(",\"username\":"@) + json_string_bytes(
        h.username,
    ) + encode_utf8(",\"session\":"@) + json_string_bytes(h.session) + encode_utf8(
        ",\"msg_type\":"@,
    ) + json_string_bytes(h.msg_type) + encode_utf8(",\"version\":"@) + json_string_bytes(
        h.version,
    ) + encode_utf8("}"@)
}

/// What reading a header out of a parsed JSON document yields: all six
/// fields must be present and strings, else the schema is violated.
pub open spec fn spec_header_from_json(j: JsonView) -> Result<HeaderView, Error> {
    match (
        jv_get_str(j, "date"@),
        jv_get_str(j, "msg_id"@),
        jv_get_str(j, "username"@),
        jv_get_str(j, "session"@),
        jv_get_str(j, "msg_type"@),
        jv_get_str(j, "version"@),
    ) {
        (Some(date), Some(msg_id), Some(username), Some(session), Some(msg_type), Some(version)) => Ok(
            HeaderView { date, msg_id, username, session, msg_type, version },
        ),
        _ => Err(Error::SchemaError),
    }
}

/// Reads a header from a parsed JSON document.
pub fn header_from_json(j: &JsonValue) -> (r: Result<Header, Error>)
    ensures
        match r {
            Ok(h) => spec_header_from_json(j@) == Ok::<HeaderView, Error>(h@),
            Err(e) => spec_header_from_json(j@) == Err::<HeaderView, Error>(e),
        },
{
    let date = match get_str_field(j, "date") {
        Some(s) => s.clone(),
        None => {
            return Err(Error::SchemaError);
        },
    };
    let msg_id = match get_str_field(j, "msg_id") {
        Some(s) => s.clone(),
        None => {
            return Err(Error::SchemaError);
        },
    };
    let username = match get_str_field(j, "username") {
        Some(s) => s.clone(),
        None => {
            return Err(Error::SchemaError);
        },
    };
    let session = match get_str_field(j, "session") {
        Some(s) => s.clone(),
        None => {
            return Err(Error::SchemaError);
        },
    };
    let msg_type = match get_str_field(j, "msg_type") {
        Some(s) => s.clone(),
        None => {
            return Err(Error::SchemaError);
        },
    };
    let version = match get_str_field(j, "version") {
        Some(s) => s.clone(),
        None => {
            return Err(Error::SchemaError);
        },
    };
    Ok(Header { date, msg_id, username, session, msg_type, version })
}

} // verus!
