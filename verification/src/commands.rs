//! Outbound commands and their wire encoding.
//!
//! Each command variant corresponds to one request message type. Encoding
//! is hand-authored per variant, so the naming of fields, the flattening
//! of the history access type, and the numeric rendering of the inspect
//! detail level are all stated explicitly, byte for byte.

use vstd::prelude::*;

verus! {

use crate::bytestr::push_str_bytes;
use crate::decimal::dec_digits;
use crate::decimal::dec_int;
use crate::decimal::push_dec_i64;
use crate::decimal::push_dec_u64;
use crate::header::fresh_header_shape;
use crate::header::header_bytes;
use crate::header::Header;
use crate::json::bool_bytes;
use crate::json::json_string_bytes;
use crate::json::push_bool;
use crate::json::push_json_string;
use crate::json::push_str_obj;
use crate::json::str_obj_bytes;
use crate::wire::WireEnvelope;
use vstd::utf8::encode_utf8;

/// How much detail an inspect request asks for. On the wire this is the
/// integer `0` or `1`, not a variant name.
#[derive(Debug, Clone, Copy, PartialEq, Eq)]
pub enum DetailLevel {
    Zero,
    One,
}

impl DetailLevel {
    /// The integer this level serializes to.
    pub open spec fn spec_value(self) -> u64 {
        match self {
            DetailLevel::Zero => 0,
            DetailLevel::One => 1,
        }
    }

    pub fn value(&self) -> (r: u64)
        ensures
            r == self.spec_value(),
    {
        match self {
            DetailLevel::Zero => 0,
            DetailLevel::One => 1,
        }
    }
}

/// How a history request addresses the kernel's history store.
#[derive(Debug, Clone, PartialEq, Eq)]
pub enum HistoryAccessType {
    Range { session: i64, start: i64, stop: i64 },
    Tail { n: i64 },
    Search { pattern: String },
}

pub enum HistoryAccessTypeView {
    Range { session: i64, start: i64, stop: i64 },
    Tail { n: i64 },
    Search { pattern: Seq<char> },
}

impl View for HistoryAccessType {
    type V = HistoryAccessTypeView;

    open spec fn view(&self) -> HistoryAccessTypeView {
        match self {
            HistoryAccessType::Range { session, start, stop } => HistoryAccessTypeView::Range {
                session: *session,
                start: *start,
                stop: *stop,
            },
            HistoryAccessType::Tail { n } => HistoryAccessTypeView::Tail { n: *n },
            HistoryAccessType::Search { pattern } => HistoryAccessTypeView::Search {
                pattern: pattern@,
            },
        }
    }
}

/// A typed outbound command, one constructor per request message type.
#[derive(Debug, Clone, PartialEq, Eq)]
pub enum Command {
    KernelInfo,
    Execute {
        code: String,
        silent: bool,
        store_history: bool,
        user_expressions: Vec<(String, String)>,
        allow_stdin: bool,
        stop_on_error: bool,
    },
    Inspect { code: String, cursor_pos: u64, detail_level: DetailLevel },
    Completion { code: String, cursor_pos: u64 },
    History { output: bool, raw: bool, access_type: HistoryAccessType, unique: bool },
    IsComplete { code: String },
    Shutdown { restart: bool },
    CommInfo { target_name: Option<String> },
}

pub enum CommandView {
    KernelInfo,
    Execute {
        code: Seq<char>,
        silent: bool,
        store_history: bool,
        user_expressions: Seq<(Seq<char>, Seq<char>)>,
        allow_stdin: bool,
        stop_on_error: bool,
    },
    Inspect { code: Seq<char>, cursor_pos: u64, detail_level: DetailLevel },
    Completion { code: Seq<char>, cursor_pos: u64 },
    History { output: bool, raw: bool, access_type: HistoryAccessTypeView, unique: bool },
    IsComplete { code: Seq<char> },
    Shutdown { restart: bool },
    CommInfo { target_name: Option<Seq<char>> },
}

impl View for Command {
    type V = CommandView;

    open spec fn view(&self) -> CommandView {
        match self {
            Command::KernelInfo => CommandView::KernelInfo,
            Command::Execute {
                code,
                silent,
                store_history,
                user_expressions,
                allow_stdin,
                stop_on_error,
            } => CommandView::Execute {
                code: code@,
                silent: *silent,
                store_history: *store_history,
                user_expressions: user_expressions.deep_view(),
                allow_stdin: *allow_stdin,
                stop_on_error: *stop_on_error,
            },
            Command::Inspect { code, cursor_pos, detail_level } => CommandView::Inspect {
                code: code@,
                cursor_pos: *cursor_pos,
                detail_level: *detail_level,
            },
            Command::Completion { code, cursor_pos } => CommandView::Completion {
                code: code@,
                cursor_pos: *cursor_pos,
            },
            Command::History { output, raw, access_type, unique } => CommandView::History {
                output: *output,
                raw: *raw,
                access_type: access_type@,
                unique: *unique,
            },
            Command::IsComplete { code } => CommandView::IsComplete { code: code@ },
            Command::Shutdown { restart } => CommandView::Shutdown { restart: *restart },
            Command::CommInfo { target_name } => CommandView::CommInfo {
                target_name: match target_name {
                    Some(t) => Some(t@),
                    None => None,
                },
            },
        }
    }
}

/// The request-side message type name of a command.
pub open spec fn spec_msg_type(c: CommandView) -> Seq<char> {
    match c {
        CommandView::KernelInfo => "kernel_info_request"@,
        CommandView::Execute { .. } => "execute_request"@,
        CommandView::Inspect { .. } => "inspect_request"@,
        CommandView::Completion { .. } => "complete_request"@,
        CommandView::History { .. } => "history_request"@,
        CommandView::IsComplete { .. } => "is_complete_request"@,
        CommandView::Shutdown { .. } => "shutdown_request"@,
        CommandView::CommInfo { .. } => "comm_info_request"@,
    }
}

pub open spec fn execute_content_bytes(
    code: Seq<char>,
    silent: bool,
    store_history: bool,
    user_expressions: Seq<(Seq<char>, Seq<char>)>,
    allow_stdin: bool,
    stop_on_error: bool,
) -> Seq<u8> {
    encode_utf8("{\"code\":"@) + json_string_bytes(code) + encode_utf8(",\"silent\":"@)
        + bool_bytes(silent) + encode_utf8(",\"store_history\":"@) + bool_bytes(store_history)
        + encode_utf8(",\"user_expressions\":"@) + str_obj_bytes(user_expressions) + encode_utf8(
        ",\"allow_stdin\":"@,
    ) + bool_bytes(allow_stdin) + encode_utf8(",\"stop_on_error\":"@) + bool_bytes(stop_on_error)
        + encode_utf8("}"@)
}

pub open spec fn inspect_content_bytes(
    code: Seq<char>,
    cursor_pos: u64,
    detail_level: DetailLevel,
) -> Seq<u8> {
    encode_utf8("{\"code\":"@) + json_string_bytes(code) + encode_utf8(",\"cursor_pos\":"@)
        + dec_digits(cursor_pos as nat) + encode_utf8(",\"detail_level\":"@) + dec_digits(
        detail_level.spec_value() as nat,
    ) + encode_utf8("}"@)
}

pub open spec fn completion_content_bytes(code: Seq<char>, cursor_pos: u64) -> Seq<u8> {
    encode_utf8("{\"code\":"@) + json_string_bytes(code) + encode_utf8(",\"cursor_pos\":"@)
        + dec_digits(cursor_pos as nat) + encode_utf8("}"@)
}

/// History requests flatten the access type into the object: the
/// `hist_access_type` discriminator, then that variant's own fields.
pub open spec fn history_access_bytes(a: HistoryAccessTypeView) -> Seq<u8> {
    match a {
        HistoryAccessTypeView::Range { session, start, stop } => encode_utf8(
            "\"hist_access_type\":\"range\",\"session\":"@,
        ) + dec_int(session as int) + encode_utf8(",\"start\":"@) + dec_int(start as int)
            + encode_utf8(",\"stop\":"@) + dec_int(stop as int),
        HistoryAccessTypeView::Tail { n } => encode_utf8("\"hist_access_type\":\"tail\",\"n\":"@)
            + dec_int(n as int),
        HistoryAccessTypeView::Search { pattern } => encode_utf8(
            "\"hist_access_type\":\"search\",\"pattern\":"@,
        ) + json_string_bytes(pattern),
    }
}

pub open spec fn history_content_bytes(
    output: bool,
    raw: bool,
    access_type: HistoryAccessTypeView,
    unique: bool,
) -> Seq<u8> {
    encode_utf8("{\"output\":"@) + bool_bytes(output) + encode_utf8(",\"raw\":"@) + bool_bytes(raw)
        + encode_utf8(","@) + history_access_bytes(access_type) + encode_utf8(",\"unique\":"@)
        + bool_bytes(unique) + encode_utf8("}"@)
}

pub open spec fn is_complete_content_bytes(code: Seq<char>) -> Seq<u8> {
    encode_utf8("{\"code\":"@) + json_string_bytes(code) + encode_utf8("}"@)
}

pub open spec fn shutdown_content_bytes(restart: bool) -> Seq<u8> {
    encode_utf8("{\"restart\":"@) + bool_bytes(restart) + encode_utf8("}"@)
}

pub open spec fn comm_info_content_bytes(target_name: Option<Seq<char>>) -> Seq<u8> {
    match target_name {
        Some(t) => encode_utf8("{\"target_name\":"@) + json_string_bytes(t) + encode_utf8("}"@),
        None => encode_utf8("{}"@),
    }
}

/// The content frame of a command: the JSON encoding of its fields, byte
/// for byte. `kernel_info_request` has the empty object; an `Execute` with
/// no user expressions still carries `"user_expressions":{}`.
pub open spec fn spec_content_bytes(c: CommandView) -> Seq<u8> {
    match c {
        CommandView::KernelInfo => encode_utf8("{}"@),
        CommandView::Execute {
            code,
            silent,
            store_history,
            user_expressions,
            allow_stdin,
            stop_on_error,
        } => execute_content_bytes(
            code,
            silent,
            store_history,
            user_expressions,
            allow_stdin,
            stop_on_error,
        ),
        CommandView::Inspect { code, cursor_pos, detail_level } => inspect_content_bytes(
            code,
            cursor_pos,
            detail_level,
        ),
        CommandView::Completion { code, cursor_pos } => completion_content_bytes(code, cursor_pos),
        CommandView::History { output, raw, access_type, unique } => history_content_bytes(
            output,
            raw,
            access_type,
            unique,
        ),
        CommandView::IsComplete { code } => is_complete_content_bytes(code),
        CommandView::Shutdown { restart } => shutdown_content_bytes(restart),
        CommandView::CommInfo { target_name } => comm_info_content_bytes(target_name),
    }
}

impl Command {
    /// The request-side message type name.
    pub fn msg_type(&self) -> (r: &'static str)
        ensures
            r@ == spec_msg_type(self@),
    {
        match self {
            Command::KernelInfo => "kernel_info_request",
            Command::Execute { .. } => "execute_request",
            Command::Inspect { .. } => "inspect_request",
            Command::Completion { .. } => "complete_request",
            Command::History { .. } => "history_request",
            Command::IsComplete { .. } => "is_complete_request",
            Command::Shutdown { .. } => "shutdown_request",
            Command::CommInfo { .. } => "comm_info_request",
        }
    }

    /// The content frame of this command.
    #[verifier::rlimit(60)]
    pub fn content_bytes(&self) -> (r: Vec<u8>)
        ensures
            r@ == spec_content_bytes(self@),
    {
        let mut out: Vec<u8> = Vec::new();
        match self {
            Command::KernelInfo => {
                push_str_bytes(&mut out, "{}");
            },
            Command::Execute {
                code,
                silent,
                store_history,
                user_expressions,
                allow_stdin,
                stop_on_error,
            } => {
                push_str_bytes(&mut out, "{\"code\":");
                push_json_string(&mut out, code.as_str());
                push_str_bytes(&mut out, ",\"silent\":");
                push_bool(&mut out, *silent);
                push_str_bytes(&mut out, ",\"store_history\":");
                push_bool(&mut out, *store_history);
                push_str_bytes(&mut out, ",\"user_expressions\":");
                push_str_obj(&mut out, user_expressions);
                push_str_bytes(&mut out, ",\"allow_stdin\":");
                push_bool(&mut out, *allow_stdin);
                push_str_bytes(&mut out, ",\"stop_on_error\":");
                push_bool(&mut out, *stop_on_error);
                push_str_bytes(&mut out, "}");
                proof {
                    assert(out@ =~= spec_content_bytes(self@));
                }
            },
            Command::Inspect { code, cursor_pos, detail_level } => {
                push_str_bytes(&mut out, "{\"code\":");
                push_json_string(&mut out, code.as_str());
                push_str_bytes(&mut out, ",\"cursor_pos\":");
                push_dec_u64(&mut out, *cursor_pos);
                push_str_bytes(&mut out, ",\"detail_level\":");
                push_dec_u64(&mut out, detail_level.value());
                push_str_bytes(&mut out, "}");
                proof {
                    assert(out@ =~= spec_content_bytes(self@));
                }
            },
            Command::Completion { code, cursor_pos } => {
                push_str_bytes(&mut out, "{\"code\":");
                push_json_string(&mut out, code.as_str());
                push_str_bytes(&mut out, ",\"cursor_pos\":");
                push_dec_u64(&mut out, *cursor_pos);
                push_str_bytes(&mut out, "}");
                proof {
                    assert(out@ =~= spec_content_bytes(self@));
                }
            },
            Command::History { output, raw, access_type, unique } => {
                push_str_bytes(&mut out, "{\"output\":");
                push_bool(&mut out, *output);
                push_str_bytes(&mut out, ",\"raw\":");
                push_bool(&mut out, *raw);
                push_str_bytes(&mut out, ",");
                match access_type {
                    HistoryAccessType::Range { session, start, stop } => {
                        push_str_bytes(&mut out, "\"hist_access_type\":\"range\",\"session\":");
                        push_dec_i64(&mut out, *session);
                        push_str_bytes(&mut out, ",\"start\":");
                        push_dec_i64(&mut out, *start);
                        push_str_bytes(&mut out, ",\"stop\":");
                        push_dec_i64(&mut out, *stop);
                    },
                    HistoryAccessType::Tail { n } => {
                        push_str_bytes(&mut out, "\"hist_access_type\":\"tail\",\"n\":");
                        push_dec_i64(&mut out, *n);
                    },
                    HistoryAccessType::Search { pattern } => {
                        push_str_bytes(&mut out, "\"hist_access_type\":\"search\",\"pattern\":");
                        push_json_string(&mut out, pattern.as_str());
                    },
                }
                push_str_bytes(&mut out, ",\"unique\":");
                push_bool(&mut out, *unique);
                push_str_bytes(&mut out, "}");
                proof {
                    assert(out@ =~= spec_content_bytes(self@));
                }
            },
            Command::IsComplete { code } => {
                push_str_bytes(&mut out, "{\"code\":");
                push_json_string(&mut out, code.as_str());
                push_str_bytes(&mut out, "}");
                proof {
                    assert(out@ =~= spec_content_bytes(self@));
                }
            },
            Command::Shutdown { restart } => {
                push_str_bytes(&mut out, "{\"restart\":");
                push_bool(&mut out, *restart);
                push_str_bytes(&mut out, "}");
                proof {
                    assert(out@ =~= spec_content_bytes(self@));
                }
            },
            Command::CommInfo { target_name } => {
                match target_name {
                    Some(t) => {
                        push_str_bytes(&mut out, "{\"target_name\":");
                        push_json_string(&mut out, t.as_str());
                        push_str_bytes(&mut out, "}");
                    },
                    None => {
                        push_str_bytes(&mut out, "{}");
                    },
                }
            },
        }
        proof {
            assert(out@ =~= spec_content_bytes(self@));
        }
        out
    }

    /// Builds the four logical frames of this command's request message:
    /// a freshly stamped header carrying the given session, the empty
    /// parent header and metadata documents, and the encoded content. The
    /// stamped header is returned beside the envelope so that callers can
    /// correlate the reply.
    pub fn into_wire(&self, session: &str) -> (r: (Header, WireEnvelope))
        ensures
            fresh_header_shape(r.0@, spec_msg_type(self@), session@),
            r.1@.header == header_bytes(r.0@),
            r.1@.parent_header == encode_utf8("{}"@),
            r.1@.metadata == encode_utf8("{}"@),
            r.1@.content == spec_content_bytes(self@),
    {
        let header = Header::with_session(self.msg_type(), session);
        let header_frame = header.to_bytes();
        let envelope = WireEnvelope {
            header: header_frame,
            parent_header: crate::bytestr::str_to_bytes("{}"),
            metadata: crate::bytestr::str_to_bytes("{}"),
            content: self.content_bytes(),
        };
        (header, envelope)
    }
}

/// Encoding discipline for the inspect detail level: on the wire it is
/// the single digit `0` or `1`, never a variant name.
pub proof fn lemma_detail_level_is_an_integer(d: DetailLevel)
    ensures
        d == DetailLevel::Zero ==> dec_digits(d.spec_value() as nat) == seq![48u8],
        d == DetailLevel::One ==> dec_digits(d.spec_value() as nat) == seq![49u8],
{
}

/// Encoding discipline for user expressions: a command with none still
/// carries the two-byte empty object `{}`, never a missing field and
/// never `null`.
pub proof fn lemma_empty_user_expressions_are_an_empty_object()
    ensures
        str_obj_bytes(Seq::<(Seq<char>, Seq<char>)>::empty()) == seq![123u8, 125u8],
{
    assert(str_obj_bytes(Seq::<(Seq<char>, Seq<char>)>::empty()) =~= seq![123u8, 125u8]);
}

} // verus!
