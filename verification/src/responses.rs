//! Inbound replies: the typed content of each message type, and the
//! dispatch from a decoded envelope to a typed response.
//!
//! The wire format is an untagged union as far as the content JSON is
//! concerned: the discriminator is the header's `msg_type`. The decoder
//! therefore reads the header first and then parses the content against
//! that type's schema. A message type outside the table is not an error:
//! it decodes to the `Unknown` variant, carrying the raw content document.

use vstd::prelude::*;

verus! {

use crate::errors::Error;
use crate::header::spec_header_from_json;
use crate::header::header_from_json;
use crate::header::Header;
use crate::header::HeaderView;
use crate::json::clone_fields;
use crate::json::clone_items;
use crate::json::get_bool_field;
use crate::json::get_i64_field;
use crate::json::get_u64_field;
use crate::json::get_str_field;
use crate::json::json_parse;
use crate::json::jv_get;
use crate::json::jv_get_bool;
use crate::json::jv_get_i64;
use crate::json::jv_get_str;
use crate::json::jv_get_u64;
use crate::json::parse_json;
use crate::json::spec_str_list;
use crate::json::spec_str_map;
use crate::json::str_list_from;
use crate::json::str_map_from;
use crate::json::view_fields;
use crate::json::view_items;
use crate::json::JsonValue;
use crate::json::JsonView;
use crate::wire::WireEnvelope;

/// The `status` field common to shell replies.
#[derive(Debug, Clone, Copy, PartialEq, Eq)]
pub enum Status {
    Okay,
    Error,
    Abort,
}

/// What the kernel is doing, as published on the iopub channel.
#[derive(Debug, Clone, Copy, PartialEq, Eq)]
pub enum ExecutionState {
    Busy,
    Idle,
    Starting,
}

/// Which standard stream a `stream` message carries.
#[derive(Debug, Clone, Copy, PartialEq, Eq)]
pub enum StreamType {
    Stdout,
    Stderr,
}

/// The verdict of an `is_complete_reply`. The wire discriminator is the
/// `status` string; the indent is carried only by `incomplete`.
#[derive(Debug, Clone, PartialEq, Eq)]
pub enum IsCompleteStatus {
    Complete,
    /// The argument is the suggested indent for the next line.
    Incomplete(String),
    Invalid,
    Unknown,
}

pub enum IsCompleteStatusView {
    Complete,
    Incomplete(Seq<char>),
    Invalid,
    Unknown,
}

impl View for IsCompleteStatus {
    type V = IsCompleteStatusView;

    open spec fn view(&self) -> IsCompleteStatusView {
        match self {
            IsCompleteStatus::Complete => IsCompleteStatusView::Complete,
            IsCompleteStatus::Incomplete(indent) => IsCompleteStatusView::Incomplete(indent@),
            IsCompleteStatus::Invalid => IsCompleteStatusView::Invalid,
            IsCompleteStatus::Unknown => IsCompleteStatusView::Unknown,
        }
    }
}

/// One entry of a kernel's help link list.
#[derive(Debug, Clone, PartialEq, Eq)]
pub struct HelpLink {
    pub text: String,
    pub url: String,
}

pub struct HelpLinkView {
    pub text: Seq<char>,
    pub url: Seq<char>,
}

impl View for HelpLink {
    type V = HelpLinkView;

    open spec fn view(&self) -> HelpLinkView {
        HelpLinkView { text: self.text@, url: self.url@ }
    }
}

/// The metadata frame of a message: a JSON object, kept as its fields.
pub struct Metadata {
    pub fields: Vec<(String, JsonValue)>,
}

impl View for Metadata {
    type V = Seq<(Seq<char>, JsonView)>;

    open spec fn view(&self) -> Seq<(Seq<char>, JsonView)> {
        view_fields(self.fields@)
    }
}

pub struct KernelInfoContent {
    pub banner: String,
    pub implementation: String,
    pub implementation_version: String,
    pub protocol_version: String,
    pub status: Status,
    pub help_links: Vec<HelpLink>,
}

pub struct KernelInfoContentView {
    pub banner: Seq<char>,
    pub implementation: Seq<char>,
    pub implementation_version: Seq<char>,
    pub protocol_version: Seq<char>,
    pub status: Status,
    pub help_links: Seq<HelpLinkView>,
}

impl View for KernelInfoContent {
    type V = KernelInfoContentView;

    open spec fn view(&self) -> KernelInfoContentView {
        KernelInfoContentView {
            banner: self.banner@,
            implementation: self.implementation@,
            implementation_version: self.implementation_version@,
            protocol_version: self.protocol_version@,
            status: self.status,
            help_links: Seq::new(self.help_links@.len(), |i: int| self.help_links@[i]@),
        }
    }
}

pub struct ExecuteReplyContent {
    pub status: Status,
    pub execution_count: i64,
    pub payload: Option<Vec<JsonValue>>,
    pub user_expressions: Option<Vec<(String, JsonValue)>>,
    pub ename: Option<String>,
    pub evalue: Option<String>,
    pub traceback: Option<Vec<String>>,
}

pub struct ExecuteReplyContentView {
    pub status: Status,
    pub execution_count: i64,
    pub payload: Option<Seq<JsonView>>,
    pub user_expressions: Option<Seq<(Seq<char>, JsonView)>>,
    pub ename: Option<Seq<char>>,
    pub evalue: Option<Seq<char>>,
    pub traceback: Option<Seq<Seq<char>>>,
}

impl View for ExecuteReplyContent {
    type V = ExecuteReplyContentView;

    open spec fn view(&self) -> ExecuteReplyContentView {
        ExecuteReplyContentView {
            status: self.status,
            execution_count: self.execution_count,
            payload: match self.payload {
                Some(ref p) => Some(view_items(p@)),
                None => None,
            },
            user_expressions: match self.user_expressions {
                Some(ref u) => Some(view_fields(u@)),
                None => None,
            },
            ename: match self.ename {
                Some(ref s) => Some(s@),
                None => None,
            },
            evalue: match self.evalue {
                Some(ref s) => Some(s@),
                None => None,
            },
            traceback: match self.traceback {
                Some(ref t) => Some(t.deep_view()),
                None => None,
            },
        }
    }
}

pub struct StatusContent {
    pub execution_state: ExecutionState,
}

impl View for StatusContent {
    type V = ExecutionState;

    open spec fn view(&self) -> ExecutionState {
        self.execution_state
    }
}

pub struct ExecuteInputContent {
    pub code: String,
    pub execution_count: i64,
}

pub struct ExecuteInputContentView {
    pub code: Seq<char>,
    pub execution_count: i64,
}

impl View for ExecuteInputContent {
    type V = ExecuteInputContentView;

    open spec fn view(&self) -> ExecuteInputContentView {
        ExecuteInputContentView { code: self.code@, execution_count: self.execution_count }
    }
}

pub struct InspectContent {
    pub status: Status,
    pub found: bool,
    pub data: Vec<(String, JsonValue)>,
    pub metadata: Vec<(String, JsonValue)>,
}

pub struct InspectContentView {
    pub status: Status,
    pub found: bool,
    pub data: Seq<(Seq<char>, JsonView)>,
    pub metadata: Seq<(Seq<char>, JsonView)>,
}

impl View for InspectContent {
    type V = InspectContentView;

    open spec fn view(&self) -> InspectContentView {
        InspectContentView {
            status: self.status,
            found: self.found,
            data: view_fields(self.data@),
            metadata: view_fields(self.metadata@),
        }
    }
}

pub struct StreamContent {
    pub name: StreamType,
    pub text: String,
}

pub struct StreamContentView {
    pub name: StreamType,
    pub text: Seq<char>,
}

impl View for StreamContent {
    type V = StreamContentView;

    open spec fn view(&self) -> StreamContentView {
        StreamContentView { name: self.name, text: self.text@ }
    }
}

pub struct ErrorContent {
    pub ename: String,
    pub evalue: String,
    pub traceback: Vec<String>,
}

pub struct ErrorContentView {
    pub ename: Seq<char>,
    pub evalue: Seq<char>,
    pub traceback: Seq<Seq<char>>,
}

impl View for ErrorContent {
    type V = ErrorContentView;

    open spec fn view(&self) -> ErrorContentView {
        ErrorContentView {
            ename: self.ename@,
            evalue: self.evalue@,
            traceback: self.traceback.deep_view(),
        }
    }
}

pub struct CompleteContent {
    pub status: Status,
    pub matches: Vec<String>,
    pub cursor_start: u64,
    pub cursor_end: u64,
    pub metadata: Vec<(String, JsonValue)>,
}

pub struct CompleteContentView {
    pub status: Status,
    pub matches: Seq<Seq<char>>,
    pub cursor_start: u64,
    pub cursor_end: u64,
    pub metadata: Seq<(Seq<char>, JsonView)>,
}

impl View for CompleteContent {
    type V = CompleteContentView;

    open spec fn view(&self) -> CompleteContentView {
        CompleteContentView {
            status: self.status,
            matches: self.matches.deep_view(),
            cursor_start: self.cursor_start,
            cursor_end: self.cursor_end,
            metadata: view_fields(self.metadata@),
        }
    }
}

pub struct HistoryContent {
    pub status: Status,
    pub history: Vec<JsonValue>,
}

pub struct HistoryContentView {
    pub status: Status,
    pub history: Seq<JsonView>,
}

impl View for HistoryContent {
    type V = HistoryContentView;

    open spec fn view(&self) -> HistoryContentView {
        HistoryContentView { status: self.status, history: view_items(self.history@) }
    }
}

pub struct ShutdownContent {
    pub status: Status,
    pub restart: bool,
}

pub struct ShutdownContentView {
    pub status: Status,
    pub restart: bool,
}

impl View for ShutdownContent {
    type V = ShutdownContentView;

    open spec fn view(&self) -> ShutdownContentView {
        ShutdownContentView { status: self.status, restart: self.restart }
    }
}

pub struct CommInfoContent {
    pub status: Status,
    pub comms: Vec<(String, Vec<(String, String)>)>,
}

pub struct CommInfoContentView {
    pub status: Status,
    pub comms: Seq<(Seq<char>, Seq<(Seq<char>, Seq<char>)>)>,
}

impl View for CommInfoContent {
    type V = CommInfoContentView;

    open spec fn view(&self) -> CommInfoContentView {
        CommInfoContentView { status: self.status, comms: self.comms.deep_view() }
    }
}

pub struct ExecuteResultContent {
    pub data: Vec<(String, String)>,
    pub metadata: JsonValue,
    pub execution_count: i64,
}

pub struct ExecuteResultContentView {
    pub data: Seq<(Seq<char>, Seq<char>)>,
    pub metadata: JsonView,
    pub execution_count: i64,
}

impl View for ExecuteResultContent {
    type V = ExecuteResultContentView;

    open spec fn view(&self) -> ExecuteResultContentView {
        ExecuteResultContentView {
            data: self.data.deep_view(),
            metadata: self.metadata@,
            execution_count: self.execution_count,
        }
    }
}

pub struct DisplayDataContent {
    pub data: Vec<(String, JsonValue)>,
    pub metadata: JsonValue,
    pub transient: Option<JsonValue>,
}

pub struct DisplayDataContentView {
    pub data: Seq<(Seq<char>, JsonView)>,
    pub metadata: JsonView,
    pub transient: Option<JsonView>,
}

impl View for DisplayDataContent {
    type V = DisplayDataContentView;

    open spec fn view(&self) -> DisplayDataContentView {
        DisplayDataContentView {
            data: view_fields(self.data@),
            metadata: self.metadata@,
            transient: match self.transient {
                Some(ref t) => Some(t@),
                None => None,
            },
        }
    }
}

pub struct ClearOutputContent {
    pub wait: bool,
}

impl View for ClearOutputContent {
    type V = bool;

    open spec fn view(&self) -> bool {
        self.wait
    }
}

/// The meaning of a `status` string.
pub open spec fn spec_status_of(s: Seq<char>) -> Option<Status> {
    if s == "ok"@ {
        Some(Status::Okay)
    } else if s == "error"@ {
        Some(Status::Error)
    } else if s == "abort"@ {
        Some(Status::Abort)
    } else {
        None
    }
}

/// The `status` field of a reply document.
pub open spec fn spec_status_field(j: JsonView) -> Option<Status> {
    match jv_get_str(j, "status"@) {
        Some(s) => spec_status_of(s),
        None => None,
    }
}

fn status_field(j: &JsonValue) -> (r: Option<Status>)
    ensures
        r == spec_status_field(j@),
{
    match get_str_field(j, "status") {
        Some(s) => {
            if crate::bytestr::str_eq(s.as_str(), "ok") {
                Some(Status::Okay)
            } else if crate::bytestr::str_eq(s.as_str(), "error") {
                Some(Status::Error)
            } else if crate::bytestr::str_eq(s.as_str(), "abort") {
                Some(Status::Abort)
            } else {
                None
            }
        },
        None => None,
    }
}

/// The meaning of an `execution_state` string.
pub open spec fn spec_execution_state_of(s: Seq<char>) -> Option<ExecutionState> {
    if s == "busy"@ {
        Some(ExecutionState::Busy)
    } else if s == "idle"@ {
        Some(ExecutionState::Idle)
    } else if s == "starting"@ {
        Some(ExecutionState::Starting)
    } else {
        None
    }
}

/// The meaning of a stream `name` string.
pub open spec fn spec_stream_type_of(s: Seq<char>) -> Option<StreamType> {
    if s == "stdout"@ {
        Some(StreamType::Stdout)
    } else if s == "stderr"@ {
        Some(StreamType::Stderr)
    } else {
        None
    }
}


/// An optional string field: absent or null is `None`, a string is the
/// string, anything else violates the schema (the outer `None`).
pub open spec fn spec_opt_str_field(j: JsonView, key: Seq<char>) -> Option<Option<Seq<char>>> {
    match jv_get(j, key) {
        None => Some(None),
        Some(JsonView::Null) => Some(None),
        Some(JsonView::Str(s)) => Some(Some(s)),
        Some(_) => None,
    }
}

fn opt_str_field(j: &JsonValue, key: &str) -> (r: Option<Option<String>>)
    ensures
        match r {
            Some(Some(s)) => spec_opt_str_field(j@, key@) == Some(Some(s@)),
            Some(None) => spec_opt_str_field(j@, key@) == Some(None::<Seq<char>>),
            None => spec_opt_str_field(j@, key@) is None,
        },
{
    match j.get(key) {
        None => Some(None),
        Some(v) => match v {
            JsonValue::Null => Some(None),
            JsonValue::Str(s) => Some(Some(s.clone())),
            _ => None,
        },
    }
}

/// An optional array field, its elements kept as raw documents.
pub open spec fn spec_opt_items_field(j: JsonView, key: Seq<char>) -> Option<
    Option<Seq<JsonView>>,
> {
    match jv_get(j, key) {
        None => Some(None),
        Some(JsonView::Null) => Some(None),
        Some(JsonView::Arr(items)) => Some(Some(items)),
        Some(_) => None,
    }
}

fn opt_items_field(j: &JsonValue, key: &str) -> (r: Option<Option<Vec<JsonValue>>>)
    ensures
        match r {
            Some(Some(v)) => spec_opt_items_field(j@, key@) == Some(Some(view_items(v@))),
            Some(None) => spec_opt_items_field(j@, key@) == Some(None::<Seq<JsonView>>),
            None => spec_opt_items_field(j@, key@) is None,
        },
{
    match j.get(key) {
        None => Some(None),
        Some(v) => match v {
            JsonValue::Null => Some(None),
            JsonValue::Arr(items) => Some(Some(clone_items(items))),
            _ => None,
        },
    }
}

/// An optional object field, its fields kept as raw documents.
pub open spec fn spec_opt_fields_field(j: JsonView, key: Seq<char>) -> Option<
    Option<Seq<(Seq<char>, JsonView)>>,
> {
    match jv_get(j, key) {
        None => Some(None),
        Some(JsonView::Null) => Some(None),
        Some(JsonView::Obj(fields)) => Some(Some(fields)),
        Some(_) => None,
    }
}

fn opt_fields_field(j: &JsonValue, key: &str) -> (r: Option<Option<Vec<(String, JsonValue)>>>)
    ensures
        match r {
            Some(Some(v)) => spec_opt_fields_field(j@, key@) == Some(Some(view_fields(v@))),
            Some(None) => spec_opt_fields_field(j@, key@) == Some(
                None::<Seq<(Seq<char>, JsonView)>>,
            ),
            None => spec_opt_fields_field(j@, key@) is None,
        },
{
    match j.get(key) {
        None => Some(None),
        Some(v) => match v {
            JsonValue::Null => Some(None),
            JsonValue::Obj(fields) => Some(Some(clone_fields(fields))),
            _ => None,
        },
    }
}

/// An optional list-of-strings field.
pub open spec fn spec_opt_str_list_field(j: JsonView, key: Seq<char>) -> Option<
    Option<Seq<Seq<char>>>,
> {
    match jv_get(j, key) {
        None => Some(None),
        Some(JsonView::Null) => Some(None),
        Some(JsonView::Arr(items)) => match spec_str_list(items) {
            Some(l) => Some(Some(l)),
            None => None,
        },
        Some(_) => None,
    }
}

fn opt_str_list_field(j: &JsonValue, key: &str) -> (r: Option<Option<Vec<String>>>)
    ensures
        match r {
            Some(Some(v)) => spec_opt_str_list_field(j@, key@) == Some(Some(v.deep_view())),
            Some(None) => spec_opt_str_list_field(j@, key@) == Some(None::<Seq<Seq<char>>>),
            None => spec_opt_str_list_field(j@, key@) is None,
        },
{
    match j.get(key) {
        None => Some(None),
        Some(v) => match v {
            JsonValue::Null => Some(None),
            JsonValue::Arr(items) => match str_list_from(items) {
                Some(l) => Some(Some(l)),
                None => None,
            },
            _ => None,
        },
    }
}

/// A required object field, its fields kept as raw documents.
pub open spec fn spec_obj_field(j: JsonView, key: Seq<char>) -> Option<
    Seq<(Seq<char>, JsonView)>,
> {
    match jv_get(j, key) {
        Some(JsonView::Obj(fields)) => Some(fields),
        _ => None,
    }
}

fn obj_field(j: &JsonValue, key: &str) -> (r: Option<Vec<(String, JsonValue)>>)
    ensures
        match r {
            Some(v) => spec_obj_field(j@, key@) == Some(view_fields(v@)),
            None => spec_obj_field(j@, key@) is None,
        },
{
    match j.get(key) {
        Some(v) => match v {
            JsonValue::Obj(fields) => Some(clone_fields(fields)),
            _ => None,
        },
        None => None,
    }
}

/// A required array field, its elements kept as raw documents.
pub open spec fn spec_items_field(j: JsonView, key: Seq<char>) -> Option<Seq<JsonView>> {
    match jv_get(j, key) {
        Some(JsonView::Arr(items)) => Some(items),
        _ => None,
    }
}

fn items_field(j: &JsonValue, key: &str) -> (r: Option<Vec<JsonValue>>)
    ensures
        match r {
            Some(v) => spec_items_field(j@, key@) == Some(view_items(v@)),
            None => spec_items_field(j@, key@) is None,
        },
{
    match j.get(key) {
        Some(v) => match v {
            JsonValue::Arr(items) => Some(clone_items(items)),
            _ => None,
        },
        None => None,
    }
}

/// A required field of any shape, kept as a raw document.
fn value_field(j: &JsonValue, key: &str) -> (r: Option<JsonValue>)
    ensures
        match r {
            Some(v) => jv_get(j@, key@) == Some(v@),
            None => jv_get(j@, key@) is None,
        },
{
    match j.get(key) {
        Some(v) => Some(v.clone_value()),
        None => None,
    }
}

/// A required object field whose values are all strings.
pub open spec fn spec_str_map_field(j: JsonView, key: Seq<char>) -> Option<
    Seq<(Seq<char>, Seq<char>)>,
> {
    match jv_get(j, key) {
        Some(JsonView::Obj(fields)) => spec_str_map(fields),
        _ => None,
    }
}

fn str_map_field(j: &JsonValue, key: &str) -> (r: Option<Vec<(String, String)>>)
    ensures
        match r {
            Some(v) => spec_str_map_field(j@, key@) == Some(v.deep_view()),
            None => spec_str_map_field(j@, key@) is None,
        },
{
    match j.get(key) {
        Some(v) => match v {
            JsonValue::Obj(fields) => str_map_from(fields),
            _ => None,
        },
        None => None,
    }
}

/// One help link: an object with `text` and `url` strings.
pub open spec fn spec_help_link(v: JsonView) -> Option<HelpLinkView> {
    match (jv_get_str(v, "text"@), jv_get_str(v, "url"@)) {
        (Some(text), Some(url)) => Some(HelpLinkView { text, url }),
        _ => None,
    }
}

pub open spec fn spec_help_links(items: Seq<JsonView>) -> Option<Seq<HelpLinkView>> {
    if forall|i: int| 0 <= i < items.len() ==> spec_help_link(#[trigger] items[i]) is Some {
        Some(Seq::new(items.len(), |i: int| spec_help_link(items[i])->0))
    } else {
        None
    }
}

/// The `help_links` field: a list of help links.
pub open spec fn spec_help_links_field(j: JsonView) -> Option<Seq<HelpLinkView>> {
    match jv_get(j, "help_links"@) {
        Some(JsonView::Arr(items)) => spec_help_links(items),
        _ => None,
    }
}

fn help_links_from(items: &Vec<JsonValue>) -> (r: Option<Vec<HelpLink>>)
    ensures
        match r {
            Some(v) => spec_help_links(view_items(items@)) == Some(
                Seq::new(v@.len(), |i: int| v@[i]@),
            ) && v@.len() == items@.len(),
            None => spec_help_links(view_items(items@)) is None,
        },
{
    let ghost iv = view_items(items@);
    proof {
        crate::json::lemma_view_items_len(items@);
    }
    let mut out: Vec<HelpLink> = Vec::new();
    let mut i: usize = 0;
    while i < items.len()
        invariant
            0 <= i <= items@.len(),
            iv == view_items(items@),
            iv.len() == items@.len(),
            out@.len() == i,
            forall|k: int|
                0 <= k < i ==> spec_help_link(#[trigger] iv[k]) is Some && spec_help_link(iv[k])
                    == Some(out@[k]@),
        decreases items@.len() - i,
    {
        proof {
            crate::json::lemma_view_items_index(items@, i as int);
        }
        let text = match get_str_field(&items[i], "text") {
            Some(s) => s.clone(),
            None => {
                return None;
            },
        };
        let url = match get_str_field(&items[i], "url") {
            Some(s) => s.clone(),
            None => {
                return None;
            },
        };
        out.push(HelpLink { text, url });
        i += 1;
    }
    proof {
        assert(spec_help_links(iv) == Some(Seq::new(out@.len(), |i: int| out@[i]@))) by {
            assert(forall|k: int| 0 <= k < iv.len() ==> spec_help_link(#[trigger] iv[k]) is Some);
            assert(spec_help_links(iv)->0 =~= Seq::new(out@.len(), |i: int| out@[i]@));
        }
    }
    Some(out)
}

/// What a `kernel_info_reply` content must hold.
pub open spec fn spec_kernel_info_from_json(j: JsonView) -> Result<KernelInfoContentView, Error> {
    match (
        jv_get_str(j, "banner"@),
        jv_get_str(j, "implementation"@),
        jv_get_str(j, "implementation_version"@),
        jv_get_str(j, "protocol_version"@),
        spec_status_field(j),
        spec_help_links_field(j),
    ) {
        (
            Some(banner),
            Some(implementation),
            Some(implementation_version),
            Some(protocol_version),
            Some(status),
            Some(help_links),
        ) => Ok(
            KernelInfoContentView {
                banner,
                implementation,
                implementation_version,
                protocol_version,
                status,
                help_links,
            },
        ),
        _ => Err(Error::SchemaError),
    }
}

/// Reads a `kernel_info_reply` content document.
pub fn kernel_info_from_json(j: &JsonValue) -> (r: Result<KernelInfoContent, Error>)
    ensures
        match r {
            Ok(c) => spec_kernel_info_from_json(j@) == Ok::<KernelInfoContentView, Error>(c@),
            Err(e) => spec_kernel_info_from_json(j@) == Err::<KernelInfoContentView, Error>(e),
        },
{
    let banner = match get_str_field(j, "banner") {
        Some(s) => s.clone(),
        None => {
            return Err(Error::SchemaError);
        },
    };
    let implementation = match get_str_field(j, "implementation") {
        Some(s) => s.clone(),
        None => {
            return Err(Error::SchemaError);
        },
    };
    let implementation_version = match get_str_field(j, "implementation_version") {
        Some(s) => s.clone(),
        None => {
            return Err(Error::SchemaError);
        },
    };
    let protocol_version = match get_str_field(j, "protocol_version") {
        Some(s) => s.clone(),
        None => {
            return Err(Error::SchemaError);
        },
    };
    let status = match status_field(j) {
        Some(s) => s,
        None => {
            return Err(Error::SchemaError);
        },
    };
    let help_links = match j.get("help_links") {
        Some(v) => match v {
            JsonValue::Arr(items) => match help_links_from(items) {
                Some(l) => l,
                None => {
                    return Err(Error::SchemaError);
                },
            },
            _ => {
                return Err(Error::SchemaError);
            },
        },
        None => {
            return Err(Error::SchemaError);
        },
    };
    let c = KernelInfoContent {
        banner,
        implementation,
        implementation_version,
        protocol_version,
        status,
        help_links,
    };
    proof {
        assert(c@.help_links =~= spec_help_links_field(j@)->0);
    }
    Ok(c)
}

/// What an `execute_reply` content must hold: the status and count are
/// required; the remaining fields are optional and typed.
pub open spec fn spec_execute_reply_from_json(j: JsonView) -> Result<
    ExecuteReplyContentView,
    Error,
> {
    match (
        spec_status_field(j),
        jv_get_i64(j, "execution_count"@),
        spec_opt_items_field(j, "payload"@),
        spec_opt_fields_field(j, "user_expressions"@),
        spec_opt_str_field(j, "ename"@),
        spec_opt_str_field(j, "evalue"@),
        spec_opt_str_list_field(j, "traceback"@),
    ) {
        (
            Some(status),
            Some(execution_count),
            Some(payload),
            Some(user_expressions),
            Some(ename),
            Some(evalue),
            Some(traceback),
        ) => Ok(
            ExecuteReplyContentView {
                status,
                execution_count,
                payload,
                user_expressions,
                ename,
                evalue,
                traceback,
            },
        ),
        _ => Err(Error::SchemaError),
    }
}

/// Reads an `execute_reply` content document.
pub fn execute_reply_from_json(j: &JsonValue) -> (r: Result<ExecuteReplyContent, Error>)
    ensures
        match r {
            Ok(c) => spec_execute_reply_from_json(j@) == Ok::<ExecuteReplyContentView, Error>(c@),
            Err(e) => spec_execute_reply_from_json(j@) == Err::<ExecuteReplyContentView, Error>(e),
        },
{
    let status = match status_field(j) {
        Some(s) => s,
        None => {
            return Err(Error::SchemaError);
        },
    };
    let execution_count = match get_i64_field(j, "execution_count") {
        Some(n) => n,
        None => {
            return Err(Error::SchemaError);
        },
    };
    let payload = match opt_items_field(j, "payload") {
        Some(p) => p,
        None => {
            return Err(Error::SchemaError);
        },
    };
    let user_expressions = match opt_fields_field(j, "user_expressions") {
        Some(u) => u,
        None => {
            return Err(Error::SchemaError);
        },
    };
    let ename = match opt_str_field(j, "ename") {
        Some(s) => s,
        None => {
            return Err(Error::SchemaError);
        },
    };
    let evalue = match opt_str_field(j, "evalue") {
        Some(s) => s,
        None => {
            return Err(Error::SchemaError);
        },
    };
    let traceback = match opt_str_list_field(j, "traceback") {
        Some(t) => t,
        None => {
            return Err(Error::SchemaError);
        },
    };
    Ok(
        ExecuteReplyContent {
            status,
            execution_count,
            payload,
            user_expressions,
            ename,
            evalue,
            traceback,
        },
    )
}

/// What a `status` content must hold: a recognised execution state.
pub open spec fn spec_status_content_from_json(j: JsonView) -> Result<ExecutionState, Error> {
    match jv_get_str(j, "execution_state"@) {
        Some(s) => match spec_execution_state_of(s) {
            Some(st) => Ok(st),
            None => Err(Error::SchemaError),
        },
        None => Err(Error::SchemaError),
    }
}

/// Reads a `status` content document.
pub fn status_content_from_json(j: &JsonValue) -> (r: Result<StatusContent, Error>)
    ensures
        match r {
            Ok(c) => spec_status_content_from_json(j@) == Ok::<ExecutionState, Error>(c@),
            Err(e) => spec_status_content_from_json(j@) == Err::<ExecutionState, Error>(e),
        },
{
    match get_str_field(j, "execution_state") {
        Some(s) => {
            if crate::bytestr::str_eq(s.as_str(), "busy") {
                Ok(StatusContent { execution_state: ExecutionState::Busy })
            } else if crate::bytestr::str_eq(s.as_str(), "idle") {
                Ok(StatusContent { execution_state: ExecutionState::Idle })
            } else if crate::bytestr::str_eq(s.as_str(), "starting") {
                Ok(StatusContent { execution_state: ExecutionState::Starting })
            } else {
                Err(Error::SchemaError)
            }
        },
        None => Err(Error::SchemaError),
    }
}

/// What an `execute_input` content must hold.
pub open spec fn spec_execute_input_from_json(j: JsonView) -> Result<
    ExecuteInputContentView,
    Error,
> {
    match (jv_get_str(j, "code"@), jv_get_i64(j, "execution_count"@)) {
        (Some(code), Some(execution_count)) => Ok(
            ExecuteInputContentView { code, execution_count },
        ),
        _ => Err(Error::SchemaError),
    }
}

/// Reads an `execute_input` content document.
pub fn execute_input_from_json(j: &JsonValue) -> (r: Result<ExecuteInputContent, Error>)
    ensures
        match r {
            Ok(c) => spec_execute_input_from_json(j@) == Ok::<ExecuteInputContentView, Error>(c@),
            Err(e) => spec_execute_input_from_json(j@) == Err::<ExecuteInputContentView, Error>(e),
        },
{
    let code = match get_str_field(j, "code") {
        Some(s) => s.clone(),
        None => {
            return Err(Error::SchemaError);
        },
    };
    let execution_count = match get_i64_field(j, "execution_count") {
        Some(n) => n,
        None => {
            return Err(Error::SchemaError);
        },
    };
    Ok(ExecuteInputContent { code, execution_count })
}

/// What an `inspect_reply` content must hold.
pub open spec fn spec_inspect_from_json(j: JsonView) -> Result<InspectContentView, Error> {
    match (
        spec_status_field(j),
        jv_get_bool(j, "found"@),
        spec_obj_field(j, "data"@),
        spec_obj_field(j, "metadata"@),
    ) {
        (Some(status), Some(found), Some(data), Some(metadata)) => Ok(
            InspectContentView { status, found, data, metadata },
        ),
        _ => Err(Error::SchemaError),
    }
}

/// Reads an `inspect_reply` content document.
pub fn inspect_from_json(j: &JsonValue) -> (r: Result<InspectContent, Error>)
    ensures
        match r {
            Ok(c) => spec_inspect_from_json(j@) == Ok::<InspectContentView, Error>(c@),
            Err(e) => spec_inspect_from_json(j@) == Err::<InspectContentView, Error>(e),
        },
{
    let status = match status_field(j) {
        Some(s) => s,
        None => {
            return Err(Error::SchemaError);
        },
    };
    let found = match get_bool_field(j, "found") {
        Some(b) => b,
        None => {
            return Err(Error::SchemaError);
        },
    };
    let data = match obj_field(j, "data") {
        Some(d) => d,
        None => {
            return Err(Error::SchemaError);
        },
    };
    let metadata = match obj_field(j, "metadata") {
        Some(m) => m,
        None => {
            return Err(Error::SchemaError);
        },
    };
    Ok(InspectContent { status, found, data, metadata })
}

/// What a `stream` content must hold: a recognised stream name and text.
pub open spec fn spec_stream_from_json(j: JsonView) -> Result<StreamContentView, Error> {
    match (jv_get_str(j, "name"@), jv_get_str(j, "text"@)) {
        (Some(name), Some(text)) => match spec_stream_type_of(name) {
            Some(n) => Ok(StreamContentView { name: n, text }),
            None => Err(Error::SchemaError),
        },
        _ => Err(Error::SchemaError),
    }
}

/// Reads a `stream` content document.
pub fn stream_from_json(j: &JsonValue) -> (r: Result<StreamContent, Error>)
    ensures
        match r {
            Ok(c) => spec_stream_from_json(j@) == Ok::<StreamContentView, Error>(c@),
            Err(e) => spec_stream_from_json(j@) == Err::<StreamContentView, Error>(e),
        },
{
    let name = match get_str_field(j, "name") {
        Some(s) => {
            if crate::bytestr::str_eq(s.as_str(), "stdout") {
                StreamType::Stdout
            } else if crate::bytestr::str_eq(s.as_str(), "stderr") {
                StreamType::Stderr
            } else {
                return Err(Error::SchemaError);
            }
        },
        None => {
            return Err(Error::SchemaError);
        },
    };
    let text = match get_str_field(j, "text") {
        Some(s) => s.clone(),
        None => {
            return Err(Error::SchemaError);
        },
    };
    Ok(StreamContent { name, text })
}

/// What an `error` content must hold.
pub open spec fn spec_error_content_from_json(j: JsonView) -> Result<ErrorContentView, Error> {
    match (jv_get_str(j, "ename"@), jv_get_str(j, "evalue"@), spec_items_field(j, "traceback"@)) {
        (Some(ename), Some(evalue), Some(items)) => match spec_str_list(items) {
            Some(traceback) => Ok(ErrorContentView { ename, evalue, traceback }),
            None => Err(Error::SchemaError),
        },
        _ => Err(Error::SchemaError),
    }
}

/// Reads an `error` content document.
pub fn error_content_from_json(j: &JsonValue) -> (r: Result<ErrorContent, Error>)
    ensures
        match r {
            Ok(c) => spec_error_content_from_json(j@) == Ok::<ErrorContentView, Error>(c@),
            Err(e) => spec_error_content_from_json(j@) == Err::<ErrorContentView, Error>(e),
        },
{
    let ename = match get_str_field(j, "ename") {
        Some(s) => s.clone(),
        None => {
            return Err(Error::SchemaError);
        },
    };
    let evalue = match get_str_field(j, "evalue") {
        Some(s) => s.clone(),
        None => {
            return Err(Error::SchemaError);
        },
    };
    let traceback = match j.get("traceback") {
        Some(v) => match v {
            JsonValue::Arr(items) => match str_list_from(items) {
                Some(l) => l,
                None => {
                    return Err(Error::SchemaError);
                },
            },
            _ => {
                return Err(Error::SchemaError);
            },
        },
        None => {
            return Err(Error::SchemaError);
        },
    };
    Ok(ErrorContent { ename, evalue, traceback })
}

/// What a `complete_reply` content must hold.
pub open spec fn spec_complete_from_json(j: JsonView) -> Result<CompleteContentView, Error> {
    match (
        spec_status_field(j),
        spec_items_field(j, "matches"@),
        jv_get_u64(j, "cursor_start"@),
        jv_get_u64(j, "cursor_end"@),
        spec_obj_field(j, "metadata"@),
    ) {
        (Some(status), Some(items), Some(cursor_start), Some(cursor_end), Some(metadata)) => match spec_str_list(
            items,
        ) {
            Some(matches) => Ok(
                CompleteContentView { status, matches, cursor_start, cursor_end, metadata },
            ),
            None => Err(Error::SchemaError),
        },
        _ => Err(Error::SchemaError),
    }
}

/// Reads a `complete_reply` content document.
pub fn complete_from_json(j: &JsonValue) -> (r: Result<CompleteContent, Error>)
    ensures
        match r {
            Ok(c) => spec_complete_from_json(j@) == Ok::<CompleteContentView, Error>(c@),
            Err(e) => spec_complete_from_json(j@) == Err::<CompleteContentView, Error>(e),
        },
{
    let status = match status_field(j) {
        Some(s) => s,
        None => {
            return Err(Error::SchemaError);
        },
    };
    let matches = match j.get("matches") {
        Some(v) => match v {
            JsonValue::Arr(items) => match str_list_from(items) {
                Some(l) => l,
                None => {
                    return Err(Error::SchemaError);
                },
            },
            _ => {
                return Err(Error::SchemaError);
            },
        },
        None => {
            return Err(Error::SchemaError);
        },
    };
    let cursor_start = match get_u64_field(j, "cursor_start") {
        Some(n) => n,
        None => {
            return Err(Error::SchemaError);
        },
    };
    let cursor_end = match get_u64_field(j, "cursor_end") {
        Some(n) => n,
        None => {
            return Err(Error::SchemaError);
        },
    };
    let metadata = match obj_field(j, "metadata") {
        Some(m) => m,
        None => {
            return Err(Error::SchemaError);
        },
    };
    Ok(CompleteContent { status, matches, cursor_start, cursor_end, metadata })
}

/// What a `history_reply` content must hold: the entries stay raw, as the
/// kernel's tuple shapes vary.
pub open spec fn spec_history_from_json(j: JsonView) -> Result<HistoryContentView, Error> {
    match (spec_status_field(j), spec_items_field(j, "history"@)) {
        (Some(status), Some(history)) => Ok(HistoryContentView { status, history }),
        _ => Err(Error::SchemaError),
    }
}

/// Reads a `history_reply` content document.
pub fn history_from_json(j: &JsonValue) -> (r: Result<HistoryContent, Error>)
    ensures
        match r {
            Ok(c) => spec_history_from_json(j@) == Ok::<HistoryContentView, Error>(c@),
            Err(e) => spec_history_from_json(j@) == Err::<HistoryContentView, Error>(e),
        },
{
    let status = match status_field(j) {
        Some(s) => s,
        None => {
            return Err(Error::SchemaError);
        },
    };
    let history = match items_field(j, "history") {
        Some(h) => h,
        None => {
            return Err(Error::SchemaError);
        },
    };
    Ok(HistoryContent { status, history })
}

/// What an `is_complete_reply` content must hold: the `status` string is
/// the discriminator, and `indent` is required exactly when the status is
/// `incomplete`.
pub open spec fn spec_is_complete_from_json(j: JsonView) -> Result<IsCompleteStatusView, Error> {
    match jv_get_str(j, "status"@) {
        Some(s) => {
            if s == "complete"@ {
                Ok(IsCompleteStatusView::Complete)
            } else if s == "invalid"@ {
                Ok(IsCompleteStatusView::Invalid)
            } else if s == "unknown"@ {
                Ok(IsCompleteStatusView::Unknown)
            } else if s == "incomplete"@ {
                match jv_get_str(j, "indent"@) {
                    Some(indent) => Ok(IsCompleteStatusView::Incomplete(indent)),
                    None => Err(Error::SchemaError),
                }
            } else {
                Err(Error::SchemaError)
            }
        },
        None => Err(Error::SchemaError),
    }
}

/// Reads an `is_complete_reply` content document.
pub fn is_complete_from_json(j: &JsonValue) -> (r: Result<IsCompleteStatus, Error>)
    ensures
        match r {
            Ok(c) => spec_is_complete_from_json(j@) == Ok::<IsCompleteStatusView, Error>(c@),
            Err(e) => spec_is_complete_from_json(j@) == Err::<IsCompleteStatusView, Error>(e),
        },
{
    match get_str_field(j, "status") {
        Some(s) => {
            if crate::bytestr::str_eq(s.as_str(), "complete") {
                Ok(IsCompleteStatus::Complete)
            } else if crate::bytestr::str_eq(s.as_str(), "invalid") {
                Ok(IsCompleteStatus::Invalid)
            } else if crate::bytestr::str_eq(s.as_str(), "unknown") {
                Ok(IsCompleteStatus::Unknown)
            } else if crate::bytestr::str_eq(s.as_str(), "incomplete") {
                match get_str_field(j, "indent") {
                    Some(indent) => Ok(IsCompleteStatus::Incomplete(indent.clone())),
                    None => Err(Error::SchemaError),
                }
            } else {
                Err(Error::SchemaError)
            }
        },
        None => Err(Error::SchemaError),
    }
}

/// What a `shutdown_reply` content must hold.
pub open spec fn spec_shutdown_from_json(j: JsonView) -> Result<ShutdownContentView, Error> {
    match (spec_status_field(j), jv_get_bool(j, "restart"@)) {
        (Some(status), Some(restart)) => Ok(ShutdownContentView { status, restart }),
        _ => Err(Error::SchemaError),
    }
}

/// Reads a `shutdown_reply` content document.
pub fn shutdown_from_json(j: &JsonValue) -> (r: Result<ShutdownContent, Error>)
    ensures
        match r {
            Ok(c) => spec_shutdown_from_json(j@) == Ok::<ShutdownContentView, Error>(c@),
            Err(e) => spec_shutdown_from_json(j@) == Err::<ShutdownContentView, Error>(e),
        },
{
    let status = match status_field(j) {
        Some(s) => s,
        None => {
            return Err(Error::SchemaError);
        },
    };
    let restart = match get_bool_field(j, "restart") {
        Some(b) => b,
        None => {
            return Err(Error::SchemaError);
        },
    };
    Ok(ShutdownContent { status, restart })
}

/// The `comms` map: each entry an object whose values are strings.
pub open spec fn spec_comms(fields: Seq<(Seq<char>, JsonView)>) -> Option<
    Seq<(Seq<char>, Seq<(Seq<char>, Seq<char>)>)>,
> {
    if forall|i: int|
        0 <= i < fields.len() ==> (#[trigger] fields[i]).1 is Obj && spec_str_map(
            fields[i].1->Obj_0,
        ) is Some {
        Some(Seq::new(fields.len(), |i: int| (fields[i].0, spec_str_map(fields[i].1->Obj_0)->0)))
    } else {
        None
    }
}

fn comms_from(fields: &Vec<(String, JsonValue)>) -> (r: Option<
    Vec<(String, Vec<(String, String)>)>,
>)
    ensures
        match r {
            Some(v) => spec_comms(view_fields(fields@)) == Some(v.deep_view()),
            None => spec_comms(view_fields(fields@)) is None,
        },
{
    let ghost fv = view_fields(fields@);
    proof {
        crate::json::lemma_view_fields_len(fields@);
    }
    let mut out: Vec<(String, Vec<(String, String)>)> = Vec::new();
    let mut i: usize = 0;
    while i < fields.len()
        invariant
            0 <= i <= fields@.len(),
            fv == view_fields(fields@),
            fv.len() == fields@.len(),
            out@.len() == i,
            forall|k: int|
                0 <= k < i ==> (#[trigger] fv[k]).1 is Obj && spec_str_map(fv[k].1->Obj_0) is Some
                    && fv[k].0 == out@[k].0@ && spec_str_map(fv[k].1->Obj_0) == Some(
                    out@[k].1.deep_view(),
                ),
        decreases fields@.len() - i,
    {
        proof {
            crate::json::lemma_view_fields_index(fields@, i as int);
        }
        let inner = match &fields[i].1 {
            JsonValue::Obj(inner_fields) => match str_map_from(inner_fields) {
                Some(m) => m,
                None => {
                    return None;
                },
            },
            _ => {
                return None;
            },
        };
        out.push((fields[i].0.clone(), inner));
        i += 1;
    }
    proof {
        assert(spec_comms(fv) == Some(out.deep_view())) by {
            assert(forall|k: int|
                0 <= k < fv.len() ==> (#[trigger] fv[k]).1 is Obj && spec_str_map(
                    fv[k].1->Obj_0,
                ) is Some);
            assert(spec_comms(fv)->0 =~~= out.deep_view());
        }
    }
    Some(out)
}

/// What a `comm_info_reply` content must hold.
pub open spec fn spec_comm_info_from_json(j: JsonView) -> Result<CommInfoContentView, Error> {
    match (spec_status_field(j), spec_obj_field(j, "comms"@)) {
        (Some(status), Some(fields)) => match spec_comms(fields) {
            Some(comms) => Ok(CommInfoContentView { status, comms }),
            None => Err(Error::SchemaError),
        },
        _ => Err(Error::SchemaError),
    }
}

/// Reads a `comm_info_reply` content document.
pub fn comm_info_from_json(j: &JsonValue) -> (r: Result<CommInfoContent, Error>)
    ensures
        match r {
            Ok(c) => spec_comm_info_from_json(j@) == Ok::<CommInfoContentView, Error>(c@),
            Err(e) => spec_comm_info_from_json(j@) == Err::<CommInfoContentView, Error>(e),
        },
{
    let status = match status_field(j) {
        Some(s) => s,
        None => {
            return Err(Error::SchemaError);
        },
    };
    let comms = match j.get("comms") {
        Some(v) => match v {
            JsonValue::Obj(fields) => match comms_from(fields) {
                Some(c) => c,
                None => {
                    return Err(Error::SchemaError);
                },
            },
            _ => {
                return Err(Error::SchemaError);
            },
        },
        None => {
            return Err(Error::SchemaError);
        },
    };
    Ok(CommInfoContent { status, comms })
}

/// What an `execute_result` content must hold: a map of representations
/// keyed by MIME type, a metadata document of any shape, and the count.
pub open spec fn spec_execute_result_from_json(j: JsonView) -> Result<
    ExecuteResultContentView,
    Error,
> {
    match (
        spec_str_map_field(j, "data"@),
        jv_get(j, "metadata"@),
        jv_get_i64(j, "execution_count"@),
    ) {
        (Some(data), Some(metadata), Some(execution_count)) => Ok(
            ExecuteResultContentView { data, metadata, execution_count },
        ),
        _ => Err(Error::SchemaError),
    }
}

/// Reads an `execute_result` content document.
pub fn execute_result_from_json(j: &JsonValue) -> (r: Result<ExecuteResultContent, Error>)
    ensures
        match r {
            Ok(c) => spec_execute_result_from_json(j@) == Ok::<ExecuteResultContentView, Error>(
                c@,
            ),
            Err(e) => spec_execute_result_from_json(j@) == Err::<ExecuteResultContentView, Error>(
                e,
            ),
        },
{
    let data = match str_map_field(j, "data") {
        Some(d) => d,
        None => {
            return Err(Error::SchemaError);
        },
    };
    let metadata = match value_field(j, "metadata") {
        Some(m) => m,
        None => {
            return Err(Error::SchemaError);
        },
    };
    let execution_count = match get_i64_field(j, "execution_count") {
        Some(n) => n,
        None => {
            return Err(Error::SchemaError);
        },
    };
    Ok(ExecuteResultContent { data, metadata, execution_count })
}

/// What a `display_data` content must hold: the representation map and
/// metadata are required, the transient document optional.
pub open spec fn spec_display_data_from_json(j: JsonView) -> Result<DisplayDataContentView, Error> {
    match (spec_obj_field(j, "data"@), jv_get(j, "metadata"@)) {
        (Some(data), Some(metadata)) => Ok(
            DisplayDataContentView {
                data,
                metadata,
                transient: match jv_get(j, "transient"@) {
                    Some(JsonView::Null) => None,
                    Some(t) => Some(t),
                    None => None,
                },
            },
        ),
        _ => Err(Error::SchemaError),
    }
}

/// Reads a `display_data` content document.
pub fn display_data_from_json(j: &JsonValue) -> (r: Result<DisplayDataContent, Error>)
    ensures
        match r {
            Ok(c) => spec_display_data_from_json(j@) == Ok::<DisplayDataContentView, Error>(c@),
            Err(e) => spec_display_data_from_json(j@) == Err::<DisplayDataContentView, Error>(e),
        },
{
    let data = match obj_field(j, "data") {
        Some(d) => d,
        None => {
            return Err(Error::SchemaError);
        },
    };
    let metadata = match value_field(j, "metadata") {
        Some(m) => m,
        None => {
            return Err(Error::SchemaError);
        },
    };
    let transient = match j.get("transient") {
        Some(v) => match v {
            JsonValue::Null => None,
            _ => Some(v.clone_value()),
        },
        None => None,
    };
    Ok(DisplayDataContent { data, metadata, transient })
}

/// What a `clear_output` content must hold.
pub open spec fn spec_clear_output_from_json(j: JsonView) -> Result<bool, Error> {
    match jv_get_bool(j, "wait"@) {
        Some(wait) => Ok(wait),
        None => Err(Error::SchemaError),
    }
}

/// Reads a `clear_output` content document.
pub fn clear_output_from_json(j: &JsonValue) -> (r: Result<ClearOutputContent, Error>)
    ensures
        match r {
            Ok(c) => spec_clear_output_from_json(j@) == Ok::<bool, Error>(c@),
            Err(e) => spec_clear_output_from_json(j@) == Err::<bool, Error>(e),
        },
{
    match get_bool_field(j, "wait") {
        Some(wait) => Ok(ClearOutputContent { wait }),
        None => Err(Error::SchemaError),
    }
}


/// A reply on the shell channel, tagged by its message type.
pub enum ShellResponse {
    KernelInfo { header: Header, parent_header: Header, metadata: Metadata, content: KernelInfoContent },
    Execute { header: Header, parent_header: Header, metadata: Metadata, content: ExecuteReplyContent },
    Inspect { header: Header, parent_header: Header, metadata: Metadata, content: InspectContent },
    Complete { header: Header, parent_header: Header, metadata: Metadata, content: CompleteContent },
    History { header: Header, parent_header: Header, metadata: Metadata, content: HistoryContent },
    IsComplete { header: Header, parent_header: Header, metadata: Metadata, content: IsCompleteStatus },
    Shutdown { header: Header, parent_header: Header, metadata: Metadata, content: ShutdownContent },
    CommInfo { header: Header, parent_header: Header, metadata: Metadata, content: CommInfoContent },
}

/// A message published on the iopub channel, tagged by its message type.
pub enum IoPubResponse {
    Status { header: Header, parent_header: Header, metadata: Metadata, content: StatusContent },
    ExecuteInput { header: Header, parent_header: Header, metadata: Metadata, content: ExecuteInputContent },
    Stream { header: Header, parent_header: Header, metadata: Metadata, content: StreamContent },
    Error { header: Header, parent_header: Header, metadata: Metadata, content: ErrorContent },
    ExecuteResult { header: Header, parent_header: Header, metadata: Metadata, content: ExecuteResultContent },
    DisplayData { header: Header, parent_header: Header, metadata: Metadata, content: DisplayDataContent },
    ClearOutput { header: Header, parent_header: Header, metadata: Metadata, content: ClearOutputContent },
}

/// A decoded reply. A message type outside the dispatch table is not an
/// error: it surfaces as `Unknown` with the raw content document.
pub enum Response {
    Shell(ShellResponse),
    IoPub(IoPubResponse),
    Unknown { msg_type: String, content: JsonValue },
}

pub type MetadataView = Seq<(Seq<char>, JsonView)>;

pub enum ShellResponseView {
    KernelInfo { header: HeaderView, parent_header: HeaderView, metadata: MetadataView, content: KernelInfoContentView },
    Execute { header: HeaderView, parent_header: HeaderView, metadata: MetadataView, content: ExecuteReplyContentView },
    Inspect { header: HeaderView, parent_header: HeaderView, metadata: MetadataView, content: InspectContentView },
    Complete { header: HeaderView, parent_header: HeaderView, metadata: MetadataView, content: CompleteContentView },
    History { header: HeaderView, parent_header: HeaderView, metadata: MetadataView, content: HistoryContentView },
    IsComplete { header: HeaderView, parent_header: HeaderView, metadata: MetadataView, content: IsCompleteStatusView },
    Shutdown { header: HeaderView, parent_header: HeaderView, metadata: MetadataView, content: ShutdownContentView },
    CommInfo { header: HeaderView, parent_header: HeaderView, metadata: MetadataView, content: CommInfoContentView },
}

pub enum IoPubResponseView {
    Status { header: HeaderView, parent_header: HeaderView, metadata: MetadataView, content: ExecutionState },
    ExecuteInput { header: HeaderView, parent_header: HeaderView, metadata: MetadataView, content: ExecuteInputContentView },
    Stream { header: HeaderView, parent_header: HeaderView, metadata: MetadataView, content: StreamContentView },
    Error { header: HeaderView, parent_header: HeaderView, metadata: MetadataView, content: ErrorContentView },
    ExecuteResult { header: HeaderView, parent_header: HeaderView, metadata: MetadataView, content: ExecuteResultContentView },
    DisplayData { header: HeaderView, parent_header: HeaderView, metadata: MetadataView, content: DisplayDataContentView },
    ClearOutput { header: HeaderView, parent_header: HeaderView, metadata: MetadataView, content: bool },
}

pub enum ResponseView {
    Shell(ShellResponseView),
    IoPub(IoPubResponseView),
    Unknown { msg_type: Seq<char>, content: JsonView },
}

impl View for ShellResponse {
    type V = ShellResponseView;

    open spec fn view(&self) -> ShellResponseView {
        match self {
            ShellResponse::KernelInfo { header, parent_header, metadata, content } => ShellResponseView::KernelInfo {
                header: header@,
                parent_header: parent_header@,
                metadata: metadata@,
                content: content@,
            },
            ShellResponse::Execute { header, parent_header, metadata, content } => ShellResponseView::Execute {
                header: header@,
                parent_header: parent_header@,
                metadata: metadata@,
                content: content@,
            },
            ShellResponse::Inspect { header, parent_header, metadata, content } => ShellResponseView::Inspect {
                header: header@,
                parent_header: parent_header@,
                metadata: metadata@,
                content: content@,
            },
            ShellResponse::Complete { header, parent_header, metadata, content } => ShellResponseView::Complete {
                header: header@,
                parent_header: parent_header@,
                metadata: metadata@,
                content: content@,
            },
            ShellResponse::History { header, parent_header, metadata, content } => ShellResponseView::History {
                header: header@,
                parent_header: parent_header@,
                metadata: metadata@,
                content: content@,
            },
            ShellResponse::IsComplete { header, parent_header, metadata, content } => ShellResponseView::IsComplete {
                header: header@,
                parent_header: parent_header@,
                metadata: metadata@,
                content: content@,
            },
            ShellResponse::Shutdown { header, parent_header, metadata, content } => ShellResponseView::Shutdown {
                header: header@,
                parent_header: parent_header@,
                metadata: metadata@,
                content: content@,
            },
            ShellResponse::CommInfo { header, parent_header, metadata, content } => ShellResponseView::CommInfo {
                header: header@,
                parent_header: parent_header@,
                metadata: metadata@,
                content: content@,
            },
        }
    }
}

impl View for IoPubResponse {
    type V = IoPubResponseView;

    open spec fn view(&self) -> IoPubResponseView {
        match self {
            IoPubResponse::Status { header, parent_header, metadata, content } => IoPubResponseView::Status {
                header: header@,
                parent_header: parent_header@,
                metadata: metadata@,
                content: content@,
            },
            IoPubResponse::ExecuteInput { header, parent_header, metadata, content } => IoPubResponseView::ExecuteInput {
                header: header@,
                parent_header: parent_header@,
                metadata: metadata@,
                content: content@,
            },
            IoPubResponse::Stream { header, parent_header, metadata, content } => IoPubResponseView::Stream {
                header: header@,
                parent_header: parent_header@,
                metadata: metadata@,
                content: content@,
            },
            IoPubResponse::Error { header, parent_header, metadata, content } => IoPubResponseView::Error {
                header: header@,
                parent_header: parent_header@,
                metadata: metadata@,
                content: content@,
            },
            IoPubResponse::ExecuteResult { header, parent_header, metadata, content } => IoPubResponseView::ExecuteResult {
                header: header@,
                parent_header: parent_header@,
                metadata: metadata@,
                content: content@,
            },
            IoPubResponse::DisplayData { header, parent_header, metadata, content } => IoPubResponseView::DisplayData {
                header: header@,
                parent_header: parent_header@,
                metadata: metadata@,
                content: content@,
            },
            IoPubResponse::ClearOutput { header, parent_header, metadata, content } => IoPubResponseView::ClearOutput {
                header: header@,
                parent_header: parent_header@,
                metadata: metadata@,
                content: content@,
            },
        }
    }
}

impl View for Response {
    type V = ResponseView;

    open spec fn view(&self) -> ResponseView {
        match self {
            Response::Shell(s) => ResponseView::Shell(s@),
            Response::IoPub(p) => ResponseView::IoPub(p@),
            Response::Unknown { msg_type, content } => ResponseView::Unknown {
                msg_type: msg_type@,
                content: content@,
            },
        }
    }
}

/// The dispatch table: which response a parsed message becomes, given its
/// header, parent header, metadata fields and content document.
pub open spec fn spec_dispatch(
    h: HeaderView,
    p: HeaderView,
    m: MetadataView,
    cj: JsonView,
) -> Result<ResponseView, Error> {
    if h.msg_type == "kernel_info_reply"@ {
        match spec_kernel_info_from_json(cj) {
            Ok(c) => Ok(
                ResponseView::Shell(
                    ShellResponseView::KernelInfo {
                        header: h,
                        parent_header: p,
                        metadata: m,
                        content: c,
                    },
                ),
            ),
            Err(e) => Err(e),
        }
    } else if h.msg_type == "execute_reply"@ {
        match spec_execute_reply_from_json(cj) {
            Ok(c) => Ok(
                ResponseView::Shell(
                    ShellResponseView::Execute {
                        header: h,
                        parent_header: p,
                        metadata: m,
                        content: c,
                    },
                ),
            ),
            Err(e) => Err(e),
        }
    } else if h.msg_type == "inspect_reply"@ {
        match spec_inspect_from_json(cj) {
            Ok(c) => Ok(
                ResponseView::Shell(
                    ShellResponseView::Inspect {
                        header: h,
                        parent_header: p,
                        metadata: m,
                        content: c,
                    },
                ),
            ),
            Err(e) => Err(e),
        }
    } else if h.msg_type == "complete_reply"@ {
        match spec_complete_from_json(cj) {
            Ok(c) => Ok(
                ResponseView::Shell(
                    ShellResponseView::Complete {
                        header: h,
                        parent_header: p,
                        metadata: m,
                        content: c,
                    },
                ),
            ),
            Err(e) => Err(e),
        }
    } else if h.msg_type == "history_reply"@ {
        match spec_history_from_json(cj) {
            Ok(c) => Ok(
                ResponseView::Shell(
                    ShellResponseView::History {
                        header: h,
                        parent_header: p,
                        metadata: m,
                        content: c,
                    },
                ),
            ),
            Err(e) => Err(e),
        }
    } else if h.msg_type == "is_complete_reply"@ {
        match spec_is_complete_from_json(cj) {
            Ok(c) => Ok(
                ResponseView::Shell(
                    ShellResponseView::IsComplete {
                        header: h,
                        parent_header: p,
                        metadata: m,
                        content: c,
                    },
                ),
            ),
            Err(e) => Err(e),
        }
    } else if h.msg_type == "shutdown_reply"@ {
        match spec_shutdown_from_json(cj) {
            Ok(c) => Ok(
                ResponseView::Shell(
                    ShellResponseView::Shutdown {
                        header: h,
                        parent_header: p,
                        metadata: m,
                        content: c,
                    },
                ),
            ),
            Err(e) => Err(e),
        }
    } else if h.msg_type == "comm_info_reply"@ {
        match spec_comm_info_from_json(cj) {
            Ok(c) => Ok(
                ResponseView::Shell(
                    ShellResponseView::CommInfo {
                        header: h,
                        parent_header: p,
                        metadata: m,
                        content: c,
                    },
                ),
            ),
            Err(e) => Err(e),
        }
    } else if h.msg_type == "status"@ {
        match spec_status_content_from_json(cj) {
            Ok(c) => Ok(
                ResponseView::IoPub(
                    IoPubResponseView::Status {
                        header: h,
                        parent_header: p,
                        metadata: m,
                        content: c,
                    },
                ),
            ),
            Err(e) => Err(e),
        }
    } else if h.msg_type == "execute_input"@ {
        match spec_execute_input_from_json(cj) {
            Ok(c) => Ok(
                ResponseView::IoPub(
                    IoPubResponseView::ExecuteInput {
                        header: h,
                        parent_header: p,
                        metadata: m,
                        content: c,
                    },
                ),
            ),
            Err(e) => Err(e),
        }
    } else if h.msg_type == "stream"@ {
        match spec_stream_from_json(cj) {
            Ok(c) => Ok(
                ResponseView::IoPub(
                    IoPubResponseView::Stream {
                        header: h,
                        parent_header: p,
                        metadata: m,
                        content: c,
                    },
                ),
            ),
            Err(e) => Err(e),
        }
    } else if h.msg_type == "error"@ {
        match spec_error_content_from_json(cj) {
            Ok(c) => Ok(
                ResponseView::IoPub(
                    IoPubResponseView::Error {
                        header: h,
                        parent_header: p,
                        metadata: m,
                        content: c,
                    },
                ),
            ),
            Err(e) => Err(e),
        }
    } else if h.msg_type == "execute_result"@ {
        match spec_execute_result_from_json(cj) {
            Ok(c) => Ok(
                ResponseView::IoPub(
                    IoPubResponseView::ExecuteResult {
                        header: h,
                        parent_header: p,
                        metadata: m,
                        content: c,
                    },
                ),
            ),
            Err(e) => Err(e),
        }
    } else if h.msg_type == "display_data"@ {
        match spec_display_data_from_json(cj) {
            Ok(c) => Ok(
                ResponseView::IoPub(
                    IoPubResponseView::DisplayData {
                        header: h,
                        parent_header: p,
                        metadata: m,
                        content: c,
                    },
                ),
            ),
            Err(e) => Err(e),
        }
    } else if h.msg_type == "clear_output"@ {
        match spec_clear_output_from_json(cj) {
            Ok(c) => Ok(
                ResponseView::IoPub(
                    IoPubResponseView::ClearOutput {
                        header: h,
                        parent_header: p,
                        metadata: m,
                        content: c,
                    },
                ),
            ),
            Err(e) => Err(e),
        }
    } else {
        Ok(ResponseView::Unknown { msg_type: h.msg_type, content: cj })
    }
}

/// What decoding an envelope's four frames yields: each frame must parse
/// as JSON; the header and parent header must have the header shape; the
/// metadata must be an object; then the message type picks the content
/// schema. An unknown message type yields `Unknown`, not an error.
pub open spec fn spec_into_response(e: crate::wire::EnvelopeView) -> Result<ResponseView, Error> {
    match json_parse(e.header) {
        None => Err(Error::MalformedEnvelope),
        Some(hj) => match spec_header_from_json(hj) {
            Err(er) => Err(er),
            Ok(h) => match json_parse(e.parent_header) {
                None => Err(Error::MalformedEnvelope),
                Some(pj) => match spec_header_from_json(pj) {
                    Err(er) => Err(er),
                    Ok(p) => match json_parse(e.metadata) {
                        None => Err(Error::MalformedEnvelope),
                        Some(JsonView::Obj(mfields)) => match json_parse(e.content) {
                            None => Err(Error::MalformedEnvelope),
                            Some(cj) => spec_dispatch(h, p, mfields, cj),
                        },
                        Some(_) => Err(Error::SchemaError),
                    },
                },
            },
        },
    }
}

impl WireEnvelope {
    /// Decodes the four frames of this envelope into a typed response.
    pub fn into_response(self) -> (r: Result<Response, Error>)
        ensures
            match r {
                Ok(resp) => spec_into_response(self@) == Ok::<ResponseView, Error>(resp@),
                Err(e) => spec_into_response(self@) == Err::<ResponseView, Error>(e),
            },
    {
        let hj = match parse_json(self.header.as_slice()) {
            Some(v) => v,
            None => {
                return Err(Error::MalformedEnvelope);
            },
        };
        let header = match header_from_json(&hj) {
            Ok(h) => h,
            Err(e) => {
                return Err(e);
            },
        };
        let pj = match parse_json(self.parent_header.as_slice()) {
            Some(v) => v,
            None => {
                return Err(Error::MalformedEnvelope);
            },
        };
        let parent_header = match header_from_json(&pj) {
            Ok(h) => h,
            Err(e) => {
                return Err(e);
            },
        };
        let mj = match parse_json(self.metadata.as_slice()) {
            Some(v) => v,
            None => {
                return Err(Error::MalformedEnvelope);
            },
        };
        let metadata = match mj {
            JsonValue::Obj(fields) => Metadata { fields },
            _ => {
                return Err(Error::SchemaError);
            },
        };
        let cj = match parse_json(self.content.as_slice()) {
            Some(v) => v,
            None => {
                return Err(Error::MalformedEnvelope);
            },
        };
        dispatch(header, parent_header, metadata, cj)
    }
}

/// Dispatches a parsed message on its header's type.
#[verifier::rlimit(100)]
pub fn dispatch(header: Header, parent_header: Header, metadata: Metadata, cj: JsonValue) -> (r:
    Result<Response, Error>)
    ensures
        match r {
            Ok(resp) => spec_dispatch(header@, parent_header@, metadata@, cj@) == Ok::<
                ResponseView,
                Error,
            >(resp@),
            Err(e) => spec_dispatch(header@, parent_header@, metadata@, cj@) == Err::<
                ResponseView,
                Error,
            >(e),
        },
{
    {
        let t = &header.msg_type;
        if crate::bytestr::str_eq(t.as_str(), "kernel_info_reply") {
            match kernel_info_from_json(&cj) {
                Ok(content) => Ok(
                    Response::Shell(
                        ShellResponse::KernelInfo { header, parent_header, metadata, content },
                    ),
                ),
                Err(e) => Err(e),
            }
        } else if crate::bytestr::str_eq(t.as_str(), "execute_reply") {
            match execute_reply_from_json(&cj) {
                Ok(content) => Ok(
                    Response::Shell(
                        ShellResponse::Execute { header, parent_header, metadata, content },
                    ),
                ),
                Err(e) => Err(e),
            }
        } else if crate::bytestr::str_eq(t.as_str(), "inspect_reply") {
            match inspect_from_json(&cj) {
                Ok(content) => Ok(
                    Response::Shell(
                        ShellResponse::Inspect { header, parent_header, metadata, content },
                    ),
                ),
                Err(e) => Err(e),
            }
        } else if crate::bytestr::str_eq(t.as_str(), "complete_reply") {
            match complete_from_json(&cj) {
                Ok(content) => Ok(
                    Response::Shell(
                        ShellResponse::Complete { header, parent_header, metadata, content },
                    ),
                ),
                Err(e) => Err(e),
            }
        } else if crate::bytestr::str_eq(t.as_str(), "history_reply") {
            match history_from_json(&cj) {
                Ok(content) => Ok(
                    Response::Shell(
                        ShellResponse::History { header, parent_header, metadata, content },
                    ),
                ),
                Err(e) => Err(e),
            }
        } else if crate::bytestr::str_eq(t.as_str(), "is_complete_reply") {
            match is_complete_from_json(&cj) {
                Ok(content) => Ok(
                    Response::Shell(
                        ShellResponse::IsComplete { header, parent_header, metadata, content },
                    ),
                ),
                Err(e) => Err(e),
            }
        } else if crate::bytestr::str_eq(t.as_str(), "shutdown_reply") {
            match shutdown_from_json(&cj) {
                Ok(content) => Ok(
                    Response::Shell(
                        ShellResponse::Shutdown { header, parent_header, metadata, content },
                    ),
                ),
                Err(e) => Err(e),
            }
        } else if crate::bytestr::str_eq(t.as_str(), "comm_info_reply") {
            match comm_info_from_json(&cj) {
                Ok(content) => Ok(
                    Response::Shell(
                        ShellResponse::CommInfo { header, parent_header, metadata, content },
                    ),
                ),
                Err(e) => Err(e),
            }
        } else {
            dispatch_iopub(header, parent_header, metadata, cj)
        }
    }
}

/// Dispatches the iopub message types; the shell types are handled by
/// `dispatch` before it delegates here.
#[verifier::rlimit(100)]
fn dispatch_iopub(header: Header, parent_header: Header, metadata: Metadata, cj: JsonValue) -> (r:
    Result<Response, Error>)
    requires
        header@.msg_type != "kernel_info_reply"@,
        header@.msg_type != "execute_reply"@,
        header@.msg_type != "inspect_reply"@,
        header@.msg_type != "complete_reply"@,
        header@.msg_type != "history_reply"@,
        header@.msg_type != "is_complete_reply"@,
        header@.msg_type != "shutdown_reply"@,
        header@.msg_type != "comm_info_reply"@,
    ensures
        match r {
            Ok(resp) => spec_dispatch(header@, parent_header@, metadata@, cj@) == Ok::<
                ResponseView,
                Error,
            >(resp@),
            Err(e) => spec_dispatch(header@, parent_header@, metadata@, cj@) == Err::<
                ResponseView,
                Error,
            >(e),
        },
{
    {
        let t = &header.msg_type;
        if crate::bytestr::str_eq(t.as_str(), "status") {
            match status_content_from_json(&cj) {
                Ok(content) => Ok(
                    Response::IoPub(
                        IoPubResponse::Status { header, parent_header, metadata, content },
                    ),
                ),
                Err(e) => Err(e),
            }
        } else if crate::bytestr::str_eq(t.as_str(), "execute_input") {
            match execute_input_from_json(&cj) {
                Ok(content) => Ok(
                    Response::IoPub(
                        IoPubResponse::ExecuteInput { header, parent_header, metadata, content },
                    ),
                ),
                Err(e) => Err(e),
            }
        } else if crate::bytestr::str_eq(t.as_str(), "stream") {
            match stream_from_json(&cj) {
                Ok(content) => Ok(
                    Response::IoPub(
                        IoPubResponse::Stream { header, parent_header, metadata, content },
                    ),
                ),
                Err(e) => Err(e),
            }
        } else if crate::bytestr::str_eq(t.as_str(), "error") {
            match error_content_from_json(&cj) {
                Ok(content) => Ok(
                    Response::IoPub(
                        IoPubResponse::Error { header, parent_header, metadata, content },
                    ),
                ),
                Err(e) => Err(e),
            }
        } else if crate::bytestr::str_eq(t.as_str(), "execute_result") {
            match execute_result_from_json(&cj) {
                Ok(content) => Ok(
                    Response::IoPub(
                        IoPubResponse::ExecuteResult { header, parent_header, metadata, content },
                    ),
                ),
                Err(e) => Err(e),
            }
        } else if crate::bytestr::str_eq(t.as_str(), "display_data") {
            match display_data_from_json(&cj) {
                Ok(content) => Ok(
                    Response::IoPub(
                        IoPubResponse::DisplayData { header, parent_header, metadata, content },
                    ),
                ),
                Err(e) => Err(e),
            }
        } else if crate::bytestr::str_eq(t.as_str(), "clear_output") {
            match clear_output_from_json(&cj) {
                Ok(content) => Ok(
                    Response::IoPub(
                        IoPubResponse::ClearOutput { header, parent_header, metadata, content },
                    ),
                ),
                Err(e) => Err(e),
            }
        } else {
            let msg_type = header.msg_type.clone();
            Ok(Response::Unknown { msg_type, content: cj })
        }
    }
}


} // verus!
