//! The library's JSON representation.
//!
//! Frames on the wire hold JSON documents. Inbound frames are parsed by
//! serde_json behind a trusted wrapper and handed to verified code as a
//! [`JsonValue`]; everything the decoder then does with the document is
//! verified against the value's mathematical view, [`JsonView`]. Outbound
//! documents are emitted byte for byte by verified code in `commands` and
//! `header`, so no serializer is trusted on the way out.
//!
//! Numbers are carried as their literal text: the protocol's numeric fields
//! are integers, and the decoder reads them with the verified parser in
//! `decimal`.

use vstd::prelude::*;

verus! {

use crate::bytestr::str_eq;
use crate::decimal::spec_parse_i64;
use crate::decimal::spec_parse_u64;
use crate::decimal::parse_i64;
use crate::decimal::parse_u64;
use vstd::utf8::encode_utf8;

/// A JSON document, as handed to the decoder.
pub enum JsonValue {
    Null,
    Bool(bool),
    /// The number's literal text, e.g. the two bytes of `46`.
    Num(Vec<u8>),
    Str(String),
    Arr(Vec<JsonValue>),
    Obj(Vec<(String, JsonValue)>),
}

/// The mathematical shape of a JSON document: what contracts speak of.
pub enum JsonView {
    Null,
    Bool(bool),
    Num(Seq<u8>),
    Str(Seq<char>),
    Arr(Seq<JsonView>),
    Obj(Seq<(Seq<char>, JsonView)>),
}

pub open spec fn json_view(v: JsonValue) -> JsonView
    decreases v,
{
    match v {
        JsonValue::Null => JsonView::Null,
        JsonValue::Bool(b) => JsonView::Bool(b),
        JsonValue::Num(d) => JsonView::Num(d@),
        JsonValue::Str(s) => JsonView::Str(s@),
        JsonValue::Arr(items) => JsonView::Arr(view_items(items@)),
        JsonValue::Obj(fields) => JsonView::Obj(view_fields(fields@)),
    }
}

pub open spec fn view_items(items: Seq<JsonValue>) -> Seq<JsonView>
    decreases items,
{
    if items.len() == 0 {
        Seq::empty()
    } else {
        seq![json_view(items[0])] + view_items(items.drop_first())
    }
}

pub open spec fn view_fields(fields: Seq<(String, JsonValue)>) -> Seq<(Seq<char>, JsonView)>
    decreases fields,
{
    if fields.len() == 0 {
        Seq::empty()
    } else {
        seq![(fields[0].0@, json_view(fields[0].1))] + view_fields(fields.drop_first())
    }
}

impl View for JsonValue {
    type V = JsonView;

    open spec fn view(&self) -> JsonView {
        json_view(*self)
    }
}

pub proof fn lemma_view_items_len(items: Seq<JsonValue>)
    ensures
        view_items(items).len() == items.len(),
    decreases items,
{
    if items.len() > 0 {
        lemma_view_items_len(items.drop_first());
    }
}

pub proof fn lemma_view_items_index(items: Seq<JsonValue>, i: int)
    requires
        0 <= i < items.len(),
    ensures
        view_items(items).len() == items.len(),
        view_items(items)[i] == json_view(items[i]),
    decreases items,
{
    lemma_view_items_len(items);
    if i > 0 {
        lemma_view_items_index(items.drop_first(), i - 1);
    }
}

pub proof fn lemma_view_fields_len(fields: Seq<(String, JsonValue)>)
    ensures
        view_fields(fields).len() == fields.len(),
    decreases fields,
{
    if fields.len() > 0 {
        lemma_view_fields_len(fields.drop_first());
    }
}

pub proof fn lemma_view_fields_index(fields: Seq<(String, JsonValue)>, i: int)
    requires
        0 <= i < fields.len(),
    ensures
        view_fields(fields).len() == fields.len(),
        view_fields(fields)[i] == (fields[i].0@, json_view(fields[i].1)),
    decreases fields,
{
    lemma_view_fields_len(fields);
    if i > 0 {
        lemma_view_fields_index(fields.drop_first(), i - 1);
    }
}

/// Looks a key up in an object's field list; the first binding wins.
pub open spec fn spec_obj_get(fields: Seq<(Seq<char>, JsonView)>, key: Seq<char>) -> Option<
    JsonView,
>
    decreases fields.len(),
{
    if fields.len() == 0 {
        None
    } else if fields[0].0 == key {
        Some(fields[0].1)
    } else {
        spec_obj_get(fields.drop_first(), key)
    }
}

/// The field named `key` of a document, when the document is an object
/// that has such a field.
pub open spec fn jv_get(j: JsonView, key: Seq<char>) -> Option<JsonView> {
    match j {
        JsonView::Obj(fields) => spec_obj_get(fields, key),
        _ => None,
    }
}

/// The characters of a document, when it is a string.
pub open spec fn jv_str(j: JsonView) -> Option<Seq<char>> {
    match j {
        JsonView::Str(s) => Some(s),
        _ => None,
    }
}

/// The value of a document, when it is a boolean.
pub open spec fn jv_bool(j: JsonView) -> Option<bool> {
    match j {
        JsonView::Bool(b) => Some(b),
        _ => None,
    }
}

/// The value of a document, when it is a number whose literal is an
/// integer that fits in an `i64`.
pub open spec fn jv_i64(j: JsonView) -> Option<i64> {
    match j {
        JsonView::Num(d) => spec_parse_i64(d),
        _ => None,
    }
}

/// The value of a document, when it is a number whose literal is an
/// unsigned integer that fits in a `u64`.
pub open spec fn jv_u64(j: JsonView) -> Option<u64> {
    match j {
        JsonView::Num(d) => spec_parse_u64(d),
        _ => None,
    }
}

pub open spec fn opt_ref_view(r: Option<&JsonValue>) -> Option<JsonView> {
    match r {
        Some(v) => Some(json_view(*v)),
        None => None,
    }
}

impl JsonValue {
    /// True when the document is the empty object `{}`.
    pub fn is_empty_object(&self) -> (r: bool)
        ensures
            r == (self@ == JsonView::Obj(Seq::<(Seq<char>, JsonView)>::empty())),
    {
        match self {
            JsonValue::Obj(fields) => {
                let r = fields.len() == 0;
                proof {
                    lemma_view_fields_len(fields@);
                    if r {
                        assert(view_fields(fields@) =~= Seq::<(Seq<char>, JsonView)>::empty());
                    }
                }
                r
            },
            _ => false,
        }
    }

    /// The field named `key`, when this document is an object holding one.
    pub fn get<'a>(&'a self, key: &str) -> (r: Option<&'a JsonValue>)
        ensures
            opt_ref_view(r) == jv_get(self@, key@),
    {
        match self {
            JsonValue::Obj(fields) => obj_get(fields, key),
            _ => None,
        }
    }

    /// The string payload, when this document is a string.
    pub fn as_str<'a>(&'a self) -> (r: Option<&'a String>)
        ensures
            match r {
                Some(s) => jv_str(self@) == Some(s@),
                None => jv_str(self@) is None,
            },
    {
        match self {
            JsonValue::Str(s) => Some(s),
            _ => None,
        }
    }

    /// The boolean payload, when this document is a boolean.
    pub fn as_bool(&self) -> (r: Option<bool>)
        ensures
            r == jv_bool(self@),
    {
        match self {
            JsonValue::Bool(b) => Some(*b),
            _ => None,
        }
    }

    /// The numeric payload read as an `i64`, when this document is a
    /// number with an integral literal in range.
    pub fn as_i64(&self) -> (r: Option<i64>)
        ensures
            r == jv_i64(self@),
    {
        match self {
            JsonValue::Num(d) => parse_i64(d.as_slice()),
            _ => None,
        }
    }

    /// The numeric payload read as a `u64`, when this document is a
    /// number with an unsigned integral literal in range.
    pub fn as_u64(&self) -> (r: Option<u64>)
        ensures
            r == jv_u64(self@),
    {
        match self {
            JsonValue::Num(d) => parse_u64(d.as_slice()),
            _ => None,
        }
    }

    /// The element list, when this document is an array.
    pub fn as_arr<'a>(&'a self) -> (r: Option<&'a Vec<JsonValue>>)
        ensures
            match r {
                Some(items) => self@ == JsonView::Arr(view_items(items@)),
                None => !(self@ is Arr),
            },
    {
        match self {
            JsonValue::Arr(items) => Some(items),
            _ => None,
        }
    }

    /// The field list, when this document is an object.
    pub fn as_obj<'a>(&'a self) -> (r: Option<&'a Vec<(String, JsonValue)>>)
        ensures
            match r {
                Some(fields) => self@ == JsonView::Obj(view_fields(fields@)),
                None => !(self@ is Obj),
            },
    {
        match self {
            JsonValue::Obj(fields) => Some(fields),
            _ => None,
        }
    }
}

fn obj_get<'a>(fields: &'a Vec<(String, JsonValue)>, key: &str) -> (r: Option<&'a JsonValue>)
    ensures
        opt_ref_view(r) == spec_obj_get(view_fields(fields@), key@),
{
    let ghost vf = view_fields(fields@);
    let mut i: usize = 0;
    proof {
        lemma_view_fields_len(fields@);
        assert(vf.skip(0) =~= vf);
    }
    while i < fields.len()
        invariant
            0 <= i <= fields@.len(),
            vf == view_fields(fields@),
            vf.len() == fields@.len(),
            spec_obj_get(vf, key@) == spec_obj_get(vf.skip(i as int), key@),
        decreases fields@.len() - i,
    {
        proof {
            lemma_view_fields_index(fields@, i as int);
            assert(vf.skip(i as int)[0] == vf[i as int]);
        }
        if str_eq(fields[i].0.as_str(), key) {
            return Some(&fields[i].1);
        }
        proof {
            assert(vf.skip(i as int).drop_first() =~= vf.skip(i as int + 1));
        }
        i += 1;
    }
    proof {
        assert(vf.skip(i as int).len() == 0);
    }
    None
}

/// A string field of an object document.
pub open spec fn jv_get_str(j: JsonView, key: Seq<char>) -> Option<Seq<char>> {
    match jv_get(j, key) {
        Some(v) => jv_str(v),
        None => None,
    }
}

/// A boolean field of an object document.
pub open spec fn jv_get_bool(j: JsonView, key: Seq<char>) -> Option<bool> {
    match jv_get(j, key) {
        Some(v) => jv_bool(v),
        None => None,
    }
}

/// An integer field of an object document.
pub open spec fn jv_get_i64(j: JsonView, key: Seq<char>) -> Option<i64> {
    match jv_get(j, key) {
        Some(v) => jv_i64(v),
        None => None,
    }
}

/// An unsigned integer field of an object document.
pub open spec fn jv_get_u64(j: JsonView, key: Seq<char>) -> Option<u64> {
    match jv_get(j, key) {
        Some(v) => jv_u64(v),
        None => None,
    }
}

/// A required string field of a JSON object.
pub fn get_str_field<'a>(j: &'a JsonValue, key: &str) -> (r: Option<&'a String>)
    ensures
        match r {
            Some(s) => jv_get_str(j@, key@) == Some(s@),
            None => jv_get_str(j@, key@) is None,
        },
{
    match j.get(key) {
        Some(v) => v.as_str(),
        None => None,
    }
}

/// A required boolean field of a JSON object.
pub fn get_bool_field(j: &JsonValue, key: &str) -> (r: Option<bool>)
    ensures
        r == jv_get_bool(j@, key@),
{
    match j.get(key) {
        Some(v) => v.as_bool(),
        None => None,
    }
}

/// A required integer field of a JSON object.
pub fn get_i64_field(j: &JsonValue, key: &str) -> (r: Option<i64>)
    ensures
        r == jv_get_i64(j@, key@),
{
    match j.get(key) {
        Some(v) => v.as_i64(),
        None => None,
    }
}

/// A required unsigned integer field of a JSON object.
pub fn get_u64_field(j: &JsonValue, key: &str) -> (r: Option<u64>)
    ensures
        r == jv_get_u64(j@, key@),
{
    match j.get(key) {
        Some(v) => v.as_u64(),
        None => None,
    }
}

/// What a list of strings looks like: every element a string.
pub open spec fn spec_str_list(items: Seq<JsonView>) -> Option<Seq<Seq<char>>> {
    if forall|i: int| 0 <= i < items.len() ==> jv_str(#[trigger] items[i]) is Some {
        Some(Seq::new(items.len(), |i: int| jv_str(items[i])->0))
    } else {
        None
    }
}

/// Reads an array of strings; `None` when an element is not a string.
pub fn str_list_from(items: &Vec<JsonValue>) -> (r: Option<Vec<String>>)
    ensures
        match r {
            Some(v) => spec_str_list(view_items(items@)) == Some(v.deep_view()),
            None => spec_str_list(view_items(items@)) is None,
        },
{
    let ghost iv = view_items(items@);
    proof {
        lemma_view_items_len(items@);
    }
    let mut out: Vec<String> = Vec::new();
    let mut i: usize = 0;
    while i < items.len()
        invariant
            0 <= i <= items@.len(),
            iv == view_items(items@),
            iv.len() == items@.len(),
            out@.len() == i,
            forall|k: int|
                0 <= k < i ==> jv_str(#[trigger] iv[k]) is Some && jv_str(iv[k]) == Some(
                    out@[k]@,
                ),
        decreases items@.len() - i,
    {
        proof {
            lemma_view_items_index(items@, i as int);
        }
        match items[i].as_str() {
            Some(s) => {
                out.push(s.clone());
            },
            None => {
                return None;
            },
        }
        i += 1;
    }
    proof {
        assert(spec_str_list(iv) == Some(out.deep_view())) by {
            assert(forall|k: int| 0 <= k < iv.len() ==> jv_str(#[trigger] iv[k]) is Some);
            assert(spec_str_list(iv)->0 =~= out.deep_view());
        }
    }
    Some(out)
}

/// What an object of string values looks like: every field a string.
pub open spec fn spec_str_map(fields: Seq<(Seq<char>, JsonView)>) -> Option<
    Seq<(Seq<char>, Seq<char>)>,
> {
    if forall|i: int| 0 <= i < fields.len() ==> jv_str((#[trigger] fields[i]).1) is Some {
        Some(Seq::new(fields.len(), |i: int| (fields[i].0, jv_str(fields[i].1)->0)))
    } else {
        None
    }
}

/// Reads an object whose values are all strings; `None` when one is not.
pub fn str_map_from(fields: &Vec<(String, JsonValue)>) -> (r: Option<Vec<(String, String)>>)
    ensures
        match r {
            Some(v) => spec_str_map(view_fields(fields@)) == Some(v.deep_view()),
            None => spec_str_map(view_fields(fields@)) is None,
        },
{
    let ghost fv = view_fields(fields@);
    proof {
        lemma_view_fields_len(fields@);
    }
    let mut out: Vec<(String, String)> = Vec::new();
    let mut i: usize = 0;
    while i < fields.len()
        invariant
            0 <= i <= fields@.len(),
            fv == view_fields(fields@),
            fv.len() == fields@.len(),
            out@.len() == i,
            forall|k: int|
                0 <= k < i ==> jv_str((#[trigger] fv[k]).1) is Some && fv[k].0 == out@[k].0@
                    && jv_str(fv[k].1) == Some(out@[k].1@),
        decreases fields@.len() - i,
    {
        proof {
            lemma_view_fields_index(fields@, i as int);
        }
        match fields[i].1.as_str() {
            Some(s) => {
                out.push((fields[i].0.clone(), s.clone()));
            },
            None => {
                return None;
            },
        }
        i += 1;
    }
    proof {
        assert(spec_str_map(fv) == Some(out.deep_view())) by {
            assert(forall|k: int| 0 <= k < fv.len() ==> jv_str((#[trigger] fv[k]).1) is Some);
            assert(spec_str_map(fv)->0 =~~= out.deep_view());
        }
    }
    Some(out)
}

/// A deep copy of an array's elements, with the same views.
pub fn clone_items(items: &Vec<JsonValue>) -> (r: Vec<JsonValue>)
    ensures
        view_items(r@) == view_items(items@),
{
    let mut out: Vec<JsonValue> = Vec::new();
    let mut i: usize = 0;
    while i < items.len()
        invariant
            0 <= i <= items@.len(),
            out@.len() == i,
            forall|k: int| 0 <= k < i ==> json_view(#[trigger] out@[k]) == json_view(items@[k]),
        decreases items@.len() - i,
    {
        out.push(items[i].clone_value());
        i += 1;
    }
    proof {
        assert forall|k: int| 0 <= k < items@.len() implies view_items(out@)[k] == view_items(
            items@,
        )[k] by {
            lemma_view_items_index(out@, k);
            lemma_view_items_index(items@, k);
        }
        lemma_view_items_len(out@);
        lemma_view_items_len(items@);
        assert(view_items(out@) =~= view_items(items@));
    }
    out
}

/// A deep copy of an object's fields, with the same views.
pub fn clone_fields(fields: &Vec<(String, JsonValue)>) -> (r: Vec<(String, JsonValue)>)
    ensures
        view_fields(r@) == view_fields(fields@),
{
    let mut out: Vec<(String, JsonValue)> = Vec::new();
    let mut i: usize = 0;
    while i < fields.len()
        invariant
            0 <= i <= fields@.len(),
            out@.len() == i,
            forall|k: int|
                0 <= k < i ==> (#[trigger] out@[k]).0@ == fields@[k].0@ && json_view(out@[k].1)
                    == json_view(fields@[k].1),
        decreases fields@.len() - i,
    {
        let value = fields[i].1.clone_value();
        out.push((fields[i].0.clone(), value));
        i += 1;
    }
    proof {
        assert forall|k: int| 0 <= k < fields@.len() implies view_fields(out@)[k] == view_fields(
            fields@,
        )[k] by {
            lemma_view_fields_index(out@, k);
            lemma_view_fields_index(fields@, k);
        }
        lemma_view_fields_len(out@);
        lemma_view_fields_len(fields@);
        assert(view_fields(out@) =~= view_fields(fields@));
    }
    out
}

/// What parsing a byte string as JSON yields: `None` when the parser
/// rejects the bytes, otherwise the document they hold. Whether a byte
/// string parses, and to which document, is a function of the bytes
/// alone; nothing further is assumed about it.
pub uninterp spec fn json_parse(bytes: Seq<u8>) -> Option<JsonView>;

pub open spec fn opt_view(r: Option<JsonValue>) -> Option<JsonView> {
    match r {
        Some(v) => Some(json_view(v)),
        None => None,
    }
}

/// Relies on `serde_json::from_slice`: parsing is deterministic and
/// returns the single JSON document the bytes hold, or an error. The
/// parsed tree is handed over variant by variant through
/// `json_from_serde`.
#[verifier::external_body]
pub fn parse_json(bytes: &[u8]) -> (r: Option<JsonValue>)
    ensures
        opt_view(r) == json_parse(bytes@),
{
    match serde_json::from_slice::<serde_json::Value>(bytes) {
        Ok(v) => Some(json_from_serde(v)),
        Err(_) => None,
    }
}

#[verifier::external_type_specification]
#[verifier::external_body]
pub struct ExSerdeValue(serde_json::Value);

/// Relies on `serde_json::Value` and `serde_json::Number::to_string`: each
/// variant of the parsed document is carried over one to one, numbers as
/// their literal text. This is the conversion half of `parse_json` and is
/// called only from its body, so it promises nothing on its own.
#[verifier::external_body]
fn json_from_serde(v: serde_json::Value) -> JsonValue {
    match v {
        serde_json::Value::Null => JsonValue::Null,
        serde_json::Value::Bool(b) => JsonValue::Bool(b),
        serde_json::Value::Number(n) => JsonValue::Num(n.to_string().into_bytes()),
        serde_json::Value::String(s) => JsonValue::Str(s),
        serde_json::Value::Array(a) => JsonValue::Arr(
            a.into_iter().map(json_from_serde).collect(),
        ),
        serde_json::Value::Object(m) => JsonValue::Obj(
            m.into_iter().map(|(k, x)| (k, json_from_serde(x))).collect(),
        ),
    }
}

impl JsonValue {
    /// A deep copy of the document, with the same view.
    #[verifier::loop_isolation(false)]
    pub fn clone_value(&self) -> (r: JsonValue)
        ensures
            r@ == self@,
        decreases *self,
    {
        match self {
            JsonValue::Null => JsonValue::Null,
            JsonValue::Bool(b) => JsonValue::Bool(*b),
            JsonValue::Num(d) => {
                let mut out: Vec<u8> = Vec::new();
                out.extend_from_slice(d.as_slice());
                proof {
                    assert(out@ =~= d@);
                }
                JsonValue::Num(out)
            },
            JsonValue::Str(s) => JsonValue::Str(s.clone()),
            JsonValue::Arr(items) => {
                let mut out: Vec<JsonValue> = Vec::new();
                let mut i: usize = 0;
                while i < items.len()
                    invariant
                        0 <= i <= items@.len(),
                        out@.len() == i,
                        forall|k: int| 0 <= k < i ==> json_view(#[trigger] out@[k]) == json_view(
                            items@[k],
                        ),
                    decreases items@.len() - i,
                {
                    proof {
                        assert(decreases_to!(*self => (*self)->Arr_0));
                        assert(decreases_to!(*items => items@));
                        assert(decreases_to!(items@ => items@[i as int]));
                        assert(decreases_to!(*self => items@[i as int]));
                    }
                    out.push(items[i].clone_value());
                    i += 1;
                }
                proof {
                    assert forall|k: int| 0 <= k < items@.len() implies view_items(out@)[k]
                        == view_items(items@)[k] by {
                        lemma_view_items_index(out@, k);
                        lemma_view_items_index(items@, k);
                    }
                    lemma_view_items_len(out@);
                    lemma_view_items_len(items@);
                    assert(view_items(out@) =~= view_items(items@));
                }
                JsonValue::Arr(out)
            },
            JsonValue::Obj(fields) => {
                let mut out: Vec<(String, JsonValue)> = Vec::new();
                let mut i: usize = 0;
                while i < fields.len()
                    invariant
                        0 <= i <= fields@.len(),
                        out@.len() == i,
                        forall|k: int|
                            0 <= k < i ==> (#[trigger] out@[k]).0@ == fields@[k].0@ && json_view(
                                out@[k].1,
                            ) == json_view(fields@[k].1),
                    decreases fields@.len() - i,
                {
                    proof {
                        assert(decreases_to!(*self => (*self)->Obj_0));
                        assert(decreases_to!(*fields => fields@));
                        assert(decreases_to!(fields@ => fields@[i as int]));
                        assert(decreases_to!(fields@[i as int] => fields@[i as int].1));
                        assert(decreases_to!(*self => fields@[i as int].1));
                    }
                    let value = fields[i].1.clone_value();
                    out.push((fields[i].0.clone(), value));
                    i += 1;
                }
                proof {
                    assert forall|k: int| 0 <= k < fields@.len() implies view_fields(out@)[k]
                        == view_fields(fields@)[k] by {
                        lemma_view_fields_index(out@, k);
                        lemma_view_fields_index(fields@, k);
                    }
                    lemma_view_fields_len(out@);
                    lemma_view_fields_len(fields@);
                    assert(view_fields(out@) =~= view_fields(fields@));
                }
                JsonValue::Obj(out)
            },
        }
    }
}

/// A lowercase hexadecimal digit, as a byte.
pub open spec fn hex_digit(n: u8) -> u8 {
    if n < 10 {
        (48 + n) as u8
    } else {
        (87 + n) as u8
    }
}

/// How one byte of a string's UTF-8 text appears inside a JSON string
/// literal: quotes and backslashes get a two-byte escape, control bytes
/// the six-byte `\u00XX` form, and everything else stands as itself.
pub open spec fn esc_byte(b: u8) -> Seq<u8> {
    if b == 34 {
        seq![92u8, 34u8]
    } else if b == 92 {
        seq![92u8, 92u8]
    } else if b < 32 {
        seq![92u8, 117u8, 48u8, 48u8, hex_digit(b / 16), hex_digit(b % 16)]
    } else {
        seq![b]
    }
}

pub open spec fn esc_bytes(s: Seq<u8>) -> Seq<u8>
    decreases s.len(),
{
    if s.len() == 0 {
        Seq::empty()
    } else {
        esc_bytes(s.drop_last()) + esc_byte(s.last())
    }
}

/// The JSON string literal holding the text `s`: a quote, the escaped
/// UTF-8 bytes, a quote.
pub open spec fn json_string_bytes(s: Seq<char>) -> Seq<u8> {
    seq![34u8] + esc_bytes(encode_utf8(s)) + seq![34u8]
}

/// Appends the JSON string literal holding `s` to `out`.
pub fn push_json_string(out: &mut Vec<u8>, s: &str)
    ensures
        final(out)@ == old(out)@ + json_string_bytes(s@),
{
    out.push(34);
    let bs = s.as_bytes();
    let mut i: usize = 0;
    while i < bs.len()
        invariant
            0 <= i <= bs@.len(),
            bs@ == encode_utf8(s@),
            out@ == old(out)@ + seq![34u8] + esc_bytes(bs@.subrange(0, i as int)),
        decreases bs@.len() - i,
    {
        let b = bs[i];
        if b == 34 {
            out.push(92);
            out.push(34);
        } else if b == 92 {
            out.push(92);
            out.push(92);
        } else if b < 32 {
            out.push(92);
            out.push(117);
            out.push(48);
            out.push(48);
            let hi = b / 16;
            let lo = b % 16;
            out.push(if hi < 10 { 48 + hi } else { 87 + hi });
            out.push(if lo < 10 { 48 + lo } else { 87 + lo });
        } else {
            out.push(b);
        }
        i += 1;
        proof {
            assert(bs@.subrange(0, i as int).drop_last() =~= bs@.subrange(0, i as int - 1));
            assert(out@ =~= old(out)@ + seq![34u8] + esc_bytes(bs@.subrange(0, i as int)));
        }
    }
    out.push(34);
    proof {
        assert(bs@.subrange(0, bs@.len() as int) =~= bs@);
        assert(out@ =~= old(out)@ + json_string_bytes(s@));
    }
}

/// The JSON rendering of a boolean.
pub open spec fn bool_bytes(b: bool) -> Seq<u8> {
    if b {
        encode_utf8("true"@)
    } else {
        encode_utf8("false"@)
    }
}

/// Appends `true` or `false` to `out`.
pub fn push_bool(out: &mut Vec<u8>, b: bool)
    ensures
        final(out)@ == old(out)@ + bool_bytes(b),
{
    crate::bytestr::push_str_bytes(
        out,
        if b {
            "true"
        } else {
            "false"
        },
    );
}

/// One `"key":"value"` pair of a string-valued object.
pub open spec fn str_pair_bytes(e: (Seq<char>, Seq<char>)) -> Seq<u8> {
    json_string_bytes(e.0) + seq![58u8] + json_string_bytes(e.1)
}

pub open spec fn str_obj_inner(entries: Seq<(Seq<char>, Seq<char>)>) -> Seq<u8>
    decreases entries.len(),
{
    if entries.len() == 0 {
        Seq::empty()
    } else if entries.len() == 1 {
        str_pair_bytes(entries[0])
    } else {
        str_obj_inner(entries.drop_last()) + seq![44u8] + str_pair_bytes(entries.last())
    }
}

/// The JSON object whose fields are the given string pairs, in order. An
/// empty list renders as `{}`, never as nothing.
pub open spec fn str_obj_bytes(entries: Seq<(Seq<char>, Seq<char>)>) -> Seq<u8> {
    seq![123u8] + str_obj_inner(entries) + seq![125u8]
}

/// Appends the object of string pairs to `out`.
pub fn push_str_obj(out: &mut Vec<u8>, entries: &Vec<(String, String)>)
    ensures
        final(out)@ == old(out)@ + str_obj_bytes(entries.deep_view()),
{
    let ghost dv = entries.deep_view();
    out.push(123);
    let mut i: usize = 0;
    proof {
        assert(dv.subrange(0, 0) =~= Seq::<(Seq<char>, Seq<char>)>::empty());
        assert(out@ =~= old(out)@ + seq![123u8] + str_obj_inner(dv.subrange(0, 0)));
    }
    while i < entries.len()
        invariant
            0 <= i <= entries@.len(),
            dv == entries.deep_view(),
            dv.len() == entries@.len(),
            out@ == old(out)@ + seq![123u8] + str_obj_inner(dv.subrange(0, i as int)),
        decreases entries@.len() - i,
    {
        if i > 0 {
            out.push(44);
        }
        push_json_string(out, entries[i].0.as_str());
        out.push(58);
        push_json_string(out, entries[i].1.as_str());
        i += 1;
        proof {
            assert(dv[i - 1] == (entries@[i - 1].0@, entries@[i - 1].1@));
            assert(dv.subrange(0, i as int).drop_last() =~= dv.subrange(0, i as int - 1));
            assert(dv.subrange(0, i as int).last() == dv[i - 1]);
            assert(out@ =~= old(out)@ + seq![123u8] + str_obj_inner(dv.subrange(0, i as int)));
        }
    }
    out.push(125);
    proof {
        assert(dv.subrange(0, dv.len() as int) =~= dv);
        assert(out@ =~= old(out)@ + str_obj_bytes(dv));
    }
}

} // verus!
