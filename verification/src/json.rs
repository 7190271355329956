//! JSON bodies: decoding a response, reading a member of a document and
//! building the parameters of a request.
//!
//! JSON values are `serde_json`'s. What its functions answer is named here
//! and taken on trust; what is done with the answers is this module's own.

use crate::error::{ClientError, ClientErrorView, ErrorKind};
use crate::text::{show_bytes, shown, text_of_bytes, utf8_text};
use vstd::prelude::*;
use vstd::string::StringExecFns;

verus! {

/// `serde_json::Value`, a JSON value.
#[verifier::external_type_specification]
#[verifier::external_body]
pub struct ExValue(serde_json::Value);

/// `serde_json::Error`, the reason a text was refused as JSON.
#[verifier::external_type_specification]
#[verifier::external_body]
pub struct ExJsonError(serde_json::Error);

/// `serde_json::Map`, the members of a JSON object.
#[verifier::external_type_specification]
#[verifier::external_body]
#[verifier::reject_recursive_types(K)]
#[verifier::reject_recursive_types(V)]
pub struct ExJsonMap<K, V>(serde_json::Map<K, V>);

/// The JSON value that `bytes` spell; `None` where they spell none.
pub uninterp spec fn json_decoded(bytes: Seq<u8>) -> Option<serde_json::Value>;

/// The member `key` of a JSON value; `None` where the value is no object or
/// the object has no such member.
pub uninterp spec fn json_member(value: serde_json::Value, key: Seq<char>) -> Option<
    serde_json::Value,
>;

/// The text of a JSON value that is a string; `None` for every other value.
pub uninterp spec fn json_string(value: serde_json::Value) -> Option<Seq<char>>;

/// The JSON string with the given text.
pub uninterp spec fn json_text_value(text: Seq<char>) -> serde_json::Value;

/// The JSON array with the given items.
pub uninterp spec fn json_array_value(items: Seq<serde_json::Value>) -> serde_json::Value;

/// The JSON object with the given members.
pub uninterp spec fn json_object_value(
    members: Map<Seq<char>, serde_json::Value>,
) -> serde_json::Value;

/// The members that a `serde_json::Map` holds, by their names.
pub uninterp spec fn json_members(map: serde_json::Map<String, serde_json::Value>) -> Map<
    Seq<char>,
    serde_json::Value,
>;

/// The members of an object that has none.
pub open spec fn no_members() -> Map<Seq<char>, serde_json::Value> {
    Map::empty()
}

/// The text in which `serde_json` writes a JSON value.
pub uninterp spec fn json_rendered(value: serde_json::Value) -> Seq<char>;

/// `serde_json::from_slice` at the type `Value`: whether the bytes are
/// accepted, and what value they give, depends on the bytes alone.
#[verifier::external_body]
fn decode_json(bytes: &[u8]) -> (r: Result<serde_json::Value, serde_json::Error>)
    ensures
        match r {
            Ok(value) => json_decoded(bytes@) == Some(value),
            Err(_) => json_decoded(bytes@) is None,
        },
{
    serde_json::from_slice::<serde_json::Value>(bytes)
}

/// `Value::get` with a string index: the member of that name.
#[verifier::external_body]
fn json_get<'a>(value: &'a serde_json::Value, key: &str) -> (member: Option<&'a serde_json::Value>)
    ensures
        match member {
            Some(m) => json_member(*value, key@) == Some(*m),
            None => json_member(*value, key@) is None,
        },
{
    value.get(key)
}

/// `Value::as_str`: the text of a string, nothing for another value.
pub assume_specification<'a>[ serde_json::Value::as_str ](value: &'a serde_json::Value) -> (text:
    Option<&'a str>)
    ensures
        match text {
            Some(t) => json_string(*value) == Some(t@),
            None => json_string(*value) is None,
        },
;

/// `Value::String`: the JSON string with this text.
#[verifier::external_body]
fn json_text(text: String) -> (value: serde_json::Value)
    ensures
        value == json_text_value(text@),
{
    serde_json::Value::String(text)
}

/// `Value::Array`: the JSON array with these items, in this order.
#[verifier::external_body]
fn json_array(items: Vec<serde_json::Value>) -> (value: serde_json::Value)
    ensures
        value == json_array_value(items@),
{
    serde_json::Value::Array(items)
}

/// `Value::Object`: the JSON object with the members of the map.
#[verifier::external_body]
fn json_object(map: serde_json::Map<String, serde_json::Value>) -> (value: serde_json::Value)
    ensures
        value == json_object_value(json_members(map)),
{
    serde_json::Value::Object(map)
}

/// `Map::new`: a map without members.
pub assume_specification[ serde_json::Map::<String, serde_json::Value>::new ]() -> (fresh:
    serde_json::Map<String, serde_json::Value>)
    ensures
        json_members(fresh) == no_members(),
;

/// `Map::insert`: the member is set, in place of an earlier one of its name,
/// which is handed back.
pub assume_specification[ serde_json::Map::<String, serde_json::Value>::insert ](
    map: &mut serde_json::Map<String, serde_json::Value>,
    k: String,
    v: serde_json::Value,
) -> (earlier: Option<serde_json::Value>)
    ensures
        json_members(*final(map)) == json_members(*old(map)).insert(k@, v),
        earlier == (if json_members(*old(map)).contains_key(k@) {
            Some(json_members(*old(map))[k@])
        } else {
            None
        }),
;

/// `Map::clone`: a map with the same members.
pub assume_specification[ <serde_json::Map<String, serde_json::Value> as Clone>::clone ](
    map: &serde_json::Map<String, serde_json::Value>,
) -> (copy: serde_json::Map<String, serde_json::Value>)
    ensures
        json_members(copy) == json_members(*map),
;

/// The `Display` text of a `Value`, which is the value written as JSON.
#[verifier::external_body]
fn json_render(value: &serde_json::Value) -> (text: String)
    ensures
        text@ == json_rendered(*value),
{
    value.to_string()
}

/// The text of the error for a body that is not JSON: the body is attached.
pub open spec fn not_json_text(body: Seq<char>) -> Seq<char> {
    "Failed to parse JSON: "@ + body
}

/// The words of the error for a body that is not even UTF-8; the bytes of
/// the body follow them.
pub open spec fn not_utf8_body_text() -> Seq<char> {
    "API seems to have returned non-UTF8 garbage"@
}

/// The error for a body that could not be decoded. It carries the body: as
/// text where the body is UTF-8, else byte by byte in hexadecimal.
pub open spec fn decode_failure_spec(body: Seq<u8>) -> ClientErrorView {
    ClientErrorView {
        kind: ErrorKind::Decode,
        message: match utf8_text(body) {
            Some(text) => not_json_text(text),
            None => not_utf8_body_text() + "; "@ + shown(body),
        },
    }
}

/// What a response body decodes to. An empty body is the empty array.
pub open spec fn body_json(body: Seq<u8>) -> Result<serde_json::Value, ClientErrorView> {
    if body.len() == 0 {
        Ok(json_array_value(Seq::empty()))
    } else {
        match json_decoded(body) {
            Some(value) => Ok(value),
            None => Err(decode_failure_spec(body)),
        }
    }
}

/// A decoded body, or the view of the error.
pub open spec fn json_outcome(r: Result<serde_json::Value, ClientError>) -> Result<
    serde_json::Value,
    ClientErrorView,
> {
    match r {
        Ok(value) => Ok(value),
        Err(e) => Err(e@),
    }
}

/// The error for a body that could not be decoded: it carries the body, as
/// text where the body is text, else byte by byte in hexadecimal.
pub fn decode_failure(body: &[u8]) -> (e: ClientError)
    ensures
        e@ == decode_failure_spec(body@),
{
    match text_of_bytes(body) {
        Some(text) => {
            let mut message: String = "Failed to parse JSON: ".to_owned();
            message.append(text);
            ClientError::with_text(ErrorKind::Decode, message)
        },
        None => {
            let mut message: String = "API seems to have returned non-UTF8 garbage".to_owned();
            let bytes: String = show_bytes(body);
            message.append("; ");
            message.append(bytes.as_str());
            ClientError::with_text(ErrorKind::Decode, message)
        },
    }
}

/// Decodes a response body to JSON. An empty body stands for the empty
/// array; a body that is no JSON is a decode error.
pub fn response_to_json(body: &[u8]) -> (r: Result<serde_json::Value, ClientError>)
    ensures
        json_outcome(r) == body_json(body@),
{
    if body.len() == 0 {
        return Ok(json_array(Vec::new()));
    }
    match decode_json(body) {
        Ok(value) => Ok(value),
        Err(_) => Err(decode_failure(body)),
    }
}

/// The pages of a walk as one JSON array.
pub fn pages_to_json(pages: Vec<serde_json::Value>) -> (value: serde_json::Value)
    ensures
        value == json_array_value(pages@),
{
    json_array(pages)
}

/// The text of the member `key` of `document`: `None` where there is no such
/// member, `Some(None)` where the member is no string.
pub open spec fn member_text(document: serde_json::Value, key: Seq<char>) -> Option<
    Option<Seq<char>>,
> {
    match json_member(document, key) {
        Some(member) => Some(json_string(member)),
        None => None,
    }
}

/// The member `key` of `document`, if it has one.
pub fn member<'a>(document: &'a serde_json::Value, key: &str) -> (found: Option<
    &'a serde_json::Value,
>)
    ensures
        match found {
            Some(m) => json_member(*document, key@) == Some(*m),
            None => json_member(*document, key@) is None,
        },
{
    json_get(document, key)
}

/// The parameters of a request, by their names: they make the JSON object
/// that is the body of the request.
#[derive(Debug)]
pub struct JsonParams(serde_json::Map<String, serde_json::Value>);

impl View for JsonParams {
    type V = Map<Seq<char>, serde_json::Value>;

    closed spec fn view(&self) -> Map<Seq<char>, serde_json::Value> {
        json_members(self.0)
    }
}

impl Clone for JsonParams {
    fn clone(&self) -> (copy: JsonParams)
        ensures
            copy@ == self@,
    {
        JsonParams(self.0.clone())
    }
}

impl From<serde_json::Map<String, serde_json::Value>> for JsonParams {
    fn from(v: serde_json::Map<String, serde_json::Value>) -> (params: JsonParams) {
        JsonParams(v)
    }
}

impl vstd::std_specs::convert::FromSpecImpl<serde_json::Map<String, serde_json::Value>> for JsonParams {
    open spec fn obeys_from_spec() -> bool {
        true
    }

    closed spec fn from_spec(v: serde_json::Map<String, serde_json::Value>) -> JsonParams {
        JsonParams(v)
    }
}

impl JsonParams {
    /// The parameters that a map of members makes.
    pub fn from_map(map: serde_json::Map<String, serde_json::Value>) -> (params: JsonParams)
        ensures
            params@ == json_members(map),
    {
        JsonParams::from(map)
    }

    /// Parameters without a member.
    pub fn new() -> (params: JsonParams)
        ensures
            params@ == no_members(),
    {
        JsonParams(serde_json::Map::new())
    }

    /// Sets the parameter `name` to the JSON value `value`.
    pub fn insert(&mut self, name: &str, value: serde_json::Value)
        ensures
            final(self)@ == old(self)@.insert(name@, value),
    {
        let _ = self.0.insert(name.to_owned(), value);
    }

    /// Sets the parameter `name` to the JSON string with the text `text`.
    pub fn insert_text(&mut self, name: &str, text: &str)
        ensures
            final(self)@ == old(self)@.insert(name@, json_text_value(text@)),
    {
        self.insert(name, json_text(text.to_owned()));
    }

    /// The map of members that the parameters hold.
    pub fn into_map(self) -> (map: serde_json::Map<String, serde_json::Value>)
        ensures
            json_members(map) == self@,
    {
        self.0
    }

    /// The parameters written as a JSON object.
    pub fn to_text(&self) -> (text: String)
        ensures
            text@ == json_rendered(json_object_value(self@)),
    {
        let value = json_object(self.0.clone());
        json_render(&value)
    }
}

} // verus!
