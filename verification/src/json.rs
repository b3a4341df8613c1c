//! The JSON boundary: documents as mathematical values, and the calls into
//! `serde_json` that parse, read, build and print them.
//!
//! Every exec function in this file is a thin call into `serde_json`; its
//! contract is taken on trust from that crate's documentation and source. The
//! rest of the library is verified against these contracts.

use vstd::prelude::*;

verus! {

/// A JSON document as a mathematical value. An object lists its members in
/// the order in which they were inserted.
pub enum JsonDoc {
    Null,
    Bool(bool),
    /// A number, by the literal that stands for it in JSON text.
    Number(Seq<char>),
    Text(Seq<char>),
    Array(Seq<JsonDoc>),
    Object(Seq<(Seq<char>, JsonDoc)>),
}

/// The value that `members` holds under `key`. A JSON object holds a key at
/// most once, so there is at most one to find.
pub open spec fn member(members: Seq<(Seq<char>, JsonDoc)>, key: Seq<char>) -> Option<JsonDoc>
    decreases members.len(),
{
    if members.len() == 0 {
        None
    } else if members.last().0 == key {
        Some(members.last().1)
    } else {
        member(members.drop_last(), key)
    }
}

/// The text that `members` holds under `key`, if it holds a string there.
pub open spec fn text_member(members: Seq<(Seq<char>, JsonDoc)>, key: Seq<char>) -> Option<
    Seq<char>,
> {
    match member(members, key) {
        Some(JsonDoc::Text(text)) => Some(text),
        _ => None,
    }
}

/// The members of the object that `members` holds under `key`, if it holds an
/// object there.
pub open spec fn object_member(members: Seq<(Seq<char>, JsonDoc)>, key: Seq<char>) -> Option<
    Seq<(Seq<char>, JsonDoc)>,
> {
    match member(members, key) {
        Some(JsonDoc::Object(inner)) => Some(inner),
        _ => None,
    }
}

/// Looking a key up after one more member was appended.
pub proof fn lemma_member_push(
    members: Seq<(Seq<char>, JsonDoc)>,
    key: Seq<char>,
    value: JsonDoc,
    wanted: Seq<char>,
)
    ensures
        member(members.push((key, value)), wanted) == if key == wanted {
            Some(value)
        } else {
            member(members, wanted)
        },
{
    assert(members.push((key, value)).drop_last() =~= members);
}

#[verifier::external_type_specification]
#[verifier::external_body]
pub struct ExValue(serde_json::Value);

#[verifier::external_type_specification]
#[verifier::external_body]
#[verifier::reject_recursive_types(K)]
#[verifier::reject_recursive_types(V)]
pub struct ExMap<K, V>(serde_json::Map<K, V>);

#[verifier::external_type_specification]
#[verifier::external_body]
pub struct ExError(serde_json::Error);

/// The document that a `serde_json::Value` holds.
pub uninterp spec fn doc_of(value: serde_json::Value) -> JsonDoc;

/// The members of a `serde_json::Map`, in the map's own order.
pub uninterp spec fn members_of(map: serde_json::Map<String, serde_json::Value>) -> Seq<
    (Seq<char>, JsonDoc),
>;

/// What `serde_json::from_str` makes of a text: the document it reads, or the
/// message of the error it reports.
pub uninterp spec fn parsed(text: Seq<char>) -> Result<JsonDoc, Seq<char>>;

/// The message that a `serde_json::Error` displays.
pub uninterp spec fn error_text(error: serde_json::Error) -> Seq<char>;

/// The compact JSON text that `serde_json` prints for a document.
pub uninterp spec fn json_text(doc: JsonDoc) -> Seq<char>;

/// The documents that a sequence of values holds, one for one.
pub open spec fn docs_of(values: Seq<serde_json::Value>) -> Seq<JsonDoc> {
    values.map_values(|value: serde_json::Value| doc_of(value))
}

/// `serde_json::from_str` at type `Value`: parses a JSON text. The outcome is
/// a function of the text alone, which `parsed` names: either the value read,
/// or the error whose message `parsed` gives.
#[verifier::external_body]
pub(crate) fn parse_value(text: &str) -> (outcome: Result<serde_json::Value, serde_json::Error>)
    ensures
        match outcome {
            Ok(value) => parsed(text@) == Ok::<JsonDoc, Seq<char>>(doc_of(value)),
            Err(error) => parsed(text@) == Err::<JsonDoc, Seq<char>>(error_text(error)),
        },
{
    serde_json::from_str::<serde_json::Value>(text)
}

/// `Display` of `serde_json::Error`, through `to_string`: the error's message,
/// with line and column where it has them.
#[verifier::external_body]
pub(crate) fn error_message(error: &serde_json::Error) -> (message: String)
    ensures
        message@ == error_text(*error),
{
    error.to_string()
}

/// `serde_json::Value::as_object`: the map of an object, nothing for any other
/// kind of value.
#[verifier::external_body]
pub(crate) fn value_as_object<'a>(value: &'a serde_json::Value) -> (map: Option<
    &'a serde_json::Map<String, serde_json::Value>,
>)
    ensures
        match doc_of(*value) {
            JsonDoc::Object(members) => map matches Some(m) && members_of(*m) == members,
            _ => map is None,
        },
{
    value.as_object()
}

/// `serde_json::Value::as_array`: the items of an array, nothing for any other
/// kind of value.
#[verifier::external_body]
pub(crate) fn value_as_array<'a>(value: &'a serde_json::Value) -> (items: Option<
    &'a Vec<serde_json::Value>,
>)
    ensures
        match doc_of(*value) {
            JsonDoc::Array(docs) => items matches Some(v) && docs_of(v@) == docs,
            _ => items is None,
        },
{
    value.as_array()
}

/// `serde_json::Value::as_str`: the text of a string, nothing for any other
/// kind of value.
#[verifier::external_body]
pub(crate) fn value_as_str<'a>(value: &'a serde_json::Value) -> (text: Option<&'a str>)
    ensures
        match doc_of(*value) {
            JsonDoc::Text(s) => text matches Some(t) && t@ == s,
            _ => text is None,
        },
{
    value.as_str()
}

/// `serde_json::Map::get`: the value stored under a key, nothing where the map
/// has no such key.
#[verifier::external_body]
pub(crate) fn map_get<'a>(
    map: &'a serde_json::Map<String, serde_json::Value>,
    key: &str,
) -> (value: Option<&'a serde_json::Value>)
    ensures
        match member(members_of(*map), key@) {
            Some(doc) => value matches Some(v) && doc_of(*v) == doc,
            None => value is None,
        },
{
    map.get(key)
}

/// `serde_json::Map::new`: a map without members.
#[verifier::external_body]
pub(crate) fn map_new() -> (map: serde_json::Map<String, serde_json::Value>)
    ensures
        members_of(map) == Seq::<(Seq<char>, JsonDoc)>::empty(),
{
    serde_json::Map::new()
}

/// `serde_json::Map::insert` of a key that the map does not hold yet: the new
/// member comes last in the map's order. (The map keeps insertion order: the
/// library builds `serde_json` with its feature `preserve_order`.)
#[verifier::external_body]
pub(crate) fn map_insert(
    map: &mut serde_json::Map<String, serde_json::Value>,
    key: String,
    value: serde_json::Value,
)
    requires
        member(members_of(*old(map)), key@) is None,
    ensures
        members_of(*final(map)) == members_of(*old(map)).push((key@, doc_of(value))),
{
    map.insert(key, value);
}

/// The variant `serde_json::Value::String`: the string value of a text.
#[verifier::external_body]
pub(crate) fn text_value(text: String) -> (value: serde_json::Value)
    ensures
        doc_of(value) == JsonDoc::Text(text@),
{
    serde_json::Value::String(text)
}

/// The variant `serde_json::Value::Object`: the object of a map's members.
#[verifier::external_body]
pub(crate) fn object_value(map: serde_json::Map<String, serde_json::Value>) -> (value:
    serde_json::Value)
    ensures
        doc_of(value) == JsonDoc::Object(members_of(map)),
{
    serde_json::Value::Object(map)
}

/// The variant `serde_json::Value::Array`: the array of the given items.
#[verifier::external_body]
pub(crate) fn array_value(items: Vec<serde_json::Value>) -> (value: serde_json::Value)
    ensures
        doc_of(value) == JsonDoc::Array(docs_of(items@)),
{
    serde_json::Value::Array(items)
}

/// `Display` of `serde_json::Value`, through `to_string`: the value as
/// compact JSON text, which `json_text` names.
#[verifier::external_body]
pub(crate) fn value_text(value: &serde_json::Value) -> (text: String)
    ensures
        text@ == json_text(doc_of(*value)),
{
    value.to_string()
}

} // verus!
