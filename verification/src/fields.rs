//! Reading the members of a JSON object.

use crate::json::{
    doc_of, map_get, members_of, object_member, text_member, value_as_object, value_as_str,
};
use vstd::prelude::*;

verus! {

/// The view of a text that may be missing.
pub open spec fn optional_text(text: Option<String>) -> Option<Seq<char>> {
    match text {
        Some(text) => Some(text@),
        None => None,
    }
}

/// The text that a map holds under a key, as an owned string.
pub(crate) fn text_field(map: &serde_json::Map<String, serde_json::Value>, key: &str) -> (text:
    Option<String>)
    ensures
        optional_text(text) == text_member(members_of(*map), key@),
{
    match map_get(map, key) {
        Some(value) => match value_as_str(value) {
            Some(text) => Some(text.to_owned()),
            None => None,
        },
        None => None,
    }
}

/// The object that a map holds under a key.
pub(crate) fn object_field<'a>(
    map: &'a serde_json::Map<String, serde_json::Value>,
    key: &str,
) -> (inner: Option<&'a serde_json::Map<String, serde_json::Value>>)
    ensures
        match object_member(members_of(*map), key@) {
            Some(members) => inner matches Some(m) && members_of(*m) == members,
            None => inner is None,
        },
{
    match map_get(map, key) {
        Some(value) => value_as_object(value),
        None => None,
    }
}

} // verus!
