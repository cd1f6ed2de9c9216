//! JSON documents, as `serde_json` holds them.
//!
//! A document is a `serde_json::Value`. The client never looks inside one
//! itself: it asks `serde_json` through the functions of this module, whose
//! contracts are taken on trust from that crate's source.

use vstd::prelude::*;

verus! {

/// A JSON document of `serde_json`.
#[verifier::external_type_specification]
#[verifier::external_body]
pub struct ExJsonValue(serde_json::Value);

/// The error of `serde_json`.
#[verifier::external_type_specification]
#[verifier::external_body]
pub struct ExJsonError(serde_json::Error);

/// The document that `serde_json::from_str` reads from a text, `None` where it
/// refuses the text.
pub uninterp spec fn json_parsed(text: Seq<char>) -> Option<serde_json::Value>;

/// The members of a document that is an object, by name; no members for any
/// other document.
pub uninterp spec fn json_fields(document: serde_json::Value) -> Map<Seq<char>, serde_json::Value>;

/// The elements of a document that is an array, in order; `None` for any other
/// document.
pub uninterp spec fn json_items(document: serde_json::Value) -> Option<Seq<serde_json::Value>>;

/// The texts of a document that is an array of strings, in order; `None` for
/// any other document.
pub uninterp spec fn json_text_list(document: serde_json::Value) -> Option<Seq<Seq<char>>>;

/// `Clone` of `serde_json::Value` is derived: the copy is the same document.
pub assume_specification[ <serde_json::Value as Clone>::clone ](document: &serde_json::Value) -> (copy:
    serde_json::Value)
    ensures
        copy == *document,
;

/// Calls `serde_json::from_str` for a `Value`. It reads the text as one JSON
/// document and fails on any other text; the contract names the document.
#[verifier::external_body]
pub(crate) fn parse_json(text: &str) -> (parsed: Result<serde_json::Value, serde_json::Error>)
    ensures
        match parsed {
            Ok(document) => json_parsed(text@) == Some(document),
            Err(_) => json_parsed(text@) is None,
        },
{
    serde_json::from_str::<serde_json::Value>(text)
}

/// Calls `Value::get` with a name. For an object that has a member of that
/// name it gives the member, for every other document `None`.
#[verifier::external_body]
pub(crate) fn json_get<'a>(document: &'a serde_json::Value, name: &str) -> (member: Option<
    &'a serde_json::Value,
>)
    ensures
        match member {
            Some(found) => json_fields(*document).contains_key(name@) && *found == json_fields(
                *document,
            )[name@],
            None => !json_fields(*document).contains_key(name@),
        },
{
    document.get(name)
}

/// Calls `Value::as_array`. For an array it gives the vector of its elements,
/// for every other document `None`.
#[verifier::external_body]
pub(crate) fn json_as_array<'a>(document: &'a serde_json::Value) -> (items: Option<
    &'a Vec<serde_json::Value>,
>)
    ensures
        match items {
            Some(found) => json_items(*document) == Some(found@),
            None => json_items(*document) is None,
        },
{
    document.as_array()
}

/// Calls `serde_json::from_value` for a `Vec<String>` on a copy of the
/// document. It succeeds on an array whose elements are all strings; the
/// contract names the list.
#[verifier::external_body]
pub(crate) fn json_to_text_list(document: &serde_json::Value) -> (list: Result<
    Vec<String>,
    serde_json::Error,
>)
    ensures
        match list {
            Ok(found) => json_text_list(*document) == Some(crate::text::texts(found@)),
            Err(_) => json_text_list(*document) is None,
        },
{
    serde_json::from_value::<Vec<String>>(document.clone())
}

/// Writes a `serde_json::Error` as text, through its `Display`. Nothing is
/// promised of the wording.
#[verifier::external_body]
pub(crate) fn json_error_text(error: &serde_json::Error) -> (text: String) {
    error.to_string()
}

} // verus!
