//! Reading the members of a parsed JSON document.

use vstd::prelude::*;

verus! {

/// A JSON document, as the crate `serde_json` has it. What is inside is read
/// through the two calls below and through nothing else.
#[verifier::external_type_specification]
#[verifier::external_body]
pub struct ExValue(serde_json::Value);

/// The members of a JSON object by key: for each key the text of its value
/// where that value is a string, and `None` where it is anything else. A
/// document that is no object has no members.
pub uninterp spec fn json_members(document: serde_json::Value) -> Map<Seq<char>, Option<Seq<char>>>;

/// The text of a JSON value that is a string, `None` for any other value.
pub uninterp spec fn json_text(value: serde_json::Value) -> Option<Seq<char>>;

/// Calls `Value::get` of the crate `serde_json` with a string key. It returns
/// the member stored under that key where the document is an object that has
/// one, else `None`.
#[verifier::external_body]
fn member<'a>(document: &'a serde_json::Value, key: &str) -> (found: Option<&'a serde_json::Value>)
    ensures
        found.is_some() == json_members(*document).contains_key(key@),
        found matches Some(value) ==> json_text(*value) == json_members(*document)[key@],
{
    document.get(key)
}

/// Calls `Value::as_str` of the crate `serde_json`: the text of a string
/// value, `None` for a value of any other kind.
#[verifier::external_body]
fn text<'a>(value: &'a serde_json::Value) -> (found: Option<&'a str>)
    ensures
        found.is_some() == json_text(*value).is_some(),
        found matches Some(s) ==> json_text(*value) == Some(s@),
{
    value.as_str()
}

/// The text stored under `key` in `document`, if `document` is an object with
/// such a member and the member is a string.
pub open spec fn string_member_of(document: serde_json::Value, key: Seq<char>) -> Option<Seq<char>> {
    if json_members(document).contains_key(key) {
        json_members(document)[key]
    } else {
        None
    }
}

/// Reads the string stored under `key` in `document`.
pub fn string_member(document: &serde_json::Value, key: &str) -> (found: Option<String>)
    ensures
        found.is_some() == string_member_of(*document, key@).is_some(),
        found matches Some(s) ==> string_member_of(*document, key@) == Some(s@),
{
    match member(document, key) {
        None => None,
        Some(value) => match text(value) {
            None => None,
            Some(s) => Some(s.to_owned()),
        },
    }
}

} // verus!
