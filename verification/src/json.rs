//! What a run reads out of the JSON bodies that the service sends.

use vstd::prelude::*;

verus! {

/// What reading `body` as JSON with `serde_json::from_slice` and then taking
/// the member `key` of the document as a string gives: the string, or `None`
/// where the body is not JSON, the document is no object, it has no such
/// member, or the member is no string.
pub uninterp spec fn json_string_member(body: Seq<u8>, key: Seq<char>) -> Option<Seq<char>>;

/// The compact rendering, as `serde_json::Value` displays itself, of the
/// document that `serde_json::from_slice` reads out of `body`; `None` where
/// the body is not JSON.
pub uninterp spec fn json_rendering(body: Seq<u8>) -> Option<Seq<char>>;

/// Parses the body with `serde_json::from_slice` into a `serde_json::Value`,
/// indexes the value by `key` and asks the member for its string with
/// `Value::as_str`. Indexing a value that is no object, or by a key it does
/// not have, gives JSON null, for which `as_str` gives `None`. The parser is
/// far too long to restate, so the contract only names the result.
#[verifier::external_body]
pub(crate) fn string_member(body: &[u8], key: &str) -> (member: Option<String>)
    ensures
        member.deep_view() == json_string_member(body@, key@),
{
    match serde_json::from_slice::<serde_json::Value>(body) {
        Ok(document) => match document[key].as_str() {
            Some(text) => Some(text.to_string()),
            None => None,
        },
        Err(_) => None,
    }
}

/// Parses the body with `serde_json::from_slice` into a `serde_json::Value`
/// and renders it with the value's `to_string`, which writes compact JSON.
/// Parser and printer are far too long to restate, so the contract only names
/// the result.
#[verifier::external_body]
pub(crate) fn rendering(body: &[u8]) -> (text: Option<String>)
    ensures
        text.deep_view() == json_rendering(body@),
{
    match serde_json::from_slice::<serde_json::Value>(body) {
        Ok(document) => Some(document.to_string()),
        Err(_) => None,
    }
}

} // verus!
