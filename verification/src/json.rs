//! JSON documents as text: reading a text member of a document and bringing
//! a document into its compact form. The parsing itself is `serde_json`'s.

use crate::views::opt_text;
use vstd::prelude::*;

verus! {

/// What `serde_json` finds under `key` in a document: `None` where the
/// document is not JSON; `Some(None)` where it is, but holds no text under
/// that key; else the text.
pub uninterp spec fn json_text_member(document: Seq<char>, key: Seq<char>) -> Option<
    Option<Seq<char>>,
>;

/// The compact form that `serde_json` gives a document, or `None` where the
/// document is not JSON.
pub uninterp spec fn json_compact(document: Seq<char>) -> Option<Seq<char>>;

/// Parses `document` with `serde_json::from_str` into a `serde_json::Value`,
/// indexes the value by `key` and reads what it finds with `Value::as_str`.
///
/// Nothing is claimed of the outcome but that it depends on the two texts
/// alone.
#[verifier::external_body]
pub(crate) fn text_member(document: &str, key: &str) -> (r: Option<Option<String>>)
    ensures
        r is Some <==> json_text_member(document@, key@) is Some,
        r is Some ==> opt_text(r.unwrap()) == json_text_member(document@, key@).unwrap(),
{
    match serde_json::from_str::<serde_json::Value>(document) {
        Ok(value) => Some(value[key].as_str().map(String::from)),
        Err(_) => None,
    }
}

/// Parses `document` with `serde_json::from_str` into a `serde_json::Value`
/// and writes the value out again with `serde_json::to_string`.
///
/// Nothing is claimed of the outcome but that it depends on the text alone.
#[verifier::external_body]
pub(crate) fn compact(document: &str) -> (r: Option<String>)
    ensures
        opt_text(r) == json_compact(document@),
{
    match serde_json::from_str::<serde_json::Value>(document) {
        Ok(value) => serde_json::to_string(&value).ok(),
        Err(_) => None,
    }
}

} // verus!
