//! JSON documents, through serde_json.

use vstd::prelude::*;

verus! {

/// serde_json's document type, carried through unopened.
#[verifier::external_type_specification]
#[verifier::external_body]
pub struct ExValue(serde_json::Value);

/// The document a JSON text parses to, if it is JSON.
pub uninterp spec fn json_parse(text: Seq<char>) -> Option<serde_json::Value>;

/// The part of a document a JSON Pointer (`/a/0`) leads to, if any.
pub uninterp spec fn json_pointer(doc: serde_json::Value, path: Seq<char>) -> Option<
    serde_json::Value,
>;

/// The text a JSON string value holds; `None` for any other value.
pub uninterp spec fn json_as_str(v: serde_json::Value) -> Option<Seq<char>>;

/// Relies on serde_json's derived `Clone` for `Value`: the copy is the same
/// document.
pub assume_specification[ <serde_json::Value as Clone>::clone ](v: &serde_json::Value) -> (r:
    serde_json::Value)
    ensures
        r == *v,
;

/// Relies on `serde_json::from_str::<Value>`: the document the text parses
/// to, or `None` where it is not JSON.
#[verifier::external_body]
pub(crate) fn parse_json(text: &str) -> (r: Option<serde_json::Value>)
    ensures
        r == json_parse(text@),
{
    serde_json::from_str::<serde_json::Value>(text).ok()
}

/// Relies on `serde_json::Value::pointer`: the part the pointer leads to,
/// copied out.
#[verifier::external_body]
pub(crate) fn pointer_value(doc: &serde_json::Value, path: &str) -> (r: Option<serde_json::Value>)
    ensures
        r == json_pointer(*doc, path@),
{
    doc.pointer(path).cloned()
}

/// Relies on `serde_json::Value::as_str`: the text of a string value.
#[verifier::external_body]
pub(crate) fn value_text(v: &serde_json::Value) -> (r: Option<String>)
    ensures
        r matches Some(t) ==> json_as_str(*v) == Some(t@),
        r is None ==> json_as_str(*v) is None,
{
    match v.as_str() {
        Some(t) => Some(t.to_string()),
        None => None,
    }
}

/// Whether the JSON Pointer `path` leads anywhere in `json_data`.
pub fn json_path_exists(json_data: &serde_json::Value, path: &str) -> (r: bool)
    ensures
        r == json_pointer(*json_data, path@) is Some,
{
    pointer_value(json_data, path).is_some()
}

} // verus!
