//! Fields of JSON documents, as the `serde_json` crate reads them.

use vstd::prelude::*;

verus! {

/// What `serde_json::from_str` says against a text; nothing, where it is a document.
pub uninterp spec fn json_fault(json: Seq<char>) -> Option<Seq<char>>;

/// The text in a field of a document: nothing where there is no document, no such
/// field, or no text in it.
pub uninterp spec fn json_text(json: Seq<char>, key: Seq<char>) -> Option<Seq<char>>;

/// The truth value in a field of a document.
pub uninterp spec fn json_bool(json: Seq<char>, key: Seq<char>) -> Option<bool>;

/// The items of the array in a field of a document; those that are no texts are
/// nothing.
pub uninterp spec fn json_items(json: Seq<char>, key: Seq<char>) -> Option<Seq<Option<Seq<char>>>>;

/// The entries of the object in a field of a document, with their keys; those that
/// are no texts are nothing.
pub uninterp spec fn json_entries(json: Seq<char>, key: Seq<char>) -> Option<
    Seq<(Seq<char>, Option<Seq<char>>)>,
>;

/// The view of an item.
pub open spec fn item_view(item: Option<String>) -> Option<Seq<char>> {
    match item {
        Some(s) => Some(s@),
        None => None,
    }
}

/// `serde_json::from_str`: what is wrong with the text, in the words of the error.
#[verifier::external_body]
pub(crate) fn read_fault(json: &str) -> (r: Option<String>)
    ensures
        item_view(r) == json_fault(json@),
{
    match serde_json::from_str::<serde_json::Value>(json) {
        Ok(_) => None,
        Err(e) => Some(e.to_string()),
    }
}

/// `Value::as_str` of a field of the document that `serde_json::from_str` reads.
#[verifier::external_body]
pub(crate) fn read_text(json: &str, key: &str) -> (r: Option<String>)
    ensures
        item_view(r) == json_text(json@, key@),
{
    let value = serde_json::from_str::<serde_json::Value>(json).ok()?;
    value[key].as_str().map(|s| s.to_string())
}

/// `Value::as_bool` of a field of the document that `serde_json::from_str` reads.
#[verifier::external_body]
pub(crate) fn read_bool(json: &str, key: &str) -> (r: Option<bool>)
    ensures
        r == json_bool(json@, key@),
{
    let value = serde_json::from_str::<serde_json::Value>(json).ok()?;
    value[key].as_bool()
}

/// `Value::as_array` of a field of the document that `serde_json::from_str` reads,
/// with `Value::as_str` of each item.
#[verifier::external_body]
pub(crate) fn read_items(json: &str, key: &str) -> (r: Option<Vec<Option<String>>>)
    ensures
        match json_items(json@, key@) {
            Some(items) => r matches Some(v) && v@.map_values(|i: Option<String>| item_view(i))
                == items,
            None => r is None,
        },
{
    let value = serde_json::from_str::<serde_json::Value>(json).ok()?;
    let items = value[key].as_array()?;
    Some(items.iter().map(|v| v.as_str().map(|s| s.to_string())).collect())
}

/// `Value::as_object` of a field of the document that `serde_json::from_str` reads,
/// with `Value::as_str` of each entry.
#[verifier::external_body]
pub(crate) fn read_entries(json: &str, key: &str) -> (r: Option<Vec<(String, Option<String>)>>)
    ensures
        match json_entries(json@, key@) {
            Some(entries) => r matches Some(v) && v@.map_values(
                |e: (String, Option<String>)| (e.0@, item_view(e.1)),
            ) == entries,
            None => r is None,
        },
{
    let value = serde_json::from_str::<serde_json::Value>(json).ok()?;
    let object = value[key].as_object()?;
    Some(object.iter().map(|(k, v)| (k.clone(), v.as_str().map(|s| s.to_string()))).collect())
}

} // verus!
