//! The JSON documents the session works on, and the calls into `serde_json`
//! that read them. Nothing in this file is proved: each item states what the
//! parser is relied on to do.

use vstd::prelude::*;

verus! {

/// `serde_json::Value`, a parsed JSON document. The session never looks inside
/// one; it stores, copies and hands them on.
#[verifier::external_type_specification]
#[verifier::external_body]
pub struct ExValue(serde_json::Value);

/// `serde_json::Error`, the parser's diagnostic.
#[verifier::external_type_specification]
#[verifier::external_body]
pub struct ExJsonError(serde_json::Error);

/// `serde_json::Map`, the members of a JSON object. With the features this
/// crate builds `serde_json` with, it keeps its keys in sorted order.
#[verifier::external_type_specification]
#[verifier::external_body]
#[verifier::reject_recursive_types(K)]
#[verifier::reject_recursive_types(V)]
pub struct ExJsonMap<K, V>(serde_json::Map<K, V>);

/// The members that a `serde_json::Map` holds, by key.
pub uninterp spec fn object_members(object: serde_json::Map<String, serde_json::Value>) -> Map<
    Seq<char>,
    serde_json::Value,
>;

/// An object without members.
pub open spec fn no_members() -> Map<Seq<char>, serde_json::Value> {
    Map::empty()
}

/// The JSON string document `Value::String` of a text.
pub uninterp spec fn string_document(text: Seq<char>) -> serde_json::Value;

/// What `serde_json::to_string` writes for an object of the given members:
/// the compact JSON text, or the error with which it gives up.
pub uninterp spec fn object_text(members: Map<Seq<char>, serde_json::Value>) -> Result<
    Seq<char>,
    serde_json::Error,
>;

/// What `serde_json::from_str` makes of a text: the document, or the
/// diagnostic with which it turns the text down.
pub uninterp spec fn parsed_text(text: Seq<char>) -> Result<serde_json::Value, serde_json::Error>;

/// What `serde_json::from_slice` makes of a sequence of bytes.
pub uninterp spec fn parsed_bytes(bytes: Seq<u8>) -> Result<serde_json::Value, serde_json::Error>;

/// The line a `serde_json::Error` prints: the parser's message and, where it
/// has one, the position.
pub uninterp spec fn diagnostic_text(error: serde_json::Error) -> Seq<char>;

/// `<serde_json::Value as Clone>::clone`: the copy is the same document.
pub assume_specification[ <serde_json::Value as Clone>::clone ](v: &serde_json::Value) -> (r:
    serde_json::Value)
    ensures
        r == *v,
;

/// Calls `serde_json::from_str` for a `Value`. The result depends on the text
/// alone, so it is given the name `parsed_text`.
#[verifier::external_body]
pub(crate) fn parse_text(text: &str) -> (r: Result<serde_json::Value, serde_json::Error>)
    ensures
        r == parsed_text(text@),
{
    serde_json::from_str::<serde_json::Value>(text)
}

/// Calls `serde_json::from_slice` for a `Value`. The result depends on the
/// bytes alone, so it is given the name `parsed_bytes`.
#[verifier::external_body]
pub(crate) fn parse_bytes(bytes: &[u8]) -> (r: Result<serde_json::Value, serde_json::Error>)
    ensures
        r == parsed_bytes(bytes@),
{
    serde_json::from_slice::<serde_json::Value>(bytes)
}

/// Prints a `serde_json::Error` through its `Display` impl. The line depends
/// on the error alone, so it is given the name `diagnostic_text`.
#[verifier::external_body]
pub(crate) fn diagnostic(error: &serde_json::Error) -> (r: String)
    ensures
        r@ == diagnostic_text(*error),
{
    error.to_string()
}

/// Calls `serde_json::Map::new`: an object without members.
#[verifier::external_body]
pub(crate) fn new_object() -> (r: serde_json::Map<String, serde_json::Value>)
    ensures
        object_members(r) == no_members(),
{
    serde_json::Map::new()
}

/// Calls `serde_json::Map::insert`: the member is added, or replaces the one
/// of the same key; the other members stay.
#[verifier::external_body]
pub(crate) fn object_insert(
    object: &mut serde_json::Map<String, serde_json::Value>,
    key: String,
    value: serde_json::Value,
)
    ensures
        object_members(*final(object)) == object_members(*old(object)).insert(key@, value),
{
    object.insert(key, value);
}

/// Wraps a text in `serde_json::Value::String`.
#[verifier::external_body]
pub(crate) fn string_value(text: String) -> (document: serde_json::Value)
    ensures
        document == string_document(text@),
{
    serde_json::Value::String(text)
}

/// Calls `serde_json::to_string` on an object. The keys are written in
/// sorted order, so the text depends on the members alone and is given the
/// name `object_text`.
#[verifier::external_body]
pub(crate) fn object_to_text(object: &serde_json::Map<String, serde_json::Value>) -> (r: Result<
    String,
    serde_json::Error,
>)
    ensures
        match (r, object_text(object_members(*object))) {
            (Ok(text), Ok(named)) => text@ == named,
            (Err(error), Err(named)) => error == named,
            _ => false,
        },
{
    serde_json::to_string(object)
}

} // verus!
