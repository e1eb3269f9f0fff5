//! The boundary to `serde_json`: the JSON document type is kept as it is and
//! used through a handful of calls whose behaviour is assumed, not proved.

use vstd::prelude::*;

verus! {

/// `serde_json::Value`, an opaque JSON document.
#[verifier::external_type_specification]
#[verifier::external_body]
pub struct ExJsonValue(serde_json::Value);

/// `serde_json::Error`, carried through unchanged.
#[verifier::external_type_specification]
#[verifier::external_body]
pub struct ExJsonError(serde_json::Error);

/// Whether a document is a JSON object, as `Value::is_object` reports it.
pub uninterp spec fn json_is_object(v: serde_json::Value) -> bool;

/// The members of a JSON object, by key.
pub uninterp spec fn json_members(v: serde_json::Value) -> Map<Seq<char>, serde_json::Value>;

/// The text of a JSON string, as `Value::as_str` reports it.
pub uninterp spec fn json_text(v: serde_json::Value) -> Option<Seq<char>>;

/// The value of a non-negative JSON integer, as `Value::as_u64` reports it.
pub uninterp spec fn json_unsigned(v: serde_json::Value) -> Option<u64>;

/// The value of a JSON boolean, as `Value::as_bool` reports it.
pub uninterp spec fn json_flag(v: serde_json::Value) -> Option<bool>;

/// Whether a document is an object with a member under `key`.
pub open spec fn json_has_member(v: serde_json::Value, key: Seq<char>) -> bool {
    json_is_object(v) && json_members(v).contains_key(key)
}

/// The member of an object under `key`; nothing where the document is no
/// object or has no such member.
pub open spec fn field(v: serde_json::Value, key: Seq<char>) -> Option<serde_json::Value> {
    if json_has_member(v, key) {
        Some(json_members(v)[key])
    } else {
        None
    }
}

/// The text of the string member under `key`.
pub open spec fn text_field(v: serde_json::Value, key: Seq<char>) -> Option<Seq<char>> {
    match field(v, key) {
        Some(m) => json_text(m),
        None => None,
    }
}

/// The value of the integer member under `key`.
pub open spec fn unsigned_field(v: serde_json::Value, key: Seq<char>) -> Option<u64> {
    match field(v, key) {
        Some(m) => json_unsigned(m),
        None => None,
    }
}

/// The value of the boolean member under `key`.
pub open spec fn flag_field(v: serde_json::Value, key: Seq<char>) -> Option<bool> {
    match field(v, key) {
        Some(m) => json_flag(m),
        None => None,
    }
}

/// Builds `Value::Object` over `serde_json::Map::new()`: an object without
/// members.
#[verifier::external_body]
pub(crate) fn new_object() -> (r: serde_json::Value)
    ensures
        json_is_object(r),
        json_members(r) == (Map::<Seq<char>, serde_json::Value>::empty()),
{
    serde_json::Value::Object(serde_json::Map::new())
}

/// Assigns through `IndexMut<&str>` of `Value`. On an object this inserts the
/// member or replaces the one already under `key`; every other member stays.
/// The call panics on arrays and scalars, which `requires` leaves out.
#[verifier::external_body]
pub(crate) fn set_member(object: &mut serde_json::Value, key: &str, value: serde_json::Value)
    requires
        json_is_object(*old(object)),
    ensures
        json_is_object(*final(object)),
        json_members(*final(object)) == json_members(*old(object)).insert(key@, value),
{
    object[key] = value;
}

/// Calls `Value::get` with a string key: the member under `key` if the
/// document is an object that has one, `None` otherwise.
#[verifier::external_body]
pub(crate) fn member<'a>(v: &'a serde_json::Value, key: &str) -> (r: Option<&'a serde_json::Value>)
    ensures
        r is Some <==> json_has_member(*v, key@),
        r matches Some(m) ==> *m == json_members(*v)[key@],
{
    v.get(key)
}

/// Calls `Value::is_object`.
#[verifier::external_body]
pub(crate) fn is_object(v: &serde_json::Value) -> (r: bool)
    ensures
        r == json_is_object(*v),
{
    v.is_object()
}

/// Calls `Value::from(String)`, which builds `Value::String`.
#[verifier::external_body]
pub(crate) fn string_value(s: String) -> (r: serde_json::Value)
    ensures
        json_text(r) == Some(s@),
        !json_is_object(r),
        json_unsigned(r) is None,
        json_flag(r) is None,
{
    serde_json::Value::from(s)
}

/// Calls `Value::from(u64)`, which builds a non-negative `Value::Number`.
#[verifier::external_body]
pub(crate) fn unsigned_value(n: u64) -> (r: serde_json::Value)
    ensures
        json_unsigned(r) == Some(n),
        !json_is_object(r),
        json_text(r) is None,
        json_flag(r) is None,
{
    serde_json::Value::from(n)
}

/// Calls `Value::from(bool)`, which builds `Value::Bool`.
#[verifier::external_body]
pub(crate) fn flag_value(b: bool) -> (r: serde_json::Value)
    ensures
        json_flag(r) == Some(b),
        !json_is_object(r),
        json_text(r) is None,
        json_unsigned(r) is None,
{
    serde_json::Value::from(b)
}

/// Calls `Value::as_str`: the text of a JSON string, `None` for anything else.
#[verifier::external_body]
pub(crate) fn text_of<'a>(v: &'a serde_json::Value) -> (r: Option<&'a str>)
    ensures
        r is Some <==> json_text(*v) is Some,
        r matches Some(s) ==> json_text(*v) == Some(s@),
{
    v.as_str()
}

/// Calls `Value::as_u64`: the value of a non-negative integer that fits 64
/// bits, `None` for anything else.
#[verifier::external_body]
pub(crate) fn unsigned_of(v: &serde_json::Value) -> (r: Option<u64>)
    ensures
        r == json_unsigned(*v),
{
    v.as_u64()
}

/// Calls `Value::as_bool`: the value of a JSON boolean, `None` for anything
/// else.
#[verifier::external_body]
pub(crate) fn flag_of(v: &serde_json::Value) -> (r: Option<bool>)
    ensures
        r == json_flag(*v),
{
    v.as_bool()
}

/// Calls `Value::clone`, a deep copy.
#[verifier::external_body]
pub(crate) fn clone_value(v: &serde_json::Value) -> (r: serde_json::Value)
    ensures
        r == *v,
{
    v.clone()
}

/// What a text parses to as JSON, as `serde_json::from_str` reports it:
/// the document, or nothing where the text is no JSON.
pub uninterp spec fn json_parsed(text: Seq<char>) -> Option<serde_json::Value>;

/// The elements of a JSON array, as `Value::as_array` reports them.
pub uninterp spec fn json_elements(v: serde_json::Value) -> Option<Seq<serde_json::Value>>;

/// Calls `serde_json::from_str` for a `Value`: the document the text
/// stands for, or the parser's error.
#[verifier::external_body]
pub(crate) fn parse(text: &str) -> (r: Result<serde_json::Value, serde_json::Error>)
    ensures
        r is Ok <==> json_parsed(text@) is Some,
        r matches Ok(v) ==> json_parsed(text@) == Some(v),
{
    serde_json::from_str::<serde_json::Value>(text)
}

/// Calls `Value::as_array`: the elements of a JSON array, `None` for
/// anything else.
#[verifier::external_body]
pub(crate) fn elements<'a>(v: &'a serde_json::Value) -> (r: Option<&'a Vec<serde_json::Value>>)
    ensures
        r is Some <==> json_elements(*v) is Some,
        r matches Some(items) ==> json_elements(*v) == Some(items@),
{
    v.as_array()
}

} // verus!
