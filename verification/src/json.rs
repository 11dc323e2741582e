//! A structural model of JSON documents, and the trusted boundary to the
//! `serde_json` crate.
//!
//! The reconcilers and the config-sync daemon treat policy content and
//! administrative CLI replies as JSON documents. Parsing and printing are
//! done by `serde_json`; everything that reads a parsed document goes through
//! the accessors here, whose contracts are stated over the document model
//! `Jv`, so the record-decoding logic itself is verified.

use vstd::prelude::*;

verus! {

/// Mathematical model of a JSON document.
///
/// Numbers that `serde_json` stores as integers are modelled exactly;
/// numbers it stores as floating point are modelled by a canonical rendering
/// that identifies exactly the numbers that compare equal.
pub enum Jv {
    Null,
    Bool(bool),
    Int(int),
    Float(Seq<char>),
    Str(Seq<char>),
    Arr(Seq<Jv>),
    Obj(Map<Seq<char>, Jv>),
}

#[verifier::external_type_specification]
#[verifier::external_body]
pub struct ExValue(serde_json::Value);

/// The document a `serde_json::Value` holds.
pub uninterp spec fn json_model(v: serde_json::Value) -> Jv;

/// The document that parsing a string yields, or `None` when the string is
/// not valid JSON.
pub uninterp spec fn json_parse(s: Seq<char>) -> Option<Jv>;

/// Relies on `serde_json::from_str::<Value>`: whether a string parses, and
/// to what document, depends on the string alone.
#[verifier::external_body]
pub(crate) fn parse_json(s: &str) -> (r: Option<serde_json::Value>)
    ensures
        r is Some <==> json_parse(s@) is Some,
        r matches Some(v) ==> json_model(v) == json_parse(s@).unwrap(),
{
    serde_json::from_str(s).ok()
}

/// Relies on `<serde_json::Value as PartialEq>::eq`: equality of two values
/// is structural equality of the documents they hold.
#[verifier::external_body]
pub(crate) fn value_eq(a: &serde_json::Value, b: &serde_json::Value) -> (r: bool)
    ensures
        r == (json_model(*a) == json_model(*b)),
{
    a == b
}

/// Relies on `serde_json::to_string` on a `Value`: printing cannot fail for
/// a `Value`, and parsing the printed text back yields the same document.
#[verifier::external_body]
pub(crate) fn value_to_string(v: &serde_json::Value) -> (r: String)
    ensures
        json_parse(r@) == Some(json_model(*v)),
{
    serde_json::to_string(v).unwrap_or_default()
}

/// Relies on `serde_json::Value::get` with a string key: a lookup among the
/// members of an object, `None` for any other kind of document.
#[verifier::external_body]
pub(crate) fn value_get<'a>(v: &'a serde_json::Value, key: &str) -> (r: Option<&'a serde_json::Value>)
    ensures
        match json_model(*v) {
            Jv::Obj(m) => {
                &&& r is Some <==> m.dom().contains(key@)
                &&& (r matches Some(x) ==> m.dom().contains(key@) && json_model(*x) == m[key@])
            },
            _ => r is None,
        },
{
    v.get(key)
}

/// Relies on `serde_json::Value::as_u64`: the numeric value when the
/// document is an integer representable as `u64`, `None` otherwise.
#[verifier::external_body]
pub(crate) fn value_as_u64(v: &serde_json::Value) -> (r: Option<u64>)
    ensures
        match json_model(*v) {
            Jv::Int(i) => r == if 0 <= i <= u64::MAX {
                Some(i as u64)
            } else {
                None::<u64>
            },
            _ => r is None,
        },
{
    v.as_u64()
}

/// Relies on `serde_json::Value::as_str`: the text when the document is a
/// string, `None` otherwise.
#[verifier::external_body]
pub(crate) fn value_as_str<'a>(v: &'a serde_json::Value) -> (r: Option<&'a str>)
    ensures
        match json_model(*v) {
            Jv::Str(s) => r matches Some(x) && x@ == s,
            _ => r is None,
        },
{
    v.as_str()
}

/// Relies on `serde_json::Value::as_bool`: the truth value when the document
/// is a boolean, `None` otherwise.
#[verifier::external_body]
pub(crate) fn value_as_bool(v: &serde_json::Value) -> (r: Option<bool>)
    ensures
        match json_model(*v) {
            Jv::Bool(b) => r == Some(b),
            _ => r is None,
        },
{
    v.as_bool()
}

/// Relies on `serde_json::Value::is_null`: whether the document is the null
/// document.
#[verifier::external_body]
pub(crate) fn value_is_null(v: &serde_json::Value) -> (r: bool)
    ensures
        r == (json_model(*v) is Null),
{
    v.is_null()
}

/// Relies on `serde_json::Value::as_array`: the elements when the document
/// is an array, `None` otherwise.
#[verifier::external_body]
pub(crate) fn value_as_array<'a>(v: &'a serde_json::Value) -> (r: Option<&'a Vec<serde_json::Value>>)
    ensures
        match json_model(*v) {
            Jv::Arr(elems) => {
                &&& r is Some
                &&& (r matches Some(a) ==> a@.len() == elems.len() && forall|i: int|
                    0 <= i < elems.len() ==> json_model(a@[i]) == elems[i])
            },
            _ => r is None,
        },
{
    v.as_array()
}

} // verus!
