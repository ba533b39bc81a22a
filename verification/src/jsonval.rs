//! Trusted boundary to serde_json.
//!
//! The decoders walk a parsed JSON document through the narrow accessors
//! below. A `serde_json::Value` is opaque to the verifier, so what a
//! document contains is not modeled; but every accessor is a pure function
//! of its arguments, so each result carries a name — `json_doc_of`,
//! `json_member_of`, and so on — and the decoders' contracts are stated
//! over those names. Nothing further is assumed of them.

use vstd::prelude::*;

use serde_json::Value;

verus! {

#[verifier::external_type_specification]
#[verifier::external_body]
pub struct ExValue(serde_json::Value);

#[verifier::external_type_specification]
#[verifier::external_body]
pub struct ExJsonError(serde_json::Error);

/// The document a text parses to, if it is JSON.
pub uninterp spec fn json_doc_of(s: Seq<char>) -> Option<Value>;

/// The member of an object under a key, if there is one.
pub uninterp spec fn json_member_of(v: Value, key: Seq<char>) -> Option<Value>;

/// The text of a JSON string value.
pub uninterp spec fn json_str_of(v: Value) -> Option<Seq<char>>;

/// The value of a JSON integer, where it fits `i64`.
pub uninterp spec fn json_i64_of(v: Value) -> Option<i64>;

/// The value of a JSON boolean.
pub uninterp spec fn json_bool_of(v: Value) -> Option<bool>;

/// The elements of a JSON array value.
pub uninterp spec fn json_array_of(v: Value) -> Option<Seq<Value>>;

/// Relies on serde_json::from_str: parses a JSON document, or reports why
/// the text is not one. The result depends on the text alone.
#[verifier::external_body]
pub(crate) fn json_from_str(s: &str) -> (r: Result<Value, serde_json::Error>)
    ensures
        match r {
            Ok(v) => json_doc_of(s@) == Some(v),
            Err(_) => json_doc_of(s@) is None,
        },
{
    serde_json::from_str::<Value>(s)
}

/// Relies on serde_json::Value::get: the member of an object under a key,
/// if there is one. The result depends on the value and the key alone.
#[verifier::external_body]
pub(crate) fn json_get<'a>(v: &'a Value, key: &str) -> (r: Option<&'a Value>)
    ensures
        match r {
            Some(m) => json_member_of(*v, key@) == Some(*m),
            None => json_member_of(*v, key@) is None,
        },
{
    v.get(key)
}

/// Relies on serde_json::Value::as_str: the text of a JSON string, if the
/// value is one.
#[verifier::external_body]
pub(crate) fn json_as_str<'a>(v: &'a Value) -> (r: Option<&'a str>)
    ensures
        match r {
            Some(s) => json_str_of(*v) == Some(s@),
            None => json_str_of(*v) is None,
        },
{
    v.as_str()
}

/// Relies on serde_json::Value::as_i64: the value of a JSON integer, if it
/// fits `i64`.
#[verifier::external_body]
pub(crate) fn json_as_i64(v: &Value) -> (r: Option<i64>)
    ensures
        r == json_i64_of(*v),
{
    v.as_i64()
}

/// Relies on serde_json::Value::as_bool: the value of a JSON boolean, if
/// the value is one.
#[verifier::external_body]
pub(crate) fn json_as_bool(v: &Value) -> (r: Option<bool>)
    ensures
        r == json_bool_of(*v),
{
    v.as_bool()
}

/// Relies on serde_json::Value::as_array: the elements of a JSON array, if
/// the value is one.
#[verifier::external_body]
pub(crate) fn json_as_array<'a>(v: &'a Value) -> (r: Option<&'a Vec<Value>>)
    ensures
        match r {
            Some(a) => json_array_of(*v) == Some(a@),
            None => json_array_of(*v) is None,
        },
{
    v.as_array()
}

/// Relies on serde_json::Value's Clone: the copy is structurally equal to
/// the original, so a decoder can hand a payload on unmodified.
#[verifier::external_body]
pub(crate) fn json_clone(v: &Value) -> (r: Value)
    ensures
        r == *v,
{
    v.clone()
}

} // verus!
