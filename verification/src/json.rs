//! Trusted boundary to serde_json. Response bodies are opaque text; the crate
//! probes them only far enough to read single string members out of JSON
//! objects. Each probe's result is a named function of the document text and
//! the keys alone, so the callers' own contracts say exactly when they succeed
//! and what they return.

use vstd::prelude::*;

verus! {

/// The string member under `key` of the JSON document `s`: present exactly
/// when `s` parses as JSON whose top level is an object holding a string
/// under `key`, and then that string's characters. A function of the text and
/// the key alone.
pub uninterp spec fn json_str_field_of(s: Seq<char>, key: Seq<char>) -> Option<Seq<char>>;

/// [`json_str_field_of`], with absence read as the empty string.
pub open spec fn json_str_field_or_empty_of(s: Seq<char>, key: Seq<char>) -> Seq<char> {
    match json_str_field_of(s, key) {
        Some(v) => v,
        None => Seq::empty(),
    }
}

/// The string member at the object path `outer`, then `inner`, then `leaf` of
/// the JSON document `s`: present exactly when `s` parses and each step of
/// the path leads through an object member to, finally, a string. A function
/// of the text and the keys alone.
pub uninterp spec fn json_nested_str_of(
    s: Seq<char>,
    outer: Seq<char>,
    inner: Seq<char>,
    leaf: Seq<char>,
) -> Option<Seq<char>>;

/// Relies on serde_json's `from_str::<Value>`, `Value::get` and
/// `Value::as_str`, composed: reads the string member under `key`,
/// deterministic in the text and the key; none of the three panics.
#[verifier::external_body]
pub(crate) fn json_str_field(s: &str, key: &str) -> (r: Option<String>)
    ensures
        r is Some <==> json_str_field_of(s@, key@) is Some,
        r matches Some(v) ==> json_str_field_of(s@, key@) == Some(v@),
{
    let document: serde_json::Value = match serde_json::from_str(s) {
        Ok(v) => v,
        Err(_) => return None,
    };
    document.get(key).and_then(|m| m.as_str()).map(|text| text.to_string())
}

/// Relies on the same three serde_json functions, composed along the path:
/// reads the string member under `outer`/`inner`/`leaf`, deterministic in the
/// text and the keys.
#[verifier::external_body]
pub(crate) fn json_nested_str(s: &str, outer: &str, inner: &str, leaf: &str) -> (r: Option<
    String,
>)
    ensures
        r is Some <==> json_nested_str_of(s@, outer@, inner@, leaf@) is Some,
        r matches Some(v) ==> json_nested_str_of(s@, outer@, inner@, leaf@) == Some(v@),
{
    let document: serde_json::Value = match serde_json::from_str(s) {
        Ok(v) => v,
        Err(_) => return None,
    };
    document
        .get(outer)
        .and_then(|m| m.get(inner))
        .and_then(|m| m.get(leaf))
        .and_then(|m| m.as_str())
        .map(|text| text.to_string())
}

/// Reads the string member under `key`, or the empty string when the document
/// holds none there.
pub(crate) fn json_str_field_or_empty(s: &str, key: &str) -> (r: String)
    ensures
        r@ == json_str_field_or_empty_of(s@, key@),
{
    match json_str_field(s, key) {
        Some(v) => v,
        None => String::new(),
    }
}

} // verus!
