//! The JSON work that the handshake envelopes need, done by `serde_json`.
//!
//! Everything in this file is trusted: Verus takes the contracts as given.
use vstd::prelude::*;

verus! {

/// A parsed JSON value of `serde_json`; opaque here.
#[verifier::external_type_specification]
#[verifier::external_body]
pub struct ExJsonValue(serde_json::Value);

/// The error of `serde_json`; opaque here.
#[verifier::external_type_specification]
#[verifier::external_body]
pub struct ExJsonError(serde_json::Error);

/// The JSON string literal that `serde_json::to_string` writes for a text:
/// the text between double quotes, with the escapes that JSON asks for.
pub uninterp spec fn json_quoted(text: Seq<char>) -> Seq<char>;

/// The value that `serde_json::from_str` reads from a text; none where it
/// returns an error, as it does on a text that is not one JSON document.
pub uninterp spec fn json_parsed(text: Seq<char>) -> Option<serde_json::Value>;

/// The member that `serde_json::Value::get` finds under a key: present where
/// the value is an object that has the key.
pub uninterp spec fn json_member(value: serde_json::Value, key: Seq<char>) -> Option<
    serde_json::Value,
>;

/// The text that `serde_json::Value::as_str` finds in a value: present where
/// the value is a JSON string.
pub uninterp spec fn json_string(value: serde_json::Value) -> Option<Seq<char>>;

/// Wraps `serde_json::to_string` on a string slice. Trusted: the result is the
/// JSON string literal of the text, and depends on the text alone. The call
/// fails only where a value's own serialisation fails or a map has a key that
/// is no string; neither can be with a string slice, so there is no error to
/// hand on.
#[verifier::external_body]
pub(crate) fn quote(text: &str) -> (literal: String)
    ensures
        literal@ == json_quoted(text@),
{
    serde_json::to_string(text).unwrap_or_default()
}

/// Wraps `serde_json::from_str` at `serde_json::Value`. Trusted: what the call
/// returns depends on the text alone; `json_parsed` is the name of the value
/// that it reads.
#[verifier::external_body]
pub(crate) fn parse(text: &str) -> (parsed: Result<serde_json::Value, serde_json::Error>)
    ensures
        parsed is Ok <==> json_parsed(text@) is Some,
        parsed matches Ok(value) ==> Some(value) == json_parsed(text@),
{
    serde_json::from_str::<serde_json::Value>(text)
}

/// Wraps `serde_json::Value::get` with a string key. Trusted: the result is
/// the member under the key, if the value is an object that has one.
#[verifier::external_body]
pub(crate) fn member<'a>(value: &'a serde_json::Value, key: &str) -> (found: Option<
    &'a serde_json::Value,
>)
    ensures
        found is Some <==> json_member(*value, key@) is Some,
        found matches Some(m) ==> Some(*m) == json_member(*value, key@),
{
    value.get(key)
}

/// Wraps `serde_json::Value::as_str`. Trusted: the result is the text of the
/// value, if the value is a JSON string.
#[verifier::external_body]
pub(crate) fn string_of<'a>(value: &'a serde_json::Value) -> (found: Option<&'a str>)
    ensures
        found is Some <==> json_string(*value) is Some,
        found matches Some(s) ==> Some(s@) == json_string(*value),
{
    value.as_str()
}

} // verus!
