//! The JSON boundary. Payloads and configuration come off the wire as
//! `serde_json::Value` trees; the engine walks them through the trusted
//! accessors below and keeps every decision it takes on the extracted plain
//! values verified. A `Value` is opaque here: nothing is assumed about what
//! an accessor returns, only the engine's handling of every possible
//! outcome is proved.

use vstd::prelude::*;

verus! {

#[verifier::external_type_specification]
#[verifier::external_body]
pub struct ExValue(serde_json::Value);

/// Relies on serde_json::from_str: parses a JSON document, or reports the
/// parse error as text.
#[verifier::external_body]
pub fn json_parse_str(s: &str) -> (r: Result<serde_json::Value, String>) {
    match serde_json::from_str::<serde_json::Value>(s) {
        Ok(v) => Ok(v),
        Err(e) => Err(e.to_string()),
    }
}

/// Relies on serde_json::Value::get: the member under a key of a JSON
/// object, when the value is an object holding that key.
#[verifier::external_body]
pub fn json_get<'a>(v: &'a serde_json::Value, key: &str) -> (r: Option<&'a serde_json::Value>) {
    v.get(key)
}

/// Relies on serde_json::Value::as_str: the text of a JSON string value,
/// copied out.
#[verifier::external_body]
pub fn json_as_string(v: &serde_json::Value) -> (r: Option<String>) {
    v.as_str().map(|s| s.to_owned())
}

/// Relies on serde_json::Value::as_i64: the value of a JSON integer that
/// fits `i64`.
#[verifier::external_body]
pub fn json_as_i64(v: &serde_json::Value) -> (r: Option<i64>) {
    v.as_i64()
}

/// Relies on serde_json::Value::as_u64: the value of a JSON non-negative
/// integer that fits `u64`.
#[verifier::external_body]
pub fn json_as_u64(v: &serde_json::Value) -> (r: Option<u64>) {
    v.as_u64()
}

/// Relies on serde_json::Value::as_bool: the value of a JSON boolean.
#[verifier::external_body]
pub fn json_as_bool(v: &serde_json::Value) -> (r: Option<bool>) {
    v.as_bool()
}

/// Relies on serde_json::Value::as_array: the elements of a JSON array.
#[verifier::external_body]
pub fn json_as_array<'a>(v: &'a serde_json::Value) -> (r: Option<&'a Vec<serde_json::Value>>) {
    v.as_array()
}

} // verus!
