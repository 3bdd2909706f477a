//! Lenient readers for telemetry payload properties: a channel value may
//! arrive as a JSON number, as a numeric string, or as an array of either,
//! and a missing or unreadable element yields `None` rather than an error.
//! The JSON tree itself is opaque (see `jsonval`); every decision taken on
//! what comes out of it is verified, the numeric string parsing exactly.

use vstd::prelude::*;

use crate::jsonval::{json_as_array, json_as_bool, json_as_i64, json_as_string, json_get};
use crate::numparse::{parse_i16_str, parse_i64_str};

verus! {

/// Reads an `i64`: a JSON integer, or a decimal string.
pub fn get_i64_optional(prop_a: &serde_json::Value) -> (r: Option<i64>) {
    if let Some(v) = json_as_i64(prop_a) {
        return Some(v);
    }
    if let Some(v) = json_as_string(prop_a) {
        if let Some(v) = parse_i64_str(v.as_str()) {
            return Some(v);
        }
    }
    None
}

/// Reads an `i16`: a JSON integer in range, or a decimal string.
pub fn get_i16_number_optional(prop_a: &serde_json::Value) -> (r: Option<i16>) {
    if let Some(v) = json_as_i64(prop_a) {
        if v >= i16::MIN as i64 && v <= i16::MAX as i64 {
            return Some(v as i16);
        }
        return None;
    }
    if let Some(v) = json_as_string(prop_a) {
        if let Some(v) = parse_i16_str(v.as_str()) {
            return Some(v);
        }
    }
    None
}

/// Reads an `i16` channel array: an array maps element-wise (unreadable
/// elements become `None`), a bare readable value becomes a one-element
/// array, anything else is absent.
pub fn get_i16_array_optional(prop_a: &serde_json::Value) -> (r: Option<Vec<Option<i16>>>) {
    if let Some(vec) = json_as_array(prop_a) {
        let mut arr: Vec<Option<i16>> = Vec::new();
        let n = vec.len();
        let mut i: usize = 0;
        while i < n
            invariant
                i <= n,
                n == vec@.len(),
            decreases n - i,
        {
            let v = get_i16_number_optional(&vec[i]);
            arr.push(v);
            i = i + 1;
        }
        return Some(arr);
    }
    if let Some(v) = get_i16_number_optional(prop_a) {
        let mut arr: Vec<Option<i16>> = Vec::new();
        arr.push(Some(v));
        return Some(arr);
    }
    None
}

/// Reads a boolean: a JSON boolean, or the integers zero and one.
pub fn get_bool_optional(prop_a: &serde_json::Value) -> (r: Option<bool>) {
    if let Some(v) = json_as_bool(prop_a) {
        return Some(v);
    }
    if let Some(v) = json_as_i64(prop_a) {
        if v == 0 {
            return Some(false);
        }
        if v == 1 {
            return Some(true);
        }
    }
    None
}

/// Reads a boolean array, with the same element leniency.
pub fn get_bool_array_optional(prop_a: &serde_json::Value) -> (r: Option<Vec<Option<bool>>>) {
    if let Some(vec) = json_as_array(prop_a) {
        let mut arr: Vec<Option<bool>> = Vec::new();
        let n = vec.len();
        let mut i: usize = 0;
        while i < n
            invariant
                i <= n,
                n == vec@.len(),
            decreases n - i,
        {
            let v = get_bool_optional(&vec[i]);
            arr.push(v);
            i = i + 1;
        }
        return Some(arr);
    }
    if let Some(v) = get_bool_optional(prop_a) {
        let mut arr: Vec<Option<bool>> = Vec::new();
        arr.push(Some(v));
        return Some(arr);
    }
    None
}

/// Reads a required string property.
pub fn get_string_prop(prop_o: &Option<&serde_json::Value>) -> (r: Result<String, String>) {
    match prop_o {
        None => Err("Attribute is empty".to_owned()),
        Some(prop_a) => match json_as_string(prop_a) {
            Some(value) => Ok(value),
            None => Err("Could not find valid attribute value".to_owned()),
        },
    }
}

/// Reads a required integer property.
pub fn get_int_number_prop(prop_o: &Option<&serde_json::Value>) -> (r: Result<i64, String>) {
    match prop_o {
        None => Err("Attribute is empty".to_owned()),
        Some(prop_a) => match json_as_i64(prop_a) {
            Some(value) => Ok(value),
            None => Err("Could not find valid attribute value".to_owned()),
        },
    }
}

/// Reads a required boolean property.
pub fn get_bool_prop(prop_o: &Option<&serde_json::Value>) -> (r: Result<bool, String>) {
    match prop_o {
        None => Err("Attribute is empty".to_owned()),
        Some(prop_a) => match json_as_bool(prop_a) {
            Some(value) => Ok(value),
            None => Err("Could not find valid attribute value".to_owned()),
        },
    }
}

/// Reads a string-array property: an array keeps its readable elements, a
/// bare string becomes a one-element array.
pub fn get_string_array_prop(prop_o: &Option<&serde_json::Value>) -> (r: Result<
    Vec<String>,
    String,
>) {
    let prop_a = match prop_o {
        Some(a) => *a,
        None => {
            return Err("Could not find valid attribute value".to_owned());
        },
    };
    if let Some(vec) = json_as_array(prop_a) {
        let mut arr: Vec<String> = Vec::new();
        let n = vec.len();
        let mut i: usize = 0;
        while i < n
            invariant
                i <= n,
                n == vec@.len(),
            decreases n - i,
        {
            if let Some(v) = json_as_string(&vec[i]) {
                arr.push(v);
            }
            i = i + 1;
        }
        return Ok(arr);
    }
    if let Some(value) = json_as_string(prop_a) {
        let mut arr: Vec<String> = Vec::new();
        arr.push(value);
        return Ok(arr);
    }
    Err("Could not find valid attribute value".to_owned())
}

/// The sampling-time property, under any of its three wire spellings.
pub fn get_json_sampling_time(payload_json: &serde_json::Value) -> (r: Option<i64>) {
    if let Some(v) = json_get(payload_json, "samplingTime") {
        if let Some(t) = get_i64_optional(v) {
            return Some(t);
        }
    }
    if let Some(v) = json_get(payload_json, "sampling_time") {
        if let Some(t) = get_i64_optional(v) {
            return Some(t);
        }
    }
    if let Some(v) = json_get(payload_json, "SamplingTime") {
        if let Some(t) = get_i64_optional(v) {
            return Some(t);
        }
    }
    None
}

} // verus!
