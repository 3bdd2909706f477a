//! Interpretation of configuration settings. Reading the environment is
//! the caller's business; these functions take the raw looked-up value and
//! decide what it means, exactly.

use vstd::prelude::*;

use crate::numparse::{parse_u16_str, spec_parse_int};

verus! {

/// The spellings an optional boolean setting accepts.
pub open spec fn spec_bool_token(s: Seq<char>) -> bool {
    ||| s == "1"@
    ||| s == "0"@
    ||| s == "true"@
    ||| s == "false"@
    ||| s == "TRUE"@
    ||| s == "FALSE"@
}

/// Normalises a raw environment value: an unset or empty variable counts
/// as absent.
pub fn get_var_string_optional(raw: Option<String>) -> (r: Option<String>)
    ensures
        match r {
            Some(v) => raw == Some(v) && v@.len() > 0,
            None => match raw {
                Some(v) => v@.len() == 0,
                None => true,
            },
        },
{
    match raw {
        Some(v) => {
            if v.as_str().unicode_len() == 0 {
                None
            } else {
                Some(v)
            }
        },
        None => None,
    }
}

/// A required string setting: present and non-empty, or an error naming
/// the setting.
pub fn get_var_string_required(name: &str, raw: Option<String>) -> (r: Result<String, String>)
    ensures
        match r {
            Ok(v) => raw == Some(v) && v@.len() > 0,
            Err(e) => e@ == "Missing configuration: "@ + name@ && match raw {
                Some(v) => v@.len() == 0,
                None => true,
            },
        },
{
    match get_var_string_optional(raw) {
        Some(v) => Ok(v),
        None => {
            let mut msg = "Missing configuration: ".to_owned();
            msg.append(name);
            Err(msg)
        },
    }
}

/// An optional numeric setting: absent is fine, a present value must be a
/// decimal `u16`.
pub fn get_var_u16_optional(name: &str, raw: Option<String>) -> (r: Result<Option<u16>, String>)
    ensures
        match r {
            Ok(None) => match raw {
                Some(v) => v@.len() == 0,
                None => true,
            },
            Ok(Some(n)) => match raw {
                Some(v) => v@.len() > 0 && spec_parse_int(v@) == Some(n as int) && v@[0] != '-',
                None => false,
            },
            Err(e) => e@ == "Invalid configuration: "@ + name@ && match raw {
                Some(v) => v@.len() > 0 && match spec_parse_int(v@) {
                    Some(w) => w < 0 || w > u16::MAX || v@[0] == '-',
                    None => true,
                },
                None => false,
            },
        },
{
    let val = match get_var_string_optional(raw) {
        Some(v) => v,
        None => {
            return Ok(None);
        },
    };
    match parse_u16_str(val.as_str()) {
        Some(n) => Ok(Some(n)),
        None => {
            let mut msg = "Invalid configuration: ".to_owned();
            msg.append(name);
            Err(msg)
        },
    }
}

/// A required numeric setting.
pub fn get_var_u16_required(name: &str, raw: Option<String>) -> (r: Result<u16, String>)
    ensures
        match r {
            Ok(n) => match raw {
                Some(v) => v@.len() > 0 && spec_parse_int(v@) == Some(n as int) && v@[0] != '-',
                None => false,
            },
            Err(e) => match raw {
                Some(v) => if v@.len() == 0 {
                    e@ == "Missing configuration: "@ + name@
                } else {
                    e@ == "Invalid configuration: "@ + name@ && match spec_parse_int(v@) {
                        Some(w) => w < 0 || w > u16::MAX || v@[0] == '-',
                        None => true,
                    }
                },
                None => e@ == "Missing configuration: "@ + name@,
            },
        },
{
    let val = match get_var_string_optional(raw) {
        Some(v) => v,
        None => {
            let mut msg = "Missing configuration: ".to_owned();
            msg.append(name);
            return Err(msg);
        },
    };
    match parse_u16_str(val.as_str()) {
        Some(n) => Ok(n),
        None => {
            let mut msg = "Invalid configuration: ".to_owned();
            msg.append(name);
            Err(msg)
        },
    }
}

/// An optional boolean setting: `1`, `0`, `true`, `false`, `TRUE` or
/// `FALSE`; anything else present is an error.
pub fn get_var_bool_optional(name: &str, raw: Option<String>) -> (r: Result<Option<bool>, String>)
    ensures
        match r {
            Ok(Some(b)) => match raw {
                Some(v) => v@.len() > 0 && spec_bool_token(v@) && b == (v@ == "1"@ || v@ == "true"@
                    || v@ == "TRUE"@),
                None => false,
            },
            Ok(None) => match raw {
                Some(v) => v@.len() == 0,
                None => true,
            },
            Err(e) => e@ == "Invalid configuration: "@ + name@ && match raw {
                Some(v) => v@.len() > 0 && !spec_bool_token(v@),
                None => false,
            },
        },
{
    let val = match get_var_string_optional(raw) {
        Some(v) => v,
        None => {
            return Ok(None);
        },
    };
    let s = val.as_str();
    if crate::strmap::str_eq(s, "1") || crate::strmap::str_eq(s, "true") || crate::strmap::str_eq(
        s,
        "TRUE",
    ) {
        Ok(Some(true))
    } else if crate::strmap::str_eq(s, "0") || crate::strmap::str_eq(s, "false")
        || crate::strmap::str_eq(s, "FALSE") {
        Ok(Some(false))
    } else {
        let mut msg = "Invalid configuration: ".to_owned();
        msg.append(name);
        Err(msg)
    }
}

} // verus!
