//! Decimal integer parsing from text, as the wire formats use it: an
//! optional sign followed by decimal digits, rejected on any other
//! character or on overflow of the target type.

use vstd::prelude::*;

use crate::timebase::{spec_digit_val, spec_is_digit};

verus! {

/// Every character of `s` is a decimal digit.
pub open spec fn spec_all_digits(s: Seq<char>) -> bool {
    forall|i: int| 0 <= i < s.len() ==> spec_is_digit(#[trigger] s[i])
}

/// The value of a digit string, most significant first.
pub open spec fn spec_digits_val(s: Seq<char>) -> int
    decreases s.len(),
{
    if s.len() == 0 {
        0
    } else {
        spec_digits_val(s.drop_last()) * 10 + spec_digit_val(s.last())
    }
}

/// What a signed decimal string denotes mathematically: an optional `+` or
/// `-`, then at least one digit. No bound is applied here.
pub open spec fn spec_parse_int(s: Seq<char>) -> Option<int> {
    if s.len() == 0 {
        None
    } else if s[0] == '+' {
        if s.len() > 1 && spec_all_digits(s.skip(1)) {
            Some(spec_digits_val(s.skip(1)))
        } else {
            None
        }
    } else if s[0] == '-' {
        if s.len() > 1 && spec_all_digits(s.skip(1)) {
            Some(-spec_digits_val(s.skip(1)))
        } else {
            None
        }
    } else if spec_all_digits(s) {
        Some(spec_digits_val(s))
    } else {
        None
    }
}

/// Reads the digit-run value of `s` from character `from` on: `Some`
/// magnitude when every remaining character is a digit and the value fits
/// `u64`, `None` on a non-digit, and `Err`-like overflow marker when the
/// digits are clean but the value exceeds `u64`.
fn digits_value_from(s: &str, from: usize) -> (r: Option<Option<u64>>)
    requires
        s.is_ascii(),
        from <= s@.len(),
        s@.len() <= usize::MAX,
    ensures
        match r {
            None => !spec_all_digits(s@.skip(from as int)),
            Some(None) => spec_all_digits(s@.skip(from as int)) && spec_digits_val(
                s@.skip(from as int),
            ) > u64::MAX,
            Some(Some(v)) => spec_all_digits(s@.skip(from as int)) && spec_digits_val(
                s@.skip(from as int),
            ) == v as int,
        },
{
    let n = s.unicode_len();
    let mut i: usize = from;
    let mut acc: u64 = 0;
    let mut overflowed: bool = false;
    let ghost tail = s@.skip(from as int);
    while i < n
        invariant
            from <= i <= n,
            n == s@.len(),
            s.is_ascii(),
            tail == s@.skip(from as int),
            forall|k: int| from <= k < i ==> spec_is_digit(#[trigger] s@[k]),
            !overflowed ==> acc as int == spec_digits_val(tail.take(i - from)),
            overflowed ==> spec_digits_val(tail.take(i - from)) > u64::MAX,
        decreases n - i,
    {
        let b = s.get_ascii(i);
        if b < 48 || b > 57 {
            proof {
                assert(tail[i - from] == s@[i as int]);
                assert(!spec_is_digit(tail[i - from]));
            }
            return None;
        }
        let d = (b - 48) as u64;
        proof {
            assert(s@[i as int] as int == b as int) by {
                vstd::string::is_ascii_spec_bytes(s);
                assert(s@[i as int] <= '\u{7f}');
            }
            assert(spec_is_digit(s@[i as int]));
            assert(spec_digit_val(s@[i as int]) == d as int);
            assert(tail.take(i - from + 1).drop_last() =~= tail.take(i - from));
            assert(tail.take(i - from + 1).last() == tail[i - from]);
            assert(tail[i - from] == s@[i as int]);
        }
        let ghost prevval = spec_digits_val(tail.take(i - from));
        if overflowed {
            proof {
                assert(prevval * 10 >= prevval) by (nonlinear_arith)
                    requires
                        prevval > u64::MAX,
                ;
            }
        } else if acc > (u64::MAX - d) / 10 {
            overflowed = true;
            proof {
                assert(prevval * 10 + d as int > u64::MAX) by (nonlinear_arith)
                    requires
                        prevval == acc as int,
                        acc as int > (u64::MAX as int - d as int) / 10,
                        0 <= d <= 9,
                        acc <= u64::MAX,
                ;
            }
        } else {
            proof {
                assert(acc as int * 10 + d as int <= u64::MAX) by (nonlinear_arith)
                    requires
                        0 <= acc as int <= (u64::MAX as int - d as int) / 10,
                        0 <= d <= 9,
                ;
            }
            acc = acc * 10 + d;
        }
        i = i + 1;
    }
    proof {
        assert(tail.take(n - from) =~= tail);
        assert forall|k: int| 0 <= k < tail.len() implies spec_is_digit(#[trigger] tail[k]) by {
            assert(tail[k] == s@[k + from]);
        }
    }
    if overflowed {
        Some(None)
    } else {
        Some(Some(acc))
    }
}

/// Parses a signed decimal string into `i64`, as the wire formats expect:
/// optional sign, digits only, rejected on overflow.
pub fn parse_i64_str(s: &str) -> (r: Option<i64>)
    ensures
        match r {
            Some(v) => spec_parse_int(s@) == Some(v as int),
            None => match spec_parse_int(s@) {
                Some(w) => w < i64::MIN || w > i64::MAX,
                None => true,
            },
        },
{
    if !s.is_ascii() {
        proof {
            if s@.len() > 0 && s@[0] != '+' && s@[0] != '-' && spec_all_digits(s@) {
                assert forall|i: int| 0 <= i < s@.len() implies '\0' <= #[trigger] s@[i]
                    <= '\u{7f}' by {}
            }
            if s@.len() > 1 && (s@[0] == '+' || s@[0] == '-') && spec_all_digits(s@.skip(1)) {
                assert forall|i: int| 0 <= i < s@.len() implies '\0' <= #[trigger] s@[i]
                    <= '\u{7f}' by {
                    if i > 0 {
                        assert(s@.skip(1)[i - 1] == s@[i]);
                        assert(spec_is_digit(s@[i]));
                    }
                }
            }
        }
        return None;
    }
    let n = s.unicode_len();
    if n == 0 {
        return None;
    }
    let b0 = s.get_ascii(0);
    proof {
        vstd::string::is_ascii_spec_bytes(s);
        assert(s@[0] <= '\u{7f}');
        assert(s@[0] as int == b0 as int);
    }
    if b0 == 43 {
        // leading '+'
        if n == 1 {
            return None;
        }
        match digits_value_from(s, 1) {
            None => None,
            Some(None) => None,
            Some(Some(v)) => {
                if v <= i64::MAX as u64 {
                    Some(v as i64)
                } else {
                    None
                }
            },
        }
    } else if b0 == 45 {
        // leading '-'
        if n == 1 {
            return None;
        }
        match digits_value_from(s, 1) {
            None => None,
            Some(None) => None,
            Some(Some(v)) => {
                if v <= 9223372036854775808u64 {
                    if v == 9223372036854775808u64 {
                        Some(i64::MIN)
                    } else {
                        Some(-(v as i64))
                    }
                } else {
                    None
                }
            },
        }
    } else {
        proof {
            assert(s@.skip(0) =~= s@);
        }
        match digits_value_from(s, 0) {
            None => None,
            Some(None) => None,
            Some(Some(v)) => {
                if v <= i64::MAX as u64 {
                    Some(v as i64)
                } else {
                    None
                }
            },
        }
    }
}

/// Parses a decimal string into `i16`, the way the telemetry channels are
/// read: the `i64` syntax, then the `i16` range.
pub fn parse_i16_str(s: &str) -> (r: Option<i16>)
    ensures
        match r {
            Some(v) => spec_parse_int(s@) == Some(v as int),
            None => match spec_parse_int(s@) {
                Some(w) => w < i16::MIN || w > i16::MAX,
                None => true,
            },
        },
{
    match parse_i64_str(s) {
        Some(v) => {
            if v >= i16::MIN as i64 && v <= i16::MAX as i64 {
                Some(v as i16)
            } else {
                None
            }
        },
        None => None,
    }
}

/// Parses a decimal string into `u16`, the way numeric settings are read:
/// an optional `+`, digits, the `u16` range.
pub fn parse_u16_str(s: &str) -> (r: Option<u16>)
    ensures
        match r {
            Some(v) => spec_parse_int(s@) == Some(v as int) && (s@[0] != '-'),
            None => match spec_parse_int(s@) {
                Some(w) => w < 0 || w > u16::MAX || s@[0] == '-',
                None => true,
            },
        },
{
    if !s.is_ascii() {
        proof {
            if s@.len() > 0 && s@[0] != '+' && s@[0] != '-' && spec_all_digits(s@) {
                assert forall|i: int| 0 <= i < s@.len() implies '\0' <= #[trigger] s@[i]
                    <= '\u{7f}' by {}
            }
            if s@.len() > 1 && (s@[0] == '+' || s@[0] == '-') && spec_all_digits(s@.skip(1)) {
                assert forall|i: int| 0 <= i < s@.len() implies '\0' <= #[trigger] s@[i]
                    <= '\u{7f}' by {
                    if i > 0 {
                        assert(s@.skip(1)[i - 1] == s@[i]);
                        assert(spec_is_digit(s@[i]));
                    }
                }
            }
        }
        return None;
    }
    let n = s.unicode_len();
    if n == 0 {
        return None;
    }
    let b0 = s.get_ascii(0);
    proof {
        vstd::string::is_ascii_spec_bytes(s);
        assert(s@[0] <= '\u{7f}');
        assert(s@[0] as int == b0 as int);
    }
    if b0 == 45 {
        return None;
    }
    match parse_i64_str(s) {
        Some(v) => {
            if v >= 0 && v <= u16::MAX as i64 {
                Some(v as u16)
            } else {
                None
            }
        },
        None => None,
    }
}

} // verus!
