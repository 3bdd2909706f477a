//! Small shared pieces of the rule state machines: the 24-hour debounce
//! test against a monotonic clock, and saturating accumulator arithmetic.

use vstd::prelude::*;

verus! {

/// One day of debounce, in seconds.
pub const DEBOUNCE_SECS: u64 = 86400;

/// Whether a rule that last fired at monotonic second `last` is still
/// suppressed at monotonic second `now`. A rule that never fired is not
/// suppressed.
pub open spec fn spec_debounced(last: Option<u64>, now: int) -> bool {
    match last {
        Some(t) => now - t < 86400,
        None => false,
    }
}

pub fn is_debounced(last: &Option<u64>, now: u64) -> (r: bool)
    ensures
        r == spec_debounced(*last, now as int),
{
    match last {
        Some(t) => now < *t || now - *t < DEBOUNCE_SECS,
        None => false,
    }
}

/// Addition that sticks at the top of `u64` instead of wrapping.
pub open spec fn spec_sat_add(a: int, b: int) -> int {
    if a + b > u64::MAX {
        u64::MAX as int
    } else {
        a + b
    }
}

pub fn sat_add(a: u64, b: u64) -> (r: u64)
    ensures
        r == spec_sat_add(a as int, b as int),
{
    if b > u64::MAX - a {
        u64::MAX
    } else {
        a + b
    }
}

/// Multiplication that sticks at the top of `u64` instead of wrapping.
pub open spec fn spec_sat_mul(a: int, b: int) -> int {
    if a * b > u64::MAX {
        u64::MAX as int
    } else {
        a * b
    }
}

pub fn sat_mul(a: u64, b: u64) -> (r: u64)
    ensures
        r == spec_sat_mul(a as int, b as int),
{
    if a == 0 {
        proof {
            assert(a as int * b as int == 0) by (nonlinear_arith)
                requires
                    a == 0,
            ;
        }
        return 0;
    }
    if b > u64::MAX / a {
        proof {
            assert(a as int * b as int > u64::MAX) by (nonlinear_arith)
                requires
                    a > 0,
                    b as int > u64::MAX as int / a as int,
            ;
        }
        u64::MAX
    } else {
        proof {
            assert(a as int * b as int <= u64::MAX) by (nonlinear_arith)
                requires
                    a > 0,
                    b as int <= u64::MAX as int / a as int,
            ;
        }
        a * b
    }
}

} // verus!
