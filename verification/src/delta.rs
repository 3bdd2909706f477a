//! The delta clock: given the timestamp of a device's previous reading and
//! the new one, how many seconds count toward the rule accumulators, whether
//! the stream is discontinuous, and whether the calendar day rolled over.

use vstd::prelude::*;

use crate::timebase::Timestamp;

verus! {

/// Elapsed seconds between two readings, clamped into `[0, cap]`: a
/// backwards step counts as zero, a gap larger than `cap` counts as `cap`.
pub open spec fn spec_delta_secs(curr: int, prev: int, cap: int) -> int {
    if curr - prev > cap {
        cap
    } else if curr < prev {
        0
    } else {
        curr - prev
    }
}

/// A reading is discontinuous when there was no previous reading, when it
/// goes backwards in time, or when the gap exceeds the continuity cap.
pub open spec fn spec_discontinuity(curr: int, prev: int, cap: int) -> bool {
    curr < prev || curr - prev > cap
}

/// Computes, for the reading at `curr_ts` following the one at `prev_ts`:
/// the elapsed seconds that may feed an accumulator (clamped into
/// `[0, continuity_seconds]`), a discontinuity flag, and whether the two
/// readings fall on different calendar days. With no previous reading the
/// result is `(0, true, true)`.
pub fn get_telemetry_delta(curr_ts: &Timestamp, prev_ts: Option<&Timestamp>, continuity_seconds: u64) -> (r: (
    u64,
    bool,
    bool,
))
    ensures
        match prev_ts {
            None => r == (0u64, true, true),
            Some(prev) => {
                &&& r.0 == spec_delta_secs(
                    curr_ts.secs as int,
                    prev.secs as int,
                    continuity_seconds as int,
                )
                &&& r.1 == spec_discontinuity(
                    curr_ts.secs as int,
                    prev.secs as int,
                    continuity_seconds as int,
                )
                &&& r.2 == (curr_ts.spec_day() != prev.spec_day())
            },
        },
        r.0 <= continuity_seconds,
{
    match prev_ts {
        None => (0, true, true),
        Some(prev) => {
            let new_day = curr_ts.day() != prev.day();
            if curr_ts.secs < prev.secs {
                (0, true, new_day)
            } else if curr_ts.secs - prev.secs > continuity_seconds {
                (continuity_seconds, true, new_day)
            } else {
                (curr_ts.secs - prev.secs, false, new_day)
            }
        },
    }
}

} // verus!
