//! The telemetry decoder: one incoming pack carries a single timestamp, a
//! sampling interval, and per-channel arrays of consecutive samples. The
//! decoder turns it into single-sample readings, oldest first, each with
//! its own absolute timestamp computed backwards from the pack timestamp.

use vstd::prelude::*;

use crate::jsonval::{json_as_string, json_get};
use crate::parse_json_props::{get_i16_array_optional, get_json_sampling_time, get_i64_optional};
use crate::timebase::{parse_timestamp, spec_parse_timestamp, Timestamp, MAX_TIMESTAMP_SECS};

verus! {

/// Default sampling interval of a DUT pack, in seconds.
pub const DUT_DEFAULT_SAMPLING_SECS: i64 = 5;

/// Default sampling interval of a DAC pack, in seconds.
pub const DAC_DEFAULT_SAMPLING_SECS: i64 = 1;

/// Default GMT offset a pack without a `GMT` field is interpreted under.
pub const DEFAULT_GMT_OFFSET: i64 = -3;

/// One decoded DUT reading. The temperature is in hundredths of a degree.
#[derive(Clone, Copy, Debug)]
#[allow(non_snake_case)]
pub struct DutTelemetry {
    pub timestamp: Timestamp,
    pub Temperature: Option<i64>,
    pub eCO2: Option<i16>,
}

/// One decoded DAC reading: the compressor state channel.
#[derive(Clone, Copy, Debug)]
#[allow(non_snake_case)]
pub struct DacTelemetry {
    pub timestamp: Timestamp,
    pub Lcmp: Option<i16>,
}

/// The second count of reading `i` of `n`: the pack timestamp minus
/// `(n-1-i)` sampling intervals.
pub open spec fn spec_reading_secs(pack: int, n: int, i: int, st: int) -> int {
    pack - (n - 1 - i) * st
}

/// Whether every reading of the pack lands inside the representable time
/// range.
pub open spec fn spec_pack_in_range(pack: int, n: int, st: int) -> bool {
    forall|i: int| 0 <= i < n ==> 0 <= #[trigger] spec_reading_secs(pack, n, i, st) <= u64::MAX
}

/// The readings are evenly spaced by `st`, ending at the pack timestamp.
pub open spec fn spec_dut_evenly_spaced(v: Seq<DutTelemetry>, pack: Timestamp, st: i64) -> bool {
    forall|i: int|
        0 <= i < v.len() ==> (#[trigger] v[i]).timestamp.secs as int == spec_reading_secs(
            pack.secs as int,
            v.len() as int,
            i,
            st as int,
        )
}

/// The readings are evenly spaced by `st`, ending at the pack timestamp.
pub open spec fn spec_dac_evenly_spaced(v: Seq<DacTelemetry>, pack: Timestamp, st: i64) -> bool {
    forall|i: int|
        0 <= i < v.len() ==> (#[trigger] v[i]).timestamp.secs as int == spec_reading_secs(
            pack.secs as int,
            v.len() as int,
            i,
            st as int,
        )
}

/// The element channel `ch` contributes to reading `i`: its `i`-th entry
/// when it reaches that far, else nothing.
pub open spec fn spec_channel_at<T>(ch: Option<Seq<Option<T>>>, i: int) -> Option<T> {
    match ch {
        Some(c) => if 0 <= i < c.len() {
            c[i]
        } else {
            None
        },
        None => None,
    }
}

/// Computes the timestamp of reading `i` of `n`, or `None` when it falls
/// outside the representable range.
fn reading_timestamp(pack_ts: &Timestamp, n: usize, i: usize, sampling_time: i64) -> (r: Option<
    Timestamp,
>)
    requires
        i < n,
    ensures
        match r {
            Some(t) => t.secs as int == spec_reading_secs(
                pack_ts.secs as int,
                n as int,
                i as int,
                sampling_time as int,
            ),
            None => !(0 <= spec_reading_secs(
                pack_ts.secs as int,
                n as int,
                i as int,
                sampling_time as int,
            ) <= u64::MAX),
        },
{
    let sub_times: u64 = (n - 1 - i) as u64;
    let st_abs: u64 = if sampling_time >= 0 {
        sampling_time as u64
    } else if sampling_time == i64::MIN {
        9223372036854775808u64
    } else {
        (-sampling_time) as u64
    };
    let ghost goal = spec_reading_secs(
        pack_ts.secs as int,
        n as int,
        i as int,
        sampling_time as int,
    );
    if st_abs == 0 {
        proof {
            assert(sub_times as int * sampling_time as int == 0) by (nonlinear_arith)
                requires
                    sampling_time as int == 0,
            ;
        }
        return Some(Timestamp { secs: pack_ts.secs });
    }
    if sub_times > u64::MAX / st_abs {
        proof {
            assert(sub_times as int * st_abs as int > u64::MAX) by (nonlinear_arith)
                requires
                    st_abs > 0,
                    sub_times as int > u64::MAX as int / st_abs as int,
            ;
            if sampling_time >= 0 {
                assert(goal < 0);
            } else {
                assert(sub_times as int * sampling_time as int == -(sub_times as int * st_abs
                    as int)) by (nonlinear_arith)
                    requires
                        st_abs as int == -(sampling_time as int),
                ;
                assert(goal > u64::MAX);
            }
        }
        return None;
    }
    proof {
        assert(sub_times as int * st_abs as int <= u64::MAX) by (nonlinear_arith)
            requires
                st_abs > 0,
                sub_times as int <= u64::MAX as int / st_abs as int,
        ;
    }
    let offset: u64 = sub_times * st_abs;
    if sampling_time >= 0 {
        if offset > pack_ts.secs {
            return None;
        }
        Some(Timestamp { secs: pack_ts.secs - offset })
    } else {
        proof {
            assert(sub_times as int * sampling_time as int == -(offset as int)) by (
            nonlinear_arith)
                requires
                    offset as int == sub_times as int * st_abs as int,
                    st_abs as int == -(sampling_time as int),
            ;
        }
        if offset > u64::MAX - pack_ts.secs {
            return None;
        }
        Some(Timestamp { secs: pack_ts.secs + offset })
    }
}

/// Builds the DUT readings of one pack, oldest first. The reading count is
/// the longer of the two channels; a shorter channel yields `None` entries
/// for its missing indices, never an error. Fails exactly when a reading's
/// timestamp falls outside the representable range.
pub fn build_dut_readings(
    pack_ts: &Timestamp,
    sampling_time: i64,
    temperature: &Option<Vec<Option<i64>>>,
    eco2: &Option<Vec<Option<i16>>>,
) -> (r: Result<Vec<DutTelemetry>, &'static str>)
    ensures
        ({
            let tl = match *temperature {
                Some(t) => t@.len() as int,
                None => 0,
            };
            let el = match *eco2 {
                Some(e) => e@.len() as int,
                None => 0,
            };
            let n = if tl >= el {
                tl
            } else {
                el
            };
            match r {
                Ok(v) => {
                    &&& spec_pack_in_range(pack_ts.secs as int, n, sampling_time as int)
                    &&& v@.len() == n
                    &&& forall|i: int|
                        0 <= i < n ==> (#[trigger] v@[i]).timestamp.secs as int
                            == spec_reading_secs(
                            pack_ts.secs as int,
                            n,
                            i,
                            sampling_time as int,
                        )
                    &&& forall|i: int|
                        0 <= i < n ==> (#[trigger] v@[i]).Temperature == spec_channel_at(
                            match *temperature {
                                Some(t) => Some(t@),
                                None => None,
                            },
                            i,
                        )
                    &&& forall|i: int|
                        0 <= i < n ==> (#[trigger] v@[i]).eCO2 == spec_channel_at(
                            match *eco2 {
                                Some(e) => Some(e@),
                                None => None,
                            },
                            i,
                        )
                },
                Err(_) => !spec_pack_in_range(pack_ts.secs as int, n, sampling_time as int),
            }
        }),
{
    let tl: usize = match temperature {
        Some(t) => t.len(),
        None => 0,
    };
    let el: usize = match eco2 {
        Some(e) => e.len(),
        None => 0,
    };
    let n: usize = if tl >= el {
        tl
    } else {
        el
    };
    let mut out: Vec<DutTelemetry> = Vec::new();
    let mut i: usize = 0;
    while i < n
        invariant
            i <= n,
            n as int == (if (match *temperature {
                Some(t) => t@.len() as int,
                None => 0,
            }) >= (match *eco2 {
                Some(e) => e@.len() as int,
                None => 0,
            }) {
                match *temperature {
                    Some(t) => t@.len() as int,
                    None => 0,
                }
            } else {
                match *eco2 {
                    Some(e) => e@.len() as int,
                    None => 0,
                }
            }),
            out@.len() == i,
            forall|j: int|
                0 <= j < i ==> (#[trigger] out@[j]).timestamp.secs as int == spec_reading_secs(
                    pack_ts.secs as int,
                    n as int,
                    j,
                    sampling_time as int,
                ),
            forall|j: int|
                0 <= j < i ==> (#[trigger] out@[j]).Temperature == spec_channel_at(
                    match *temperature {
                        Some(t) => Some(t@),
                        None => None,
                    },
                    j,
                ),
            forall|j: int|
                0 <= j < i ==> (#[trigger] out@[j]).eCO2 == spec_channel_at(
                    match *eco2 {
                        Some(e) => Some(e@),
                        None => None,
                    },
                    j,
                ),
        decreases n - i,
    {
        let ts = match reading_timestamp(pack_ts, n, i, sampling_time) {
            Some(t) => t,
            None => {
                return Err("telemetry timestamp out of range");
            },
        };
        let temp_i: Option<i64> = match temperature {
            Some(t) => if i < t.len() {
                t[i]
            } else {
                None
            },
            None => None,
        };
        let eco2_i: Option<i16> = match eco2 {
            Some(e) => if i < e.len() {
                e[i]
            } else {
                None
            },
            None => None,
        };
        out.push(DutTelemetry { timestamp: ts, Temperature: temp_i, eCO2: eco2_i });
        i = i + 1;
    }
    proof {
        assert forall|j: int|
            0 <= j < n implies 0 <= #[trigger] spec_reading_secs(
            pack_ts.secs as int,
            n as int,
            j,
            sampling_time as int,
        ) <= u64::MAX by {
            assert(out@[j].timestamp.secs as int == spec_reading_secs(
                pack_ts.secs as int,
                n as int,
                j,
                sampling_time as int,
            ));
        }
    }
    Ok(out)
}

/// Builds the DAC readings of one pack, oldest first: the compressor
/// channel gives the count.
pub fn build_dac_readings(
    pack_ts: &Timestamp,
    sampling_time: i64,
    lcmp: &Option<Vec<Option<i16>>>,
) -> (r: Result<Vec<DacTelemetry>, &'static str>)
    ensures
        ({
            let n = match *lcmp {
                Some(e) => e@.len() as int,
                None => 0,
            };
            match r {
                Ok(v) => {
                    &&& spec_pack_in_range(pack_ts.secs as int, n, sampling_time as int)
                    &&& v@.len() == n
                    &&& forall|i: int|
                        0 <= i < n ==> (#[trigger] v@[i]).timestamp.secs as int
                            == spec_reading_secs(
                            pack_ts.secs as int,
                            n,
                            i,
                            sampling_time as int,
                        )
                    &&& forall|i: int|
                        0 <= i < n ==> (#[trigger] v@[i]).Lcmp == spec_channel_at(
                            match *lcmp {
                                Some(e) => Some(e@),
                                None => None,
                            },
                            i,
                        )
                },
                Err(_) => !spec_pack_in_range(pack_ts.secs as int, n, sampling_time as int),
            }
        }),
{
    let n: usize = match lcmp {
        Some(e) => e.len(),
        None => 0,
    };
    let mut out: Vec<DacTelemetry> = Vec::new();
    let mut i: usize = 0;
    while i < n
        invariant
            i <= n,
            n as int == (match *lcmp {
                Some(e) => e@.len() as int,
                None => 0,
            }),
            out@.len() == i,
            forall|j: int|
                0 <= j < i ==> (#[trigger] out@[j]).timestamp.secs as int == spec_reading_secs(
                    pack_ts.secs as int,
                    n as int,
                    j,
                    sampling_time as int,
                ),
            forall|j: int|
                0 <= j < i ==> (#[trigger] out@[j]).Lcmp == spec_channel_at(
                    match *lcmp {
                        Some(e) => Some(e@),
                        None => None,
                    },
                    j,
                ),
        decreases n - i,
    {
        let ts = match reading_timestamp(pack_ts, n, i, sampling_time) {
            Some(t) => t,
            None => {
                return Err("telemetry timestamp out of range");
            },
        };
        let lcmp_i: Option<i16> = match lcmp {
            Some(e) => e[i],
            None => None,
        };
        out.push(DacTelemetry { timestamp: ts, Lcmp: lcmp_i });
        i = i + 1;
    }
    proof {
        assert forall|j: int|
            0 <= j < n implies 0 <= #[trigger] spec_reading_secs(
            pack_ts.secs as int,
            n as int,
            j,
            sampling_time as int,
        ) <= u64::MAX by {
            assert(out@[j].timestamp.secs as int == spec_reading_secs(
                pack_ts.secs as int,
                n as int,
                j,
                sampling_time as int,
            ));
        }
    }
    Ok(out)
}

/// Reads the pack timestamp and GMT offset of a payload: the `timestamp`
/// field must be a `YYYY-MM-DDTHH:MM:SS` string; a missing `GMT` field
/// defaults. The timestamp returned always denotes a well-formed stamp.
pub fn get_json_timestamp_with_gmt(payload_json: &serde_json::Value) -> (r: Result<
    (Timestamp, i64),
    String,
>)
    ensures
        match r {
            Ok(p) => p.0.secs <= MAX_TIMESTAMP_SECS && (exists|s: Seq<char>|
                spec_parse_timestamp(s) == Some(p.0.secs as int)),
            Err(_) => true,
        },
{
    let ts_field = match json_get(payload_json, "timestamp") {
        Some(v) => v,
        None => {
            return Err("Telemetry without timestamp".to_owned());
        },
    };
    let ts_str = match json_as_string(ts_field) {
        Some(s) => s,
        None => {
            return Err("Telemetry without timestamp".to_owned());
        },
    };
    let ts = match parse_timestamp(ts_str.as_str()) {
        Some(t) => t,
        None => {
            return Err("Invalid telemetry timestamp".to_owned());
        },
    };
    let gmt = match json_get(payload_json, "GMT") {
        Some(v) => match get_i64_optional(v) {
            Some(g) => g,
            None => DEFAULT_GMT_OFFSET,
        },
        None => DEFAULT_GMT_OFFSET,
    };
    proof {
        assert(spec_parse_timestamp(ts_str@) == Some(ts.secs as int));
    }
    Ok((ts, gmt))
}

impl DutTelemetry {
    /// Decodes a DUT payload into readings. The temperature channel, whose
    /// wire form is floating point, arrives already converted to
    /// hundredths of a degree. The readings returned are evenly spaced by
    /// the pack's sampling interval, ending at the pack timestamp.
    pub fn parse_from_json_as_vec(
        payload_json: &serde_json::Value,
        temperature_centi: Option<Vec<Option<i64>>>,
    ) -> (r: Result<Vec<DutTelemetry>, String>)
        ensures
            r is Ok ==> exists|pack: Timestamp, st: i64|
                spec_dut_evenly_spaced(r->Ok_0@, pack, st),
    {
        let (pack_ts, _gmt) = match get_json_timestamp_with_gmt(payload_json) {
            Ok(x) => x,
            Err(e) => {
                return Err(e);
            },
        };
        let sampling_time = match get_json_sampling_time(payload_json) {
            Some(t) => t,
            None => DUT_DEFAULT_SAMPLING_SECS,
        };
        let eco2 = match json_get(payload_json, "eCO2") {
            Some(v) => get_i16_array_optional(v),
            None => None,
        };
        match build_dut_readings(&pack_ts, sampling_time, &temperature_centi, &eco2) {
            Ok(v) => {
                let res: Result<Vec<DutTelemetry>, String> = Ok(v);
                proof {
                    assert(spec_dut_evenly_spaced(res->Ok_0@, pack_ts, sampling_time));
                    assert(exists|pack: Timestamp, st: i64|
                        spec_dut_evenly_spaced(res->Ok_0@, pack, st));
                }
                res
            },
            Err(e) => Err(e.to_owned()),
        }
    }
}

impl DacTelemetry {
    /// Decodes a DAC payload into readings: the `Lcmp` channel with the
    /// pack timestamp.
    pub fn parse_from_json_as_vec(payload_json: &serde_json::Value) -> (r: Result<
        Vec<DacTelemetry>,
        String,
    >)
        ensures
            r is Ok ==> exists|pack: Timestamp, st: i64|
                spec_dac_evenly_spaced(r->Ok_0@, pack, st),
    {
        let (pack_ts, _gmt) = match get_json_timestamp_with_gmt(payload_json) {
            Ok(x) => x,
            Err(e) => {
                return Err(e);
            },
        };
        let sampling_time = match get_json_sampling_time(payload_json) {
            Some(t) => t,
            None => DAC_DEFAULT_SAMPLING_SECS,
        };
        let lcmp = match json_get(payload_json, "Lcmp") {
            Some(v) => get_i16_array_optional(v),
            None => None,
        };
        match build_dac_readings(&pack_ts, sampling_time, &lcmp) {
            Ok(v) => {
                let res: Result<Vec<DacTelemetry>, String> = Ok(v);
                proof {
                    assert(spec_dac_evenly_spaced(res->Ok_0@, pack_ts, sampling_time));
                    assert(exists|pack: Timestamp, st: i64|
                        spec_dac_evenly_spaced(res->Ok_0@, pack, st));
                }
                res
            },
            Err(e) => Err(e.to_owned()),
        }
    }
}

} // verus!
