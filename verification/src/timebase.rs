//! Naive calendar time, the way the telemetry stream carries it: timestamps
//! without a time zone, counted in whole seconds since 1970-01-01T00:00:00.
//!
//! A `Timestamp` is a plain second count; the calendar functions here relate
//! it to civil dates (year, month, day) and to times of day, and the parsers
//! read the two wire formats the system uses: `YYYY-MM-DDTHH:MM:SS` for
//! telemetry timestamps and `HH:MM` for schedule bounds.

use vstd::prelude::*;

verus! {

pub const SECS_PER_DAY: u64 = 86400;

/// Timestamps are accepted for years 1970 through 9999; every parsed
/// timestamp falls below this bound.
pub const MAX_TIMESTAMP_SECS: u64 = 253929686399;

/// A naive (time-zone-free) point in calendar time, in whole seconds since
/// 1970-01-01T00:00:00.
#[derive(Clone, Copy, Debug, PartialEq, Eq, Structural)]
pub struct Timestamp {
    pub secs: u64,
}

impl Timestamp {
    /// Day number of the calendar date this timestamp falls on
    /// (days since 1970-01-01).
    pub open spec fn spec_day(self) -> int {
        self.secs as int / 86400
    }

    /// Seconds elapsed since the midnight this timestamp follows.
    pub open spec fn spec_time_of_day(self) -> int {
        self.secs as int % 86400
    }

    pub fn day(self) -> (r: u64)
        ensures
            r == self.spec_day(),
    {
        self.secs / SECS_PER_DAY
    }

    pub fn time_of_day(self) -> (r: u32)
        ensures
            r == self.spec_time_of_day(),
            r < 86400,
    {
        (self.secs % SECS_PER_DAY) as u32
    }
}

pub open spec fn spec_is_leap_year(y: int) -> bool {
    (y % 4 == 0 && y % 100 != 0) || y % 400 == 0
}

pub open spec fn spec_days_in_year(y: int) -> int {
    if spec_is_leap_year(y) {
        366
    } else {
        365
    }
}

pub open spec fn spec_days_in_month(y: int, m: int) -> int {
    if m == 2 {
        if spec_is_leap_year(y) {
            29
        } else {
            28
        }
    } else if m == 4 || m == 6 || m == 9 || m == 11 {
        30
    } else {
        31
    }
}

/// The calendar dates the library accepts: real civil dates from 1970
/// through year 9999.
pub open spec fn spec_valid_date(y: int, m: int, d: int) -> bool {
    &&& 1970 <= y <= 9999
    &&& 1 <= m <= 12
    &&& 1 <= d <= spec_days_in_month(y, m)
}

/// Days from 1970-01-01 to the first day of year `y`.
pub open spec fn spec_days_before_year(y: int) -> int
    decreases y,
{
    if y <= 1970 {
        0
    } else {
        spec_days_before_year(y - 1) + spec_days_in_year(y - 1)
    }
}

/// Days from the first of January of year `y` to the first day of month `m`.
pub open spec fn spec_days_before_month(y: int, m: int) -> int
    decreases m,
{
    if m <= 1 {
        0
    } else {
        spec_days_before_month(y, m - 1) + spec_days_in_month(y, m - 1)
    }
}

/// Day number (days since 1970-01-01) of the civil date `y-m-d`.
pub open spec fn spec_day_number(y: int, m: int, d: int) -> int {
    spec_days_before_year(y) + spec_days_before_month(y, m) + d - 1
}

proof fn lemma_days_before_year_bound(y: int)
    requires
        1970 <= y <= 10000,
    ensures
        0 <= spec_days_before_year(y) <= (y - 1970) * 366,
    decreases y,
{
    if y > 1970 {
        lemma_days_before_year_bound(y - 1);
    }
}

proof fn lemma_days_before_month_bound(y: int, m: int)
    requires
        1 <= m <= 13,
    ensures
        0 <= spec_days_before_month(y, m) <= (m - 1) * 31,
    decreases m,
{
    if m > 1 {
        lemma_days_before_month_bound(y, m - 1);
    }
}

pub fn is_leap_year(y: u64) -> (r: bool)
    ensures
        r == spec_is_leap_year(y as int),
{
    (y % 4 == 0 && y % 100 != 0) || y % 400 == 0
}

pub fn days_in_month(y: u64, m: u64) -> (r: u64)
    ensures
        r == spec_days_in_month(y as int, m as int),
{
    if m == 2 {
        if is_leap_year(y) {
            29
        } else {
            28
        }
    } else if m == 4 || m == 6 || m == 9 || m == 11 {
        30
    } else {
        31
    }
}

/// Day number of a valid civil date, by walking the years since 1970 and the
/// months since January.
pub fn day_number_from_civil(y: u64, m: u64, d: u64) -> (r: u64)
    requires
        spec_valid_date(y as int, m as int, d as int),
    ensures
        r == spec_day_number(y as int, m as int, d as int),
        r <= 2939000,
{
    let mut days: u64 = 0;
    let mut yy: u64 = 1970;
    while yy < y
        invariant
            1970 <= yy <= y <= 9999,
            days == spec_days_before_year(yy as int),
            days <= (yy - 1970) * 366,
        decreases y - yy,
    {
        proof {
            lemma_days_before_year_bound(yy as int);
        }
        days = days + if is_leap_year(yy) {
            366
        } else {
            365
        };
        yy = yy + 1;
    }
    proof {
        lemma_days_before_year_bound(y as int);
    }
    let mut mm: u64 = 1;
    let mut mdays: u64 = 0;
    while mm < m
        invariant
            1 <= mm <= m <= 12,
            mdays == spec_days_before_month(y as int, mm as int),
            mdays <= (mm - 1) * 31,
        decreases m - mm,
    {
        proof {
            lemma_days_before_month_bound(y as int, mm as int);
        }
        mdays = mdays + days_in_month(y, mm);
        mm = mm + 1;
    }
    proof {
        lemma_days_before_month_bound(y as int, m as int);
    }
    days + mdays + d - 1
}

/// Weekday index of a day number: 0 is Monday through 6 is Sunday
/// (1970-01-01 was a Thursday, index 3).
pub open spec fn spec_weekday_of_day(day: int) -> int {
    (day + 3) % 7
}

pub fn weekday_of_day(day: u64) -> (r: u8)
    ensures
        r == spec_weekday_of_day(day as int),
        r < 7,
{
    proof {
        vstd::arithmetic::div_mod::lemma_add_mod_noop(day as int, 3, 7);
    }
    ((day % 7 + 3) % 7) as u8
}

pub open spec fn spec_is_digit(c: char) -> bool {
    '0' <= c && c <= '9'
}

pub open spec fn spec_digit_val(c: char) -> int {
    c as int - '0' as int
}

/// Value of the two-digit decimal number at positions `i`, `i+1`.
pub open spec fn spec_num2(s: Seq<char>, i: int) -> int {
    spec_digit_val(s[i]) * 10 + spec_digit_val(s[i + 1])
}

/// Value of the four-digit decimal number at positions `i` .. `i+3`.
pub open spec fn spec_num4(s: Seq<char>, i: int) -> int {
    spec_digit_val(s[i]) * 1000 + spec_digit_val(s[i + 1]) * 100 + spec_digit_val(s[i + 2]) * 10
        + spec_digit_val(s[i + 3])
}

/// Shape of a telemetry timestamp: `YYYY-MM-DDTHH:MM:SS`, all ASCII digits
/// in the numeric positions.
pub open spec fn spec_ts_shape(s: Seq<char>) -> bool {
    &&& s.len() == 19
    &&& spec_is_digit(s[0]) && spec_is_digit(s[1]) && spec_is_digit(s[2]) && spec_is_digit(s[3])
    &&& s[4] == '-'
    &&& spec_is_digit(s[5]) && spec_is_digit(s[6])
    &&& s[7] == '-'
    &&& spec_is_digit(s[8]) && spec_is_digit(s[9])
    &&& s[10] == 'T'
    &&& spec_is_digit(s[11]) && spec_is_digit(s[12])
    &&& s[13] == ':'
    &&& spec_is_digit(s[14]) && spec_is_digit(s[15])
    &&& s[16] == ':'
    &&& spec_is_digit(s[17]) && spec_is_digit(s[18])
}

/// What a well-formed timestamp string denotes: its second count, or `None`
/// when the shape, the date or the time of day is invalid.
pub open spec fn spec_parse_timestamp(s: Seq<char>) -> Option<int> {
    if !spec_ts_shape(s) {
        None
    } else {
        let y = spec_num4(s, 0);
        let m = spec_num2(s, 5);
        let d = spec_num2(s, 8);
        let hh = spec_num2(s, 11);
        let mi = spec_num2(s, 14);
        let ss = spec_num2(s, 17);
        if spec_valid_date(y, m, d) && hh < 24 && mi < 60 && ss < 60 {
            Some(spec_day_number(y, m, d) * 86400 + hh * 3600 + mi * 60 + ss)
        } else {
            None
        }
    }
}

/// Shape of a schedule time bound: `HH:MM`.
pub open spec fn spec_hhmm_shape(s: Seq<char>) -> bool {
    &&& s.len() == 5
    &&& spec_is_digit(s[0]) && spec_is_digit(s[1])
    &&& s[2] == ':'
    &&& spec_is_digit(s[3]) && spec_is_digit(s[4])
}

/// What an `HH:MM` string denotes: seconds since midnight.
pub open spec fn spec_parse_hhmm(s: Seq<char>) -> Option<int> {
    if !spec_hhmm_shape(s) {
        None
    } else {
        let hh = spec_num2(s, 0);
        let mi = spec_num2(s, 3);
        if hh < 24 && mi < 60 {
            Some(hh * 3600 + mi * 60)
        } else {
            None
        }
    }
}

/// Shape of a calendar-date schedule key: `YYYY-MM-DD`.
pub open spec fn spec_date_shape(s: Seq<char>) -> bool {
    &&& s.len() == 10
    &&& spec_is_digit(s[0]) && spec_is_digit(s[1]) && spec_is_digit(s[2]) && spec_is_digit(s[3])
    &&& s[4] == '-'
    &&& spec_is_digit(s[5]) && spec_is_digit(s[6])
    &&& s[7] == '-'
    &&& spec_is_digit(s[8]) && spec_is_digit(s[9])
}

/// What a `YYYY-MM-DD` string denotes: the day number of that date.
pub open spec fn spec_parse_date(s: Seq<char>) -> Option<int> {
    if !spec_date_shape(s) {
        None
    } else {
        let y = spec_num4(s, 0);
        let m = spec_num2(s, 5);
        let d = spec_num2(s, 8);
        if spec_valid_date(y, m, d) {
            Some(spec_day_number(y, m, d))
        } else {
            None
        }
    }
}

/// Reads byte `i` of an ASCII string and relates it to the character view.
fn ascii_byte_at(s: &str, i: usize) -> (r: u8)
    requires
        s.is_ascii(),
        i < s@.len(),
    ensures
        r == s@[i as int] as u8,
        s@[i as int] as int == r as int,
        r < 128,
{
    proof {
        vstd::string::is_ascii_spec_bytes(s);
        assert(s@[i as int] <= '\u{7f}');
        assert(s@[i as int] as int <= 127);
    }
    s.get_ascii(i)
}

/// Reads the ASCII digit at position `i`, or `None` if that character is not
/// a digit.
fn digit_at(s: &str, i: usize) -> (r: Option<u64>)
    requires
        s.is_ascii(),
        i < s@.len(),
    ensures
        match r {
            Some(v) => spec_is_digit(s@[i as int]) && v == spec_digit_val(s@[i as int]) && v <= 9,
            None => !spec_is_digit(s@[i as int]),
        },
{
    let b = ascii_byte_at(s, i);
    if b >= 48 && b <= 57 {
        Some((b - 48) as u64)
    } else {
        None
    }
}

/// Checks that the character at position `i` is exactly the ASCII byte `c`.
fn sep_at(s: &str, i: usize, c: u8) -> (r: bool)
    requires
        s.is_ascii(),
        i < s@.len(),
        c < 128,
    ensures
        r == (s@[i as int] as int == c as int),
{
    ascii_byte_at(s, i) == c
}

/// Reads the two-digit number at positions `i`, `i+1`.
fn num2_at(s: &str, i: usize) -> (r: Option<u64>)
    requires
        s.is_ascii(),
        i + 1 < s@.len(),
        i <= 1000,
    ensures
        match r {
            Some(v) => {
                &&& spec_is_digit(s@[i as int])
                &&& spec_is_digit(s@[i + 1])
                &&& v == spec_num2(s@, i as int)
                &&& v <= 99
            },
            None => !(spec_is_digit(s@[i as int]) && spec_is_digit(s@[i + 1])),
        },
{
    let d0 = digit_at(s, i);
    let d1 = digit_at(s, i + 1);
    match (d0, d1) {
        (Some(a), Some(b)) => Some(a * 10 + b),
        _ => None,
    }
}

/// Reads the four-digit number at positions `i` .. `i+3`.
fn num4_at(s: &str, i: usize) -> (r: Option<u64>)
    requires
        s.is_ascii(),
        i + 3 < s@.len(),
        i <= 998,
    ensures
        match r {
            Some(v) => {
                &&& spec_is_digit(s@[i as int])
                &&& spec_is_digit(s@[i + 1])
                &&& spec_is_digit(s@[i + 2])
                &&& spec_is_digit(s@[i + 3])
                &&& v == spec_num4(s@, i as int)
                &&& v <= 9999
            },
            None => !(spec_is_digit(s@[i as int]) && spec_is_digit(s@[i + 1]) && spec_is_digit(
                s@[i + 2],
            ) && spec_is_digit(s@[i + 3])),
        },
{
    let a = num2_at(s, i);
    let b = num2_at(s, i + 2);
    match (a, b) {
        (Some(a), Some(b)) => Some(a * 100 + b),
        _ => None,
    }
}

/// A string whose characters all pass the shape checks of a timestamp is
/// ASCII: every accepted character is a digit or one of `-`, `T`, `:`.
proof fn lemma_ts_shape_ascii(s: Seq<char>)
    requires
        spec_ts_shape(s),
    ensures
        vstd::utf8::is_ascii_chars(s),
{
    assert forall|i: int| 0 <= i < s.len() implies '\0' <= #[trigger] s[i] <= '\u{7f}' by {
        assert(s.len() == 19);
    }
}

proof fn lemma_hhmm_shape_ascii(s: Seq<char>)
    requires
        spec_hhmm_shape(s),
    ensures
        vstd::utf8::is_ascii_chars(s),
{
    assert forall|i: int| 0 <= i < s.len() implies '\0' <= #[trigger] s[i] <= '\u{7f}' by {
        assert(s.len() == 5);
    }
}

proof fn lemma_date_shape_ascii(s: Seq<char>)
    requires
        spec_date_shape(s),
    ensures
        vstd::utf8::is_ascii_chars(s),
{
    assert forall|i: int| 0 <= i < s.len() implies '\0' <= #[trigger] s[i] <= '\u{7f}' by {
        assert(s.len() == 10);
    }
}

/// Parses a telemetry timestamp `YYYY-MM-DDTHH:MM:SS` into its second count.
pub fn parse_timestamp(s: &str) -> (r: Option<Timestamp>)
    ensures
        match r {
            Some(t) => spec_parse_timestamp(s@) == Some(t.secs as int) && t.secs
                <= MAX_TIMESTAMP_SECS,
            None => spec_parse_timestamp(s@) is None,
        },
{
    if !s.is_ascii() {
        proof {
            if spec_ts_shape(s@) {
                lemma_ts_shape_ascii(s@);
            }
        }
        return None;
    }
    if s.unicode_len() != 19 {
        return None;
    }
    let y = num4_at(s, 0);
    let m = num2_at(s, 5);
    let d = num2_at(s, 8);
    let hh = num2_at(s, 11);
    let mi = num2_at(s, 14);
    let ss = num2_at(s, 17);
    let seps = sep_at(s, 4, 45) && sep_at(s, 7, 45) && sep_at(s, 10, 84) && sep_at(s, 13, 58)
        && sep_at(s, 16, 58);
    match (y, m, d, hh, mi, ss) {
        (Some(y), Some(m), Some(d), Some(hh), Some(mi), Some(ss)) => {
            if !seps {
                return None;
            }
            if !(1970 <= y && y <= 9999 && 1 <= m && m <= 12 && 1 <= d && d <= days_in_month(y, m)
                && hh < 24 && mi < 60 && ss < 60) {
                return None;
            }
            let day = day_number_from_civil(y, m, d);
            Some(Timestamp { secs: day * SECS_PER_DAY + hh * 3600 + mi * 60 + ss })
        },
        _ => None,
    }
}

/// Parses a schedule bound `HH:MM` into seconds since midnight.
pub fn parse_hhmm(s: &str) -> (r: Option<u32>)
    ensures
        match r {
            Some(v) => spec_parse_hhmm(s@) == Some(v as int) && v < 86400,
            None => spec_parse_hhmm(s@) is None,
        },
{
    if !s.is_ascii() {
        proof {
            if spec_hhmm_shape(s@) {
                lemma_hhmm_shape_ascii(s@);
            }
        }
        return None;
    }
    if s.unicode_len() != 5 {
        return None;
    }
    let hh = num2_at(s, 0);
    let mi = num2_at(s, 3);
    if !sep_at(s, 2, 58) {
        return None;
    }
    match (hh, mi) {
        (Some(hh), Some(mi)) => {
            if hh < 24 && mi < 60 {
                Some((hh * 3600 + mi * 60) as u32)
            } else {
                None
            }
        },
        _ => None,
    }
}

/// Parses a calendar-date key `YYYY-MM-DD` into its day number.
pub fn parse_date(s: &str) -> (r: Option<u64>)
    ensures
        match r {
            Some(v) => spec_parse_date(s@) == Some(v as int) && v <= 2939000,
            None => spec_parse_date(s@) is None,
        },
{
    if !s.is_ascii() {
        proof {
            if spec_date_shape(s@) {
                lemma_date_shape_ascii(s@);
            }
        }
        return None;
    }
    if s.unicode_len() != 10 {
        return None;
    }
    let y = num4_at(s, 0);
    let m = num2_at(s, 5);
    let d = num2_at(s, 8);
    if !(sep_at(s, 4, 45) && sep_at(s, 7, 45)) {
        return None;
    }
    match (y, m, d) {
        (Some(y), Some(m), Some(d)) => {
            if 1970 <= y && y <= 9999 && 1 <= m && m <= 12 && 1 <= d && d <= days_in_month(y, m) {
                Some(day_number_from_civil(y, m, d))
            } else {
                None
            }
        },
        _ => None,
    }
}

} // verus!
