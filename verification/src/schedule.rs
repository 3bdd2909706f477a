//! The weekly / per-date allow-forbid schedule that gates DUT rule
//! evaluation: a mapping from day keys (an exact calendar date, or a weekday
//! name) to a permission window, looked up exact date first.

use vstd::prelude::*;

use crate::strmap::str_eq;
use crate::timebase::{parse_date, parse_hhmm, spec_parse_date, spec_parse_hhmm, spec_weekday_of_day, weekday_of_day};

verus! {

#[derive(Clone, Copy, Debug, PartialEq, Eq, Structural)]
pub enum ProgPermission {
    Allow,
    Forbid,
    Ventilation,
}

/// One day's program: a permission applied to the inclusive window
/// `[start, end]`, both in seconds since midnight. `end` already carries the
/// 59 extra seconds that make an `HH:MM` bound mean "through that minute".
#[derive(Clone, Copy, Debug, PartialEq, Eq, Structural)]
pub struct DayProg {
    pub permission: ProgPermission,
    pub start: u32,
    pub end: u32,
}

impl DayProg {
    /// Whether `time` (seconds since midnight) lies in `[start, end]`.
    pub open spec fn spec_is_between(&self, time: int) -> bool {
        self.start <= time && time <= self.end
    }

    /// Whether rule evaluation is active at `time`: `Allow` means active
    /// inside the window, `Forbid` means active outside it, `Ventilation`
    /// never activates.
    pub open spec fn spec_is_inside_sched(&self, time: int) -> bool {
        match self.permission {
            ProgPermission::Allow => self.spec_is_between(time),
            ProgPermission::Forbid => !self.spec_is_between(time),
            ProgPermission::Ventilation => false,
        }
    }

    pub fn is_inside_sched(&self, time: u32) -> (r: bool)
        ensures
            r == self.spec_is_inside_sched(time as int),
    {
        let is_between = time >= self.start && time <= self.end;
        match self.permission {
            ProgPermission::Allow => is_between,
            ProgPermission::Forbid => !is_between,
            ProgPermission::Ventilation => false,
        }
    }
}

/// A schedule key: an exact calendar date (by day number) or a weekday
/// (0 is Monday through 6 is Sunday).
#[derive(Clone, Copy, Debug, PartialEq, Eq, Structural)]
pub enum DayKey {
    Cal(u64),
    Wd(u8),
}

/// First entry of `entries` keyed `k`, if any.
pub open spec fn spec_find_prog(entries: Seq<(DayKey, DayProg)>, k: DayKey) -> Option<DayProg>
    decreases entries.len(),
{
    if entries.len() == 0 {
        None
    } else if entries[0].0 == k {
        Some(entries[0].1)
    } else {
        spec_find_prog(entries.skip(1), k)
    }
}

/// The per-device automation schedule, immutable once built.
#[derive(Clone, Debug)]
pub struct AutomationSchedule {
    pub by_day: Vec<(DayKey, DayProg)>,
}

impl AutomationSchedule {
    /// The program `get_for` resolves for a day number: the exact calendar
    /// date entry when one exists, else the entry for that day's weekday.
    pub open spec fn spec_get_for(&self, day: int) -> Option<DayProg> {
        match spec_find_prog(self.by_day@, DayKey::Cal(day as u64)) {
            Some(p) => Some(p),
            None => spec_find_prog(self.by_day@, DayKey::Wd(spec_weekday_of_day(day) as u8)),
        }
    }

    fn find_prog(&self, k: DayKey) -> (r: Option<DayProg>)
        ensures
            r == spec_find_prog(self.by_day@, k),
    {
        let n = self.by_day.len();
        let mut i: usize = 0;
        proof {
            assert(self.by_day@.skip(0) =~= self.by_day@);
        }
        while i < n
            invariant
                i <= n,
                n == self.by_day@.len(),
                spec_find_prog(self.by_day@, k) == spec_find_prog(self.by_day@.skip(i as int), k),
            decreases n - i,
        {
            let (key, prog) = self.by_day[i];
            proof {
                assert(self.by_day@.skip(i as int)[0] == self.by_day@[i as int]);
                assert(self.by_day@.skip(i as int).skip(1) =~= self.by_day@.skip(i + 1));
            }
            if key == k {
                return Some(prog);
            }
            i = i + 1;
        }
        None
    }

    /// Resolves the program for the calendar day with day number `day`:
    /// an exact-date entry always takes precedence over the weekday entry,
    /// and a day with neither yields `None` (no evaluation that day).
    pub fn get_for(&self, day: u64) -> (r: Option<DayProg>)
        ensures
            r == self.spec_get_for(day as int),
    {
        if let Some(prog) = self.find_prog(DayKey::Cal(day)) {
            return Some(prog);
        }
        self.find_prog(DayKey::Wd(weekday_of_day(day)))
    }
}

/// An exact-date entry overrides the weekday entry: whenever the schedule
/// holds a program for the exact calendar date, `get_for` resolves to that
/// program, whatever any weekday entry says.
pub proof fn lemma_exact_date_overrides_weekday(
    sched: AutomationSchedule,
    day: int,
    p: DayProg,
)
    requires
        spec_find_prog(sched.by_day@, DayKey::Cal(day as u64)) == Some(p),
    ensures
        sched.spec_get_for(day) == Some(p),
{
}

/// One day entry of a schedule as it comes off the wire: a day key string
/// (`"mon"`..`"sun"` or `"YYYY-MM-DD"`), a permission string (`"allow"` or
/// `"forbid"`), and two `"HH:MM"` bounds.
#[derive(Clone, Debug)]
pub struct DayProgInput {
    pub day: String,
    pub permission: String,
    pub start: String,
    pub end: String,
}

/// What a day-key string denotes: a weekday, an exact date, or nothing.
pub open spec fn spec_parse_day_key(s: Seq<char>) -> Option<DayKey> {
    if s == "mon"@ {
        Some(DayKey::Wd(0))
    } else if s == "tue"@ {
        Some(DayKey::Wd(1))
    } else if s == "wed"@ {
        Some(DayKey::Wd(2))
    } else if s == "thu"@ {
        Some(DayKey::Wd(3))
    } else if s == "fri"@ {
        Some(DayKey::Wd(4))
    } else if s == "sat"@ {
        Some(DayKey::Wd(5))
    } else if s == "sun"@ {
        Some(DayKey::Wd(6))
    } else {
        match spec_parse_date(s) {
            Some(d) => Some(DayKey::Cal(d as u64)),
            None => None,
        }
    }
}

pub fn parse_day_key(s: &str) -> (r: Option<DayKey>)
    ensures
        r == spec_parse_day_key(s@),
{
    if str_eq(s, "mon") {
        Some(DayKey::Wd(0))
    } else if str_eq(s, "tue") {
        Some(DayKey::Wd(1))
    } else if str_eq(s, "wed") {
        Some(DayKey::Wd(2))
    } else if str_eq(s, "thu") {
        Some(DayKey::Wd(3))
    } else if str_eq(s, "fri") {
        Some(DayKey::Wd(4))
    } else if str_eq(s, "sat") {
        Some(DayKey::Wd(5))
    } else if str_eq(s, "sun") {
        Some(DayKey::Wd(6))
    } else {
        match parse_date(s) {
            Some(d) => Some(DayKey::Cal(d)),
            None => None,
        }
    }
}

/// What one wire entry denotes. `None` means the entry is invalid and the
/// whole schedule is rejected; `Some(None)` means the day key is not
/// recognised and the entry is unreachable by lookup, so it is skipped;
/// `Some(Some(..))` is a live entry, with 59 seconds added to the end bound.
pub open spec fn spec_parse_sched_entry(it: DayProgInput) -> Option<Option<(DayKey, DayProg)>> {
    let perm = if it.permission@ == "allow"@ {
        Some(ProgPermission::Allow)
    } else if it.permission@ == "forbid"@ {
        Some(ProgPermission::Forbid)
    } else {
        None
    };
    match (perm, spec_parse_hhmm(it.start@), spec_parse_hhmm(it.end@)) {
        (Some(perm), Some(start), Some(end)) => match spec_parse_day_key(it.day@) {
            Some(key) => Some(
                Some(
                    (
                        key,
                        DayProg {
                            permission: perm,
                            start: start as u32,
                            end: (end + 59) as u32,
                        },
                    ),
                ),
            ),
            None => Some(None),
        },
        _ => None,
    }
}

/// The schedule a sequence of wire entries denotes, or `None` when any
/// entry is invalid.
pub open spec fn spec_parse_sched(items: Seq<DayProgInput>) -> Option<Seq<(DayKey, DayProg)>>
    decreases items.len(),
{
    if items.len() == 0 {
        Some(Seq::empty())
    } else {
        match (spec_parse_sched(items.drop_last()), spec_parse_sched_entry(items.last())) {
            (Some(rest), Some(Some(e))) => Some(rest.push(e)),
            (Some(rest), Some(None)) => Some(rest),
            _ => None,
        }
    }
}

/// An invalid entry anywhere makes the whole sequence invalid.
proof fn lemma_parse_sched_invalid(items: Seq<DayProgInput>, i: int)
    requires
        0 <= i < items.len(),
        spec_parse_sched_entry(items[i]) is None,
    ensures
        spec_parse_sched(items) is None,
    decreases items.len(),
{
    if i == items.len() - 1 {
        assert(items.last() == items[i]);
    } else {
        assert(items.drop_last()[i] == items[i]);
        lemma_parse_sched_invalid(items.drop_last(), i);
    }
}

/// Builds a schedule from the wire entries. Fails, as the configuration
/// source contract demands, when any entry carries an unknown permission or
/// a malformed time bound; entries under unrecognised day keys are dropped.
pub fn parse_cfg_schedule(items: &Vec<DayProgInput>) -> (r: Result<AutomationSchedule, &'static str>)
    ensures
        match r {
            Ok(sched) => spec_parse_sched(items@) == Some(sched.by_day@),
            Err(_) => spec_parse_sched(items@) is None,
        },
{
    let mut by_day: Vec<(DayKey, DayProg)> = Vec::new();
    let n = items.len();
    let mut i: usize = 0;
    while i < n
        invariant
            i <= n,
            n == items@.len(),
            spec_parse_sched(items@.take(i as int)) == Some(by_day@),
        decreases n - i,
    {
        proof {
            assert(items@.take(i + 1).drop_last() =~= items@.take(i as int));
            assert(items@.take(i + 1).last() == items@[i as int]);
        }
        let it = &items[i];
        let perm = if str_eq(it.permission.as_str(), "allow") {
            Some(ProgPermission::Allow)
        } else if str_eq(it.permission.as_str(), "forbid") {
            Some(ProgPermission::Forbid)
        } else {
            None
        };
        let Some(perm) = perm else {
            proof {
                lemma_parse_sched_invalid(items@, i as int);
            }
            return Err("Incompatible programming permission");
        };
        let Some(start) = parse_hhmm(it.start.as_str()) else {
            proof {
                lemma_parse_sched_invalid(items@, i as int);
            }
            return Err("Invalid schedule start time");
        };
        let Some(end) = parse_hhmm(it.end.as_str()) else {
            proof {
                lemma_parse_sched_invalid(items@, i as int);
            }
            return Err("Invalid schedule end time");
        };
        if let Some(key) = parse_day_key(it.day.as_str()) {
            by_day.push((key, DayProg { permission: perm, start, end: end + 59 }));
        }
        i = i + 1;
    }
    proof {
        assert(items@.take(n as int) =~= items@);
    }
    Ok(AutomationSchedule { by_day })
}

} // verus!
