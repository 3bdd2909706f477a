//! The compressor-hour rules of a DAC device: "compressor running before
//! the hour" and "after the hour". Both are instantaneous checks on the
//! reading's time of day, applicable only while the compressor runs,
//! suppressed by a 24-hour debounce that a day rollover clears.

use vstd::prelude::*;

use crate::debounce::{is_debounced, spec_debounced};
use crate::delta::get_telemetry_delta;
use crate::detection::{Detection, DetectionKind};
use crate::idmap::{lemma_mapped_entries_get, IdMap};
use crate::notifs_cfg::NotifRuleCfg;
use crate::notifs_dac::NotifsDac;
use crate::telemetry::DacTelemetry;
use crate::timebase::{parse_hhmm, spec_parse_hhmm, Timestamp};

verus! {

/// The last compressor-state sample's timestamp, the previous-sample cache
/// for the DAC delta clock.
#[derive(Clone, Copy, Debug)]
pub struct LastDacL1 {
    pub timestamp: Timestamp,
}

/// Runtime state of one "compressor running before the hour" rule
/// (`"COMP_TIME <"`). `time_limit` is in seconds since midnight.
#[derive(Clone, Copy, Debug)]
pub struct NotifCompressorUsedBeforeHour {
    pub notif_id: u64,
    pub last_notif_sent: Option<u64>,
    pub time_limit: u32,
}

/// Runtime state of one "compressor running after the hour" rule
/// (`"COMP_TIME >"`). `time_limit` carries the 59 extra seconds that make
/// an `HH:MM` bound mean "through that minute".
#[derive(Clone, Copy, Debug)]
pub struct NotifCompressorUsedAfterHour {
    pub notif_id: u64,
    pub last_notif_sent: Option<u64>,
    pub time_limit: u32,
}

impl NotifCompressorUsedBeforeHour {
    /// What the rule's configuration item denotes: the fresh rule, or
    /// nothing when `TIME_LIMIT` is missing or malformed.
    pub open spec fn spec_from_notif_cfg(item: NotifRuleCfg) -> Option<Self> {
        match item.cond_pars.time_limit {
            Some(t) => match spec_parse_hhmm(t@) {
                Some(v) => Some(
                    NotifCompressorUsedBeforeHour {
                        notif_id: item.notif_id,
                        last_notif_sent: None,
                        time_limit: v as u32,
                    },
                ),
                None => None,
            },
            None => None,
        }
    }

    /// Builds the rule from its configuration item. `TIME_LIMIT` is
    /// required and must be a valid `HH:MM` string.
    pub fn from_notif_cfg(updated_notif_data: &NotifRuleCfg) -> (r: Result<
        Self,
        &'static str,
    >)
        ensures
            match r {
                Ok(s) => Self::spec_from_notif_cfg(*updated_notif_data) == Some(s),
                Err(_) => Self::spec_from_notif_cfg(*updated_notif_data) is None,
            },
    {
        let time_limit = match &updated_notif_data.cond_pars.time_limit {
            Some(t) => t,
            None => {
                return Err("TIME_LIMIT is required for this notification");
            },
        };
        let time_limit = match parse_hhmm(time_limit.as_str()) {
            Some(t) => t,
            None => {
                return Err("TIME_LIMIT is invalid");
            },
        };
        Ok(Self { notif_id: updated_notif_data.notif_id, last_notif_sent: None, time_limit })
    }

    /// The carry-forward of a configuration reload: the debounce instant
    /// survives, unless the configured hour changed, which frees the rule
    /// to fire again the same day under the new boundary.
    pub open spec fn spec_carry(new: Self, existing: Option<Self>) -> Self {
        match existing {
            Some(e) => if e.time_limit != new.time_limit {
                NotifCompressorUsedBeforeHour { last_notif_sent: None, ..new }
            } else {
                NotifCompressorUsedBeforeHour { last_notif_sent: e.last_notif_sent, ..new }
            },
            None => new,
        }
    }

    pub fn update_notif_parameters(&mut self, existing: Option<&Self>)
        ensures
            *final(self) == Self::spec_carry(
                *old(self),
                match existing {
                    Some(e) => Some(*e),
                    None => None,
                },
            ),
    {
        if let Some(existing) = existing {
            self.last_notif_sent = existing.last_notif_sent;
            let changed_time = existing.time_limit != self.time_limit;
            if changed_time {
                self.last_notif_sent = None;
            }
        }
    }

    /// Carries runtime state forward from `list_old` into every rule of
    /// `list_new`, id by id.
    pub fn update_new_notifs_parameters(list_old: &IdMap<Self>, list_new: &mut IdMap<Self>)
        requires
            list_old.wf(),
            old(list_new).wf(),
        ensures
            final(list_new).wf(),
            forall|id: u64|
                #[trigger] final(list_new).spec_get(id) == match old(list_new).spec_get(id) {
                    Some(r) => Some(Self::spec_carry(r, list_old.spec_get(id))),
                    None => None,
                },
    {
        let n = list_new.entries.len();
        let mut i: usize = 0;
        while i < n
            invariant
                i <= n,
                n == list_new.entries@.len(),
                list_old.wf(),
                old(list_new).wf(),
                forall|k: int|
                    0 <= k < i ==> #[trigger] list_new.entries@[k] == (
                        old(list_new).entries@[k].0,
                        Self::spec_carry(
                            old(list_new).entries@[k].1,
                            list_old.spec_get(old(list_new).entries@[k].0),
                        ),
                    ),
                forall|k: int|
                    i <= k < n ==> #[trigger] list_new.entries@[k] == old(list_new).entries@[k],
            decreases n - i,
        {
            let (id, mut r) = list_new.entries[i];
            let ex = list_old.get(id);
            r.update_notif_parameters(ex.as_ref());
            list_new.entries[i] = (id, r);
            i = i + 1;
        }
        proof {
            assert forall|id: u64|
                #[trigger] final(list_new).spec_get(id) == match old(list_new).spec_get(id) {
                    Some(r) => Some(Self::spec_carry(r, list_old.spec_get(id))),
                    None => None,
                } by {
                lemma_mapped_entries_get(
                    old(list_new).entries@,
                    list_new.entries@,
                    |k: u64, v: Self| Self::spec_carry(v, list_old.spec_get(k)),
                    id,
                );
            }
            assert(final(list_new).wf()) by {
                lemma_mapped_entries_get(
                    old(list_new).entries@,
                    list_new.entries@,
                    |k: u64, v: Self| Self::spec_carry(v, list_old.spec_get(k)),
                    0u64,
                );
            }
        }
    }

    /// One reading's effect on the rule. A reading with the compressor off
    /// changes nothing; a day rollover clears the debounce; then, outside
    /// the debounce window, a reading whose time of day lies before the
    /// configured hour fires at once.
    pub open spec fn spec_on_dac_telemetry(
        r: Self,
        l1: i16,
        ts: Timestamp,
        new_day: bool,
        now: u64,
        dev_id: String,
    ) -> (Self, Option<Detection>) {
        if l1 == 0 {
            (r, None)
        } else {
            let last0 = if new_day {
                None
            } else {
                r.last_notif_sent
            };
            let r0 = NotifCompressorUsedBeforeHour { last_notif_sent: last0, ..r };
            if spec_debounced(last0, now as int) {
                (r0, None)
            } else if ts.spec_time_of_day() < r.time_limit {
                (
                    NotifCompressorUsedBeforeHour { last_notif_sent: Some(now), ..r },
                    Some(
                        Detection {
                            dev_id,
                            notif_id: r.notif_id,
                            telemetry_timestamp: ts,
                            kind: DetectionKind::CompBeforeHour { time_limit: r.time_limit },
                        },
                    ),
                )
            } else {
                (r0, None)
            }
        }
    }

    /// Feeds one compressor-state reading to the rule.
    pub fn on_dac_telemetry(
        &mut self,
        telemetry_l1: i16,
        telemetry_timestamp: &Timestamp,
        new_day: bool,
        dev_id: &String,
        now_monotonic: u64,
    ) -> (r: Option<Detection>)
        ensures
            ({
                let step = Self::spec_on_dac_telemetry(
                    *old(self),
                    telemetry_l1,
                    *telemetry_timestamp,
                    new_day,
                    now_monotonic,
                    *dev_id,
                );
                *final(self) == step.0 && r == step.1
            }),
    {
        if telemetry_l1 == 0 {
            return None;
        }
        if new_day && self.last_notif_sent.is_some() {
            self.last_notif_sent = None;
        }
        if is_debounced(&self.last_notif_sent, now_monotonic) {
            return None;
        }
        if telemetry_timestamp.time_of_day() < self.time_limit {
            self.last_notif_sent = Some(now_monotonic);
            return Some(
                Detection {
                    dev_id: dev_id.clone(),
                    notif_id: self.notif_id,
                    telemetry_timestamp: *telemetry_timestamp,
                    kind: DetectionKind::CompBeforeHour { time_limit: self.time_limit },
                },
            );
        }
        None
    }
}

impl NotifCompressorUsedAfterHour {
    /// What the rule's configuration item denotes: the fresh rule (with 59
    /// seconds added to the bound), or nothing when `TIME_LIMIT` is missing
    /// or malformed.
    pub open spec fn spec_from_notif_cfg(item: NotifRuleCfg) -> Option<Self> {
        match item.cond_pars.time_limit {
            Some(t) => match spec_parse_hhmm(t@) {
                Some(v) => Some(
                    NotifCompressorUsedAfterHour {
                        notif_id: item.notif_id,
                        last_notif_sent: None,
                        time_limit: (v + 59) as u32,
                    },
                ),
                None => None,
            },
            None => None,
        }
    }

    /// Builds the rule from its configuration item. `TIME_LIMIT` is
    /// required and must be a valid `HH:MM` string; 59 seconds are added so
    /// the bound means "through that minute".
    pub fn from_notif_cfg(updated_notif_data: &NotifRuleCfg) -> (r: Result<
        Self,
        &'static str,
    >)
        ensures
            match r {
                Ok(s) => Self::spec_from_notif_cfg(*updated_notif_data) == Some(s),
                Err(_) => Self::spec_from_notif_cfg(*updated_notif_data) is None,
            },
    {
        let time_limit = match &updated_notif_data.cond_pars.time_limit {
            Some(t) => t,
            None => {
                return Err("TIME_LIMIT is required for this notification");
            },
        };
        let time_limit = match parse_hhmm(time_limit.as_str()) {
            Some(t) => t,
            None => {
                return Err("TIME_LIMIT is invalid");
            },
        };
        Ok(
            Self {
                notif_id: updated_notif_data.notif_id,
                last_notif_sent: None,
                time_limit: time_limit + 59,
            },
        )
    }

    /// The carry-forward of a configuration reload: the debounce instant
    /// survives, unless the configured hour changed.
    pub open spec fn spec_carry(new: Self, existing: Option<Self>) -> Self {
        match existing {
            Some(e) => if e.time_limit != new.time_limit {
                NotifCompressorUsedAfterHour { last_notif_sent: None, ..new }
            } else {
                NotifCompressorUsedAfterHour { last_notif_sent: e.last_notif_sent, ..new }
            },
            None => new,
        }
    }

    pub fn update_notif_parameters(&mut self, existing: Option<&Self>)
        ensures
            *final(self) == Self::spec_carry(
                *old(self),
                match existing {
                    Some(e) => Some(*e),
                    None => None,
                },
            ),
    {
        if let Some(existing) = existing {
            self.last_notif_sent = existing.last_notif_sent;
            let changed_time = existing.time_limit != self.time_limit;
            if changed_time {
                self.last_notif_sent = None;
            }
        }
    }

    /// Carries runtime state forward from `list_old` into every rule of
    /// `list_new`, id by id.
    pub fn update_new_notifs_parameters(list_old: &IdMap<Self>, list_new: &mut IdMap<Self>)
        requires
            list_old.wf(),
            old(list_new).wf(),
        ensures
            final(list_new).wf(),
            forall|id: u64|
                #[trigger] final(list_new).spec_get(id) == match old(list_new).spec_get(id) {
                    Some(r) => Some(Self::spec_carry(r, list_old.spec_get(id))),
                    None => None,
                },
    {
        let n = list_new.entries.len();
        let mut i: usize = 0;
        while i < n
            invariant
                i <= n,
                n == list_new.entries@.len(),
                list_old.wf(),
                old(list_new).wf(),
                forall|k: int|
                    0 <= k < i ==> #[trigger] list_new.entries@[k] == (
                        old(list_new).entries@[k].0,
                        Self::spec_carry(
                            old(list_new).entries@[k].1,
                            list_old.spec_get(old(list_new).entries@[k].0),
                        ),
                    ),
                forall|k: int|
                    i <= k < n ==> #[trigger] list_new.entries@[k] == old(list_new).entries@[k],
            decreases n - i,
        {
            let (id, mut r) = list_new.entries[i];
            let ex = list_old.get(id);
            r.update_notif_parameters(ex.as_ref());
            list_new.entries[i] = (id, r);
            i = i + 1;
        }
        proof {
            assert forall|id: u64|
                #[trigger] final(list_new).spec_get(id) == match old(list_new).spec_get(id) {
                    Some(r) => Some(Self::spec_carry(r, list_old.spec_get(id))),
                    None => None,
                } by {
                lemma_mapped_entries_get(
                    old(list_new).entries@,
                    list_new.entries@,
                    |k: u64, v: Self| Self::spec_carry(v, list_old.spec_get(k)),
                    id,
                );
            }
            assert(final(list_new).wf()) by {
                lemma_mapped_entries_get(
                    old(list_new).entries@,
                    list_new.entries@,
                    |k: u64, v: Self| Self::spec_carry(v, list_old.spec_get(k)),
                    0u64,
                );
            }
        }
    }

    /// One reading's effect on the rule: as the before-hour rule, firing
    /// when the reading's time of day lies after the configured bound.
    pub open spec fn spec_on_dac_telemetry(
        r: Self,
        l1: i16,
        ts: Timestamp,
        new_day: bool,
        now: u64,
        dev_id: String,
    ) -> (Self, Option<Detection>) {
        if l1 == 0 {
            (r, None)
        } else {
            let last0 = if new_day {
                None
            } else {
                r.last_notif_sent
            };
            let r0 = NotifCompressorUsedAfterHour { last_notif_sent: last0, ..r };
            if spec_debounced(last0, now as int) {
                (r0, None)
            } else if ts.spec_time_of_day() > r.time_limit {
                (
                    NotifCompressorUsedAfterHour { last_notif_sent: Some(now), ..r },
                    Some(
                        Detection {
                            dev_id,
                            notif_id: r.notif_id,
                            telemetry_timestamp: ts,
                            kind: DetectionKind::CompAfterHour { time_limit: r.time_limit },
                        },
                    ),
                )
            } else {
                (r0, None)
            }
        }
    }

    /// Feeds one compressor-state reading to the rule.
    pub fn on_dac_telemetry(
        &mut self,
        telemetry_l1: i16,
        telemetry_timestamp: &Timestamp,
        new_day: bool,
        dev_id: &String,
        now_monotonic: u64,
    ) -> (r: Option<Detection>)
        ensures
            ({
                let step = Self::spec_on_dac_telemetry(
                    *old(self),
                    telemetry_l1,
                    *telemetry_timestamp,
                    new_day,
                    now_monotonic,
                    *dev_id,
                );
                *final(self) == step.0 && r == step.1
            }),
    {
        if telemetry_l1 == 0 {
            return None;
        }
        if new_day && self.last_notif_sent.is_some() {
            self.last_notif_sent = None;
        }
        if is_debounced(&self.last_notif_sent, now_monotonic) {
            return None;
        }
        if telemetry_timestamp.time_of_day() > self.time_limit {
            self.last_notif_sent = Some(now_monotonic);
            return Some(
                Detection {
                    dev_id: dev_id.clone(),
                    notif_id: self.notif_id,
                    telemetry_timestamp: *telemetry_timestamp,
                    kind: DetectionKind::CompAfterHour { time_limit: self.time_limit },
                },
            );
        }
        None
    }
}

/// The before-hour rule fires only while the compressor runs and only on a
/// reading earlier in the day than its bound; a day rollover frees a
/// debounced rule to fire again.
pub proof fn lemma_before_hour_fires_only_when_due(
    r: NotifCompressorUsedBeforeHour,
    l1: i16,
    ts: Timestamp,
    new_day: bool,
    now: u64,
    dev_id: String,
)
    ensures
        ({
            let step = NotifCompressorUsedBeforeHour::spec_on_dac_telemetry(
                r,
                l1,
                ts,
                new_day,
                now,
                dev_id,
            );
            (step.1 is Some) ==> l1 != 0 && ts.spec_time_of_day() < r.time_limit
                && step.0.last_notif_sent == Some(now) && (!new_day ==> !spec_debounced(
                r.last_notif_sent,
                now as int,
            ))
        }),
{
}

/// The detections that feeding one reading to every before-hour rule of
/// the map emits, in map order.
pub open spec fn spec_run_before_hour_dets(
    entries: Seq<(u64, NotifCompressorUsedBeforeHour)>,
    l1: i16,
    ts: Timestamp,
    new_day: bool,
    now: u64,
    dev_id: String,
) -> Seq<Detection>
    decreases entries.len(),
{
    if entries.len() == 0 {
        Seq::empty()
    } else {
        let prev = spec_run_before_hour_dets(entries.drop_last(), l1, ts, new_day, now, dev_id);
        let step = NotifCompressorUsedBeforeHour::spec_on_dac_telemetry(
            entries.last().1,
            l1,
            ts,
            new_day,
            now,
            dev_id,
        );
        match step.1 {
            Some(d) => prev.push(d),
            None => prev,
        }
    }
}

/// Feeds one reading to every before-hour rule of the map, stepping each
/// rule's state and appending the emitted detections.
pub fn run_before_hour_rules(
    rules: &mut IdMap<NotifCompressorUsedBeforeHour>,
    telemetry_l1: i16,
    telemetry_timestamp: &Timestamp,
    new_day: bool,
    dev_id: &String,
    now_monotonic: u64,
    dets: &mut Vec<Detection>,
)
    requires
        old(rules).wf(),
    ensures
        final(rules).wf(),
        final(rules).entries@.len() == old(rules).entries@.len(),
        forall|k: int|
            0 <= k < old(rules).entries@.len() ==> #[trigger] final(rules).entries@[k] == (
                old(rules).entries@[k].0,
                NotifCompressorUsedBeforeHour::spec_on_dac_telemetry(
                    old(rules).entries@[k].1,
                    telemetry_l1,
                    *telemetry_timestamp,
                    new_day,
                    now_monotonic,
                    *dev_id,
                ).0,
            ),
        final(dets)@ == old(dets)@ + spec_run_before_hour_dets(
            old(rules).entries@,
            telemetry_l1,
            *telemetry_timestamp,
            new_day,
            now_monotonic,
            *dev_id,
        ),
{
    let n = rules.entries.len();
    let mut i: usize = 0;
    while i < n
        invariant
            i <= n,
            n == rules.entries@.len(),
            n == old(rules).entries@.len(),
            forall|k: int|
                0 <= k < i ==> #[trigger] rules.entries@[k] == (
                    old(rules).entries@[k].0,
                    NotifCompressorUsedBeforeHour::spec_on_dac_telemetry(
                        old(rules).entries@[k].1,
                        telemetry_l1,
                        *telemetry_timestamp,
                        new_day,
                        now_monotonic,
                        *dev_id,
                    ).0,
                ),
            forall|k: int| i <= k < n ==> #[trigger] rules.entries@[k] == old(rules).entries@[k],
            dets@ == old(dets)@ + spec_run_before_hour_dets(
                old(rules).entries@.take(i as int),
                telemetry_l1,
                *telemetry_timestamp,
                new_day,
                now_monotonic,
                *dev_id,
            ),
        decreases n - i,
    {
        let (id, mut r) = rules.entries[i];
        let det = r.on_dac_telemetry(
            telemetry_l1,
            telemetry_timestamp,
            new_day,
            dev_id,
            now_monotonic,
        );
        rules.entries[i] = (id, r);
        proof {
            assert(old(rules).entries@.take(i + 1).drop_last() =~= old(rules).entries@.take(
                i as int,
            ));
            assert(old(rules).entries@.take(i + 1).last() == old(rules).entries@[i as int]);
        }
        if let Some(d) = det {
            dets.push(d);
        }
        i = i + 1;
    }
    proof {
        assert(old(rules).entries@.take(n as int) =~= old(rules).entries@);
        assert(final(rules).wf()) by {
            lemma_mapped_entries_get(
                old(rules).entries@,
                rules.entries@,
                |k: u64, v: NotifCompressorUsedBeforeHour|
                    NotifCompressorUsedBeforeHour::spec_on_dac_telemetry(
                        v,
                        telemetry_l1,
                        *telemetry_timestamp,
                        new_day,
                        now_monotonic,
                        *dev_id,
                    ).0,
                0u64,
            );
        }
    }
}

/// The detections that feeding one reading to every after-hour rule of the
/// map emits, in map order.
pub open spec fn spec_run_after_hour_dets(
    entries: Seq<(u64, NotifCompressorUsedAfterHour)>,
    l1: i16,
    ts: Timestamp,
    new_day: bool,
    now: u64,
    dev_id: String,
) -> Seq<Detection>
    decreases entries.len(),
{
    if entries.len() == 0 {
        Seq::empty()
    } else {
        let prev = spec_run_after_hour_dets(entries.drop_last(), l1, ts, new_day, now, dev_id);
        let step = NotifCompressorUsedAfterHour::spec_on_dac_telemetry(
            entries.last().1,
            l1,
            ts,
            new_day,
            now,
            dev_id,
        );
        match step.1 {
            Some(d) => prev.push(d),
            None => prev,
        }
    }
}

/// Feeds one reading to every after-hour rule of the map, stepping each
/// rule's state and appending the emitted detections.
pub fn run_after_hour_rules(
    rules: &mut IdMap<NotifCompressorUsedAfterHour>,
    telemetry_l1: i16,
    telemetry_timestamp: &Timestamp,
    new_day: bool,
    dev_id: &String,
    now_monotonic: u64,
    dets: &mut Vec<Detection>,
)
    requires
        old(rules).wf(),
    ensures
        final(rules).wf(),
        final(rules).entries@.len() == old(rules).entries@.len(),
        forall|k: int|
            0 <= k < old(rules).entries@.len() ==> #[trigger] final(rules).entries@[k] == (
                old(rules).entries@[k].0,
                NotifCompressorUsedAfterHour::spec_on_dac_telemetry(
                    old(rules).entries@[k].1,
                    telemetry_l1,
                    *telemetry_timestamp,
                    new_day,
                    now_monotonic,
                    *dev_id,
                ).0,
            ),
        final(dets)@ == old(dets)@ + spec_run_after_hour_dets(
            old(rules).entries@,
            telemetry_l1,
            *telemetry_timestamp,
            new_day,
            now_monotonic,
            *dev_id,
        ),
{
    let n = rules.entries.len();
    let mut i: usize = 0;
    while i < n
        invariant
            i <= n,
            n == rules.entries@.len(),
            n == old(rules).entries@.len(),
            forall|k: int|
                0 <= k < i ==> #[trigger] rules.entries@[k] == (
                    old(rules).entries@[k].0,
                    NotifCompressorUsedAfterHour::spec_on_dac_telemetry(
                        old(rules).entries@[k].1,
                        telemetry_l1,
                        *telemetry_timestamp,
                        new_day,
                        now_monotonic,
                        *dev_id,
                    ).0,
                ),
            forall|k: int| i <= k < n ==> #[trigger] rules.entries@[k] == old(rules).entries@[k],
            dets@ == old(dets)@ + spec_run_after_hour_dets(
                old(rules).entries@.take(i as int),
                telemetry_l1,
                *telemetry_timestamp,
                new_day,
                now_monotonic,
                *dev_id,
            ),
        decreases n - i,
    {
        let (id, mut r) = rules.entries[i];
        let det = r.on_dac_telemetry(
            telemetry_l1,
            telemetry_timestamp,
            new_day,
            dev_id,
            now_monotonic,
        );
        rules.entries[i] = (id, r);
        proof {
            assert(old(rules).entries@.take(i + 1).drop_last() =~= old(rules).entries@.take(
                i as int,
            ));
            assert(old(rules).entries@.take(i + 1).last() == old(rules).entries@[i as int]);
        }
        if let Some(d) = det {
            dets.push(d);
        }
        i = i + 1;
    }
    proof {
        assert(old(rules).entries@.take(n as int) =~= old(rules).entries@);
        assert(final(rules).wf()) by {
            lemma_mapped_entries_get(
                old(rules).entries@,
                rules.entries@,
                |k: u64, v: NotifCompressorUsedAfterHour|
                    NotifCompressorUsedAfterHour::spec_on_dac_telemetry(
                        v,
                        telemetry_l1,
                        *telemetry_timestamp,
                        new_day,
                        now_monotonic,
                        *dev_id,
                    ).0,
                0u64,
            );
        }
    }
}


/// The continuity cap of the compressor stream, in seconds.
pub const DAC_CONTINUITY_SECS: u64 = 30;

/// How one reading moves a device's DAC state: the delta clock runs
/// against the compressor cache, the cache takes the new timestamp, both
/// compressor-hour rule maps are stepped, and `outdets` are exactly the
/// detections they emit, before-hour rules first. A reading without a
/// compressor channel changes nothing.
pub open spec fn spec_l1_channel(
    nd0: NotifsDac,
    nd1: NotifsDac,
    tel: DacTelemetry,
    dev_id: String,
    now: u64,
    outdets: Seq<Detection>,
) -> bool {
    match tel.Lcmp {
        None => nd1 == nd0 && outdets.len() == 0,
        Some(l1) => {
            let prev = nd0.last_l1;
            let new_day = match prev {
                Some(l) => tel.timestamp.spec_day() != l.timestamp.spec_day(),
                None => true,
            };
            &&& nd1.last_l1 == Some(LastDacL1 { timestamp: tel.timestamp })
            &&& nd1.notif_compressor_used_before_time.entries@.len()
                == nd0.notif_compressor_used_before_time.entries@.len()
            &&& forall|k: int|
                0 <= k < nd0.notif_compressor_used_before_time.entries@.len()
                    ==> #[trigger] nd1.notif_compressor_used_before_time.entries@[k] == (
                    nd0.notif_compressor_used_before_time.entries@[k].0,
                    NotifCompressorUsedBeforeHour::spec_on_dac_telemetry(
                        nd0.notif_compressor_used_before_time.entries@[k].1,
                        l1,
                        tel.timestamp,
                        new_day,
                        now,
                        dev_id,
                    ).0,
                )
            &&& nd1.notif_compressor_used_after_time.entries@.len()
                == nd0.notif_compressor_used_after_time.entries@.len()
            &&& forall|k: int|
                0 <= k < nd0.notif_compressor_used_after_time.entries@.len()
                    ==> #[trigger] nd1.notif_compressor_used_after_time.entries@[k] == (
                    nd0.notif_compressor_used_after_time.entries@[k].0,
                    NotifCompressorUsedAfterHour::spec_on_dac_telemetry(
                        nd0.notif_compressor_used_after_time.entries@[k].1,
                        l1,
                        tel.timestamp,
                        new_day,
                        now,
                        dev_id,
                    ).0,
                )
            &&& outdets == spec_run_before_hour_dets(
                nd0.notif_compressor_used_before_time.entries@,
                l1,
                tel.timestamp,
                new_day,
                now,
                dev_id,
            ) + spec_run_after_hour_dets(
                nd0.notif_compressor_used_after_time.entries@,
                l1,
                tel.timestamp,
                new_day,
                now,
                dev_id,
            )
        },
    }
}

/// Feeds one reading's compressor state to a device's DAC state: delta
/// clock, cache update, then every compressor-hour rule.
pub fn on_dac_telemetry(
    telemetry: &DacTelemetry,
    dev_alerts: &mut NotifsDac,
    dev_id: &String,
    now_monotonic: u64,
    dets: &mut Vec<Detection>,
)
    requires
        old(dev_alerts).wf(),
    ensures
        final(dev_alerts).wf(),
        old(dets)@.len() <= final(dets)@.len(),
        final(dets)@.take(old(dets)@.len() as int) == old(dets)@,
        spec_l1_channel(
            *old(dev_alerts),
            *final(dev_alerts),
            *telemetry,
            *dev_id,
            now_monotonic,
            final(dets)@.skip(old(dets)@.len() as int),
        ),
{
    let telemetry_l1 = match telemetry.Lcmp {
        Some(l) => l,
        None => {
            proof {
                assert(final(dets)@.take(old(dets)@.len() as int) =~= old(dets)@);
                assert(final(dets)@.skip(old(dets)@.len() as int) =~= Seq::<Detection>::empty());
            }
            return ;
        },
    };
    let prev_ts = match &dev_alerts.last_l1 {
        Some(l) => Some(l.timestamp),
        None => None,
    };
    let (_delta_secs, _descontinuidade, new_day) = get_telemetry_delta(
        &telemetry.timestamp,
        prev_ts.as_ref(),
        DAC_CONTINUITY_SECS,
    );
    dev_alerts.last_l1 = Some(LastDacL1 { timestamp: telemetry.timestamp });
    let ghost dets0 = dets@;
    run_before_hour_rules(
        &mut dev_alerts.notif_compressor_used_before_time,
        telemetry_l1,
        &telemetry.timestamp,
        new_day,
        dev_id,
        now_monotonic,
        dets,
    );
    let ghost dets1 = dets@;
    run_after_hour_rules(
        &mut dev_alerts.notif_compressor_used_after_time,
        telemetry_l1,
        &telemetry.timestamp,
        new_day,
        dev_id,
        now_monotonic,
        dets,
    );
    proof {
        assert(dets@.take(dets0.len() as int) =~= dets0);
        assert(dets1.skip(dets0.len() as int) =~= spec_run_before_hour_dets(
            old(dev_alerts).notif_compressor_used_before_time.entries@,
            telemetry_l1,
            telemetry.timestamp,
            new_day,
            now_monotonic,
            *dev_id,
        ));
        assert(dets@.skip(dets1.len() as int) =~= spec_run_after_hour_dets(
            old(dev_alerts).notif_compressor_used_after_time.entries@,
            telemetry_l1,
            telemetry.timestamp,
            new_day,
            now_monotonic,
            *dev_id,
        ));
        assert(dets@.skip(dets0.len() as int) =~= (dets1.skip(dets0.len() as int) + dets@.skip(
            dets1.len() as int,
        )));
    }
}

} // verus!
