//! The CO2 rules of a DUT device: "CO2 above the limit" and its end-of-day
//! variant. Both accumulate violation seconds, reset the accumulator on day
//! rollover, fire once the accumulated time, counting the current reading,
//! reaches ten minutes, and then hold a 24-hour debounce. The accumulator
//! is deliberately not cleared by a firing, only by the day rollover.

use vstd::prelude::*;

use crate::debounce::{is_debounced, sat_add, spec_debounced, spec_sat_add};
use crate::delta::{get_telemetry_delta, spec_delta_secs};
use crate::detection::{Detection, DetectionKind};
use crate::idmap::{lemma_mapped_entries_get, IdMap};
use crate::notifs_cfg::{DutAutomationConfig, NotifRuleCfg};
use crate::notifs_dut::NotifsDut;
use crate::telemetry::DutTelemetry;
use crate::timebase::Timestamp;

verus! {

/// The CO2 rules fire once the accumulated violation seconds, counting
/// the current reading, reach this threshold.
pub const CO2_ACC_FIRE_SECS: u64 = 600;

/// The CO2 bound a device's automation parameters provide, if any.
pub open spec fn spec_cfg_co2max(cfg: Option<DutAutomationConfig>) -> Option<i64> {
    match cfg {
        Some(c) => c.co2max,
        None => None,
    }
}

/// The last CO2 sample, the previous-sample cache for the CO2 delta
/// clock.
#[derive(Clone, Copy, Debug)]
pub struct LastDutCO2 {
    pub timestamp: Timestamp,
    pub co2: i64,
}

/// Runtime state of one "CO2 above the limit" rule (`"DUT_CO2 >"`).
/// `co2max` is in hundredths of a ppm; `last_notif_sent` is the monotonic
/// second of the last firing; `acc_t` counts violation seconds.
#[derive(Clone, Copy, Debug)]
pub struct NotifDutCO2High {
    pub notif_id: u64,
    pub last_notif_sent: Option<u64>,
    pub acc_t: u64,
    pub co2max: i64,
}

impl NotifDutCO2High {
    /// What the rule's configuration item denotes: the fresh rule, or
    /// nothing when the device's `CO2MAX` bound is missing.
    pub open spec fn spec_from_notif_cfg(
        item: NotifRuleCfg,
        cfg: Option<DutAutomationConfig>,
    ) -> Option<Self> {
        match spec_cfg_co2max(cfg) {
            Some(m) => Some(
                NotifDutCO2High {
                    notif_id: item.notif_id,
                    last_notif_sent: None,
                    acc_t: 0,
                    co2max: m,
                },
            ),
            None => None,
        }
    }

    /// Builds the rule from its configuration item. The device's `CO2MAX`
    /// bound is required; without it the rule is rejected.
    pub fn from_notif_cfg(
        updated_notif_data: &NotifRuleCfg,
        automation_cfg: &Option<DutAutomationConfig>,
    ) -> (r: Result<Self, &'static str>)
        ensures
            match r {
                Ok(s) => Self::spec_from_notif_cfg(*updated_notif_data, *automation_cfg) == Some(
                    s,
                ),
                Err(_) => Self::spec_from_notif_cfg(*updated_notif_data, *automation_cfg) is None,
            },
    {
        let co2max = match automation_cfg {
            Some(cfg) => cfg.co2max,
            None => None,
        };
        let co2max = match co2max {
            Some(x) => x,
            None => {
                return Err("CO2MAX is required for this notification");
            },
        };
        Ok(
            Self {
                notif_id: updated_notif_data.notif_id,
                acc_t: 0,
                last_notif_sent: None,
                co2max,
            },
        )
    }

    /// The carry-forward of a configuration reload: the freshly configured
    /// rule keeps the runtime fields (debounce instant, accumulator) of the
    /// prior instance of the same id.
    pub open spec fn spec_carry(new: Self, existing: Option<Self>) -> Self {
        match existing {
            Some(e) => NotifDutCO2High {
                notif_id: new.notif_id,
                co2max: new.co2max,
                last_notif_sent: e.last_notif_sent,
                acc_t: e.acc_t,
            },
            None => new,
        }
    }

    pub fn update_notif_parameters(&mut self, existing: Option<&Self>)
        ensures
            *final(self) == Self::spec_carry(
                *old(self),
                match existing {
                    Some(e) => Some(*e),
                    None => None,
                },
            ),
    {
        if let Some(existing) = existing {
            self.last_notif_sent = existing.last_notif_sent;
            self.acc_t = existing.acc_t;
        }
    }

    /// Carries runtime state forward from `list_old` into every rule of
    /// `list_new`, id by id.
    pub fn update_new_notifs_parameters(list_old: &IdMap<Self>, list_new: &mut IdMap<Self>)
        requires
            list_old.wf(),
            old(list_new).wf(),
        ensures
            final(list_new).wf(),
            forall|id: u64|
                #[trigger] final(list_new).spec_get(id) == match old(list_new).spec_get(id) {
                    Some(r) => Some(Self::spec_carry(r, list_old.spec_get(id))),
                    None => None,
                },
    {
        let n = list_new.entries.len();
        let mut i: usize = 0;
        while i < n
            invariant
                i <= n,
                n == list_new.entries@.len(),
                list_old.wf(),
                old(list_new).wf(),
                forall|k: int|
                    0 <= k < i ==> #[trigger] list_new.entries@[k] == (
                        old(list_new).entries@[k].0,
                        Self::spec_carry(
                            old(list_new).entries@[k].1,
                            list_old.spec_get(old(list_new).entries@[k].0),
                        ),
                    ),
                forall|k: int|
                    i <= k < n ==> #[trigger] list_new.entries@[k] == old(list_new).entries@[k],
            decreases n - i,
        {
            let (id, mut r) = list_new.entries[i];
            let ex = list_old.get(id);
            r.update_notif_parameters(ex.as_ref());
            list_new.entries[i] = (id, r);
            i = i + 1;
        }
        proof {
            assert forall|id: u64|
                #[trigger] final(list_new).spec_get(id) == match old(list_new).spec_get(id) {
                    Some(r) => Some(Self::spec_carry(r, list_old.spec_get(id))),
                    None => None,
                } by {
                lemma_mapped_entries_get(
                    old(list_new).entries@,
                    list_new.entries@,
                    |k: u64, v: Self| Self::spec_carry(v, list_old.spec_get(k)),
                    id,
                );
            }
            assert(final(list_new).wf()) by {
                lemma_mapped_entries_get(
                    old(list_new).entries@,
                    list_new.entries@,
                    |k: u64, v: Self| Self::spec_carry(v, list_old.spec_get(k)),
                    0u64,
                );
            }
        }
    }

    /// One reading's effect on the rule: the successor state and the
    /// detection it emits, if any. In order: a day rollover clears the
    /// accumulator; a firing within the last 24 hours suppresses the rest;
    /// otherwise a reading above the bound accumulates the elapsed seconds
    /// and fires once the accumulated time reaches the threshold. Firing
    /// records the instant but does not clear the accumulator.
    pub open spec fn spec_on_dut_telemetry(
        r: Self,
        co2: i64,
        ts: Timestamp,
        delta_secs: u64,
        new_day: bool,
        now: u64,
        dev_id: String,
    ) -> (Self, Option<Detection>) {
        let acc0: u64 = if new_day {
            0u64
        } else {
            r.acc_t
        };
        if spec_debounced(r.last_notif_sent, now as int) {
            (
                NotifDutCO2High {
                    notif_id: r.notif_id,
                    co2max: r.co2max,
                    last_notif_sent: r.last_notif_sent,
                    acc_t: acc0,
                },
                None,
            )
        } else if co2 > r.co2max {
            let acc1 = spec_sat_add(acc0 as int, delta_secs as int) as u64;
            if acc1 >= CO2_ACC_FIRE_SECS {
                (
                    NotifDutCO2High {
                        notif_id: r.notif_id,
                        co2max: r.co2max,
                        last_notif_sent: Some(now),
                        acc_t: acc1,
                    },
                    Some(
                        Detection {
                            dev_id,
                            notif_id: r.notif_id,
                            telemetry_timestamp: ts,
                            kind: DetectionKind::DutCo2High { co2max: r.co2max },
                        },
                    ),
                )
            } else {
                (
                    NotifDutCO2High {
                        notif_id: r.notif_id,
                        co2max: r.co2max,
                        last_notif_sent: r.last_notif_sent,
                        acc_t: acc1,
                    },
                    None,
                )
            }
        } else {
            (
                NotifDutCO2High {
                    notif_id: r.notif_id,
                    co2max: r.co2max,
                    last_notif_sent: r.last_notif_sent,
                    acc_t: acc0,
                },
                None,
            )
        }
    }

    /// Feeds one CO2 reading (hundredths of a ppm) to the rule.
    /// `now_monotonic` is the current monotonic second, used for the
    /// 24-hour debounce.
    pub fn on_dut_telemetry(
        &mut self,
        telemetry_co2: i64,
        telemetry_timestamp: &Timestamp,
        delta_secs: u64,
        new_day: bool,
        dev_id: &String,
        now_monotonic: u64,
    ) -> (r: Option<Detection>)
        ensures
            *final(self) == Self::spec_on_dut_telemetry(
                *old(self),
                telemetry_co2,
                *telemetry_timestamp,
                delta_secs,
                new_day,
                now_monotonic,
                *dev_id,
            ).0,
            r == Self::spec_on_dut_telemetry(
                *old(self),
                telemetry_co2,
                *telemetry_timestamp,
                delta_secs,
                new_day,
                now_monotonic,
                *dev_id,
            ).1,
    {
        if new_day {
            self.acc_t = 0;
        }
        if is_debounced(&self.last_notif_sent, now_monotonic) {
            return None;
        }
        if telemetry_co2 > self.co2max {
            self.acc_t = sat_add(self.acc_t, delta_secs);
            if self.acc_t >= CO2_ACC_FIRE_SECS {
                self.last_notif_sent = Some(now_monotonic);
                return Some(
                    Detection {
                        dev_id: dev_id.clone(),
                        notif_id: self.notif_id,
                        telemetry_timestamp: *telemetry_timestamp,
                        kind: DetectionKind::DutCo2High { co2max: self.co2max },
                    },
                );
            }
        }
        None
    }
}

/// A firing is always on time and always recorded: the rule only fires
/// outside its 24-hour debounce window, above its bound, once the
/// accumulated time counting the current reading reaches the threshold,
/// and the successor state carries the firing instant.
pub proof fn lemma_co2_high_fires_only_when_due(
    r: NotifDutCO2High,
    co2: i64,
    ts: Timestamp,
    delta_secs: u64,
    new_day: bool,
    now: u64,
    dev_id: String,
)
    ensures
        ({
            let step = NotifDutCO2High::spec_on_dut_telemetry(
                r,
                co2,
                ts,
                delta_secs,
                new_day,
                now,
                dev_id,
            );
            step.1 is Some ==> !spec_debounced(r.last_notif_sent, now as int) && co2 > r.co2max
                && step.0.last_notif_sent == Some(now) && spec_sat_add(
                (if new_day {
                    0
                } else {
                    r.acc_t as int
                }),
                delta_secs as int,
            ) >= CO2_ACC_FIRE_SECS
        }),
{
}

/// Once fired, the rule stays silent for a day: a second reading whose
/// monotonic clock lies within 24 hours of the firing emits nothing,
/// whatever the reading says.
pub proof fn lemma_co2_high_24h_suppression(
    r: NotifDutCO2High,
    co2: i64,
    ts: Timestamp,
    delta_secs: u64,
    new_day: bool,
    now: u64,
    dev_id: String,
    co2b: i64,
    tsb: Timestamp,
    delta_b: u64,
    new_day_b: bool,
    now_b: u64,
    dev_id_b: String,
)
    ensures
        ({
            let step1 = NotifDutCO2High::spec_on_dut_telemetry(
                r,
                co2,
                ts,
                delta_secs,
                new_day,
                now,
                dev_id,
            );
            let step2 = NotifDutCO2High::spec_on_dut_telemetry(
                step1.0,
                co2b,
                tsb,
                delta_b,
                new_day_b,
                now_b,
                dev_id_b,
            );
            ((step1.1 is Some) && now_b < now + 86400) ==> (step2.1 is None)
        }),
{
}

/// A day rollover clears the accumulator even mid-episode: whatever was
/// accumulated before, after a reading with `new_day` set the accumulator
/// holds at most that one reading's elapsed seconds.
pub proof fn lemma_co2_high_day_rollover_reset(
    r: NotifDutCO2High,
    co2: i64,
    ts: Timestamp,
    delta_secs: u64,
    now: u64,
    dev_id: String,
)
    ensures
        NotifDutCO2High::spec_on_dut_telemetry(r, co2, ts, delta_secs, true, now, dev_id).0.acc_t
            <= delta_secs,
{
}


/// Runtime state of one "CO2 above the limit, end of day" rule
/// (`"DUT_CO2 D>"`): the same accumulate / fire / debounce / day-reset
/// machine as `NotifDutCO2High`, evaluated as its own rule kind with its
/// own accumulation window.
#[derive(Clone, Copy, Debug)]
pub struct NotifDutCO2HighEndOfDay {
    pub notif_id: u64,
    pub last_notif_sent: Option<u64>,
    pub acc_t: u64,
    pub co2max: i64,
}

impl NotifDutCO2HighEndOfDay {
    /// What the rule's configuration item denotes: the fresh rule, or
    /// nothing when the device's `CO2MAX` bound is missing.
    pub open spec fn spec_from_notif_cfg(
        item: NotifRuleCfg,
        cfg: Option<DutAutomationConfig>,
    ) -> Option<Self> {
        match spec_cfg_co2max(cfg) {
            Some(m) => Some(
                NotifDutCO2HighEndOfDay {
                    notif_id: item.notif_id,
                    last_notif_sent: None,
                    acc_t: 0,
                    co2max: m,
                },
            ),
            None => None,
        }
    }

    /// Builds the rule from its configuration item. The device's `CO2MAX`
    /// bound is required; without it the rule is rejected.
    pub fn from_notif_cfg(
        updated_notif_data: &NotifRuleCfg,
        automation_cfg: &Option<DutAutomationConfig>,
    ) -> (r: Result<Self, &'static str>)
        ensures
            match r {
                Ok(s) => Self::spec_from_notif_cfg(*updated_notif_data, *automation_cfg) == Some(
                    s,
                ),
                Err(_) => Self::spec_from_notif_cfg(*updated_notif_data, *automation_cfg) is None,
            },
    {
        let co2max = match automation_cfg {
            Some(cfg) => cfg.co2max,
            None => None,
        };
        let co2max = match co2max {
            Some(x) => x,
            None => {
                return Err("CO2MAX is required for this notification");
            },
        };
        Ok(
            Self {
                notif_id: updated_notif_data.notif_id,
                acc_t: 0,
                last_notif_sent: None,
                co2max,
            },
        )
    }

    /// The carry-forward of a configuration reload: runtime fields survive,
    /// parameters are replaced.
    pub open spec fn spec_carry(new: Self, existing: Option<Self>) -> Self {
        match existing {
            Some(e) => NotifDutCO2HighEndOfDay {
                notif_id: new.notif_id,
                co2max: new.co2max,
                last_notif_sent: e.last_notif_sent,
                acc_t: e.acc_t,
            },
            None => new,
        }
    }

    pub fn update_notif_parameters(&mut self, existing: Option<&Self>)
        ensures
            *final(self) == Self::spec_carry(
                *old(self),
                match existing {
                    Some(e) => Some(*e),
                    None => None,
                },
            ),
    {
        if let Some(existing) = existing {
            self.last_notif_sent = existing.last_notif_sent;
            self.acc_t = existing.acc_t;
        }
    }

    /// Carries runtime state forward from `list_old` into every rule of
    /// `list_new`, id by id.
    pub fn update_new_notifs_parameters(list_old: &IdMap<Self>, list_new: &mut IdMap<Self>)
        requires
            list_old.wf(),
            old(list_new).wf(),
        ensures
            final(list_new).wf(),
            forall|id: u64|
                #[trigger] final(list_new).spec_get(id) == match old(list_new).spec_get(id) {
                    Some(r) => Some(Self::spec_carry(r, list_old.spec_get(id))),
                    None => None,
                },
    {
        let n = list_new.entries.len();
        let mut i: usize = 0;
        while i < n
            invariant
                i <= n,
                n == list_new.entries@.len(),
                list_old.wf(),
                old(list_new).wf(),
                forall|k: int|
                    0 <= k < i ==> #[trigger] list_new.entries@[k] == (
                        old(list_new).entries@[k].0,
                        Self::spec_carry(
                            old(list_new).entries@[k].1,
                            list_old.spec_get(old(list_new).entries@[k].0),
                        ),
                    ),
                forall|k: int|
                    i <= k < n ==> #[trigger] list_new.entries@[k] == old(list_new).entries@[k],
            decreases n - i,
        {
            let (id, mut r) = list_new.entries[i];
            let ex = list_old.get(id);
            r.update_notif_parameters(ex.as_ref());
            list_new.entries[i] = (id, r);
            i = i + 1;
        }
        proof {
            assert forall|id: u64|
                #[trigger] final(list_new).spec_get(id) == match old(list_new).spec_get(id) {
                    Some(r) => Some(Self::spec_carry(r, list_old.spec_get(id))),
                    None => None,
                } by {
                lemma_mapped_entries_get(
                    old(list_new).entries@,
                    list_new.entries@,
                    |k: u64, v: Self| Self::spec_carry(v, list_old.spec_get(k)),
                    id,
                );
            }
            assert(final(list_new).wf()) by {
                lemma_mapped_entries_get(
                    old(list_new).entries@,
                    list_new.entries@,
                    |k: u64, v: Self| Self::spec_carry(v, list_old.spec_get(k)),
                    0u64,
                );
            }
        }
    }

    /// One reading's effect on the rule; the same machine as
    /// `NotifDutCO2High::spec_on_dut_telemetry`, firing under its own kind.
    pub open spec fn spec_on_dut_telemetry(
        r: Self,
        co2: i64,
        ts: Timestamp,
        delta_secs: u64,
        new_day: bool,
        now: u64,
        dev_id: String,
    ) -> (Self, Option<Detection>) {
        let acc0: u64 = if new_day {
            0u64
        } else {
            r.acc_t
        };
        if spec_debounced(r.last_notif_sent, now as int) {
            (
                NotifDutCO2HighEndOfDay {
                    notif_id: r.notif_id,
                    co2max: r.co2max,
                    last_notif_sent: r.last_notif_sent,
                    acc_t: acc0,
                },
                None,
            )
        } else if co2 > r.co2max {
            let acc1 = spec_sat_add(acc0 as int, delta_secs as int) as u64;
            if acc1 >= CO2_ACC_FIRE_SECS {
                (
                    NotifDutCO2HighEndOfDay {
                        notif_id: r.notif_id,
                        co2max: r.co2max,
                        last_notif_sent: Some(now),
                        acc_t: acc1,
                    },
                    Some(
                        Detection {
                            dev_id,
                            notif_id: r.notif_id,
                            telemetry_timestamp: ts,
                            kind: DetectionKind::DutCo2HighEndOfDay { co2max: r.co2max },
                        },
                    ),
                )
            } else {
                (
                    NotifDutCO2HighEndOfDay {
                        notif_id: r.notif_id,
                        co2max: r.co2max,
                        last_notif_sent: r.last_notif_sent,
                        acc_t: acc1,
                    },
                    None,
                )
            }
        } else {
            (
                NotifDutCO2HighEndOfDay {
                    notif_id: r.notif_id,
                    co2max: r.co2max,
                    last_notif_sent: r.last_notif_sent,
                    acc_t: acc0,
                },
                None,
            )
        }
    }

    /// Feeds one CO2 reading (hundredths of a ppm) to the rule.
    pub fn on_dut_telemetry(
        &mut self,
        telemetry_co2: i64,
        telemetry_timestamp: &Timestamp,
        delta_secs: u64,
        new_day: bool,
        dev_id: &String,
        now_monotonic: u64,
    ) -> (r: Option<Detection>)
        ensures
            *final(self) == Self::spec_on_dut_telemetry(
                *old(self),
                telemetry_co2,
                *telemetry_timestamp,
                delta_secs,
                new_day,
                now_monotonic,
                *dev_id,
            ).0,
            r == Self::spec_on_dut_telemetry(
                *old(self),
                telemetry_co2,
                *telemetry_timestamp,
                delta_secs,
                new_day,
                now_monotonic,
                *dev_id,
            ).1,
    {
        if new_day {
            self.acc_t = 0;
        }
        if is_debounced(&self.last_notif_sent, now_monotonic) {
            return None;
        }
        if telemetry_co2 > self.co2max {
            self.acc_t = sat_add(self.acc_t, delta_secs);
            if self.acc_t >= CO2_ACC_FIRE_SECS {
                self.last_notif_sent = Some(now_monotonic);
                return Some(
                    Detection {
                        dev_id: dev_id.clone(),
                        notif_id: self.notif_id,
                        telemetry_timestamp: *telemetry_timestamp,
                        kind: DetectionKind::DutCo2HighEndOfDay { co2max: self.co2max },
                    },
                );
            }
        }
        None
    }
}

/// The detections that feeding one reading to every rule of a
/// "CO2 above the limit" map emits, in map order.
pub open spec fn spec_run_co2_high_dets(
    entries: Seq<(u64, NotifDutCO2High)>,
    co2: i64,
    ts: Timestamp,
    delta_secs: u64,
    new_day: bool,
    now: u64,
    dev_id: String,
) -> Seq<Detection>
    decreases entries.len(),
{
    if entries.len() == 0 {
        Seq::empty()
    } else {
        let prev = spec_run_co2_high_dets(
            entries.drop_last(),
            co2,
            ts,
            delta_secs,
            new_day,
            now,
            dev_id,
        );
        let step = NotifDutCO2High::spec_on_dut_telemetry(
            entries.last().1,
            co2,
            ts,
            delta_secs,
            new_day,
            now,
            dev_id,
        );
        match step.1 {
            Some(d) => prev.push(d),
            None => prev,
        }
    }
}

/// Feeds one reading to every "CO2 above the limit" rule of the map,
/// stepping each rule's state and appending the emitted detections.
pub fn run_co2_high_rules(
    rules: &mut IdMap<NotifDutCO2High>,
    telemetry_co2: i64,
    telemetry_timestamp: &Timestamp,
    delta_secs: u64,
    new_day: bool,
    dev_id: &String,
    now_monotonic: u64,
    dets: &mut Vec<Detection>,
)
    requires
        old(rules).wf(),
    ensures
        final(rules).wf(),
        final(rules).entries@.len() == old(rules).entries@.len(),
        forall|k: int|
            0 <= k < old(rules).entries@.len() ==> #[trigger] final(rules).entries@[k] == (
                old(rules).entries@[k].0,
                NotifDutCO2High::spec_on_dut_telemetry(
                    old(rules).entries@[k].1,
                    telemetry_co2,
                    *telemetry_timestamp,
                    delta_secs,
                    new_day,
                    now_monotonic,
                    *dev_id,
                ).0,
            ),
        final(dets)@ == old(dets)@ + spec_run_co2_high_dets(
            old(rules).entries@,
            telemetry_co2,
            *telemetry_timestamp,
            delta_secs,
            new_day,
            now_monotonic,
            *dev_id,
        ),
{
    let n = rules.entries.len();
    let mut i: usize = 0;
    while i < n
        invariant
            i <= n,
            n == rules.entries@.len(),
            n == old(rules).entries@.len(),
            forall|k: int|
                0 <= k < i ==> #[trigger] rules.entries@[k] == (
                    old(rules).entries@[k].0,
                    NotifDutCO2High::spec_on_dut_telemetry(
                        old(rules).entries@[k].1,
                        telemetry_co2,
                        *telemetry_timestamp,
                        delta_secs,
                        new_day,
                        now_monotonic,
                        *dev_id,
                    ).0,
                ),
            forall|k: int| i <= k < n ==> #[trigger] rules.entries@[k] == old(rules).entries@[k],
            dets@ == old(dets)@ + spec_run_co2_high_dets(
                old(rules).entries@.take(i as int),
                telemetry_co2,
                *telemetry_timestamp,
                delta_secs,
                new_day,
                now_monotonic,
                *dev_id,
            ),
        decreases n - i,
    {
        let (id, mut r) = rules.entries[i];
        let det = r.on_dut_telemetry(
            telemetry_co2,
            telemetry_timestamp,
            delta_secs,
            new_day,
            dev_id,
            now_monotonic,
        );
        rules.entries[i] = (id, r);
        proof {
            assert(old(rules).entries@.take(i + 1).drop_last() =~= old(rules).entries@.take(
                i as int,
            ));
            assert(old(rules).entries@.take(i + 1).last() == old(rules).entries@[i as int]);
        }
        if let Some(d) = det {
            dets.push(d);
        }
        i = i + 1;
    }
    proof {
        assert(old(rules).entries@.take(n as int) =~= old(rules).entries@);
        assert(final(rules).wf()) by {
            lemma_mapped_entries_get(
                old(rules).entries@,
                rules.entries@,
                |k: u64, v: NotifDutCO2High| NotifDutCO2High::spec_on_dut_telemetry(
                    v,
                    telemetry_co2,
                    *telemetry_timestamp,
                    delta_secs,
                    new_day,
                    now_monotonic,
                    *dev_id,
                ).0,
                0u64,
            );
        }
    }
}

/// The detections that feeding one reading to every rule of a
/// "CO2 above the limit, end of day" map emits, in map order.
pub open spec fn spec_run_co2_endofday_dets(
    entries: Seq<(u64, NotifDutCO2HighEndOfDay)>,
    co2: i64,
    ts: Timestamp,
    delta_secs: u64,
    new_day: bool,
    now: u64,
    dev_id: String,
) -> Seq<Detection>
    decreases entries.len(),
{
    if entries.len() == 0 {
        Seq::empty()
    } else {
        let prev = spec_run_co2_endofday_dets(
            entries.drop_last(),
            co2,
            ts,
            delta_secs,
            new_day,
            now,
            dev_id,
        );
        let step = NotifDutCO2HighEndOfDay::spec_on_dut_telemetry(
            entries.last().1,
            co2,
            ts,
            delta_secs,
            new_day,
            now,
            dev_id,
        );
        match step.1 {
            Some(d) => prev.push(d),
            None => prev,
        }
    }
}

/// Feeds one reading to every "CO2 above the limit, end of day" rule of the
/// map, stepping each rule's state and appending the emitted detections.
pub fn run_co2_endofday_rules(
    rules: &mut IdMap<NotifDutCO2HighEndOfDay>,
    telemetry_co2: i64,
    telemetry_timestamp: &Timestamp,
    delta_secs: u64,
    new_day: bool,
    dev_id: &String,
    now_monotonic: u64,
    dets: &mut Vec<Detection>,
)
    requires
        old(rules).wf(),
    ensures
        final(rules).wf(),
        final(rules).entries@.len() == old(rules).entries@.len(),
        forall|k: int|
            0 <= k < old(rules).entries@.len() ==> #[trigger] final(rules).entries@[k] == (
                old(rules).entries@[k].0,
                NotifDutCO2HighEndOfDay::spec_on_dut_telemetry(
                    old(rules).entries@[k].1,
                    telemetry_co2,
                    *telemetry_timestamp,
                    delta_secs,
                    new_day,
                    now_monotonic,
                    *dev_id,
                ).0,
            ),
        final(dets)@ == old(dets)@ + spec_run_co2_endofday_dets(
            old(rules).entries@,
            telemetry_co2,
            *telemetry_timestamp,
            delta_secs,
            new_day,
            now_monotonic,
            *dev_id,
        ),
{
    let n = rules.entries.len();
    let mut i: usize = 0;
    while i < n
        invariant
            i <= n,
            n == rules.entries@.len(),
            n == old(rules).entries@.len(),
            forall|k: int|
                0 <= k < i ==> #[trigger] rules.entries@[k] == (
                    old(rules).entries@[k].0,
                    NotifDutCO2HighEndOfDay::spec_on_dut_telemetry(
                        old(rules).entries@[k].1,
                        telemetry_co2,
                        *telemetry_timestamp,
                        delta_secs,
                        new_day,
                        now_monotonic,
                        *dev_id,
                    ).0,
                ),
            forall|k: int| i <= k < n ==> #[trigger] rules.entries@[k] == old(rules).entries@[k],
            dets@ == old(dets)@ + spec_run_co2_endofday_dets(
                old(rules).entries@.take(i as int),
                telemetry_co2,
                *telemetry_timestamp,
                delta_secs,
                new_day,
                now_monotonic,
                *dev_id,
            ),
        decreases n - i,
    {
        let (id, mut r) = rules.entries[i];
        let det = r.on_dut_telemetry(
            telemetry_co2,
            telemetry_timestamp,
            delta_secs,
            new_day,
            dev_id,
            now_monotonic,
        );
        rules.entries[i] = (id, r);
        proof {
            assert(old(rules).entries@.take(i + 1).drop_last() =~= old(rules).entries@.take(
                i as int,
            ));
            assert(old(rules).entries@.take(i + 1).last() == old(rules).entries@[i as int]);
        }
        if let Some(d) = det {
            dets.push(d);
        }
        i = i + 1;
    }
    proof {
        assert(old(rules).entries@.take(n as int) =~= old(rules).entries@);
        assert(final(rules).wf()) by {
            lemma_mapped_entries_get(
                old(rules).entries@,
                rules.entries@,
                |k: u64, v: NotifDutCO2HighEndOfDay| NotifDutCO2HighEndOfDay::spec_on_dut_telemetry(
                    v,
                    telemetry_co2,
                    *telemetry_timestamp,
                    delta_secs,
                    new_day,
                    now_monotonic,
                    *dev_id,
                ).0,
                0u64,
            );
        }
    }
}


/// The continuity cap of the CO2 stream, in seconds.
pub const CO2_CONTINUITY_SECS: u64 = 180;

/// How one reading moves the CO2 side of a device's DUT state: the delta
/// clock runs against the CO2 cache, the cache takes the new sample, both
/// CO2 rule maps are stepped, and `outdets` are exactly the detections
/// they emit, plain CO2 rules first. A reading without a CO2 value changes
/// nothing.
pub open spec fn spec_co2_channel(
    nd0: NotifsDut,
    nd1: NotifsDut,
    tel: DutTelemetry,
    dev_id: String,
    now: u64,
    outdets: Seq<Detection>,
) -> bool {
    match tel.eCO2 {
        None => nd1 == nd0 && outdets.len() == 0,
        Some(c) => {
            let co2: i64 = ((c as int) * 100) as i64;
            let prev = nd0.last_co2;
            let delta = match prev {
                Some(l) => spec_delta_secs(tel.timestamp.secs as int, l.timestamp.secs as int, 180),
                None => 0,
            };
            let new_day = match prev {
                Some(l) => tel.timestamp.spec_day() != l.timestamp.spec_day(),
                None => true,
            };
            &&& nd1.last_co2 == Some(LastDutCO2 { timestamp: tel.timestamp, co2: co2 })
            &&& nd1.last_temperature == nd0.last_temperature
            &&& nd1.schedule == nd0.schedule
            &&& nd1.notif_dut_temp_outofbounds == nd0.notif_dut_temp_outofbounds
            &&& nd1.notif_dut_temp_high_critic == nd0.notif_dut_temp_high_critic
            &&& nd1.notif_dut_co2_high.entries@.len() == nd0.notif_dut_co2_high.entries@.len()
            &&& forall|k: int|
                0 <= k < nd0.notif_dut_co2_high.entries@.len()
                    ==> #[trigger] nd1.notif_dut_co2_high.entries@[k] == (
                    nd0.notif_dut_co2_high.entries@[k].0,
                    NotifDutCO2High::spec_on_dut_telemetry(
                        nd0.notif_dut_co2_high.entries@[k].1,
                        co2,
                        tel.timestamp,
                        delta as u64,
                        new_day,
                        now,
                        dev_id,
                    ).0,
                )
            &&& nd1.notif_dut_co2_high_endofday.entries@.len()
                == nd0.notif_dut_co2_high_endofday.entries@.len()
            &&& forall|k: int|
                0 <= k < nd0.notif_dut_co2_high_endofday.entries@.len()
                    ==> #[trigger] nd1.notif_dut_co2_high_endofday.entries@[k] == (
                    nd0.notif_dut_co2_high_endofday.entries@[k].0,
                    NotifDutCO2HighEndOfDay::spec_on_dut_telemetry(
                        nd0.notif_dut_co2_high_endofday.entries@[k].1,
                        co2,
                        tel.timestamp,
                        delta as u64,
                        new_day,
                        now,
                        dev_id,
                    ).0,
                )
            &&& outdets == spec_run_co2_high_dets(
                nd0.notif_dut_co2_high.entries@,
                co2,
                tel.timestamp,
                delta as u64,
                new_day,
                now,
                dev_id,
            ) + spec_run_co2_endofday_dets(
                nd0.notif_dut_co2_high_endofday.entries@,
                co2,
                tel.timestamp,
                delta as u64,
                new_day,
                now,
                dev_id,
            )
        },
    }
}

/// Feeds one reading's CO2 level to a device's DUT state: delta clock,
/// cache update, then every CO2 rule.
pub fn on_dut_telemetry(
    telemetry: &DutTelemetry,
    dev_alerts: &mut NotifsDut,
    dev_id: &String,
    now_monotonic: u64,
    dets: &mut Vec<Detection>,
)
    requires
        old(dev_alerts).wf(),
    ensures
        final(dev_alerts).wf(),
        old(dets)@.len() <= final(dets)@.len(),
        final(dets)@.take(old(dets)@.len() as int) == old(dets)@,
        spec_co2_channel(
            *old(dev_alerts),
            *final(dev_alerts),
            *telemetry,
            *dev_id,
            now_monotonic,
            final(dets)@.skip(old(dets)@.len() as int),
        ),
{
    let telemetry_co2_raw = match telemetry.eCO2 {
        Some(c) => c,
        None => {
            proof {
                assert(final(dets)@.take(old(dets)@.len() as int) =~= old(dets)@);
                assert(final(dets)@.skip(old(dets)@.len() as int) =~= Seq::<Detection>::empty());
            }
            return ;
        },
    };
    let telemetry_co2: i64 = telemetry_co2_raw as i64 * 100;
    let prev_ts = match &dev_alerts.last_co2 {
        Some(l) => Some(l.timestamp),
        None => None,
    };
    let (delta_secs, _descontinuidade, new_day) = get_telemetry_delta(
        &telemetry.timestamp,
        prev_ts.as_ref(),
        CO2_CONTINUITY_SECS,
    );
    dev_alerts.last_co2 = Some(LastDutCO2 { timestamp: telemetry.timestamp, co2: telemetry_co2 });
    let ghost dets0 = dets@;
    run_co2_high_rules(
        &mut dev_alerts.notif_dut_co2_high,
        telemetry_co2,
        &telemetry.timestamp,
        delta_secs,
        new_day,
        dev_id,
        now_monotonic,
        dets,
    );
    let ghost dets1 = dets@;
    run_co2_endofday_rules(
        &mut dev_alerts.notif_dut_co2_high_endofday,
        telemetry_co2,
        &telemetry.timestamp,
        delta_secs,
        new_day,
        dev_id,
        now_monotonic,
        dets,
    );
    proof {
        assert(dets@.take(dets0.len() as int) =~= dets0);
        assert(dets1.skip(dets0.len() as int) =~= spec_run_co2_high_dets(
            old(dev_alerts).notif_dut_co2_high.entries@,
            telemetry_co2,
            telemetry.timestamp,
            delta_secs,
            new_day,
            now_monotonic,
            *dev_id,
        ));
        assert(dets@.skip(dets1.len() as int) =~= spec_run_co2_endofday_dets(
            old(dev_alerts).notif_dut_co2_high_endofday.entries@,
            telemetry_co2,
            telemetry.timestamp,
            delta_secs,
            new_day,
            now_monotonic,
            *dev_id,
        ));
        assert(dets@.skip(dets0.len() as int) =~= (dets1.skip(dets0.len() as int) + dets@.skip(
            dets1.len() as int,
        )));
    }
}

} // verus!
