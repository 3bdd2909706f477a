//! The temperature rules of a DUT device: the legacy "out of bounds" rule
//! (independent above/below accumulators sharing one 24-hour debounce) and
//! the critical "above limit" rule (a hysteresis episode machine with no
//! debounce at all).

use vstd::prelude::*;

use crate::debounce::{is_debounced, sat_add, sat_mul, spec_debounced, spec_sat_add, spec_sat_mul};
use crate::delta::{get_telemetry_delta, spec_delta_secs, spec_discontinuity};
use crate::detection::{Detection, DetectionKind};
use crate::idmap::{lemma_mapped_entries_get, IdMap};
use crate::notifs_cfg::{DutAutomationConfig, NotifRuleCfg};
use crate::notifs_dut::NotifsDut;
use crate::telemetry::DutTelemetry;
use crate::timebase::Timestamp;

verus! {

/// The out-of-bounds rule fires once a side's accumulated violation
/// seconds, counting the current reading, reach this threshold.
pub const TEMP_ACC_FIRE_SECS: u64 = 600;

/// Default `DURATION_IN_MINUTES` of the critical temperature rule.
pub const CRITIC_DEFAULT_DURATION_MIN: u64 = 10;

/// The temperature bounds a device's automation parameters provide.
pub open spec fn spec_cfg_tuse(cfg: Option<DutAutomationConfig>) -> (Option<i64>, Option<i64>) {
    match cfg {
        Some(c) => (c.tusemax, c.tusemin),
        None => (None, None),
    }
}

/// The last temperature sample, the previous-sample cache for the
/// temperature delta clock and the hysteresis rising-edge test.
#[derive(Clone, Copy, Debug)]
pub struct LastDutTemperature {
    pub timestamp: Timestamp,
    pub temperature: i64,
}

/// Runtime state of one legacy "temperature out of bounds" rule
/// (`"DUT_T T<>T"`). Bounds are in hundredths of a degree; either may be
/// absent, disabling that side. Both sides share `last_notif_sent`.
#[derive(Clone, Copy, Debug)]
pub struct NotifDutTempOutOfBounds {
    pub notif_id: u64,
    pub last_notif_sent: Option<u64>,
    pub seconds_above: u64,
    pub seconds_below: u64,
    pub tusemax: Option<i64>,
    pub tusemin: Option<i64>,
}

impl NotifDutTempOutOfBounds {
    /// What the rule's configuration item denotes: the fresh rule, or
    /// nothing when the device has neither temperature bound.
    pub open spec fn spec_from_notif_cfg(
        item: NotifRuleCfg,
        cfg: Option<DutAutomationConfig>,
    ) -> Option<Self> {
        let bounds = spec_cfg_tuse(cfg);
        if (bounds.0 is None) && (bounds.1 is None) {
            None
        } else {
            Some(
                NotifDutTempOutOfBounds {
                    notif_id: item.notif_id,
                    last_notif_sent: None,
                    seconds_above: 0,
                    seconds_below: 0,
                    tusemax: bounds.0,
                    tusemin: bounds.1,
                },
            )
        }
    }

    /// Builds the rule from its configuration item. At least one of the
    /// device's `TUSEMAX` / `TUSEMIN` bounds is required.
    pub fn from_notif_cfg(
        updated_notif_data: &NotifRuleCfg,
        automation_cfg: &Option<DutAutomationConfig>,
    ) -> (r: Result<Self, &'static str>)
        ensures
            match r {
                Ok(s) => Self::spec_from_notif_cfg(*updated_notif_data, *automation_cfg) == Some(
                    s,
                ),
                Err(_) => Self::spec_from_notif_cfg(*updated_notif_data, *automation_cfg) is None,
            },
    {
        let (tusemax, tusemin) = match automation_cfg {
            Some(cfg) => (cfg.tusemax, cfg.tusemin),
            None => (None, None),
        };
        if tusemax.is_none() && tusemin.is_none() {
            return Err("No temperature bound configured");
        }
        Ok(
            Self {
                notif_id: updated_notif_data.notif_id,
                seconds_above: 0,
                seconds_below: 0,
                last_notif_sent: None,
                tusemax,
                tusemin,
            },
        )
    }

    /// The carry-forward of a configuration reload: runtime fields survive,
    /// parameters are replaced.
    pub open spec fn spec_carry(new: Self, existing: Option<Self>) -> Self {
        match existing {
            Some(e) => NotifDutTempOutOfBounds {
                notif_id: new.notif_id,
                tusemax: new.tusemax,
                tusemin: new.tusemin,
                last_notif_sent: e.last_notif_sent,
                seconds_above: e.seconds_above,
                seconds_below: e.seconds_below,
            },
            None => new,
        }
    }

    pub fn update_notif_parameters(&mut self, existing: Option<&Self>)
        ensures
            *final(self) == Self::spec_carry(
                *old(self),
                match existing {
                    Some(e) => Some(*e),
                    None => None,
                },
            ),
    {
        if let Some(existing) = existing {
            self.last_notif_sent = existing.last_notif_sent;
            self.seconds_above = existing.seconds_above;
            self.seconds_below = existing.seconds_below;
        }
    }

    /// Carries runtime state forward from `list_old` into every rule of
    /// `list_new`, id by id.
    pub fn update_new_notifs_parameters(list_old: &IdMap<Self>, list_new: &mut IdMap<Self>)
        requires
            list_old.wf(),
            old(list_new).wf(),
        ensures
            final(list_new).wf(),
            forall|id: u64|
                #[trigger] final(list_new).spec_get(id) == match old(list_new).spec_get(id) {
                    Some(r) => Some(Self::spec_carry(r, list_old.spec_get(id))),
                    None => None,
                },
    {
        let n = list_new.entries.len();
        let mut i: usize = 0;
        while i < n
            invariant
                i <= n,
                n == list_new.entries@.len(),
                list_old.wf(),
                old(list_new).wf(),
                forall|k: int|
                    0 <= k < i ==> #[trigger] list_new.entries@[k] == (
                        old(list_new).entries@[k].0,
                        Self::spec_carry(
                            old(list_new).entries@[k].1,
                            list_old.spec_get(old(list_new).entries@[k].0),
                        ),
                    ),
                forall|k: int|
                    i <= k < n ==> #[trigger] list_new.entries@[k] == old(list_new).entries@[k],
            decreases n - i,
        {
            let (id, mut r) = list_new.entries[i];
            let ex = list_old.get(id);
            r.update_notif_parameters(ex.as_ref());
            list_new.entries[i] = (id, r);
            i = i + 1;
        }
        proof {
            assert forall|id: u64|
                #[trigger] final(list_new).spec_get(id) == match old(list_new).spec_get(id) {
                    Some(r) => Some(Self::spec_carry(r, list_old.spec_get(id))),
                    None => None,
                } by {
                lemma_mapped_entries_get(
                    old(list_new).entries@,
                    list_new.entries@,
                    |k: u64, v: Self| Self::spec_carry(v, list_old.spec_get(k)),
                    id,
                );
            }
            assert(final(list_new).wf()) by {
                lemma_mapped_entries_get(
                    old(list_new).entries@,
                    list_new.entries@,
                    |k: u64, v: Self| Self::spec_carry(v, list_old.spec_get(k)),
                    0u64,
                );
            }
        }
    }

    /// One reading's effect on the rule: successor state, an "above" and a
    /// "below" detection, either of which may be absent. In order: a day
    /// rollover or a discontinuity clears both accumulators; a firing
    /// within the last 24 hours suppresses the rest; otherwise each enabled
    /// side whose bound the reading violates accumulates the elapsed
    /// seconds and fires once its accumulated time reaches the threshold,
    /// setting the shared debounce instant. Both sides may fire on the
    /// same reading, since the debounce is only tested on entry.
    pub open spec fn spec_on_dut_telemetry(
        r: Self,
        temp: i64,
        ts: Timestamp,
        delta_secs: u64,
        new_day: bool,
        discontinuity: bool,
        now: u64,
        dev_id: String,
    ) -> (Self, Option<Detection>, Option<Detection>) {
        let above0: u64 = if new_day || discontinuity {
            0u64
        } else {
            r.seconds_above
        };
        let below0: u64 = if new_day || discontinuity {
            0u64
        } else {
            r.seconds_below
        };
        let r0 = NotifDutTempOutOfBounds {
            seconds_above: above0,
            seconds_below: below0,
            ..r
        };
        if spec_debounced(r.last_notif_sent, now as int) {
            (r0, None, None)
        } else {
            let above_hit = (r.tusemax is Some) && temp > r.tusemax->Some_0;
            let above1: u64 = spec_sat_add(above0 as int, delta_secs as int) as u64;
            let r1 = if above_hit {
                if above1 >= TEMP_ACC_FIRE_SECS {
                    NotifDutTempOutOfBounds {
                        last_notif_sent: Some(now),
                        seconds_above: above1,
                        ..r0
                    }
                } else {
                    NotifDutTempOutOfBounds { seconds_above: above1, ..r0 }
                }
            } else {
                r0
            };
            let det_above = if above_hit && above1 >= TEMP_ACC_FIRE_SECS {
                Some(
                    Detection {
                        dev_id,
                        notif_id: r.notif_id,
                        telemetry_timestamp: ts,
                        kind: DetectionKind::DutTempAbove { tusemax: r.tusemax->Some_0 },
                    },
                )
            } else {
                None
            };
            let below_hit = (r.tusemin is Some) && temp < r.tusemin->Some_0;
            let below1: u64 = spec_sat_add(below0 as int, delta_secs as int) as u64;
            let r2 = if below_hit {
                if below1 >= TEMP_ACC_FIRE_SECS {
                    NotifDutTempOutOfBounds {
                        last_notif_sent: Some(now),
                        seconds_below: below1,
                        ..r1
                    }
                } else {
                    NotifDutTempOutOfBounds { seconds_below: below1, ..r1 }
                }
            } else {
                r1
            };
            let det_below = if below_hit && below1 >= TEMP_ACC_FIRE_SECS {
                Some(
                    Detection {
                        dev_id,
                        notif_id: r.notif_id,
                        telemetry_timestamp: ts,
                        kind: DetectionKind::DutTempBelow { tusemin: r.tusemin->Some_0 },
                    },
                )
            } else {
                None
            };
            (r2, det_above, det_below)
        }
    }

    /// Feeds one temperature reading (hundredths of a degree) to the rule.
    pub fn on_dut_telemetry(
        &mut self,
        telemetry_temperature: i64,
        telemetry_timestamp: &Timestamp,
        delta_secs: u64,
        new_day: bool,
        discontinuity: bool,
        dev_id: &String,
        now_monotonic: u64,
    ) -> (r: (Option<Detection>, Option<Detection>))
        ensures
            ({
                let step = Self::spec_on_dut_telemetry(
                    *old(self),
                    telemetry_temperature,
                    *telemetry_timestamp,
                    delta_secs,
                    new_day,
                    discontinuity,
                    now_monotonic,
                    *dev_id,
                );
                *final(self) == step.0 && r.0 == step.1 && r.1 == step.2
            }),
    {
        if new_day || discontinuity {
            self.seconds_above = 0;
            self.seconds_below = 0;
        }
        if is_debounced(&self.last_notif_sent, now_monotonic) {
            return (None, None);
        }
        let mut det_above: Option<Detection> = None;
        let mut det_below: Option<Detection> = None;
        if let Some(tusemax) = self.tusemax {
            if telemetry_temperature > tusemax {
                self.seconds_above = sat_add(self.seconds_above, delta_secs);
                if self.seconds_above >= TEMP_ACC_FIRE_SECS {
                    self.last_notif_sent = Some(now_monotonic);
                    det_above = Some(
                        Detection {
                            dev_id: dev_id.clone(),
                            notif_id: self.notif_id,
                            telemetry_timestamp: *telemetry_timestamp,
                            kind: DetectionKind::DutTempAbove { tusemax },
                        },
                    );
                }
            }
        }
        if let Some(tusemin) = self.tusemin {
            if telemetry_temperature < tusemin {
                self.seconds_below = sat_add(self.seconds_below, delta_secs);
                if self.seconds_below >= TEMP_ACC_FIRE_SECS {
                    self.last_notif_sent = Some(now_monotonic);
                    det_below = Some(
                        Detection {
                            dev_id: dev_id.clone(),
                            notif_id: self.notif_id,
                            telemetry_timestamp: *telemetry_timestamp,
                            kind: DetectionKind::DutTempBelow { tusemin },
                        },
                    );
                }
            }
        }
        (det_above, det_below)
    }
}

/// Firing either side of the out-of-bounds rule sets the shared debounce
/// instant, and any reading within the next 24 hours emits nothing on
/// either side.
pub proof fn lemma_outofbounds_shared_debounce(
    r: NotifDutTempOutOfBounds,
    temp: i64,
    ts: Timestamp,
    delta_secs: u64,
    new_day: bool,
    discontinuity: bool,
    now: u64,
    dev_id: String,
    temp_b: i64,
    tsb: Timestamp,
    delta_b: u64,
    new_day_b: bool,
    discontinuity_b: bool,
    now_b: u64,
    dev_id_b: String,
)
    ensures
        ({
            let step1 = NotifDutTempOutOfBounds::spec_on_dut_telemetry(
                r,
                temp,
                ts,
                delta_secs,
                new_day,
                discontinuity,
                now,
                dev_id,
            );
            let step2 = NotifDutTempOutOfBounds::spec_on_dut_telemetry(
                step1.0,
                temp_b,
                tsb,
                delta_b,
                new_day_b,
                discontinuity_b,
                now_b,
                dev_id_b,
            );
            (((step1.1 is Some) || (step1.2 is Some)) && now_b < now + 86400) ==> ((step2.1
                is None) && (step2.2 is None))
        }),
{
}

/// Runtime state of one critical "temperature above limit" rule
/// (`"DUT_T T>T"`): a hysteresis episode machine. The limit is in
/// hundredths of a degree; there is no debounce field at all.
#[derive(Clone, Copy, Debug)]
pub struct NotifDutTempHighCritic {
    pub notif_id: u64,
    pub acc_t: u64,
    pub is_cond_notification: bool,
    pub temperature_limit: i64,
    pub duration_in_seconds: u64,
}

/// The critical rule's limit: the device's `TUSEMAX` bound plus the
/// non-negative configured offset, sticking at the top of `i64`.
pub open spec fn spec_critic_limit(tusemax: int, offset: int) -> int {
    let off = if offset < 0 {
        0
    } else {
        offset
    };
    if tusemax + off > i64::MAX {
        i64::MAX as int
    } else {
        tusemax + off
    }
}

impl NotifDutTempHighCritic {
    /// What the rule's configuration item denotes: the fresh rule, or
    /// nothing when the device's `TUSEMAX` bound is missing. The offset
    /// defaults to zero and the duration to ten minutes.
    pub open spec fn spec_from_notif_cfg(
        item: NotifRuleCfg,
        cfg: Option<DutAutomationConfig>,
    ) -> Option<Self> {
        match spec_cfg_tuse(cfg).0 {
            Some(t) => Some(
                NotifDutTempHighCritic {
                    notif_id: item.notif_id,
                    acc_t: 0,
                    is_cond_notification: false,
                    temperature_limit: spec_critic_limit(
                        t as int,
                        match item.cond_pars.offset_over_t_max {
                            Some(o) => o as int,
                            None => 0,
                        },
                    ) as i64,
                    duration_in_seconds: spec_sat_mul(
                        match item.cond_pars.duration_in_minutes {
                            Some(m) => m as int,
                            None => CRITIC_DEFAULT_DURATION_MIN as int,
                        },
                        60,
                    ) as u64,
                },
            ),
            None => None,
        }
    }

    /// Builds the rule from its configuration item. The device's `TUSEMAX`
    /// bound is required; the offset defaults to zero (negative offsets are
    /// clamped to zero) and the duration to ten minutes.
    pub fn from_notif_cfg(
        updated_notif_data: &NotifRuleCfg,
        automation_cfg: &Option<DutAutomationConfig>,
    ) -> (r: Result<Self, &'static str>)
        ensures
            match r {
                Ok(s) => Self::spec_from_notif_cfg(*updated_notif_data, *automation_cfg) == Some(
                    s,
                ),
                Err(_) => Self::spec_from_notif_cfg(*updated_notif_data, *automation_cfg) is None,
            },
    {
        let tusemax = match automation_cfg {
            Some(cfg) => cfg.tusemax,
            None => None,
        };
        let tusemax = match tusemax {
            Some(x) => x,
            None => {
                return Err("TUSEMAX is required for this notification");
            },
        };
        let offset = match updated_notif_data.cond_pars.offset_over_t_max {
            Some(o) => {
                if o < 0 {
                    0
                } else {
                    o
                }
            },
            None => 0,
        };
        let temperature_limit = if tusemax >= 0 && offset > i64::MAX - tusemax {
            i64::MAX
        } else {
            tusemax + offset
        };
        let duration_in_minutes = match updated_notif_data.cond_pars.duration_in_minutes {
            Some(m) => m,
            None => CRITIC_DEFAULT_DURATION_MIN,
        };
        let duration_in_seconds = sat_mul(duration_in_minutes, 60);
        Ok(
            Self {
                notif_id: updated_notif_data.notif_id,
                acc_t: 0,
                is_cond_notification: false,
                temperature_limit,
                duration_in_seconds,
            },
        )
    }

    /// The carry-forward of a configuration reload: the episode flag and
    /// accumulator survive, parameters are replaced.
    pub open spec fn spec_carry(new: Self, existing: Option<Self>) -> Self {
        match existing {
            Some(e) => NotifDutTempHighCritic {
                notif_id: new.notif_id,
                temperature_limit: new.temperature_limit,
                duration_in_seconds: new.duration_in_seconds,
                acc_t: e.acc_t,
                is_cond_notification: e.is_cond_notification,
            },
            None => new,
        }
    }

    pub fn update_notif_parameters(&mut self, existing: Option<&Self>)
        ensures
            *final(self) == Self::spec_carry(
                *old(self),
                match existing {
                    Some(e) => Some(*e),
                    None => None,
                },
            ),
    {
        if let Some(existing) = existing {
            self.acc_t = existing.acc_t;
            self.is_cond_notification = existing.is_cond_notification;
        }
    }

    /// Carries runtime state forward from `list_old` into every rule of
    /// `list_new`, id by id.
    pub fn update_new_notifs_parameters(list_old: &IdMap<Self>, list_new: &mut IdMap<Self>)
        requires
            list_old.wf(),
            old(list_new).wf(),
        ensures
            final(list_new).wf(),
            forall|id: u64|
                #[trigger] final(list_new).spec_get(id) == match old(list_new).spec_get(id) {
                    Some(r) => Some(Self::spec_carry(r, list_old.spec_get(id))),
                    None => None,
                },
    {
        let n = list_new.entries.len();
        let mut i: usize = 0;
        while i < n
            invariant
                i <= n,
                n == list_new.entries@.len(),
                list_old.wf(),
                old(list_new).wf(),
                forall|k: int|
                    0 <= k < i ==> #[trigger] list_new.entries@[k] == (
                        old(list_new).entries@[k].0,
                        Self::spec_carry(
                            old(list_new).entries@[k].1,
                            list_old.spec_get(old(list_new).entries@[k].0),
                        ),
                    ),
                forall|k: int|
                    i <= k < n ==> #[trigger] list_new.entries@[k] == old(list_new).entries@[k],
            decreases n - i,
        {
            let (id, mut r) = list_new.entries[i];
            let ex = list_old.get(id);
            r.update_notif_parameters(ex.as_ref());
            list_new.entries[i] = (id, r);
            i = i + 1;
        }
        proof {
            assert forall|id: u64|
                #[trigger] final(list_new).spec_get(id) == match old(list_new).spec_get(id) {
                    Some(r) => Some(Self::spec_carry(r, list_old.spec_get(id))),
                    None => None,
                } by {
                lemma_mapped_entries_get(
                    old(list_new).entries@,
                    list_new.entries@,
                    |k: u64, v: Self| Self::spec_carry(v, list_old.spec_get(k)),
                    id,
                );
            }
            assert(final(list_new).wf()) by {
                lemma_mapped_entries_get(
                    old(list_new).entries@,
                    list_new.entries@,
                    |k: u64, v: Self| Self::spec_carry(v, list_old.spec_get(k)),
                    0u64,
                );
            }
        }
    }

    /// One reading's effect on the rule. A rising edge (above the limit now
    /// but not on the previous sample) or an already-running episode enters
    /// the machine: at or below the limit the episode ends and the
    /// accumulator clears without firing; above it, the elapsed seconds
    /// accumulate, and once the accumulated time exceeds the configured
    /// duration the rule fires, ends the episode and clears the
    /// accumulator, immediately eligible for the next rising edge.
    pub open spec fn spec_on_dut_telemetry(
        r: Self,
        temp: i64,
        ts: Timestamp,
        delta_secs: u64,
        prev_temperature: Option<i64>,
        dev_id: String,
    ) -> (Self, Option<Detection>) {
        let curr_above = temp > r.temperature_limit;
        let prev_above = match prev_temperature {
            Some(p) => p > r.temperature_limit,
            None => false,
        };
        if (curr_above && !prev_above) || r.is_cond_notification {
            if temp <= r.temperature_limit {
                (NotifDutTempHighCritic { is_cond_notification: false, acc_t: 0, ..r }, None)
            } else {
                let acc1 = spec_sat_add(r.acc_t as int, delta_secs as int) as u64;
                if acc1 > r.duration_in_seconds {
                    (
                        NotifDutTempHighCritic { is_cond_notification: false, acc_t: 0, ..r },
                        Some(
                            Detection {
                                dev_id,
                                notif_id: r.notif_id,
                                telemetry_timestamp: ts,
                                kind: DetectionKind::DutTempHighCritic {
                                    temperature_limit: r.temperature_limit,
                                    duration_in_seconds: r.duration_in_seconds,
                                },
                            },
                        ),
                    )
                } else {
                    (
                        NotifDutTempHighCritic { is_cond_notification: true, acc_t: acc1, ..r },
                        None,
                    )
                }
            }
        } else {
            (r, None)
        }
    }

    /// Feeds one temperature reading (hundredths of a degree) to the rule.
    /// `prev_temperature` is the previous sample, absent after a
    /// discontinuity.
    pub fn on_dut_telemetry(
        &mut self,
        telemetry_temperature: i64,
        telemetry_timestamp: &Timestamp,
        delta_secs: u64,
        prev_temperature: Option<i64>,
        dev_id: &String,
    ) -> (r: Option<Detection>)
        ensures
            ({
                let step = Self::spec_on_dut_telemetry(
                    *old(self),
                    telemetry_temperature,
                    *telemetry_timestamp,
                    delta_secs,
                    prev_temperature,
                    *dev_id,
                );
                *final(self) == step.0 && r == step.1
            }),
    {
        let curr_above = telemetry_temperature > self.temperature_limit;
        let prev_above = match prev_temperature {
            Some(p) => p > self.temperature_limit,
            None => false,
        };
        if (curr_above && !prev_above) || self.is_cond_notification {
            if telemetry_temperature <= self.temperature_limit {
                self.is_cond_notification = false;
                self.acc_t = 0;
            } else {
                self.acc_t = sat_add(self.acc_t, delta_secs);
                if self.acc_t > self.duration_in_seconds {
                    self.is_cond_notification = false;
                    self.acc_t = 0;
                    return Some(
                        Detection {
                            dev_id: dev_id.clone(),
                            notif_id: self.notif_id,
                            telemetry_timestamp: *telemetry_timestamp,
                            kind: DetectionKind::DutTempHighCritic {
                                temperature_limit: self.temperature_limit,
                                duration_in_seconds: self.duration_in_seconds,
                            },
                        },
                    );
                } else {
                    self.is_cond_notification = true;
                }
            }
        }
        None
    }
}

/// The hysteresis rule fires only once the accumulated time, counting the
/// current reading, has exceeded the configured duration, and a firing
/// ends the episode and clears the accumulator, leaving the rule
/// immediately eligible for the next rising edge: no debounce survives a
/// firing.
pub proof fn lemma_critic_fire_ends_episode(
    r: NotifDutTempHighCritic,
    temp: i64,
    ts: Timestamp,
    delta_secs: u64,
    prev_temperature: Option<i64>,
    dev_id: String,
)
    ensures
        ({
            let step = NotifDutTempHighCritic::spec_on_dut_telemetry(
                r,
                temp,
                ts,
                delta_secs,
                prev_temperature,
                dev_id,
            );
            (step.1 is Some) ==> spec_sat_add(r.acc_t as int, delta_secs as int)
                > r.duration_in_seconds && !step.0.is_cond_notification && step.0.acc_t == 0
        }),
{
}

/// Leaving the episode without having outlasted the duration clears the
/// accumulator without firing.
pub proof fn lemma_critic_fall_back_resets(
    r: NotifDutTempHighCritic,
    temp: i64,
    ts: Timestamp,
    delta_secs: u64,
    prev_temperature: Option<i64>,
    dev_id: String,
)
    requires
        r.is_cond_notification,
        temp <= r.temperature_limit,
    ensures
        ({
            let step = NotifDutTempHighCritic::spec_on_dut_telemetry(
                r,
                temp,
                ts,
                delta_secs,
                prev_temperature,
                dev_id,
            );
            (step.1 is None) && !step.0.is_cond_notification && step.0.acc_t == 0
        }),
{
}


/// The detections that feeding one reading to every out-of-bounds rule of
/// the map emits, in map order, the "above" detection before the "below"
/// one for each rule.
pub open spec fn spec_run_outofbounds_dets(
    entries: Seq<(u64, NotifDutTempOutOfBounds)>,
    temp: i64,
    ts: Timestamp,
    delta_secs: u64,
    new_day: bool,
    discontinuity: bool,
    now: u64,
    dev_id: String,
) -> Seq<Detection>
    decreases entries.len(),
{
    if entries.len() == 0 {
        Seq::empty()
    } else {
        let prev = spec_run_outofbounds_dets(
            entries.drop_last(),
            temp,
            ts,
            delta_secs,
            new_day,
            discontinuity,
            now,
            dev_id,
        );
        let step = NotifDutTempOutOfBounds::spec_on_dut_telemetry(
            entries.last().1,
            temp,
            ts,
            delta_secs,
            new_day,
            discontinuity,
            now,
            dev_id,
        );
        let with_above = match step.1 {
            Some(d) => prev.push(d),
            None => prev,
        };
        match step.2 {
            Some(d) => with_above.push(d),
            None => with_above,
        }
    }
}

/// Feeds one reading to every out-of-bounds rule of the map, stepping each
/// rule's state and appending the emitted detections.
pub fn run_outofbounds_rules(
    rules: &mut IdMap<NotifDutTempOutOfBounds>,
    telemetry_temperature: i64,
    telemetry_timestamp: &Timestamp,
    delta_secs: u64,
    new_day: bool,
    discontinuity: bool,
    dev_id: &String,
    now_monotonic: u64,
    dets: &mut Vec<Detection>,
)
    requires
        old(rules).wf(),
    ensures
        final(rules).wf(),
        final(rules).entries@.len() == old(rules).entries@.len(),
        forall|k: int|
            0 <= k < old(rules).entries@.len() ==> #[trigger] final(rules).entries@[k] == (
                old(rules).entries@[k].0,
                NotifDutTempOutOfBounds::spec_on_dut_telemetry(
                    old(rules).entries@[k].1,
                    telemetry_temperature,
                    *telemetry_timestamp,
                    delta_secs,
                    new_day,
                    discontinuity,
                    now_monotonic,
                    *dev_id,
                ).0,
            ),
        final(dets)@ == old(dets)@ + spec_run_outofbounds_dets(
            old(rules).entries@,
            telemetry_temperature,
            *telemetry_timestamp,
            delta_secs,
            new_day,
            discontinuity,
            now_monotonic,
            *dev_id,
        ),
{
    let n = rules.entries.len();
    let mut i: usize = 0;
    while i < n
        invariant
            i <= n,
            n == rules.entries@.len(),
            n == old(rules).entries@.len(),
            forall|k: int|
                0 <= k < i ==> #[trigger] rules.entries@[k] == (
                    old(rules).entries@[k].0,
                    NotifDutTempOutOfBounds::spec_on_dut_telemetry(
                        old(rules).entries@[k].1,
                        telemetry_temperature,
                        *telemetry_timestamp,
                        delta_secs,
                        new_day,
                        discontinuity,
                        now_monotonic,
                        *dev_id,
                    ).0,
                ),
            forall|k: int| i <= k < n ==> #[trigger] rules.entries@[k] == old(rules).entries@[k],
            dets@ == old(dets)@ + spec_run_outofbounds_dets(
                old(rules).entries@.take(i as int),
                telemetry_temperature,
                *telemetry_timestamp,
                delta_secs,
                new_day,
                discontinuity,
                now_monotonic,
                *dev_id,
            ),
        decreases n - i,
    {
        let (id, mut r) = rules.entries[i];
        let (det_above, det_below) = r.on_dut_telemetry(
            telemetry_temperature,
            telemetry_timestamp,
            delta_secs,
            new_day,
            discontinuity,
            dev_id,
            now_monotonic,
        );
        rules.entries[i] = (id, r);
        proof {
            assert(old(rules).entries@.take(i + 1).drop_last() =~= old(rules).entries@.take(
                i as int,
            ));
            assert(old(rules).entries@.take(i + 1).last() == old(rules).entries@[i as int]);
        }
        if let Some(d) = det_above {
            dets.push(d);
        }
        if let Some(d) = det_below {
            dets.push(d);
        }
        i = i + 1;
    }
    proof {
        assert(old(rules).entries@.take(n as int) =~= old(rules).entries@);
        assert(final(rules).wf()) by {
            lemma_mapped_entries_get(
                old(rules).entries@,
                rules.entries@,
                |k: u64, v: NotifDutTempOutOfBounds| NotifDutTempOutOfBounds::spec_on_dut_telemetry(
                    v,
                    telemetry_temperature,
                    *telemetry_timestamp,
                    delta_secs,
                    new_day,
                    discontinuity,
                    now_monotonic,
                    *dev_id,
                ).0,
                0u64,
            );
        }
    }
}

/// The detections that feeding one reading to every critical rule of the
/// map emits, in map order.
pub open spec fn spec_run_critic_dets(
    entries: Seq<(u64, NotifDutTempHighCritic)>,
    temp: i64,
    ts: Timestamp,
    delta_secs: u64,
    prev_temperature: Option<i64>,
    dev_id: String,
) -> Seq<Detection>
    decreases entries.len(),
{
    if entries.len() == 0 {
        Seq::empty()
    } else {
        let prev = spec_run_critic_dets(
            entries.drop_last(),
            temp,
            ts,
            delta_secs,
            prev_temperature,
            dev_id,
        );
        let step = NotifDutTempHighCritic::spec_on_dut_telemetry(
            entries.last().1,
            temp,
            ts,
            delta_secs,
            prev_temperature,
            dev_id,
        );
        match step.1 {
            Some(d) => prev.push(d),
            None => prev,
        }
    }
}

/// Feeds one reading to every critical rule of the map, stepping each
/// rule's state and appending the emitted detections.
pub fn run_critic_rules(
    rules: &mut IdMap<NotifDutTempHighCritic>,
    telemetry_temperature: i64,
    telemetry_timestamp: &Timestamp,
    delta_secs: u64,
    prev_temperature: Option<i64>,
    dev_id: &String,
    dets: &mut Vec<Detection>,
)
    requires
        old(rules).wf(),
    ensures
        final(rules).wf(),
        final(rules).entries@.len() == old(rules).entries@.len(),
        forall|k: int|
            0 <= k < old(rules).entries@.len() ==> #[trigger] final(rules).entries@[k] == (
                old(rules).entries@[k].0,
                NotifDutTempHighCritic::spec_on_dut_telemetry(
                    old(rules).entries@[k].1,
                    telemetry_temperature,
                    *telemetry_timestamp,
                    delta_secs,
                    prev_temperature,
                    *dev_id,
                ).0,
            ),
        final(dets)@ == old(dets)@ + spec_run_critic_dets(
            old(rules).entries@,
            telemetry_temperature,
            *telemetry_timestamp,
            delta_secs,
            prev_temperature,
            *dev_id,
        ),
{
    let n = rules.entries.len();
    let mut i: usize = 0;
    while i < n
        invariant
            i <= n,
            n == rules.entries@.len(),
            n == old(rules).entries@.len(),
            forall|k: int|
                0 <= k < i ==> #[trigger] rules.entries@[k] == (
                    old(rules).entries@[k].0,
                    NotifDutTempHighCritic::spec_on_dut_telemetry(
                        old(rules).entries@[k].1,
                        telemetry_temperature,
                        *telemetry_timestamp,
                        delta_secs,
                        prev_temperature,
                        *dev_id,
                    ).0,
                ),
            forall|k: int| i <= k < n ==> #[trigger] rules.entries@[k] == old(rules).entries@[k],
            dets@ == old(dets)@ + spec_run_critic_dets(
                old(rules).entries@.take(i as int),
                telemetry_temperature,
                *telemetry_timestamp,
                delta_secs,
                prev_temperature,
                *dev_id,
            ),
        decreases n - i,
    {
        let (id, mut r) = rules.entries[i];
        let det = r.on_dut_telemetry(
            telemetry_temperature,
            telemetry_timestamp,
            delta_secs,
            prev_temperature,
            dev_id,
        );
        rules.entries[i] = (id, r);
        proof {
            assert(old(rules).entries@.take(i + 1).drop_last() =~= old(rules).entries@.take(
                i as int,
            ));
            assert(old(rules).entries@.take(i + 1).last() == old(rules).entries@[i as int]);
        }
        if let Some(d) = det {
            dets.push(d);
        }
        i = i + 1;
    }
    proof {
        assert(old(rules).entries@.take(n as int) =~= old(rules).entries@);
        assert(final(rules).wf()) by {
            lemma_mapped_entries_get(
                old(rules).entries@,
                rules.entries@,
                |k: u64, v: NotifDutTempHighCritic| NotifDutTempHighCritic::spec_on_dut_telemetry(
                    v,
                    telemetry_temperature,
                    *telemetry_timestamp,
                    delta_secs,
                    prev_temperature,
                    *dev_id,
                ).0,
                0u64,
            );
        }
    }
}


/// The continuity cap of the temperature stream, in seconds.
pub const TEMP_CONTINUITY_SECS: u64 = 30;

/// How one reading moves the temperature side of a device's DUT state:
/// the delta clock runs against the temperature cache, the cache takes the
/// new sample, both temperature rule maps are stepped, and `outdets` are
/// exactly the detections they emit, out-of-bounds rules first. A reading
/// without a temperature changes nothing.
pub open spec fn spec_temp_channel(
    nd0: NotifsDut,
    nd1: NotifsDut,
    tel: DutTelemetry,
    dev_id: String,
    now: u64,
    outdets: Seq<Detection>,
) -> bool {
    match tel.Temperature {
        None => nd1 == nd0 && outdets.len() == 0,
        Some(t) => {
            let prev = nd0.last_temperature;
            let delta = match prev {
                Some(l) => spec_delta_secs(tel.timestamp.secs as int, l.timestamp.secs as int, 30),
                None => 0,
            };
            let disc = match prev {
                Some(l) => spec_discontinuity(
                    tel.timestamp.secs as int,
                    l.timestamp.secs as int,
                    30,
                ),
                None => true,
            };
            let new_day = match prev {
                Some(l) => tel.timestamp.spec_day() != l.timestamp.spec_day(),
                None => true,
            };
            let prev_temp = if disc {
                None
            } else {
                match prev {
                    Some(l) => Some(l.temperature),
                    None => None,
                }
            };
            &&& nd1.last_temperature == Some(
                LastDutTemperature { timestamp: tel.timestamp, temperature: t },
            )
            &&& nd1.last_co2 == nd0.last_co2
            &&& nd1.schedule == nd0.schedule
            &&& nd1.notif_dut_co2_high == nd0.notif_dut_co2_high
            &&& nd1.notif_dut_co2_high_endofday == nd0.notif_dut_co2_high_endofday
            &&& nd1.notif_dut_temp_outofbounds.entries@.len()
                == nd0.notif_dut_temp_outofbounds.entries@.len()
            &&& forall|k: int|
                0 <= k < nd0.notif_dut_temp_outofbounds.entries@.len()
                    ==> #[trigger] nd1.notif_dut_temp_outofbounds.entries@[k] == (
                    nd0.notif_dut_temp_outofbounds.entries@[k].0,
                    NotifDutTempOutOfBounds::spec_on_dut_telemetry(
                        nd0.notif_dut_temp_outofbounds.entries@[k].1,
                        t,
                        tel.timestamp,
                        delta as u64,
                        new_day,
                        disc,
                        now,
                        dev_id,
                    ).0,
                )
            &&& nd1.notif_dut_temp_high_critic.entries@.len()
                == nd0.notif_dut_temp_high_critic.entries@.len()
            &&& forall|k: int|
                0 <= k < nd0.notif_dut_temp_high_critic.entries@.len()
                    ==> #[trigger] nd1.notif_dut_temp_high_critic.entries@[k] == (
                    nd0.notif_dut_temp_high_critic.entries@[k].0,
                    NotifDutTempHighCritic::spec_on_dut_telemetry(
                        nd0.notif_dut_temp_high_critic.entries@[k].1,
                        t,
                        tel.timestamp,
                        delta as u64,
                        prev_temp,
                        dev_id,
                    ).0,
                )
            &&& outdets == spec_run_outofbounds_dets(
                nd0.notif_dut_temp_outofbounds.entries@,
                t,
                tel.timestamp,
                delta as u64,
                new_day,
                disc,
                now,
                dev_id,
            ) + spec_run_critic_dets(
                nd0.notif_dut_temp_high_critic.entries@,
                t,
                tel.timestamp,
                delta as u64,
                prev_temp,
                dev_id,
            )
        },
    }
}

/// Feeds one reading's temperature to a device's DUT state: delta clock,
/// cache update, then every temperature rule.
pub fn on_dut_telemetry(
    telemetry: &DutTelemetry,
    dev_alerts: &mut NotifsDut,
    dev_id: &String,
    now_monotonic: u64,
    dets: &mut Vec<Detection>,
)
    requires
        old(dev_alerts).wf(),
    ensures
        final(dev_alerts).wf(),
        old(dets)@.len() <= final(dets)@.len(),
        final(dets)@.take(old(dets)@.len() as int) == old(dets)@,
        spec_temp_channel(
            *old(dev_alerts),
            *final(dev_alerts),
            *telemetry,
            *dev_id,
            now_monotonic,
            final(dets)@.skip(old(dets)@.len() as int),
        ),
{
    let telemetry_temperature = match telemetry.Temperature {
        Some(t) => t,
        None => {
            proof {
                assert(final(dets)@.take(old(dets)@.len() as int) =~= old(dets)@);
                assert(final(dets)@.skip(old(dets)@.len() as int) =~= Seq::<Detection>::empty());
            }
            return ;
        },
    };
    let prev_ts = match &dev_alerts.last_temperature {
        Some(l) => Some(l.timestamp),
        None => None,
    };
    let (delta_secs, descontinuidade, new_day) = get_telemetry_delta(
        &telemetry.timestamp,
        prev_ts.as_ref(),
        TEMP_CONTINUITY_SECS,
    );
    let mut prev_temperature: Option<i64> = match &dev_alerts.last_temperature {
        Some(l) => Some(l.temperature),
        None => None,
    };
    dev_alerts.last_temperature = Some(
        LastDutTemperature {
            timestamp: telemetry.timestamp,
            temperature: telemetry_temperature,
        },
    );
    if descontinuidade {
        prev_temperature = None;
    }
    let ghost dets0 = dets@;
    run_outofbounds_rules(
        &mut dev_alerts.notif_dut_temp_outofbounds,
        telemetry_temperature,
        &telemetry.timestamp,
        delta_secs,
        new_day,
        descontinuidade,
        dev_id,
        now_monotonic,
        dets,
    );
    let ghost dets1 = dets@;
    run_critic_rules(
        &mut dev_alerts.notif_dut_temp_high_critic,
        telemetry_temperature,
        &telemetry.timestamp,
        delta_secs,
        prev_temperature,
        dev_id,
        dets,
    );
    proof {
        assert(dets@.take(dets0.len() as int) =~= dets0);
        assert(dets1.skip(dets0.len() as int) =~= spec_run_outofbounds_dets(
            old(dev_alerts).notif_dut_temp_outofbounds.entries@,
            telemetry_temperature,
            telemetry.timestamp,
            delta_secs,
            new_day,
            descontinuidade,
            now_monotonic,
            *dev_id,
        ));
        assert(dets@.skip(dets1.len() as int) =~= spec_run_critic_dets(
            old(dev_alerts).notif_dut_temp_high_critic.entries@,
            telemetry_temperature,
            telemetry.timestamp,
            delta_secs,
            prev_temperature,
            *dev_id,
        ));
        assert(dets@.skip(dets0.len() as int) =~= (dets1.skip(dets0.len() as int) + dets@.skip(
            dets1.len() as int,
        )));
    }
}

} // verus!
