//! The DUT side of a device's notification state: the four rule maps, the
//! previous-sample caches, the device's schedule, and the reconciliation
//! that rebuilds the maps from freshly fetched configuration while carrying
//! the runtime state of surviving rule ids forward.

use vstd::prelude::*;

use crate::detection::Detection;
use crate::dut_co2::{spec_co2_channel, LastDutCO2, NotifDutCO2High, NotifDutCO2HighEndOfDay};
use crate::dut_t::{spec_temp_channel, LastDutTemperature, NotifDutTempHighCritic, NotifDutTempOutOfBounds};
use crate::global_vars::DevInfo;
use crate::idmap::{lemma_assoc_get_witness, IdMap};
use crate::notifs_cfg::{DutAutomationConfig, NotifRuleCfg};
use crate::schedule::AutomationSchedule;
use crate::strmap::str_eq;
use crate::telemetry::DutTelemetry;

verus! {

/// A device's DUT notification state: one map per rule kind, the
/// previous-sample caches, and the schedule gating evaluation.
#[derive(Debug)]
pub struct NotifsDut {
    pub notif_dut_temp_outofbounds: IdMap<NotifDutTempOutOfBounds>,
    pub notif_dut_temp_high_critic: IdMap<NotifDutTempHighCritic>,
    pub notif_dut_co2_high: IdMap<NotifDutCO2High>,
    pub notif_dut_co2_high_endofday: IdMap<NotifDutCO2HighEndOfDay>,
    pub last_temperature: Option<LastDutTemperature>,
    pub last_co2: Option<LastDutCO2>,
    pub schedule: Option<AutomationSchedule>,
}

impl NotifsDut {
    pub open spec fn wf(&self) -> bool {
        &&& self.notif_dut_temp_outofbounds.wf()
        &&& self.notif_dut_temp_high_critic.wf()
        &&& self.notif_dut_co2_high.wf()
        &&& self.notif_dut_co2_high_endofday.wf()
    }

    /// Removes the rule with this id from every kind's map; a no-op for an
    /// id that no kind holds.
    pub fn remove_notif_id(&mut self, notif_id: u64)
        requires
            old(self).wf(),
        ensures
            final(self).wf(),
            final(self).notif_dut_temp_outofbounds.spec_get(notif_id) is None,
            final(self).notif_dut_temp_high_critic.spec_get(notif_id) is None,
            final(self).notif_dut_co2_high.spec_get(notif_id) is None,
            final(self).notif_dut_co2_high_endofday.spec_get(notif_id) is None,
            forall|j: u64|
                j != notif_id ==> #[trigger] final(self).notif_dut_temp_outofbounds.spec_get(j)
                    == old(self).notif_dut_temp_outofbounds.spec_get(j),
            forall|j: u64|
                j != notif_id ==> #[trigger] final(self).notif_dut_temp_high_critic.spec_get(j)
                    == old(self).notif_dut_temp_high_critic.spec_get(j),
            forall|j: u64|
                j != notif_id ==> #[trigger] final(self).notif_dut_co2_high.spec_get(j) == old(
                    self,
                ).notif_dut_co2_high.spec_get(j),
            forall|j: u64|
                j != notif_id ==> #[trigger] final(self).notif_dut_co2_high_endofday.spec_get(j)
                    == old(self).notif_dut_co2_high_endofday.spec_get(j),
            final(self).last_temperature == old(self).last_temperature,
            final(self).last_co2 == old(self).last_co2,
            final(self).schedule == old(self).schedule,
    {
        self.notif_dut_temp_outofbounds.remove(notif_id);
        self.notif_dut_temp_high_critic.remove(notif_id);
        self.notif_dut_co2_high.remove(notif_id);
        self.notif_dut_co2_high_endofday.remove(notif_id);
    }
}

/// The out-of-bounds rule that a configuration list yields for rule id
/// `id`: the last list item with that id, condition `"DUT_T T<>T"` and a
/// successful parse, as a fresh rule.
pub open spec fn spec_parsed_outofbounds(
    items: Seq<NotifRuleCfg>,
    cfg: Option<DutAutomationConfig>,
    id: u64,
) -> Option<NotifDutTempOutOfBounds>
    decreases items.len(),
{
    if items.len() == 0 {
        None
    } else {
        let last = items.last();
        if last.cond_id@ == "DUT_T T<>T"@ && last.notif_id == id
            && (NotifDutTempOutOfBounds::spec_from_notif_cfg(last, cfg) is Some) {
            NotifDutTempOutOfBounds::spec_from_notif_cfg(last, cfg)
        } else {
            spec_parsed_outofbounds(items.drop_last(), cfg, id)
        }
    }
}

/// The critical-temperature rule a configuration list yields for rule id
/// `id` (condition `"DUT_T T>T"`).
pub open spec fn spec_parsed_critic(
    items: Seq<NotifRuleCfg>,
    cfg: Option<DutAutomationConfig>,
    id: u64,
) -> Option<NotifDutTempHighCritic>
    decreases items.len(),
{
    if items.len() == 0 {
        None
    } else {
        let last = items.last();
        if last.cond_id@ == "DUT_T T>T"@ && last.notif_id == id
            && (NotifDutTempHighCritic::spec_from_notif_cfg(last, cfg) is Some) {
            NotifDutTempHighCritic::spec_from_notif_cfg(last, cfg)
        } else {
            spec_parsed_critic(items.drop_last(), cfg, id)
        }
    }
}

/// The CO2 rule a configuration list yields for rule id `id` (condition
/// `"DUT_CO2 >"`).
pub open spec fn spec_parsed_co2_high(
    items: Seq<NotifRuleCfg>,
    cfg: Option<DutAutomationConfig>,
    id: u64,
) -> Option<NotifDutCO2High>
    decreases items.len(),
{
    if items.len() == 0 {
        None
    } else {
        let last = items.last();
        if last.cond_id@ == "DUT_CO2 >"@ && last.notif_id == id && (
        NotifDutCO2High::spec_from_notif_cfg(last, cfg) is Some) {
            NotifDutCO2High::spec_from_notif_cfg(last, cfg)
        } else {
            spec_parsed_co2_high(items.drop_last(), cfg, id)
        }
    }
}

/// The end-of-day CO2 rule a configuration list yields for rule id `id`
/// (condition `"DUT_CO2 D>"`).
pub open spec fn spec_parsed_co2_endofday(
    items: Seq<NotifRuleCfg>,
    cfg: Option<DutAutomationConfig>,
    id: u64,
) -> Option<NotifDutCO2HighEndOfDay>
    decreases items.len(),
{
    if items.len() == 0 {
        None
    } else {
        let last = items.last();
        if last.cond_id@ == "DUT_CO2 D>"@ && last.notif_id == id && (
        NotifDutCO2HighEndOfDay::spec_from_notif_cfg(last, cfg) is Some) {
            NotifDutCO2HighEndOfDay::spec_from_notif_cfg(last, cfg)
        } else {
            spec_parsed_co2_endofday(items.drop_last(), cfg, id)
        }
    }
}

/// Whether a configuration list yields any DUT rule at all for this
/// device.
pub open spec fn spec_any_dut_rule(
    items: Seq<NotifRuleCfg>,
    cfg: Option<DutAutomationConfig>,
) -> bool {
    ||| exists|id: u64| spec_parsed_outofbounds(items, cfg, id) is Some
    ||| exists|id: u64| spec_parsed_critic(items, cfg, id) is Some
    ||| exists|id: u64| spec_parsed_co2_high(items, cfg, id) is Some
    ||| exists|id: u64| spec_parsed_co2_endofday(items, cfg, id) is Some
}

/// The four DUT condition codes are pairwise distinct strings.
proof fn lemma_dut_cond_strings_differ()
    ensures
        "DUT_T T<>T"@ != "DUT_T T>T"@,
        "DUT_T T<>T"@ != "DUT_CO2 >"@,
        "DUT_T T<>T"@ != "DUT_CO2 D>"@,
        "DUT_T T>T"@ != "DUT_CO2 >"@,
        "DUT_T T>T"@ != "DUT_CO2 D>"@,
        "DUT_CO2 >"@ != "DUT_CO2 D>"@,
{
    reveal_strlit("DUT_T T<>T");
    reveal_strlit("DUT_T T>T");
    reveal_strlit("DUT_CO2 >");
    reveal_strlit("DUT_CO2 D>");
    assert("DUT_T T<>T"@.len() == 10);
    assert("DUT_T T>T"@.len() == 9);
    assert("DUT_CO2 >"@.len() == 9);
    assert("DUT_CO2 D>"@.len() == 10);
    assert("DUT_T T<>T"@[4] == 'T');
    assert("DUT_CO2 D>"@[4] == 'C');
    assert("DUT_T T>T"@[4] == 'T');
    assert("DUT_CO2 >"@[4] == 'C');
}

/// Builds the four fresh rule maps that a device's configuration items
/// yield, or `None` when no item yields a rule. Items with unknown
/// condition codes or failing parses are skipped silently.
pub fn parse_dut_notifs_list(
    updated_dev_notifs: &Vec<NotifRuleCfg>,
    updated_dev_sched: &Option<DutAutomationConfig>,
) -> (r: Option<
    (
        IdMap<NotifDutTempOutOfBounds>,
        IdMap<NotifDutTempHighCritic>,
        IdMap<NotifDutCO2High>,
        IdMap<NotifDutCO2HighEndOfDay>,
    ),
>)
    ensures
        match r {
            Some(maps) => {
                &&& maps.0.wf() && maps.1.wf() && maps.2.wf() && maps.3.wf()
                &&& forall|id: u64|
                    #[trigger] maps.0.spec_get(id) == spec_parsed_outofbounds(
                        updated_dev_notifs@,
                        *updated_dev_sched,
                        id,
                    )
                &&& forall|id: u64|
                    #[trigger] maps.1.spec_get(id) == spec_parsed_critic(
                        updated_dev_notifs@,
                        *updated_dev_sched,
                        id,
                    )
                &&& forall|id: u64|
                    #[trigger] maps.2.spec_get(id) == spec_parsed_co2_high(
                        updated_dev_notifs@,
                        *updated_dev_sched,
                        id,
                    )
                &&& forall|id: u64|
                    #[trigger] maps.3.spec_get(id) == spec_parsed_co2_endofday(
                        updated_dev_notifs@,
                        *updated_dev_sched,
                        id,
                    )
                &&& spec_any_dut_rule(updated_dev_notifs@, *updated_dev_sched)
            },
            None => !spec_any_dut_rule(updated_dev_notifs@, *updated_dev_sched),
        },
{
    let mut notif_dut_temp_outofbounds: IdMap<NotifDutTempOutOfBounds> = IdMap::new();
    let mut notif_dut_temp_high_critic: IdMap<NotifDutTempHighCritic> = IdMap::new();
    let mut notif_dut_co2_high: IdMap<NotifDutCO2High> = IdMap::new();
    let mut notif_dut_co2_high_endofday: IdMap<NotifDutCO2HighEndOfDay> = IdMap::new();

    let n = updated_dev_notifs.len();
    let mut i: usize = 0;
    while i < n
        invariant
            i <= n,
            n == updated_dev_notifs@.len(),
            notif_dut_temp_outofbounds.wf(),
            notif_dut_temp_high_critic.wf(),
            notif_dut_co2_high.wf(),
            notif_dut_co2_high_endofday.wf(),
            forall|id: u64|
                #[trigger] notif_dut_temp_outofbounds.spec_get(id) == spec_parsed_outofbounds(
                    updated_dev_notifs@.take(i as int),
                    *updated_dev_sched,
                    id,
                ),
            forall|id: u64|
                #[trigger] notif_dut_temp_high_critic.spec_get(id) == spec_parsed_critic(
                    updated_dev_notifs@.take(i as int),
                    *updated_dev_sched,
                    id,
                ),
            forall|id: u64|
                #[trigger] notif_dut_co2_high.spec_get(id) == spec_parsed_co2_high(
                    updated_dev_notifs@.take(i as int),
                    *updated_dev_sched,
                    id,
                ),
            forall|id: u64|
                #[trigger] notif_dut_co2_high_endofday.spec_get(id) == spec_parsed_co2_endofday(
                    updated_dev_notifs@.take(i as int),
                    *updated_dev_sched,
                    id,
                ),
        decreases n - i,
    {
        proof {
            lemma_dut_cond_strings_differ();
            assert(updated_dev_notifs@.take(i + 1).drop_last() =~= updated_dev_notifs@.take(
                i as int,
            ));
            assert(updated_dev_notifs@.take(i + 1).last() == updated_dev_notifs@[i as int]);
        }
        let notif = &updated_dev_notifs[i];
        if str_eq(notif.cond_id.as_str(), "DUT_T T<>T") {
            match NotifDutTempOutOfBounds::from_notif_cfg(notif, updated_dev_sched) {
                Ok(parsed) => {
                    notif_dut_temp_outofbounds.insert(parsed.notif_id, parsed);
                },
                Err(_) => {},
            }
        } else if str_eq(notif.cond_id.as_str(), "DUT_T T>T") {
            match NotifDutTempHighCritic::from_notif_cfg(notif, updated_dev_sched) {
                Ok(parsed) => {
                    notif_dut_temp_high_critic.insert(parsed.notif_id, parsed);
                },
                Err(_) => {},
            }
        } else if str_eq(notif.cond_id.as_str(), "DUT_CO2 >") {
            match NotifDutCO2High::from_notif_cfg(notif, updated_dev_sched) {
                Ok(parsed) => {
                    notif_dut_co2_high.insert(parsed.notif_id, parsed);
                },
                Err(_) => {},
            }
        } else if str_eq(notif.cond_id.as_str(), "DUT_CO2 D>") {
            match NotifDutCO2HighEndOfDay::from_notif_cfg(notif, updated_dev_sched) {
                Ok(parsed) => {
                    notif_dut_co2_high_endofday.insert(parsed.notif_id, parsed);
                },
                Err(_) => {},
            }
        }
        i = i + 1;
    }
    proof {
        assert(updated_dev_notifs@.take(n as int) =~= updated_dev_notifs@);
    }

    let is_empty = notif_dut_temp_outofbounds.is_empty() && notif_dut_temp_high_critic.is_empty()
        && notif_dut_co2_high.is_empty() && notif_dut_co2_high_endofday.is_empty();

    if is_empty {
        proof {
            assert forall|id: u64| #[trigger] spec_parsed_outofbounds(
                updated_dev_notifs@,
                *updated_dev_sched,
                id,
            ) is None by {
                assert(notif_dut_temp_outofbounds.spec_get(id) is None);
            }
            assert forall|id: u64| #[trigger] spec_parsed_critic(
                updated_dev_notifs@,
                *updated_dev_sched,
                id,
            ) is None by {
                assert(notif_dut_temp_high_critic.spec_get(id) is None);
            }
            assert forall|id: u64| #[trigger] spec_parsed_co2_high(
                updated_dev_notifs@,
                *updated_dev_sched,
                id,
            ) is None by {
                assert(notif_dut_co2_high.spec_get(id) is None);
            }
            assert forall|id: u64| #[trigger] spec_parsed_co2_endofday(
                updated_dev_notifs@,
                *updated_dev_sched,
                id,
            ) is None by {
                assert(notif_dut_co2_high_endofday.spec_get(id) is None);
            }
        }
        return None;
    }
    proof {
        if notif_dut_temp_outofbounds.entries@.len() > 0 {
            lemma_assoc_get_witness(notif_dut_temp_outofbounds.entries@, 0);
            let id0 = notif_dut_temp_outofbounds.entries@[0].0;
            assert(notif_dut_temp_outofbounds.spec_get(id0) is Some);
            assert(spec_parsed_outofbounds(updated_dev_notifs@, *updated_dev_sched, id0) is Some);
        } else if notif_dut_temp_high_critic.entries@.len() > 0 {
            lemma_assoc_get_witness(notif_dut_temp_high_critic.entries@, 0);
            let id0 = notif_dut_temp_high_critic.entries@[0].0;
            assert(notif_dut_temp_high_critic.spec_get(id0) is Some);
            assert(spec_parsed_critic(updated_dev_notifs@, *updated_dev_sched, id0) is Some);
        } else if notif_dut_co2_high.entries@.len() > 0 {
            lemma_assoc_get_witness(notif_dut_co2_high.entries@, 0);
            let id0 = notif_dut_co2_high.entries@[0].0;
            assert(notif_dut_co2_high.spec_get(id0) is Some);
            assert(spec_parsed_co2_high(updated_dev_notifs@, *updated_dev_sched, id0) is Some);
        } else {
            lemma_assoc_get_witness(notif_dut_co2_high_endofday.entries@, 0);
            let id0 = notif_dut_co2_high_endofday.entries@[0].0;
            assert(notif_dut_co2_high_endofday.spec_get(id0) is Some);
            assert(spec_parsed_co2_endofday(updated_dev_notifs@, *updated_dev_sched, id0) is Some);
        }
    }
    Some(
        (
            notif_dut_temp_outofbounds,
            notif_dut_temp_high_critic,
            notif_dut_co2_high,
            notif_dut_co2_high_endofday,
        ),
    )
}

/// A device's prior out-of-bounds rule for `id`, if it holds DUT state.
pub open spec fn spec_old_outofbounds(dev: DevInfo, id: u64) -> Option<NotifDutTempOutOfBounds> {
    match dev.notifs_dut {
        Some(nd) => nd.notif_dut_temp_outofbounds.spec_get(id),
        None => None,
    }
}

/// A device's prior critical rule for `id`, if it holds DUT state.
pub open spec fn spec_old_critic(dev: DevInfo, id: u64) -> Option<NotifDutTempHighCritic> {
    match dev.notifs_dut {
        Some(nd) => nd.notif_dut_temp_high_critic.spec_get(id),
        None => None,
    }
}

/// A device's prior CO2 rule for `id`, if it holds DUT state.
pub open spec fn spec_old_co2_high(dev: DevInfo, id: u64) -> Option<NotifDutCO2High> {
    match dev.notifs_dut {
        Some(nd) => nd.notif_dut_co2_high.spec_get(id),
        None => None,
    }
}

/// A device's prior end-of-day CO2 rule for `id`, if it holds DUT state.
pub open spec fn spec_old_co2_endofday(dev: DevInfo, id: u64) -> Option<NotifDutCO2HighEndOfDay> {
    match dev.notifs_dut {
        Some(nd) => nd.notif_dut_co2_high_endofday.spec_get(id),
        None => None,
    }
}

/// A device's prior temperature cache, if it holds DUT state.
pub open spec fn spec_old_last_temperature(dev: DevInfo) -> Option<LastDutTemperature> {
    match dev.notifs_dut {
        Some(nd) => nd.last_temperature,
        None => None,
    }
}

/// A device's prior CO2 cache, if it holds DUT state.
pub open spec fn spec_old_last_co2(dev: DevInfo) -> Option<LastDutCO2> {
    match dev.notifs_dut {
        Some(nd) => nd.last_co2,
        None => None,
    }
}

/// The view of an optional schedule's entries.
pub open spec fn spec_sched_view(s: Option<AutomationSchedule>) -> Option<
    Seq<(crate::schedule::DayKey, crate::schedule::DayProg)>,
> {
    match s {
        Some(sched) => Some(sched.by_day@),
        None => None,
    }
}

/// The view of the schedule an automation configuration carries.
pub open spec fn spec_cfg_sched_view(cfg: Option<DutAutomationConfig>) -> Option<
    Seq<(crate::schedule::DayKey, crate::schedule::DayProg)>,
> {
    match cfg {
        Some(c) => Some(c.schedule.by_day@),
        None => None,
    }
}

/// How a reconciliation changes the DUT side of one device. When the item
/// list yields no rule, a full refresh clears the DUT state and the flag,
/// while a partial one leaves the device untouched. Otherwise the device
/// ends up monitored, under the new schedule, with the caches carried over
/// and, per rule id and kind: a freshly configured rule keeps the old
/// instance's runtime state; an id the list does not yield survives a
/// partial reconciliation unchanged and is dropped by a full one. The DAC
/// side and the telemetry fields are untouched either way.
pub open spec fn spec_dut_updated(
    olddev: DevInfo,
    newdev: DevInfo,
    items: Seq<NotifRuleCfg>,
    cfg: Option<DutAutomationConfig>,
    partial: bool,
) -> bool {
    &&& newdev.last_timestamp == olddev.last_timestamp
    &&& newdev.last_telemetry == olddev.last_telemetry
    &&& newdev.has_notifs_dac == olddev.has_notifs_dac
    &&& newdev.notifs_dac == olddev.notifs_dac
    &&& if !spec_any_dut_rule(items, cfg) {
        if partial {
            newdev.has_notifs_dut == olddev.has_notifs_dut && newdev.notifs_dut == olddev.notifs_dut
        } else {
            newdev.has_notifs_dut == false && (newdev.notifs_dut is None)
        }
    } else {
        &&& newdev.has_notifs_dut == true
        &&& newdev.notifs_dut is Some
        &&& newdev.notifs_dut->Some_0.wf()
        &&& spec_sched_view(newdev.notifs_dut->Some_0.schedule) == spec_cfg_sched_view(cfg)
        &&& newdev.notifs_dut->Some_0.last_temperature == spec_old_last_temperature(olddev)
        &&& newdev.notifs_dut->Some_0.last_co2 == spec_old_last_co2(olddev)
        &&& forall|id: u64|
            #[trigger] newdev.notifs_dut->Some_0.notif_dut_temp_outofbounds.spec_get(id) == match
                spec_parsed_outofbounds(items, cfg, id) {
                Some(n) => Some(
                    NotifDutTempOutOfBounds::spec_carry(n, spec_old_outofbounds(olddev, id)),
                ),
                None => if partial {
                    spec_old_outofbounds(olddev, id)
                } else {
                    None
                },
            }
        &&& forall|id: u64|
            #[trigger] newdev.notifs_dut->Some_0.notif_dut_temp_high_critic.spec_get(id) == match
                spec_parsed_critic(items, cfg, id) {
                Some(n) => Some(NotifDutTempHighCritic::spec_carry(n, spec_old_critic(olddev, id))),
                None => if partial {
                    spec_old_critic(olddev, id)
                } else {
                    None
                },
            }
        &&& forall|id: u64|
            #[trigger] newdev.notifs_dut->Some_0.notif_dut_co2_high.spec_get(id) == match
                spec_parsed_co2_high(items, cfg, id) {
                Some(n) => Some(NotifDutCO2High::spec_carry(n, spec_old_co2_high(olddev, id))),
                None => if partial {
                    spec_old_co2_high(olddev, id)
                } else {
                    None
                },
            }
        &&& forall|id: u64|
            #[trigger] newdev.notifs_dut->Some_0.notif_dut_co2_high_endofday.spec_get(id) == match
                spec_parsed_co2_endofday(items, cfg, id) {
                Some(n) => Some(
                    NotifDutCO2HighEndOfDay::spec_carry(n, spec_old_co2_endofday(olddev, id)),
                ),
                None => if partial {
                    spec_old_co2_endofday(olddev, id)
                } else {
                    None
                },
            }
    }
}

/// The sequence of items a `None` update stands for: none at all.
pub open spec fn spec_items_view(items: Option<&Vec<NotifRuleCfg>>) -> Seq<
    NotifRuleCfg,
> {
    match items {
        Some(v) => v@,
        None => Seq::empty(),
    }
}

/// Reconciles the DUT side of one device against the configuration items
/// that target it. `partial_update` says whether the list is a partial
/// update (rules absent from it survive) or a full refresh (they are
/// dropped, and a device the list no longer targets is cleared).
pub fn update_notifs_dut(
    dev_info: &mut DevInfo,
    updated_dev_notifs: Option<&Vec<NotifRuleCfg>>,
    updated_dev_sched: Option<DutAutomationConfig>,
    partial_update: bool,
)
    requires
        old(dev_info).wf(),
    ensures
        final(dev_info).wf(),
        spec_dut_updated(
            *old(dev_info),
            *final(dev_info),
            spec_items_view(updated_dev_notifs),
            updated_dev_sched,
            partial_update,
        ),
{
    let parsed = match updated_dev_notifs {
        Some(items) => parse_dut_notifs_list(items, &updated_dev_sched),
        None => None,
    };
    match parsed {
        None => {
            if !partial_update {
                dev_info.has_notifs_dut = false;
                dev_info.notifs_dut = None;
            }
        },
        Some(maps) => {
            let (mut oob, mut critic, mut co2, mut eod) = maps;
            let schedule = match updated_dev_sched {
                Some(c) => Some(c.schedule),
                None => None,
            };
            match &mut dev_info.notifs_dut {
                Some(existing) => {
                    existing.schedule = schedule;
                    NotifDutTempOutOfBounds::update_new_notifs_parameters(
                        &existing.notif_dut_temp_outofbounds,
                        &mut oob,
                    );
                    NotifDutTempHighCritic::update_new_notifs_parameters(
                        &existing.notif_dut_temp_high_critic,
                        &mut critic,
                    );
                    NotifDutCO2High::update_new_notifs_parameters(
                        &existing.notif_dut_co2_high,
                        &mut co2,
                    );
                    NotifDutCO2HighEndOfDay::update_new_notifs_parameters(
                        &existing.notif_dut_co2_high_endofday,
                        &mut eod,
                    );
                    if partial_update {
                        existing.notif_dut_temp_outofbounds.merge_from(&oob);
                        existing.notif_dut_temp_high_critic.merge_from(&critic);
                        existing.notif_dut_co2_high.merge_from(&co2);
                        existing.notif_dut_co2_high_endofday.merge_from(&eod);
                    } else {
                        existing.notif_dut_temp_outofbounds = oob;
                        existing.notif_dut_temp_high_critic = critic;
                        existing.notif_dut_co2_high = co2;
                        existing.notif_dut_co2_high_endofday = eod;
                    }
                },
                None => {
                    dev_info.notifs_dut = Some(
                        NotifsDut {
                            notif_dut_temp_outofbounds: oob,
                            notif_dut_temp_high_critic: critic,
                            notif_dut_co2_high: co2,
                            notif_dut_co2_high_endofday: eod,
                            last_temperature: None,
                            last_co2: None,
                            schedule,
                        },
                    );
                },
            }
            dev_info.has_notifs_dut = true;
        },
    }
}


/// Whether the schedule allows evaluating a reading at this instant: there
/// must be a program for the reading's calendar day, and the reading's
/// time of day must be active under it. Without a schedule nothing is
/// evaluated.
pub open spec fn spec_reading_active(nd: NotifsDut, tel: DutTelemetry) -> bool {
    match nd.schedule {
        None => false,
        Some(sched) => match sched.spec_get_for(tel.timestamp.spec_day()) {
            None => false,
            Some(prog) => prog.spec_is_inside_sched(tel.timestamp.spec_time_of_day()),
        },
    }
}

/// How one reading moves a device's DUT state: outside the schedule
/// nothing at all changes (no accumulator advances); inside it, the
/// temperature channel applies and then the CO2 channel, `outdets` being
/// their detections in that order.
pub open spec fn spec_reading_step(
    nd0: NotifsDut,
    nd1: NotifsDut,
    tel: DutTelemetry,
    dev_id: String,
    now: u64,
    outdets: Seq<Detection>,
) -> bool {
    if !spec_reading_active(nd0, tel) {
        nd1 == nd0 && outdets.len() == 0
    } else {
        exists|mid: NotifsDut, cut: int|
            #![all_triggers]
            {
                &&& 0 <= cut <= outdets.len()
                &&& spec_temp_channel(nd0, mid, tel, dev_id, now, outdets.take(cut))
                &&& spec_co2_channel(mid, nd1, tel, dev_id, now, outdets.skip(cut))
            }
    }
}

/// How a decoded pack moves a device's DUT state: its readings apply in
/// order, oldest first, `outdets` concatenating their detections.
pub open spec fn spec_pack_applied(
    nd0: NotifsDut,
    nd1: NotifsDut,
    readings: Seq<DutTelemetry>,
    dev_id: String,
    now: u64,
    outdets: Seq<Detection>,
) -> bool
    decreases readings.len(),
{
    if readings.len() == 0 {
        nd1 == nd0 && outdets.len() == 0
    } else {
        exists|mid: NotifsDut, cut: int|
            #![all_triggers]
            {
                &&& 0 <= cut <= outdets.len()
                &&& spec_pack_applied(nd0, mid, readings.drop_last(), dev_id, now, outdets.take(cut))
                &&& spec_reading_step(mid, nd1, readings.last(), dev_id, now, outdets.skip(cut))
            }
    }
}

/// Applies a decoded pack's readings, oldest first, to a device's DUT
/// state: each reading is gated by the schedule and, when active, fed to
/// the temperature rules and then the CO2 rules.
pub fn on_dut_readings(
    dev_alerts: &mut NotifsDut,
    telemetry_list: &Vec<DutTelemetry>,
    dev_id: &String,
    now_monotonic: u64,
    dets: &mut Vec<Detection>,
)
    requires
        old(dev_alerts).wf(),
    ensures
        final(dev_alerts).wf(),
        old(dets)@.len() <= final(dets)@.len(),
        final(dets)@.take(old(dets)@.len() as int) == old(dets)@,
        spec_pack_applied(
            *old(dev_alerts),
            *final(dev_alerts),
            telemetry_list@,
            *dev_id,
            now_monotonic,
            final(dets)@.skip(old(dets)@.len() as int),
        ),
{
    let ghost base = dets@;
    let n = telemetry_list.len();
    let mut i: usize = 0;
    proof {
        assert(telemetry_list@.take(0) =~= Seq::<DutTelemetry>::empty());
        assert(dets@.skip(base.len() as int) =~= Seq::<Detection>::empty());
    }
    while i < n
        invariant
            i <= n,
            n == telemetry_list@.len(),
            dev_alerts.wf(),
            old(dev_alerts).wf(),
            base.len() <= dets@.len(),
            dets@.take(base.len() as int) == base,
            spec_pack_applied(
                *old(dev_alerts),
                *dev_alerts,
                telemetry_list@.take(i as int),
                *dev_id,
                now_monotonic,
                dets@.skip(base.len() as int),
            ),
        decreases n - i,
    {
        let ghost prev_nd = *dev_alerts;
        let ghost prev_dets = dets@;
        let telemetry = &telemetry_list[i];
        let active = match &dev_alerts.schedule {
            None => false,
            Some(sched) => match sched.get_for(telemetry.timestamp.day()) {
                None => false,
                Some(prog) => prog.is_inside_sched(telemetry.timestamp.time_of_day()),
            },
        };
        if active {
            crate::dut_t::on_dut_telemetry(telemetry, dev_alerts, dev_id, now_monotonic, dets);
            let ghost mid_nd = *dev_alerts;
            let ghost mid_dets = dets@;
            crate::dut_co2::on_dut_telemetry(telemetry, dev_alerts, dev_id, now_monotonic, dets);
            proof {
                let newpart = dets@.skip(prev_dets.len() as int);
                let cut2 = mid_dets.len() - prev_dets.len();
                assert(newpart.take(cut2 as int) =~= mid_dets.skip(prev_dets.len() as int));
                assert(newpart.skip(cut2 as int) =~= dets@.skip(mid_dets.len() as int));
                assert(spec_temp_channel(
                    prev_nd,
                    mid_nd,
                    telemetry_list@[i as int],
                    *dev_id,
                    now_monotonic,
                    newpart.take(cut2 as int),
                ));
                assert(spec_co2_channel(
                    mid_nd,
                    *dev_alerts,
                    telemetry_list@[i as int],
                    *dev_id,
                    now_monotonic,
                    newpart.skip(cut2 as int),
                ));
                assert(spec_reading_step(
                    prev_nd,
                    *dev_alerts,
                    telemetry_list@[i as int],
                    *dev_id,
                    now_monotonic,
                    newpart,
                ));
            }
        } else {
            proof {
                assert(spec_reading_step(
                    prev_nd,
                    *dev_alerts,
                    telemetry_list@[i as int],
                    *dev_id,
                    now_monotonic,
                    Seq::<Detection>::empty(),
                ));
            }
        }
        proof {
            let all = dets@.skip(base.len() as int);
            let cut = prev_dets.len() - base.len();
            assert(all.take(cut as int) =~= prev_dets.skip(base.len() as int));
            assert(all.skip(cut as int) =~= dets@.skip(prev_dets.len() as int));
            assert(telemetry_list@.take(i + 1).drop_last() =~= telemetry_list@.take(i as int));
            assert(telemetry_list@.take(i + 1).last() == telemetry_list@[i as int]);
            if !active {
                assert(dets@ == prev_dets);
                assert(all.skip(cut as int) =~= Seq::<Detection>::empty());
            }
            assert(spec_pack_applied(
                *old(dev_alerts),
                *dev_alerts,
                telemetry_list@.take(i + 1),
                *dev_id,
                now_monotonic,
                all,
            ));
            assert(dets@.take(base.len() as int) =~= base);
        }
        i = i + 1;
    }
    proof {
        assert(telemetry_list@.take(n as int) =~= telemetry_list@);
    }
}

/// Decodes a DUT payload and applies its readings to a device's DUT state.
/// A payload that does not decode changes nothing and emits nothing; the
/// decode error is handed back for logging.
pub fn on_dut_telemetry(
    payload_json: &serde_json::Value,
    temperature_centi: Option<Vec<Option<i64>>>,
    dev_alerts: &mut NotifsDut,
    dev_id: &String,
    now_monotonic: u64,
    dets: &mut Vec<Detection>,
) -> (r: Result<(), String>)
    requires
        old(dev_alerts).wf(),
    ensures
        final(dev_alerts).wf(),
        old(dets)@.len() <= final(dets)@.len(),
        final(dets)@.take(old(dets)@.len() as int) == old(dets)@,
        match r {
            Ok(_) => exists|readings: Seq<DutTelemetry>|
                spec_pack_applied(
                    *old(dev_alerts),
                    *final(dev_alerts),
                    readings,
                    *dev_id,
                    now_monotonic,
                    final(dets)@.skip(old(dets)@.len() as int),
                ),
            Err(_) => *final(dev_alerts) == *old(dev_alerts) && final(dets)@ == old(dets)@,
        },
{
    let telemetry_list = match DutTelemetry::parse_from_json_as_vec(
        payload_json,
        temperature_centi,
    ) {
        Ok(x) => x,
        Err(e) => {
            return Err(e);
        },
    };
    on_dut_readings(dev_alerts, &telemetry_list, dev_id, now_monotonic, dets);
    proof {
        assert(spec_pack_applied(
            *old(dev_alerts),
            *dev_alerts,
            telemetry_list@,
            *dev_id,
            now_monotonic,
            dets@.skip(old(dets)@.len() as int),
        ));
    }
    Ok(())
}

} // verus!
