//! The shapes in which rule configuration reaches the engine, already read
//! off the wire into plain values: one item per configured rule, and the
//! per-device automation parameters (temperature and CO2 bounds plus the
//! weekly schedule) that several rule kinds take their thresholds from.
//!
//! Temperatures and CO2 levels are carried in hundredths of the sensor unit
//! throughout the engine.

use vstd::prelude::*;

use crate::global_vars::DevsInfo;
use crate::notifs_dac::{spec_dac_updated, update_notifs_dac};
use crate::notifs_dut::{spec_dut_updated, update_notifs_dut};
use crate::schedule::{parse_cfg_schedule, spec_parse_sched, AutomationSchedule, DayProgInput};
use crate::strmap::str_eq;

verus! {

/// The condition parameters a rule item may carry. Absent fields take the
/// rule kind's defaults.
#[derive(Clone, Debug)]
pub struct CondPars {
    /// `TIME_LIMIT`, an `HH:MM` string, for the compressor-hour kinds.
    pub time_limit: Option<String>,
    /// `OFFSET_OVER_T_MAX` in hundredths of a degree, for the critical
    /// temperature kind.
    pub offset_over_t_max: Option<i64>,
    /// `DURATION_IN_MINUTES`, for the critical temperature kind.
    pub duration_in_minutes: Option<u64>,
}

/// One configured rule as the configuration source reports it: its stable
/// id, its condition code (`"DUT_CO2 >"`, `"COMP_TIME <"`, ...), its
/// parameters, and the devices it targets.
#[derive(Clone, Debug)]
#[allow(non_camel_case_types)]
pub struct NotifsCfgResponse_notif_item {
    pub notif_id: u64,
    pub cond_id: String,
    pub cond_pars: CondPars,
    pub dev_ids: Vec<String>,
}

/// One configured rule as a device sees it: the wire item without its
/// device list.
#[derive(Clone, Debug)]
pub struct NotifRuleCfg {
    pub notif_id: u64,
    pub cond_id: String,
    pub cond_pars: CondPars,
}

/// The per-device form of a wire item.
pub open spec fn spec_reduced(it: NotifsCfgResponse_notif_item) -> NotifRuleCfg {
    NotifRuleCfg { notif_id: it.notif_id, cond_id: it.cond_id, cond_pars: it.cond_pars }
}

/// One schedule record as the configuration source reports it: the devices
/// it applies to, the ambient bounds, and the by-day program entries.
#[derive(Clone, Debug)]
#[allow(non_camel_case_types)]
pub struct NotifsCfgResponse_sched_item {
    pub dev_ids: Vec<String>,
    pub tusemax: Option<i64>,
    pub tusemin: Option<i64>,
    pub co2max: Option<i64>,
    pub schedule: Vec<DayProgInput>,
}

/// A device's automation parameters: the bounds the DUT rules compare
/// against and the schedule gating their evaluation.
#[derive(Clone, Debug)]
pub struct DutAutomationConfig {
    pub tusemax: Option<i64>,
    pub tusemin: Option<i64>,
    pub co2max: Option<i64>,
    pub schedule: AutomationSchedule,
}

impl DutAutomationConfig {
    /// Builds a device's automation parameters from one schedule record.
    /// Fails exactly when the record's schedule does not parse.
    pub fn from_sched_item(item: &NotifsCfgResponse_sched_item) -> (r: Result<
        DutAutomationConfig,
        &'static str,
    >)
        ensures
            match r {
                Ok(cfg) => {
                    &&& spec_parse_sched(item.schedule@) == Some(cfg.schedule.by_day@)
                    &&& cfg.tusemax == item.tusemax
                    &&& cfg.tusemin == item.tusemin
                    &&& cfg.co2max == item.co2max
                },
                Err(_) => spec_parse_sched(item.schedule@) is None,
            },
    {
        match parse_cfg_schedule(&item.schedule) {
            Ok(sched) => Ok(
                DutAutomationConfig {
                    tusemax: item.tusemax,
                    tusemin: item.tusemin,
                    co2max: item.co2max,
                    schedule: sched,
                },
            ),
            Err(e) => Err(e),
        }
    }
}


/// Whether one of the strings in `ss` reads `dev`.
pub open spec fn spec_strvec_contains(ss: Seq<String>, dev: Seq<char>) -> bool {
    exists|j: int| 0 <= j < ss.len() && (#[trigger] ss[j])@ == dev
}

/// Whether a configuration item targets the device `dev`.
pub open spec fn spec_targets(it: NotifsCfgResponse_notif_item, dev: Seq<char>) -> bool {
    spec_strvec_contains(it.dev_ids@, dev)
}

/// Whether one of the strings in `ids` reads `dev`.
pub fn strvec_contains(ids: &Vec<String>, dev: &str) -> (r: bool)
    ensures
        r == spec_strvec_contains(ids@, dev@),
{
    let n = ids.len();
    let mut i: usize = 0;
    while i < n
        invariant
            i <= n,
            n == ids@.len(),
            forall|j: int| 0 <= j < i ==> (#[trigger] ids@[j])@ != dev@,
        decreases n - i,
    {
        if str_eq(ids[i].as_str(), dev) {
            return true;
        }
        i = i + 1;
    }
    false
}

/// Copies the per-device form of one wire item.
fn clone_reduced(it: &NotifsCfgResponse_notif_item) -> (r: NotifRuleCfg)
    ensures
        r == spec_reduced(*it),
{
    let time_limit = match &it.cond_pars.time_limit {
        Some(t) => Some(t.clone()),
        None => None,
    };
    NotifRuleCfg {
        notif_id: it.notif_id,
        cond_id: it.cond_id.clone(),
        cond_pars: CondPars {
            time_limit,
            offset_over_t_max: it.cond_pars.offset_over_t_max,
            duration_in_minutes: it.cond_pars.duration_in_minutes,
        },
    }
}

/// The configuration items targeting one device, in list order, in their
/// per-device form.
pub open spec fn spec_notifs_for_dev(
    items: Seq<NotifsCfgResponse_notif_item>,
    dev: Seq<char>,
) -> Seq<NotifRuleCfg>
    decreases items.len(),
{
    if items.len() == 0 {
        Seq::empty()
    } else {
        let prev = spec_notifs_for_dev(items.drop_last(), dev);
        if spec_targets(items.last(), dev) {
            prev.push(spec_reduced(items.last()))
        } else {
            prev
        }
    }
}

/// Collects the configuration items that target `dev`.
pub fn notifs_for_device(
    items: &Vec<NotifsCfgResponse_notif_item>,
    dev: &str,
) -> (r: Vec<NotifRuleCfg>)
    ensures
        r@ == spec_notifs_for_dev(items@, dev@),
{
    let mut out: Vec<NotifRuleCfg> = Vec::new();
    let n = items.len();
    let mut i: usize = 0;
    while i < n
        invariant
            i <= n,
            n == items@.len(),
            out@ == spec_notifs_for_dev(items@.take(i as int), dev@),
        decreases n - i,
    {
        proof {
            assert(items@.take(i + 1).drop_last() =~= items@.take(i as int));
            assert(items@.take(i + 1).last() == items@[i as int]);
        }
        let it = &items[i];
        if strvec_contains(&it.dev_ids, dev) {
            out.push(clone_reduced(it));
        }
        i = i + 1;
    }
    proof {
        assert(items@.take(n as int) =~= items@);
    }
    out
}

/// The schedule record that applies to one device: the last record that
/// targets it and whose schedule parses.
pub open spec fn spec_sched_item_for_dev(
    scheds: Seq<NotifsCfgResponse_sched_item>,
    dev: Seq<char>,
) -> Option<NotifsCfgResponse_sched_item>
    decreases scheds.len(),
{
    if scheds.len() == 0 {
        None
    } else {
        let last = scheds.last();
        if spec_strvec_contains(last.dev_ids@, dev) && (spec_parse_sched(last.schedule@) is Some) {
            Some(last)
        } else {
            spec_sched_item_for_dev(scheds.drop_last(), dev)
        }
    }
}

/// Whether an automation configuration is the one a schedule record
/// denotes.
pub open spec fn spec_cfg_matches(
    cfg: Option<DutAutomationConfig>,
    item: Option<NotifsCfgResponse_sched_item>,
) -> bool {
    match (cfg, item) {
        (None, None) => true,
        (Some(c), Some(it)) => {
            &&& c.tusemax == it.tusemax
            &&& c.tusemin == it.tusemin
            &&& c.co2max == it.co2max
            &&& Some(c.schedule.by_day@) == spec_parse_sched(it.schedule@)
        },
        _ => false,
    }
}

/// Resolves the automation parameters for one device from the fetched
/// schedule records: the last record targeting the device whose schedule
/// parses wins; records with unparseable schedules are skipped.
pub fn sched_for_device(
    scheds: &Vec<NotifsCfgResponse_sched_item>,
    dev: &str,
) -> (r: Option<DutAutomationConfig>)
    ensures
        spec_cfg_matches(r, spec_sched_item_for_dev(scheds@, dev@)),
{
    let n = scheds.len();
    let mut i: usize = n;
    proof {
        assert(scheds@.take(n as int) =~= scheds@);
    }
    while i > 0
        invariant
            i <= n,
            n == scheds@.len(),
            spec_sched_item_for_dev(scheds@, dev@) == spec_sched_item_for_dev(
                scheds@.take(i as int),
                dev@,
            ),
        decreases i,
    {
        proof {
            assert(scheds@.take(i as int).drop_last() =~= scheds@.take(i - 1));
            assert(scheds@.take(i as int).last() == scheds@[i - 1]);
        }
        let it = &scheds[i - 1];
        if strvec_contains(&it.dev_ids, dev) {
            match DutAutomationConfig::from_sched_item(it) {
                Ok(cfg) => {
                    return Some(cfg);
                },
                Err(_) => {},
            }
        }
        i = i - 1;
    }
    proof {
        assert(scheds@.take(0) =~= Seq::<NotifsCfgResponse_sched_item>::empty());
    }
    None
}


/// Applies one device's share of a full refresh: the DUT side, then the
/// DAC side, both in full-replace mode.
pub fn update_all_device_notifs(
    dev_info: &mut crate::global_vars::DevInfo,
    updated_dev_notifs: Option<&Vec<NotifRuleCfg>>,
    updated_dev_sched: Option<DutAutomationConfig>,
)
    requires
        old(dev_info).wf(),
    ensures
        final(dev_info).wf(),
        exists|mid: crate::global_vars::DevInfo|
            #![all_triggers]
            {
                &&& spec_dut_updated(
                    *old(dev_info),
                    mid,
                    crate::notifs_dut::spec_items_view(updated_dev_notifs),
                    updated_dev_sched,
                    false,
                )
                &&& spec_dac_updated(
                    mid,
                    *final(dev_info),
                    crate::notifs_dut::spec_items_view(updated_dev_notifs),
                    false,
                )
            },
{
    update_notifs_dut(dev_info, updated_dev_notifs, updated_dev_sched, false);
    let ghost mid = *dev_info;
    update_notifs_dac(dev_info, updated_dev_notifs, false);
    proof {
        assert(spec_dut_updated(
            *old(dev_info),
            mid,
            crate::notifs_dut::spec_items_view(updated_dev_notifs),
            updated_dev_sched,
            false,
        ));
    }
}

/// How a full refresh changes one device: its DUT and then DAC sides are
/// rebuilt in full-replace mode from the items targeting it, under the
/// automation parameters its schedule record denotes.
pub open spec fn spec_device_fully_updated(
    olddev: crate::global_vars::DevInfo,
    newdev: crate::global_vars::DevInfo,
    notifs: Seq<NotifsCfgResponse_notif_item>,
    scheds: Seq<NotifsCfgResponse_sched_item>,
    dev: Seq<char>,
) -> bool {
    exists|cfg: Option<DutAutomationConfig>, mid: crate::global_vars::DevInfo|
        #![all_triggers]
        {
            &&& spec_cfg_matches(cfg, spec_sched_item_for_dev(scheds, dev))
            &&& spec_dut_updated(olddev, mid, spec_notifs_for_dev(notifs, dev), cfg, false)
            &&& spec_dac_updated(mid, newdev, spec_notifs_for_dev(notifs, dev), false)
        }
}

/// A full refresh: for every device the registry holds, rebuilds its rule
/// maps and schedule from the fetched configuration, carrying runtime
/// state forward by rule id; devices the fetched rule list does not target
/// get their rule state cleared. Devices absent from the registry are not
/// touched (they are only created by telemetry).
pub fn parse_complete_notifs_update(
    registry: &mut DevsInfo,
    notifs_list: &Vec<NotifsCfgResponse_notif_item>,
    devs_schedule: &Vec<NotifsCfgResponse_sched_item>,
)
    requires
        crate::global_vars::spec_registry_wf(old(registry)),
    ensures
        crate::global_vars::spec_registry_wf(final(registry)),
        final(registry).entries@.len() == old(registry).entries@.len(),
        forall|k: int|
            0 <= k < old(registry).entries@.len() ==> (#[trigger] final(registry).entries@[k]).0
                == old(registry).entries@[k].0,
        forall|k: int|
            0 <= k < old(registry).entries@.len() ==> spec_device_fully_updated(
                old(registry).entries@[k].1,
                (#[trigger] final(registry).entries@[k]).1,
                notifs_list@,
                devs_schedule@,
                old(registry).entries@[k].0@,
            ),
{
    let n = registry.entries.len();
    let mut k: usize = 0;
    while k < n
        invariant
            k <= n,
            n == registry.entries@.len(),
            n == old(registry).entries@.len(),
            forall|j: int|
                0 <= j < n ==> (#[trigger] registry.entries@[j]).0 == old(registry).entries@[j].0,
            forall|j: int|
                k <= j < n ==> #[trigger] registry.entries@[j] == old(registry).entries@[j],
            forall|j: int| 0 <= j < n ==> (#[trigger] registry.entries@[j]).1.wf(),
            spec_unique_keys_of(registry.entries@),
            forall|j: int|
                0 <= j < k ==> spec_device_fully_updated(
                    old(registry).entries@[j].1,
                    (#[trigger] registry.entries@[j]).1,
                    notifs_list@,
                    devs_schedule@,
                    old(registry).entries@[j].0@,
                ),
        decreases n - k,
    {
        let pair = &mut registry.entries[k];
        let filtered = notifs_for_device(notifs_list, pair.0.as_str());
        let cfg = sched_for_device(devs_schedule, pair.0.as_str());
        let ghost cfg_snapshot = cfg;
        update_all_device_notifs(&mut pair.1, Some(&filtered), cfg);
        proof {
            let mid = choose|mid: crate::global_vars::DevInfo|
                #![all_triggers]
                {
                    &&& spec_dut_updated(
                        old(registry).entries@[k as int].1,
                        mid,
                        filtered@,
                        cfg_snapshot,
                        false,
                    )
                    &&& spec_dac_updated(mid, pair.1, filtered@, false)
                };
            assert(spec_cfg_matches(
                cfg_snapshot,
                spec_sched_item_for_dev(devs_schedule@, old(registry).entries@[k as int].0@),
            ));
            assert(spec_device_fully_updated(
                old(registry).entries@[k as int].1,
                pair.1,
                notifs_list@,
                devs_schedule@,
                old(registry).entries@[k as int].0@,
            ));
        }
        k = k + 1;
    }
}

/// Unique keys of a registry entry sequence.
pub open spec fn spec_unique_keys_of(entries: Seq<(String, crate::global_vars::DevInfo)>) -> bool {
    crate::strmap::spec_unique_keys(entries)
}

/// One change notice, as the configuration source announces it: a rule id
/// and, optionally, the devices that were removed from that rule.
pub type NotifChangeNotice = (u64, Option<Vec<String>>);

/// Whether the change notices remove rule `id` from device `dev`.
pub open spec fn spec_removed(changed: Seq<NotifChangeNotice>, dev: Seq<char>, id: u64) -> bool {
    exists|k: int|
        0 <= k < changed.len() && (#[trigger] changed[k]).0 == id && (changed[k].1 is Some)
            && spec_strvec_contains(changed[k].1->Some_0@, dev)
}

/// Extending the notices by one row extends the removals by that row's.
proof fn lemma_removed_step(changed: Seq<NotifChangeNotice>, j: int, dev: Seq<char>, id: u64)
    requires
        0 <= j < changed.len(),
    ensures
        spec_removed(changed.take(j + 1), dev, id) == (spec_removed(changed.take(j), dev, id) || (
        changed[j].0 == id && (changed[j].1 is Some) && spec_strvec_contains(
            changed[j].1->Some_0@,
            dev,
        ))),
{
    let a = changed.take(j + 1);
    let b = changed.take(j);
    if spec_removed(a, dev, id) {
        let k = choose|k: int|
            0 <= k < a.len() && (#[trigger] a[k]).0 == id && (a[k].1 is Some)
                && spec_strvec_contains(a[k].1->Some_0@, dev);
        if k < j {
            assert(b[k] == a[k]);
            assert(spec_removed(b, dev, id));
        } else {
            assert(a[j] == changed[j]);
        }
    }
    if spec_removed(b, dev, id) {
        let k = choose|k: int|
            0 <= k < b.len() && (#[trigger] b[k]).0 == id && (b[k].1 is Some)
                && spec_strvec_contains(b[k].1->Some_0@, dev);
        assert(a[k] == b[k]);
        assert(spec_removed(a, dev, id));
    }
    if changed[j].0 == id && (changed[j].1 is Some) && spec_strvec_contains(
        changed[j].1->Some_0@,
        dev,
    ) {
        assert(a[j] == changed[j]);
        assert(spec_removed(a, dev, id));
    }
}

/// How the removal phase of a partial reconciliation changes one device:
/// every rule id the notices remove for it is gone from every kind's map,
/// every other id is untouched, and everything else about the device is
/// unchanged.
pub open spec fn spec_ids_removed(
    olddev: crate::global_vars::DevInfo,
    newdev: crate::global_vars::DevInfo,
    changed: Seq<NotifChangeNotice>,
    dev: Seq<char>,
) -> bool {
    &&& newdev.last_timestamp == olddev.last_timestamp
    &&& newdev.last_telemetry == olddev.last_telemetry
    &&& newdev.has_notifs_dut == olddev.has_notifs_dut
    &&& newdev.has_notifs_dac == olddev.has_notifs_dac
    &&& match (olddev.notifs_dut, newdev.notifs_dut) {
        (None, None) => true,
        (Some(o), Some(nw)) => {
            &&& nw.wf()
            &&& nw.last_temperature == o.last_temperature
            &&& nw.last_co2 == o.last_co2
            &&& nw.schedule == o.schedule
            &&& forall|id: u64|
                #[trigger] nw.notif_dut_temp_outofbounds.spec_get(id) == (if spec_removed(
                    changed,
                    dev,
                    id,
                ) {
                    None
                } else {
                    o.notif_dut_temp_outofbounds.spec_get(id)
                })
            &&& forall|id: u64|
                #[trigger] nw.notif_dut_temp_high_critic.spec_get(id) == (if spec_removed(
                    changed,
                    dev,
                    id,
                ) {
                    None
                } else {
                    o.notif_dut_temp_high_critic.spec_get(id)
                })
            &&& forall|id: u64|
                #[trigger] nw.notif_dut_co2_high.spec_get(id) == (if spec_removed(changed, dev, id) {
                    None
                } else {
                    o.notif_dut_co2_high.spec_get(id)
                })
            &&& forall|id: u64|
                #[trigger] nw.notif_dut_co2_high_endofday.spec_get(id) == (if spec_removed(
                    changed,
                    dev,
                    id,
                ) {
                    None
                } else {
                    o.notif_dut_co2_high_endofday.spec_get(id)
                })
        },
        _ => false,
    }
    &&& match (olddev.notifs_dac, newdev.notifs_dac) {
        (None, None) => true,
        (Some(o), Some(nw)) => {
            &&& nw.wf()
            &&& nw.last_l1 == o.last_l1
            &&& forall|id: u64|
                #[trigger] nw.notif_compressor_used_before_time.spec_get(id) == (if spec_removed(
                    changed,
                    dev,
                    id,
                ) {
                    None
                } else {
                    o.notif_compressor_used_before_time.spec_get(id)
                })
            &&& forall|id: u64|
                #[trigger] nw.notif_compressor_used_after_time.spec_get(id) == (if spec_removed(
                    changed,
                    dev,
                    id,
                ) {
                    None
                } else {
                    o.notif_compressor_used_after_time.spec_get(id)
                })
        },
        _ => false,
    }
}

/// How a partial reconciliation changes one device: first the notices'
/// removals, then the DUT and DAC sides merged in partial mode from the
/// items targeting the device.
pub open spec fn spec_device_partially_updated(
    olddev: crate::global_vars::DevInfo,
    newdev: crate::global_vars::DevInfo,
    notifs: Seq<NotifsCfgResponse_notif_item>,
    scheds: Seq<NotifsCfgResponse_sched_item>,
    changed: Seq<NotifChangeNotice>,
    dev: Seq<char>,
) -> bool {
    exists|
        cfg: Option<DutAutomationConfig>,
        mid1: crate::global_vars::DevInfo,
        mid2: crate::global_vars::DevInfo,
    |
        #![all_triggers]
        {
            &&& spec_ids_removed(olddev, mid1, changed, dev)
            &&& spec_cfg_matches(cfg, spec_sched_item_for_dev(scheds, dev))
            &&& spec_dut_updated(mid1, mid2, spec_notifs_for_dev(notifs, dev), cfg, true)
            &&& spec_dac_updated(mid2, newdev, spec_notifs_for_dev(notifs, dev), true)
        }
}

/// Applies the change notices' removals to one device: each named rule id
/// is dropped from every kind's map; nothing else changes.
pub fn apply_removal_notices(
    dev_info: &mut crate::global_vars::DevInfo,
    changed_notifs_list: &Vec<NotifChangeNotice>,
    dev_key: &String,
)
    requires
        old(dev_info).wf(),
    ensures
        final(dev_info).wf(),
        spec_ids_removed(*old(dev_info), *final(dev_info), changed_notifs_list@, dev_key@),
{
    let m = changed_notifs_list.len();
    let mut j: usize = 0;
    proof {
        assert(changed_notifs_list@.take(0) =~= Seq::<NotifChangeNotice>::empty());
        assert forall|id: u64| !spec_removed(
            changed_notifs_list@.take(0),
            dev_key@,
            id,
        ) by {}
    }
    while j < m
        invariant
            j <= m,
            m == changed_notifs_list@.len(),
            old(dev_info).wf(),
            dev_info.wf(),
            spec_ids_removed(
                *old(dev_info),
                *dev_info,
                changed_notifs_list@.take(j as int),
                dev_key@,
            ),
        decreases m - j,
    {
        let row_applies = match &changed_notifs_list[j].1 {
            Some(devs) => strvec_contains(devs, dev_key.as_str()),
            None => false,
        };
        let ghost before = *dev_info;
        let ghost cj = changed_notifs_list@[j as int];
        let nid = changed_notifs_list[j].0;
        if row_applies {
            if let Some(nd) = &mut dev_info.notifs_dut {
                nd.remove_notif_id(nid);
            }
            if let Some(nd) = &mut dev_info.notifs_dac {
                nd.remove_notif_id(nid);
            }
        }
        proof {
            let prefix = changed_notifs_list@.take(j as int);
            let prefix1 = changed_notifs_list@.take(j + 1);
            assert(prefix1.len() == j + 1);
            assert forall|id: u64|
                #[trigger] spec_removed(prefix1, dev_key@, id) == (spec_removed(prefix, dev_key@, id)
                    || (cj.0 == id && (cj.1 is Some) && spec_strvec_contains(
                    cj.1->Some_0@,
                    dev_key@,
                ))) by {
                lemma_removed_step(changed_notifs_list@, j as int, dev_key@, id);
            }
            if row_applies {
                let ghost cur_dut = dev_info.notifs_dut;
                match (old(dev_info).notifs_dut, cur_dut) {
                    (Some(o), Some(nw)) => {
                        let bf = before.notifs_dut->Some_0;
                        assert forall|id: u64|
                            #[trigger] nw.notif_dut_temp_outofbounds.spec_get(id) == (if
                            spec_removed(prefix1, dev_key@, id) {
                                None
                            } else {
                                o.notif_dut_temp_outofbounds.spec_get(id)
                            }) by {
                            assert(bf.notif_dut_temp_outofbounds.spec_get(id) == (if spec_removed(
                                prefix,
                                dev_key@,
                                id,
                            ) {
                                None
                            } else {
                                o.notif_dut_temp_outofbounds.spec_get(id)
                            }));
                        }
                        assert forall|id: u64|
                            #[trigger] nw.notif_dut_temp_high_critic.spec_get(id) == (if
                            spec_removed(prefix1, dev_key@, id) {
                                None
                            } else {
                                o.notif_dut_temp_high_critic.spec_get(id)
                            }) by {
                            assert(bf.notif_dut_temp_high_critic.spec_get(id) == (if spec_removed(
                                prefix,
                                dev_key@,
                                id,
                            ) {
                                None
                            } else {
                                o.notif_dut_temp_high_critic.spec_get(id)
                            }));
                        }
                        assert forall|id: u64|
                            #[trigger] nw.notif_dut_co2_high.spec_get(id) == (if spec_removed(
                                prefix1,
                                dev_key@,
                                id,
                            ) {
                                None
                            } else {
                                o.notif_dut_co2_high.spec_get(id)
                            }) by {
                            assert(bf.notif_dut_co2_high.spec_get(id) == (if spec_removed(
                                prefix,
                                dev_key@,
                                id,
                            ) {
                                None
                            } else {
                                o.notif_dut_co2_high.spec_get(id)
                            }));
                        }
                        assert forall|id: u64|
                            #[trigger] nw.notif_dut_co2_high_endofday.spec_get(id) == (if
                            spec_removed(prefix1, dev_key@, id) {
                                None
                            } else {
                                o.notif_dut_co2_high_endofday.spec_get(id)
                            }) by {
                            assert(bf.notif_dut_co2_high_endofday.spec_get(id) == (if spec_removed(
                                prefix,
                                dev_key@,
                                id,
                            ) {
                                None
                            } else {
                                o.notif_dut_co2_high_endofday.spec_get(id)
                            }));
                        }
                    },
                    _ => {},
                }
                let ghost cur_dac = dev_info.notifs_dac;
                match (old(dev_info).notifs_dac, cur_dac) {
                    (Some(o), Some(nw)) => {
                        let bf = before.notifs_dac->Some_0;
                        assert forall|id: u64|
                            #[trigger] nw.notif_compressor_used_before_time.spec_get(id) == (if
                            spec_removed(prefix1, dev_key@, id) {
                                None
                            } else {
                                o.notif_compressor_used_before_time.spec_get(id)
                            }) by {
                            assert(bf.notif_compressor_used_before_time.spec_get(id) == (if
                            spec_removed(prefix, dev_key@, id) {
                                None
                            } else {
                                o.notif_compressor_used_before_time.spec_get(id)
                            }));
                        }
                        assert forall|id: u64|
                            #[trigger] nw.notif_compressor_used_after_time.spec_get(id) == (if
                            spec_removed(prefix1, dev_key@, id) {
                                None
                            } else {
                                o.notif_compressor_used_after_time.spec_get(id)
                            }) by {
                            assert(bf.notif_compressor_used_after_time.spec_get(id) == (if
                            spec_removed(prefix, dev_key@, id) {
                                None
                            } else {
                                o.notif_compressor_used_after_time.spec_get(id)
                            }));
                        }
                    },
                    _ => {},
                }
            } else {
                assert(*dev_info == before);
                assert forall|id: u64|
                    #[trigger] spec_removed(prefix1, dev_key@, id) == spec_removed(
                        prefix,
                        dev_key@,
                        id,
                    ) by {
                    lemma_removed_step(changed_notifs_list@, j as int, dev_key@, id);
                }
            }
            assert(spec_ids_removed(*old(dev_info), *dev_info, prefix1, dev_key@));
        }
        j = j + 1;
    }
    proof {
        assert(changed_notifs_list@.take(m as int) =~= changed_notifs_list@);
    }
}

/// A partial reconciliation: applies the change notices' removals to every
/// device they name, then merges the fetched rules of each changed id into
/// the devices they target, never clearing a device's rule maps outright.
pub fn parse_partial_notifs_update(
    registry: &mut DevsInfo,
    notifs_list: &Vec<NotifsCfgResponse_notif_item>,
    devs_schedule: &Vec<NotifsCfgResponse_sched_item>,
    changed_notifs_list: &Vec<NotifChangeNotice>,
)
    requires
        crate::global_vars::spec_registry_wf(old(registry)),
    ensures
        crate::global_vars::spec_registry_wf(final(registry)),
        final(registry).entries@.len() == old(registry).entries@.len(),
        forall|k: int|
            0 <= k < old(registry).entries@.len() ==> (#[trigger] final(registry).entries@[k]).0
                == old(registry).entries@[k].0,
        forall|k: int|
            0 <= k < old(registry).entries@.len() ==> spec_device_partially_updated(
                old(registry).entries@[k].1,
                (#[trigger] final(registry).entries@[k]).1,
                notifs_list@,
                devs_schedule@,
                changed_notifs_list@,
                old(registry).entries@[k].0@,
            ),
{
    let n = registry.entries.len();
    let mut k: usize = 0;
    while k < n
        invariant
            k <= n,
            n == registry.entries@.len(),
            n == old(registry).entries@.len(),
            forall|j: int|
                0 <= j < n ==> (#[trigger] registry.entries@[j]).0 == old(registry).entries@[j].0,
            forall|j: int|
                k <= j < n ==> #[trigger] registry.entries@[j] == old(registry).entries@[j],
            forall|j: int| 0 <= j < n ==> (#[trigger] registry.entries@[j]).1.wf(),
            spec_unique_keys_of(registry.entries@),
            forall|j: int|
                0 <= j < k ==> spec_device_partially_updated(
                    old(registry).entries@[j].1,
                    (#[trigger] registry.entries@[j]).1,
                    notifs_list@,
                    devs_schedule@,
                    changed_notifs_list@,
                    old(registry).entries@[j].0@,
                ),
        decreases n - k,
    {
        let pair = &mut registry.entries[k];
        let ghost startdev = pair.1;
        let ghost key0 = pair.0;

        let dev_key = pair.0.clone();
        apply_removal_notices(&mut pair.1, changed_notifs_list, &dev_key);
        let ghost mid1 = pair.1;

        let filtered = notifs_for_device(notifs_list, dev_key.as_str());
        let cfg = sched_for_device(devs_schedule, dev_key.as_str());
        let ghost cfg_snapshot = cfg;
        update_notifs_dut(&mut pair.1, Some(&filtered), cfg, true);
        let ghost mid2 = pair.1;
        update_notifs_dac(&mut pair.1, Some(&filtered), true);
        proof {
            assert(startdev == old(registry).entries@[k as int].1);
            assert(key0 == old(registry).entries@[k as int].0);
            assert(dev_key == key0);
            assert(spec_ids_removed(startdev, mid1, changed_notifs_list@, key0@));
            assert(spec_cfg_matches(
                cfg_snapshot,
                spec_sched_item_for_dev(devs_schedule@, key0@),
            ));
            assert(spec_dut_updated(
                mid1,
                mid2,
                spec_notifs_for_dev(notifs_list@, key0@),
                cfg_snapshot,
                true,
            ));
            assert(spec_dac_updated(
                mid2,
                pair.1,
                spec_notifs_for_dev(notifs_list@, key0@),
                true,
            ));
            assert(spec_device_partially_updated(
                old(registry).entries@[k as int].1,
                pair.1,
                notifs_list@,
                devs_schedule@,
                changed_notifs_list@,
                old(registry).entries@[k as int].0@,
            ));
        }
        k = k + 1;
    }
}


/// A rule id no item of the list yields stays absent from every kind's
/// parse, whatever the automation parameters.
proof fn lemma_parsed_absent_id(
    items: Seq<NotifRuleCfg>,
    cfg: Option<DutAutomationConfig>,
    id: u64,
)
    requires
        forall|k: int| 0 <= k < items.len() ==> (#[trigger] items[k]).notif_id != id,
    ensures
        crate::notifs_dut::spec_parsed_outofbounds(items, cfg, id) is None,
        crate::notifs_dut::spec_parsed_critic(items, cfg, id) is None,
        crate::notifs_dut::spec_parsed_co2_high(items, cfg, id) is None,
        crate::notifs_dut::spec_parsed_co2_endofday(items, cfg, id) is None,
        crate::notifs_dac::spec_parsed_before_hour(items, id) is None,
        crate::notifs_dac::spec_parsed_after_hour(items, id) is None,
    decreases items.len(),
{
    if items.len() > 0 {
        assert(items.last().notif_id != id);
        assert forall|k: int|
            0 <= k < items.drop_last().len() implies (#[trigger] items.drop_last()[k]).notif_id
            != id by {
            assert(items.drop_last()[k] == items[k]);
        }
        lemma_parsed_absent_id(items.drop_last(), cfg, id);
    }
}

/// A partial reconciliation leaves an untouched rule's state untouched: a
/// rule id the notices do not remove for the device and the fetched list
/// does not target keeps, in every kind, exactly the state it had before,
/// even while other rule ids of the same device are inserted or replaced.
pub proof fn lemma_partial_preserves_untouched_rule(
    olddev: crate::global_vars::DevInfo,
    newdev: crate::global_vars::DevInfo,
    notifs: Seq<NotifsCfgResponse_notif_item>,
    scheds: Seq<NotifsCfgResponse_sched_item>,
    changed: Seq<NotifChangeNotice>,
    dev: Seq<char>,
    id: u64,
)
    requires
        spec_device_partially_updated(olddev, newdev, notifs, scheds, changed, dev),
        !spec_removed(changed, dev, id),
        forall|k: int|
            0 <= k < spec_notifs_for_dev(notifs, dev).len() ==> (#[trigger] spec_notifs_for_dev(
                notifs,
                dev,
            )[k]).notif_id != id,
    ensures
        crate::notifs_dut::spec_old_outofbounds(newdev, id) == crate::notifs_dut::spec_old_outofbounds(olddev, id),
        crate::notifs_dut::spec_old_critic(newdev, id) == crate::notifs_dut::spec_old_critic(olddev, id),
        crate::notifs_dut::spec_old_co2_high(newdev, id) == crate::notifs_dut::spec_old_co2_high(olddev, id),
        crate::notifs_dut::spec_old_co2_endofday(newdev, id) == crate::notifs_dut::spec_old_co2_endofday(olddev, id),
        crate::notifs_dac::spec_old_before_hour(newdev, id) == crate::notifs_dac::spec_old_before_hour(olddev, id),
        crate::notifs_dac::spec_old_after_hour(newdev, id) == crate::notifs_dac::spec_old_after_hour(olddev, id),
{
    let items = spec_notifs_for_dev(notifs, dev);
    let (cfg, mid1, mid2) = choose|
        cfg: Option<DutAutomationConfig>,
        mid1: crate::global_vars::DevInfo,
        mid2: crate::global_vars::DevInfo,
    |
        #![all_triggers]
        {
            &&& spec_ids_removed(olddev, mid1, changed, dev)
            &&& spec_cfg_matches(cfg, spec_sched_item_for_dev(scheds, dev))
            &&& crate::notifs_dut::spec_dut_updated(mid1, mid2, items, cfg, true)
            &&& crate::notifs_dac::spec_dac_updated(mid2, newdev, items, true)
        };
    lemma_parsed_absent_id(items, cfg, id);
}

/// A full refresh clears a device the fetched rule list no longer
/// targets: both fast-path flags end up false and both rule states
/// absent.
pub proof fn lemma_full_refresh_clears_unlisted_device(
    olddev: crate::global_vars::DevInfo,
    newdev: crate::global_vars::DevInfo,
    notifs: Seq<NotifsCfgResponse_notif_item>,
    scheds: Seq<NotifsCfgResponse_sched_item>,
    dev: Seq<char>,
)
    requires
        spec_device_fully_updated(olddev, newdev, notifs, scheds, dev),
        spec_notifs_for_dev(notifs, dev).len() == 0,
    ensures
        !newdev.has_notifs_dut,
        newdev.notifs_dut is None,
        !newdev.has_notifs_dac,
        newdev.notifs_dac is None,
{
    let items = spec_notifs_for_dev(notifs, dev);
    let (cfg, mid) = choose|cfg: Option<DutAutomationConfig>, mid: crate::global_vars::DevInfo|
        #![all_triggers]
        {
            &&& spec_cfg_matches(cfg, spec_sched_item_for_dev(scheds, dev))
            &&& crate::notifs_dut::spec_dut_updated(olddev, mid, items, cfg, false)
            &&& crate::notifs_dac::spec_dac_updated(mid, newdev, items, false)
        };
    assert forall|k: int| 0 <= k < items.len() implies (#[trigger] items[k]).notif_id != 0 by {}
    lemma_parsed_absent_id(items, cfg, 0);
    assert(!crate::notifs_dut::spec_any_dut_rule(items, cfg)) by {
        assert forall|id: u64| #[trigger] crate::notifs_dut::spec_parsed_outofbounds(
            items,
            cfg,
            id,
        ) is None by {
            lemma_parsed_absent_id(items, cfg, id);
        }
        assert forall|id: u64| #[trigger] crate::notifs_dut::spec_parsed_critic(items, cfg, id)
            is None by {
            lemma_parsed_absent_id(items, cfg, id);
        }
        assert forall|id: u64| #[trigger] crate::notifs_dut::spec_parsed_co2_high(items, cfg, id)
            is None by {
            lemma_parsed_absent_id(items, cfg, id);
        }
        assert forall|id: u64| #[trigger] crate::notifs_dut::spec_parsed_co2_endofday(
            items,
            cfg,
            id,
        ) is None by {
            lemma_parsed_absent_id(items, cfg, id);
        }
    }
    assert(!crate::notifs_dac::spec_any_dac_rule(items)) by {
        assert forall|id: u64| #[trigger] crate::notifs_dac::spec_parsed_before_hour(items, id)
            is None by {
            lemma_parsed_absent_id(items, cfg, id);
        }
        assert forall|id: u64| #[trigger] crate::notifs_dac::spec_parsed_after_hour(items, id)
            is None by {
            lemma_parsed_absent_id(items, cfg, id);
        }
    }
}

} // verus!
