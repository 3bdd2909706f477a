//! The DAC side of a device's notification state: the two compressor-hour
//! rule maps and the previous-sample cache, with the reconciliation that
//! rebuilds them from freshly fetched configuration.

use vstd::prelude::*;

use crate::dac_l1::{spec_l1_channel, LastDacL1, NotifCompressorUsedAfterHour, NotifCompressorUsedBeforeHour};
use crate::detection::Detection;
use crate::global_vars::DevInfo;
use crate::idmap::{lemma_assoc_get_witness, IdMap};
use crate::notifs_cfg::NotifRuleCfg;
use crate::strmap::str_eq;
use crate::telemetry::DacTelemetry;

verus! {

/// A device's DAC notification state: one map per rule kind and the
/// previous-sample cache.
#[derive(Debug)]
pub struct NotifsDac {
    pub notif_compressor_used_before_time: IdMap<NotifCompressorUsedBeforeHour>,
    pub notif_compressor_used_after_time: IdMap<NotifCompressorUsedAfterHour>,
    pub last_l1: Option<LastDacL1>,
}

impl NotifsDac {
    pub open spec fn wf(&self) -> bool {
        &&& self.notif_compressor_used_before_time.wf()
        &&& self.notif_compressor_used_after_time.wf()
    }

    /// Removes the rule with this id from both maps; a no-op for an id
    /// that neither holds.
    pub fn remove_notif_id(&mut self, notif_id: u64)
        requires
            old(self).wf(),
        ensures
            final(self).wf(),
            final(self).notif_compressor_used_before_time.spec_get(notif_id) is None,
            final(self).notif_compressor_used_after_time.spec_get(notif_id) is None,
            forall|j: u64|
                j != notif_id ==> #[trigger] final(self).notif_compressor_used_before_time.spec_get(
                    j,
                ) == old(self).notif_compressor_used_before_time.spec_get(j),
            forall|j: u64|
                j != notif_id ==> #[trigger] final(self).notif_compressor_used_after_time.spec_get(
                    j,
                ) == old(self).notif_compressor_used_after_time.spec_get(j),
            final(self).last_l1 == old(self).last_l1,
    {
        self.notif_compressor_used_before_time.remove(notif_id);
        self.notif_compressor_used_after_time.remove(notif_id);
    }
}

/// The before-hour rule a configuration list yields for rule id `id`: the
/// last list item with that id, condition `"COMP_TIME <"` and a successful
/// parse, as a fresh rule.
pub open spec fn spec_parsed_before_hour(
    items: Seq<NotifRuleCfg>,
    id: u64,
) -> Option<NotifCompressorUsedBeforeHour>
    decreases items.len(),
{
    if items.len() == 0 {
        None
    } else {
        let last = items.last();
        if last.cond_id@ == "COMP_TIME <"@ && last.notif_id == id && (
        NotifCompressorUsedBeforeHour::spec_from_notif_cfg(last) is Some) {
            NotifCompressorUsedBeforeHour::spec_from_notif_cfg(last)
        } else {
            spec_parsed_before_hour(items.drop_last(), id)
        }
    }
}

/// The after-hour rule a configuration list yields for rule id `id`
/// (condition `"COMP_TIME >"`).
pub open spec fn spec_parsed_after_hour(
    items: Seq<NotifRuleCfg>,
    id: u64,
) -> Option<NotifCompressorUsedAfterHour>
    decreases items.len(),
{
    if items.len() == 0 {
        None
    } else {
        let last = items.last();
        if last.cond_id@ == "COMP_TIME >"@ && last.notif_id == id && (
        NotifCompressorUsedAfterHour::spec_from_notif_cfg(last) is Some) {
            NotifCompressorUsedAfterHour::spec_from_notif_cfg(last)
        } else {
            spec_parsed_after_hour(items.drop_last(), id)
        }
    }
}

/// Whether a configuration list yields any DAC rule for this device.
pub open spec fn spec_any_dac_rule(items: Seq<NotifRuleCfg>) -> bool {
    ||| exists|id: u64| spec_parsed_before_hour(items, id) is Some
    ||| exists|id: u64| spec_parsed_after_hour(items, id) is Some
}

/// The two DAC condition codes are distinct strings.
proof fn lemma_dac_cond_strings_differ()
    ensures
        "COMP_TIME <"@ != "COMP_TIME >"@,
{
    reveal_strlit("COMP_TIME <");
    reveal_strlit("COMP_TIME >");
    assert("COMP_TIME <"@[10] == '<');
    assert("COMP_TIME >"@[10] == '>');
}

/// Builds the two fresh rule maps that a device's configuration items
/// yield, or `None` when no item yields a rule.
pub fn parse_dac_notifs_list(updated_dev_notifs: &Vec<NotifRuleCfg>) -> (r: Option<
    (IdMap<NotifCompressorUsedBeforeHour>, IdMap<NotifCompressorUsedAfterHour>),
>)
    ensures
        match r {
            Some(maps) => {
                &&& maps.0.wf() && maps.1.wf()
                &&& forall|id: u64|
                    #[trigger] maps.0.spec_get(id) == spec_parsed_before_hour(
                        updated_dev_notifs@,
                        id,
                    )
                &&& forall|id: u64|
                    #[trigger] maps.1.spec_get(id) == spec_parsed_after_hour(
                        updated_dev_notifs@,
                        id,
                    )
                &&& spec_any_dac_rule(updated_dev_notifs@)
            },
            None => !spec_any_dac_rule(updated_dev_notifs@),
        },
{
    let mut notif_compressor_used_before_time: IdMap<NotifCompressorUsedBeforeHour> = IdMap::new();
    let mut notif_compressor_used_after_time: IdMap<NotifCompressorUsedAfterHour> = IdMap::new();

    let n = updated_dev_notifs.len();
    let mut i: usize = 0;
    while i < n
        invariant
            i <= n,
            n == updated_dev_notifs@.len(),
            notif_compressor_used_before_time.wf(),
            notif_compressor_used_after_time.wf(),
            forall|id: u64|
                #[trigger] notif_compressor_used_before_time.spec_get(id)
                    == spec_parsed_before_hour(updated_dev_notifs@.take(i as int), id),
            forall|id: u64|
                #[trigger] notif_compressor_used_after_time.spec_get(id) == spec_parsed_after_hour(
                    updated_dev_notifs@.take(i as int),
                    id,
                ),
        decreases n - i,
    {
        proof {
            lemma_dac_cond_strings_differ();
            assert(updated_dev_notifs@.take(i + 1).drop_last() =~= updated_dev_notifs@.take(
                i as int,
            ));
            assert(updated_dev_notifs@.take(i + 1).last() == updated_dev_notifs@[i as int]);
        }
        let notif = &updated_dev_notifs[i];
        if str_eq(notif.cond_id.as_str(), "COMP_TIME <") {
            match NotifCompressorUsedBeforeHour::from_notif_cfg(notif) {
                Ok(parsed) => {
                    notif_compressor_used_before_time.insert(parsed.notif_id, parsed);
                },
                Err(_) => {},
            }
        } else if str_eq(notif.cond_id.as_str(), "COMP_TIME >") {
            match NotifCompressorUsedAfterHour::from_notif_cfg(notif) {
                Ok(parsed) => {
                    notif_compressor_used_after_time.insert(parsed.notif_id, parsed);
                },
                Err(_) => {},
            }
        }
        i = i + 1;
    }
    proof {
        assert(updated_dev_notifs@.take(n as int) =~= updated_dev_notifs@);
    }

    let is_empty = notif_compressor_used_before_time.is_empty()
        && notif_compressor_used_after_time.is_empty();

    if is_empty {
        proof {
            assert forall|id: u64| #[trigger] spec_parsed_before_hour(updated_dev_notifs@, id)
                is None by {
                assert(notif_compressor_used_before_time.spec_get(id) is None);
            }
            assert forall|id: u64| #[trigger] spec_parsed_after_hour(updated_dev_notifs@, id)
                is None by {
                assert(notif_compressor_used_after_time.spec_get(id) is None);
            }
        }
        return None;
    }
    proof {
        if notif_compressor_used_before_time.entries@.len() > 0 {
            lemma_assoc_get_witness(notif_compressor_used_before_time.entries@, 0);
            let id0 = notif_compressor_used_before_time.entries@[0].0;
            assert(notif_compressor_used_before_time.spec_get(id0) is Some);
            assert(spec_parsed_before_hour(updated_dev_notifs@, id0) is Some);
        } else {
            lemma_assoc_get_witness(notif_compressor_used_after_time.entries@, 0);
            let id0 = notif_compressor_used_after_time.entries@[0].0;
            assert(notif_compressor_used_after_time.spec_get(id0) is Some);
            assert(spec_parsed_after_hour(updated_dev_notifs@, id0) is Some);
        }
    }
    Some((notif_compressor_used_before_time, notif_compressor_used_after_time))
}

/// A device's prior before-hour rule for `id`, if it holds DAC state.
pub open spec fn spec_old_before_hour(dev: DevInfo, id: u64) -> Option<
    NotifCompressorUsedBeforeHour,
> {
    match dev.notifs_dac {
        Some(nd) => nd.notif_compressor_used_before_time.spec_get(id),
        None => None,
    }
}

/// A device's prior after-hour rule for `id`, if it holds DAC state.
pub open spec fn spec_old_after_hour(dev: DevInfo, id: u64) -> Option<
    NotifCompressorUsedAfterHour,
> {
    match dev.notifs_dac {
        Some(nd) => nd.notif_compressor_used_after_time.spec_get(id),
        None => None,
    }
}

/// A device's prior compressor-sample cache, if it holds DAC state.
pub open spec fn spec_old_last_l1(dev: DevInfo) -> Option<LastDacL1> {
    match dev.notifs_dac {
        Some(nd) => nd.last_l1,
        None => None,
    }
}

/// How a reconciliation changes the DAC side of one device; the DUT side
/// and the telemetry fields are untouched. The merge rules per id mirror
/// the DUT side's.
pub open spec fn spec_dac_updated(
    olddev: DevInfo,
    newdev: DevInfo,
    items: Seq<NotifRuleCfg>,
    partial: bool,
) -> bool {
    &&& newdev.last_timestamp == olddev.last_timestamp
    &&& newdev.last_telemetry == olddev.last_telemetry
    &&& newdev.has_notifs_dut == olddev.has_notifs_dut
    &&& newdev.notifs_dut == olddev.notifs_dut
    &&& if !spec_any_dac_rule(items) {
        if partial {
            newdev.has_notifs_dac == olddev.has_notifs_dac && newdev.notifs_dac == olddev.notifs_dac
        } else {
            newdev.has_notifs_dac == false && (newdev.notifs_dac is None)
        }
    } else {
        &&& newdev.has_notifs_dac == true
        &&& newdev.notifs_dac is Some
        &&& newdev.notifs_dac->Some_0.wf()
        &&& newdev.notifs_dac->Some_0.last_l1 == spec_old_last_l1(olddev)
        &&& forall|id: u64|
            #[trigger] newdev.notifs_dac->Some_0.notif_compressor_used_before_time.spec_get(id)
                == match spec_parsed_before_hour(items, id) {
                Some(n) => Some(
                    NotifCompressorUsedBeforeHour::spec_carry(n, spec_old_before_hour(olddev, id)),
                ),
                None => if partial {
                    spec_old_before_hour(olddev, id)
                } else {
                    None
                },
            }
        &&& forall|id: u64|
            #[trigger] newdev.notifs_dac->Some_0.notif_compressor_used_after_time.spec_get(id)
                == match spec_parsed_after_hour(items, id) {
                Some(n) => Some(
                    NotifCompressorUsedAfterHour::spec_carry(n, spec_old_after_hour(olddev, id)),
                ),
                None => if partial {
                    spec_old_after_hour(olddev, id)
                } else {
                    None
                },
            }
    }
}

/// Reconciles the DAC side of one device against the configuration items
/// that target it.
pub fn update_notifs_dac(
    dev_info: &mut DevInfo,
    updated_dev_notifs: Option<&Vec<NotifRuleCfg>>,
    partial_update: bool,
)
    requires
        old(dev_info).wf(),
    ensures
        final(dev_info).wf(),
        spec_dac_updated(
            *old(dev_info),
            *final(dev_info),
            crate::notifs_dut::spec_items_view(updated_dev_notifs),
            partial_update,
        ),
{
    let parsed = match updated_dev_notifs {
        Some(items) => parse_dac_notifs_list(items),
        None => None,
    };
    match parsed {
        None => {
            if !partial_update {
                dev_info.has_notifs_dac = false;
                dev_info.notifs_dac = None;
            }
        },
        Some(maps) => {
            let (mut before, mut after) = maps;
            match &mut dev_info.notifs_dac {
                Some(existing) => {
                    NotifCompressorUsedBeforeHour::update_new_notifs_parameters(
                        &existing.notif_compressor_used_before_time,
                        &mut before,
                    );
                    NotifCompressorUsedAfterHour::update_new_notifs_parameters(
                        &existing.notif_compressor_used_after_time,
                        &mut after,
                    );
                    if partial_update {
                        existing.notif_compressor_used_before_time.merge_from(&before);
                        existing.notif_compressor_used_after_time.merge_from(&after);
                    } else {
                        existing.notif_compressor_used_before_time = before;
                        existing.notif_compressor_used_after_time = after;
                    }
                },
                None => {
                    dev_info.notifs_dac = Some(
                        NotifsDac {
                            notif_compressor_used_before_time: before,
                            notif_compressor_used_after_time: after,
                            last_l1: None,
                        },
                    );
                },
            }
            dev_info.has_notifs_dac = true;
        },
    }
}


/// How a decoded pack moves a device's DAC state: its readings apply in
/// order, oldest first, `outdets` concatenating their detections.
pub open spec fn spec_dac_pack_applied(
    nd0: NotifsDac,
    nd1: NotifsDac,
    readings: Seq<DacTelemetry>,
    dev_id: String,
    now: u64,
    outdets: Seq<Detection>,
) -> bool
    decreases readings.len(),
{
    if readings.len() == 0 {
        nd1 == nd0 && outdets.len() == 0
    } else {
        exists|mid: NotifsDac, cut: int|
            #![all_triggers]
            {
                &&& 0 <= cut <= outdets.len()
                &&& spec_dac_pack_applied(
                    nd0,
                    mid,
                    readings.drop_last(),
                    dev_id,
                    now,
                    outdets.take(cut),
                )
                &&& spec_l1_channel(mid, nd1, readings.last(), dev_id, now, outdets.skip(cut))
            }
    }
}

/// Applies a decoded pack's readings, oldest first, to a device's DAC
/// state.
pub fn on_dac_readings(
    dev_alerts: &mut NotifsDac,
    telemetry_list: &Vec<DacTelemetry>,
    dev_id: &String,
    now_monotonic: u64,
    dets: &mut Vec<Detection>,
)
    requires
        old(dev_alerts).wf(),
    ensures
        final(dev_alerts).wf(),
        old(dets)@.len() <= final(dets)@.len(),
        final(dets)@.take(old(dets)@.len() as int) == old(dets)@,
        spec_dac_pack_applied(
            *old(dev_alerts),
            *final(dev_alerts),
            telemetry_list@,
            *dev_id,
            now_monotonic,
            final(dets)@.skip(old(dets)@.len() as int),
        ),
{
    let ghost base = dets@;
    let n = telemetry_list.len();
    let mut i: usize = 0;
    proof {
        assert(telemetry_list@.take(0) =~= Seq::<DacTelemetry>::empty());
        assert(dets@.skip(base.len() as int) =~= Seq::<Detection>::empty());
    }
    while i < n
        invariant
            i <= n,
            n == telemetry_list@.len(),
            dev_alerts.wf(),
            old(dev_alerts).wf(),
            base.len() <= dets@.len(),
            dets@.take(base.len() as int) == base,
            spec_dac_pack_applied(
                *old(dev_alerts),
                *dev_alerts,
                telemetry_list@.take(i as int),
                *dev_id,
                now_monotonic,
                dets@.skip(base.len() as int),
            ),
        decreases n - i,
    {
        let ghost prev_nd = *dev_alerts;
        let ghost prev_dets = dets@;
        let telemetry = &telemetry_list[i];
        crate::dac_l1::on_dac_telemetry(telemetry, dev_alerts, dev_id, now_monotonic, dets);
        proof {
            let all = dets@.skip(base.len() as int);
            let cut = prev_dets.len() - base.len();
            assert(all.take(cut as int) =~= prev_dets.skip(base.len() as int));
            assert(all.skip(cut as int) =~= dets@.skip(prev_dets.len() as int));
            assert(telemetry_list@.take(i + 1).drop_last() =~= telemetry_list@.take(i as int));
            assert(telemetry_list@.take(i + 1).last() == telemetry_list@[i as int]);
            assert(spec_l1_channel(
                prev_nd,
                *dev_alerts,
                telemetry_list@[i as int],
                *dev_id,
                now_monotonic,
                all.skip(cut as int),
            ));
            assert(spec_dac_pack_applied(
                *old(dev_alerts),
                *dev_alerts,
                telemetry_list@.take(i + 1),
                *dev_id,
                now_monotonic,
                all,
            ));
            assert(dets@.take(base.len() as int) =~= base);
        }
        i = i + 1;
    }
    proof {
        assert(telemetry_list@.take(n as int) =~= telemetry_list@);
    }
}

/// Decodes a DAC payload and applies its readings to a device's DAC state.
/// A payload that does not decode changes nothing and emits nothing.
pub fn on_dac_telemetry(
    payload_json: &serde_json::Value,
    dev_alerts: &mut NotifsDac,
    dev_id: &String,
    now_monotonic: u64,
    dets: &mut Vec<Detection>,
) -> (r: Result<(), String>)
    requires
        old(dev_alerts).wf(),
    ensures
        final(dev_alerts).wf(),
        old(dets)@.len() <= final(dets)@.len(),
        final(dets)@.take(old(dets)@.len() as int) == old(dets)@,
        match r {
            Ok(_) => exists|readings: Seq<DacTelemetry>|
                spec_dac_pack_applied(
                    *old(dev_alerts),
                    *final(dev_alerts),
                    readings,
                    *dev_id,
                    now_monotonic,
                    final(dets)@.skip(old(dets)@.len() as int),
                ),
            Err(_) => *final(dev_alerts) == *old(dev_alerts) && final(dets)@ == old(dets)@,
        },
{
    let telemetry_list = match DacTelemetry::parse_from_json_as_vec(payload_json) {
        Ok(x) => x,
        Err(e) => {
            return Err(e);
        },
    };
    on_dac_readings(dev_alerts, &telemetry_list, dev_id, now_monotonic, dets);
    proof {
        assert(spec_dac_pack_applied(
            *old(dev_alerts),
            *dev_alerts,
            telemetry_list@,
            *dev_id,
            now_monotonic,
            dets@.skip(old(dets)@.len() as int),
        ));
    }
    Ok(())
}

} // verus!
