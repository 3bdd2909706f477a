//! Classification of inbound broker messages and the ingestion path: which
//! topic a message belongs to, what its payload parses to, and how one
//! device-scoped message updates the registry and runs the rules.

use vstd::prelude::*;

use crate::detection::Detection;
use crate::notifs_dac::spec_dac_pack_applied;
use crate::notifs_dut::spec_pack_applied;
use crate::telemetry::{DacTelemetry, DutTelemetry};
use crate::global_vars::{spec_registry_wf, DevInfo, DevLastMessage, DevsInfo};
use crate::jsonval::{json_as_array, json_as_string, json_as_u64, json_get, json_parse_str};
use crate::strmap::{lemma_str_get_witness, spec_str_get};

verus! {

/// Where an inbound message belongs: the configuration source's topics,
/// a device data topic, a device control topic, or nowhere.
#[derive(Clone, Copy, Debug, PartialEq, Eq, Structural)]
pub enum TopicClass {
    ApiServer,
    Data,
    Control,
    Ignore,
}

/// Whether `s` starts with the characters of `p`.
pub open spec fn spec_starts_with(s: Seq<char>, p: Seq<char>) -> bool {
    s.len() >= p.len() && s.take(p.len() as int) == p
}

/// Checks a prefix, character by character.
fn starts_with_lit(s: &str, p: &str) -> (r: bool)
    requires
        p@.len() <= 100,
    ensures
        r == spec_starts_with(s@, p@),
{
    let n = p.unicode_len();
    if s.unicode_len() < n {
        proof {
            assert(!spec_starts_with(s@, p@));
        }
        return false;
    }
    let mut i: usize = 0;
    while i < n
        invariant
            i <= n,
            n == p@.len(),
            s@.len() >= n,
            n <= 100,
            forall|j: int| 0 <= j < i ==> s@[j] == p@[j],
        decreases n - i,
    {
        let cs = s.get_char(i);
        let cp = p.get_char(i);
        if cs != cp {
            proof {
                if spec_starts_with(s@, p@) {
                    assert(s@.take(n as int)[i as int] == s@[i as int]);
                }
            }
            return false;
        }
        i = i + 1;
    }
    proof {
        assert(s@.take(n as int) =~= p@);
    }
    true
}

/// The topic after the relay prefix, when it carries one.
pub open spec fn spec_after_relay(topic: Seq<char>) -> Seq<char> {
    if spec_starts_with(topic, "iotrelay/"@) {
        topic.skip("iotrelay/"@.len() as int)
    } else {
        topic
    }
}

/// What class a topic falls in: `apiserver/...` messages go to the
/// configuration handler; after stripping an optional `iotrelay/` prefix,
/// `data/...` and `control/...` are device messages; all else is ignored.
pub open spec fn spec_classify_topic(topic: Seq<char>) -> TopicClass {
    if spec_starts_with(topic, "apiserver/"@) {
        TopicClass::ApiServer
    } else {
        let rest = spec_after_relay(topic);
        if spec_starts_with(rest, "data/"@) {
            TopicClass::Data
        } else if spec_starts_with(rest, "control/"@) {
            TopicClass::Control
        } else {
            TopicClass::Ignore
        }
    }
}

/// Classifies an inbound message's topic.
pub fn classify_topic(topic: &str) -> (r: TopicClass)
    ensures
        r == spec_classify_topic(topic@),
{
    proof {
        reveal_strlit("apiserver/");
        reveal_strlit("iotrelay/");
        reveal_strlit("data/");
        reveal_strlit("control/");
    }
    if starts_with_lit(topic, "apiserver/") {
        return TopicClass::ApiServer;
    }
    let rest: &str = if starts_with_lit(topic, "iotrelay/") {
        proof {
            vstd::string::is_ascii_spec_bytes(topic);
        }
        topic.substring_char(9, topic.unicode_len())
    } else {
        topic
    };
    proof {
        assert(rest@ =~= spec_after_relay(topic@));
    }
    if starts_with_lit(rest, "data/") {
        TopicClass::Data
    } else if starts_with_lit(rest, "control/") {
        TopicClass::Control
    } else {
        TopicClass::Ignore
    }
}

/// What parsing a device payload yields: the parsed JSON with the device
/// id it names; a silent ignore for text that is not even a JSON object;
/// or an error to be logged.
pub enum PayloadParse {
    Accepted(serde_json::Value, String),
    Ignore,
    Rejected(String),
}

/// Parses a device payload: text not starting with `{` is silently
/// ignored; invalid JSON or a missing `dev_id` field is rejected.
pub fn parse_payload_json(payload_str: &str) -> (r: PayloadParse)
    ensures
        (r is Ignore) == !spec_starts_with(payload_str@, "{"@),
        (r is Accepted) ==> spec_starts_with(payload_str@, "{"@),
{
    proof {
        reveal_strlit("{");
    }
    if !starts_with_lit(payload_str, "{") {
        return PayloadParse::Ignore;
    }
    let payload_json = match json_parse_str(payload_str) {
        Ok(v) => v,
        Err(e) => {
            return PayloadParse::Rejected(e);
        },
    };
    let dev_id = match json_get(&payload_json, "dev_id") {
        Some(v) => match json_as_string(v) {
            Some(s) => s,
            None => {
                return PayloadParse::Rejected("Invalid payload: no dev_id".to_owned());
            },
        },
        None => {
            return PayloadParse::Rejected("Invalid payload: no dev_id".to_owned());
        },
    };
    PayloadParse::Accepted(payload_json, dev_id)
}

/// Reads a configuration-change notice: the changed rule id and,
/// optionally, the devices removed from it. An empty removal list counts
/// as no removals, as the wire contract has it.
pub fn parse_notif_change(payload_json: &serde_json::Value) -> (r: Option<
    (u64, Option<Vec<String>>),
>)
    ensures
        match r {
            Some(p) => match p.1 {
                Some(removed) => removed@.len() > 0,
                None => true,
            },
            None => true,
        },
{
    let notif_id = match json_get(payload_json, "notif_id") {
        Some(v) => match json_as_u64(v) {
            Some(id) => id,
            None => {
                return None;
            },
        },
        None => {
            return None;
        },
    };
    let mut removed_dev_ids: Option<Vec<String>> = None;
    if let Some(list_v) = json_get(payload_json, "removed_dev_ids") {
        if let Some(list) = json_as_array(list_v) {
            let mut new_list: Vec<String> = Vec::new();
            let n = list.len();
            let mut i: usize = 0;
            while i < n
                invariant
                    i <= n,
                    n == list@.len(),
                decreases n - i,
            {
                if let Some(dev_id) = json_as_string(&list[i]) {
                    new_list.push(dev_id);
                }
                i = i + 1;
            }
            if new_list.len() > 0 {
                removed_dev_ids = Some(new_list);
            }
        }
    }
    Some((notif_id, removed_dev_ids))
}

/// Updates a device's bookkeeping for one inbound message: the last-seen
/// server timestamp always moves; a data-topic message also replaces the
/// last-telemetry snapshot with the raw payload.
pub fn atualizar_dev_info(
    dev_info: &mut DevInfo,
    payload_str: &String,
    is_telemetry: bool,
    now_millis: u64,
)
    ensures
        final(dev_info).last_timestamp == now_millis,
        final(dev_info).last_telemetry == (if is_telemetry {
            Some(DevLastMessage { telemetry: *payload_str, ts: now_millis })
        } else {
            old(dev_info).last_telemetry
        }),
        final(dev_info).has_notifs_dut == old(dev_info).has_notifs_dut,
        final(dev_info).notifs_dut == old(dev_info).notifs_dut,
        final(dev_info).has_notifs_dac == old(dev_info).has_notifs_dac,
        final(dev_info).notifs_dac == old(dev_info).notifs_dac,
{
    dev_info.last_timestamp = now_millis;
    if is_telemetry {
        dev_info.last_telemetry = Some(
            DevLastMessage { telemetry: payload_str.clone(), ts: now_millis },
        );
    }
}

/// How one payload moves the DUT side of a device: with the fast-path
/// flag set and the state present, the payload is decoded and its readings
/// applied, `outdets` being exactly the DUT detections; a decode failure
/// reports the error and changes nothing. An unmonitored side is neither
/// read nor changed and reports nothing.
pub open spec fn spec_dut_side_evaluated(
    olddev: DevInfo,
    newdev: DevInfo,
    err: Option<String>,
    dev_id: String,
    now: u64,
    outdets: Seq<Detection>,
) -> bool {
    if olddev.has_notifs_dut && (olddev.notifs_dut is Some) {
        match err {
            None => {
                &&& newdev.notifs_dut is Some
                &&& exists|readings: Seq<DutTelemetry>|
                    spec_pack_applied(
                        olddev.notifs_dut->Some_0,
                        newdev.notifs_dut->Some_0,
                        readings,
                        dev_id,
                        now,
                        outdets,
                    )
            },
            Some(_) => newdev.notifs_dut == olddev.notifs_dut && outdets.len() == 0,
        }
    } else {
        newdev.notifs_dut == olddev.notifs_dut && (err is None) && outdets.len() == 0
    }
}

/// How one payload moves the DAC side of a device; the mirror of
/// `spec_dut_side_evaluated`.
pub open spec fn spec_dac_side_evaluated(
    olddev: DevInfo,
    newdev: DevInfo,
    err: Option<String>,
    dev_id: String,
    now: u64,
    outdets: Seq<Detection>,
) -> bool {
    if olddev.has_notifs_dac && (olddev.notifs_dac is Some) {
        match err {
            None => {
                &&& newdev.notifs_dac is Some
                &&& exists|readings: Seq<DacTelemetry>|
                    spec_dac_pack_applied(
                        olddev.notifs_dac->Some_0,
                        newdev.notifs_dac->Some_0,
                        readings,
                        dev_id,
                        now,
                        outdets,
                    )
            },
            Some(_) => newdev.notifs_dac == olddev.notifs_dac && outdets.len() == 0,
        }
    } else {
        newdev.notifs_dac == olddev.notifs_dac && (err is None) && outdets.len() == 0
    }
}

/// Evaluates the DUT side of one device against one payload, when its
/// fast-path flag is set and its state is present.
fn run_dut_side(
    payload_json: &serde_json::Value,
    temperature_centi: Option<Vec<Option<i64>>>,
    dev_id: &String,
    dev_info: &mut DevInfo,
    now_monotonic: u64,
    dets: &mut Vec<Detection>,
) -> (err: Option<String>)
    requires
        old(dev_info).wf(),
    ensures
        final(dev_info).wf(),
        old(dets)@.len() <= final(dets)@.len(),
        final(dets)@.take(old(dets)@.len() as int) == old(dets)@,
        final(dev_info).last_timestamp == old(dev_info).last_timestamp,
        final(dev_info).last_telemetry == old(dev_info).last_telemetry,
        final(dev_info).has_notifs_dut == old(dev_info).has_notifs_dut,
        final(dev_info).has_notifs_dac == old(dev_info).has_notifs_dac,
        final(dev_info).notifs_dac == old(dev_info).notifs_dac,
        spec_dut_side_evaluated(
            *old(dev_info),
            *final(dev_info),
            err,
            *dev_id,
            now_monotonic,
            final(dets)@.skip(old(dets)@.len() as int),
        ),
{
    if dev_info.has_notifs_dut {
        if let Some(notifs_dut) = &mut dev_info.notifs_dut {
            match crate::notifs_dut::on_dut_telemetry(
                payload_json,
                temperature_centi,
                notifs_dut,
                dev_id,
                now_monotonic,
                dets,
            ) {
                Ok(_) => {
                    return None;
                },
                Err(e) => {
                    proof {
                        assert(final(dets)@.skip(old(dets)@.len() as int) =~= Seq::<
                            Detection,
                        >::empty());
                    }
                    return Some(e);
                },
            }
        }
    }
    proof {
        assert(final(dets)@.skip(old(dets)@.len() as int) =~= Seq::<Detection>::empty());
    }
    None
}

/// Evaluates the DAC side of one device against one payload, when its
/// fast-path flag is set and its state is present.
fn run_dac_side(
    payload_json: &serde_json::Value,
    dev_id: &String,
    dev_info: &mut DevInfo,
    now_monotonic: u64,
    dets: &mut Vec<Detection>,
) -> (err: Option<String>)
    requires
        old(dev_info).wf(),
    ensures
        final(dev_info).wf(),
        old(dets)@.len() <= final(dets)@.len(),
        final(dets)@.take(old(dets)@.len() as int) == old(dets)@,
        final(dev_info).last_timestamp == old(dev_info).last_timestamp,
        final(dev_info).last_telemetry == old(dev_info).last_telemetry,
        final(dev_info).has_notifs_dut == old(dev_info).has_notifs_dut,
        final(dev_info).has_notifs_dac == old(dev_info).has_notifs_dac,
        final(dev_info).notifs_dut == old(dev_info).notifs_dut,
        spec_dac_side_evaluated(
            *old(dev_info),
            *final(dev_info),
            err,
            *dev_id,
            now_monotonic,
            final(dets)@.skip(old(dets)@.len() as int),
        ),
{
    if dev_info.has_notifs_dac {
        if let Some(notifs_dac) = &mut dev_info.notifs_dac {
            match crate::notifs_dac::on_dac_telemetry(
                payload_json,
                notifs_dac,
                dev_id,
                now_monotonic,
                dets,
            ) {
                Ok(_) => {
                    return None;
                },
                Err(e) => {
                    proof {
                        assert(final(dets)@.skip(old(dets)@.len() as int) =~= Seq::<
                            Detection,
                        >::empty());
                    }
                    return Some(e);
                },
            }
        }
    }
    proof {
        assert(final(dets)@.skip(old(dets)@.len() as int) =~= Seq::<Detection>::empty());
    }
    None
}

/// Runs the notification rules of one device against one telemetry
/// payload: each kind is evaluated exactly when its fast-path flag is set
/// and its state is present, the DUT side first; the appended detections
/// are the DUT side's followed by the DAC side's. A decode failure on
/// either side leaves that side's state untouched and reports the error.
pub fn on_device_telemetry(
    payload_json: &serde_json::Value,
    temperature_centi: Option<Vec<Option<i64>>>,
    dev_id: &String,
    dev_info: &mut DevInfo,
    now_monotonic: u64,
    dets: &mut Vec<Detection>,
) -> (r: (Option<String>, Option<String>))
    requires
        old(dev_info).wf(),
    ensures
        final(dev_info).wf(),
        old(dets)@.len() <= final(dets)@.len(),
        final(dets)@.take(old(dets)@.len() as int) == old(dets)@,
        final(dev_info).last_timestamp == old(dev_info).last_timestamp,
        final(dev_info).last_telemetry == old(dev_info).last_telemetry,
        final(dev_info).has_notifs_dut == old(dev_info).has_notifs_dut,
        final(dev_info).has_notifs_dac == old(dev_info).has_notifs_dac,
        exists|cut: int|
            #![all_triggers]
            {
                &&& 0 <= cut <= final(dets)@.len() - old(dets)@.len()
                &&& spec_dut_side_evaluated(
                    *old(dev_info),
                    *final(dev_info),
                    r.0,
                    *dev_id,
                    now_monotonic,
                    final(dets)@.skip(old(dets)@.len() as int).take(cut),
                )
                &&& spec_dac_side_evaluated(
                    *old(dev_info),
                    *final(dev_info),
                    r.1,
                    *dev_id,
                    now_monotonic,
                    final(dets)@.skip(old(dets)@.len() as int).skip(cut),
                )
            },
{
    let ghost dev0 = *dev_info;
    let ghost dets0 = dets@;
    let dut_err = run_dut_side(
        payload_json,
        temperature_centi,
        dev_id,
        dev_info,
        now_monotonic,
        dets,
    );
    let ghost dev_mid = *dev_info;
    let ghost dets_mid = dets@;
    let dac_err = run_dac_side(payload_json, dev_id, dev_info, now_monotonic, dets);
    proof {
        let cut = dets_mid.len() - dets0.len();
        let newdets = dets@.skip(dets0.len() as int);
        assert(dets@.take(dets0.len() as int) =~= dets_mid.take(dets0.len() as int));
        assert(newdets.take(cut as int) =~= dets_mid.skip(dets0.len() as int));
        assert(newdets.skip(cut as int) =~= dets@.skip(dets_mid.len() as int));
        assert(dev_info.notifs_dut == dev_mid.notifs_dut);
        assert(dev_mid.notifs_dac == dev0.notifs_dac);
        assert(spec_dut_side_evaluated(
            dev0,
            *dev_info,
            dut_err,
            *dev_id,
            now_monotonic,
            newdets.take(cut as int),
        ));
        assert(spec_dac_side_evaluated(
            dev0,
            *dev_info,
            dac_err,
            *dev_id,
            now_monotonic,
            newdets.skip(cut as int),
        ));
    }
    (dut_err, dac_err)
}

/// Ingests one device-scoped message: the device is created on first
/// contact, its last-seen bookkeeping updated (a data topic also replaces
/// the last-telemetry snapshot), and its notification rules evaluated.
/// Other devices are untouched; decode errors are reported for logging.
pub fn ingest_device_message(
    registry: &mut DevsInfo,
    dev_id: &String,
    payload_str: &String,
    payload_json: &serde_json::Value,
    temperature_centi: Option<Vec<Option<i64>>>,
    is_data: bool,
    now_millis: u64,
    now_monotonic: u64,
    dets: &mut Vec<Detection>,
) -> (r: (Option<String>, Option<String>))
    requires
        spec_registry_wf(old(registry)),
    ensures
        spec_registry_wf(final(registry)),
        old(dets)@.len() <= final(dets)@.len(),
        final(dets)@.take(old(dets)@.len() as int) == old(dets)@,
        final(registry).spec_contains(dev_id@),
        old(registry).spec_contains(dev_id@) ==> final(registry).entries@.len() == old(
            registry,
        ).entries@.len(),
        !old(registry).spec_contains(dev_id@) ==> final(registry).entries@.len() == old(
            registry,
        ).entries@.len() + 1,
        forall|j: Seq<char>|
            j != dev_id@ ==> #[trigger] final(registry).spec_get(j) == old(registry).spec_get(j),
        ({
            let olddev = match old(registry).spec_get(dev_id@) {
                Some(d) => d,
                None => (DevInfo {
                    last_timestamp: now_millis,
                    last_telemetry: None,
                    has_notifs_dut: false,
                    notifs_dut: None,
                    has_notifs_dac: false,
                    notifs_dac: None,
                }),
            };
            let middev = DevInfo {
                last_timestamp: now_millis,
                last_telemetry: if is_data {
                    Some(DevLastMessage { telemetry: *payload_str, ts: now_millis })
                } else {
                    olddev.last_telemetry
                },
                ..olddev
            };
            let newdev = final(registry).spec_get(dev_id@)->Some_0;
            let newdets = final(dets)@.skip(old(dets)@.len() as int);
            &&& newdev.last_timestamp == middev.last_timestamp
            &&& newdev.last_telemetry == middev.last_telemetry
            &&& newdev.has_notifs_dut == middev.has_notifs_dut
            &&& newdev.has_notifs_dac == middev.has_notifs_dac
            &&& exists|cut: int|
                #![all_triggers]
                {
                    &&& 0 <= cut <= newdets.len()
                    &&& spec_dut_side_evaluated(
                        middev,
                        newdev,
                        r.0,
                        *dev_id,
                        now_monotonic,
                        newdets.take(cut),
                    )
                    &&& spec_dac_side_evaluated(
                        middev,
                        newdev,
                        r.1,
                        *dev_id,
                        now_monotonic,
                        newdets.skip(cut),
                    )
                }
        }),
{
    let idx = match registry.index_of(dev_id.as_str()) {
        Some(i) => i,
        None => {
            let new_dev = DevInfo::new(now_millis);
            registry.push_new(dev_id.clone(), new_dev);
            let i = registry.entries.len() - 1;
            proof {
                lemma_str_get_witness(registry.entries@, i as int);
            }
            i
        },
    };
    let ghost keys0 = registry.entries@;
    proof {
        assert forall|k: int| 0 <= k < keys0.len() implies (#[trigger] keys0[k]).1.wf() by {
            if old(registry).spec_contains(dev_id@) {
            } else {
                if k < keys0.len() - 1 {
                    assert(keys0[k] == old(registry).entries@[k]);
                }
            }
        }
        assert(keys0[idx as int].0@ == dev_id@);
        assert(keys0[idx as int].1.wf());
    }
    let pair = &mut registry.entries[idx];
    atualizar_dev_info(&mut pair.1, payload_str, is_data, now_millis);
    let ghost middev_got = pair.1;
    let r = on_device_telemetry(
        payload_json,
        temperature_centi,
        dev_id,
        &mut pair.1,
        now_monotonic,
        dets,
    );
    proof {
        let newe = registry.entries@;
        assert(newe.len() == keys0.len());
        assert forall|k: int| 0 <= k < newe.len() implies (#[trigger] newe[k]).0 == keys0[k].0 by {}
        assert forall|a: int, b: int| 0 <= a < b < newe.len() implies (#[trigger] newe[a]).0@ != (
        #[trigger] newe[b]).0@ by {
            assert(newe[a].0 == keys0[a].0);
            assert(newe[b].0 == keys0[b].0);
        }
        lemma_str_get_witness(newe, idx as int);
        assert forall|k: int| 0 <= k < newe.len() implies (#[trigger] newe[k]).1.wf() by {
            if k != idx {
                assert(newe[k] == keys0[k]);
            }
        }
        assert forall|j: Seq<char>|
            j != dev_id@ implies #[trigger] spec_str_get(newe, j) == spec_str_get(keys0, j) by {
            crate::strmap::lemma_str_same_keys_same_get(keys0, newe, idx as int, j);
        }
        if old(registry).spec_contains(dev_id@) {
        } else {
            assert forall|j: Seq<char>|
                j != dev_id@ implies #[trigger] spec_str_get(keys0, j) == old(registry).spec_get(
                    j,
                ) by {}
        }
        let olddev = match old(registry).spec_get(dev_id@) {
            Some(d) => d,
            None => (DevInfo {
                last_timestamp: now_millis,
                last_telemetry: None,
                has_notifs_dut: false,
                notifs_dut: None,
                has_notifs_dac: false,
                notifs_dac: None,
            }),
        };
        if old(registry).spec_contains(dev_id@) {
            assert(keys0[idx as int].1 == olddev);
        } else {
            lemma_str_get_witness(keys0, idx as int);
            assert(keys0[idx as int].1 == DevInfo {
                last_timestamp: now_millis,
                last_telemetry: None,
                has_notifs_dut: false,
                notifs_dut: None,
                has_notifs_dac: false,
                notifs_dac: None,
            });
        }
        let middev = DevInfo {
            last_timestamp: now_millis,
            last_telemetry: if is_data {
                Some(DevLastMessage { telemetry: *payload_str, ts: now_millis })
            } else {
                olddev.last_telemetry
            },
            ..olddev
        };
        assert(middev_got == middev);
        assert(final(registry).spec_get(dev_id@)->Some_0 == pair.1);
    }
    r
}

} // verus!
