use realtime_notifs::global_vars::{DevInfo, DevsInfo};
use realtime_notifs::notifs_cfg::{
    parse_complete_notifs_update, parse_partial_notifs_update, CondPars,
    NotifsCfgResponse_notif_item, NotifsCfgResponse_sched_item,
};
use realtime_notifs::schedule::DayProgInput;
use realtime_notifs::strmap::StrMap;

fn co2_item(notif_id: u64, dev: &str) -> NotifsCfgResponse_notif_item {
    NotifsCfgResponse_notif_item {
        notif_id,
        cond_id: "DUT_CO2 >".to_string(),
        cond_pars: CondPars {
            time_limit: None,
            offset_over_t_max: None,
            duration_in_minutes: None,
        },
        dev_ids: vec![dev.to_string()],
    }
}

fn comp_item(notif_id: u64, dev: &str, limit: &str) -> NotifsCfgResponse_notif_item {
    NotifsCfgResponse_notif_item {
        notif_id,
        cond_id: "COMP_TIME <".to_string(),
        cond_pars: CondPars {
            time_limit: Some(limit.to_string()),
            offset_over_t_max: None,
            duration_in_minutes: None,
        },
        dev_ids: vec![dev.to_string()],
    }
}

fn sched_item(dev: &str, co2max: Option<i64>) -> NotifsCfgResponse_sched_item {
    NotifsCfgResponse_sched_item {
        dev_ids: vec![dev.to_string()],
        tusemax: Some(2800),
        tusemin: Some(1800),
        co2max,
        schedule: vec![DayProgInput {
            day: "mon".to_string(),
            permission: "allow".to_string(),
            start: "08:00".to_string(),
            end: "17:59".to_string(),
        }],
    }
}

fn registry_with(dev: &str) -> DevsInfo {
    let mut reg: DevsInfo = StrMap::new();
    reg.push_new(dev.to_string(), DevInfo::new(1000));
    reg
}

#[test]
fn full_refresh_installs_rules_for_targeted_device() {
    let mut reg = registry_with("D1");
    let notifs = vec![co2_item(7, "D1"), comp_item(5, "D1", "08:00")];
    let scheds = vec![sched_item("D1", Some(80000))];
    parse_complete_notifs_update(&mut reg, &notifs, &scheds);
    let dev = &reg.entries[0].1;
    assert!(dev.has_notifs_dut);
    assert!(dev.has_notifs_dac);
    let dut = dev.notifs_dut.as_ref().unwrap();
    let rule = dut.notif_dut_co2_high.get(7).unwrap();
    assert_eq!(rule.co2max, 80000);
    assert_eq!(rule.acc_t, 0);
    let dac = dev.notifs_dac.as_ref().unwrap();
    assert!(dac.notif_compressor_used_before_time.get(5).is_some());
}

#[test]
fn full_refresh_skips_rule_without_required_bound() {
    let mut reg = registry_with("D1");
    let notifs = vec![co2_item(7, "D1")];
    // The schedule record carries no CO2MAX: the CO2 rule cannot be built.
    let scheds = vec![sched_item("D1", None)];
    parse_complete_notifs_update(&mut reg, &notifs, &scheds);
    let dev = &reg.entries[0].1;
    assert!(!dev.has_notifs_dut);
    assert!(dev.notifs_dut.is_none());
}

#[test]
fn partial_update_preserves_untouched_rule_state() {
    let mut reg = registry_with("D1");
    let notifs = vec![co2_item(7, "D1")];
    let scheds = vec![sched_item("D1", Some(80000))];
    parse_complete_notifs_update(&mut reg, &notifs, &scheds);
    // Accumulate some runtime state on rule 7.
    {
        let dut = reg.entries[0].1.notifs_dut.as_mut().unwrap();
        let (id, mut r) = dut.notif_dut_co2_high.entries[0];
        r.acc_t = 123;
        r.last_notif_sent = Some(99);
        dut.notif_dut_co2_high.entries[0] = (id, r);
    }
    // A partial update inserts rule 5 for the same device.
    let update = vec![co2_item(5, "D1")];
    parse_partial_notifs_update(&mut reg, &update, &scheds, &vec![(5, None)]);
    let dut = reg.entries[0].1.notifs_dut.as_ref().unwrap();
    let r7 = dut.notif_dut_co2_high.get(7).unwrap();
    assert_eq!(r7.acc_t, 123);
    assert_eq!(r7.last_notif_sent, Some(99));
    let r5 = dut.notif_dut_co2_high.get(5).unwrap();
    assert_eq!(r5.acc_t, 0);
}

#[test]
fn full_refresh_clears_unlisted_device() {
    let mut reg = registry_with("D1");
    let notifs = vec![co2_item(7, "D1"), comp_item(5, "D1", "08:00")];
    let scheds = vec![sched_item("D1", Some(80000))];
    parse_complete_notifs_update(&mut reg, &notifs, &scheds);
    assert!(reg.entries[0].1.has_notifs_dut);
    // The next full refresh no longer mentions the device at all.
    parse_complete_notifs_update(&mut reg, &vec![], &vec![]);
    let dev = &reg.entries[0].1;
    assert!(!dev.has_notifs_dut);
    assert!(dev.notifs_dut.is_none());
    assert!(!dev.has_notifs_dac);
    assert!(dev.notifs_dac.is_none());
}

#[test]
fn partial_update_never_clears_flags() {
    let mut reg = registry_with("D1");
    let notifs = vec![co2_item(7, "D1")];
    let scheds = vec![sched_item("D1", Some(80000))];
    parse_complete_notifs_update(&mut reg, &notifs, &scheds);
    // A partial update that yields nothing for the device leaves it alone.
    parse_partial_notifs_update(&mut reg, &vec![], &scheds, &vec![(7, None)]);
    let dev = &reg.entries[0].1;
    assert!(dev.has_notifs_dut);
    assert!(dev.notifs_dut.as_ref().unwrap().notif_dut_co2_high.get(7).is_some());
}

#[test]
fn partial_update_removes_named_device_rules() {
    let mut reg = registry_with("D1");
    let notifs = vec![co2_item(7, "D1"), co2_item(8, "D1")];
    let scheds = vec![sched_item("D1", Some(80000))];
    parse_complete_notifs_update(&mut reg, &notifs, &scheds);
    // Rule 7 was removed from D1; rule 8 survives.
    parse_partial_notifs_update(
        &mut reg,
        &vec![],
        &scheds,
        &vec![(7, Some(vec!["D1".to_string()]))],
    );
    let dut = reg.entries[0].1.notifs_dut.as_ref().unwrap();
    assert!(dut.notif_dut_co2_high.get(7).is_none());
    assert!(dut.notif_dut_co2_high.get(8).is_some());
}

#[test]
fn untouched_devices_stay_untouched() {
    let mut reg = registry_with("D1");
    reg.push_new("D2".to_string(), DevInfo::new(2000));
    let notifs = vec![co2_item(7, "D1")];
    let scheds = vec![sched_item("D1", Some(80000))];
    parse_complete_notifs_update(&mut reg, &notifs, &scheds);
    assert!(reg.entries[0].1.has_notifs_dut);
    assert!(!reg.entries[1].1.has_notifs_dut);
    assert_eq!(reg.entries[1].1.last_timestamp, 2000);
}

#[test]
fn full_refresh_carries_runtime_state_forward() {
    let mut reg = registry_with("D1");
    let notifs = vec![co2_item(7, "D1")];
    let scheds = vec![sched_item("D1", Some(80000))];
    parse_complete_notifs_update(&mut reg, &notifs, &scheds);
    {
        let dut = reg.entries[0].1.notifs_dut.as_mut().unwrap();
        let (id, mut r) = dut.notif_dut_co2_high.entries[0];
        r.acc_t = 321;
        dut.notif_dut_co2_high.entries[0] = (id, r);
    }
    // The same rule comes back with a changed bound: the accumulator
    // survives, the parameter is replaced.
    let scheds2 = vec![sched_item("D1", Some(90000))];
    parse_complete_notifs_update(&mut reg, &notifs, &scheds2);
    let dut = reg.entries[0].1.notifs_dut.as_ref().unwrap();
    let r7 = dut.notif_dut_co2_high.get(7).unwrap();
    assert_eq!(r7.acc_t, 321);
    assert_eq!(r7.co2max, 90000);
}

#[test]
fn full_refresh_drops_rule_absent_from_list() {
    let mut reg = registry_with("D1");
    let notifs = vec![co2_item(7, "D1"), co2_item(8, "D1")];
    let scheds = vec![sched_item("D1", Some(80000))];
    parse_complete_notifs_update(&mut reg, &notifs, &scheds);
    // The next full refresh only lists rule 8.
    parse_complete_notifs_update(&mut reg, &vec![co2_item(8, "D1")], &scheds);
    let dut = reg.entries[0].1.notifs_dut.as_ref().unwrap();
    assert!(dut.notif_dut_co2_high.get(7).is_none());
    assert!(dut.notif_dut_co2_high.get(8).is_some());
}

#[test]
fn end_of_day_rule_parsed_under_its_own_code() {
    let mut reg = registry_with("D1");
    let mut item = co2_item(9, "D1");
    item.cond_id = "DUT_CO2 D>".to_string();
    let scheds = vec![sched_item("D1", Some(80000))];
    parse_complete_notifs_update(&mut reg, &vec![item], &scheds);
    let dut = reg.entries[0].1.notifs_dut.as_ref().unwrap();
    assert!(dut.notif_dut_co2_high.get(9).is_none());
    let rule = dut.notif_dut_co2_high_endofday.get(9).unwrap();
    assert_eq!(rule.co2max, 80000);
}

#[test]
fn critic_rule_parameters_from_cond_pars() {
    let mut reg = registry_with("D1");
    let item = NotifsCfgResponse_notif_item {
        notif_id: 11,
        cond_id: "DUT_T T>T".to_string(),
        cond_pars: CondPars {
            time_limit: None,
            // An offset of 1.50 degrees over TUSEMAX, 20 minutes duration.
            offset_over_t_max: Some(150),
            duration_in_minutes: Some(20),
        },
        dev_ids: vec!["D1".to_string()],
    };
    let scheds = vec![sched_item("D1", None)];
    parse_complete_notifs_update(&mut reg, &vec![item], &scheds);
    let dut = reg.entries[0].1.notifs_dut.as_ref().unwrap();
    let rule = dut.notif_dut_temp_high_critic.get(11).unwrap();
    // TUSEMAX 28.00 plus the offset.
    assert_eq!(rule.temperature_limit, 2950);
    assert_eq!(rule.duration_in_seconds, 1200);
}

#[test]
fn last_schedule_record_for_device_wins() {
    let mut reg = registry_with("D1");
    let notifs = vec![co2_item(7, "D1")];
    let scheds = vec![sched_item("D1", Some(70000)), sched_item("D1", Some(80000))];
    parse_complete_notifs_update(&mut reg, &notifs, &scheds);
    let dut = reg.entries[0].1.notifs_dut.as_ref().unwrap();
    assert_eq!(dut.notif_dut_co2_high.get(7).unwrap().co2max, 80000);
}
