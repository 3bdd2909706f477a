use realtime_notifs::detection::DetectionKind;
use realtime_notifs::global_vars::{DevInfo, DevsInfo};
use realtime_notifs::notifs_cfg::{
    parse_complete_notifs_update, CondPars, NotifsCfgResponse_notif_item,
    NotifsCfgResponse_sched_item,
};
use realtime_notifs::on_mqtt_message::{
    classify_topic, ingest_device_message, parse_notif_change, parse_payload_json, PayloadParse,
    TopicClass,
};
use realtime_notifs::schedule::DayProgInput;
use realtime_notifs::strmap::StrMap;

fn dut_co2_rule(notif_id: u64, dev: &str) -> NotifsCfgResponse_notif_item {
    NotifsCfgResponse_notif_item {
        notif_id,
        cond_id: "DUT_CO2 >".to_string(),
        cond_pars: CondPars {
            time_limit: None,
            offset_over_t_max: None,
            duration_in_minutes: None,
        },
        dev_ids: vec![dev.to_string()],
    }
}

fn weekday_sched(dev: &str, co2max: i64) -> NotifsCfgResponse_sched_item {
    let mut by_day = Vec::new();
    for day in ["mon", "tue", "wed", "thu", "fri"] {
        by_day.push(DayProgInput {
            day: day.to_string(),
            permission: "allow".to_string(),
            start: "08:00".to_string(),
            end: "17:59".to_string(),
        });
    }
    NotifsCfgResponse_sched_item {
        dev_ids: vec![dev.to_string()],
        tusemax: None,
        tusemin: None,
        co2max: Some(co2max),
        schedule: by_day,
    }
}

fn ingest(
    reg: &mut DevsInfo,
    dev: &str,
    payload: &str,
    now_millis: u64,
    now_mono: u64,
) -> Vec<realtime_notifs::detection::Detection> {
    let payload_json: serde_json::Value = serde_json::from_str(payload).unwrap();
    let mut dets = Vec::new();
    let (dut_err, dac_err) = ingest_device_message(
        reg,
        &dev.to_string(),
        &payload.to_string(),
        &payload_json,
        None,
        true,
        now_millis,
        now_mono,
        &mut dets,
    );
    assert!(dut_err.is_none());
    assert!(dac_err.is_none());
    dets
}

#[test]
fn schedule_gates_accumulation_end_to_end() {
    // DEV1 has one CO2 rule (bound 500 ppm) and a weekday 08:00-18:00
    // schedule. 2024-01-01 is a Monday.
    let mut reg: DevsInfo = StrMap::new();
    // The device exists after its first message.
    ingest(&mut reg, "DEV1", "{\"dev_id\":\"DEV1\"}", 1, 1);
    let notifs = vec![dut_co2_rule(1, "DEV1")];
    let scheds = vec![weekday_sched("DEV1", 50000)];
    parse_complete_notifs_update(&mut reg, &notifs, &scheds);

    // At 07:00, outside the schedule: no accumulator may advance.
    ingest(
        &mut reg,
        "DEV1",
        "{\"dev_id\":\"DEV1\",\"timestamp\":\"2024-01-01T07:00:00\",\"samplingTime\":5,\"eCO2\":[900,900]}",
        10,
        10,
    );
    {
        let dut = reg.entries[0].1.notifs_dut.as_ref().unwrap();
        assert_eq!(dut.notif_dut_co2_high.get(1).unwrap().acc_t, 0);
        assert!(dut.last_co2.is_none());
    }

    // The same payload at 09:00 begins accumulating.
    ingest(
        &mut reg,
        "DEV1",
        "{\"dev_id\":\"DEV1\",\"timestamp\":\"2024-01-01T09:00:00\",\"samplingTime\":5,\"eCO2\":[900,900]}",
        20,
        20,
    );
    {
        let dut = reg.entries[0].1.notifs_dut.as_ref().unwrap();
        // The first reading has no previous sample; the second adds 5 s.
        assert_eq!(dut.notif_dut_co2_high.get(1).unwrap().acc_t, 5);
        assert!(dut.last_co2.is_some());
    }
}

#[test]
fn engine_fires_detection_end_to_end() {
    let mut reg: DevsInfo = StrMap::new();
    ingest(&mut reg, "DEV1", "{\"dev_id\":\"DEV1\"}", 1, 1);
    let notifs = vec![dut_co2_rule(1, "DEV1")];
    let scheds = vec![weekday_sched("DEV1", 50000)];
    parse_complete_notifs_update(&mut reg, &notifs, &scheds);

    // Eleven minutes above the bound, one reading a minute, inside the
    // schedule; then one more reading to trip the threshold.
    let mut all_dets = Vec::new();
    for i in 0..13u64 {
        let minute = i;
        let ts = format!("2024-01-01T09:{:02}:00", minute);
        let payload = format!(
            "{{\"dev_id\":\"DEV1\",\"timestamp\":\"{}\",\"eCO2\":[900]}}",
            ts
        );
        let dets = ingest(&mut reg, "DEV1", &payload, 100 + i, i * 60);
        all_dets.extend(dets);
    }
    assert_eq!(all_dets.len(), 1);
    assert_eq!(all_dets[0].dev_id, "DEV1");
    assert_eq!(all_dets[0].notif_id, 1);
    assert_eq!(all_dets[0].kind, DetectionKind::DutCo2High { co2max: 50000 });
}

#[test]
fn registry_tracks_last_message() {
    let mut reg: DevsInfo = StrMap::new();
    ingest(&mut reg, "DEV1", "{\"dev_id\":\"DEV1\"}", 111, 1);
    assert_eq!(reg.entries.len(), 1);
    assert_eq!(reg.entries[0].1.last_timestamp, 111);
    let snapshot = realtime_notifs::endpoints::get_devices_last_ts(&reg);
    assert_eq!(snapshot.len(), 1);
    assert_eq!(snapshot[0].0, "DEV1");
    assert_eq!(snapshot[0].1, 111);
    let tels = realtime_notifs::endpoints::get_devices_last_telemetries(&reg);
    assert_eq!(tels[0].1.as_ref().unwrap().telemetry, "{\"dev_id\":\"DEV1\"}");
}

#[test]
fn topic_classification() {
    assert_eq!(classify_topic("apiserver/notif-change"), TopicClass::ApiServer);
    assert_eq!(classify_topic("data/dut/DEV1"), TopicClass::Data);
    assert_eq!(classify_topic("iotrelay/data/dut/DEV1"), TopicClass::Data);
    assert_eq!(classify_topic("iotrelay/control/dam/DEV2"), TopicClass::Control);
    assert_eq!(classify_topic("status/DEV1"), TopicClass::Ignore);
    assert_eq!(classify_topic(""), TopicClass::Ignore);
}

#[test]
fn payload_parse_cases() {
    match parse_payload_json("{\"dev_id\":\"DEV1\"}") {
        PayloadParse::Accepted(_, dev) => assert_eq!(dev, "DEV1"),
        _ => panic!("expected an accepted payload"),
    }
    assert!(matches!(parse_payload_json("Current RMT state: idle"), PayloadParse::Ignore));
    assert!(matches!(parse_payload_json("{not json"), PayloadParse::Rejected(_)));
    assert!(matches!(parse_payload_json("{\"x\":1}"), PayloadParse::Rejected(_)));
}

#[test]
fn notif_change_parse() {
    let v: serde_json::Value =
        serde_json::from_str("{\"notif_id\":9,\"removed_dev_ids\":[\"D1\",7,\"D2\"]}").unwrap();
    let (id, removed) = parse_notif_change(&v).unwrap();
    assert_eq!(id, 9);
    assert_eq!(removed, Some(vec!["D1".to_string(), "D2".to_string()]));
    let v: serde_json::Value = serde_json::from_str("{\"notif_id\":9}").unwrap();
    assert_eq!(parse_notif_change(&v), Some((9, None)));
    let v: serde_json::Value = serde_json::from_str("{\"notif_id\":\"x\"}").unwrap();
    assert!(parse_notif_change(&v).is_none());
    let v: serde_json::Value =
        serde_json::from_str("{\"notif_id\":9,\"removed_dev_ids\":[]}").unwrap();
    assert_eq!(parse_notif_change(&v), Some((9, None)));
}

#[test]
fn device_created_for_unknown_rule_kinds_is_left_unmonitored() {
    let mut reg: DevsInfo = StrMap::new();
    ingest(&mut reg, "DEV1", "{\"dev_id\":\"DEV1\"}", 1, 1);
    let unknown = NotifsCfgResponse_notif_item {
        notif_id: 3,
        cond_id: "SOMETHING ELSE".to_string(),
        cond_pars: CondPars {
            time_limit: None,
            offset_over_t_max: None,
            duration_in_minutes: None,
        },
        dev_ids: vec!["DEV1".to_string()],
    };
    parse_complete_notifs_update(&mut reg, &vec![unknown], &vec![]);
    assert!(!reg.entries[0].1.has_notifs_dut);
    assert!(!reg.entries[0].1.has_notifs_dac);
}

#[test]
fn dac_detection_end_to_end() {
    let mut reg: DevsInfo = StrMap::new();
    ingest(&mut reg, "DAC1", "{\"dev_id\":\"DAC1\"}", 1, 1);
    let rule = NotifsCfgResponse_notif_item {
        notif_id: 2,
        cond_id: "COMP_TIME <".to_string(),
        cond_pars: CondPars {
            time_limit: Some("08:00".to_string()),
            offset_over_t_max: None,
            duration_in_minutes: None,
        },
        dev_ids: vec!["DAC1".to_string()],
    };
    parse_complete_notifs_update(&mut reg, &vec![rule], &vec![]);
    assert!(reg.entries[0].1.has_notifs_dac);
    // The compressor runs at 06:30: one detection, then the debounce holds.
    let dets = ingest(
        &mut reg,
        "DAC1",
        "{\"dev_id\":\"DAC1\",\"timestamp\":\"2024-01-01T06:30:00\",\"Lcmp\":[1]}",
        10,
        10,
    );
    assert_eq!(dets.len(), 1);
    assert_eq!(dets[0].kind, DetectionKind::CompBeforeHour { time_limit: 8 * 3600 });
    let dets = ingest(
        &mut reg,
        "DAC1",
        "{\"dev_id\":\"DAC1\",\"timestamp\":\"2024-01-01T06:31:00\",\"Lcmp\":[1]}",
        20,
        70,
    );
    assert_eq!(dets.len(), 0);
}

#[test]
fn control_message_does_not_touch_telemetry() {
    let mut reg: DevsInfo = StrMap::new();
    ingest(&mut reg, "DEV1", "{\"dev_id\":\"DEV1\",\"timestamp\":\"2024-01-01T10:00:00\"}", 5, 5);
    let before = reg.entries[0].1.last_telemetry.as_ref().unwrap().telemetry.clone();
    // A control-topic message updates the last-seen clock only.
    let payload_json: serde_json::Value = serde_json::from_str("{\"dev_id\":\"DEV1\"}").unwrap();
    let mut dets = Vec::new();
    ingest_device_message(
        &mut reg,
        &"DEV1".to_string(),
        &"{\"dev_id\":\"DEV1\"}".to_string(),
        &payload_json,
        None,
        false,
        99,
        99,
        &mut dets,
    );
    assert_eq!(reg.entries[0].1.last_timestamp, 99);
    assert_eq!(reg.entries[0].1.last_telemetry.as_ref().unwrap().telemetry, before);
}
