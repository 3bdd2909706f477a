use realtime_notifs::telemetry::{build_dut_readings, DacTelemetry, DutTelemetry};
use realtime_notifs::timebase::{parse_timestamp, Timestamp};

#[test]
fn pack_decode_spreads_timestamps() {
    // A pack of three samples, five seconds apart, ending at 10:00:00.
    let payload: serde_json::Value = serde_json::from_str(
        "{\"timestamp\":\"2024-01-01T10:00:00\",\"samplingTime\":5,\"eCO2\":[600,700,800]}",
    )
    .unwrap();
    let readings = DutTelemetry::parse_from_json_as_vec(&payload, None).unwrap();
    assert_eq!(readings.len(), 3);
    assert_eq!(readings[0].timestamp, parse_timestamp("2024-01-01T09:59:50").unwrap());
    assert_eq!(readings[1].timestamp, parse_timestamp("2024-01-01T09:59:55").unwrap());
    assert_eq!(readings[2].timestamp, parse_timestamp("2024-01-01T10:00:00").unwrap());
    assert_eq!(readings[0].eCO2, Some(600));
    assert_eq!(readings[2].eCO2, Some(800));
}

#[test]
fn pack_decode_short_channel_yields_none() {
    let pack_ts = parse_timestamp("2024-01-01T10:00:00").unwrap();
    let temperature = Some(vec![Some(2100i64), Some(2200), Some(2300)]);
    let eco2 = Some(vec![Some(600i16)]);
    let readings = build_dut_readings(&pack_ts, 5, &temperature, &eco2).unwrap();
    assert_eq!(readings.len(), 3);
    assert_eq!(readings[0].eCO2, Some(600));
    assert_eq!(readings[1].eCO2, None);
    assert_eq!(readings[2].Temperature, Some(2300));
}

#[test]
fn pack_decode_longest_channel_sets_the_count() {
    // Five CO2 samples against two temperatures: five readings, with the
    // temperature channel None-padded at the end.
    let pack_ts = parse_timestamp("2024-01-01T10:00:00").unwrap();
    let temperature = Some(vec![Some(2100i64), Some(2200)]);
    let eco2 = Some(vec![Some(1i16), Some(2), Some(3), Some(4), Some(5)]);
    let readings = build_dut_readings(&pack_ts, 5, &temperature, &eco2).unwrap();
    assert_eq!(readings.len(), 5);
    assert_eq!(readings[0].Temperature, Some(2100));
    assert_eq!(readings[1].Temperature, Some(2200));
    assert_eq!(readings[2].Temperature, None);
    assert_eq!(readings[4].eCO2, Some(5));
    assert_eq!(readings[0].timestamp, parse_timestamp("2024-01-01T09:59:40").unwrap());
}

#[test]
fn pack_decode_missing_timestamp_fails() {
    let payload: serde_json::Value = serde_json::from_str("{\"eCO2\":[600]}").unwrap();
    assert!(DutTelemetry::parse_from_json_as_vec(&payload, None).is_err());
    let payload: serde_json::Value =
        serde_json::from_str("{\"timestamp\":\"yesterday\",\"eCO2\":[600]}").unwrap();
    assert!(DutTelemetry::parse_from_json_as_vec(&payload, None).is_err());
}

#[test]
fn pack_decode_lenient_string_numbers() {
    let payload: serde_json::Value = serde_json::from_str(
        "{\"timestamp\":\"2024-01-01T10:00:00\",\"samplingTime\":\"5\",\"eCO2\":[\"600\",true,700]}",
    )
    .unwrap();
    let readings = DutTelemetry::parse_from_json_as_vec(&payload, None).unwrap();
    assert_eq!(readings.len(), 3);
    assert_eq!(readings[0].eCO2, Some(600));
    assert_eq!(readings[1].eCO2, None);
    assert_eq!(readings[2].eCO2, Some(700));
}

#[test]
fn dac_pack_decode_defaults_to_one_second() {
    let payload: serde_json::Value = serde_json::from_str(
        "{\"timestamp\":\"2024-01-01T10:00:00\",\"Lcmp\":[1,0]}",
    )
    .unwrap();
    let readings = DacTelemetry::parse_from_json_as_vec(&payload).unwrap();
    assert_eq!(readings.len(), 2);
    assert_eq!(readings[0].timestamp, parse_timestamp("2024-01-01T09:59:59").unwrap());
    assert_eq!(readings[1].timestamp, parse_timestamp("2024-01-01T10:00:00").unwrap());
    assert_eq!(readings[0].Lcmp, Some(1));
}

#[test]
fn pack_decode_out_of_range_timestamp_fails() {
    let pack_ts = Timestamp { secs: 10 };
    let eco2 = Some(vec![Some(1i16), Some(2), Some(3)]);
    // Three samples, 100 s apart: the oldest would land before 1970.
    assert!(build_dut_readings(&pack_ts, 100, &None, &eco2).is_err());
}
