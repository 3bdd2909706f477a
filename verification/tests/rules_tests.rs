use realtime_notifs::dac_l1::{NotifCompressorUsedAfterHour, NotifCompressorUsedBeforeHour};
use realtime_notifs::dut_co2::NotifDutCO2High;
use realtime_notifs::dut_t::{NotifDutTempHighCritic, NotifDutTempOutOfBounds};
use realtime_notifs::detection::DetectionKind;
use realtime_notifs::timebase::Timestamp;

fn ts(secs: u64) -> Timestamp {
    Timestamp { secs }
}

#[test]
fn co2_high_debounce_fires_once_per_day() {
    // co2max of 800 ppm, readings of 900 ppm every 60 seconds.
    let mut rule = NotifDutCO2High {
        notif_id: 7,
        last_notif_sent: None,
        acc_t: 0,
        co2max: 80000,
    };
    let dev = "DEV1".to_string();
    let mut fires = 0;
    let mut fire_minute = None;
    for i in 0..15u64 {
        let now = i * 60;
        let new_day = i == 0;
        let delta = if i == 0 { 0 } else { 60 };
        let det = rule.on_dut_telemetry(90000, &ts(1000 + now), delta, new_day, &dev, now);
        if det.is_some() {
            fires += 1;
            fire_minute = Some(i);
        }
    }
    assert_eq!(fires, 1);
    // The accumulator reaches 600 s at minute 10, counting that reading.
    assert_eq!(fire_minute, Some(10));
    // Still above the bound one hour later: suppressed for 24 h.
    let det = rule.on_dut_telemetry(90000, &ts(10000), 60, false, &dev, 3600);
    assert!(det.is_none());
    // After the debounce expires the rule may fire again.
    let det = rule.on_dut_telemetry(90000, &ts(20000), 60, false, &dev, 86400 + 1000);
    assert!(det.is_some());
}

#[test]
fn co2_high_day_rollover_resets_accumulator() {
    let mut rule = NotifDutCO2High {
        notif_id: 7,
        last_notif_sent: None,
        acc_t: 550,
        co2max: 80000,
    };
    let dev = "DEV1".to_string();
    let det = rule.on_dut_telemetry(90000, &ts(86400), 60, true, &dev, 50);
    assert!(det.is_none());
    // The accumulator restarted from zero, even mid-episode.
    assert_eq!(rule.acc_t, 60);
}

#[test]
fn co2_high_detection_carries_parameters() {
    let mut rule = NotifDutCO2High {
        notif_id: 9,
        last_notif_sent: None,
        acc_t: 590,
        co2max: 50000,
    };
    let dev = "DEV9".to_string();
    let det = rule.on_dut_telemetry(90000, &ts(777), 60, false, &dev, 1234).unwrap();
    assert_eq!(det.notif_id, 9);
    assert_eq!(det.dev_id, "DEV9");
    assert_eq!(det.telemetry_timestamp.secs, 777);
    assert_eq!(det.kind, DetectionKind::DutCo2High { co2max: 50000 });
    assert_eq!(det.notif_path(), "/DUT_CO2/Acima");
    // The accumulator keeps counting; a firing does not clear it.
    assert_eq!(rule.acc_t, 650);
    assert_eq!(rule.last_notif_sent, Some(1234));
}

#[test]
fn temp_critic_hysteresis_fires_and_rearms() {
    // Limit of 30.00 degrees, duration of 600 s.
    let mut rule = NotifDutTempHighCritic {
        notif_id: 3,
        acc_t: 0,
        is_cond_notification: false,
        temperature_limit: 3000,
        duration_in_seconds: 600,
    };
    let dev = "DEV1".to_string();
    // A sample below the limit, then samples above it every 60 s.
    let mut prev: Option<i64> = Some(2900);
    let mut fires = 0;
    for i in 0..13u64 {
        let det = rule.on_dut_telemetry(3100, &ts(1000 + i * 60), 60, prev, &dev);
        prev = Some(3100);
        if det.is_some() {
            fires += 1;
            // Firing ends the episode and clears the accumulator at once.
            assert!(!rule.is_cond_notification);
            assert_eq!(rule.acc_t, 0);
        }
    }
    assert_eq!(fires, 1);
    // No 24-hour lock: fall below, rise again, and it can fire again.
    let det = rule.on_dut_telemetry(2900, &ts(2000), 60, Some(3100), &dev);
    assert!(det.is_none());
    prev = Some(2900);
    let mut fires2 = 0;
    for i in 0..13u64 {
        let det = rule.on_dut_telemetry(3100, &ts(3000 + i * 60), 60, prev, &dev);
        prev = Some(3100);
        if det.is_some() {
            fires2 += 1;
        }
    }
    assert_eq!(fires2, 1);
}

#[test]
fn temp_critic_fall_back_resets_without_firing() {
    let mut rule = NotifDutTempHighCritic {
        notif_id: 3,
        acc_t: 300,
        is_cond_notification: true,
        temperature_limit: 3000,
        duration_in_seconds: 600,
    };
    let dev = "DEV1".to_string();
    let det = rule.on_dut_telemetry(2950, &ts(1000), 60, Some(3100), &dev);
    assert!(det.is_none());
    assert!(!rule.is_cond_notification);
    assert_eq!(rule.acc_t, 0);
}

#[test]
fn out_of_bounds_both_sides_share_debounce() {
    let mut rule = NotifDutTempOutOfBounds {
        notif_id: 4,
        last_notif_sent: None,
        seconds_above: 700,
        seconds_below: 0,
        tusemax: Some(2500),
        tusemin: Some(1800),
    };
    let dev = "DEV1".to_string();
    // Above the upper bound with the accumulator past the threshold: fires.
    let (above, below) = rule.on_dut_telemetry(2600, &ts(1000), 60, false, false, &dev, 500);
    assert!(above.is_some());
    assert!(below.is_none());
    assert_eq!(rule.last_notif_sent, Some(500));
    // The shared debounce now suppresses the lower bound too.
    rule.seconds_below = 700;
    let (above2, below2) = rule.on_dut_telemetry(1700, &ts(2000), 60, false, false, &dev, 600);
    assert!(above2.is_none());
    assert!(below2.is_none());
}

#[test]
fn out_of_bounds_discontinuity_resets_accumulators() {
    let mut rule = NotifDutTempOutOfBounds {
        notif_id: 4,
        last_notif_sent: None,
        seconds_above: 500,
        seconds_below: 300,
        tusemax: Some(2500),
        tusemin: None,
    };
    let dev = "DEV1".to_string();
    let _ = rule.on_dut_telemetry(2000, &ts(1000), 0, false, true, &dev, 500);
    assert_eq!(rule.seconds_above, 0);
    assert_eq!(rule.seconds_below, 0);
}

#[test]
fn comp_before_hour_fires_before_limit_only() {
    // Limit 08:00.
    let mut rule = NotifCompressorUsedBeforeHour {
        notif_id: 5,
        last_notif_sent: None,
        time_limit: 8 * 3600,
    };
    let dev = "DAC1".to_string();
    // Compressor off: nothing.
    let det = rule.on_dac_telemetry(0, &ts(7 * 3600), false, &dev, 10);
    assert!(det.is_none());
    // Running at 07:00: fires.
    let det = rule.on_dac_telemetry(1, &ts(7 * 3600), false, &dev, 20);
    assert!(det.is_some());
    assert_eq!(det.unwrap().notif_path(), "/COMP_TIME/AntesDoHorario");
    // Again within 24 h: suppressed.
    let det = rule.on_dac_telemetry(1, &ts(7 * 3600 + 60), false, &dev, 80);
    assert!(det.is_none());
    // A day rollover clears the debounce.
    let det = rule.on_dac_telemetry(1, &ts(86400 + 7 * 3600), true, &dev, 120);
    assert!(det.is_some());
    // Running after the limit: nothing.
    let mut fresh = NotifCompressorUsedBeforeHour {
        notif_id: 5,
        last_notif_sent: None,
        time_limit: 8 * 3600,
    };
    let det = fresh.on_dac_telemetry(1, &ts(9 * 3600), false, &dev, 10);
    assert!(det.is_none());
}

#[test]
fn comp_after_hour_fires_after_limit_only() {
    // Limit 18:00, carrying the 59 extra seconds.
    let mut rule = NotifCompressorUsedAfterHour {
        notif_id: 6,
        last_notif_sent: None,
        time_limit: 18 * 3600 + 59,
    };
    let dev = "DAC1".to_string();
    // 18:00:30 is still inside the inclusive minute.
    let det = rule.on_dac_telemetry(1, &ts(18 * 3600 + 30), false, &dev, 10);
    assert!(det.is_none());
    // 18:01:00 is past it.
    let det = rule.on_dac_telemetry(1, &ts(18 * 3600 + 60), false, &dev, 20);
    assert!(det.is_some());
    assert_eq!(det.unwrap().notif_path(), "/COMP_TIME/DepoisDoHorario");
}

#[test]
fn comp_rule_time_change_clears_debounce() {
    let old = NotifCompressorUsedBeforeHour {
        notif_id: 5,
        last_notif_sent: Some(100),
        time_limit: 8 * 3600,
    };
    // Same hour: the debounce instant survives the reload.
    let mut same = NotifCompressorUsedBeforeHour {
        notif_id: 5,
        last_notif_sent: None,
        time_limit: 8 * 3600,
    };
    same.update_notif_parameters(Some(&old));
    assert_eq!(same.last_notif_sent, Some(100));
    // Changed hour: the rule may fire again the same day.
    let mut changed = NotifCompressorUsedBeforeHour {
        notif_id: 5,
        last_notif_sent: None,
        time_limit: 9 * 3600,
    };
    changed.update_notif_parameters(Some(&old));
    assert_eq!(changed.last_notif_sent, None);
}

#[test]
fn co2_rule_carry_preserves_runtime_state() {
    let old = NotifDutCO2High {
        notif_id: 7,
        last_notif_sent: Some(42),
        acc_t: 500,
        co2max: 80000,
    };
    let mut renewed = NotifDutCO2High {
        notif_id: 7,
        last_notif_sent: None,
        acc_t: 0,
        co2max: 90000,
    };
    renewed.update_notif_parameters(Some(&old));
    assert_eq!(renewed.co2max, 90000);
    assert_eq!(renewed.acc_t, 500);
    assert_eq!(renewed.last_notif_sent, Some(42));
}
