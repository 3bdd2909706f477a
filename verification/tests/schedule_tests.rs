use realtime_notifs::schedule::{
    parse_cfg_schedule, parse_day_key, AutomationSchedule, DayKey, DayProg, DayProgInput,
    ProgPermission,
};
use realtime_notifs::timebase::parse_date;

fn input(day: &str, permission: &str, start: &str, end: &str) -> DayProgInput {
    DayProgInput {
        day: day.to_string(),
        permission: permission.to_string(),
        start: start.to_string(),
        end: end.to_string(),
    }
}

#[test]
fn day_prog_inclusive_window() {
    let prog = DayProg { permission: ProgPermission::Allow, start: 8 * 3600, end: 17 * 3600 + 59 * 60 + 59 };
    assert!(prog.is_inside_sched(8 * 3600));
    assert!(prog.is_inside_sched(17 * 3600 + 59 * 60 + 59));
    assert!(!prog.is_inside_sched(8 * 3600 - 1));
    assert!(!prog.is_inside_sched(18 * 3600));
    let forbid = DayProg { permission: ProgPermission::Forbid, ..prog };
    assert!(!forbid.is_inside_sched(9 * 3600));
    assert!(forbid.is_inside_sched(7 * 3600));
}

#[test]
fn parse_day_keys() {
    assert_eq!(parse_day_key("mon"), Some(DayKey::Wd(0)));
    assert_eq!(parse_day_key("sun"), Some(DayKey::Wd(6)));
    assert_eq!(
        parse_day_key("2025-12-25"),
        Some(DayKey::Cal(parse_date("2025-12-25").unwrap()))
    );
    assert_eq!(parse_day_key("holiday"), None);
}

#[test]
fn exact_date_overrides_weekday() {
    // 2025-12-25 is a Thursday; the exact date entry must win over "thu".
    let sched = parse_cfg_schedule(&vec![
        input("thu", "allow", "08:00", "17:59"),
        input("2025-12-25", "forbid", "00:00", "23:59"),
    ])
    .unwrap();
    let day = parse_date("2025-12-25").unwrap();
    let prog = sched.get_for(day).unwrap();
    assert_eq!(prog.permission, ProgPermission::Forbid);
    // Another Thursday falls back to the weekday entry.
    let other_thu = parse_date("2025-12-18").unwrap();
    let prog = sched.get_for(other_thu).unwrap();
    assert_eq!(prog.permission, ProgPermission::Allow);
    // A day with no entry at all yields nothing.
    let fri = parse_date("2025-12-19").unwrap();
    assert!(sched.get_for(fri).is_none());
}

#[test]
fn schedule_end_gains_59_seconds() {
    let sched = parse_cfg_schedule(&vec![input("mon", "allow", "08:00", "17:59")]).unwrap();
    let prog = sched.by_day[0].1;
    assert_eq!(prog.start, 8 * 3600);
    assert_eq!(prog.end, 17 * 3600 + 59 * 60 + 59);
}

#[test]
fn schedule_rejects_bad_permission_or_time() {
    assert!(parse_cfg_schedule(&vec![input("mon", "ventilate", "08:00", "17:59")]).is_err());
    assert!(parse_cfg_schedule(&vec![input("mon", "allow", "8h00", "17:59")]).is_err());
    assert!(parse_cfg_schedule(&vec![input("mon", "allow", "08:00", "25:00")]).is_err());
}

#[test]
fn schedule_drops_unknown_day_keys() {
    let sched = parse_cfg_schedule(&vec![
        input("someday", "allow", "08:00", "17:59"),
        input("mon", "allow", "08:00", "17:59"),
    ])
    .unwrap();
    assert_eq!(sched.by_day.len(), 1);
    assert_eq!(sched.by_day[0].0, DayKey::Wd(0));
}

#[test]
fn empty_schedule_blocks_every_day() {
    let sched = AutomationSchedule { by_day: vec![] };
    assert!(sched.get_for(parse_date("2024-01-01").unwrap()).is_none());
}
