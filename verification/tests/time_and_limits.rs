use chrono::{Datelike, NaiveDate, NaiveDateTime, Timelike};
use lyrch::bucket::{Bucket, MemberRatelimit, Ratelimit, TakeRefusal};
use lyrch::logger::{create_timestamp, format_timestamp, CalendarTime};
use lyrch::users::{cooldown_message, plan_daily, plan_daily_now, DailyPlan, Moment};

fn ct(year: i32, month: u32, day: u32, hour: u32, minute: u32, second: u32) -> CalendarTime {
    CalendarTime { year, month, day, hour, minute, second }
}

#[test]
fn timestamp_layout() {
    assert_eq!(format_timestamp(ct(2019, 9, 4, 7, 5, 3)), "[2019-09-04 07:05:03]");
    assert_eq!(format_timestamp(ct(12, 12, 31, 23, 59, 59)), "[0012-12-31 23:59:59]");
    assert_eq!(format_timestamp(ct(-5, 1, 1, 0, 0, 0)), "[00-5-01-01 00:00:00]");
    assert_eq!(format_timestamp(ct(12345, 1, 1, 0, 0, 0)), "[12345-01-01 00:00:00]");
}

#[test]
fn current_timestamp_shape() {
    let s = create_timestamp().expect("the test machine's clock reads after 1970");
    let b = s.as_bytes();
    assert_eq!(s.len(), 21, "{}", s);
    assert_eq!(b[0], b'[');
    assert_eq!(b[5], b'-');
    assert_eq!(b[8], b'-');
    assert_eq!(b[11], b' ');
    assert_eq!(b[14], b':');
    assert_eq!(b[17], b':');
    assert_eq!(b[20], b']');
    assert!(s.starts_with("[20"));
}

fn at(days: i64, secs: u32, frac: u32) -> Moment {
    Moment { days, secs, frac }
}

#[test]
fn daily_plan_cases() {
    let now = at(737_000, 3_600, 0);
    assert!(matches!(plan_daily(None, now), DailyPlan::Insert));
    assert!(matches!(plan_daily(Some(None), now), DailyPlan::Update));
    assert!(matches!(plan_daily(Some(Some(at(736_999, 0, 0))), now), DailyPlan::Update));
    assert!(matches!(plan_daily(Some(Some(now)), now), DailyPlan::Update));
    assert!(matches!(plan_daily(Some(Some(at(737_000, 3_600, 999_999_999))), now), DailyPlan::Update));
    match plan_daily(Some(Some(at(737_001, 3_600 + 3_723, 0))), now) {
        DailyPlan::Cooldown(text) => assert_eq!(text, "On cooldown. Remaining time: 1:2:3"),
        _ => panic!("expected a cooldown"),
    }
    match plan_daily(Some(Some(at(737_000, 3_601, 500))), now) {
        DailyPlan::Cooldown(text) => assert_eq!(text, "On cooldown. Remaining time: 0:0:1"),
        _ => panic!("expected a cooldown"),
    }
}

fn moment_of(dt: NaiveDateTime) -> Moment {
    Moment {
        days: dt.date().num_days_from_ce() as i64,
        secs: dt.time().num_seconds_from_midnight(),
        frac: dt.time().nanosecond(),
    }
}

fn dt(days: i32, h: u32, m: u32, s: u32, nano: u32) -> NaiveDateTime {
    NaiveDate::from_num_days_from_ce_opt(days)
        .unwrap()
        .and_hms_nano_opt(h, m, s, nano)
        .unwrap()
}

#[test]
fn daily_plan_agrees_with_chrono() {
    let moments = [
        dt(737_000, 12, 0, 0, 0),
        dt(737_000, 12, 0, 0, 999_999_999),
        dt(737_000, 12, 0, 1, 0),
        dt(737_000, 23, 59, 59, 1_500_000_000),
        dt(737_001, 0, 0, 0, 0),
        dt(737_001, 0, 0, 1, 0),
        dt(737_001, 0, 0, 2, 250_000_000),
        dt(736_999, 23, 59, 59, 1_000_000_000),
        dt(737_002, 1, 2, 3, 4),
    ];
    for until in moments.iter() {
        for now in moments.iter() {
            let seconds = (*until - *now).num_seconds();
            match plan_daily(Some(Some(moment_of(*until))), moment_of(*now)) {
                DailyPlan::Cooldown(text) => {
                    assert!(seconds > 0, "{} {}", until, now);
                    let expected = format!(
                        "On cooldown. Remaining time: {}:{}:{}",
                        (seconds / 3600) % 24,
                        (seconds / 60) % 60,
                        seconds % 60
                    );
                    assert_eq!(text, expected);
                }
                DailyPlan::Update => assert!(seconds <= 0, "{} {}", until, now),
                DailyPlan::Insert => panic!("a stored row never plans an insert"),
            }
        }
    }
}

#[test]
fn daily_plan_leap_second() {
    // From inside the leap second 23:59:60.5 to 00:00:01 chrono counts half a second.
    let now = at(10, 86_399, 1_500_000_000);
    assert!(matches!(plan_daily(Some(Some(at(11, 1, 0))), now), DailyPlan::Update));
    match plan_daily(Some(Some(at(11, 2, 0))), now) {
        DailyPlan::Cooldown(text) => assert_eq!(text, "On cooldown. Remaining time: 0:0:1"),
        _ => panic!("expected a cooldown"),
    }
}

#[test]
fn daily_plan_now_cases() {
    assert!(matches!(plan_daily_now(None), Some(DailyPlan::Insert)));
    assert!(matches!(plan_daily_now(Some(None)), Some(DailyPlan::Update)));
    assert!(matches!(plan_daily_now(Some(Some(at(0, 0, 0)))), Some(DailyPlan::Update)));
    match plan_daily_now(Some(Some(at(100_000_000, 0, 0)))) {
        Some(DailyPlan::Cooldown(text)) => assert!(text.starts_with("On cooldown. Remaining time: ")),
        _ => panic!("expected a cooldown"),
    }
}

#[test]
fn cooldown_text() {
    assert_eq!(cooldown_message(86_399), "On cooldown. Remaining time: 23:59:59");
    assert_eq!(cooldown_message(90_061), "On cooldown. Remaining time: 1:1:1");
}

#[test]
fn bucket_delay_between_passes() {
    let mut b = Bucket::new(Ratelimit { delay: 60, limit: None });
    assert_eq!(b.take_at(1, 1_000), 0);
    assert_eq!(b.take_at(1, 1_010), 50);
    assert_eq!(b.take_at(2, 1_010), 0);
    assert_eq!(b.take_at(1, 1_059), 1);
    assert_eq!(b.take_at(1, 1_060), 0);
    assert_eq!(b.member_of(1).tickets, 2);
    assert_eq!(b.member_of(1).last_time, 1_060);
    assert_eq!(b.member_of(3).tickets, 0);
}

#[test]
fn bucket_span_limit() {
    let mut b = Bucket::new(Ratelimit { delay: 5, limit: Some((30, 2)) });
    assert_eq!(b.take_at(9, 100), 0);
    assert_eq!(b.take_at(9, 105), 0);
    // Two tickets were spent in the span that began at time 0.
    let m = b.member_of(9);
    assert_eq!(m.tickets, 2);
    assert_eq!(m.set_time, 0);
    // The span [0, 30) is over, so the counter resets at 110.
    assert_eq!(b.take_at(9, 110), 0);
    assert_eq!(b.member_of(9).set_time, 110);
    assert_eq!(b.take_at(9, 115), 0);
    assert_eq!(b.take_at(9, 120), 20);
    assert_eq!(b.take_at(9, 139), 1);
    assert_eq!(b.take_at(9, 140), 0);
}

#[test]
fn bucket_new_user_waits_for_first_delay() {
    let mut b = Bucket::new(Ratelimit { delay: 60, limit: None });
    assert_eq!(b.take_at(4, 10), 50);
    assert_eq!(b.member_of(4).tickets, 0);
}

#[test]
fn bucket_take_uses_current_time() {
    let mut b = Bucket::new(Ratelimit { delay: 60, limit: None });
    assert_eq!(b.take(1), Ok(0));
    let w = b.take(1).unwrap();
    assert!(w > 0 && w <= 60);
    b.users.insert(2, MemberRatelimit { last_time: 0, set_time: 0, tickets: i32::MAX });
    assert_eq!(b.take(2), Err(TakeRefusal::Overflow));
    assert_eq!(b.member_of(2).tickets, i32::MAX);
}

#[test]
fn bucket_overflowing_times_are_reported() {
    let mut b = Bucket::new(Ratelimit { delay: i64::MAX, limit: None });
    assert!(!b.take_panics(1, 10));
    assert_eq!(b.take_at(1, 10), i64::MAX - 10);
    b.users.insert(2, MemberRatelimit { last_time: 5, set_time: 0, tickets: 0 });
    assert!(b.take_panics(2, 10));
    let mut spans = Bucket::new(Ratelimit { delay: 0, limit: Some((i64::MAX, 0)) });
    spans.users.insert(3, MemberRatelimit { last_time: 0, set_time: 1, tickets: 0 });
    assert!(spans.take_panics(3, 0));
    assert!(!spans.take_panics(4, 5));
    assert_eq!(spans.take_at(4, 5), i64::MAX - 5);
    assert!(spans.take_panics(5, -5));
}
