use chrono::{DateTime, NaiveDateTime, TimeDelta};
use voucher_claim::clock::{
    adjusted_start, answer_agrees, countdown_step, duration_since, format_duration, lowered_answer_agrees, next_day,
    parse_task_time, start_from_reading, start_has_passed, Countdown, NaiveStamp, TimeSpan, MAX_STAMP_SECS,
    MIN_STAMP_SECS,
};

fn stamp_of(dt: NaiveDateTime) -> NaiveStamp {
    NaiveStamp::from_parts(dt.and_utc().timestamp(), dt.and_utc().timestamp_subsec_nanos()).unwrap()
}

fn chrono_of(s: NaiveStamp) -> NaiveDateTime {
    DateTime::from_timestamp(s.secs, s.nanos).unwrap().naive_utc()
}

fn span_of(d: TimeDelta) -> TimeSpan {
    let secs = d.num_seconds();
    let sub = d.subsec_nanos();
    if sub < 0 {
        TimeSpan { secs: secs - 1, nanos: (sub + 1_000_000_000) as u32 }
    } else {
        TimeSpan { secs, nanos: sub as u32 }
    }
}

fn reference_format(duration: TimeDelta) -> String {
    let hours = duration.num_hours();
    let minutes = duration.num_minutes() % 60;
    let seconds = duration.num_seconds() % 60;
    let milliseconds = duration.num_milliseconds() % 1_000;
    format!("{:02}:{:02}:{:02}.{:03}", hours, minutes, seconds, milliseconds)
}

fn dt(text: &str) -> NaiveDateTime {
    NaiveDateTime::parse_from_str(text, "%Y-%m-%d %H:%M:%S%.f").unwrap()
}

#[test]
fn countdown_display_is_hours_minutes_seconds_millis() {
    assert_eq!(format_duration(&TimeSpan { secs: 3723, nanos: 45_000_000 }), "01:02:03.045");
    assert_eq!(format_duration(&TimeSpan { secs: 0, nanos: 999_999_999 }), "00:00:00.999");
    assert_eq!(format_duration(&TimeSpan { secs: 100 * 3600, nanos: 0 }), "100:00:00.000");
}

#[test]
fn countdown_display_matches_chrono_arithmetic() {
    let spans = [
        TimeDelta::milliseconds(1),
        TimeDelta::milliseconds(-1500),
        TimeDelta::nanoseconds(-1),
        TimeDelta::seconds(86_399) + TimeDelta::nanoseconds(123_456_789),
        TimeDelta::seconds(-3_725) - TimeDelta::milliseconds(42),
        TimeDelta::MAX,
        TimeDelta::MIN,
        TimeDelta::zero(),
    ];
    for d in spans {
        assert_eq!(format_duration(&span_of(d)), reference_format(d), "{:?}", d);
    }
}

#[test]
fn start_time_reads_today_with_the_typed_time() {
    let s = parse_task_time("2024-05-01", "10:11:12.5").unwrap();
    assert_eq!(s, stamp_of(dt("2024-05-01 10:11:12.5")));
    assert_eq!(s.secs, 1_714_558_272);
    assert_eq!(s.nanos, 500_000_000);
    let whole = parse_task_time("2024-05-01", "00:00:00").unwrap();
    assert_eq!(whole.nanos, 0);
    assert_eq!(parse_task_time("2024-05-01", "25:00:00"), None);
    assert_eq!(parse_task_time("2024-05-01", "10:11"), None);
    assert_eq!(parse_task_time("2024-05-01", "10:11:12 extra"), None);
}

#[test]
fn start_time_readings_are_kept_when_chrono_can_hold_them() {
    assert_eq!(start_from_reading(Some((5, 7))), Some(NaiveStamp { secs: 5, nanos: 7 }));
    assert_eq!(start_from_reading(None), None);
    assert_eq!(start_from_reading(Some((MAX_STAMP_SECS + 1, 0))), None);
    assert_eq!(start_from_reading(Some((MIN_STAMP_SECS, 0))), Some(NaiveStamp { secs: MIN_STAMP_SECS, nanos: 0 }));
    assert_eq!(start_from_reading(Some((0, 2_000_000_000))), None);
}

#[test]
fn stamp_range_is_chronos_range() {
    assert_eq!(stamp_of(NaiveDateTime::MIN).secs, MIN_STAMP_SECS);
    assert_eq!(stamp_of(NaiveDateTime::MAX).secs, MAX_STAMP_SECS);
}

#[test]
fn time_left_matches_chrono() {
    let pairs = [
        ("2024-05-01 10:00:00", "2024-05-01 09:59:58.75"),
        ("2024-05-01 09:00:00", "2024-05-01 09:59:58.75"),
        ("2024-05-02 00:00:00.5", "2024-05-01 23:59:60.25"),
        ("2024-05-01 23:59:60.5", "2024-05-01 23:59:59"),
        ("2024-05-01 23:59:59", "2024-05-01 23:59:60.5"),
        ("2024-05-01 12:00:00", "2024-05-01 23:59:60.5"),
        ("1999-12-31 23:59:59.999", "2030-06-15 01:02:03.004"),
    ];
    for (a, b) in pairs {
        let (a, b) = (dt(a), dt(b));
        assert_eq!(duration_since(&stamp_of(a), &stamp_of(b)), span_of(a.signed_duration_since(b)), "{} - {}", a, b);
    }
}

#[test]
fn countdown_is_due_once_no_time_is_left() {
    let start = stamp_of(dt("2024-05-01 10:00:00"));
    assert!(matches!(countdown_step(&start, &start), Countdown::Due));
    assert!(matches!(countdown_step(&start, &stamp_of(dt("2024-05-01 10:00:00.001"))), Countdown::Due));
    match countdown_step(&start, &stamp_of(dt("2024-05-01 08:58:57.5"))) {
        Countdown::Remaining(text) => assert_eq!(text, "01:01:02.500"),
        Countdown::Due => panic!("time is left"),
    }
}

#[test]
fn a_passed_start_is_noticed() {
    let start = stamp_of(dt("2024-05-01 10:00:00"));
    assert!(start_has_passed(&start, &stamp_of(dt("2024-05-01 10:00:00.001"))));
    assert!(!start_has_passed(&start, &start));
    assert!(!start_has_passed(&start, &stamp_of(dt("2024-05-01 09:00:00"))));
}

#[test]
fn next_day_adds_one_day_like_chrono() {
    for text in ["2024-05-01 10:00:00", "2024-02-28 23:59:59.9", "2024-06-30 23:59:60.3"] {
        let d = dt(text);
        let mut expected = d;
        expected += TimeDelta::days(1);
        assert_eq!(next_day(&stamp_of(d)), Some(stamp_of(expected)), "{}", text);
    }
    assert_eq!(next_day(&stamp_of(NaiveDateTime::MAX)), None);
}

#[test]
fn only_yes_moves_the_start() {
    assert!(answer_agrees("yes"));
    assert!(answer_agrees("  YES \n"));
    assert!(answer_agrees("Y"));
    assert!(answer_agrees("yEs"));
    assert!(!answer_agrees("no"));
    assert!(!answer_agrees("yess"));
    assert!(!answer_agrees(""));
    assert!(lowered_answer_agrees("y"));
    assert!(!lowered_answer_agrees("Y"));
}

#[test]
fn the_next_day_is_one_day_later() {
    let s = stamp_of(dt("2024-05-01 10:00:00.25"));
    let t = next_day(&s).unwrap();
    assert_eq!(duration_since(&t, &s), TimeSpan { secs: 86_400, nanos: 0 });
    let leap = stamp_of(dt("2024-06-30 23:59:60.3"));
    let after = next_day(&leap).unwrap();
    assert_eq!(duration_since(&after, &leap), TimeSpan { secs: 86_399, nanos: 0 });
}

fn is_clock_shape(s: &str) -> bool {
    let c: Vec<char> = s.chars().collect();
    c.len() == 12
        && c.iter().enumerate().all(|(i, ch)| match i {
            2 | 5 => *ch == ':',
            8 => *ch == '.',
            _ => ch.is_ascii_digit(),
        })
}

#[test]
fn below_one_hundred_hours_the_display_has_twelve_characters() {
    for (secs, nanos) in [(0i64, 0u32), (59, 999_999_999), (3_599, 1), (99 * 3600 + 3599, 999_000_000)] {
        let text = format_duration(&TimeSpan { secs, nanos });
        assert!(is_clock_shape(&text), "{}", text);
    }
    assert_eq!(format_duration(&TimeSpan { secs: 0, nanos: 0 }), "00:00:00.000");
}

#[test]
fn a_start_before_now_has_passed() {
    let now = stamp_of(dt("2024-05-01 10:00:00.5"));
    assert!(start_has_passed(&stamp_of(dt("2024-05-01 10:00:00.4")), &now));
    assert!(start_has_passed(&stamp_of(dt("2024-04-30 23:00:00")), &now));
    assert!(!start_has_passed(&stamp_of(dt("2024-05-01 10:00:00.5")), &now));
    assert!(!start_has_passed(&stamp_of(dt("2024-05-01 10:00:00.6")), &now));
}

#[test]
fn the_start_moves_only_when_passed_and_agreed() {
    let now = stamp_of(dt("2024-05-01 12:00:00"));
    let past = stamp_of(dt("2024-05-01 10:00:00"));
    let future = stamp_of(dt("2024-05-01 13:00:00"));
    assert_eq!(adjusted_start(&past, &now, "yes\n"), Some(stamp_of(dt("2024-05-02 10:00:00"))));
    assert_eq!(adjusted_start(&past, &now, " Y "), Some(stamp_of(dt("2024-05-02 10:00:00"))));
    assert_eq!(adjusted_start(&past, &now, "no\n"), Some(past));
    assert_eq!(adjusted_start(&future, &now, "yes"), Some(future));
}
