use chrono::Datelike;
use playout::datetime::{Date, DateTime, Time};

#[test]
fn weekday_known_dates() {
    // 2024-07-15 and 2026-10-12 are Mondays, 1970-01-01 and 2023-06-01 are
    // Thursdays, 2000-02-29 is a Tuesday.
    assert_eq!(Date::new(2024, 7, 15).weekday_from_monday(), 0);
    assert_eq!(Date::new(2026, 10, 12).weekday_from_monday(), 0);
    assert_eq!(Date::new(1970, 1, 1).weekday_from_monday(), 3);
    assert_eq!(Date::new(2023, 6, 1).weekday_from_monday(), 3);
    assert_eq!(Date::new(2000, 2, 29).weekday_from_monday(), 1);
}

#[test]
fn weekday_agrees_with_chrono_across_a_year() {
    let mut d = chrono::NaiveDate::from_ymd_opt(2023, 1, 1).unwrap();
    for _ in 0..730 {
        let ours = Date::new(d.year() as u32, d.month(), d.day()).weekday_from_monday();
        assert_eq!(ours, d.weekday().num_days_from_monday());
        d = d.succ_opt().unwrap();
    }
}

#[test]
fn time_order_is_chronological() {
    let a = Time::new(8, 0, 0);
    let b = Time::new(8, 0, 1);
    let c = Time::new(17, 30, 0);
    assert!(a.le(&a));
    assert!(a.le(&b));
    assert!(!b.le(&a));
    assert!(b.le(&c));
}

#[test]
fn date_order_is_lexicographic() {
    let a = Date::new(2023, 5, 31);
    let b = Date::new(2023, 6, 1);
    let c = Date::new(2024, 1, 1);
    assert!(a.le(&b));
    assert!(!b.le(&a));
    assert!(b.le(&c));
    assert!(a.le(&a));
}

#[test]
fn datetime_builds_from_parts() {
    let dt = DateTime::new(Date::new(2023, 6, 1), Time::new(12, 30, 15));
    assert_eq!(dt.date.year, 2023);
    assert_eq!(dt.time.minute, 30);
}
