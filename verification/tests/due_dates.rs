use todoroc::cal::{plus_days, weekday_of};
use todoroc::due_date::{current_date_label, current_week_label, end_of_week, label, parse, quarter_label, DueColor, DueParse};

fn day(y: i32, m: u32, d: u32) -> i32 {
    match todoroc::due_date::parse(&format!("{:04}-{:02}-{:02}", y, m, d), 1) {
        todoroc::due_date::DueParse::Date(n) => n,
        _ => panic!("not a date"),
    }
}

/// Wednesday, April 8, 2026.
fn today() -> i32 {
    day(2026, 4, 8)
}

fn parsed(input: &str) -> Option<i32> {
    match parse(input, today()) {
        DueParse::Date(d) => Some(d),
        DueParse::Clear => None,
        DueParse::Error(m) => panic!("unexpected error: {}", m),
        DueParse::OutOfRange => panic!("unexpected out of range"),
    }
}

#[test]
fn day_numbers_follow_chrono() {
    assert_eq!(today(), 739714);
    assert_eq!(day(1, 1, 1), 1);
    assert_eq!(weekday_of(today()), 2);
    assert_eq!(weekday_of(1), 0);
    assert_eq!(weekday_of(-5), 1);
}

#[test]
fn plus_days_stays_in_range() {
    assert_eq!(plus_days(today(), 3), Some(day(2026, 4, 11)));
    assert_eq!(plus_days(today(), -8), Some(day(2026, 3, 31)));
    assert_eq!(plus_days(95745399, 1), None);
    assert_eq!(plus_days(-95746129, -1), None);
}

#[test]
fn empty_input_clears() {
    assert!(matches!(parse("", today()), DueParse::Clear));
    assert!(matches!(parse("   ", today()), DueParse::Clear));
}

#[test]
fn today_and_tomorrow_words() {
    assert_eq!(parsed("today"), Some(today()));
    assert_eq!(parsed("t"), Some(today()));
    assert_eq!(parsed("  TODAY "), Some(today()));
    assert_eq!(parsed("tomorrow"), Some(today() + 1));
    assert_eq!(parsed("tom"), Some(today() + 1));
}

#[test]
fn end_of_week_is_the_next_friday() {
    assert_eq!(parsed("eow"), Some(day(2026, 4, 10)));
    let friday = day(2026, 4, 10);
    assert!(matches!(parse("eow", friday), DueParse::Date(d) if d == day(2026, 4, 17)));
}

#[test]
fn working_days_skip_weekends() {
    assert_eq!(parsed("3wd"), Some(day(2026, 4, 13)));
    assert_eq!(parsed("1wd"), Some(day(2026, 4, 9)));
    assert_eq!(parsed("0wd"), Some(today()));
    assert_eq!(parsed("5wd"), Some(day(2026, 4, 15)));
}

#[test]
fn day_offsets() {
    assert_eq!(parsed("3d"), Some(day(2026, 4, 11)));
    assert_eq!(parsed("-2d"), Some(day(2026, 4, 6)));
    assert_eq!(parsed("0d"), Some(today()));
}

#[test]
fn iso_work_weeks() {
    assert_eq!(parsed("W16"), Some(day(2026, 4, 13)));
    assert_eq!(parsed("w16"), Some(day(2026, 4, 13)));
    assert_eq!(parsed("16w"), Some(day(2026, 4, 13)));
    // Week 15 began before today: next year's week 15.
    assert_eq!(parsed("w15"), Some(day(2027, 4, 12)));
}

#[test]
fn weekday_names() {
    assert_eq!(parsed("fri"), Some(day(2026, 4, 10)));
    assert_eq!(parsed("friday"), Some(day(2026, 4, 10)));
    assert_eq!(parsed("wed"), Some(day(2026, 4, 15)));
    assert_eq!(parsed("mon"), Some(day(2026, 4, 13)));
    assert_eq!(parsed("next mon"), Some(day(2026, 4, 13)));
    assert_eq!(parsed("next wed"), Some(day(2026, 4, 15)));
    assert_eq!(parsed("next sun"), Some(day(2026, 4, 19)));
    assert_eq!(parsed("Next Tue"), Some(day(2026, 4, 14)));
}

#[test]
fn numeric_dates() {
    assert_eq!(parsed("20-04-2026"), Some(day(2026, 4, 20)));
    assert_eq!(parsed("20.04.2026"), Some(day(2026, 4, 20)));
    assert_eq!(parsed("20-04"), Some(day(2026, 4, 20)));
    assert_eq!(parsed("2026-05-01"), Some(day(2026, 5, 1)));
}

#[test]
fn unreadable_input_is_rejected_with_hint() {
    match parse(" xyz ", today()) {
        DueParse::Error(m) => assert_eq!(m, "Can't parse: 'xyz'. Try: 3d, 3wd, fri, eow, W16, 16w, 20-04-2026"),
        _ => panic!("expected an error"),
    }
    assert!(matches!(parse("w54", today()), DueParse::Error(_)));
    assert!(matches!(parse("31-02-2026", today()), DueParse::Error(_)));
}

#[test]
fn offsets_beyond_the_calendar() {
    assert!(matches!(parse("999999999d", today()), DueParse::OutOfRange));
}

#[test]
fn due_badges() {
    let t = today();
    assert_eq!(label(t, t), ("today".to_string(), DueColor::Cyan));
    assert_eq!(label(t + 1, t), ("tmrw".to_string(), DueColor::Yellow));
    assert_eq!(label(t + 2, t), ("Fri".to_string(), DueColor::Yellow));
    assert_eq!(label(t + 6, t), ("Tue".to_string(), DueColor::Yellow));
    assert_eq!(label(t + 7, t), ("Apr 15".to_string(), DueColor::Gray));
    assert_eq!(label(t - 3, t), ("\u{26a0} 3d ago".to_string(), DueColor::Red));
}

#[test]
fn header_labels() {
    assert_eq!(current_week_label(today()), "W15");
    assert_eq!(current_date_label(today()), "Wed Apr 8");
    assert_eq!(quarter_label(today()), Some("Q2 60d".to_string()));
    assert_eq!(quarter_label(day(2026, 12, 31)), Some("Q4 1d".to_string()));
    assert_eq!(quarter_label(day(2026, 6, 10)), Some("Q2 15d".to_string()));
}

#[test]
fn week_ends_on_sunday() {
    assert_eq!(end_of_week(today()), Some(day(2026, 4, 12)));
    assert_eq!(end_of_week(day(2026, 4, 12)), Some(day(2026, 4, 12)));
}
