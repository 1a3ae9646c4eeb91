use todoroc::lifecycle::{next_priority, snooze, state_of, toggle, Snooze, Stamp, TodoState};

fn day(y: i32, m: u32, d: u32) -> i32 {
    match todoroc::due_date::parse(&format!("{:04}-{:02}-{:02}", y, m, d), 1) {
        todoroc::due_date::DueParse::Date(n) => n,
        _ => panic!("not a date"),
    }
}

#[test]
fn flags_name_a_state() {
    assert_eq!(state_of(false, false, false), TodoState::Todo);
    assert_eq!(state_of(false, true, false), TodoState::InProgress);
    assert_eq!(state_of(false, false, true), TodoState::Blocked);
    assert_eq!(state_of(true, false, false), TodoState::Done);
    assert_eq!(state_of(true, true, true), TodoState::Done);
}

#[test]
fn space_cycles_four_states() {
    let mut flags = (false, false, false);
    let mut seen = Vec::new();
    for _ in 0..4 {
        let t = toggle(flags.0, flags.1, flags.2);
        flags = (t.done, t.in_progress, t.blocked);
        seen.push(state_of(flags.0, flags.1, flags.2));
    }
    assert_eq!(seen, vec![TodoState::InProgress, TodoState::Blocked, TodoState::Done, TodoState::Todo]);
    assert_eq!(flags, (false, false, false));
}

#[test]
fn toggle_records_timestamps() {
    let start = toggle(false, false, false);
    assert_eq!((start.started_at, start.completed_at), (Stamp::SetNow, Stamp::Clear));
    let block = toggle(false, true, false);
    assert_eq!((block.started_at, block.completed_at), (Stamp::Keep, Stamp::Clear));
    let finish = toggle(false, false, true);
    assert_eq!((finish.started_at, finish.completed_at), (Stamp::Keep, Stamp::SetNow));
    let reopen = toggle(true, false, false);
    assert_eq!((reopen.started_at, reopen.completed_at), (Stamp::Clear, Stamp::Clear));
}

#[test]
fn priority_key_cycles() {
    assert_eq!(next_priority(None), Some(1));
    assert_eq!(next_priority(Some(1)), Some(2));
    assert_eq!(next_priority(Some(2)), Some(3));
    assert_eq!(next_priority(Some(3)), None);
    assert_eq!(next_priority(Some(7)), None);
    let mut p = None;
    for _ in 0..4 {
        p = next_priority(p);
    }
    assert_eq!(p, None);
}

#[test]
fn snooze_moves_by_a_day() {
    let today = day(2026, 4, 8);
    let due = Some("2026-04-10".to_string());
    assert!(matches!(snooze(&due, today, 1), Snooze::MovedTo(s) if s == "2026-04-11"));
    assert!(matches!(snooze(&due, today, -1), Snooze::MovedTo(s) if s == "2026-04-09"));
}

#[test]
fn snooze_without_a_date() {
    let today = day(2026, 4, 8);
    assert!(matches!(snooze(&None, today, 1), Snooze::MovedTo(s) if s == "2026-04-09"));
    assert!(matches!(snooze(&None, today, -1), Snooze::Unchanged));
    let bad = Some("someday".to_string());
    assert!(matches!(snooze(&bad, today, 1), Snooze::MovedTo(s) if s == "2026-04-09"));
    assert!(matches!(snooze(&bad, today, -1), Snooze::Unchanged));
}

#[test]
fn snooze_then_unsnooze_gives_back_the_date() {
    let today = day(2026, 4, 8);
    let due = Some("2026-12-31".to_string());
    let later = match snooze(&due, today, 1) {
        Snooze::MovedTo(s) => s,
        _ => panic!("expected a date"),
    };
    assert_eq!(later, "2027-01-01");
    assert!(matches!(snooze(&Some(later), today, -1), Snooze::MovedTo(s) if s == "2026-12-31"));
}

#[test]
fn snooze_past_the_calendar_end() {
    assert!(matches!(snooze(&None, 95745399, 1), Snooze::OutOfRange));
    assert!(matches!(snooze(&None, 95745399, -1), Snooze::Unchanged));
}
