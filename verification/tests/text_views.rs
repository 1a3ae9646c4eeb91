use todoroc::app::DetailField;
use todoroc::app::{extract_priority, extract_url};
use todoroc::github::state_is_open;
use todoroc::text::pop_char;
use todoroc::ui::{briefing_topic, display_text, field_scroll_target, strip_url, topic_alias, truncate};
use todoroc::editing::{delete_char_before, edit_field, insert_char_at, EditKey};

#[test]
fn unicode_whitespace_separates_words() {
    assert_eq!(extract_priority("a\u{3000}b\t!1"), ("a b".to_string(), Some(1)));
    assert_eq!(strip_url("x\u{3000}https://y.z\u{3000}w"), "x w");
}

#[test]
fn unicode_letters_stay_in_links() {
    assert_eq!(extract_url("https://x.y/caf\u{e9}!"), Some("https://x.y/caf\u{e9}".to_string()));
    assert_eq!(extract_url("https://x.y/7)"), Some("https://x.y/7".to_string()));
}

#[test]
fn case_is_ignored_where_words_are_read() {
    assert!(state_is_open("OPEN"));
    assert!(state_is_open("Open"));
    assert!(!state_is_open("MERGED"));
}

#[test]
fn popping_characters() {
    let mut s = String::from("ab\u{2026}");
    pop_char(&mut s);
    assert_eq!(s, "ab");
    let mut e = String::new();
    pop_char(&mut e);
    assert_eq!(e, "");
}

#[test]
fn truncation_keeps_short_texts() {
    assert_eq!(truncate("hello", 5), "hello");
    assert_eq!(truncate("hello world", 5), "hell\u{2026}");
    assert_eq!(truncate("h\u{e9}llo", 4), "h\u{e9}l\u{2026}");
    assert_eq!(truncate("abc", 0), "\u{2026}");
    assert_eq!(display_text("a long todo text", 6), "a lon\u{2026}");
}

#[test]
fn links_are_stripped_for_display() {
    assert_eq!(strip_url("Review https://github.com/x/y/pull/1 today"), "Review today");
    assert_eq!(strip_url("https://example.com fix it"), "fix it");
    assert_eq!(strip_url("see http://example.com"), "see");
    assert_eq!(strip_url("no link here"), "no link here");
    assert_eq!(strip_url("a http://x b https://y c"), "a b https://y c");
    assert_eq!(strip_url("a https://x b http://y c"), "a b http://y c");
    assert_eq!(strip_url("a http://x.io b https://y.io c"), "a b https://y.io c");
}

#[test]
fn topic_aliases_are_sixteen_wide() {
    assert_eq!(topic_alias("\u{1f504} In Progress"), "In Progress     ");
    assert_eq!(topic_alias("A very long topic name here"), "A very long topi");
    assert_eq!(topic_alias(""), "                ");
    assert_eq!(briefing_topic("\u{1f4c5} Due This Week"), "Due This We\u{2026}");
    assert_eq!(briefing_topic("Work"), "Work");
}

#[test]
fn detail_fields_scroll_into_view() {
    assert_eq!(field_scroll_target(&DetailField::Text), 0);
    assert_eq!(field_scroll_target(&DetailField::Priority), 3);
    assert_eq!(field_scroll_target(&DetailField::Due), 5);
    assert_eq!(field_scroll_target(&DetailField::Url), 8);
    assert_eq!(field_scroll_target(&DetailField::NewComment), 11);
    assert_eq!(field_scroll_target(&DetailField::ExistingComment(2)), 22);
}

#[test]
fn character_positions_edit_lines() {
    let mut s = String::from("h\u{e9}llo");
    insert_char_at(&mut s, 2, 'X');
    assert_eq!(s, "h\u{e9}Xllo");
    insert_char_at(&mut s, 99, '!');
    assert_eq!(s, "h\u{e9}Xllo!");
    assert!(delete_char_before(&mut s, 3));
    assert_eq!(s, "h\u{e9}llo!");
    assert!(!delete_char_before(&mut s, 0));
    assert!(!delete_char_before(&mut s, 99));
    assert_eq!(s, "h\u{e9}llo!");
}

#[test]
fn typing_then_backspace_restores_a_line() {
    let mut s = String::from("abc");
    let mut cursor = 1usize;
    edit_field(&mut s, &mut cursor, EditKey::Char('Z'));
    assert_eq!((s.as_str(), cursor), ("aZbc", 2));
    edit_field(&mut s, &mut cursor, EditKey::Backspace);
    assert_eq!((s.as_str(), cursor), ("abc", 1));
    edit_field(&mut s, &mut cursor, EditKey::Left);
    edit_field(&mut s, &mut cursor, EditKey::Left);
    assert_eq!(cursor, 0);
    edit_field(&mut s, &mut cursor, EditKey::Right);
    edit_field(&mut s, &mut cursor, EditKey::Right);
    edit_field(&mut s, &mut cursor, EditKey::Right);
    edit_field(&mut s, &mut cursor, EditKey::Right);
    assert_eq!(cursor, 3);
    edit_field(&mut s, &mut cursor, EditKey::Other);
    assert_eq!((s.as_str(), cursor), ("abc", 3));
}

use todoroc::app::BriefingSection;
use todoroc::due_date::DueColor;
use todoroc::models::{Todo, Topic};
use todoroc::rows::{
    briefing_row_text, check_mark, count_label, count_totals, cursor_parts, digest_line, due_badge, field_top, list_row,
    priority_tag, search_row_text, section_heading, separator_row, todo_row_text,
};

fn day(y: i32, m: u32, d: u32) -> i32 {
    match todoroc::due_date::parse(&format!("{:04}-{:02}-{:02}", y, m, d), 1) {
        todoroc::due_date::DueParse::Date(n) => n,
        _ => panic!("not a date"),
    }
}

fn today() -> i32 {
    day(2026, 4, 8)
}

fn row_todo(text: &str) -> Todo {
    Todo {
        id: 1,
        topic_id: 1,
        text: text.to_string(),
        done: false,
        url: None,
        due_date: None,
        priority: None,
        in_progress: false,
        blocked: false,
    }
}

#[test]
fn check_marks_and_priority_tags() {
    assert_eq!(check_mark(true, true, true), "[x]");
    assert_eq!(check_mark(false, true, false), "[~]");
    assert_eq!(check_mark(false, false, true), "[\u{2298}]");
    assert_eq!(check_mark(false, false, false), "[ ]");
    assert_eq!(priority_tag(Some(1)), "[!!] ");
    assert_eq!(priority_tag(Some(2)), "[!] ");
    assert_eq!(priority_tag(Some(3)), "[.] ");
    assert_eq!(priority_tag(None), "");
    assert_eq!(priority_tag(Some(9)), "");
}

#[test]
fn due_badges_in_rows() {
    assert_eq!(due_badge(&Some("2026-04-09".to_string()), today()), Some(("[tmrw] ".to_string(), DueColor::Yellow)));
    assert_eq!(due_badge(&Some("2026-04-01".to_string()), today()), Some(("[\u{26a0} 7d ago] ".to_string(), DueColor::Red)));
    assert_eq!(due_badge(&Some("soon".to_string()), today()), None);
    assert_eq!(due_badge(&None, today()), None);
}

#[test]
fn todo_rows_fit_their_width() {
    let mut t = row_todo("Review https://x.y/z now");
    t.url = Some("https://x.y/z".to_string());
    assert_eq!(todo_row_text(&t, 30, today()), "Review now");
    assert_eq!(todo_row_text(&t, 20, today()), "R\u{2026}");
    assert_eq!(todo_row_text(&t, 5, today()), "\u{2026}");
    let mut p = row_todo("abcdefghij");
    p.priority = Some(1);
    p.due_date = Some("2026-04-08".to_string());
    // 12 + "[!!] " (5) + "[today] " (8) = 25 columns taken.
    assert_eq!(todo_row_text(&p, 30, today()), "abcd\u{2026}");
    assert_eq!(todo_row_text(&p, 40, today()), "abcdefghij");
}

#[test]
fn briefing_rows_fit_their_width() {
    let t = row_todo("abcdefghij");
    // 2 + 4 + 2 + "Work" (4) = 12 columns taken.
    assert_eq!(briefing_row_text(&t, "Work", 20, today()), "abcdefg\u{2026}");
    assert_eq!(briefing_row_text(&t, "Work", 22, today()), "abcdefghij");
    assert_eq!(section_heading(BriefingSection::MustDo), "\u{26a1} Must Do");
    assert_eq!(section_heading(BriefingSection::Waiting), "\u{2298} Waiting");
}

#[test]
fn topic_counts() {
    assert_eq!(count_label(-1, 3, 0), (" [3]".to_string(), false));
    assert_eq!(count_label(5, 4, 4), (" [4/4]".to_string(), true));
    assert_eq!(count_label(5, 0, 0), (" [0/0]".to_string(), false));
    assert_eq!(count_label(5, 4, 1), (" [1/4]".to_string(), false));
    assert_eq!(count_totals(&vec![(5, 3, 1), (-1, 9, 9), (6, 2, 2)]), Some((3, 5)));
    assert_eq!(count_totals(&vec![]), Some((0, 0)));
    assert_eq!(count_totals(&vec![(1, i64::MAX, 0), (2, 1, 0)]), None);
    assert_eq!(count_totals(&vec![(-1, i64::MAX, 0), (2, 1, 0)]), Some((0, 1)));
}

#[test]
fn separator_between_views_and_topics() {
    let topics: Vec<Topic> = [-1i64, -2, -3, 5, 6].iter().map(|&id| Topic { id, name: String::new() }).collect();
    assert_eq!(separator_row(&topics), Some(3));
    assert_eq!(list_row(&topics, 2), 2);
    assert_eq!(list_row(&topics, 3), 4);
    let views_only: Vec<Topic> = [-1i64, -2].iter().map(|&id| Topic { id, name: String::new() }).collect();
    assert_eq!(separator_row(&views_only), None);
    assert_eq!(list_row(&views_only, 1), 1);
}

#[test]
fn typed_line_split_at_cursor() {
    assert_eq!(cursor_parts("h\u{e9}llo", 1), ("h".to_string(), "\u{e9}".to_string(), "llo".to_string()));
    assert_eq!(cursor_parts("ab", 5), ("ab".to_string(), "_".to_string(), String::new()));
    assert_eq!(cursor_parts("", 0), (String::new(), "_".to_string(), String::new()));
    assert_eq!(field_top(25, 2, 10), 1);
    assert_eq!(field_top(5, 2, 10), 0);
    assert_eq!(field_top(25, 2, 0), 0);
}

#[test]
fn search_rows_fit_their_width() {
    let t = row_todo("abcdefghij");
    // 32 columns taken besides the text.
    assert_eq!(search_row_text(&t, 40, today()), "abcdefg\u{2026}");
    assert_eq!(search_row_text(&t, 42, today()), "abcdefghij");
}

#[test]
fn overdue_digest_lines() {
    let mut t = row_todo("Pay rent");
    t.due_date = Some("2026-04-05".to_string());
    t.priority = Some(2);
    assert_eq!(digest_line(&t, "Home", today()), "  3d ago !2  [Home]  Pay rent");
    t.due_date = Some("garbled".to_string());
    t.priority = None;
    assert_eq!(digest_line(&t, "Home", today()), "  0d ago  [Home]  Pay rent");
}
