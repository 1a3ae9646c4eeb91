use todoroc::app::{BriefingItem, BriefingSection};
use todoroc::briefing::{briefing_items, briefing_score, compute_scroll, count_content_rows, find_selected_line, plan_briefing, section};
use todoroc::github::{contains_number, needs_state_check, pr_number, state_is_open, PrItem, Repo};
use todoroc::jira::{site_base_from_config, Fields, JiraIssue, Status, StatusCategory};
use todoroc::models::Todo;
use todoroc::due_date::DueColor;
use todoroc::rows::{briefing_lines, BriefingLine};
use todoroc::sync::SyncKind;
use todoroc::schema::{detect_legacy_version, LegacySchema};
use todoroc::search::pick_search_results;

fn day(y: i32, m: u32, d: u32) -> i32 {
    match todoroc::due_date::parse(&format!("{:04}-{:02}-{:02}", y, m, d), 1) {
        todoroc::due_date::DueParse::Date(n) => n,
        _ => panic!("not a date"),
    }
}

fn today() -> i32 {
    day(2026, 4, 8)
}

fn todo(id: i64, text: &str) -> Todo {
    Todo {
        id,
        topic_id: 1,
        text: text.to_string(),
        done: false,
        url: None,
        due_date: None,
        priority: None,
        in_progress: false,
        blocked: false,
    }
}

fn issue(key: &str, summary: &str, category: &str) -> JiraIssue {
    JiraIssue {
        key: key.to_string(),
        fields: Fields {
            summary: summary.to_string(),
            status: Status { status_category: StatusCategory { key: category.to_string() } },
        },
    }
}

fn pr(number: u64, title: &str, state: &str) -> PrItem {
    PrItem { number, title: title.to_string(), state: state.to_string(), repository: Repo { name_with_owner: "acme/app".to_string() } }
}

#[test]
fn jira_issues_become_todos() {
    let i = issue("ABC-12", "Fix login", "done");
    assert_eq!(i.browse_url("https://acme.atlassian.net"), "https://acme.atlassian.net/browse/ABC-12");
    assert!(i.is_done());
    assert!(!issue("ABC-13", "x", "indeterminate").is_done());
    assert_eq!(i.todo_prefix(), "ABC-12 ");
    assert_eq!(i.todo_text(), "ABC-12 Fix login");
}

#[test]
fn jira_site_comes_from_the_config() {
    let config = "current_profile: work\nprofiles:\n  - site: \"acme.atlassian.net\"\n    email: me@acme\n";
    assert_eq!(site_base_from_config(config), Some("https://acme.atlassian.net".to_string()));
    assert_eq!(site_base_from_config("site: 'x.example'\r\nsite: y"), Some("https://x.example".to_string()));
    assert_eq!(site_base_from_config("site:   \nsite: later.example"), Some("https://later.example".to_string()));
    assert_eq!(site_base_from_config("no sites here"), None);
    assert_eq!(site_base_from_config(""), None);
}

#[test]
fn pull_requests_become_todos() {
    let p = pr(42, "Add cache", "OPEN");
    assert_eq!(p.todo_prefix(), "#42 ");
    assert_eq!(p.todo_text(), "#42 Add cache [acme/app]");
    assert_eq!(p.url(), "https://github.com/acme/app/pull/42");
    assert!(!p.is_done());
    assert!(pr(1, "x", "MERGED").is_done());
    assert!(state_is_open("Open"));
    assert!(!state_is_open("closed"));
}

#[test]
fn pr_numbers_are_read_from_todo_texts() {
    assert_eq!(pr_number("#42 Add cache [acme/app]"), Some(42));
    assert_eq!(pr_number("#7"), Some(7));
    assert_eq!(pr_number("42 no hash"), None);
    assert_eq!(pr_number("#x12 title"), None);
    assert_eq!(pr_number("#"), None);
    assert!(contains_number(&vec![3, 42], 42));
    assert!(!contains_number(&vec![3], 42));
}

#[test]
fn closed_prs_are_checked() {
    let mut t = todo(1, "#42 Add cache [acme/app]");
    t.url = Some("https://github.com/acme/app/pull/42".to_string());
    assert!(needs_state_check(&t, &vec![1, 2]));
    assert!(!needs_state_check(&t, &vec![42]));
    let mut done = todo(2, "#43 x");
    done.done = true;
    done.url = Some("u".to_string());
    assert!(!needs_state_check(&done, &vec![]));
    let no_url = todo(3, "#44 x");
    assert!(!needs_state_check(&no_url, &vec![]));
    let mut empty_url = todo(4, "#45 x");
    empty_url.url = Some(String::new());
    assert!(!needs_state_check(&empty_url, &vec![]));
    let mut not_pr = todo(5, "plain");
    not_pr.url = Some("u".to_string());
    assert!(!needs_state_check(&not_pr, &vec![]));
}

#[test]
fn legacy_schemas_map_to_versions() {
    let none = LegacySchema {
        todos_table: false,
        todos_url: false,
        todos_due_date: false,
        todos_priority: false,
        todos_in_progress: false,
        todos_started_at: false,
        todos_completed_at: false,
        comments_table: false,
        comments_url: false,
        topics_sort_order: false,
    };
    assert_eq!(detect_legacy_version(&none), 0);
    let base = LegacySchema { todos_table: true, ..none };
    assert_eq!(detect_legacy_version(&base), 1);
    assert_eq!(detect_legacy_version(&LegacySchema { todos_url: true, ..base }), 2);
    assert_eq!(detect_legacy_version(&LegacySchema { todos_priority: true, ..base }), 4);
    assert_eq!(detect_legacy_version(&LegacySchema { comments_table: true, todos_url: true, ..base }), 8);
    assert_eq!(detect_legacy_version(&LegacySchema { topics_sort_order: true, ..base }), 10);
    assert_eq!(detect_legacy_version(&LegacySchema { topics_sort_order: true, ..none }), 0);
}

#[test]
fn search_results_are_picked() {
    let mut ranked: Vec<Todo> = Vec::new();
    for i in 0..10 {
        let mut t = todo(i, "t");
        t.done = i % 2 == 1;
        ranked.push(t);
    }
    let hits = vec![todo(3, "dup"), todo(100, "new"), todo(8, "dup")];
    let pick = pick_search_results(&ranked, &hits);
    assert_eq!(pick.ranked, vec![0, 2, 4, 6, 8, 1, 3, 5, 7, 9]);
    assert_eq!(pick.extra, vec![1]);
    let many: Vec<Todo> = (0..20).map(|i| todo(i, "u")).collect();
    let pick2 = pick_search_results(&many, &vec![todo(15, "late")]);
    assert_eq!(pick2.ranked, vec![0, 1, 2, 3, 4, 5, 6]);
    assert_eq!(pick2.extra, vec![0]);
}

#[test]
fn briefing_scores_rank_urgency_and_priority() {
    let mut t = todo(1, "x");
    assert_eq!(briefing_score(&t, today()), 0);
    t.due_date = Some("2026-04-08".to_string());
    assert_eq!(briefing_score(&t, today()), 10);
    t.due_date = Some("2026-04-09".to_string());
    assert_eq!(briefing_score(&t, today()), 7);
    t.due_date = Some("2026-04-11".to_string());
    assert_eq!(briefing_score(&t, today()), 5);
    t.due_date = Some("2026-04-14".to_string());
    assert_eq!(briefing_score(&t, today()), 3);
    t.due_date = Some("2026-04-21".to_string());
    assert_eq!(briefing_score(&t, today()), 1);
    t.due_date = Some("2026-05-21".to_string());
    assert_eq!(briefing_score(&t, today()), 0);
    t.due_date = Some("2026-04-05".to_string());
    assert_eq!(briefing_score(&t, today()), 13);
    t.due_date = Some("2025-01-01".to_string());
    assert_eq!(briefing_score(&t, today()), 25);
    t.due_date = None;
    t.priority = Some(1);
    t.in_progress = true;
    assert_eq!(briefing_score(&t, today()), 13);
    t.priority = Some(2);
    assert_eq!(briefing_score(&t, today()), 9);
}

#[test]
fn briefing_sections() {
    let mut blocked = todo(1, "b");
    blocked.blocked = true;
    blocked.priority = Some(1);
    assert_eq!(section(&blocked, today()), BriefingSection::Waiting);
    let mut high = todo(2, "h");
    high.priority = Some(1);
    assert_eq!(section(&high, today()), BriefingSection::MustDo);
    let mut overdue = todo(3, "o");
    overdue.due_date = Some("2026-04-01".to_string());
    assert_eq!(section(&overdue, today()), BriefingSection::MustDo);
    let mut flying = todo(4, "f");
    flying.in_progress = true;
    assert_eq!(section(&flying, today()), BriefingSection::InFlight);
    let mut later = todo(5, "l");
    later.due_date = Some("2026-04-20".to_string());
    assert_eq!(section(&later, today()), BriefingSection::Recommended);
    let mut due_today = todo(6, "t");
    due_today.due_date = Some("2026-04-08".to_string());
    assert_eq!(section(&due_today, today()), BriefingSection::Recommended);
}

#[test]
fn briefing_plan_caps_sections() {
    let mut todos: Vec<Todo> = Vec::new();
    for i in 0..6 {
        let mut t = todo(i, "must");
        t.due_date = Some(format!("2026-04-0{}", 8 - i));
        todos.push(t);
    }
    let mut b = todo(10, "blocked");
    b.blocked = true;
    todos.push(b);
    let mut f = todo(11, "flying");
    f.in_progress = true;
    todos.push(f);
    todos.push(todo(12, "plain"));
    let plan = plan_briefing(&todos, today());
    assert_eq!(plan.must_do, vec![5, 4, 3, 2]);
    assert_eq!(plan.in_flight, vec![7]);
    assert_eq!(plan.candidates, vec![0, 8]);
    assert_eq!(plan.waiting, vec![6]);
}

#[test]
fn briefing_layout_rows() {
    let s = vec![BriefingSection::MustDo, BriefingSection::MustDo, BriefingSection::InFlight, BriefingSection::Waiting];
    assert_eq!(count_content_rows(&s), 2 + 1 + 3 + 3);
    assert_eq!(find_selected_line(&s, 0), 1);
    assert_eq!(find_selected_line(&s, 1), 2);
    assert_eq!(find_selected_line(&s, 2), 5);
    assert_eq!(find_selected_line(&s, 9), 9);
    assert_eq!(compute_scroll(3, 10), 0);
    assert_eq!(compute_scroll(12, 10), 7);
}

#[test]
fn briefing_items_follow_the_sections() {
    let todos = vec![todo(1, "a"), todo(2, "b"), todo(3, "c"), todo(4, "d")];
    let names = vec!["W".to_string(), "X".to_string(), "Y".to_string(), "Z".to_string()];
    let items = briefing_items(&todos, &names, &vec![2], &vec![0], &vec![3, 1], &vec![]);
    let got: Vec<(i64, &str, BriefingSection)> =
        items.iter().map(|i| (i.todo.id, i.topic_name.as_str(), i.section)).collect();
    assert_eq!(
        got,
        vec![
            (3, "Y", BriefingSection::MustDo),
            (1, "W", BriefingSection::InFlight),
            (4, "Z", BriefingSection::Recommended),
            (2, "X", BriefingSection::Recommended),
        ]
    );
}

#[test]
fn briefing_lines_show_sections_and_cursor() {
    let item = |t: Todo, sec: BriefingSection| BriefingItem { todo: t, topic_name: "  Work".to_string(), section: sec };
    let mut linked = todo(2, "see https://x.io now");
    linked.url = Some("https://x.io".to_string());
    linked.priority = Some(1);
    linked.due_date = Some("2026-04-08".to_string());
    linked.in_progress = true;
    let items = vec![
        item(todo(1, "first"), BriefingSection::MustDo),
        item(linked, BriefingSection::MustDo),
        item(todo(3, "stuck"), BriefingSection::Waiting),
    ];
    let lines = briefing_lines(&items, 1, 80, today());
    assert_eq!(lines.len(), 6);
    let sections: Vec<BriefingSection> = items.iter().map(|i| i.section).collect();
    assert_eq!(lines.len(), count_content_rows(&sections));
    assert!(matches!(&lines[0], BriefingLine::Heading(h) if h == "  \u{26a1} Must Do"));
    assert!(matches!(&lines[1], BriefingLine::Item { index: 0, marker, check, priority, badge: None, text, link, topic }
        if marker == "  " && check == "[ ] " && priority.is_empty() && text == "first" && link.is_empty() && topic == "  Work"));
    assert!(matches!(&lines[2], BriefingLine::Item { index: 1, marker, check, priority, badge: Some((b, DueColor::Cyan)), text, link, .. }
        if marker == "> " && check == "[~] " && priority == "[!!] " && b == "[today] " && text == "see now" && link == " \u{2197}"));
    assert!(matches!(&lines[3], BriefingLine::Blank));
    assert!(matches!(&lines[4], BriefingLine::Heading(h) if h == "  \u{2298} Waiting"));
    assert!(matches!(&lines[5], BriefingLine::Item { index: 2, marker, .. } if marker == "  "));
    assert_eq!(find_selected_line(&sections, 1), 2);
}

#[test]
fn only_a_full_sync_reindexes() {
    assert!(SyncKind::Full.runs_reindex());
    assert!(!SyncKind::GitHub.runs_reindex());
    assert!(!SyncKind::Jira.runs_reindex());
}
