use todoroc::app::{
    BriefingItem, BriefingSection, CommentEdit, SearchStart, DetailOutcome, DueConfirm, build_embed_text, extract_priority, extract_url, new_todo_input, topic_list, virtual_topics, App,
    AppInfo, DetailField, Focus, TodoSort,
};
use todoroc::models::{Todo, Topic};
use todoroc::sync::{SyncKind, SyncMsg};

fn topic(id: i64, name: &str) -> Topic {
    Topic { id, name: name.to_string() }
}

fn todo(id: i64, topic_id: i64, text: &str) -> Todo {
    Todo {
        id,
        topic_id,
        text: text.to_string(),
        done: false,
        url: None,
        due_date: None,
        priority: None,
        in_progress: false,
        blocked: false,
    }
}

fn info() -> AppInfo {
    AppInfo { db_path: "db".to_string(), model_dir: "model".to_string(), model_name: "none".to_string() }
}

fn ids(todos: &[Todo]) -> Vec<i64> {
    todos.iter().map(|t| t.id).collect()
}

#[test]
fn priority_tags_are_taken_out() {
    assert_eq!(extract_priority("Fix bug !1"), ("Fix bug".to_string(), Some(1)));
    assert_eq!(extract_priority("!2 write   docs"), ("write docs".to_string(), Some(2)));
    assert_eq!(extract_priority("a !1 b !3"), ("a b".to_string(), Some(3)));
    assert_eq!(extract_priority("plain text"), ("plain text".to_string(), None));
    assert_eq!(extract_priority("!4 stays"), ("!4 stays".to_string(), None));
    assert_eq!(extract_priority(""), ("".to_string(), None));
}

#[test]
fn priority_extraction_is_idempotent() {
    for text in ["Fix bug !1", "  a !1\tb  !3 c ", "!2", "plain   words", ""] {
        let (once, _) = extract_priority(text);
        assert_eq!(extract_priority(&once), (once.clone(), None));
    }
}

#[test]
fn first_link_is_found() {
    assert_eq!(extract_url("see https://example.com/a?b=1 now"), Some("https://example.com/a?b=1".to_string()));
    assert_eq!(extract_url("(http://x.org/path)."), None);
    assert_eq!(extract_url("go https://x.org/path) ok"), Some("https://x.org/path".to_string()));
    assert_eq!(extract_url("go https://x.org/path). ok"), Some("https://x.org/path).".to_string()));
    assert_eq!(extract_url("go http://x.org/path ok"), None);
    assert_eq!(extract_url("http://a.com https://b.com"), Some("https://b.com".to_string()));
    assert_eq!(extract_url("\"https://a.b/c\""), None);
    assert_eq!(extract_url("no links"), None);
    assert_eq!(extract_url("ftp://x https://y.z/"), Some("https://y.z/".to_string()));
}

#[test]
fn new_todo_lines_are_read() {
    let input = new_todo_input("Review !1 https://github.com/o/r/pull/7");
    assert_eq!(input.text, "Review https://github.com/o/r/pull/7");
    assert_eq!(input.priority, Some(1));
    assert_eq!(input.url, Some("https://github.com/o/r/pull/7".to_string()));
}

#[test]
fn embed_text_joins_comments() {
    assert_eq!(build_embed_text("todo", &vec![]), "todo");
    assert_eq!(build_embed_text("todo", &vec!["a".to_string(), "b".to_string()]), "todo\na\nb");
}

#[test]
fn detail_fields_in_tab_order() {
    assert_eq!(DetailField::Text.next(0), DetailField::Priority);
    assert_eq!(DetailField::Url.next(0), DetailField::NewComment);
    assert_eq!(DetailField::NewComment.next(0), DetailField::Text);
    assert_eq!(DetailField::NewComment.next(2), DetailField::ExistingComment(0));
    assert_eq!(DetailField::ExistingComment(1).next(2), DetailField::Text);
    assert_eq!(DetailField::Text.prev(2), DetailField::ExistingComment(1));
    assert_eq!(DetailField::Text.prev(0), DetailField::NewComment);
    assert_eq!(DetailField::ExistingComment(0).prev(2), DetailField::NewComment);
    for n in 0..3usize {
        let mut fields = vec![DetailField::Text, DetailField::Priority, DetailField::Due, DetailField::Url, DetailField::NewComment];
        for i in 0..n {
            fields.push(DetailField::ExistingComment(i));
        }
        for f in fields {
            assert_eq!(f.next(n).prev(n), f);
            assert_eq!(f.prev(n).next(n), f);
        }
    }
}

#[test]
fn bucketed_sort_orders_todos() {
    let mut a = todo(1, 10, "plain");
    a.done = true;
    let b = todo(2, 10, "plain undone");
    let mut c = todo(3, 10, "due later");
    c.due_date = Some("2026-05-01".to_string());
    let mut d = todo(4, 10, "due sooner");
    d.due_date = Some("2026-04-10".to_string());
    let mut e = todo(5, 10, "low");
    e.priority = Some(3);
    let mut f = todo(6, 10, "high");
    f.priority = Some(1);
    let mut list = vec![a, b, c, d, e, f];
    TodoSort::Bucketed.apply(&mut list);
    assert_eq!(ids(&list), vec![6, 5, 4, 3, 2, 1]);
    let mut flat = vec![todo(3, 1, "c"), todo(1, 1, "a"), todo(2, 1, "b")];
    TodoSort::Flat.apply(&mut flat);
    assert_eq!(ids(&flat), vec![3, 1, 2]);
    assert_eq!(TodoSort::Bucketed.toggled(), TodoSort::Flat);
    assert_eq!(TodoSort::Flat.toggled(), TodoSort::Bucketed);
}

#[test]
fn bucketed_sort_is_stable() {
    let list_ids = vec![7, 3, 9, 1];
    let mut list: Vec<Todo> = list_ids.iter().map(|&i| todo(i, 1, "same")).collect();
    TodoSort::Bucketed.apply(&mut list);
    assert_eq!(ids(&list), list_ids);
}

#[test]
fn built_in_views_come_first() {
    let v = virtual_topics();
    let names: Vec<&str> = v.iter().map(|t| t.name.as_str()).collect();
    assert_eq!(names, vec!["\u{1f504} In Progress", "\u{2705} Completed", "\u{1f4c5} Due This Week"]);
    assert_eq!(v.iter().map(|t| t.id).collect::<Vec<_>>(), vec![-1, -2, -3]);
    let shown = topic_list(true, vec![topic(5, "Work")]);
    assert_eq!(shown.iter().map(|t| t.id).collect::<Vec<_>>(), vec![-1, -2, -3, 5]);
    let hidden = topic_list(false, vec![topic(5, "Work")]);
    assert_eq!(hidden.iter().map(|t| t.id).collect::<Vec<_>>(), vec![5]);
}

#[test]
fn app_starts_on_in_progress() {
    let app = App::new(vec![topic(5, "Work")], vec![todo(1, 5, "a")], info());
    assert_eq!(app.topics.len(), 4);
    assert_eq!(app.topics[3].id, 5);
    assert_eq!(app.selected_topic, 0);
    assert_eq!(app.selected_topic_id(), Some(-1));
    assert!(app.is_virtual_topic());
    assert_eq!(app.focus, Focus::Topics);
    assert_eq!(app.todos.len(), 1);
    assert_eq!(app.last_topic_id, Some(-1));
}

#[test]
fn cursor_memory_restores_position() {
    let mut app = App::new(vec![topic(5, "Work"), topic(6, "Home")], vec![], info());
    app.selected_topic = 3;
    app.reload_todos(vec![todo(1, 5, "a"), todo(2, 5, "b"), todo(3, 5, "c")]);
    app.selected_todo = 2;
    app.selected_topic = 4;
    app.reload_todos(vec![todo(4, 6, "d")]);
    assert_eq!(app.selected_todo, 0);
    app.selected_topic = 3;
    app.reload_todos(vec![todo(1, 5, "a"), todo(2, 5, "b"), todo(3, 5, "c")]);
    assert_eq!(app.selected_todo, 2);
    // A shorter list keeps the cursor inside it.
    app.selected_topic = 4;
    app.reload_todos(vec![todo(4, 6, "d")]);
    app.selected_topic = 3;
    app.reload_todos(vec![todo(1, 5, "a")]);
    assert_eq!(app.selected_todo, 0);
}

#[test]
fn hiding_views_keeps_a_stored_topic_selected() {
    let mut app = App::new(vec![topic(5, "Work"), topic(6, "Home")], vec![], info());
    app.selected_topic = 4;
    app.toggle_virtual_topics(vec![topic(5, "Work"), topic(6, "Home")]);
    assert!(!app.show_virtual_topics);
    assert_eq!(app.topics.len(), 2);
    assert_eq!(app.selected_topic_id(), Some(6));
    app.toggle_virtual_topics(vec![topic(5, "Work"), topic(6, "Home")]);
    assert_eq!(app.selected_topic_id(), Some(6));
    // A hidden view falls back to the first stored topic.
    app.selected_topic = 1;
    app.toggle_virtual_topics(vec![topic(5, "Work"), topic(6, "Home")]);
    assert_eq!(app.selected_topic_id(), Some(5));
}

#[test]
fn sort_toggle_keeps_the_selected_todo() {
    let mut app = App::new(vec![], vec![], info());
    let mut hi = todo(2, 1, "high");
    hi.priority = Some(1);
    app.reload_todos(vec![todo(1, 1, "plain"), hi]);
    assert_eq!(ids(&app.todos), vec![2, 1]);
    app.selected_todo = 1;
    let mut hi2 = todo(2, 1, "high");
    hi2.priority = Some(1);
    app.toggle_todo_sort(vec![todo(1, 1, "plain"), hi2]);
    assert_eq!(app.todo_sort, TodoSort::Flat);
    assert_eq!(ids(&app.todos), vec![1, 2]);
    assert_eq!(app.selected_todo, 0);
}

#[test]
fn editing_keeps_the_old_link() {
    let mut app = App::new(vec![], vec![], info());
    let mut t = todo(9, 1, "old");
    t.url = Some("https://old.example".to_string());
    t.done = true;
    app.reload_todos(vec![t]);
    let (id, input, done) = app.todo_edit("new text !2").unwrap();
    assert_eq!((id, done), (9, true));
    assert_eq!(input.text, "new text");
    assert_eq!(input.priority, Some(2));
    assert_eq!(input.url, Some("https://old.example".to_string()));
    let (_, input2, _) = app.todo_edit("see https://new.example").unwrap();
    assert_eq!(input2.url, Some("https://new.example".to_string()));
}

#[test]
fn move_targets_exclude_the_current_topic() {
    let mut app = App::new(vec![topic(5, "Work"), topic(6, "Home"), topic(7, "Misc")], vec![], info());
    app.selected_topic = 3;
    app.reload_todos(vec![todo(1, 5, "a")]);
    let targets: Vec<i64> = app.move_popup_topics().iter().map(|t| t.id).collect();
    assert_eq!(targets, vec![6, 7]);
    app.open_move_popup();
    assert!(app.move_popup);
    app.move_popup_selected = 1;
    assert_eq!(app.move_target(), Some((1, 7)));
}

#[test]
fn nowhere_to_move_is_reported() {
    let mut app = App::new(vec![topic(5, "Work")], vec![], info());
    app.selected_topic = 3;
    app.reload_todos(vec![todo(1, 5, "a")]);
    app.open_move_popup();
    assert!(!app.move_popup);
    assert_eq!(app.status_message.as_deref(), Some("No other topics to move to"));
}

#[test]
fn topics_reorder_among_stored_topics() {
    let mut app = App::new(vec![topic(5, "Work"), topic(6, "Home")], vec![], info());
    app.selected_topic = 3;
    assert_eq!(app.reorder_target(true), None);
    assert_eq!(app.reorder_target(false), Some((5, 6)));
    app.selected_topic = 4;
    assert_eq!(app.reorder_target(true), Some((6, 5)));
    app.selected_topic = 0;
    assert_eq!(app.reorder_target(false), None);
}

#[test]
fn delete_confirmation_labels() {
    let mut app = App::new(vec![topic(5, "Work")], vec![], info());
    app.selected_topic = 3;
    app.confirm_delete = Some(Focus::Topics);
    assert_eq!(app.delete_confirm_label(), "Delete topic \"Work\"?");
    let long = "x".repeat(45);
    app.reload_todos(vec![todo(1, 5, &long)]);
    app.confirm_delete = Some(Focus::Todos);
    assert_eq!(app.delete_confirm_label(), format!("Delete \"{}\u{2026}\"?", "x".repeat(40)));
    app.confirm_delete = None;
    assert_eq!(app.delete_confirm_label(), "Delete?");
}

#[test]
fn sync_status_follows_messages() {
    let mut app = App::new(vec![], vec![], info());
    app.start_sync(SyncKind::GitHub);
    assert!(app.sync_running);
    assert_eq!(app.sync_status.as_ref().unwrap().message, "Starting GitHub  (PRs & reviews)\u{2026}");
    let done = app.poll_sync(vec![SyncMsg::Status("pulling".to_string())]);
    assert!(!done);
    assert_eq!(app.sync_status.as_ref().unwrap().message, "pulling");
    assert_eq!(app.sync_status.as_ref().unwrap().spinner_frame, 1);
    let done = app.poll_sync(vec![SyncMsg::Done]);
    assert!(done);
    assert!(!app.sync_running);
    let st = app.sync_status.as_ref().unwrap();
    assert!(st.done && !st.error);
    assert_eq!(st.message, "Sync complete \u{2713}");
    assert_eq!(st.done_frames, 29);
    for _ in 0..29 {
        app.poll_sync(vec![]);
    }
    assert!(app.sync_status.is_none());
}

#[test]
fn sync_errors_are_shown_longer() {
    let mut app = App::new(vec![], vec![], info());
    app.start_sync(SyncKind::Jira);
    let done = app.poll_sync(vec![SyncMsg::Error("boom".to_string())]);
    assert!(!done);
    assert!(!app.sync_running);
    let st = app.sync_status.as_ref().unwrap();
    assert!(st.error);
    assert_eq!(st.message, "Sync error: boom");
    assert_eq!(st.done_frames, 49);
}

#[test]
fn sync_menu_rows_and_labels() {
    assert_eq!(SyncKind::from_menu_row(0), SyncKind::Full);
    assert_eq!(SyncKind::from_menu_row(1), SyncKind::GitHub);
    assert_eq!(SyncKind::from_menu_row(5), SyncKind::Jira);
    assert_eq!(SyncKind::Full.label(), "Full  (GitHub + Jira)");
    assert_eq!(SyncKind::Jira.label(), "Jira  (sprint & backlog)");
    assert!(SyncKind::Full.runs_github() && SyncKind::Full.runs_jira());
    assert!(SyncKind::GitHub.runs_github() && !SyncKind::GitHub.runs_jira());
    assert!(!SyncKind::Jira.runs_github() && SyncKind::Jira.runs_jira());
}

#[test]
fn sync_menu_refuses_a_second_sync() {
    let mut app = App::new(vec![], vec![], info());
    app.open_sync_popup();
    assert!(app.sync_popup);
    app.start_sync(SyncKind::Full);
    assert!(!app.sync_popup);
    app.open_sync_popup();
    assert!(!app.sync_popup);
    assert_eq!(app.status_message.as_deref(), Some("Sync already in progress"));
}

#[test]
fn toggling_advances_the_cursor() {
    let mut app = App::new(vec![], vec![], info());
    app.reload_todos(vec![todo(1, 1, "a"), todo(2, 1, "b")]);
    app.finish_toggle(false, true, false);
    assert!(app.todos[0].in_progress);
    assert_eq!(app.selected_todo, 1);
    app.finish_toggle(false, false, true);
    assert!(app.todos[1].blocked);
    assert_eq!(app.selected_todo, 1);
}

fn comment(id: i64, text: &str) -> todoroc::models::Comment {
    todoroc::models::Comment { id, text: text.to_string(), url: None, created_at: "2026-04-01T10:00:00Z".to_string() }
}

fn wednesday() -> i32 {
    match todoroc::due_date::parse("2026-04-08", 1) {
        todoroc::due_date::DueParse::Date(d) => d,
        _ => panic!("not a date"),
    }
}

#[test]
fn focus_stays_on_a_comment_after_deletes() {
    let mut app = App::new(vec![], vec![], info());
    app.reload_todos(vec![todo(1, 1, "a")]);
    app.open_detail(None, None, None, vec![comment(7, "x"), comment(8, "y")]);
    app.focus_detail_field(DetailField::ExistingComment(1));
    assert_eq!(app.selected_comment(), Some((1, 8)));
    app.remove_comment(1);
    assert_eq!(app.detail.as_ref().unwrap().field, DetailField::ExistingComment(0));
    app.remove_comment(0);
    let d = app.detail.as_ref().unwrap();
    assert_eq!(d.field, DetailField::NewComment);
    assert!(d.comments.is_empty());
}

#[test]
fn blank_comment_edits_delete() {
    let mut app = App::new(vec![], vec![], info());
    app.reload_todos(vec![todo(1, 1, "a")]);
    assert!(matches!(app.comment_edit(), CommentEdit::NotEditing));
    app.open_detail(None, None, None, vec![comment(7, "x")]);
    assert!(matches!(app.comment_edit(), CommentEdit::NotEditing));
    app.focus_detail_field(DetailField::ExistingComment(0));
    app.detail.as_mut().unwrap().comment_edit_text = "   ".to_string();
    assert!(matches!(app.comment_edit(), CommentEdit::Delete { index: 0, comment_id: 7 }));
    app.update_comment(0, "edited".to_string(), None);
    assert_eq!(app.detail.as_ref().unwrap().comments[0].text, "edited");
    assert!(app.new_comment().is_none());
}

#[test]
fn due_popup_outcomes() {
    let mut app = App::new(vec![], vec![], info());
    assert!(matches!(app.confirm_due_date(wednesday()), DueConfirm::NoTodo));
    app.reload_todos(vec![todo(1, 1, "a")]);
    app.open_due_popup();
    assert!(app.due_popup);
    app.due_input = "999999999d".to_string();
    assert!(matches!(app.confirm_due_date(wednesday()), DueConfirm::OutOfRange));
    app.due_input = "nope".to_string();
    assert!(matches!(app.confirm_due_date(wednesday()), DueConfirm::Rejected));
    app.due_input = String::new();
    assert!(matches!(app.confirm_due_date(wednesday()), DueConfirm::Save { todo_id: 1, due: None }));
    app.apply_due_date(None);
    assert!(!app.due_popup);
}

#[test]
fn detail_outcomes() {
    let mut app = App::new(vec![], vec![], info());
    assert!(matches!(app.confirm_detail(wednesday()), DetailOutcome::NotOpen));
    app.reload_todos(vec![todo(1, 1, "a")]);
    app.open_detail(None, None, None, vec![]);
    app.detail.as_mut().unwrap().due = "999999999d".to_string();
    assert!(matches!(app.confirm_detail(wednesday()), DetailOutcome::OutOfRange));
    app.detail.as_mut().unwrap().due = "tom".to_string();
    match app.confirm_detail(wednesday()) {
        DetailOutcome::Save(s) => {
            assert_eq!(s.due.as_deref(), Some("2026-04-09"));
            assert_eq!(s.url, None);
            assert_eq!(s.priority, None);
        }
        _ => panic!("expected the edits"),
    }
    app.close_detail();
    assert!(app.detail.is_none());
}

#[test]
fn briefing_changes_reach_the_list() {
    let mut app = App::new(vec![topic(5, "Work")], vec![todo(1, 5, "a"), todo(2, 5, "b")], info());
    let item = |t: Todo| BriefingItem { todo: t, topic_name: "Work".to_string(), section: BriefingSection::InFlight };
    app.set_briefing(vec![item(todo(2, 5, "b")), item(todo(1, 5, "a"))]);
    app.briefing_down();
    app.briefing_apply_state(1, true, false, false);
    assert!(app.briefing_items[1].todo.done);
    assert!(!app.briefing_items[0].todo.done);
    assert!(app.todos[0].done);
    assert!(!app.todos[1].done);
    app.briefing_apply_due(1, "2024-05-01".to_string());
    assert_eq!(app.briefing_items[1].todo.due_date, Some("2024-05-01".to_string()));
    assert_eq!(app.todos[0].due_date, Some("2024-05-01".to_string()));
    assert_eq!(app.todos[1].due_date, None);
    app.briefing_apply_state(9, false, true, false);
    assert!(app.briefing_items[1].todo.in_progress);
    assert!(!app.todos[0].in_progress);
}

#[test]
fn sync_polling_reports_completion() {
    let mut app = App::new(vec![topic(5, "Work")], vec![], info());
    app.start_sync(SyncKind::Full);
    assert!(!app.poll_sync(vec![SyncMsg::Status("working".to_string())]));
    assert!(app.sync_running);
    assert!(app.poll_sync(vec![SyncMsg::Done]));
    assert!(!app.sync_running);
    assert_eq!(app.topics.len(), 4);
}

#[test]
fn search_start_decisions() {
    let mut app = App::new(vec![topic(5, "Work")], vec![], info());
    app.search_results = vec![todo(1, 5, "a")];
    assert_eq!(app.begin_search(true), SearchStart::Cleared);
    assert!(app.search_results.is_empty());
    app.search_query = "deploy".to_string();
    assert_eq!(app.begin_search(false), SearchStart::Unavailable);
    assert_eq!(app.status_message.as_deref(), Some("Embedder not loaded \u{2014} search unavailable"));
    app.status_message = None;
    assert_eq!(app.begin_search(true), SearchStart::Run);
    assert_eq!(app.status_message, None);
}
