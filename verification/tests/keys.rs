use todoroc::app::{App, AppInfo, BriefingItem, BriefingSection, CommentEdit, DetailField, Focus, Mode, TodoSort};
use todoroc::input::{Effect, KeyCode, KeyPress, Layer};
use todoroc::models::{Comment, Todo, Topic};
use todoroc::sync::SyncKind;

fn day(y: i32, m: u32, d: u32) -> i32 {
    match todoroc::due_date::parse(&format!("{:04}-{:02}-{:02}", y, m, d), 1) {
        todoroc::due_date::DueParse::Date(n) => n,
        _ => panic!("not a date"),
    }
}

fn today() -> i32 {
    day(2026, 4, 8)
}

fn key(code: KeyCode) -> KeyPress {
    KeyPress { code, shift: false, control: false }
}

fn ch(c: char) -> KeyPress {
    key(KeyCode::Char(c))
}

fn press(app: &mut App, k: KeyPress) -> Effect {
    app.handle_key(k, today())
}

fn todo(id: i64, topic_id: i64, text: &str) -> Todo {
    Todo {
        id,
        topic_id,
        text: text.to_string(),
        done: false,
        url: None,
        due_date: None,
        priority: None,
        in_progress: false,
        blocked: false,
    }
}

fn comment(id: i64, text: &str) -> Comment {
    Comment { id, text: text.to_string(), url: None, created_at: "2026-04-01T10:00:00Z".to_string() }
}

/// A topic "Work" (id 5) selected, with two todos, the todo list focused.
fn app_on_work() -> App {
    let info = AppInfo { db_path: "db".to_string(), model_dir: "m".to_string(), model_name: "none".to_string() };
    let mut app = App::new(vec![Topic { id: 5, name: "Work".to_string() }, Topic { id: 6, name: "Home".to_string() }], vec![], info);
    app.selected_topic = 3;
    let mut b = todo(2, 5, "second");
    b.url = Some("https://example.com/2".to_string());
    b.due_date = Some("2026-04-10".to_string());
    app.todo_sort = TodoSort::Flat;
    app.reload_todos(vec![todo(1, 5, "first"), b]);
    app.focus = Focus::Todos;
    app
}

#[test]
fn status_line_clears_on_any_key() {
    let mut app = app_on_work();
    app.status_message = Some("old".to_string());
    press(&mut app, key(KeyCode::Other));
    assert!(app.status_message.is_none());
}

#[test]
fn quitting_asks_first() {
    let mut app = app_on_work();
    assert!(matches!(press(&mut app, ch('q')), Effect::Nothing));
    assert_eq!(app.layer(), Layer::ConfirmQuit);
    press(&mut app, ch('n'));
    assert!(!app.confirm_quit && !app.should_quit);
    press(&mut app, ch('q'));
    press(&mut app, key(KeyCode::Enter));
    assert!(app.should_quit);
}

#[test]
fn deleting_asks_first() {
    let mut app = app_on_work();
    press(&mut app, ch('d'));
    assert_eq!(app.confirm_delete, Some(Focus::Todos));
    assert!(matches!(press(&mut app, ch('y')), Effect::DeleteTodo));
    assert_eq!(app.confirm_delete, None);
    app.focus = Focus::Topics;
    press(&mut app, ch('d'));
    assert!(matches!(press(&mut app, key(KeyCode::Esc)), Effect::Nothing));
    assert_eq!(app.confirm_delete, None);
    press(&mut app, ch('d'));
    assert!(matches!(press(&mut app, key(KeyCode::Enter)), Effect::DeleteTopic));
}

#[test]
fn built_in_views_refuse_new_todos_and_deletes() {
    let mut app = app_on_work();
    app.selected_topic = 0;
    press(&mut app, ch('n'));
    assert_eq!(app.mode, Mode::Normal);
    assert_eq!(app.status_message.as_deref(), Some("Cannot add todos to virtual topics"));
    press(&mut app, ch('d'));
    assert_eq!(app.confirm_delete, None);
}

#[test]
fn focus_keys() {
    let mut app = app_on_work();
    press(&mut app, key(KeyCode::Tab));
    assert_eq!(app.focus, Focus::Topics);
    press(&mut app, key(KeyCode::BackTab));
    assert_eq!(app.focus, Focus::Todos);
    press(&mut app, ch('1'));
    assert_eq!(app.focus, Focus::Topics);
    press(&mut app, key(KeyCode::Right));
    assert_eq!(app.focus, Focus::Todos);
    press(&mut app, key(KeyCode::Left));
    assert_eq!(app.focus, Focus::Topics);
    press(&mut app, ch('i'));
    assert_eq!(app.layer(), Layer::Info);
    press(&mut app, ch('x'));
    assert!(!app.show_info);
}

#[test]
fn navigation_moves_the_cursor() {
    let mut app = app_on_work();
    press(&mut app, ch('j'));
    assert_eq!(app.selected_todo, 1);
    press(&mut app, key(KeyCode::Down));
    assert_eq!(app.selected_todo, 1);
    press(&mut app, KeyPress { code: KeyCode::Up, shift: true, control: false });
    assert_eq!(app.selected_todo, 0);
    app.focus = Focus::Topics;
    assert!(matches!(press(&mut app, ch('k')), Effect::ReloadTodos));
    assert_eq!(app.selected_topic, 2);
    assert!(matches!(press(&mut app, KeyPress { code: KeyCode::Down, shift: true, control: false }), Effect::ReloadTodos));
    assert_eq!(app.selected_topic, 4);
    assert!(matches!(press(&mut app, ch('j')), Effect::Nothing));
    assert_eq!(app.selected_topic, 4);
}

#[test]
fn typing_a_new_todo() {
    let mut app = app_on_work();
    press(&mut app, ch('n'));
    assert_eq!(app.layer(), Layer::Insert);
    for c in "Buy milk".chars() {
        press(&mut app, ch(c));
    }
    press(&mut app, key(KeyCode::Left));
    press(&mut app, key(KeyCode::Backspace));
    assert_eq!(app.input, "Buy mik");
    match press(&mut app, key(KeyCode::Enter)) {
        Effect::AddTodo(t) => assert_eq!(t, "Buy mik"),
        _ => panic!("expected a new todo"),
    }
    assert_eq!(app.mode, Mode::Normal);
    assert_eq!(app.input, "");
    press(&mut app, ch('n'));
    assert!(matches!(press(&mut app, key(KeyCode::Enter)), Effect::Nothing));
}

#[test]
fn editing_the_selected_topic() {
    let mut app = app_on_work();
    app.focus = Focus::Topics;
    press(&mut app, ch('e'));
    assert_eq!(app.input, "Work");
    assert_eq!(app.cursor_pos, 4);
    assert!(app.editing);
    press(&mut app, ch('!'));
    match press(&mut app, key(KeyCode::Enter)) {
        Effect::UpdateTopic(t) => assert_eq!(t, "Work!"),
        _ => panic!("expected a rename"),
    }
    assert!(!app.editing);
    press(&mut app, ch('e'));
    press(&mut app, key(KeyCode::Esc));
    assert_eq!(app.mode, Mode::Normal);
    assert_eq!(app.input, "");
}

#[test]
fn keys_on_the_selected_todo() {
    let mut app = app_on_work();
    assert!(matches!(press(&mut app, ch(' ')), Effect::ToggleTodo(1)));
    assert!(matches!(press(&mut app, key(KeyCode::Enter)), Effect::OpenDetail(1)));
    assert!(matches!(press(&mut app, ch('p')), Effect::SetPriority { todo_id: 1, priority: Some(1) }));
    assert!(matches!(press(&mut app, ch('s')), Effect::ToggleSort));
    assert!(matches!(press(&mut app, ch('o')), Effect::Nothing));
    assert_eq!(app.status_message.as_deref(), Some("No URL attached to this item"));
    app.selected_todo = 1;
    match press(&mut app, ch('o')) {
        Effect::OpenUrl(u) => assert_eq!(u, "https://example.com/2"),
        _ => panic!("expected a link"),
    }
    match press(&mut app, ch('+')) {
        Effect::Snooze { todo_id, date } => assert_eq!((todo_id, date.as_str()), (2, "2026-04-11")),
        _ => panic!("expected a snooze"),
    }
    match press(&mut app, ch('-')) {
        Effect::Snooze { todo_id, date } => assert_eq!((todo_id, date.as_str()), (2, "2026-04-09")),
        _ => panic!("expected a snooze"),
    }
    app.selected_todo = 0;
    match press(&mut app, ch('+')) {
        Effect::Snooze { date, .. } => assert_eq!(date, "2026-04-09"),
        _ => panic!("expected tomorrow"),
    }
    assert!(matches!(press(&mut app, ch('-')), Effect::Nothing));
}

#[test]
fn global_keys() {
    let mut app = app_on_work();
    assert!(matches!(press(&mut app, ch('D')), Effect::OpenBriefing));
    assert!(matches!(press(&mut app, ch('V')), Effect::ToggleVirtualTopics));
    app.focus = Focus::Topics;
    assert!(matches!(press(&mut app, ch('J')), Effect::SwapTopics { topic_id: 5, neighbor_id: 6 }));
    assert!(matches!(press(&mut app, ch('K')), Effect::Nothing));
    assert!(matches!(press(&mut app, ch('/')), Effect::SearchCancel));
    assert_eq!(app.layer(), Layer::Search);
}

#[test]
fn due_date_popup() {
    let mut app = app_on_work();
    app.selected_todo = 1;
    press(&mut app, ch('@'));
    assert_eq!(app.layer(), Layer::DuePopup);
    assert_eq!(app.due_input, "2026-04-10");
    for _ in 0..10 {
        press(&mut app, key(KeyCode::Backspace));
    }
    for c in "xyz".chars() {
        press(&mut app, ch(c));
    }
    assert!(matches!(press(&mut app, key(KeyCode::Enter)), Effect::Nothing));
    assert!(app.status_message.as_deref().unwrap().starts_with("Can't parse: 'xyz'"));
    assert!(app.due_popup);
    for _ in 0..3 {
        press(&mut app, key(KeyCode::Backspace));
    }
    for c in "fri".chars() {
        press(&mut app, ch(c));
    }
    match press(&mut app, key(KeyCode::Enter)) {
        Effect::SaveDue { todo_id, due } => assert_eq!((todo_id, due.as_deref()), (2, Some("2026-04-10"))),
        _ => panic!("expected a due date"),
    }
    app.apply_due_date(Some("2026-04-10".to_string()));
    assert!(!app.due_popup);
    press(&mut app, ch('@'));
    press(&mut app, key(KeyCode::Esc));
    assert!(!app.due_popup);
    assert_eq!(app.due_input, "");
}

#[test]
fn sync_menu_starts_the_chosen_sync() {
    let mut app = app_on_work();
    press(&mut app, ch('S'));
    assert_eq!(app.layer(), Layer::SyncMenu);
    press(&mut app, ch('j'));
    press(&mut app, key(KeyCode::Down));
    press(&mut app, key(KeyCode::Down));
    assert_eq!(app.sync_popup_selected, 2);
    press(&mut app, ch('k'));
    assert!(matches!(press(&mut app, key(KeyCode::Enter)), Effect::StartSync(SyncKind::GitHub)));
    assert!(app.sync_running && !app.sync_popup);
    press(&mut app, ch('S'));
    assert_eq!(app.status_message.as_deref(), Some("Sync already in progress"));
}

#[test]
fn move_popup_moves_the_todo() {
    let mut app = app_on_work();
    press(&mut app, ch('m'));
    assert_eq!(app.layer(), Layer::MovePopup);
    press(&mut app, key(KeyCode::Down));
    assert_eq!(app.move_popup_selected, 0);
    assert!(matches!(press(&mut app, key(KeyCode::Enter)), Effect::MoveTodo { todo_id: 1, topic_id: 6 }));
    assert!(!app.move_popup);
}

#[test]
fn search_overlay_keys() {
    let mut app = app_on_work();
    press(&mut app, ch('/'));
    assert!(matches!(press(&mut app, ch('m')), Effect::SearchSoon));
    assert!(matches!(press(&mut app, ch('o')), Effect::SearchSoon));
    assert_eq!(app.search_query, "mo");
    assert!(matches!(press(&mut app, key(KeyCode::Enter)), Effect::SearchNow));
    press(&mut app, key(KeyCode::Backspace));
    assert!(matches!(press(&mut app, key(KeyCode::Backspace)), Effect::SearchCancel));
    app.search_results = vec![todo(3, 9, "elsewhere"), todo(2, 5, "second")];
    press(&mut app, key(KeyCode::Down));
    assert_eq!(app.selected_search_result, 1);
    press(&mut app, key(KeyCode::Down));
    assert_eq!(app.selected_search_result, 1);
    app.focus = Focus::Topics;
    assert!(matches!(press(&mut app, key(KeyCode::Enter)), Effect::ReloadAndSelect(2)));
    assert!(!app.search_open);
    assert_eq!(app.selected_topic, 3);
    assert_eq!(app.focus, Focus::Todos);
    press(&mut app, ch('/'));
    app.search_results = vec![todo(3, 9, "elsewhere")];
    assert!(matches!(press(&mut app, key(KeyCode::Enter)), Effect::Nothing));
    assert!(!app.search_open);
}

#[test]
fn detail_panel_keys() {
    let mut app = app_on_work();
    app.open_detail(None, None, None, vec![comment(7, "newest"), comment(8, "older")]);
    assert_eq!(app.layer(), Layer::Detail);
    press(&mut app, ch('X'));
    assert_eq!(app.detail.as_ref().unwrap().text, "Xfirst");
    press(&mut app, key(KeyCode::Tab));
    assert_eq!(app.detail.as_ref().unwrap().field, DetailField::Priority);
    press(&mut app, ch(' '));
    press(&mut app, key(KeyCode::Right));
    assert_eq!(app.detail.as_ref().unwrap().priority, Some(2));
    match press(&mut app, KeyPress { code: KeyCode::Char('y'), shift: false, control: true }) {
        Effect::Copy(t) => assert_eq!(t, "Medium"),
        _ => panic!("expected a copy"),
    }
    press(&mut app, ch('c'));
    let d = app.detail.as_ref().unwrap();
    assert_eq!((d.field, d.detail_scroll), (DetailField::NewComment, 11));
    press(&mut app, key(KeyCode::Tab));
    let d = app.detail.as_ref().unwrap();
    assert_eq!(d.field, DetailField::ExistingComment(0));
    assert_eq!(d.comment_edit_text, "newest");
    assert_eq!(d.comment_edit_cursor, 6);
    assert_eq!(d.detail_scroll, 14);
    press(&mut app, ch('!'));
    match press(&mut app, key(KeyCode::Tab)) {
        Effect::LeaveComment { edit: CommentEdit::Update { index, comment_id, text, url }, then } => {
            assert_eq!((index, comment_id, text.as_str(), url), (0, 7, "newest!", None));
            assert_eq!(then, Some(DetailField::ExistingComment(1)));
        }
        _ => panic!("expected the edit to be stored"),
    }
    assert!(matches!(press(&mut app, ch('d')), Effect::DeleteComment { index: 0, comment_id: 7 }));
    press(&mut app, KeyPress { code: KeyCode::Up, shift: true, control: false });
    assert_eq!(app.detail.as_ref().unwrap().detail_scroll, 9);
    press(&mut app, key(KeyCode::Down));
    assert_eq!(app.detail.as_ref().unwrap().detail_scroll, 10);
    press(&mut app, key(KeyCode::Esc));
    assert!(app.detail.is_none());
}

#[test]
fn detail_panel_saves() {
    let mut app = app_on_work();
    app.selected_todo = 1;
    app.open_detail(None, None, None, vec![comment(7, "note")]);
    match press(&mut app, key(KeyCode::Enter)) {
        Effect::SaveDetail(s) => {
            assert_eq!(s.todo_id, 2);
            assert_eq!(s.text, "second");
            assert_eq!(s.due.as_deref(), Some("2026-04-10"));
            assert_eq!(s.url.as_deref(), Some("https://example.com/2"));
            assert_eq!(s.done, Some(false));
            assert_eq!(s.comment_texts, vec!["note".to_string()]);
        }
        _ => panic!("expected the panel to be stored"),
    }
    press(&mut app, key(KeyCode::BackTab));
    assert_eq!(app.detail.as_ref().unwrap().field, DetailField::ExistingComment(0));
    match press(&mut app, key(KeyCode::BackTab)) {
        Effect::LeaveComment { edit: CommentEdit::Update { index, comment_id, .. }, then } => {
            assert_eq!((index, comment_id, then), (0, 7, Some(DetailField::NewComment)));
        }
        _ => panic!("expected the comment to be left"),
    }
    app.focus_detail_field(DetailField::NewComment);
    assert_eq!(app.detail.as_ref().unwrap().field, DetailField::NewComment);
    for c in "  hi https://x.y  ".chars() {
        press(&mut app, ch(c));
    }
    match press(&mut app, key(KeyCode::Enter)) {
        Effect::SaveComment(c) => {
            assert_eq!((c.todo_id, c.text.as_str()), (2, "hi https://x.y"));
            assert_eq!(c.url.as_deref(), Some("https://x.y"));
        }
        _ => panic!("expected a new comment"),
    }
}

#[test]
fn detail_panel_rejects_bad_dates() {
    let mut app = app_on_work();
    app.open_detail(None, None, None, vec![]);
    app.detail.as_mut().unwrap().due = "never".to_string();
    assert!(matches!(press(&mut app, key(KeyCode::Enter)), Effect::Nothing));
    assert!(app.detail.is_some());
    assert!(app.status_message.as_deref().unwrap().starts_with("Can't parse: 'never'"));
}

#[test]
fn briefing_keys() {
    let mut app = app_on_work();
    let mut t = todo(2, 5, "second");
    t.due_date = Some("2026-04-10".to_string());
    let item = BriefingItem { todo: t, topic_name: "Work".to_string(), section: BriefingSection::MustDo };
    let other = BriefingItem { todo: todo(9, 77, "gone"), topic_name: "Gone".to_string(), section: BriefingSection::Waiting };
    app.set_briefing(vec![item, other]);
    assert_eq!(app.layer(), Layer::Briefing);
    assert!(matches!(press(&mut app, ch(' ')), Effect::BriefingToggle(2)));
    match press(&mut app, ch('+')) {
        Effect::BriefingSnooze { todo_id, date } => assert_eq!((todo_id, date.as_str()), (2, "2026-04-11")),
        _ => panic!("expected a snooze"),
    }
    assert!(matches!(press(&mut app, ch('o')), Effect::Nothing));
    assert_eq!(app.status_message.as_deref(), Some("No URL attached to this item"));
    press(&mut app, ch('j'));
    press(&mut app, ch('j'));
    assert_eq!(app.selected_briefing, 1);
    app.focus = Focus::Topics;
    assert!(matches!(press(&mut app, key(KeyCode::Enter)), Effect::Nothing));
    assert!(!app.briefing_open);
    assert_eq!(app.focus, Focus::Todos);
    app.briefing_open = true;
    press(&mut app, ch('k'));
    app.selected_topic = 0;
    assert!(matches!(press(&mut app, key(KeyCode::Enter)), Effect::ReloadAndSelect(2)));
    assert_eq!(app.selected_topic, 3);
    app.briefing_open = true;
    press(&mut app, ch('q'));
    assert!(!app.briefing_open);
}
