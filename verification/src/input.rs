//! What a key press does to the interactive views.
//!
//! A key changes the state of [`App`] and may ask the program around it for
//! outside work (storage, the embedding model, a browser, the clipboard, a
//! background sync): that request is the [`Effect`] returned.
use vstd::prelude::*;
use crate::app::{
    App, CommentEdit, DetailField, DetailOutcome, DetailSave, DetailState, DueConfirm, Focus, Mode,
    NewComment, SyncStatusView, comment_edit_of, detail_save_spec, field_exists, move_targets,
    new_comment_of, next_field, prev_field, selected_todo_topic, stored_due, sync_status_view,
};
use crate::text::{owned, pop_char, push_char, trim_ws};
use crate::app::{is_virtual_id, last_index, reorder_neighbor, topic_position};
use crate::lifecycle::{Snooze, SnoozeSpec, snooze, snooze_spec};
use crate::models::opt_str_view;
use crate::ui::{field_scroll, field_scroll_target};
use crate::lifecycle::{next_priority, next_priority_spec};
use crate::due_date::{DueParse, DueSpec, due_outcome, parse};
use crate::editing::{EditKey, edit_field, inserted, lemma_delete_undoes_insert};
use crate::sync::SyncKind;

verus! {

/// A key as the event loop reads it.
#[derive(Clone, Copy, PartialEq, Eq, Debug, Structural)]
pub enum KeyCode {
    Char(char),
    Enter,
    Esc,
    Backspace,
    Delete,
    Tab,
    BackTab,
    Up,
    Down,
    Left,
    Right,
    /// Any other key.
    Other,
}

/// A key with the modifiers that matter here.
#[derive(Clone, Copy, PartialEq, Eq, Debug, Structural)]
pub struct KeyPress {
    pub code: KeyCode,
    pub shift: bool,
    pub control: bool,
}

/// Outside work a key asks for, to be done after the state change.
pub enum Effect {
    Nothing,
    /// Delete the topic under the cursor and reload.
    DeleteTopic,
    /// Delete the todo under the cursor and reload.
    DeleteTodo,
    /// The selected topic changed: load its todos.
    ReloadTodos,
    /// The query changed: search after a short pause.
    SearchSoon,
    /// The query is empty: no search is pending.
    SearchCancel,
    /// Search for the query now.
    SearchNow,
    /// Load the selected topic's todos, then select this todo.
    ReloadAndSelect(i64),
    /// Advance the state of this todo (the cursor then moves on).
    ToggleTodo(i64),
    /// Open the detail panel on this todo.
    OpenDetail(i64),
    /// Open a link in the browser.
    OpenUrl(String),
    /// Switch the sort order of the todo list and reload it.
    ToggleSort,
    /// Store a moved due date for the todo under the cursor.
    Snooze { todo_id: i64, date: String },
    /// Store the due date typed in the popup (none clears it).
    SaveDue { todo_id: i64, due: Option<String> },
    /// Store a new priority for the todo under the cursor.
    SetPriority { todo_id: i64, priority: Option<u8> },
    /// Swap the places of two topics.
    SwapTopics { topic_id: i64, neighbor_id: i64 },
    /// Gather and open the daily briefing.
    OpenBriefing,
    /// Show or hide the built-in views.
    ToggleVirtualTopics,
    /// Advance the state of the todo under the briefing cursor.
    BriefingToggle(i64),
    /// Store a moved due date for the todo under the briefing cursor.
    BriefingSnooze { todo_id: i64, date: String },
    /// Run a background sync of this kind.
    StartSync(SyncKind),
    /// Move a todo to another topic.
    MoveTodo { todo_id: i64, topic_id: i64 },
    /// Store a new comment.
    SaveComment(NewComment),
    /// Store (or delete) the edited comment, then focus a field.
    LeaveComment { edit: CommentEdit, then: Option<DetailField> },
    /// Delete the comment at this position.
    DeleteComment { index: usize, comment_id: i64 },
    /// Store the detail panel's edits.
    SaveDetail(DetailSave),
    /// Put text on the clipboard.
    Copy(String),
    /// Store a new topic with this name.
    AddTopic(String),
    /// Rename the topic under the cursor.
    UpdateTopic(String),
    /// Store a new todo from this line.
    AddTodo(String),
    /// Edit the todo under the cursor from this line.
    UpdateTodo(String),
}

/// Which part of the views takes a key: the first open popup or overlay in
/// this order, else the lists in their mode.
#[derive(Clone, Copy, PartialEq, Eq, Debug, Structural)]
pub enum Layer {
    ConfirmQuit,
    ConfirmDelete,
    Info,
    SyncMenu,
    DuePopup,
    MovePopup,
    Detail,
    Briefing,
    Search,
    Normal,
    Insert,
}

/// The layer that takes the next key.
pub open spec fn layer_of(a: App) -> Layer {
    if a.confirm_quit {
        Layer::ConfirmQuit
    } else if a.confirm_delete is Some {
        Layer::ConfirmDelete
    } else if a.show_info {
        Layer::Info
    } else if a.sync_popup {
        Layer::SyncMenu
    } else if a.due_popup {
        Layer::DuePopup
    } else if a.move_popup {
        Layer::MovePopup
    } else if a.detail is Some {
        Layer::Detail
    } else if a.briefing_open {
        Layer::Briefing
    } else if a.search_open {
        Layer::Search
    } else if a.mode == Mode::Normal {
        Layer::Normal
    } else {
        Layer::Insert
    }
}

/// `y` or Enter.
pub open spec fn is_yes(k: KeyPress) -> bool {
    k.code == KeyCode::Char('y') || k.code == KeyCode::Enter
}

/// The editing key a key press is, on a line of text.
pub open spec fn edit_key_of(k: KeyPress) -> EditKey {
    match k.code {
        KeyCode::Backspace => EditKey::Backspace,
        KeyCode::Left => EditKey::Left,
        KeyCode::Right => EditKey::Right,
        KeyCode::Char(c) => EditKey::Char(c),
        _ => EditKey::Other,
    }
}

/// The editing key a key press is.
pub fn edit_key(k: KeyPress) -> (r: EditKey)
    ensures
        r == edit_key_of(k),
{
    match k.code {
        KeyCode::Backspace => EditKey::Backspace,
        KeyCode::Left => EditKey::Left,
        KeyCode::Right => EditKey::Right,
        KeyCode::Char(c) => EditKey::Char(c),
        _ => EditKey::Other,
    }
}

/// A line and its cursor after an editing key (see [`edit_field`]).
pub open spec fn edited(text: Seq<char>, cursor: usize, key: EditKey, new_text: Seq<char>, new_cursor: usize) -> bool {
    match key {
        EditKey::Backspace => if 0 < cursor <= text.len() {
            new_text == text.remove(cursor - 1) && new_cursor == cursor - 1
        } else {
            new_text == text && new_cursor == cursor
        },
        EditKey::Left => new_text == text && new_cursor == (if cursor > 0 {
            cursor - 1
        } else {
            0
        }),
        EditKey::Right => new_text == text && new_cursor == (if cursor < text.len() {
            cursor + 1
        } else {
            cursor as int
        }),
        EditKey::Char(c) => new_text == inserted(text, cursor as int, c) && new_cursor == cursor + 1,
        EditKey::Other => new_text == text && new_cursor == cursor,
    }
}

/// A key on the quit confirmation: `y` or Enter quits, anything else
/// cancels.
pub open spec fn quit_step(pre: App, post: App, k: KeyPress, e: Effect) -> bool {
    &&& e is Nothing
    &&& is_yes(k) ==> post == (App { should_quit: true, ..pre })
    &&& !is_yes(k) ==> post == (App { confirm_quit: false, ..pre })
}

/// A key on the delete confirmation: `y` or Enter deletes what it asked
/// about, anything else cancels; either way the question goes.
pub open spec fn delete_step(pre: App, post: App, k: KeyPress, e: Effect) -> bool {
    &&& post == (App { confirm_delete: None, ..pre })
    &&& is_yes(k) && pre.confirm_delete == Some(Focus::Topics) ==> e is DeleteTopic
    &&& is_yes(k) && pre.confirm_delete == Some(Focus::Todos) ==> e is DeleteTodo
    &&& !(is_yes(k) && pre.confirm_delete is Some) ==> e is Nothing
}

impl App {
    /// The layer that takes the next key.
    pub fn layer(&self) -> (r: Layer)
        ensures
            r == layer_of(*self),
    {
        if self.confirm_quit {
            Layer::ConfirmQuit
        } else if self.confirm_delete.is_some() {
            Layer::ConfirmDelete
        } else if self.show_info {
            Layer::Info
        } else if self.sync_popup {
            Layer::SyncMenu
        } else if self.due_popup {
            Layer::DuePopup
        } else if self.move_popup {
            Layer::MovePopup
        } else if self.detail.is_some() {
            Layer::Detail
        } else if self.briefing_open {
            Layer::Briefing
        } else if self.search_open {
            Layer::Search
        } else if self.mode == Mode::Normal {
            Layer::Normal
        } else {
            Layer::Insert
        }
    }

    /// A key on the quit confirmation: `y` or Enter quits, anything else
    /// cancels.
    pub fn key_confirm_quit(&mut self, k: KeyPress) -> (e: Effect)
        ensures
            quit_step(*old(self), *final(self), k, e),
    {
        if k.code == KeyCode::Char('y') || k.code == KeyCode::Enter {
            self.should_quit = true;
        } else {
            self.confirm_quit = false;
        }
        Effect::Nothing
    }

    /// A key on the delete confirmation: `y` or Enter deletes what it asked
    /// about, anything else cancels.
    pub fn key_confirm_delete(&mut self, k: KeyPress) -> (e: Effect)
        ensures
            delete_step(*old(self), *final(self), k, e),
    {
        let asked = self.confirm_delete;
        self.confirm_delete = None;
        if k.code == KeyCode::Char('y') || k.code == KeyCode::Enter {
            match asked {
                Some(Focus::Topics) => Effect::DeleteTopic,
                Some(Focus::Todos) => Effect::DeleteTodo,
                None => Effect::Nothing,
            }
        } else {
            Effect::Nothing
        }
    }

    /// Any key closes the info popup.
    pub fn key_info(&mut self, k: KeyPress) -> (e: Effect)
        ensures
            e is Nothing && *final(self) == (App { show_info: false, ..*old(self) }),
    {
        self.show_info = false;
        Effect::Nothing
    }
}

/// The sync kind of a row of the sync menu.
pub open spec fn menu_kind(row: usize) -> SyncKind {
    if row == 0 {
        SyncKind::Full
    } else if row == 1 {
        SyncKind::GitHub
    } else {
        SyncKind::Jira
    }
}

/// Up or `k`.
pub open spec fn is_up(k: KeyPress) -> bool {
    k.code == KeyCode::Up || k.code == KeyCode::Char('k')
}

/// Down or `j`.
pub open spec fn is_down(k: KeyPress) -> bool {
    k.code == KeyCode::Down || k.code == KeyCode::Char('j')
}

/// The due-date popup handles a key: typing has room to advance the cursor
/// and a date confirmed for a todo is within the calendar.
pub open spec fn due_popup_key_ok(a: App, k: KeyPress, today: i32) -> bool {
    &&& k.code is Char ==> a.due_cursor < usize::MAX
    &&& (k.code == KeyCode::Enter && a.selected_todo < a.todos@.len())
        ==> !(due_outcome(a.due_input@, today) is OutOfRange)
}

/// The daily briefing handles a key: a due date moved by a day stays within
/// the calendar.
pub open spec fn briefing_key_ok(a: App, k: KeyPress, today: i32) -> bool {
    ((k.code == KeyCode::Char('+') || k.code == KeyCode::Char('-')) && a.selected_briefing
        < a.briefing_items@.len()) ==> !(snooze_spec(
        opt_str_view(a.briefing_items@[a.selected_briefing as int].todo.due_date),
        today,
        snooze_days(k),
    ) is OutOfRange)
}

/// The lists handle a key in normal mode: a due date moved by a day stays
/// within the calendar.
pub open spec fn normal_key_ok(a: App, k: KeyPress, today: i32) -> bool {
    (a.focus == Focus::Todos && (k.code == KeyCode::Char('+') || k.code == KeyCode::Char('-'))
        && a.selected_todo < a.todos@.len()) ==> !(snooze_spec(
        opt_str_view(a.todos@[a.selected_todo as int].due_date),
        today,
        snooze_days(k),
    ) is OutOfRange)
}

/// A key on the sync menu: Esc closes it, Enter starts the sync of the
/// selected row, up and down move between the three rows.
pub open spec fn sync_menu_step(pre: App, post: App, k: KeyPress, e: Effect) -> bool {
    &&& k.code == KeyCode::Esc ==> e is Nothing && post == (App { sync_popup: false, ..pre })
    &&& k.code == KeyCode::Enter ==> {
        let kind = menu_kind(pre.sync_popup_selected);
        &&& e == Effect::StartSync(kind)
        &&& post == (App {
            sync_running: true,
            sync_popup: false,
            sync_status: post.sync_status,
            ..pre
        })
        &&& sync_status_view(post.sync_status) == Some(SyncStatusView {
            message: "Starting "@ + crate::sync::kind_label(kind) + "\u{2026}"@,
            done: false,
            error: false,
            spinner_frame: 0,
            done_frames: 0,
        })
    }
    &&& is_up(k) ==> e is Nothing && post == (App {
        sync_popup_selected: if pre.sync_popup_selected > 0 {
            (pre.sync_popup_selected - 1) as usize
        } else {
            0
        },
        ..pre
    })
    &&& is_down(k) ==> e is Nothing && post == (App {
        sync_popup_selected: if pre.sync_popup_selected < 2 {
            (pre.sync_popup_selected + 1) as usize
        } else {
            pre.sync_popup_selected
        },
        ..pre
    })
    &&& !(k.code == KeyCode::Esc || k.code == KeyCode::Enter || is_up(k) || is_down(k)) ==> e is Nothing
        && post == pre
}

/// A key on the due-date popup: Esc closes it, Enter reads the date
/// typed (see [`App::confirm_due_date`]), other keys edit the input.
pub open spec fn due_popup_step(pre: App, post: App, k: KeyPress, e: Effect, today: i32) -> bool {
    &&& k.code == KeyCode::Esc ==> e is Nothing && post.due_input@.len() == 0 && post == (App {
        due_popup: false,
        due_input: post.due_input,
        due_cursor: 0,
        ..pre
    })
    &&& k.code == KeyCode::Enter ==> {
        &&& post == (App { status_message: post.status_message, ..pre })
        &&& pre.selected_todo >= pre.todos@.len() ==> e is Nothing
            && post.status_message == pre.status_message
        &&& pre.selected_todo < pre.todos@.len() ==> {
            let o = due_outcome(pre.due_input@, today);
            &&& o matches DueSpec::Error(m) ==> post.status_message matches Some(s) && s@ == m
                && e is Nothing
            &&& o is OutOfRange ==> e is Nothing && post.status_message == pre.status_message
            &&& (o is Day || o is Clear) ==> (e matches Effect::SaveDue { todo_id, due }
                && todo_id == pre.todos@[pre.selected_todo as int].id
                && crate::models::opt_str_view(due) == stored_due(o))
                && post.status_message == pre.status_message
        }
    }
    &&& !(k.code == KeyCode::Esc || k.code == KeyCode::Enter) ==> e is Nothing
        && edited(pre.due_input@, pre.due_cursor, edit_key_of(k), post.due_input@, post.due_cursor)
        && post == (App { due_input: post.due_input, due_cursor: post.due_cursor, ..pre })
}

/// A key on the move popup: Esc closes it, Enter moves the todo to the
/// selected topic, up and down move between the topics offered.
pub open spec fn move_popup_step(pre: App, post: App, k: KeyPress, e: Effect) -> bool {
    &&& k.code == KeyCode::Esc ==> e is Nothing && post == (App { move_popup: false, ..pre })
    &&& k.code == KeyCode::Enter ==> {
        let targets = move_targets(pre.topics@, selected_todo_topic(pre.todos@, pre.selected_todo));
        &&& (pre.move_popup_selected < targets.len() && pre.selected_todo < pre.todos@.len()) ==> {
            &&& e == Effect::MoveTodo {
                todo_id: pre.todos@[pre.selected_todo as int].id,
                topic_id: targets[pre.move_popup_selected as int].id,
            }
            &&& post == (App { move_popup: false, ..pre })
        }
        &&& !(pre.move_popup_selected < targets.len() && pre.selected_todo < pre.todos@.len())
            ==> e is Nothing && post == pre
    }
    &&& is_up(k) ==> e is Nothing && post == (App {
        move_popup_selected: if pre.move_popup_selected > 0 {
            (pre.move_popup_selected - 1) as usize
        } else {
            0
        },
        ..pre
    })
    &&& is_down(k) ==> {
        let n = move_targets(pre.topics@, selected_todo_topic(pre.todos@, pre.selected_todo)).len();
        &&& e is Nothing
        &&& post == (App {
            move_popup_selected: if pre.move_popup_selected + 1 < n {
                (pre.move_popup_selected + 1) as usize
            } else {
                pre.move_popup_selected
            },
            ..pre
        })
    }
    &&& !(k.code == KeyCode::Esc || k.code == KeyCode::Enter || is_up(k) || is_down(k)) ==> e is Nothing
        && post == pre
}

impl App {
    /// A key on the sync menu: Esc closes it, Enter starts the sync of the
    /// selected row, up and down move between the three rows.
    pub fn key_sync_menu(&mut self, k: KeyPress) -> (e: Effect)
        ensures
            sync_menu_step(*old(self), *final(self), k, e),
    {
        if k.code == KeyCode::Esc {
            self.sync_popup = false;
            Effect::Nothing
        } else if k.code == KeyCode::Enter {
            let kind = SyncKind::from_menu_row(self.sync_popup_selected);
            self.start_sync(kind);
            Effect::StartSync(kind)
        } else if k.code == KeyCode::Up || k.code == KeyCode::Char('k') {
            if self.sync_popup_selected > 0 {
                self.sync_popup_selected = self.sync_popup_selected - 1;
            }
            Effect::Nothing
        } else if k.code == KeyCode::Down || k.code == KeyCode::Char('j') {
            if self.sync_popup_selected < 2 {
                self.sync_popup_selected = self.sync_popup_selected + 1;
            }
            Effect::Nothing
        } else {
            Effect::Nothing
        }
    }

    /// A key on the due-date popup: Esc closes it, Enter reads the date
    /// typed (see [`App::confirm_due_date`]), other keys edit the input.
    pub fn key_due_popup(&mut self, k: KeyPress, today: i32) -> (e: Effect)
        requires
            crate::cal::day_in_range(today as int),
            due_popup_key_ok(*old(self), k, today),
        ensures
            due_popup_step(*old(self), *final(self), k, e, today),
    {
        if k.code == KeyCode::Esc {
            self.close_due_popup();
            Effect::Nothing
        } else if k.code == KeyCode::Enter {
            match self.confirm_due_date(today) {
                DueConfirm::Save { todo_id, due } => Effect::SaveDue { todo_id, due },
                _ => Effect::Nothing,
            }
        } else {
            let key = edit_key(k);
            edit_field(&mut self.due_input, &mut self.due_cursor, key);
            Effect::Nothing
        }
    }

    /// A key on the move popup: Esc closes it, Enter moves the todo to the
    /// selected topic, up and down move between the topics offered.
    pub fn key_move_popup(&mut self, k: KeyPress) -> (e: Effect)
        ensures
            move_popup_step(*old(self), *final(self), k, e),
    {
        if k.code == KeyCode::Esc {
            self.move_popup = false;
            Effect::Nothing
        } else if k.code == KeyCode::Enter {
            match self.move_target() {
                Some((todo_id, topic_id)) => {
                    self.move_popup = false;
                    Effect::MoveTodo { todo_id, topic_id }
                },
                None => Effect::Nothing,
            }
        } else if k.code == KeyCode::Up || k.code == KeyCode::Char('k') {
            if self.move_popup_selected > 0 {
                self.move_popup_selected = self.move_popup_selected - 1;
            }
            Effect::Nothing
        } else if k.code == KeyCode::Down || k.code == KeyCode::Char('j') {
            let targets = self.move_popup_topics();
            let ghost tv = move_targets(self.topics@, selected_todo_topic(self.todos@, self.selected_todo));
            assert(targets@.len() == tv.len()) by {
                assert(targets@.map_values(|t: crate::models::Topic| t@).len() == tv.map_values(|t: crate::models::Topic| t@).len());
            }
            if self.move_popup_selected < targets.len() && targets.len() - self.move_popup_selected > 1 {
                self.move_popup_selected = self.move_popup_selected + 1;
            }
            Effect::Nothing
        } else {
            Effect::Nothing
        }
    }
}

/// The scroll offset that shows a field fits in the panel's counter.
pub open spec fn scroll_fits(f: DetailField) -> bool {
    f matches DetailField::ExistingComment(i) ==> 14 + (i as u16) * 4 <= u16::MAX
}

/// The detail panel `e` is `d` with the focus on field `f`, scrolled to
/// show it; an existing comment is loaded into the edit buffer.
pub open spec fn focused_on(d: DetailState, f: DetailField, e: DetailState) -> bool {
    &&& e == (DetailState {
        field: f,
        detail_scroll: e.detail_scroll,
        comment_edit_text: e.comment_edit_text,
        comment_edit_cursor: e.comment_edit_cursor,
        ..d
    })
    &&& e.detail_scroll == field_scroll(f)
    &&& match f {
        DetailField::ExistingComment(i) => if i < d.comments@.len() {
            e.comment_edit_text@ == d.comments@[i as int].text@ && e.comment_edit_cursor == e.comment_edit_text@.len()
        } else {
            e.comment_edit_text == d.comment_edit_text && e.comment_edit_cursor == d.comment_edit_cursor
        },
        _ => e.comment_edit_text == d.comment_edit_text && e.comment_edit_cursor == d.comment_edit_cursor,
    }
}

/// The text the copy key puts on the clipboard: the focused field's (the
/// priority by its name).
pub open spec fn copy_text(d: DetailState) -> Seq<char> {
    match d.field {
        DetailField::Text => d.text@,
        DetailField::Priority => match d.priority {
            Some(1u8) => "High"@,
            Some(2u8) => "Medium"@,
            Some(3u8) => "Low"@,
            _ => Seq::empty(),
        },
        DetailField::Due => d.due@,
        DetailField::Url => d.url@,
        DetailField::NewComment => d.new_comment@,
        DetailField::ExistingComment(_) => d.comment_edit_text@,
    }
}

/// The cursor of the focused text field of a detail panel.
pub open spec fn focused_cursor(d: DetailState) -> usize {
    match d.field {
        DetailField::Text => d.text_cursor,
        DetailField::Due => d.due_cursor,
        DetailField::Url => d.url_cursor,
        DetailField::NewComment => d.new_comment_cursor,
        DetailField::ExistingComment(_) => d.comment_edit_cursor,
        DetailField::Priority => 0,
    }
}

/// The keys that leave the focused comment, and so need it to exist.
pub open spec fn leaves_comment(k: KeyPress) -> bool {
    ||| k.code == KeyCode::Enter
    ||| k.code == KeyCode::Tab
    ||| k.code == KeyCode::BackTab
    ||| k.code == KeyCode::Char('c')
    ||| k.code == KeyCode::Char('d')
    ||| k.code == KeyCode::Delete
}

/// The detail panel handles a key: Tab and Shift+Tab land on a field whose
/// scroll offset fits, a key that leaves the focused comment finds it,
/// typing has room to advance the cursor, and a due date stored with the
/// panel is within the calendar.
pub open spec fn detail_key_ok(d: DetailState, k: KeyPress, today: i32) -> bool {
    let n = d.comments@.len();
    &&& leaves_comment(k) ==> field_exists(d.field, n)
    &&& k.code == KeyCode::Tab ==> scroll_fits(next_field(d.field, n))
    &&& k.code == KeyCode::BackTab ==> scroll_fits(prev_field(d.field, n))
    &&& k.code is Char ==> focused_cursor(d) < usize::MAX
    &&& (k.code == KeyCode::Enter && !(d.field is NewComment) && !(d.field is ExistingComment))
        ==> !(due_outcome(d.due@, today) is OutOfRange)
}

/// The focused field of a detail panel after a key passed on to it: the
/// priority cycles on left, right and space; a text field is edited.
pub open spec fn field_edited(d: DetailState, k: KeyPress, e: DetailState) -> bool {
    let key = edit_key_of(k);
    match d.field {
        DetailField::Priority => e == (DetailState {
            priority: if k.code == KeyCode::Left || k.code == KeyCode::Right || k.code == KeyCode::Char(' ') {
                next_priority_spec(d.priority)
            } else {
                d.priority
            },
            ..d
        }),
        DetailField::Text => e == (DetailState { text: e.text, text_cursor: e.text_cursor, ..d })
            && edited(d.text@, d.text_cursor, key, e.text@, e.text_cursor),
        DetailField::Due => e == (DetailState { due: e.due, due_cursor: e.due_cursor, ..d })
            && edited(d.due@, d.due_cursor, key, e.due@, e.due_cursor),
        DetailField::Url => e == (DetailState { url: e.url, url_cursor: e.url_cursor, ..d })
            && edited(d.url@, d.url_cursor, key, e.url@, e.url_cursor),
        DetailField::NewComment => e == (DetailState {
            new_comment: e.new_comment,
            new_comment_cursor: e.new_comment_cursor,
            ..d
        }) && edited(d.new_comment@, d.new_comment_cursor, key, e.new_comment@, e.new_comment_cursor),
        DetailField::ExistingComment(_) => e == (DetailState {
            comment_edit_text: e.comment_edit_text,
            comment_edit_cursor: e.comment_edit_cursor,
            ..d
        }) && edited(d.comment_edit_text@, d.comment_edit_cursor, key, e.comment_edit_text@, e.comment_edit_cursor),
    }
}

/// Scrolling the detail panel up by `by` rows, stopping at the top.
pub open spec fn scrolled_up(s: u16, by: u16) -> u16 {
    if s >= by {
        (s - by) as u16
    } else {
        0
    }
}

/// Scrolling the detail panel down by `by` rows, stopping at the counter's
/// largest value.
pub open spec fn scrolled_down(s: u16, by: u16) -> u16 {
    if s <= u16::MAX - by {
        (s + by) as u16
    } else {
        u16::MAX
    }
}

impl DetailState {
    /// The text of the focused field, for the clipboard.
    pub fn copy_text(&self) -> (r: String)
        ensures
            r@ == copy_text(*self),
    {
        match self.field {
            DetailField::Text => self.text.clone(),
            DetailField::Priority => match self.priority {
                Some(1u8) => owned("High"),
                Some(2u8) => owned("Medium"),
                Some(3u8) => owned("Low"),
                _ => String::new(),
            },
            DetailField::Due => self.due.clone(),
            DetailField::Url => self.url.clone(),
            DetailField::NewComment => self.new_comment.clone(),
            DetailField::ExistingComment(_) => self.comment_edit_text.clone(),
        }
    }

    /// Passes a key on to the focused field.
    pub fn edit_focused(&mut self, k: KeyPress)
        requires
            k.code is Char ==> focused_cursor(*old(self)) < usize::MAX,
        ensures
            field_edited(*old(self), k, *final(self)),
    {
        let key = edit_key(k);
        match self.field {
            DetailField::Priority => {
                if k.code == KeyCode::Left || k.code == KeyCode::Right || k.code == KeyCode::Char(' ') {
                    self.priority = next_priority(self.priority);
                }
            },
            DetailField::Text => edit_field(&mut self.text, &mut self.text_cursor, key),
            DetailField::Due => edit_field(&mut self.due, &mut self.due_cursor, key),
            DetailField::Url => edit_field(&mut self.url, &mut self.url_cursor, key),
            DetailField::NewComment => edit_field(&mut self.new_comment, &mut self.new_comment_cursor, key),
            DetailField::ExistingComment(_) => edit_field(
                &mut self.comment_edit_text,
                &mut self.comment_edit_cursor,
                key,
            ),
        }
    }

    /// Moves the focus to a field and scrolls to it, loading an existing
    /// comment into the edit buffer.
    pub fn focus_field(&mut self, f: DetailField)
        requires
            scroll_fits(f),
        ensures
            focused_on(*old(self), f, *final(self)),
    {
        self.field = f;
        self.detail_scroll = field_scroll_target(&f);
        if let DetailField::ExistingComment(i) = f {
            if i < self.comments.len() {
                self.comment_edit_text = self.comments[i].text.clone();
                self.comment_edit_cursor = crate::text::chars_of(self.comment_edit_text.as_str()).len();
            }
        }
    }
}

/// Enter in the detail panel: on the new comment it stores the comment
/// (when it is not blank); on an existing comment it leaves it; elsewhere it
/// stores the panel, unless the due date is not understood.
pub open spec fn detail_enter_step(pre: App, post: App, e: Effect, today: i32) -> bool {
    let d = pre.detail->0;
    match d.field {
        DetailField::NewComment => {
            &&& post == pre
            &&& trim_ws(d.new_comment@).len() == 0 ==> e is Nothing
            &&& trim_ws(d.new_comment@).len() > 0 ==> (e matches Effect::SaveComment(c) && new_comment_of(d, Some(c)))
        },
        DetailField::ExistingComment(_) => {
            &&& post == pre
            &&& e matches Effect::LeaveComment { edit, then } && then is None && comment_edit_of(d, edit)
        },
        _ => {
            let o = due_outcome(d.due@, today);
            &&& post == (App { status_message: post.status_message, ..pre })
            &&& o matches DueSpec::Error(m) ==> (post.status_message matches Some(s) && s@ == m && e is Nothing)
            &&& o is OutOfRange ==> e is Nothing && post.status_message == pre.status_message
            &&& (o is Day || o is Clear) ==> (e matches Effect::SaveDetail(sv)
                && detail_save_spec(d, pre.todos@, stored_due(o), sv)) && post.status_message == pre.status_message
        },
    }
}

/// Moving the focus of the detail panel to field `f`: an existing comment
/// with focus is left first (the program stores it, then focuses `f`);
/// otherwise the focus moves at once.
pub open spec fn detail_move_step(pre: App, post: App, f: DetailField, e: Effect) -> bool {
    let d = pre.detail->0;
    if d.field is ExistingComment {
        &&& post == pre
        &&& e matches Effect::LeaveComment { edit, then } && then == Some(f) && comment_edit_of(d, edit)
    } else {
        &&& e is Nothing
        &&& post == (App { detail: post.detail, ..pre })
        &&& post.detail matches Some(x) && focused_on(d, f, x)
    }
}

/// Scrolling the detail panel: up or down by one row, by five with Shift.
pub open spec fn detail_scroll_step(pre: App, post: App, k: KeyPress) -> bool {
    let d = pre.detail->0;
    let by: u16 = if k.shift {
        5
    } else {
        1
    };
    post == (App {
        detail: Some(DetailState {
            detail_scroll: if k.code == KeyCode::Up {
                scrolled_up(d.detail_scroll, by)
            } else {
                scrolled_down(d.detail_scroll, by)
            },
            ..d
        }),
        ..pre
    })
}

/// What a key does to the views while the detail panel is open: Esc closes
/// it; Enter see [`detail_enter_step`]; Tab and Shift+Tab move the focus to
/// the next and previous field; up and down scroll; Ctrl+Y copies the
/// focused field; `c` moves to the new comment; `d` and Delete delete the
/// focused comment; other keys edit the focused field.
pub open spec fn detail_step(pre: App, post: App, k: KeyPress, e: Effect, today: i32) -> bool {
    let d = pre.detail->0;
    let n = d.comments@.len();
    if k.code == KeyCode::Esc {
        e is Nothing && post == (App { detail: None, ..pre })
    } else if k.code == KeyCode::Enter {
        detail_enter_step(pre, post, e, today)
    } else if k.code == KeyCode::Tab {
        detail_move_step(pre, post, next_field(d.field, n), e)
    } else if k.code == KeyCode::BackTab {
        detail_move_step(pre, post, prev_field(d.field, n), e)
    } else if k.code == KeyCode::Up || k.code == KeyCode::Down {
        e is Nothing && detail_scroll_step(pre, post, k)
    } else if k.code == KeyCode::Char('y') && k.control {
        post == pre && (e matches Effect::Copy(t) && t@ == copy_text(d))
    } else if k.code == KeyCode::Char('c') && d.field != DetailField::NewComment {
        detail_move_step(pre, post, DetailField::NewComment, e)
    } else if (k.code == KeyCode::Char('d') || k.code == KeyCode::Delete) && d.field is ExistingComment {
        &&& post == pre
        &&& e == Effect::DeleteComment { index: d.field->0, comment_id: d.comments@[d.field->0 as int].id }
    } else {
        &&& e is Nothing
        &&& post == (App { detail: post.detail, ..pre })
        &&& post.detail matches Some(x) && field_edited(d, k, x)
    }
}

impl App {
    fn detail_enter(&mut self, today: i32) -> (e: Effect)
        requires
            crate::cal::day_in_range(today as int),
            old(self).detail is Some,
        ensures
            detail_enter_step(*old(self), *final(self), e, today),
    {
        let field = match &self.detail {
            Some(d) => d.field,
            None => return Effect::Nothing,
        };
        match field {
            DetailField::NewComment => match self.new_comment() {
                Some(c) => Effect::SaveComment(c),
                None => Effect::Nothing,
            },
            DetailField::ExistingComment(_) => Effect::LeaveComment { edit: self.comment_edit(), then: None },
            _ => match self.confirm_detail(today) {
                DetailOutcome::Save(sv) => Effect::SaveDetail(sv),
                _ => Effect::Nothing,
            },
        }
    }

    fn detail_move(&mut self, f: DetailField) -> (e: Effect)
        requires
            old(self).detail is Some,
            scroll_fits(f),
        ensures
            detail_move_step(*old(self), *final(self), f, e),
    {
        let field = match &self.detail {
            Some(d) => d.field,
            None => return Effect::Nothing,
        };
        if let DetailField::ExistingComment(_) = field {
            return Effect::LeaveComment { edit: self.comment_edit(), then: Some(f) };
        }
        if let Some(d) = &mut self.detail {
            d.focus_field(f);
        }
        Effect::Nothing
    }

    fn detail_scroll(&mut self, k: KeyPress)
        requires
            old(self).detail is Some,
        ensures
            detail_scroll_step(*old(self), *final(self), k),
    {
        let by: u16 = if k.shift {
            5
        } else {
            1
        };
        if let Some(d) = &mut self.detail {
            if k.code == KeyCode::Up {
                d.detail_scroll = if d.detail_scroll >= by {
                    d.detail_scroll - by
                } else {
                    0
                };
            } else {
                d.detail_scroll = if d.detail_scroll <= u16::MAX - by {
                    d.detail_scroll + by
                } else {
                    u16::MAX
                };
            }
        }
    }

    /// A key while the detail panel is open (see [`detail_step`]).
    pub fn key_detail(&mut self, k: KeyPress, today: i32) -> (e: Effect)
        requires
            crate::cal::day_in_range(today as int),
            old(self).detail matches Some(d) ==> detail_key_ok(d, k, today),
        ensures
            old(self).detail is None ==> e is Nothing && *final(self) == *old(self),
            old(self).detail is Some ==> detail_step(*old(self), *final(self), k, e, today),
    {
        let (field, n) = match &self.detail {
            Some(d) => (d.field, d.comments.len()),
            None => return Effect::Nothing,
        };
        if k.code == KeyCode::Esc {
            self.detail = None;
            Effect::Nothing
        } else if k.code == KeyCode::Enter {
            self.detail_enter(today)
        } else if k.code == KeyCode::Tab {
            self.detail_move(field.next(n))
        } else if k.code == KeyCode::BackTab {
            self.detail_move(field.prev(n))
        } else if k.code == KeyCode::Up || k.code == KeyCode::Down {
            self.detail_scroll(k);
            Effect::Nothing
        } else if k.code == KeyCode::Char('y') && k.control {
            match &self.detail {
                Some(d) => Effect::Copy(d.copy_text()),
                None => Effect::Nothing,
            }
        } else if k.code == KeyCode::Char('c') && field != DetailField::NewComment {
            self.detail_move(DetailField::NewComment)
        } else if (k.code == KeyCode::Char('d') || k.code == KeyCode::Delete) && matches!(field, DetailField::ExistingComment(_)) {
            match (&self.detail, field) {
                (Some(d), DetailField::ExistingComment(i)) => Effect::DeleteComment { index: i, comment_id: d.comments[i].id },
                _ => Effect::Nothing,
            }
        } else {
            if let Some(d) = &mut self.detail {
                d.edit_focused(k);
            }
            Effect::Nothing
        }
    }

    /// Moves the focus of the detail panel to a field (see
    /// [`focused_on`]); used once an edited comment has been stored.
    pub fn focus_detail_field(&mut self, f: DetailField)
        requires
            scroll_fits(f),
        ensures
            old(self).detail is None ==> *final(self) == *old(self),
            old(self).detail matches Some(d) ==> (final(self).detail matches Some(x) && focused_on(d, f, x)),
            *final(self) == (App { detail: final(self).detail, ..*old(self) }),
    {
        if let Some(d) = &mut self.detail {
            d.focus_field(f);
        }
    }
}

/// `+` or `-`, and the days it moves a due date by.
pub open spec fn snooze_days(k: KeyPress) -> int {
    if k.code == KeyCode::Char('+') {
        1
    } else {
        -1
    }
}

/// What a key does while the daily briefing is open: Esc or `q` closes it;
/// up and down move the cursor; Enter jumps to the todo under the cursor;
/// space advances its state; `+` and `-` move its due date by a day; `o`
/// opens its link.
pub open spec fn briefing_step(pre: App, post: App, k: KeyPress, e: Effect, today: i32) -> bool {
    let sel = pre.selected_briefing;
    let n = pre.briefing_items@.len();
    if k.code == KeyCode::Esc || k.code == KeyCode::Char('q') {
        e is Nothing && post == (App { briefing_open: false, ..pre })
    } else if is_up(k) {
        e is Nothing && post == (App {
            selected_briefing: if sel > 0 {
                (sel - 1) as usize
            } else {
                0
            },
            ..pre
        })
    } else if is_down(k) {
        e is Nothing && post == (App {
            selected_briefing: if sel + 1 < n {
                (sel + 1) as usize
            } else {
                sel
            },
            ..pre
        })
    } else if k.code == KeyCode::Enter {
        if sel < n {
            let t = pre.briefing_items@[sel as int].todo;
            match topic_position(pre.topics@, t.topic_id) {
                Some(p) => e == Effect::ReloadAndSelect(t.id) && post == (App {
                    briefing_open: false,
                    focus: Focus::Todos,
                    selected_topic: p as usize,
                    ..pre
                }),
                None => e is Nothing && post == (App { briefing_open: false, focus: Focus::Todos, ..pre }),
            }
        } else {
            e is Nothing && post == (App { briefing_open: false, ..pre })
        }
    } else if k.code == KeyCode::Char(' ') {
        &&& post == pre
        &&& sel < n ==> e == Effect::BriefingToggle(pre.briefing_items@[sel as int].todo.id)
        &&& sel >= n ==> e is Nothing
    } else if k.code == KeyCode::Char('+') || k.code == KeyCode::Char('-') {
        &&& post == pre
        &&& sel >= n ==> e is Nothing
        &&& sel < n ==> {
            let t = pre.briefing_items@[sel as int].todo;
            match snooze_spec(opt_str_view(t.due_date), today, snooze_days(k)) {
                SnoozeSpec::MovedTo(d) => e matches Effect::BriefingSnooze { todo_id, date } && todo_id == t.id
                    && date@ == d,
                _ => e is Nothing,
            }
        }
    } else if k.code == KeyCode::Char('o') {
        if sel < n && pre.briefing_items@[sel as int].todo.url is Some {
            post == pre && (e matches Effect::OpenUrl(u) && u@ == pre.briefing_items@[sel as int].todo.url->0@)
        } else {
            e is Nothing && post == (App { status_message: post.status_message, ..pre })
                && (post.status_message matches Some(m) && m@ == "No URL attached to this item"@)
        }
    } else {
        e is Nothing && post == pre
    }
}

/// Enter in the search overlay: with results it closes the overlay and
/// jumps to the selected one (its topic selected, the todo list focused);
/// without results it searches at once when there is a query.
pub open spec fn search_enter_step(pre: App, post: App, e: Effect) -> bool {
    let sel = pre.selected_search_result;
    let n = pre.search_results@.len();
    if n > 0 {
        if sel < n && topic_position(pre.topics@, pre.search_results@[sel as int].topic_id) is Some {
            let res = pre.search_results@[sel as int];
            &&& e == Effect::ReloadAndSelect(res.id)
            &&& post == (App {
                search_open: false,
                selected_topic: topic_position(pre.topics@, res.topic_id)->0 as usize,
                focus: Focus::Todos,
                mode: Mode::Normal,
                ..pre
            })
        } else {
            e is Nothing && post == (App { search_open: false, ..pre })
        }
    } else if pre.search_query@.len() > 0 {
        e is SearchNow && post == pre
    } else {
        e is Nothing && post == pre
    }
}

/// Backspace in the search overlay: the query loses its last character;
/// when it becomes empty the results are cleared and no search is pending.
pub open spec fn search_backspace_step(pre: App, post: App, e: Effect) -> bool {
    let q = if pre.search_query@.len() > 0 {
        pre.search_query@.drop_last()
    } else {
        pre.search_query@
    };
    &&& post.search_query@ == q
    &&& q.len() == 0 ==> e is SearchCancel && post.search_results@.len() == 0 && post == (App {
        search_query: post.search_query,
        search_results: post.search_results,
        selected_search_result: 0,
        ..pre
    })
    &&& q.len() > 0 ==> e is SearchSoon && post == (App { search_query: post.search_query, ..pre })
}

/// What a key does while the search overlay is open: Esc closes it; Enter
/// see [`search_enter_step`]; up and down move between the results; typing
/// and Backspace edit the query and search after a pause.
pub open spec fn search_step(pre: App, post: App, k: KeyPress, e: Effect) -> bool {
    let sel = pre.selected_search_result;
    let n = pre.search_results@.len();
    if k.code == KeyCode::Esc {
        e is Nothing && post == (App { search_open: false, ..pre })
    } else if k.code == KeyCode::Enter {
        search_enter_step(pre, post, e)
    } else if k.code == KeyCode::Up {
        e is Nothing && post == (App {
            selected_search_result: if sel > 0 {
                (sel - 1) as usize
            } else {
                0
            },
            ..pre
        })
    } else if k.code == KeyCode::Down {
        e is Nothing && post == (App {
            selected_search_result: if sel + 1 < n {
                (sel + 1) as usize
            } else {
                sel
            },
            ..pre
        })
    } else if k.code == KeyCode::Backspace {
        search_backspace_step(pre, post, e)
    } else if k.code is Char {
        &&& e is SearchSoon
        &&& post.search_query@ == pre.search_query@.push(k.code->0)
        &&& post == (App { search_query: post.search_query, ..pre })
    } else {
        e is Nothing && post == pre
    }
}

impl App {
    fn briefing_item_key(&mut self, k: KeyPress, today: i32) -> (e: Effect)
        requires
            crate::cal::day_in_range(today as int),
            briefing_key_ok(*old(self), k, today),
            k.code == KeyCode::Char(' ') || k.code == KeyCode::Char('+') || k.code == KeyCode::Char('-')
                || k.code == KeyCode::Char('o'),
        ensures
            briefing_step(*old(self), *final(self), k, e, today),
    {
        let sel = self.selected_briefing;
        let n = self.briefing_items.len();
        if k.code == KeyCode::Char(' ') {
            if sel < n {
                Effect::BriefingToggle(self.briefing_items[sel].todo.id)
            } else {
                Effect::Nothing
            }
        } else if k.code == KeyCode::Char('+') || k.code == KeyCode::Char('-') {
            if sel >= n {
                return Effect::Nothing;
            }
            let days: i64 = if k.code == KeyCode::Char('+') {
                1
            } else {
                -1
            };
            let t = &self.briefing_items[sel].todo;
            match snooze(&t.due_date, today, days) {
                Snooze::MovedTo(date) => Effect::BriefingSnooze { todo_id: t.id, date },
                _ => Effect::Nothing,
            }
        } else {
            if sel < n {
                if let Some(u) = &self.briefing_items[sel].todo.url {
                    return Effect::OpenUrl(u.clone());
                }
            }
            self.status_message = Some(owned("No URL attached to this item"));
            Effect::Nothing
        }
    }

    fn briefing_move(&mut self, k: KeyPress, today: i32) -> (e: Effect)
        requires
            k.code == KeyCode::Esc || k.code == KeyCode::Char('q') || is_up(k) || is_down(k)
                || k.code == KeyCode::Enter,
        ensures
            briefing_step(*old(self), *final(self), k, e, today),
    {
        let sel = self.selected_briefing;
        let n = self.briefing_items.len();
        if k.code == KeyCode::Esc || k.code == KeyCode::Char('q') {
            self.briefing_open = false;
            Effect::Nothing
        } else if k.code == KeyCode::Up || k.code == KeyCode::Char('k') {
            if sel > 0 {
                self.selected_briefing = sel - 1;
            }
            Effect::Nothing
        } else if k.code == KeyCode::Down || k.code == KeyCode::Char('j') {
            if sel < n && n - sel > 1 {
                self.selected_briefing = sel + 1;
            }
            Effect::Nothing
        } else {
            match self.begin_briefing_jump() {
                Some(id) => Effect::ReloadAndSelect(id),
                None => Effect::Nothing,
            }
        }
    }

    /// A key while the daily briefing is open (see [`briefing_step`]).
    pub fn key_briefing(&mut self, k: KeyPress, today: i32) -> (e: Effect)
        requires
            crate::cal::day_in_range(today as int),
            briefing_key_ok(*old(self), k, today),
        ensures
            briefing_step(*old(self), *final(self), k, e, today),
    {
        if k.code == KeyCode::Esc || k.code == KeyCode::Char('q') || k.code == KeyCode::Up
            || k.code == KeyCode::Char('k') || k.code == KeyCode::Down || k.code == KeyCode::Char('j')
            || k.code == KeyCode::Enter {
            self.briefing_move(k, today)
        } else if k.code == KeyCode::Char(' ') || k.code == KeyCode::Char('+') || k.code == KeyCode::Char('-')
            || k.code == KeyCode::Char('o') {
            self.briefing_item_key(k, today)
        } else {
            Effect::Nothing
        }
    }

    fn search_enter(&mut self) -> (e: Effect)
        ensures
            search_enter_step(*old(self), *final(self), e),
    {
        if self.search_results.len() > 0 {
            self.search_open = false;
            match self.begin_search_jump() {
                Some(id) => Effect::ReloadAndSelect(id),
                None => Effect::Nothing,
            }
        } else if !self.search_query.as_str().is_empty() {
            Effect::SearchNow
        } else {
            Effect::Nothing
        }
    }

    fn search_backspace(&mut self) -> (e: Effect)
        ensures
            search_backspace_step(*old(self), *final(self), e),
    {
        pop_char(&mut self.search_query);
        if self.search_query.as_str().is_empty() {
            self.search_results = Vec::new();
            self.selected_search_result = 0;
            Effect::SearchCancel
        } else {
            Effect::SearchSoon
        }
    }

    /// A key while the search overlay is open (see [`search_step`]).
    pub fn key_search(&mut self, k: KeyPress) -> (e: Effect)
        ensures
            search_step(*old(self), *final(self), k, e),
    {
        let sel = self.selected_search_result;
        let n = self.search_results.len();
        if k.code == KeyCode::Esc {
            self.search_open = false;
            Effect::Nothing
        } else if k.code == KeyCode::Enter {
            self.search_enter()
        } else if k.code == KeyCode::Up {
            if sel > 0 {
                self.selected_search_result = sel - 1;
            }
            Effect::Nothing
        } else if k.code == KeyCode::Down {
            if sel < n && n - sel > 1 {
                self.selected_search_result = sel + 1;
            }
            Effect::Nothing
        } else if k.code == KeyCode::Backspace {
            self.search_backspace()
        } else if let KeyCode::Char(c) = k.code {
            push_char(&mut self.search_query, c);
            Effect::SearchSoon
        } else {
            Effect::Nothing
        }
    }
}

/// The other list.
pub open spec fn other_focus(f: Focus) -> Focus {
    match f {
        Focus::Topics => Focus::Todos,
        Focus::Todos => Focus::Topics,
    }
}

/// The selected topic is one of the built-in views.
pub open spec fn on_virtual_topic(a: App) -> bool {
    a.selected_id() matches Some(id) && is_virtual_id(id)
}

/// The keys that switch views or focus in the lists.
pub open spec fn is_view_key(k: KeyPress) -> bool {
    ||| k.code == KeyCode::Char('q')
    ||| k.code == KeyCode::Char('i')
    ||| k.code == KeyCode::Char('1')
    ||| k.code == KeyCode::Char('2')
    ||| k.code == KeyCode::Tab
    ||| k.code == KeyCode::BackTab
    ||| k.code == KeyCode::Left
    ||| k.code == KeyCode::Right
    ||| k.code == KeyCode::Char('/')
}

/// `q` asks to quit, `i` shows the info popup, `1` and `2` focus the topic
/// and todo lists, Tab and Shift+Tab switch lists, left and right focus the
/// topics and the todos, `/` opens an empty search overlay.
pub open spec fn view_step(pre: App, post: App, k: KeyPress, e: Effect) -> bool {
    if k.code == KeyCode::Char('q') {
        e is Nothing && post == (App { confirm_quit: true, ..pre })
    } else if k.code == KeyCode::Char('i') {
        e is Nothing && post == (App { show_info: true, ..pre })
    } else if k.code == KeyCode::Char('1') {
        e is Nothing && post == (App { focus: Focus::Topics, mode: Mode::Normal, ..pre })
    } else if k.code == KeyCode::Char('2') {
        e is Nothing && post == (App { focus: Focus::Todos, mode: Mode::Normal, ..pre })
    } else if k.code == KeyCode::Tab || k.code == KeyCode::BackTab {
        e is Nothing && post == (App { focus: other_focus(pre.focus), ..pre })
    } else if k.code == KeyCode::Left {
        e is Nothing && post == (App { focus: Focus::Topics, ..pre })
    } else if k.code == KeyCode::Right {
        e is Nothing && post == (App { focus: Focus::Todos, ..pre })
    } else {
        &&& e is SearchCancel
        &&& post.search_query@.len() == 0
        &&& post.search_results@.len() == 0
        &&& post == (App {
            search_open: true,
            search_query: post.search_query,
            search_results: post.search_results,
            selected_search_result: 0,
            ..pre
        })
    }
}

/// Up, down, `k` or `j`.
pub open spec fn is_nav_key(k: KeyPress) -> bool {
    is_up(k) || is_down(k)
}

/// Moving the cursor of the focused list: with Shift the arrows jump to the
/// top and bottom; otherwise one row up or down when there is one. A new
/// topic under the cursor has its todos loaded.
pub open spec fn nav_step(pre: App, post: App, k: KeyPress, e: Effect) -> bool {
    let jump = (k.code == KeyCode::Up || k.code == KeyCode::Down) && k.shift;
    let up = is_up(k);
    match pre.focus {
        Focus::Topics => {
            let t = pre.selected_topic;
            let n = pre.topics@.len();
            if jump {
                &&& e is ReloadTodos
                &&& post == (App {
                    selected_topic: if up {
                        0
                    } else {
                        last_index(n) as usize
                    },
                    ..pre
                })
            } else {
                let moved = if up {
                    t > 0
                } else {
                    t + 1 < n
                };
                &&& moved ==> e is ReloadTodos
                &&& !moved ==> e is Nothing
                &&& post == (App {
                    selected_topic: if moved {
                        if up {
                            (t - 1) as usize
                        } else {
                            (t + 1) as usize
                        }
                    } else {
                        t
                    },
                    ..pre
                })
            }
        },
        Focus::Todos => {
            let t = pre.selected_todo;
            let n = pre.todos@.len();
            &&& e is Nothing
            &&& post == (App {
                selected_todo: if jump {
                    if up {
                        0
                    } else {
                        last_index(n) as usize
                    }
                } else if up {
                    if t > 0 {
                        (t - 1) as usize
                    } else {
                        0
                    }
                } else {
                    if t + 1 < n {
                        (t + 1) as usize
                    } else {
                        t
                    }
                },
                ..pre
            })
        },
    }
}

/// `n` starts typing a new topic or todo (not in a built-in view), `e`
/// starts editing the selected one, `d` asks to delete it (not a built-in
/// view).
pub open spec fn line_step(pre: App, post: App, k: KeyPress, e: Effect) -> bool {
    &&& e is Nothing
    &&& if k.code == KeyCode::Char('n') {
        if pre.focus == Focus::Todos && on_virtual_topic(pre) {
            &&& post == (App { status_message: post.status_message, ..pre })
            &&& post.status_message matches Some(m) && m@ == "Cannot add todos to virtual topics"@
        } else {
            &&& post.input@.len() == 0
            &&& post == (App { mode: Mode::Insert, input: post.input, cursor_pos: 0, editing: false, ..pre })
        }
    } else if k.code == KeyCode::Char('e') {
        let line: Option<Seq<char>> = match pre.focus {
            Focus::Topics => if pre.selected_topic < pre.topics@.len() {
                Some(pre.topics@[pre.selected_topic as int].name@)
            } else {
                None
            },
            Focus::Todos => if pre.selected_todo < pre.todos@.len() {
                Some(pre.todos@[pre.selected_todo as int].text@)
            } else {
                None
            },
        };
        match line {
            Some(l) => {
                &&& post.input@ == l
                &&& post == (App {
                    input: post.input,
                    cursor_pos: l.len() as usize,
                    editing: true,
                    mode: Mode::Insert,
                    ..pre
                })
            },
            None => post == pre,
        }
    } else {
        let empty = match pre.focus {
            Focus::Topics => pre.topics@.len() == 0,
            Focus::Todos => pre.todos@.len() == 0,
        };
        if !empty && !on_virtual_topic(pre) {
            post == (App { confirm_delete: Some(pre.focus), ..pre })
        } else {
            post == pre
        }
    }
}

impl App {
    fn normal_focus(&mut self, k: KeyPress) -> (e: Effect)
        requires
            k.code == KeyCode::Char('1') || k.code == KeyCode::Char('2') || k.code == KeyCode::Tab
                || k.code == KeyCode::BackTab || k.code == KeyCode::Left || k.code == KeyCode::Right,
        ensures
            view_step(*old(self), *final(self), k, e),
    {
        if k.code == KeyCode::Char('1') || k.code == KeyCode::Char('2') {
            self.focus = if k.code == KeyCode::Char('1') {
                Focus::Topics
            } else {
                Focus::Todos
            };
            self.mode = Mode::Normal;
        } else if k.code == KeyCode::Tab || k.code == KeyCode::BackTab {
            self.focus = match self.focus {
                Focus::Topics => Focus::Todos,
                Focus::Todos => Focus::Topics,
            };
        } else {
            self.focus = if k.code == KeyCode::Left {
                Focus::Topics
            } else {
                Focus::Todos
            };
        }
        Effect::Nothing
    }

    fn normal_view(&mut self, k: KeyPress) -> (e: Effect)
        requires
            is_view_key(k),
        ensures
            view_step(*old(self), *final(self), k, e),
    {
        if k.code == KeyCode::Char('q') {
            self.confirm_quit = true;
            Effect::Nothing
        } else if k.code == KeyCode::Char('i') {
            self.show_info = true;
            Effect::Nothing
        } else if k.code == KeyCode::Char('/') {
            self.search_open = true;
            self.search_query = String::new();
            self.search_results = Vec::new();
            self.selected_search_result = 0;
            Effect::SearchCancel
        } else {
            self.normal_focus(k)
        }
    }

    fn normal_nav(&mut self, k: KeyPress) -> (e: Effect)
        requires
            is_nav_key(k),
        ensures
            nav_step(*old(self), *final(self), k, e),
    {
        let changed = if (k.code == KeyCode::Up || k.code == KeyCode::Down) && k.shift {
            if k.code == KeyCode::Up {
                self.nav_top()
            } else {
                self.nav_bottom()
            }
        } else if k.code == KeyCode::Up || k.code == KeyCode::Char('k') {
            self.nav_up()
        } else {
            self.nav_down()
        };
        if changed {
            Effect::ReloadTodos
        } else {
            Effect::Nothing
        }
    }

    fn normal_line(&mut self, k: KeyPress) -> (e: Effect)
        requires
            k.code == KeyCode::Char('n') || k.code == KeyCode::Char('e') || k.code == KeyCode::Char('d'),
        ensures
            line_step(*old(self), *final(self), k, e),
    {
        if k.code == KeyCode::Char('n') {
            if self.focus == Focus::Todos && self.is_virtual_topic() {
                self.status_message = Some(owned("Cannot add todos to virtual topics"));
            } else {
                self.mode = Mode::Insert;
                self.input = String::new();
                self.cursor_pos = 0;
                self.editing = false;
            }
        } else if k.code == KeyCode::Char('e') {
            let line = match self.focus {
                Focus::Topics => if self.selected_topic < self.topics.len() {
                    Some(self.topics[self.selected_topic].name.clone())
                } else {
                    None
                },
                Focus::Todos => if self.selected_todo < self.todos.len() {
                    Some(self.todos[self.selected_todo].text.clone())
                } else {
                    None
                },
            };
            if let Some(l) = line {
                self.cursor_pos = crate::text::chars_of(l.as_str()).len();
                self.input = l;
                self.editing = true;
                self.mode = Mode::Insert;
            }
        } else {
            let empty = match self.focus {
                Focus::Topics => self.topics.len() == 0,
                Focus::Todos => self.todos.len() == 0,
            };
            if !empty && !self.is_virtual_topic() {
                self.confirm_delete = Some(self.focus);
            }
        }
        Effect::Nothing
    }
}

/// The keys that act on the todo under the cursor.
pub open spec fn is_todo_key(k: KeyPress) -> bool {
    ||| k.code == KeyCode::Char(' ')
    ||| k.code == KeyCode::Enter
    ||| k.code == KeyCode::Char('o')
    ||| k.code == KeyCode::Char('s')
    ||| k.code == KeyCode::Char('@')
    ||| k.code == KeyCode::Char('+')
    ||| k.code == KeyCode::Char('-')
    ||| k.code == KeyCode::Char('p')
    ||| k.code == KeyCode::Char('m')
}

/// `o` with nothing to open: the status line says so.
pub open spec fn no_url_step(pre: App, post: App, e: Effect) -> bool {
    &&& e is Nothing
    &&& post == (App { status_message: post.status_message, ..pre })
    &&& post.status_message matches Some(m) && m@ == "No URL attached to this item"@
}

/// The keys on the todo under the cursor (with the todo list focused):
/// space advances its state, Enter opens its detail panel, `o` its link,
/// `s` switches the sort order, `@` opens the due-date popup, `+` and `-`
/// move its due date by a day, `p` cycles its priority, `m` opens the move
/// popup. With the topic list focused only `o` answers, that there is no
/// link.
pub open spec fn todo_key_step(pre: App, post: App, k: KeyPress, e: Effect, today: i32) -> bool {
    let sel = pre.selected_todo;
    let n = pre.todos@.len();
    if pre.focus != Focus::Todos {
        if k.code == KeyCode::Char('o') {
            no_url_step(pre, post, e)
        } else {
            e is Nothing && post == pre
        }
    } else if k.code == KeyCode::Char(' ') {
        &&& post == pre
        &&& sel < n ==> e == Effect::ToggleTodo(pre.todos@[sel as int].id)
        &&& sel >= n ==> e is Nothing
    } else if k.code == KeyCode::Enter {
        &&& post == pre
        &&& sel < n ==> e == Effect::OpenDetail(pre.todos@[sel as int].id)
        &&& sel >= n ==> e is Nothing
    } else if k.code == KeyCode::Char('o') {
        if sel < n && pre.todos@[sel as int].url is Some {
            post == pre && (e matches Effect::OpenUrl(u) && u@ == pre.todos@[sel as int].url->0@)
        } else {
            no_url_step(pre, post, e)
        }
    } else if k.code == KeyCode::Char('s') {
        e is ToggleSort && post == pre
    } else if k.code == KeyCode::Char('@') {
        &&& e is Nothing
        &&& n == 0 ==> post == pre
        &&& n > 0 ==> {
            &&& post == (App {
                due_popup: true,
                due_input: post.due_input,
                due_cursor: post.due_input@.len() as usize,
                ..pre
            })
            &&& post.due_input@ == (if sel < n {
                match pre.todos@[sel as int].due_date {
                    Some(x) => x@,
                    None => Seq::empty(),
                }
            } else {
                Seq::empty()
            })
        }
    } else if k.code == KeyCode::Char('+') || k.code == KeyCode::Char('-') {
        &&& post == pre
        &&& sel >= n ==> e is Nothing
        &&& sel < n ==> {
            let t = pre.todos@[sel as int];
            match snooze_spec(opt_str_view(t.due_date), today, snooze_days(k)) {
                SnoozeSpec::MovedTo(d) => e matches Effect::Snooze { todo_id, date } && todo_id == t.id && date@ == d,
                _ => e is Nothing,
            }
        }
    } else if k.code == KeyCode::Char('p') {
        &&& post == pre
        &&& sel < n ==> e == Effect::SetPriority {
            todo_id: pre.todos@[sel as int].id,
            priority: next_priority_spec(pre.todos@[sel as int].priority),
        }
        &&& sel >= n ==> e is Nothing
    } else {
        let targets = move_targets(pre.topics@, selected_todo_topic(pre.todos@, sel));
        &&& e is Nothing
        &&& n == 0 ==> post == pre
        &&& n > 0 && targets.len() == 0 ==> post == (App { status_message: post.status_message, ..pre })
            && (post.status_message matches Some(m) && m@ == "No other topics to move to"@)
        &&& n > 0 && targets.len() > 0 ==> post == (App { move_popup: true, move_popup_selected: 0, ..pre })
    }
}

/// `J` and `K` with the topic list focused swap the stored topic under the
/// cursor with the next or previous stored topic.
pub open spec fn reorder_step(pre: App, post: App, k: KeyPress, e: Effect) -> bool {
    let up = k.code == KeyCode::Char('K');
    let t = pre.selected_topic;
    &&& post == pre
    &&& if pre.focus == Focus::Topics && t < pre.topics@.len() && pre.topics@[t as int].id > 0
        && reorder_neighbor(pre.topics@, t as int, up) is Some {
        e == Effect::SwapTopics {
            topic_id: pre.topics@[t as int].id,
            neighbor_id: pre.topics@[reorder_neighbor(pre.topics@, t as int, up)->0].id,
        }
    } else {
        e is Nothing
    }
}

/// What a key does in the lists in normal mode: see [`view_step`],
/// [`nav_step`], [`line_step`], [`todo_key_step`] and [`reorder_step`];
/// besides, `S` opens the sync menu (unless a sync runs), `D` the daily
/// briefing and `V` shows or hides the built-in views.
pub open spec fn normal_step(pre: App, post: App, k: KeyPress, e: Effect, today: i32) -> bool {
    if is_view_key(k) {
        view_step(pre, post, k, e)
    } else if is_nav_key(k) {
        nav_step(pre, post, k, e)
    } else if k.code == KeyCode::Char('n') || k.code == KeyCode::Char('e') || k.code == KeyCode::Char('d') {
        line_step(pre, post, k, e)
    } else if is_todo_key(k) {
        todo_key_step(pre, post, k, e, today)
    } else if k.code == KeyCode::Char('J') || k.code == KeyCode::Char('K') {
        reorder_step(pre, post, k, e)
    } else if k.code == KeyCode::Char('S') {
        &&& e is Nothing
        &&& pre.sync_running ==> post == (App { status_message: post.status_message, ..pre })
            && (post.status_message matches Some(m) && m@ == "Sync already in progress"@)
        &&& !pre.sync_running ==> post == (App { sync_popup: true, sync_popup_selected: 0, ..pre })
    } else if k.code == KeyCode::Char('D') {
        e is OpenBriefing && post == pre
    } else if k.code == KeyCode::Char('V') {
        e is ToggleVirtualTopics && post == pre
    } else {
        e is Nothing && post == pre
    }
}

impl App {
    fn normal_todo_change(&mut self, k: KeyPress, today: i32) -> (e: Effect)
        requires
            crate::cal::day_in_range(today as int),
            old(self).focus == Focus::Todos,
            k.code == KeyCode::Char('@') || k.code == KeyCode::Char('+') || k.code == KeyCode::Char('-')
                || k.code == KeyCode::Char('p') || k.code == KeyCode::Char('m'),
            normal_key_ok(*old(self), k, today),
        ensures
            todo_key_step(*old(self), *final(self), k, e, today),
    {
        let sel = self.selected_todo;
        let n = self.todos.len();
        if k.code == KeyCode::Char('@') {
            self.open_due_popup();
            Effect::Nothing
        } else if k.code == KeyCode::Char('+') || k.code == KeyCode::Char('-') {
            if sel >= n {
                return Effect::Nothing;
            }
            let days: i64 = if k.code == KeyCode::Char('+') {
                1
            } else {
                -1
            };
            let t = &self.todos[sel];
            match snooze(&t.due_date, today, days) {
                Snooze::MovedTo(date) => Effect::Snooze { todo_id: t.id, date },
                _ => Effect::Nothing,
            }
        } else if k.code == KeyCode::Char('p') {
            match self.priority_cycle_target() {
                Some((todo_id, priority)) => Effect::SetPriority { todo_id, priority },
                None => Effect::Nothing,
            }
        } else {
            self.open_move_popup();
            Effect::Nothing
        }
    }

    fn normal_todo_key(&mut self, k: KeyPress, today: i32) -> (e: Effect)
        requires
            crate::cal::day_in_range(today as int),
            is_todo_key(k),
            normal_key_ok(*old(self), k, today),
        ensures
            todo_key_step(*old(self), *final(self), k, e, today),
    {
        let sel = self.selected_todo;
        let n = self.todos.len();
        if self.focus != Focus::Todos {
            if k.code == KeyCode::Char('o') {
                self.status_message = Some(owned("No URL attached to this item"));
            }
            return Effect::Nothing;
        }
        if k.code == KeyCode::Char(' ') {
            if sel < n {
                Effect::ToggleTodo(self.todos[sel].id)
            } else {
                Effect::Nothing
            }
        } else if k.code == KeyCode::Enter {
            if sel < n {
                Effect::OpenDetail(self.todos[sel].id)
            } else {
                Effect::Nothing
            }
        } else if k.code == KeyCode::Char('o') {
            if sel < n {
                if let Some(u) = &self.todos[sel].url {
                    return Effect::OpenUrl(u.clone());
                }
            }
            self.status_message = Some(owned("No URL attached to this item"));
            Effect::Nothing
        } else if k.code == KeyCode::Char('s') {
            Effect::ToggleSort
        } else {
            self.normal_todo_change(k, today)
        }
    }

    /// A key in the lists in normal mode (see [`normal_step`]).
    pub fn key_normal(&mut self, k: KeyPress, today: i32) -> (e: Effect)
        requires
            crate::cal::day_in_range(today as int),
            normal_key_ok(*old(self), k, today),
        ensures
            normal_step(*old(self), *final(self), k, e, today),
    {
        if k.code == KeyCode::Char('q') || k.code == KeyCode::Char('i') || k.code == KeyCode::Char('1')
            || k.code == KeyCode::Char('2') || k.code == KeyCode::Tab || k.code == KeyCode::BackTab
            || k.code == KeyCode::Left || k.code == KeyCode::Right || k.code == KeyCode::Char('/') {
            self.normal_view(k)
        } else if k.code == KeyCode::Up || k.code == KeyCode::Down || k.code == KeyCode::Char('k')
            || k.code == KeyCode::Char('j') {
            self.normal_nav(k)
        } else if k.code == KeyCode::Char('n') || k.code == KeyCode::Char('e') || k.code == KeyCode::Char('d') {
            self.normal_line(k)
        } else if k.code == KeyCode::Char(' ') || k.code == KeyCode::Enter || k.code == KeyCode::Char('o')
            || k.code == KeyCode::Char('s') || k.code == KeyCode::Char('@') || k.code == KeyCode::Char('+')
            || k.code == KeyCode::Char('-') || k.code == KeyCode::Char('p') || k.code == KeyCode::Char('m') {
            self.normal_todo_key(k, today)
        } else if k.code == KeyCode::Char('J') || k.code == KeyCode::Char('K') {
            if self.focus == Focus::Topics {
                match self.reorder_target(k.code == KeyCode::Char('K')) {
                    Some((topic_id, neighbor_id)) => Effect::SwapTopics { topic_id, neighbor_id },
                    None => Effect::Nothing,
                }
            } else {
                Effect::Nothing
            }
        } else if k.code == KeyCode::Char('S') {
            self.open_sync_popup();
            Effect::Nothing
        } else if k.code == KeyCode::Char('D') {
            Effect::OpenBriefing
        } else if k.code == KeyCode::Char('V') {
            Effect::ToggleVirtualTopics
        } else {
            Effect::Nothing
        }
    }
}

/// What a key does while typing a line in insert mode: Esc drops the line;
/// Enter stores it (a new or edited topic or todo, by the focused list),
/// unless it is empty; either way back to normal mode with an empty line.
/// Other keys edit the line.
pub open spec fn insert_step(pre: App, post: App, k: KeyPress, e: Effect) -> bool {
    if k.code == KeyCode::Esc || k.code == KeyCode::Enter {
        let line = pre.input@;
        &&& post.input@.len() == 0
        &&& post == (App { mode: Mode::Normal, input: post.input, cursor_pos: 0, editing: false, ..pre })
        &&& (k.code == KeyCode::Esc || line.len() == 0) ==> e is Nothing
        &&& (k.code == KeyCode::Enter && line.len() > 0) ==> match (pre.focus, pre.editing) {
            (Focus::Topics, true) => e matches Effect::UpdateTopic(t) && t@ == line,
            (Focus::Topics, false) => e matches Effect::AddTopic(t) && t@ == line,
            (Focus::Todos, true) => e matches Effect::UpdateTodo(t) && t@ == line,
            (Focus::Todos, false) => e matches Effect::AddTodo(t) && t@ == line,
        }
    } else {
        &&& e is Nothing
        &&& edited(pre.input@, pre.cursor_pos, edit_key_of(k), post.input@, post.cursor_pos)
        &&& post == (App { input: post.input, cursor_pos: post.cursor_pos, ..pre })
    }
}

/// The state can take a key without overflowing a cursor, leaving a comment
/// that is not there, scrolling past the detail panel's counter, or moving a
/// due date out of the calendar.
pub open spec fn key_ok(a: App, k: KeyPress, today: i32) -> bool {
    match layer_of(a) {
        Layer::DuePopup => due_popup_key_ok(a, k, today),
        Layer::Detail => detail_key_ok(a.detail->0, k, today),
        Layer::Briefing => briefing_key_ok(a, k, today),
        Layer::Normal => normal_key_ok(a, k, today),
        Layer::Insert => k.code is Char ==> a.cursor_pos < usize::MAX,
        _ => true,
    }
}

/// What a key does: the layer that takes it acts (the status line having
/// been cleared first).
pub open spec fn key_step(pre: App, post: App, k: KeyPress, e: Effect, today: i32) -> bool {
    match layer_of(pre) {
        Layer::ConfirmQuit => quit_step(pre, post, k, e),
        Layer::ConfirmDelete => delete_step(pre, post, k, e),
        Layer::Info => e is Nothing && post == (App { show_info: false, ..pre }),
        Layer::SyncMenu => sync_menu_step(pre, post, k, e),
        Layer::DuePopup => due_popup_step(pre, post, k, e, today),
        Layer::MovePopup => move_popup_step(pre, post, k, e),
        Layer::Detail => detail_step(pre, post, k, e, today),
        Layer::Briefing => briefing_step(pre, post, k, e, today),
        Layer::Search => search_step(pre, post, k, e),
        Layer::Normal => normal_step(pre, post, k, e, today),
        Layer::Insert => insert_step(pre, post, k, e),
    }
}

impl App {
    fn insert_line_effect(&self, line: String, esc: bool) -> (e: Effect)
        ensures
            (esc || line@.len() == 0) ==> e is Nothing,
            (!esc && line@.len() > 0) ==> match (self.focus, self.editing) {
                (Focus::Topics, true) => e matches Effect::UpdateTopic(t) && t@ == line@,
                (Focus::Topics, false) => e matches Effect::AddTopic(t) && t@ == line@,
                (Focus::Todos, true) => e matches Effect::UpdateTodo(t) && t@ == line@,
                (Focus::Todos, false) => e matches Effect::AddTodo(t) && t@ == line@,
            },
    {
        if esc || line.as_str().is_empty() {
            return Effect::Nothing;
        }
        match self.focus {
            Focus::Topics => if self.editing {
                Effect::UpdateTopic(line)
            } else {
                Effect::AddTopic(line)
            },
            Focus::Todos => if self.editing {
                Effect::UpdateTodo(line)
            } else {
                Effect::AddTodo(line)
            },
        }
    }

    fn insert_finish(&mut self, esc: bool) -> (e: Effect)
        ensures
            final(self).input@.len() == 0,
            *final(self) == (App { mode: Mode::Normal, input: final(self).input, cursor_pos: 0, editing: false, ..*old(self) }),
            (esc || old(self).input@.len() == 0) ==> e is Nothing,
            (!esc && old(self).input@.len() > 0) ==> match (old(self).focus, old(self).editing) {
                (Focus::Topics, true) => e matches Effect::UpdateTopic(t) && t@ == old(self).input@,
                (Focus::Topics, false) => e matches Effect::AddTopic(t) && t@ == old(self).input@,
                (Focus::Todos, true) => e matches Effect::UpdateTodo(t) && t@ == old(self).input@,
                (Focus::Todos, false) => e matches Effect::AddTodo(t) && t@ == old(self).input@,
            },
    {
        let e = self.insert_line_effect(self.input.clone(), esc);
        self.input = String::new();
        self.mode = Mode::Normal;
        self.cursor_pos = 0;
        self.editing = false;
        e
    }

    fn insert_edit(&mut self, k: KeyPress)
        requires
            k.code is Char ==> old(self).cursor_pos < usize::MAX,
        ensures
            edited(old(self).input@, old(self).cursor_pos, edit_key_of(k), final(self).input@, final(self).cursor_pos),
            *final(self) == (App { input: final(self).input, cursor_pos: final(self).cursor_pos, ..*old(self) }),
    {
        let key = edit_key(k);
        edit_field(&mut self.input, &mut self.cursor_pos, key);
    }

    /// A key while typing a line (see [`insert_step`]).
    pub fn key_insert(&mut self, k: KeyPress) -> (e: Effect)
        requires
            k.code is Char ==> old(self).cursor_pos < usize::MAX,
        ensures
            insert_step(*old(self), *final(self), k, e),
    {
        if k.code == KeyCode::Esc || k.code == KeyCode::Enter {
            self.insert_finish(k.code == KeyCode::Esc)
        } else {
            self.insert_edit(k);
            Effect::Nothing
        }
    }

    /// Handles a key press: clears the status line, then the layer that
    /// takes keys acts (see [`key_step`]) and returns the outside work to
    /// do.
    pub fn handle_key(&mut self, k: KeyPress, today: i32) -> (e: Effect)
        requires
            crate::cal::day_in_range(today as int),
            key_ok(*old(self), k, today),
        ensures
            key_step(App { status_message: None, ..*old(self) }, *final(self), k, e, today),
    {
        self.status_message = None;
        match self.layer() {
            Layer::ConfirmQuit => self.key_confirm_quit(k),
            Layer::ConfirmDelete => self.key_confirm_delete(k),
            Layer::Info => self.key_info(k),
            Layer::SyncMenu => self.key_sync_menu(k),
            Layer::DuePopup => self.key_due_popup(k, today),
            Layer::MovePopup => self.key_move_popup(k),
            Layer::Detail => self.key_detail(k, today),
            Layer::Briefing => self.key_briefing(k, today),
            Layer::Search => self.key_search(k),
            Layer::Normal => self.key_normal(k, today),
            Layer::Insert => self.key_insert(k),
        }
    }
}

/// Typing a character into the line being written and then pressing
/// Backspace gives back the line and its cursor.
pub proof fn lemma_backspace_undoes_typing(
    pre: App,
    mid: App,
    post: App,
    typed: KeyPress,
    back: KeyPress,
    e1: Effect,
    e2: Effect,
    today: i32,
)
    requires
        layer_of(pre) == Layer::Insert,
        pre.cursor_pos <= pre.input@.len(),
        typed.code is Char,
        back.code == KeyCode::Backspace,
        key_step(pre, mid, typed, e1, today),
        key_step(App { status_message: None, ..mid }, post, back, e2, today),
    ensures
        post.input@ == pre.input@,
        post.cursor_pos == pre.cursor_pos,
        e1 is Nothing && e2 is Nothing,
{
    let c = typed.code->0;
    lemma_delete_undoes_insert(pre.input@, pre.cursor_pos as int, c);
    assert(layer_of(App { status_message: None, ..mid }) == Layer::Insert);
}

/// Esc closes the popup or overlay that takes it (the sync menu, the
/// due-date popup, the move popup, the detail panel, the daily briefing or
/// the search overlay) and asks for no outside work.
pub proof fn lemma_esc_closes(pre: App, post: App, k: KeyPress, e: Effect, today: i32)
    requires
        k.code == KeyCode::Esc,
        key_step(pre, post, k, e, today),
    ensures
        layer_of(pre) != Layer::Normal && layer_of(pre) != Layer::ConfirmDelete && layer_of(pre) != Layer::ConfirmQuit
            ==> e is Nothing,
        layer_of(pre) == Layer::SyncMenu ==> !post.sync_popup,
        layer_of(pre) == Layer::DuePopup ==> !post.due_popup,
        layer_of(pre) == Layer::MovePopup ==> !post.move_popup,
        layer_of(pre) == Layer::Detail ==> post.detail is None,
        layer_of(pre) == Layer::Briefing ==> !post.briefing_open,
        layer_of(pre) == Layer::Search ==> !post.search_open,
        layer_of(pre) == Layer::Insert ==> post.mode == Mode::Normal,
{
}

/// Whether the scroll offset that shows a field fits (see [`scroll_fits`]).
pub fn fits_scroll(f: DetailField) -> (r: bool)
    ensures
        r == scroll_fits(f),
{
    match f {
        DetailField::ExistingComment(i) => {
            let t = i as u16;
            (t as u32) * 4 + 14 <= 65535
        },
        _ => true,
    }
}

impl DetailState {
    /// Whether the detail panel can take a key (see [`detail_key_ok`]).
    pub fn takes(&self, k: KeyPress, today: i32) -> (r: bool)
        requires
            crate::cal::day_in_range(today as int),
        ensures
            r == detail_key_ok(*self, k, today),
    {
        let n = self.comments.len();
        let exists = match self.field {
            DetailField::ExistingComment(i) => i < n,
            _ => true,
        };
        let leaves = k.code == KeyCode::Enter || k.code == KeyCode::Tab || k.code == KeyCode::BackTab
            || k.code == KeyCode::Char('c') || k.code == KeyCode::Char('d') || k.code == KeyCode::Delete;
        if leaves && !exists {
            return false;
        }
        if k.code == KeyCode::Tab && !fits_scroll(self.field.next(n)) {
            return false;
        }
        if k.code == KeyCode::BackTab && !fits_scroll(self.field.prev(n)) {
            return false;
        }
        let cursor = match self.field {
            DetailField::Text => self.text_cursor,
            DetailField::Due => self.due_cursor,
            DetailField::Url => self.url_cursor,
            DetailField::NewComment => self.new_comment_cursor,
            DetailField::ExistingComment(_) => self.comment_edit_cursor,
            DetailField::Priority => 0,
        };
        let typing = match k.code {
            KeyCode::Char(_) => true,
            _ => false,
        };
        if typing && cursor == usize::MAX {
            return false;
        }
        let stores = match self.field {
            DetailField::NewComment | DetailField::ExistingComment(_) => false,
            _ => k.code == KeyCode::Enter,
        };
        if stores {
            if let DueParse::OutOfRange = parse(self.due.as_str(), today) {
                return false;
            }
        }
        true
    }
}

/// Whether moving a stored due date by the days of `+` or `-` stays within
/// the calendar.
fn snooze_fits(due: &Option<String>, today: i32, k: KeyPress) -> (r: bool)
    requires
        crate::cal::day_in_range(today as int),
    ensures
        r == !(snooze_spec(opt_str_view(*due), today, snooze_days(k)) is OutOfRange),
{
    let days: i64 = if k.code == KeyCode::Char('+') {
        1
    } else {
        -1
    };
    match snooze(due, today, days) {
        Snooze::OutOfRange => false,
        _ => true,
    }
}

impl App {
    /// Whether the state can take a key (see [`key_ok`]); a key it cannot
    /// take would overflow a cursor, leave a comment that is not there,
    /// scroll past the detail panel's counter or move a due date out of the
    /// calendar.
    pub fn accepts(&self, k: KeyPress, today: i32) -> (r: bool)
        requires
            crate::cal::day_in_range(today as int),
        ensures
            r == key_ok(*self, k, today),
    {
        let typing = match k.code {
            KeyCode::Char(_) => true,
            _ => false,
        };
        let snoozing = k.code == KeyCode::Char('+') || k.code == KeyCode::Char('-');
        match self.layer() {
            Layer::DuePopup => {
                if typing && self.due_cursor == usize::MAX {
                    return false;
                }
                if k.code == KeyCode::Enter && self.selected_todo < self.todos.len() {
                    if let DueParse::OutOfRange = parse(self.due_input.as_str(), today) {
                        return false;
                    }
                }
                true
            },
            Layer::Detail => match &self.detail {
                Some(d) => d.takes(k, today),
                None => true,
            },
            Layer::Briefing => {
                if snoozing && self.selected_briefing < self.briefing_items.len() {
                    snooze_fits(&self.briefing_items[self.selected_briefing].todo.due_date, today, k)
                } else {
                    true
                }
            },
            Layer::Normal => {
                if self.focus == Focus::Todos && snoozing && self.selected_todo < self.todos.len() {
                    snooze_fits(&self.todos[self.selected_todo].due_date, today, k)
                } else {
                    true
                }
            },
            Layer::Insert => !typing || self.cursor_pos < usize::MAX,
            _ => true,
        }
    }
}

} // verus!
