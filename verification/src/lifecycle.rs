//! The life cycle of a todo: its state, its priority and its due date.
use vstd::prelude::*;
use crate::cal::{add_days, day_in_range, format_date, formatted_date, parse_date, parsed_date, plus_days};

verus! {

/// The four states of a todo.
#[derive(Clone, Copy, PartialEq, Eq, Debug, Structural)]
pub enum TodoState {
    Todo,
    InProgress,
    Blocked,
    Done,
}

/// The state the flags of a todo stand for (`done` first, then
/// `in_progress`, then `blocked`).
pub open spec fn state_spec(done: bool, in_progress: bool, blocked: bool) -> TodoState {
    if done {
        TodoState::Done
    } else if in_progress {
        TodoState::InProgress
    } else if blocked {
        TodoState::Blocked
    } else {
        TodoState::Todo
    }
}

/// The state after one press of the toggle key: todo, in progress,
/// blocked, done, and back to todo.
pub open spec fn next_state(s: TodoState) -> TodoState {
    match s {
        TodoState::Todo => TodoState::InProgress,
        TodoState::InProgress => TodoState::Blocked,
        TodoState::Blocked => TodoState::Done,
        TodoState::Done => TodoState::Todo,
    }
}

/// The flags (done, in progress, blocked) of a state.
pub open spec fn state_flags(s: TodoState) -> (bool, bool, bool) {
    match s {
        TodoState::Todo => (false, false, false),
        TodoState::InProgress => (false, true, false),
        TodoState::Blocked => (false, false, true),
        TodoState::Done => (true, false, false),
    }
}

/// How a timestamp changes when a todo changes state.
#[derive(Clone, Copy, PartialEq, Eq, Debug, Structural)]
pub enum Stamp {
    /// Leave it as it is.
    Keep,
    /// Set it to now.
    SetNow,
    /// Remove it.
    Clear,
}

/// What one press of the toggle key does to a todo.
pub struct Toggle {
    pub done: bool,
    pub in_progress: bool,
    pub blocked: bool,
    /// The change to the time work started.
    pub started_at: Stamp,
    /// The change to the time the todo was completed.
    pub completed_at: Stamp,
}

/// The state of a todo's flags.
pub fn state_of(done: bool, in_progress: bool, blocked: bool) -> (r: TodoState)
    ensures
        r == state_spec(done, in_progress, blocked),
{
    if done {
        TodoState::Done
    } else if in_progress {
        TodoState::InProgress
    } else if blocked {
        TodoState::Blocked
    } else {
        TodoState::Todo
    }
}

/// Advances a todo to its next state. Starting work records now as the
/// time it started; completing records when; going back to todo clears
/// both times.
pub fn toggle(done: bool, in_progress: bool, blocked: bool) -> (r: Toggle)
    ensures
        (r.done, r.in_progress, r.blocked) == state_flags(
            next_state(state_spec(done, in_progress, blocked)),
        ),
        state_spec(done, in_progress, blocked) == TodoState::Todo ==> r.started_at
            == Stamp::SetNow && r.completed_at == Stamp::Clear,
        state_spec(done, in_progress, blocked) == TodoState::InProgress ==> r.started_at
            == Stamp::Keep && r.completed_at == Stamp::Clear,
        state_spec(done, in_progress, blocked) == TodoState::Blocked ==> r.started_at
            == Stamp::Keep && r.completed_at == Stamp::SetNow,
        state_spec(done, in_progress, blocked) == TodoState::Done ==> r.started_at
            == Stamp::Clear && r.completed_at == Stamp::Clear,
{
    match state_of(done, in_progress, blocked) {
        TodoState::Todo => Toggle {
            done: false,
            in_progress: true,
            blocked: false,
            started_at: Stamp::SetNow,
            completed_at: Stamp::Clear,
        },
        TodoState::InProgress => Toggle {
            done: false,
            in_progress: false,
            blocked: true,
            started_at: Stamp::Keep,
            completed_at: Stamp::Clear,
        },
        TodoState::Blocked => Toggle {
            done: true,
            in_progress: false,
            blocked: false,
            started_at: Stamp::Keep,
            completed_at: Stamp::SetNow,
        },
        TodoState::Done => Toggle {
            done: false,
            in_progress: false,
            blocked: false,
            started_at: Stamp::Clear,
            completed_at: Stamp::Clear,
        },
    }
}

/// Four presses of the toggle key bring any todo back to the state it had,
/// passing through every state once.
pub proof fn lemma_toggle_cycle(s: TodoState)
    ensures
        next_state(next_state(next_state(next_state(s)))) == s,
        next_state(s) != s,
        next_state(next_state(s)) != s,
        next_state(next_state(next_state(s))) != s,
{
}

/// The flags of a state stand for that state.
pub proof fn lemma_flags_roundtrip(s: TodoState)
    ensures
        state_spec(state_flags(s).0, state_flags(s).1, state_flags(s).2) == s,
{
}

/// The priority after one press of the priority key: none, high, medium,
/// low, none.
pub open spec fn next_priority_spec(p: Option<u8>) -> Option<u8> {
    match p {
        None => Some(1u8),
        Some(1u8) => Some(2u8),
        Some(2u8) => Some(3u8),
        _ => None,
    }
}

/// Cycles a priority: none, `!1`, `!2`, `!3`, none.
pub fn next_priority(p: Option<u8>) -> (r: Option<u8>)
    ensures
        r == next_priority_spec(p),
{
    match p {
        None => Some(1),
        Some(1) => Some(2),
        Some(2) => Some(3),
        _ => None,
    }
}

/// Four presses of the priority key give back the priority a todo had
/// (any valid one: none, 1, 2 or 3).
pub proof fn lemma_priority_cycle(p: Option<u8>)
    requires
        p is None || p == Some(1u8) || p == Some(2u8) || p == Some(3u8),
    ensures
        next_priority_spec(next_priority_spec(next_priority_spec(next_priority_spec(p)))) == p,
{
}

/// The outcome of moving a due date.
pub enum Snooze {
    /// Nothing changes.
    Unchanged,
    /// The new due date, as `YYYY-MM-DD`.
    MovedTo(String),
    /// The new date would be outside the calendar's range.
    OutOfRange,
}

/// The spec view of a snooze.
pub ghost enum SnoozeSpec {
    Unchanged,
    MovedTo(Seq<char>),
    OutOfRange,
}

/// The spec view of a snooze outcome.
pub open spec fn snooze_view(s: Snooze) -> SnoozeSpec {
    match s {
        Snooze::Unchanged => SnoozeSpec::Unchanged,
        Snooze::MovedTo(x) => SnoozeSpec::MovedTo(x@),
        Snooze::OutOfRange => SnoozeSpec::OutOfRange,
    }
}

/// The day a stored due date names, when it reads as `YYYY-MM-DD`.
pub open spec fn stored_due_day(due: Option<Seq<char>>) -> Option<i32> {
    match due {
        Some(s) => parsed_date(s, "%Y-%m-%d"@),
        None => None,
    }
}

/// Moving a due date by `days`: from the stored date when there is one,
/// else from today when moving forward; moving back without a date does
/// nothing.
pub open spec fn snooze_spec(due: Option<Seq<char>>, today: i32, days: int) -> SnoozeSpec {
    let base = match stored_due_day(due) {
        Some(d) => Some(d as int),
        None => if days < 0 {
            None
        } else {
            Some(today as int)
        },
    };
    match base {
        None => SnoozeSpec::Unchanged,
        Some(b) => match add_days(b, days) {
            Some(n) => SnoozeSpec::MovedTo(formatted_date(n as i32, "%Y-%m-%d"@)),
            None => SnoozeSpec::OutOfRange,
        },
    }
}

/// Snoozing moves a stored due date `d` to `d + days`, whatever day it
/// is today (an overdue date moves from itself, not from today); without
/// a stored date, moving forward counts from today and moving back does
/// nothing.
pub proof fn lemma_snooze_moves_from_the_due_date(due: Option<Seq<char>>, today: i32, other_day: i32, days: int)
    ensures
        stored_due_day(due) matches Some(d) ==> (crate::cal::MIN_DAY <= d + days <= crate::cal::MAX_DAY
            ==> snooze_spec(due, today, days) == SnoozeSpec::MovedTo(formatted_date((d + days) as i32, "%Y-%m-%d"@))),
        stored_due_day(due) is Some ==> snooze_spec(due, today, days) == snooze_spec(due, other_day, days),
        stored_due_day(due) is None && days >= 0 && today + days <= crate::cal::MAX_DAY
            && crate::cal::MIN_DAY <= today ==> snooze_spec(due, today, days) == SnoozeSpec::MovedTo(
            formatted_date((today + days) as i32, "%Y-%m-%d"@),
        ),
        stored_due_day(due) is None && days < 0 ==> snooze_spec(due, today, days) == SnoozeSpec::Unchanged,
{
}

/// Moves a due date by `days` (positive = later).
pub fn snooze(due: &Option<String>, today: i32, days: i64) -> (r: Snooze)
    requires
        day_in_range(today as int),
    ensures
        snooze_view(r) == snooze_spec(crate::models::opt_str_view(*due), today, days as int),
{
    let stored = match due {
        Some(s) => parse_date(s.as_str(), "%Y-%m-%d"),
        None => None,
    };
    let base = match stored {
        Some(d) => d,
        None => {
            if days < 0 {
                return Snooze::Unchanged;
            }
            today
        },
    };
    match plus_days(base, days) {
        Some(n) => Snooze::MovedTo(format_date(n, "%Y-%m-%d")),
        None => Snooze::OutOfRange,
    }
}

} // verus!
