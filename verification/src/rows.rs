//! The text of the rows of the topic list, the todo list and the daily
//! briefing, and of the line being typed.
use vstd::prelude::*;
use crate::app::{BriefingItem, BriefingSection};
use crate::cal::{day_in_range, parse_date};
use crate::due_date::{DueColor, due_label, label};
use crate::lifecycle::stored_due_day;
use crate::models::{Todo, Topic, opt_str_view};
use crate::text::{chars_of, owned, push_char, push_chars, push_signed_decimal, signed_decimal, slice_vec, string_of};
use crate::ui::{briefing_topic, stripped_url, strip_url, truncate, truncated};

verus! {

/// The check box of a todo: done, in progress, blocked, or still to do.
pub open spec fn check_mark_spec(done: bool, in_progress: bool, blocked: bool) -> Seq<char> {
    if done {
        "[x]"@
    } else if in_progress {
        "[~]"@
    } else if blocked {
        "[\u{2298}]"@
    } else {
        "[ ]"@
    }
}

/// The check box of a todo.
pub fn check_mark(done: bool, in_progress: bool, blocked: bool) -> (r: &'static str)
    ensures
        r@ == check_mark_spec(done, in_progress, blocked),
{
    if done {
        "[x]"
    } else if in_progress {
        "[~]"
    } else if blocked {
        "[\u{2298}]"
    } else {
        "[ ]"
    }
}

/// The priority tag before a todo's text (empty without a priority).
pub open spec fn priority_tag_spec(p: Option<u8>) -> Seq<char> {
    match p {
        Some(1u8) => "[!!] "@,
        Some(2u8) => "[!] "@,
        Some(3u8) => "[.] "@,
        _ => Seq::empty(),
    }
}

/// The priority tag before a todo's text.
pub fn priority_tag(p: Option<u8>) -> (r: &'static str)
    ensures
        r@ == priority_tag_spec(p),
{
    proof {
        reveal_strlit("");
    }
    match p {
        Some(x) => if x == 1 {
            "[!!] "
        } else if x == 2 {
            "[!] "
        } else if x == 3 {
            "[.] "
        } else {
            ""
        },
        None => "",
    }
}

/// The due-date badge of a todo: its label in brackets followed by a space,
/// when the stored date reads as `YYYY-MM-DD`.
pub open spec fn due_badge_spec(due: Option<Seq<char>>, today: i32) -> Option<(Seq<char>, DueColor)> {
    match stored_due_day(due) {
        Some(d) => Some(("["@ + due_label(d, today).0 + "] "@, due_label(d, today).1)),
        None => None,
    }
}

/// The due-date badge of a todo.
pub fn due_badge(due: &Option<String>, today: i32) -> (r: Option<(String, DueColor)>)
    requires
        day_in_range(today as int),
    ensures
        match r {
            Some((s, c)) => due_badge_spec(opt_str_view(*due), today) == Some((s@, c)),
            None => due_badge_spec(opt_str_view(*due), today) is None,
        },
{
    let day = match due {
        Some(s) => parse_date(s.as_str(), "%Y-%m-%d"),
        None => None,
    };
    match day {
        Some(d) => {
            let (l, c) = label(d, today);
            let mut s = owned("[");
            let lv = chars_of(l.as_str());
            push_chars(&mut s, &lv);
            push_char(&mut s, ']');
            push_char(&mut s, ' ');
            proof {
                reveal_strlit("[");
                reveal_strlit("] ");
            }
            assert(s@ =~= "["@ + l@ + "] "@);
            Some((s, c))
        },
        None => None,
    }
}

/// The width left for a text in a row of `width` columns once `fixed`
/// columns are taken (none when they do not fit).
pub open spec fn room(width: int, fixed: int) -> nat {
    if width >= fixed {
        (width - fixed) as nat
    } else {
        0
    }
}

/// The length of a badge (0 without one).
pub open spec fn badge_len(b: Option<(Seq<char>, DueColor)>) -> int {
    match b {
        Some((s, _)) => s.len() as int,
        None => 0,
    }
}

/// The text of a todo as a row shows it: without its link when it has one,
/// cut to the room `fixed` columns leave of `width`.
pub open spec fn row_text(t: Todo, width: int, fixed: int) -> Seq<char> {
    let src = if t.url is Some {
        stripped_url(t.text@)
    } else {
        t.text@
    };
    truncated(src, room(width, fixed))
}

fn text_room(width: u16, fixed: u128) -> (r: usize)
    ensures
        r == room(width as int, fixed as int),
{
    if (width as u128) >= fixed {
        (width as u128 - fixed) as usize
    } else {
        0
    }
}

/// The columns a todo row of the todo list takes besides the text: the
/// margin and check box (12), the priority tag, the due badge and the link
/// mark (` link↗`).
pub open spec fn todo_row_fixed(t: Todo, today: i32) -> int {
    12 + priority_tag_spec(t.priority).len() + badge_len(due_badge_spec(opt_str_view(t.due_date), today)) + if t.url is Some {
        6int
    } else {
        0int
    }
}

fn char_len(s: &str) -> (r: usize)
    ensures
        r == s@.len(),
{
    chars_of(s).len()
}

fn display_source(t: &Todo) -> (r: String)
    ensures
        r@ == if t.url is Some {
            stripped_url(t.text@)
        } else {
            t.text@
        },
{
    if t.url.is_some() {
        strip_url(t.text.as_str())
    } else {
        t.text.clone()
    }
}

/// The text of a todo in the todo list, `width` columns wide.
pub fn todo_row_text(t: &Todo, width: u16, today: i32) -> (r: String)
    requires
        day_in_range(today as int),
    ensures
        r@ == row_text(*t, width as int, todo_row_fixed(*t, today)),
{
    let badge = due_badge(&t.due_date, today);
    let bl = match &badge {
        Some((s, _)) => char_len(s.as_str()),
        None => 0,
    };
    let link: usize = if t.url.is_some() {
        6
    } else {
        0
    };
    let fixed: u128 = 12 + char_len(priority_tag(t.priority)) as u128 + bl as u128 + link as u128;
    let max = text_room(width, fixed);
    let src = display_source(t);
    truncate(src.as_str(), max)
}

/// The columns a row of the daily briefing takes besides the text: the
/// selector (2), the check box and a space (4), the priority tag, the due
/// badge, the link mark (` ↗`), two spaces and the topic's short name.
pub open spec fn briefing_row_fixed(t: Todo, topic: Seq<char>, today: i32) -> int {
    2 + 4 + priority_tag_spec(t.priority).len() + badge_len(due_badge_spec(opt_str_view(t.due_date), today)) + (if t.url is Some {
        2int
    } else {
        0int
    }) + 2 + topic.len()
}

/// The text of a todo in a row of the daily briefing, `width` columns wide,
/// beside the short name `topic` of its topic.
pub fn briefing_row_text(t: &Todo, topic: &str, width: u16, today: i32) -> (r: String)
    requires
        day_in_range(today as int),
    ensures
        r@ == row_text(*t, width as int, briefing_row_fixed(*t, topic@, today)),
{
    let badge = due_badge(&t.due_date, today);
    let bl = match &badge {
        Some((s, _)) => char_len(s.as_str()),
        None => 0,
    };
    let link: usize = if t.url.is_some() {
        2
    } else {
        0
    };
    let fixed: u128 = 2 + 4 + char_len(priority_tag(t.priority)) as u128 + bl as u128 + link as u128 + 2
        + char_len(topic) as u128;
    let max = text_room(width, fixed);
    let src = display_source(t);
    truncate(src.as_str(), max)
}

/// The heading of a section of the daily briefing.
pub open spec fn section_heading_spec(s: BriefingSection) -> Seq<char> {
    match s {
        BriefingSection::MustDo => "\u{26a1} Must Do"@,
        BriefingSection::InFlight => "\u{1f504} In Flight"@,
        BriefingSection::Recommended => "\u{1f4cb} Recommended"@,
        BriefingSection::Waiting => "\u{2298} Waiting"@,
    }
}

/// The heading of a section of the daily briefing.
pub fn section_heading(s: BriefingSection) -> (r: &'static str)
    ensures
        r@ == section_heading_spec(s),
{
    match s {
        BriefingSection::MustDo => "\u{26a1} Must Do",
        BriefingSection::InFlight => "\u{1f504} In Flight",
        BriefingSection::Recommended => "\u{1f4cb} Recommended",
        BriefingSection::Waiting => "\u{2298} Waiting",
    }
}

/// The count shown after a topic's name: the number of todos for a built-in
/// view, else done out of all.
pub open spec fn count_label_spec(id: i64, total: i64, done: i64) -> Seq<char> {
    if id < 0 {
        " ["@ + signed_decimal(total as int) + "]"@
    } else {
        " ["@ + signed_decimal(done as int) + "/"@ + signed_decimal(total as int) + "]"@
    }
}

/// The count shown after a topic's name, and whether the topic is complete
/// (a stored topic with todos, all done).
pub fn count_label(id: i64, total: i64, done: i64) -> (r: (String, bool))
    ensures
        r.0@ == count_label_spec(id, total, done),
        r.1 == (id >= 0 && done == total && total > 0),
{
    proof {
        reveal_strlit(" [");
        reveal_strlit("]");
        reveal_strlit("/");
    }
    let mut s = owned(" [");
    if id >= 0 {
        push_signed_decimal(&mut s, done);
        push_char(&mut s, '/');
    }
    push_signed_decimal(&mut s, total);
    push_char(&mut s, ']');
    if id < 0 {
        assert(s@ =~= " ["@ + signed_decimal(total as int) + "]"@);
    } else {
        assert(s@ =~= " ["@ + signed_decimal(done as int) + "/"@ + signed_decimal(total as int) + "]"@);
    }
    (s, id >= 0 && done == total && total > 0)
}

/// The number of built-in views at the top of a topic list.
pub open spec fn view_count(topics: Seq<Topic>) -> nat
    decreases topics.len(),
{
    if topics.len() == 0 {
        0
    } else {
        view_count(topics.drop_last()) + if topics.last().id < 0 {
            1nat
        } else {
            0nat
        }
    }
}

/// Some topic of the list is stored.
pub open spec fn has_stored(topics: Seq<Topic>) -> bool {
    exists|i: int| 0 <= i < topics.len() && topics[i].id > 0
}

/// The row of the separator between the built-in views and the stored
/// topics, when the list has both.
pub open spec fn separator_row_spec(topics: Seq<Topic>) -> Option<nat> {
    if view_count(topics) > 0 && has_stored(topics) {
        Some(view_count(topics))
    } else {
        None
    }
}

proof fn lemma_view_count_bound(topics: Seq<Topic>)
    ensures
        view_count(topics) <= topics.len(),
    decreases topics.len(),
{
    if topics.len() > 0 {
        lemma_view_count_bound(topics.drop_last());
    }
}

/// The row of the separator between the built-in views and the stored
/// topics.
pub fn separator_row(topics: &Vec<Topic>) -> (r: Option<usize>)
    ensures
        r matches Some(n) ==> separator_row_spec(topics@) == Some(n as nat),
        r is None ==> separator_row_spec(topics@) is None,
{
    let mut views: usize = 0;
    let mut stored = false;
    let mut i: usize = 0;
    while i < topics.len()
        invariant
            i <= topics.len(),
            views == view_count(topics@.take(i as int)),
            views <= i,
            stored == (exists|j: int| 0 <= j < i && topics@[j].id > 0),
        decreases topics.len() - i,
    {
        assert(topics@.take(i + 1).drop_last() =~= topics@.take(i as int));
        if topics[i].id < 0 {
            views = views + 1;
        }
        if topics[i].id > 0 {
            stored = true;
        }
        i = i + 1;
    }
    assert(topics@.take(topics.len() as int) =~= topics@);
    if views > 0 && stored {
        Some(views)
    } else {
        None
    }
}

/// The row of topic `idx` in the drawn list: one further down past the
/// separator.
pub open spec fn list_row_spec(topics: Seq<Topic>, idx: nat) -> nat {
    match separator_row_spec(topics) {
        Some(s) => if idx >= s {
            idx + 1
        } else {
            idx
        },
        None => idx,
    }
}

/// The row of topic `idx` in the drawn list.
pub fn list_row(topics: &Vec<Topic>, idx: usize) -> (r: usize)
    requires
        idx < usize::MAX,
    ensures
        r == list_row_spec(topics@, idx as nat),
{
    match separator_row(topics) {
        Some(s) => if idx >= s {
            idx + 1
        } else {
            idx
        },
        None => idx,
    }
}

/// The line being typed split at its cursor: the text before it, the
/// character under it (an underscore past the end), and the text after.
pub open spec fn cursor_parts_spec(s: Seq<char>, cursor: nat) -> (Seq<char>, Seq<char>, Seq<char>) {
    let at = if cursor < s.len() {
        cursor as int
    } else {
        s.len() as int
    };
    if cursor < s.len() {
        (s.take(at), seq![s[at]], s.skip(at + 1))
    } else {
        (s, seq!['_'], Seq::empty())
    }
}

/// Splits the line being typed at its cursor.
pub fn cursor_parts(s: &str, cursor: usize) -> (r: (String, String, String))
    ensures
        (r.0@, r.1@, r.2@) == cursor_parts_spec(s@, cursor as nat),
{
    let v = chars_of(s);
    if cursor < v.len() {
        let before = string_of(&slice_vec(&v, 0, cursor));
        let mut at = String::new();
        push_char(&mut at, v[cursor]);
        let after = string_of(&slice_vec(&v, cursor + 1, v.len()));
        assert(v@.subrange(0, cursor as int) =~= v@.take(cursor as int));
        assert(v@.subrange(cursor + 1, v.len() as int) =~= v@.skip(cursor + 1));
        assert(at@ =~= seq![v@[cursor as int]]);
        (before, at, after)
    } else {
        let mut at = String::new();
        push_char(&mut at, '_');
        assert(at@ =~= seq!['_']);
        (string_of(&v), at, String::new())
    }
}

/// The first shown line of a text field `rows` lines high and `width`
/// columns wide wrapped at its width: the line of the cursor is the last
/// shown once it is past the first `rows` lines.
pub open spec fn field_top_line(cursor: nat, rows: nat, width: nat) -> nat {
    let line: nat = if width > 0 {
        cursor / width
    } else {
        0
    };
    if line >= rows - 1 {
        (line - (rows - 1)) as nat
    } else {
        0
    }
}

/// The first shown line of a wrapped text field.
pub fn field_top(cursor: usize, rows: usize, width: usize) -> (r: usize)
    requires
        rows >= 1,
    ensures
        r == field_top_line(cursor as nat, rows as nat, width as nat),
{
    let line = if width > 0 {
        cursor / width
    } else {
        0
    };
    if line >= rows - 1 {
        line - (rows - 1)
    } else {
        0
    }
}

/// The done and total counts of the stored topics, summed.
pub open spec fn stored_totals(counts: Seq<(i64, i64, i64)>) -> (int, int)
    decreases counts.len(),
{
    if counts.len() == 0 {
        (0, 0)
    } else {
        let (d, t) = stored_totals(counts.drop_last());
        let (id, total, done) = counts.last();
        if id > 0 {
            (d + done, t + total)
        } else {
            (d, t)
        }
    }
}

/// Every partial sum of the stored topics' counts fits in an `i64`.
pub open spec fn totals_fit(counts: Seq<(i64, i64, i64)>) -> bool {
    forall|k: int|
        0 <= k <= counts.len() ==> i64::MIN <= (#[trigger] stored_totals(counts.take(k))).0 <= i64::MAX
            && i64::MIN <= stored_totals(counts.take(k)).1 <= i64::MAX
}

/// The done and total counts over all stored topics (entries are topic id,
/// total and done); none when a sum overflows an `i64`.
pub fn count_totals(counts: &Vec<(i64, i64, i64)>) -> (r: Option<(i64, i64)>)
    ensures
        r is Some <==> totals_fit(counts@),
        r matches Some((d, t)) ==> (d as int, t as int) == stored_totals(counts@),
{
    let mut done: i64 = 0;
    let mut total: i64 = 0;
    let mut i: usize = 0;
    while i < counts.len()
        invariant
            i <= counts.len(),
            (done as int, total as int) == stored_totals(counts@.take(i as int)),
            forall|k: int|
                0 <= k <= i ==> i64::MIN <= (#[trigger] stored_totals(counts@.take(k))).0 <= i64::MAX
                    && i64::MIN <= stored_totals(counts@.take(k)).1 <= i64::MAX,
        decreases counts.len() - i,
    {
        assert(counts@.take(i + 1).drop_last() =~= counts@.take(i as int));
        assert(counts@.take(i + 1).last() == counts@[i as int]);
        let (id, t, d) = counts[i];
        if id > 0 {
            match (done.checked_add(d), total.checked_add(t)) {
                (Some(nd), Some(nt)) => {
                    done = nd;
                    total = nt;
                },
                _ => {
                    assert(!(i64::MIN <= stored_totals(counts@.take(i + 1)).0 <= i64::MAX
                        && i64::MIN <= stored_totals(counts@.take(i + 1)).1 <= i64::MAX));
                    assert(counts@.take(i + 1).len() == i + 1);
                    assert(counts@.take(i + 1) =~= counts@.take(i + 1));
                    return None;
                },
            }
        }
        i = i + 1;
    }
    assert(counts@.take(counts.len() as int) =~= counts@);
    Some((done, total))
}

/// The columns a row of search results takes besides the text: the
/// selector (2), the score (4), a separator (3), the topic's short name
/// (16), a separator (3), the check box and a space (4), the priority tag,
/// the due badge and the link mark (` link↗`).
pub open spec fn search_row_fixed(t: Todo, today: i32) -> int {
    32 + priority_tag_spec(t.priority).len() + badge_len(due_badge_spec(opt_str_view(t.due_date), today)) + if t.url is Some {
        6int
    } else {
        0int
    }
}

/// The text of a todo in a row of search results, `width` columns wide.
pub fn search_row_text(t: &Todo, width: u16, today: i32) -> (r: String)
    requires
        day_in_range(today as int),
    ensures
        r@ == row_text(*t, width as int, search_row_fixed(*t, today)),
{
    let badge = due_badge(&t.due_date, today);
    let bl = match &badge {
        Some((s, _)) => char_len(s.as_str()),
        None => 0,
    };
    let link: usize = if t.url.is_some() {
        6
    } else {
        0
    };
    let fixed: u128 = 32 + char_len(priority_tag(t.priority)) as u128 + bl as u128 + link as u128;
    let max = text_room(width, fixed);
    let src = display_source(t);
    truncate(src.as_str(), max)
}

/// The short priority mark of the overdue digest (` !1` to ` !3`).
pub open spec fn digest_priority_spec(p: Option<u8>) -> Seq<char> {
    match p {
        Some(1u8) => " !1"@,
        Some(2u8) => " !2"@,
        Some(3u8) => " !3"@,
        _ => Seq::empty(),
    }
}

/// How many days ago a todo was due, for the overdue digest (0 when its
/// stored date does not read as `YYYY-MM-DD`).
pub open spec fn days_overdue(due: Option<Seq<char>>, today: i32) -> int {
    match stored_due_day(due) {
        Some(d) => today - d,
        None => 0,
    }
}

/// A line of the overdue digest: how long ago the todo was due, its
/// priority mark, its topic and its text.
pub open spec fn digest_line_spec(t: Todo, topic: Seq<char>, today: i32) -> Seq<char> {
    "  "@ + signed_decimal(days_overdue(opt_str_view(t.due_date), today)) + "d ago"@ + digest_priority_spec(t.priority)
        + "  ["@ + topic + "]  "@ + t.text@
}

/// A line of the overdue digest.
pub fn digest_line(t: &Todo, topic: &str, today: i32) -> (r: String)
    requires
        day_in_range(today as int),
    ensures
        r@ == digest_line_spec(*t, topic@, today),
{
    proof {
        reveal_strlit("");
    }
    let day = match &t.due_date {
        Some(s) => parse_date(s.as_str(), "%Y-%m-%d"),
        None => None,
    };
    let days: i64 = match day {
        Some(d) => (today as i64) - (d as i64),
        None => 0,
    };
    let mark = match t.priority {
        Some(x) => if x == 1 {
            " !1"
        } else if x == 2 {
            " !2"
        } else if x == 3 {
            " !3"
        } else {
            ""
        },
        None => "",
    };
    let mut s = owned("  ");
    push_signed_decimal(&mut s, days);
    let rest = chars_of("d ago");
    push_chars(&mut s, &rest);
    let m = chars_of(mark);
    push_chars(&mut s, &m);
    let open = chars_of("  [");
    push_chars(&mut s, &open);
    let tv = chars_of(topic);
    push_chars(&mut s, &tv);
    let close = chars_of("]  ");
    push_chars(&mut s, &close);
    let text = chars_of(t.text.as_str());
    push_chars(&mut s, &text);
    s
}


/// A line of the daily briefing.
pub enum BriefingLine {
    /// The empty line between two sections.
    Blank,
    /// The heading of a section, indented by two spaces.
    Heading(String),
    /// The row of the item at `index`, in the order shown: the cursor
    /// marker (`> ` on the selected item, else two spaces), the check box
    /// and a space, the priority tag (empty without a priority), the due
    /// badge with its color (when the todo has a due date), the todo's
    /// text, the link mark (` ↗` when the todo has a link) and the topic
    /// column.
    Item {
        index: usize,
        marker: String,
        check: String,
        priority: String,
        badge: Option<(String, DueColor)>,
        text: String,
        link: String,
        topic: String,
    },
}

/// The spec view of a briefing line.
pub ghost enum BriefingLineView {
    Blank,
    Heading(Seq<char>),
    Item {
        index: int,
        marker: Seq<char>,
        check: Seq<char>,
        priority: Seq<char>,
        badge: Option<(Seq<char>, DueColor)>,
        text: Seq<char>,
        link: Seq<char>,
        topic: Seq<char>,
    },
}

/// The view of a briefing line.
pub open spec fn line_view(l: BriefingLine) -> BriefingLineView {
    match l {
        BriefingLine::Blank => BriefingLineView::Blank,
        BriefingLine::Heading(h) => BriefingLineView::Heading(h@),
        BriefingLine::Item { index, marker, check, priority, badge, text, link, topic } => BriefingLineView::Item {
            index: index as int,
            marker: marker@,
            check: check@,
            priority: priority@,
            badge: match badge {
                Some((b, c)) => Some((b@, c)),
                None => None,
            },
            text: text@,
            link: link@,
            topic: topic@,
        },
    }
}

/// The views of a sequence of briefing lines.
pub open spec fn line_views(s: Seq<BriefingLine>) -> Seq<BriefingLineView> {
    s.map_values(|l: BriefingLine| line_view(l))
}

/// The sections of a sequence of briefing items.
pub open spec fn item_sections(items: Seq<BriefingItem>) -> Seq<BriefingSection> {
    items.map_values(|it: BriefingItem| it.section)
}

/// The short topic name shown beside a briefing row.
pub open spec fn briefing_topic_spec(name: Seq<char>) -> Seq<char> {
    truncated(crate::text::trim_start_ws(crate::ui::printable_ascii(name)), 12)
}

/// The line of item `i` of the briefing, with `sel` the selected item.
pub open spec fn item_line(items: Seq<BriefingItem>, i: int, sel: int, width: int, today: i32) -> BriefingLineView {
    let it = items[i];
    let topic = briefing_topic_spec(it.topic_name@);
    BriefingLineView::Item {
        index: i,
        marker: if i == sel { "> "@ } else { "  "@ },
        check: check_mark_spec(it.todo.done, it.todo.in_progress, it.todo.blocked) + " "@,
        priority: priority_tag_spec(it.todo.priority),
        badge: due_badge_spec(opt_str_view(it.todo.due_date), today),
        text: row_text(it.todo, width, briefing_row_fixed(it.todo, topic, today)),
        link: if it.todo.url is Some { " \u{2197}"@ } else { ""@ },
        topic: "  "@ + topic,
    }
}

/// The heading line of a section.
pub open spec fn heading_line(sec: BriefingSection) -> BriefingLineView {
    BriefingLineView::Heading("  "@ + section_heading_spec(sec))
}

/// The lines that come before the row of item `i`: the section heading
/// on the first item and at each change of section (after a blank line
/// but on the first).
pub open spec fn lines_before(items: Seq<BriefingItem>, i: int) -> Seq<BriefingLineView> {
    if i == 0 {
        seq![heading_line(items[0].section)]
    } else if items[i - 1].section != items[i].section {
        seq![BriefingLineView::Blank, heading_line(items[i].section)]
    } else {
        Seq::empty()
    }
}

/// The lines of the daily briefing, item by item.
pub open spec fn briefing_lines_spec(items: Seq<BriefingItem>, sel: int, width: int, today: i32) -> Seq<BriefingLineView>
    decreases items.len(),
{
    if items.len() == 0 {
        Seq::empty()
    } else {
        let n = items.len() - 1;
        briefing_lines_spec(items.drop_last(), sel, width, today) + lines_before(items, n) + seq![
            item_line(items, n, sel, width, today),
        ]
    }
}

/// The briefing lines are as many as the layout counts.
pub proof fn lemma_briefing_lines_len(items: Seq<BriefingItem>, sel: int, width: int, today: i32)
    ensures
        briefing_lines_spec(items, sel, width, today).len() == crate::briefing::layout_rows(item_sections(items)),
    decreases items.len(),
{
    if items.len() > 0 {
        let n = items.len() - 1;
        lemma_briefing_lines_len(items.drop_last(), sel, width, today);
        assert(item_sections(items.drop_last()) =~= item_sections(items).drop_last());
    }
}

/// The lines of the first `k` items begin the lines of all of them.
proof fn lemma_briefing_lines_prefix(items: Seq<BriefingItem>, k: int, sel: int, width: int, today: i32)
    requires
        0 <= k <= items.len(),
    ensures
        briefing_lines_spec(items.take(k), sel, width, today).len() <= briefing_lines_spec(items, sel, width, today).len(),
        briefing_lines_spec(items.take(k), sel, width, today) =~= briefing_lines_spec(items, sel, width, today).take(
            briefing_lines_spec(items.take(k), sel, width, today).len() as int,
        ),
    decreases items.len() - k,
{
    if k < items.len() {
        let d = items.drop_last();
        assert(d.take(k) =~= items.take(k));
        lemma_briefing_lines_prefix(d, k, sel, width, today);
    } else {
        assert(items.take(k) =~= items);
    }
}

/// The row of the selected item is the selected row of the layout, and it
/// carries the `> ` marker.
pub proof fn lemma_selected_line(items: Seq<BriefingItem>, sel: int, width: int, today: i32)
    requires
        0 <= sel < items.len(),
    ensures
        crate::briefing::selected_row(item_sections(items), sel) < briefing_lines_spec(items, sel, width, today).len(),
        briefing_lines_spec(items, sel, width, today)[crate::briefing::selected_row(item_sections(items), sel) as int]
            == item_line(items, sel, sel, width, today),
{
    let p = items.take(sel + 1);
    lemma_briefing_lines_prefix(items, sel + 1, sel, width, today);
    lemma_briefing_lines_len(p, sel, width, today);
    assert(item_sections(p) =~= item_sections(items).take(sel + 1));
    assert(p.drop_last() =~= items.take(sel));
    assert(p[sel] == items[sel]);
    let lp = briefing_lines_spec(p, sel, width, today);
    assert(lp[lp.len() - 1] == item_line(p, sel, sel, width, today));
    assert(item_line(p, sel, sel, width, today) == item_line(items, sel, sel, width, today));
}

/// The lines of the daily briefing (see [`briefing_lines_spec`]), `width`
/// columns wide, with item `selected` under the cursor.
pub fn briefing_lines(items: &Vec<BriefingItem>, selected: usize, width: u16, today: i32) -> (r: Vec<BriefingLine>)
    requires
        day_in_range(today as int),
    ensures
        line_views(r@) == briefing_lines_spec(items@, selected as int, width as int, today),
        r@.len() == crate::briefing::layout_rows(item_sections(items@)),
        selected < items@.len() ==> line_views(r@)[crate::briefing::selected_row(item_sections(items@), selected as int) as int]
            == item_line(items@, selected as int, selected as int, width as int, today),
{
    let mut lines: Vec<BriefingLine> = Vec::new();
    let mut i: usize = 0;
    while i < items.len()
        invariant
            i <= items.len(),
            day_in_range(today as int),
            line_views(lines@) == briefing_lines_spec(items@.take(i as int), selected as int, width as int, today),
        decreases items.len() - i,
    {
        let ghost pre = line_views(lines@);
        let it = &items[i];
        if i == 0 || items[i - 1].section != it.section {
            if i > 0 {
                lines.push(BriefingLine::Blank);
            }
            let mut h = owned("  ");
            let hv = chars_of(section_heading(it.section));
            push_chars(&mut h, &hv);
            lines.push(BriefingLine::Heading(h));
        }
        let topic = briefing_topic(it.topic_name.as_str());
        let text = briefing_row_text(&it.todo, topic.as_str(), width, today);
        let marker = if i == selected {
            owned("> ")
        } else {
            owned("  ")
        };
        let link = if it.todo.url.is_some() {
            owned(" \u{2197}")
        } else {
            owned("")
        };
        let mut col = owned("  ");
        let tv = chars_of(topic.as_str());
        push_chars(&mut col, &tv);
        let mut check = owned(check_mark(it.todo.done, it.todo.in_progress, it.todo.blocked));
        push_char(&mut check, ' ');
        let priority = owned(priority_tag(it.todo.priority));
        let badge = due_badge(&it.todo.due_date, today);
        assert(check@ =~= check_mark_spec(it.todo.done, it.todo.in_progress, it.todo.blocked) + " "@) by {
            reveal_strlit(" ");
        }
        lines.push(BriefingLine::Item { index: i, marker, check, priority, badge, text, link, topic: col });
        proof {
            let t = items@.take(i + 1);
            assert(t.drop_last() =~= items@.take(i as int));
            assert(t[i as int] == items@[i as int]);
            if i > 0 {
                assert(t[i - 1] == items@[i - 1]);
            }
            assert(lines_before(t, i as int) == lines_before(items@, i as int));
            assert(item_line(t, i as int, selected as int, width as int, today) == item_line(
                items@,
                i as int,
                selected as int,
                width as int,
                today,
            ));
            assert(line_views(lines@) =~= briefing_lines_spec(t, selected as int, width as int, today));
        }
        i = i + 1;
    }
    assert(items@.take(items.len() as int) =~= items@);
    proof {
        lemma_briefing_lines_len(items@, selected as int, width as int, today);
        if selected < items@.len() {
            lemma_selected_line(items@, selected as int, width as int, today);
        }
    }
    lines
}

} // verus!
