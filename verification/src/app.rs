use vstd::prelude::*;
use crate::models::{Comment, Todo, TodoView, Topic, TopicView};
use crate::sync::{SyncKind, SyncMsg};
use std::collections::HashMap;
use crate::order::{bucket_class, bucket_sort, bucket_sorted, todo_views};
use crate::text::{trim, lowercase, trim_ws, str_is,char_alphanumeric, chars_of, has_prefix, is_alphanumeric, join, join_words, owned, push_char, push_chars, seq_views, slice_vec, split_words, starts_with, string_of, words};

verus! {

/// Which panel has keyboard focus.
#[derive(Clone, Copy, PartialEq, Eq, Debug, Structural)]
pub enum Focus {
    Topics,
    Todos,
}

/// Whether keys navigate or edit the input line.
#[derive(Clone, Copy, PartialEq, Eq, Debug, Structural)]
pub enum Mode {
    Normal,
    Insert,
}

/// How the todo list is ordered.
#[derive(Clone, Copy, PartialEq, Eq, Debug, Structural)]
pub enum TodoSort {
    /// Unfinished before finished; within each, prioritized todos (by
    /// priority, then due date), then todos with only a due date (by due
    /// date), then the rest, keeping creation order among equals.
    Bucketed,
    /// Creation order.
    Flat,
}

impl TodoSort {
    /// Orders a todo list. `Flat` keeps it as it is; `Bucketed` sorts it by
    /// [`crate::order::bucket_le`], keeping equal todos in the order they
    /// had.
    pub fn apply(self, todos: &mut Vec<Todo>)
        ensures
            self == TodoSort::Flat ==> final(todos)@ == old(todos)@,
            self == TodoSort::Bucketed ==> {
                &&& final(todos)@.len() == old(todos)@.len()
                &&& bucket_sorted(todo_views(final(todos)@))
                &&& forall|x: TodoView|
                    #![trigger bucket_class(todo_views(final(todos)@), x)]
                    bucket_class(todo_views(final(todos)@), x) == bucket_class(
                        todo_views(old(todos)@),
                        x,
                    )
            },
    {
        match self {
            TodoSort::Flat => {},
            TodoSort::Bucketed => {
                bucket_sort(todos);
            },
        }
    }

    /// The other ordering.
    pub fn toggled(self) -> (r: TodoSort)
        ensures
            r == toggled_sort(self),
    {
        match self {
            TodoSort::Bucketed => TodoSort::Flat,
            TodoSort::Flat => TodoSort::Bucketed,
        }
    }
}

/// The other ordering.
pub open spec fn toggled_sort(s: TodoSort) -> TodoSort {
    match s {
        TodoSort::Bucketed => TodoSort::Flat,
        TodoSort::Flat => TodoSort::Bucketed,
    }
}

/// The field of the detail panel that has focus.
#[derive(Clone, Copy, PartialEq, Eq, Debug, Structural)]
pub enum DetailField {
    Text,
    Priority,
    Due,
    Url,
    NewComment,
    /// Index into the comments, 0 = newest.
    ExistingComment(usize),
}

/// The field after `f` in tab order, for a todo with `n` comments.
pub open spec fn next_field(f: DetailField, n: nat) -> DetailField {
    match f {
        DetailField::Text => DetailField::Priority,
        DetailField::Priority => DetailField::Due,
        DetailField::Due => DetailField::Url,
        DetailField::Url => DetailField::NewComment,
        DetailField::NewComment => if n > 0 {
            DetailField::ExistingComment(0)
        } else {
            DetailField::Text
        },
        DetailField::ExistingComment(i) => if i + 1 < n {
            DetailField::ExistingComment((i + 1) as usize)
        } else {
            DetailField::Text
        },
    }
}

/// The field before `f` in tab order, for a todo with `n` comments.
pub open spec fn prev_field(f: DetailField, n: nat) -> DetailField {
    match f {
        DetailField::Text => if n > 0 {
            DetailField::ExistingComment((n - 1) as usize)
        } else {
            DetailField::NewComment
        },
        DetailField::Priority => DetailField::Text,
        DetailField::Due => DetailField::Priority,
        DetailField::Url => DetailField::Due,
        DetailField::NewComment => DetailField::Url,
        DetailField::ExistingComment(i) => if i == 0 {
            DetailField::NewComment
        } else {
            DetailField::ExistingComment((i - 1) as usize)
        },
    }
}

/// A field exists for a todo with `n` comments.
pub open spec fn field_exists(f: DetailField, n: nat) -> bool {
    match f {
        DetailField::ExistingComment(i) => i < n,
        _ => true,
    }
}

impl DetailField {
    /// The next field in tab order (Text, Priority, Due, Url, NewComment,
    /// then each existing comment, then back to Text).
    pub fn next(&self, comment_count: usize) -> (r: DetailField)
        ensures
            r == next_field(*self, comment_count as nat),
    {
        match self {
            DetailField::Text => DetailField::Priority,
            DetailField::Priority => DetailField::Due,
            DetailField::Due => DetailField::Url,
            DetailField::Url => DetailField::NewComment,
            DetailField::NewComment => {
                if comment_count > 0 {
                    DetailField::ExistingComment(0)
                } else {
                    DetailField::Text
                }
            },
            DetailField::ExistingComment(i) => {
                if comment_count > 0 && *i < comment_count - 1 {
                    DetailField::ExistingComment(*i + 1)
                } else {
                    DetailField::Text
                }
            },
        }
    }

    /// The previous field in tab order.
    pub fn prev(&self, comment_count: usize) -> (r: DetailField)
        ensures
            r == prev_field(*self, comment_count as nat),
    {
        match self {
            DetailField::Text => {
                if comment_count > 0 {
                    DetailField::ExistingComment(comment_count - 1)
                } else {
                    DetailField::NewComment
                }
            },
            DetailField::Priority => DetailField::Text,
            DetailField::Due => DetailField::Priority,
            DetailField::Url => DetailField::Due,
            DetailField::NewComment => DetailField::Url,
            DetailField::ExistingComment(i) => {
                if *i == 0 {
                    DetailField::NewComment
                } else {
                    DetailField::ExistingComment(*i - 1)
                }
            },
        }
    }
}

/// Tabbing forward then backward returns to the same field, and tabbing
/// never leaves the fields that exist.
pub proof fn lemma_prev_undoes_next(f: DetailField, n: usize)
    requires
        field_exists(f, n as nat),
    ensures
        field_exists(next_field(f, n as nat), n as nat),
        prev_field(next_field(f, n as nat), n as nat) == f,
{
}

/// Tabbing backward then forward returns to the same field.
pub proof fn lemma_next_undoes_prev(f: DetailField, n: usize)
    requires
        field_exists(f, n as nat),
    ensures
        field_exists(prev_field(f, n as nat), n as nat),
        next_field(prev_field(f, n as nat), n as nat) == f,
{
}

/// The fields in tab order for a todo with `n` comments: text, priority,
/// due date, link, new comment, then the comments, newest first.
pub open spec fn tab_order(n: nat) -> Seq<DetailField> {
    seq![DetailField::Text, DetailField::Priority, DetailField::Due, DetailField::Url, DetailField::NewComment]
        + Seq::new(n, |i: int| DetailField::ExistingComment(i as usize))
}

/// The field reached from `f` after `k` presses of Tab.
pub open spec fn tab_steps(f: DetailField, n: nat, k: nat) -> DetailField
    decreases k,
{
    if k == 0 {
        f
    } else {
        next_field(tab_steps(f, n, (k - 1) as nat), n)
    }
}

proof fn lemma_tab_steps_follow_order(n: usize, k: nat)
    requires
        k < n + 5,
    ensures
        tab_steps(DetailField::Text, n as nat, k) == tab_order(n as nat)[k as int],
    decreases k,
{
    if k > 0 {
        lemma_tab_steps_follow_order(n, (k - 1) as nat);
    }
}

/// Tab visits every field of the detail panel once, in tab order, and
/// comes back to the text after `n + 5` presses (`n` comments).
pub proof fn lemma_tab_cycle(n: usize)
    ensures
        forall|k: nat| k < n + 5 ==> #[trigger] tab_steps(DetailField::Text, n as nat, k) == tab_order(n as nat)[k as int],
        forall|a: int, b: int| 0 <= a < b < n + 5 ==> #[trigger] tab_order(n as nat)[a] != #[trigger] tab_order(n as nat)[b],
        forall|k: int| 0 <= k < n + 5 ==> field_exists(#[trigger] tab_order(n as nat)[k], n as nat),
        tab_steps(DetailField::Text, n as nat, (n + 5) as nat) == DetailField::Text,
{
    assert forall|k: nat| k < n + 5 implies #[trigger] tab_steps(DetailField::Text, n as nat, k) == tab_order(n as nat)[k as int] by {
        lemma_tab_steps_follow_order(n, k);
    }
    lemma_tab_steps_follow_order(n, (n + 4) as nat);
    assert(tab_steps(DetailField::Text, n as nat, (n + 5) as nat) == next_field(tab_order(n as nat)[n + 4], n as nat));
}

/// The editing state of the detail panel.
pub struct DetailState {
    pub todo_id: i64,
    pub field: DetailField,
    pub text: String,
    pub text_cursor: usize,
    pub priority: Option<u8>,
    pub due: String,
    pub due_cursor: usize,
    pub url: String,
    pub url_cursor: usize,
    pub created_at: Option<String>,
    pub started_at: Option<String>,
    pub completed_at: Option<String>,
    pub comments: Vec<Comment>,
    pub new_comment: String,
    pub new_comment_cursor: usize,
    pub comment_edit_text: String,
    pub comment_edit_cursor: usize,
    pub detail_scroll: u16,
}

/// The sections of the daily briefing, in display order.
#[derive(Clone, Copy, PartialEq, Eq, Debug, Structural)]
pub enum BriefingSection {
    MustDo,
    InFlight,
    Recommended,
    Waiting,
}

/// One row of the daily briefing.
pub struct BriefingItem {
    pub todo: Todo,
    pub topic_name: String,
    pub section: BriefingSection,
}

/// Progress of a background sync shown in the status corner.
pub struct SyncStatus {
    pub message: String,
    pub done: bool,
    pub error: bool,
    pub spinner_frame: usize,
    /// Countdown (in ticks of about 100 ms) until the status is cleared.
    pub done_frames: u32,
}

/// Paths and model name shown in the info popup.
pub struct AppInfo {
    pub db_path: String,
    pub model_dir: String,
    pub model_name: String,
}

// ---------------------------------------------------------------------
// Inline syntax in todo text
// ---------------------------------------------------------------------

/// The priority a word stands for: `!1`, `!2` or `!3`.
pub open spec fn priority_tag(w: Seq<char>) -> Option<u8> {
    if w == seq!['!', '1'] {
        Some(1u8)
    } else if w == seq!['!', '2'] {
        Some(2u8)
    } else if w == seq!['!', '3'] {
        Some(3u8)
    } else {
        None
    }
}

/// The words that are not priority tags, in order.
pub open spec fn untagged(ws: Seq<Seq<char>>) -> Seq<Seq<char>>
    decreases ws.len(),
{
    if ws.len() == 0 {
        Seq::empty()
    } else if priority_tag(ws.last()) is Some {
        untagged(ws.drop_last())
    } else {
        untagged(ws.drop_last()).push(ws.last())
    }
}

/// The priority of the last priority tag among the words.
pub open spec fn last_priority_tag(ws: Seq<Seq<char>>) -> Option<u8>
    decreases ws.len(),
{
    if ws.len() == 0 {
        None
    } else {
        match priority_tag(ws.last()) {
            Some(p) => Some(p),
            None => last_priority_tag(ws.drop_last()),
        }
    }
}

proof fn lemma_untagged_clean(ws: Seq<Seq<char>>)
    requires
        forall|k: int| 0 <= k < ws.len() ==> crate::text::is_word(#[trigger] ws[k]),
    ensures
        forall|k: int| 0 <= k < untagged(ws).len() ==> crate::text::is_word(#[trigger] untagged(ws)[k]),
        untagged(untagged(ws)) == untagged(ws),
        last_priority_tag(untagged(ws)) is None,
    decreases ws.len(),
{
    if ws.len() > 0 {
        let d = ws.drop_last();
        assert forall|k: int| 0 <= k < d.len() implies crate::text::is_word(#[trigger] d[k]) by {
            assert(d[k] == ws[k]);
        }
        lemma_untagged_clean(d);
        let u = untagged(d);
        if priority_tag(ws.last()) is None {
            let v = u.push(ws.last());
            assert(v.drop_last() =~= u);
            assert(v.last() == ws.last());
            assert(crate::text::is_word(ws[ws.len() - 1]));
            assert forall|k: int| 0 <= k < v.len() implies crate::text::is_word(#[trigger] v[k]) by {
                if k < u.len() {
                    assert(v[k] == u[k]);
                }
            }
        }
    }
}

/// Taking the priority tags out of a text leaves none to take: the text
/// that comes out of [`extract_priority`] comes out again unchanged, with
/// no priority.
pub proof fn lemma_extract_priority_idempotent(text: Seq<char>)
    ensures
        join(untagged(words(join(untagged(words(text)), seq![' ']))), seq![' ']) == join(
            untagged(words(text)),
            seq![' '],
        ),
        last_priority_tag(words(join(untagged(words(text)), seq![' ']))) is None,
{
    crate::text::lemma_words_are_words(text);
    lemma_untagged_clean(words(text));
    crate::text::lemma_words_of_join(untagged(words(text)));
}

fn tag_of(w: &Vec<char>) -> (r: Option<u8>)
    ensures
        r == priority_tag(w@),
{
    if w.len() == 2 && w[0] == '!' {
        let c = w[1];
        let r = if c == '1' {
            Some(1u8)
        } else if c == '2' {
            Some(2u8)
        } else if c == '3' {
            Some(3u8)
        } else {
            None
        };
        proof {
            if c == '1' {
                assert(w@ =~= seq!['!', '1']);
            } else if c == '2' {
                assert(w@ =~= seq!['!', '2']);
            } else if c == '3' {
                assert(w@ =~= seq!['!', '3']);
            } else {
                assert(w@ != seq!['!', '1'] && w@ != seq!['!', '2'] && w@ != seq!['!', '3']) by {
                    assert(seq!['!', '1'][1] == '1');
                    assert(seq!['!', '2'][1] == '2');
                    assert(seq!['!', '3'][1] == '3');
                }
            }
        }
        r
    } else {
        proof {
            if w@ == seq!['!', '1'] || w@ == seq!['!', '2'] || w@ == seq!['!', '3'] {
                assert(w@.len() == 2 && w@[0] == '!');
            }
        }
        None
    }
}

/// Removes the `!1`/`!2`/`!3` tags from a todo's text: the remaining words
/// joined by single spaces, and the priority of the last tag.
pub fn extract_priority(text: &str) -> (r: (String, Option<u8>))
    ensures
        r.0@ == join(untagged(words(text@)), seq![' ']),
        r.1 == last_priority_tag(words(text@)),
{
    let chars = chars_of(text);
    let ws = split_words(&chars);
    let mut kept: Vec<Vec<char>> = Vec::new();
    let mut priority: Option<u8> = None;
    let mut i: usize = 0;
    while i < ws.len()
        invariant
            i <= ws.len(),
            seq_views(ws@) == words(text@),
            seq_views(kept@) == untagged(seq_views(ws@).take(i as int)),
            priority == last_priority_tag(seq_views(ws@).take(i as int)),
        decreases ws.len() - i,
    {
        let ghost pre = seq_views(ws@).take(i as int);
        assert(seq_views(ws@).take(i + 1).drop_last() =~= pre);
        assert(seq_views(ws@).take(i + 1).last() == ws@[i as int]@);
        match tag_of(&ws[i]) {
            Some(p) => {
                priority = Some(p);
            },
            None => {
                let ghost old_kept = seq_views(kept@);
                let w = slice_vec(&ws[i], 0, ws[i].len());
                assert(w@ =~= ws@[i as int]@);
                kept.push(w);
                assert(seq_views(kept@) =~= old_kept.push(ws@[i as int]@));
            },
        }
        i = i + 1;
    }
    assert(seq_views(ws@).take(ws.len() as int) =~= seq_views(ws@));
    let space = vec![' '];
    assert(space@ =~= seq![' ']);
    (join_words(&kept, &space), priority)
}

/// The word is a link: it begins with `https://`.
pub open spec fn is_url_word(w: Seq<char>) -> bool {
    has_prefix(w, "https://"@)
}

/// The first word that is a link.
pub open spec fn first_url_word(ws: Seq<Seq<char>>) -> Option<Seq<char>>
    decreases ws.len(),
{
    if ws.len() == 0 {
        None
    } else if is_url_word(ws[0]) {
        Some(ws[0])
    } else {
        first_url_word(ws.drop_first())
    }
}

/// Characters kept at the ends of an extracted link: alphanumerics and
/// `/ - _ . ? = & # :`.
pub open spec fn url_char(c: char) -> bool {
    char_alphanumeric(c) || c == '/' || c == '-' || c == '_' || c == '.' || c == '?' || c == '='
        || c == '&' || c == '#' || c == ':'
}

/// `s` without the leading characters that are not link characters.
pub open spec fn trim_start_non_url(s: Seq<char>) -> Seq<char>
    decreases s.len(),
{
    if s.len() > 0 && !url_char(s[0]) {
        trim_start_non_url(s.drop_first())
    } else {
        s
    }
}

/// `s` without the trailing characters that are not link characters.
pub open spec fn trim_end_non_url(s: Seq<char>) -> Seq<char>
    decreases s.len(),
{
    if s.len() > 0 && !url_char(s.last()) {
        trim_end_non_url(s.drop_last())
    } else {
        s
    }
}

/// The link found in a text: its first word that begins with `https://`,
/// with punctuation that is not part of a link removed from both ends.
pub open spec fn extracted_url(text: Seq<char>) -> Option<Seq<char>> {
    match first_url_word(words(text)) {
        Some(w) => Some(trim_end_non_url(trim_start_non_url(w))),
        None => None,
    }
}

fn is_url_char(c: char) -> (r: bool)
    ensures
        r == url_char(c),
{
    is_alphanumeric(c) || c == '/' || c == '-' || c == '_' || c == '.' || c == '?' || c == '='
        || c == '&' || c == '#' || c == ':'
}

fn trim_non_url(w: &Vec<char>) -> (r: Vec<char>)
    ensures
        r@ == trim_end_non_url(trim_start_non_url(w@)),
{
    let mut a: usize = 0;
    assert(w@.skip(0) =~= w@);
    while a < w.len() && !is_url_char(w[a])
        invariant
            a <= w.len(),
            trim_start_non_url(w@) == trim_start_non_url(w@.skip(a as int)),
        decreases w.len() - a,
    {
        assert(w@.skip(a as int).drop_first() =~= w@.skip(a + 1));
        a = a + 1;
    }
    let ghost front = w@.skip(a as int);
    assert(trim_start_non_url(w@.skip(a as int)) == front);
    let mut b: usize = w.len();
    assert(front =~= w@.subrange(a as int, b as int));
    while b > a && !is_url_char(w[b - 1])
        invariant
            a <= b <= w.len(),
            trim_end_non_url(front) == trim_end_non_url(w@.subrange(a as int, b as int)),
        decreases b,
    {
        assert(w@.subrange(a as int, b as int).drop_last() =~= w@.subrange(a as int, b - 1));
        b = b - 1;
    }
    slice_vec(w, a, b)
}

/// The first `https://` link in a text (see [`extracted_url`]).
pub fn extract_url(text: &str) -> (r: Option<String>)
    ensures
        r matches Some(u) ==> extracted_url(text@) == Some(u@),
        r is None ==> extracted_url(text@) is None,
{
    let chars = chars_of(text);
    let ws = split_words(&chars);
    let https = chars_of("https://");
    let mut i: usize = 0;
    assert(seq_views(ws@).skip(0) =~= seq_views(ws@));
    while i < ws.len()
        invariant
            i <= ws.len(),
            seq_views(ws@) == words(text@),
            https@ == "https://"@,
            first_url_word(seq_views(ws@)) == first_url_word(seq_views(ws@).skip(i as int)),
        decreases ws.len() - i,
    {
        assert(seq_views(ws@).skip(i as int)[0] == ws@[i as int]@);
        if starts_with(&ws[i], &https) {
            let t = trim_non_url(&ws[i]);
            return Some(string_of(&t));
        }
        assert(seq_views(ws@).skip(i as int).drop_first() =~= seq_views(ws@).skip(i + 1));
        i = i + 1;
    }
    None
}

/// The text that is embedded for a todo: its text, then each comment, one
/// per line.
pub open spec fn embed_text(todo_text: Seq<char>, comments: Seq<Seq<char>>) -> Seq<char> {
    if comments.len() == 0 {
        todo_text
    } else {
        todo_text + seq!['\n'] + join(comments, seq!['\n'])
    }
}

/// The contents of a sequence of strings.
pub open spec fn string_views(v: Seq<String>) -> Seq<Seq<char>> {
    v.map_values(|s: String| s@)
}

/// Combines a todo's text with its comments for a richer embedding.
pub fn build_embed_text(todo_text: &str, comment_texts: &Vec<String>) -> (r: String)
    ensures
        r@ == embed_text(todo_text@, string_views(comment_texts@)),
{
    let mut s = owned(todo_text);
    if comment_texts.len() == 0 {
        return s;
    }
    let nl = vec!['\n'];
    assert(nl@ =~= seq!['\n']);
    let mut cs: Vec<Vec<char>> = Vec::new();
    let mut i: usize = 0;
    while i < comment_texts.len()
        invariant
            i <= comment_texts.len(),
            seq_views(cs@) == string_views(comment_texts@).take(i as int),
        decreases comment_texts.len() - i,
    {
        let ghost old_cs = seq_views(cs@);
        let c = chars_of(comment_texts[i].as_str());
        let ghost cv = c@;
        assert(cv == string_views(comment_texts@)[i as int]);
        cs.push(c);
        assert(seq_views(cs@) =~= old_cs.push(cv));
        assert(string_views(comment_texts@).take(i + 1) =~= string_views(comment_texts@).take(
            i as int,
        ).push(cv));
        i = i + 1;
    }
    assert(string_views(comment_texts@).take(comment_texts.len() as int) =~= string_views(comment_texts@));
    let joined = join_words(&cs, &nl);
    push_char(&mut s, '\n');
    let jc = chars_of(joined.as_str());
    push_chars(&mut s, &jc);
    s
}

// ---------------------------------------------------------------------
// The application state
// ---------------------------------------------------------------------

broadcast use vstd::std_specs::hash::group_hash_axioms;

/// What a search does before any ranking.
#[derive(Clone, Copy, PartialEq, Eq, Debug, Structural)]
pub enum SearchStart {
    /// The query is empty: the results were cleared.
    Cleared,
    /// There is no embedding model: the status line says so.
    Unavailable,
    /// The search is to be ranked.
    Run,
}

/// Id of the built-in view of todos in progress.
pub const IN_PROGRESS_ID: i64 = -1i64;

/// Id of the built-in view of completed todos.
pub const COMPLETED_ID: i64 = -2i64;

/// Id of the built-in view of unfinished todos due this week.
pub const DUE_THIS_WEEK_ID: i64 = -3i64;

/// The id belongs to one of the built-in views.
pub open spec fn is_virtual_id(id: i64) -> bool {
    id == IN_PROGRESS_ID || id == COMPLETED_ID || id == DUE_THIS_WEEK_ID
}

/// The ids of a list of topics.
pub open spec fn topic_ids(v: Seq<Topic>) -> Seq<i64> {
    v.map_values(|t: Topic| t.id)
}

/// The ids of the built-in views, in the order they are listed.
pub open spec fn virtual_ids() -> Seq<i64> {
    seq![IN_PROGRESS_ID, COMPLETED_ID, DUE_THIS_WEEK_ID]
}

/// The built-in views as they are listed.
pub open spec fn virtual_topic_views() -> Seq<TopicView> {
    seq![
        TopicView { id: IN_PROGRESS_ID, name: "\u{1f504} In Progress"@ },
        TopicView { id: COMPLETED_ID, name: "\u{2705} Completed"@ },
        TopicView { id: DUE_THIS_WEEK_ID, name: "\u{1f4c5} Due This Week"@ },
    ]
}

/// The views of a list of topics.
pub open spec fn topic_views(v: Seq<Topic>) -> Seq<TopicView> {
    v.map_values(|t: Topic| t@)
}

/// A topic list holds the stored topics, after the built-in views when
/// they are shown.
pub open spec fn lists_topics(topics: Seq<Topic>, show_virtual: bool, stored: Seq<Topic>) -> bool {
    if show_virtual {
        topic_views(topics) == virtual_topic_views() + topic_views(stored)
    } else {
        topics == stored
    }
}

/// The built-in views: in progress, completed, due this week.
pub fn virtual_topics() -> (r: Vec<Topic>)
    ensures
        topic_ids(r@) == virtual_ids(),
        topic_views(r@) == virtual_topic_views(),
{
    let mut r: Vec<Topic> = Vec::new();
    r.push(Topic { id: IN_PROGRESS_ID, name: owned("\u{1f504} In Progress") });
    r.push(Topic { id: COMPLETED_ID, name: owned("\u{2705} Completed") });
    r.push(Topic { id: DUE_THIS_WEEK_ID, name: owned("\u{1f4c5} Due This Week") });
    assert(topic_ids(r@) =~= virtual_ids());
    assert(topic_views(r@) =~= virtual_topic_views());
    r
}

/// The topic list: the built-in views first when they are shown, then the
/// topics stored.
pub fn topic_list(show_virtual: bool, stored: Vec<Topic>) -> (r: Vec<Topic>)
    ensures
        show_virtual ==> topic_ids(r@) == virtual_ids() + topic_ids(stored@) && r@.subrange(
            3,
            r@.len() as int,
        ) == stored@,
        !show_virtual ==> r@ == stored@,
        lists_topics(r@, show_virtual, stored@),
{
    if !show_virtual {
        return stored;
    }
    let mut r = virtual_topics();
    let mut stored = stored;
    let ghost st = stored@;
    r.append(&mut stored);
    assert(topic_ids(r@) =~= virtual_ids() + topic_ids(st));
    assert(r@.subrange(3, r@.len() as int) =~= st);
    assert(topic_views(r@) =~= virtual_topic_views() + topic_views(st));
    r
}

/// Which todos a selected topic lists.
#[derive(Clone, Copy, PartialEq, Eq, Debug, Structural)]
pub enum TodoSource {
    InProgress,
    Completed,
    DueThisWeek,
    /// The todos of a stored topic.
    Topic(i64),
    /// No topic is selected.
    Nothing,
}

/// The source of the todos listed for a selected topic id.
pub open spec fn source_of(id: Option<i64>) -> TodoSource {
    match id {
        Some(i) => if i == IN_PROGRESS_ID {
            TodoSource::InProgress
        } else if i == COMPLETED_ID {
            TodoSource::Completed
        } else if i == DUE_THIS_WEEK_ID {
            TodoSource::DueThisWeek
        } else {
            TodoSource::Topic(i)
        },
        None => TodoSource::Nothing,
    }
}

/// The state of the interactive views. The database, the embedding model
/// and the background sync channel are held by the program around it.
pub struct App {
    pub topics: Vec<Topic>,
    pub todos: Vec<Todo>,
    pub selected_topic: usize,
    pub selected_todo: usize,
    pub focus: Focus,
    pub mode: Mode,
    pub input: String,
    pub search_query: String,
    /// The todos found by the last search, best first.
    pub search_results: Vec<Todo>,
    pub selected_search_result: usize,
    pub cursor_pos: usize,
    pub editing: bool,
    pub status_message: Option<String>,
    pub should_quit: bool,
    pub confirm_quit: bool,
    /// A pending delete confirmation for the topic or the todo.
    pub confirm_delete: Option<Focus>,
    pub show_info: bool,
    pub info: AppInfo,
    pub todo_sort: TodoSort,
    pub due_popup: bool,
    pub due_input: String,
    pub due_cursor: usize,
    pub detail: Option<DetailState>,
    pub move_popup: bool,
    pub move_popup_selected: usize,
    pub sync_popup: bool,
    pub sync_popup_selected: usize,
    /// A background sync is running.
    pub sync_running: bool,
    pub sync_status: Option<SyncStatus>,
    pub search_open: bool,
    /// The last todo cursor of each topic left.
    pub topic_cursor_memory: HashMap<i64, usize>,
    pub last_topic_id: Option<i64>,
    pub show_virtual_topics: bool,
    pub briefing_open: bool,
    pub briefing_items: Vec<BriefingItem>,
    pub selected_briefing: usize,
}

/// The id of the topic at a position.
pub open spec fn topic_id_at(topics: Seq<Topic>, i: int) -> Option<i64> {
    if 0 <= i < topics.len() {
        Some(topics[i].id)
    } else {
        None
    }
}

/// The largest valid cursor of a list (0 when it is empty).
pub open spec fn last_index(len: nat) -> nat {
    if len == 0 {
        0
    } else {
        (len - 1) as nat
    }
}

/// The todo cursor after a reload: when the topic changed, the cursor
/// remembered for the new topic (else the top); otherwise the old cursor;
/// in both cases kept within the list.
pub open spec fn cursor_after_reload(
    last: Option<i64>,
    new_id: Option<i64>,
    selected: usize,
    memory: Map<i64, usize>,
    len: nat,
) -> nat {
    let wanted: nat = if last != new_id {
        match new_id {
            Some(id) => if memory.contains_key(id) {
                memory[id] as nat
            } else {
                0
            },
            None => 0,
        }
    } else {
        selected as nat
    };
    if wanted < last_index(len) {
        wanted
    } else {
        last_index(len)
    }
}

/// The cursor memory after a reload: leaving a topic remembers its cursor.
pub open spec fn memory_after_reload(
    last: Option<i64>,
    new_id: Option<i64>,
    selected: usize,
    memory: Map<i64, usize>,
) -> Map<i64, usize> {
    if last != new_id {
        match last {
            Some(prev) => memory.insert(prev, selected),
            None => memory,
        }
    } else {
        memory
    }
}

/// Leaving a topic and coming back restores the cursor it had, when its
/// list is still long enough.
pub proof fn lemma_cursor_memory_restores(
    a: i64,
    b: i64,
    cursor: usize,
    memory: Map<i64, usize>,
    len_b: nat,
    len_a: nat,
)
    requires
        a != b,
        cursor < len_a,
    ensures
        ({
            let m1 = memory_after_reload(Some(a), Some(b), cursor, memory);
            let c1 = cursor_after_reload(Some(a), Some(b), cursor, memory, len_b);
            cursor_after_reload(Some(b), Some(a), c1 as usize, m1, len_a) == cursor
        }),
{
}

/// `after` is `before` once a list of `len` todos is loaded for the
/// selected topic (see [`App::reload_todos`]).
pub open spec fn reloaded(before: App, after: App, len: nat) -> bool {
    &&& after.selected_todo == cursor_after_reload(
        before.last_topic_id,
        before.selected_id(),
        before.selected_todo,
        before.memory(),
        len,
    )
    &&& after.memory() == memory_after_reload(before.last_topic_id, before.selected_id(), before.selected_todo, before.memory())
    &&& after.last_topic_id == before.selected_id()
}

/// Cursor memory, on the states of the views: with the cursor on topic
/// `a` (its `len_a` todos loaded), selecting another topic `b` and then
/// `a` again, each followed by loading its todos, gives back the cursor.
pub proof fn lemma_reload_round_trip(pre: App, to_b: App, on_b: App, to_a: App, on_a: App, len_b: nat, len_a: nat)
    requires
        pre.selected_id() matches Some(a) && pre.last_topic_id == Some(a),
        pre.selected_todo < len_a,
        to_b.selected_id() matches Some(b) && b != pre.selected_id()->0,
        to_b.last_topic_id == pre.last_topic_id,
        to_b.selected_todo == pre.selected_todo,
        to_b.memory() == pre.memory(),
        reloaded(to_b, on_b, len_b),
        to_a.selected_id() == pre.selected_id(),
        to_a.last_topic_id == on_b.last_topic_id,
        to_a.selected_todo == on_b.selected_todo,
        to_a.memory() == on_b.memory(),
        reloaded(to_a, on_a, len_a),
    ensures
        on_a.selected_todo == pre.selected_todo,
{
    let a = pre.selected_id()->0;
    let b = to_b.selected_id()->0;
    lemma_cursor_memory_restores(a, b, pre.selected_todo, pre.memory(), len_b, len_a);
}

impl App {
    /// The id of the selected topic.
    pub open spec fn selected_id(&self) -> Option<i64> {
        topic_id_at(self.topics@, self.selected_topic as int)
    }

    /// The cursor memory, as a map from topic id to cursor.
    pub open spec fn memory(&self) -> Map<i64, usize> {
        self.topic_cursor_memory@
    }

    /// The id of the selected topic.
    pub fn selected_topic_id(&self) -> (r: Option<i64>)
        ensures
            r == self.selected_id(),
    {
        if self.selected_topic < self.topics.len() {
            Some(self.topics[self.selected_topic].id)
        } else {
            None
        }
    }

    /// The selected topic is one of the built-in views.
    pub fn is_virtual_topic(&self) -> (r: bool)
        ensures
            r == (self.selected_id() matches Some(id) && is_virtual_id(id)),
    {
        match self.selected_topic_id() {
            Some(id) => id == IN_PROGRESS_ID || id == COMPLETED_ID || id == DUE_THIS_WEEK_ID,
            None => false,
        }
    }

    /// Where the todos of the selected topic come from.
    pub fn todo_source(&self) -> (r: TodoSource)
        ensures
            r == source_of(self.selected_id()),
    {
        match self.selected_topic_id() {
            Some(id) => {
                if id == IN_PROGRESS_ID {
                    TodoSource::InProgress
                } else if id == COMPLETED_ID {
                    TodoSource::Completed
                } else if id == DUE_THIS_WEEK_ID {
                    TodoSource::DueThisWeek
                } else {
                    TodoSource::Topic(id)
                }
            },
            None => TodoSource::Nothing,
        }
    }

    /// Replaces the topic list with the stored topics (after the built-in
    /// views when shown), keeping the selection within it.
    pub fn reload_topics_list(&mut self, stored: Vec<Topic>)
        ensures
            old(self).show_virtual_topics ==> topic_ids(final(self).topics@) == virtual_ids()
                + topic_ids(stored@),
            !old(self).show_virtual_topics ==> final(self).topics@ == stored@,
            lists_topics(final(self).topics@, old(self).show_virtual_topics, stored@),
            final(self).selected_topic == if old(self).selected_topic < final(self).topics@.len() {
                old(self).selected_topic as nat
            } else {
                last_index(final(self).topics@.len())
            },
            final(self).todos@ == old(self).todos@,
            final(self).show_virtual_topics == old(self).show_virtual_topics,
            final(self).last_topic_id == old(self).last_topic_id,
            final(self).memory() == old(self).memory(),
            *final(self) == (App { topics: final(self).topics, selected_topic: final(self).selected_topic, ..*old(self) }),
    {
        self.topics = topic_list(self.show_virtual_topics, stored);
        if self.selected_topic >= self.topics.len() {
            self.selected_topic = if self.topics.len() == 0 {
                0
            } else {
                self.topics.len() - 1
            };
        }
    }

    /// Installs a freshly loaded todo list for the selected topic: ordered
    /// by the current sort; when the topic changed, the cursor of the topic
    /// left is remembered and the one remembered for the new topic restored
    /// (else the top); the cursor stays within the list.
    pub fn reload_todos(&mut self, todos: Vec<Todo>)
        ensures
            final(self).selected_todo == cursor_after_reload(
                old(self).last_topic_id,
                old(self).selected_id(),
                old(self).selected_todo,
                old(self).memory(),
                todos@.len(),
            ),
            final(self).memory() == memory_after_reload(
                old(self).last_topic_id,
                old(self).selected_id(),
                old(self).selected_todo,
                old(self).memory(),
            ),
            final(self).last_topic_id == old(self).selected_id(),
            final(self).todo_sort == old(self).todo_sort,
            old(self).todo_sort == TodoSort::Flat ==> final(self).todos@ == todos@,
            old(self).todo_sort == TodoSort::Bucketed ==> {
                &&& final(self).todos@.len() == todos@.len()
                &&& bucket_sorted(todo_views(final(self).todos@))
                &&& forall|x: TodoView|
                    #![trigger bucket_class(todo_views(final(self).todos@), x)]
                    bucket_class(todo_views(final(self).todos@), x) == bucket_class(
                        todo_views(todos@),
                        x,
                    )
            },
            final(self).topics@ == old(self).topics@,
            final(self).selected_topic == old(self).selected_topic,
            reloaded(*old(self), *final(self), todos@.len()),
            *final(self) == (App {
                todos: final(self).todos,
                selected_todo: final(self).selected_todo,
                last_topic_id: final(self).last_topic_id,
                topic_cursor_memory: final(self).topic_cursor_memory,
                ..*old(self)
            }),
    {
        let new_id = self.selected_topic_id();
        let mut todos = todos;
        self.todo_sort.apply(&mut todos);
        let len = todos.len();
        let cursor = switch_cursor(&mut self.topic_cursor_memory, self.last_topic_id, new_id, self.selected_todo, len);
        self.todos = todos;
        self.selected_todo = cursor;
        self.last_topic_id = new_id;
    }
}

/// Moves the todo cursor to a freshly loaded list of `len` todos: when the
/// topic changed, the cursor of the topic left is remembered and the one
/// remembered for the new topic taken (else the top); the cursor stays
/// within the list.
fn switch_cursor(
    memory: &mut HashMap<i64, usize>,
    last: Option<i64>,
    new_id: Option<i64>,
    selected: usize,
    len: usize,
) -> (cursor: usize)
    ensures
        cursor == cursor_after_reload(last, new_id, selected, old(memory)@, len as nat),
        final(memory)@ == memory_after_reload(last, new_id, selected, old(memory)@),
{
    if last != new_id {
        if let Some(prev) = last {
            memory.insert(prev, selected);
        }
    }
    let max = if len == 0 {
        0
    } else {
        len - 1
    };
    let wanted = if last != new_id {
        match new_id {
            Some(id) => match memory.get(&id) {
                Some(c) => *c,
                None => 0,
            },
            None => 0,
        }
    } else {
        selected
    };
    if wanted < max {
        wanted
    } else {
        max
    }
}

/// The first position of a topic with an id.
pub open spec fn topic_position(s: Seq<Topic>, id: i64) -> Option<int>
    decreases s.len(),
{
    if s.len() == 0 {
        None
    } else {
        match topic_position(s.drop_last(), id) {
            Some(i) => Some(i),
            None => if s.last().id == id {
                Some(s.len() - 1)
            } else {
                None
            },
        }
    }
}

/// The first position of a stored topic (positive id).
pub open spec fn first_real_topic(s: Seq<Topic>) -> Option<int>
    decreases s.len(),
{
    if s.len() == 0 {
        None
    } else {
        match first_real_topic(s.drop_last()) {
            Some(i) => Some(i),
            None => if s.last().id > 0 {
                Some(s.len() - 1)
            } else {
                None
            },
        }
    }
}

/// The first position of a todo with an id.
pub open spec fn todo_position(s: Seq<Todo>, id: i64) -> Option<int>
    decreases s.len(),
{
    if s.len() == 0 {
        None
    } else {
        match todo_position(s.drop_last(), id) {
            Some(i) => Some(i),
            None => if s.last().id == id {
                Some(s.len() - 1)
            } else {
                None
            },
        }
    }
}

proof fn lemma_topic_position_ok(s: Seq<Topic>, id: i64)
    ensures
        topic_position(s, id) matches Some(i) ==> 0 <= i < s.len() && s[i].id == id,
        first_real_topic(s) matches Some(i) ==> 0 <= i < s.len() && s[i].id > 0,
    decreases s.len(),
{
    if s.len() > 0 {
        lemma_topic_position_ok(s.drop_last(), id);
    }
}

proof fn lemma_todo_position_ok(s: Seq<Todo>, id: i64)
    ensures
        todo_position(s, id) matches Some(i) ==> 0 <= i < s.len() && s[i].id == id,
    decreases s.len(),
{
    if s.len() > 0 {
        lemma_todo_position_ok(s.drop_last(), id);
    }
}

/// Finds the first topic with an id.
pub fn find_topic(s: &Vec<Topic>, id: i64) -> (r: Option<usize>)
    ensures
        r matches Some(i) ==> topic_position(s@, id) == Some(i as int),
        r is None ==> topic_position(s@, id) is None,
        r matches Some(i) ==> i < s.len() && s@[i as int].id == id,
{
    let mut i: usize = 0;
    while i < s.len()
        invariant
            i <= s.len(),
            topic_position(s@.take(i as int), id) is None,
        decreases s.len() - i,
    {
        assert(s@.take(i + 1).drop_last() =~= s@.take(i as int));
        if s[i].id == id {
            assert(topic_position(s@.take(i + 1), id) == Some(i as int));
            proof {
                lemma_topic_prefix(s@, id, (i + 1) as int);
            }
            return Some(i);
        }
        i = i + 1;
    }
    assert(s@.take(s.len() as int) =~= s@);
    None
}

proof fn lemma_topic_prefix(s: Seq<Topic>, id: i64, k: int)
    requires
        0 <= k <= s.len(),
        topic_position(s.take(k), id) is Some,
    ensures
        topic_position(s, id) == topic_position(s.take(k), id),
    decreases s.len() - k,
{
    if k < s.len() {
        assert(s.take(k + 1).drop_last() =~= s.take(k));
        lemma_topic_prefix(s, id, k + 1);
    } else {
        assert(s.take(k) =~= s);
    }
}

/// Finds the first stored topic.
pub fn find_real_topic(s: &Vec<Topic>) -> (r: Option<usize>)
    ensures
        r matches Some(i) ==> first_real_topic(s@) == Some(i as int),
        r is None ==> first_real_topic(s@) is None,
{
    let mut i: usize = 0;
    while i < s.len()
        invariant
            i <= s.len(),
            first_real_topic(s@.take(i as int)) is None,
        decreases s.len() - i,
    {
        assert(s@.take(i + 1).drop_last() =~= s@.take(i as int));
        if s[i].id > 0 {
            assert(first_real_topic(s@.take(i + 1)) == Some(i as int));
            proof {
                lemma_real_prefix(s@, (i + 1) as int);
            }
            return Some(i);
        }
        i = i + 1;
    }
    assert(s@.take(s.len() as int) =~= s@);
    None
}

proof fn lemma_real_prefix(s: Seq<Topic>, k: int)
    requires
        0 <= k <= s.len(),
        first_real_topic(s.take(k)) is Some,
    ensures
        first_real_topic(s) == first_real_topic(s.take(k)),
    decreases s.len() - k,
{
    if k < s.len() {
        assert(s.take(k + 1).drop_last() =~= s.take(k));
        lemma_real_prefix(s, k + 1);
    } else {
        assert(s.take(k) =~= s);
    }
}

/// Finds the first todo with an id.
pub fn find_todo(s: &Vec<Todo>, id: i64) -> (r: Option<usize>)
    ensures
        r matches Some(i) ==> todo_position(s@, id) == Some(i as int),
        r is None ==> todo_position(s@, id) is None,
        r matches Some(i) ==> i < s.len() && s@[i as int].id == id,
{
    let mut i: usize = 0;
    while i < s.len()
        invariant
            i <= s.len(),
            todo_position(s@.take(i as int), id) is None,
        decreases s.len() - i,
    {
        assert(s@.take(i + 1).drop_last() =~= s@.take(i as int));
        if s[i].id == id {
            assert(todo_position(s@.take(i + 1), id) == Some(i as int));
            proof {
                lemma_todo_prefix(s@, id, (i + 1) as int);
            }
            return Some(i);
        }
        i = i + 1;
    }
    assert(s@.take(s.len() as int) =~= s@);
    None
}

proof fn lemma_todo_prefix(s: Seq<Todo>, id: i64, k: int)
    requires
        0 <= k <= s.len(),
        todo_position(s.take(k), id) is Some,
    ensures
        todo_position(s, id) == todo_position(s.take(k), id),
    decreases s.len() - k,
{
    if k < s.len() {
        assert(s.take(k + 1).drop_last() =~= s.take(k));
        lemma_todo_prefix(s, id, k + 1);
    } else {
        assert(s.take(k) =~= s);
    }
}

/// The topic to select after the built-in views are shown or hidden: the
/// topic selected before, else the first stored topic, else the first;
/// within the list.
pub open spec fn selection_after_toggle(topics: Seq<Topic>, before: Option<i64>) -> nat {
    let wanted: nat = match before {
        Some(id) => match topic_position(topics, id) {
            Some(i) => i as nat,
            None => match first_real_topic(topics) {
                Some(i) => i as nat,
                None => 0,
            },
        },
        None => match first_real_topic(topics) {
            Some(i) => i as nat,
            None => 0,
        },
    };
    if wanted < last_index(topics.len()) {
        wanted
    } else {
        last_index(topics.len())
    }
}

/// Showing or hiding the built-in views took `pre` to `post`, with the
/// stored topics `stored`: the views are shown when they were hidden, the
/// list holds the stored topics (after the views when shown), and the topic
/// selected before stays selected when it is still listed.
pub open spec fn views_toggled(pre: App, post: App, stored: Seq<Topic>) -> bool {
    &&& post.show_virtual_topics == !pre.show_virtual_topics
    &&& lists_topics(post.topics@, post.show_virtual_topics, stored)
    &&& post.selected_topic == selection_after_toggle(post.topics@, pre.selected_id())
}

proof fn lemma_topic_position_found(s: Seq<Topic>, id: i64, k: int)
    requires
        0 <= k < s.len(),
        s[k].id == id,
    ensures
        topic_position(s, id) is Some,
    decreases s.len(),
{
    if k < s.len() - 1 {
        lemma_topic_position_found(s.drop_last(), id, k);
    }
}

/// A stored topic's id occurs in a topic list that holds the stored topics.
proof fn lemma_stored_id_listed(topics: Seq<Topic>, show: bool, stored: Seq<Topic>, k: int)
    requires
        lists_topics(topics, show, stored),
        0 <= k < stored.len(),
    ensures
        topic_position(topics, stored[k].id) matches Some(p) && 0 <= p < topics.len()
            && topics[p].id == stored[k].id,
{
    let j = if show {
        k + 3
    } else {
        k
    };
    if show {
        assert(topic_views(topics).len() == topics.len());
        assert(topics.len() == 3 + stored.len());
        assert(topic_views(topics)[j] == topics[j]@);
        assert((virtual_topic_views() + topic_views(stored))[j] == topic_views(stored)[k]);
        assert(topic_views(stored)[k] == stored[k]@);
    }
    assert(topics[j].id == stored[k].id);
    lemma_topic_position_found(topics, stored[k].id, j);
    lemma_topic_position_ok(topics, stored[k].id);
}

/// Showing or hiding the built-in views twice gives back the same topic
/// list, and a stored topic that was selected is selected again.
pub proof fn lemma_views_toggle_twice(pre: App, mid: App, post: App, stored: Seq<Topic>)
    requires
        lists_topics(pre.topics@, pre.show_virtual_topics, stored),
        views_toggled(pre, mid, stored),
        views_toggled(mid, post, stored),
        pre.selected_id() matches Some(id) && id > 0,
    ensures
        post.show_virtual_topics == pre.show_virtual_topics,
        topic_views(post.topics@) == topic_views(pre.topics@),
        post.selected_id() == pre.selected_id(),
{
    let id = pre.selected_id()->0;
    let t = pre.selected_topic as int;
    assert(pre.topics@[t].id == id);
    // The selected topic is a stored one.
    if pre.show_virtual_topics {
        assert(topic_views(pre.topics@).len() == pre.topics@.len());
        assert(pre.topics@.len() == 3 + stored.len());
        assert(topic_views(pre.topics@)[t] == pre.topics@[t]@);
        if t < 3 {
            assert((virtual_topic_views() + topic_views(stored))[t] == virtual_topic_views()[t]);
            assert(false);
        }
        assert((virtual_topic_views() + topic_views(stored))[t] == topic_views(stored)[t - 3]);
        assert(topic_views(stored)[t - 3] == stored[t - 3]@);
    }
    let k: int = if pre.show_virtual_topics {
        t - 3
    } else {
        t
    };
    assert(0 <= k < stored.len() && stored[k].id == id);
    lemma_stored_id_listed(mid.topics@, mid.show_virtual_topics, stored, k);
    lemma_stored_id_listed(post.topics@, post.show_virtual_topics, stored, k);
    let p1 = topic_position(mid.topics@, id)->0;
    let p2 = topic_position(post.topics@, id)->0;
    assert(mid.selected_topic == p1);
    assert(post.selected_topic == p2);
    if pre.show_virtual_topics {
        assert(topic_views(post.topics@) =~= topic_views(pre.topics@));
    } else {
        assert(post.topics@ == pre.topics@);
    }
}

/// When the listed topics have distinct ids, showing or hiding the
/// built-in views twice also puts the cursor back on the same row.
pub proof fn lemma_views_toggle_twice_keeps_row(pre: App, mid: App, post: App, stored: Seq<Topic>)
    requires
        lists_topics(pre.topics@, pre.show_virtual_topics, stored),
        views_toggled(pre, mid, stored),
        views_toggled(mid, post, stored),
        pre.selected_id() matches Some(id) && id > 0,
        forall|a: int, b: int| 0 <= a < b < pre.topics@.len() ==> #[trigger] pre.topics@[a].id != #[trigger] pre.topics@[b].id,
    ensures
        post.show_virtual_topics == pre.show_virtual_topics,
        topic_views(post.topics@) == topic_views(pre.topics@),
        post.selected_topic == pre.selected_topic,
{
    lemma_views_toggle_twice(pre, mid, post, stored);
    let id = pre.selected_id()->0;
    let t = pre.selected_topic as int;
    let p = post.selected_topic as int;
    assert(pre.topics@[t].id == id);
    assert(post.selected_id() == Some(id));
    assert(0 <= p < post.topics@.len() && post.topics@[p].id == id);
    assert(topic_views(post.topics@).len() == post.topics@.len());
    assert(topic_views(pre.topics@).len() == pre.topics@.len());
    assert(topic_views(post.topics@)[p] == post.topics@[p]@);
    assert(topic_views(pre.topics@)[p] == pre.topics@[p]@);
    assert(pre.topics@[p].id == id);
    if p < t {
        assert(pre.topics@[p].id != pre.topics@[t].id);
    } else if t < p {
        assert(pre.topics@[t].id != pre.topics@[p].id);
    }
}

impl App {
    /// The state on start: the built-in views and the stored topics, the
    /// first view (todos in progress) selected and its todos listed in the
    /// bucketed order.
    pub fn new(stored_topics: Vec<Topic>, in_progress: Vec<Todo>, info: AppInfo) -> (r: App)
        ensures
            topic_ids(r.topics@) == virtual_ids() + topic_ids(stored_topics@),
            lists_topics(r.topics@, true, stored_topics@),
            r.info == info,
            r.selected_topic == 0,
            r.selected_todo == 0,
            r.focus == Focus::Topics,
            r.mode == Mode::Normal,
            r.todo_sort == TodoSort::Bucketed,
            r.todos@.len() == in_progress@.len(),
            bucket_sorted(todo_views(r.todos@)),
            forall|x: TodoView|
                #![trigger bucket_class(todo_views(r.todos@), x)]
                bucket_class(todo_views(r.todos@), x) == bucket_class(todo_views(in_progress@), x),
            r.last_topic_id == Some(IN_PROGRESS_ID),
            r.show_virtual_topics,
            r.memory() == Map::<i64, usize>::empty(),
            r.detail is None,
            r.confirm_delete is None,
            r.status_message is None,
            !r.should_quit && !r.confirm_quit && !r.show_info && !r.due_popup && !r.move_popup
                && !r.sync_popup && !r.sync_running && !r.search_open && !r.briefing_open
                && !r.editing,
            r.sync_status is None,
            r.search_results@.len() == 0,
            r.briefing_items@.len() == 0,
            r.input@.len() == 0 && r.search_query@.len() == 0 && r.due_input@.len() == 0,
            r.cursor_pos == 0 && r.due_cursor == 0 && r.selected_search_result == 0
                && r.move_popup_selected == 0 && r.sync_popup_selected == 0
                && r.selected_briefing == 0,
    {
        let topics = topic_list(true, stored_topics);
        let mut todos = in_progress;
        TodoSort::Bucketed.apply(&mut todos);
        App {
            topics,
            todos,
            selected_topic: 0,
            selected_todo: 0,
            focus: Focus::Topics,
            mode: Mode::Normal,
            input: String::new(),
            search_query: String::new(),
            search_results: Vec::new(),
            selected_search_result: 0,
            cursor_pos: 0,
            editing: false,
            status_message: None,
            should_quit: false,
            confirm_quit: false,
            confirm_delete: None,
            show_info: false,
            info,
            todo_sort: TodoSort::Bucketed,
            due_popup: false,
            due_input: String::new(),
            due_cursor: 0,
            detail: None,
            move_popup: false,
            move_popup_selected: 0,
            sync_popup: false,
            sync_popup_selected: 0,
            sync_running: false,
            sync_status: None,
            search_open: false,
            topic_cursor_memory: HashMap::new(),
            last_topic_id: Some(IN_PROGRESS_ID),
            show_virtual_topics: true,
            briefing_open: false,
            briefing_items: Vec::new(),
            selected_briefing: 0,
        }
    }

    /// Shows or hides the built-in views, keeping the selected topic when
    /// it is still listed (else selecting the first stored topic). The
    /// todos of the new selection are to be reloaded.
    pub fn toggle_virtual_topics(&mut self, stored: Vec<Topic>)
        ensures
            views_toggled(*old(self), *final(self), stored@),
            final(self).show_virtual_topics ==> topic_ids(final(self).topics@) == virtual_ids()
                + topic_ids(stored@),
            !final(self).show_virtual_topics ==> final(self).topics@ == stored@,
            lists_topics(final(self).topics@, final(self).show_virtual_topics, stored@),
            final(self).selected_topic == selection_after_toggle(
                final(self).topics@,
                old(self).selected_id(),
            ),
            final(self).todos@ == old(self).todos@,
            final(self).last_topic_id == old(self).last_topic_id,
            final(self).memory() == old(self).memory(),
            *final(self) == (App { show_virtual_topics: final(self).show_virtual_topics, topics: final(self).topics, selected_topic: final(self).selected_topic, ..*old(self) }),
    {
        let current = self.selected_topic_id();
        self.show_virtual_topics = !self.show_virtual_topics;
        self.reload_topics_list(stored);
        let wanted = match current {
            Some(id) => match find_topic(&self.topics, id) {
                Some(i) => i,
                None => match find_real_topic(&self.topics) {
                    Some(i) => i,
                    None => 0,
                },
            },
            None => match find_real_topic(&self.topics) {
                Some(i) => i,
                None => 0,
            },
        };
        let max = if self.topics.len() == 0 {
            0
        } else {
            self.topics.len() - 1
        };
        self.selected_topic = if wanted < max {
            wanted
        } else {
            max
        };
    }

    /// Switches between the bucketed and the flat order and installs the
    /// reloaded todos, keeping the cursor on the todo it was on when that
    /// todo is still listed.
    pub fn toggle_todo_sort(&mut self, todos: Vec<Todo>)
        ensures
            final(self).todo_sort == toggled_sort(old(self).todo_sort),
            final(self).todo_sort == TodoSort::Flat ==> final(self).todos@ == todos@,
            final(self).todo_sort == TodoSort::Bucketed ==> {
                &&& final(self).todos@.len() == todos@.len()
                &&& bucket_sorted(todo_views(final(self).todos@))
                &&& forall|x: TodoView|
                    #![trigger bucket_class(todo_views(final(self).todos@), x)]
                    bucket_class(todo_views(final(self).todos@), x) == bucket_class(
                        todo_views(todos@),
                        x,
                    )
            },
            final(self).selected_todo == (if old(self).selected_todo < old(self).todos@.len() {
                match todo_position(final(self).todos@, old(self).todos@[old(self).selected_todo as int].id) {
                    Some(p) => p as nat,
                    None => old(self).selected_todo as nat,
                }
            } else {
                old(self).selected_todo as nat
            }),
            final(self).topics@ == old(self).topics@,
            final(self).selected_topic == old(self).selected_topic,
            *final(self) == (App { todo_sort: final(self).todo_sort, todos: final(self).todos, selected_todo: final(self).selected_todo, ..*old(self) }),
    {
        let selected_id = if self.selected_todo < self.todos.len() {
            Some(self.todos[self.selected_todo].id)
        } else {
            None
        };
        self.todo_sort = self.todo_sort.toggled();
        let mut todos = todos;
        self.todo_sort.apply(&mut todos);
        self.todos = todos;
        if let Some(id) = selected_id {
            if let Some(pos) = find_todo(&self.todos, id) {
                self.selected_todo = pos;
            }
        }
    }

    /// Moves the cursor of the focused list to its top; whether the
    /// selected topic changed (its todos are then to be reloaded).
    pub fn nav_top(&mut self) -> (changed: bool)
        ensures
            old(self).focus == Focus::Topics ==> changed && *final(self) == (App { selected_topic: 0, ..*old(self) }),
            old(self).focus == Focus::Todos ==> !changed && *final(self) == (App { selected_todo: 0, ..*old(self) }),
    {
        match self.focus {
            Focus::Topics => {
                self.selected_topic = 0;
                true
            },
            Focus::Todos => {
                self.selected_todo = 0;
                false
            },
        }
    }

    /// Moves the cursor of the focused list to its bottom; whether the
    /// selected topic changed.
    pub fn nav_bottom(&mut self) -> (changed: bool)
        ensures
            old(self).focus == Focus::Topics ==> changed && *final(self) == (App {
                selected_topic: last_index(old(self).topics@.len()) as usize,
                ..*old(self)
            }),
            old(self).focus == Focus::Todos ==> !changed && *final(self) == (App {
                selected_todo: last_index(old(self).todos@.len()) as usize,
                ..*old(self)
            }),
    {
        match self.focus {
            Focus::Topics => {
                self.selected_topic = if self.topics.len() == 0 {
                    0
                } else {
                    self.topics.len() - 1
                };
                true
            },
            Focus::Todos => {
                self.selected_todo = if self.todos.len() == 0 {
                    0
                } else {
                    self.todos.len() - 1
                };
                false
            },
        }
    }

    /// Moves the cursor of the focused list up one row, if it can; whether
    /// the selected topic changed.
    pub fn nav_up(&mut self) -> (changed: bool)
        ensures
            old(self).focus == Focus::Topics ==> changed == (old(self).selected_topic > 0)
                && *final(self) == (App {
                    selected_topic: if changed {
                        (old(self).selected_topic - 1) as usize
                    } else {
                        old(self).selected_topic
                    },
                    ..*old(self)
                }),
            old(self).focus == Focus::Todos ==> !changed && *final(self) == (App {
                selected_todo: if old(self).selected_todo > 0 {
                    (old(self).selected_todo - 1) as usize
                } else {
                    0
                },
                ..*old(self)
            }),
    {
        match self.focus {
            Focus::Topics => {
                if self.selected_topic > 0 {
                    self.selected_topic = self.selected_topic - 1;
                    true
                } else {
                    false
                }
            },
            Focus::Todos => {
                if self.selected_todo > 0 {
                    self.selected_todo = self.selected_todo - 1;
                }
                false
            },
        }
    }

    /// Moves the cursor of the focused list down one row, if it can;
    /// whether the selected topic changed.
    pub fn nav_down(&mut self) -> (changed: bool)
        ensures
            old(self).focus == Focus::Topics ==> changed == (old(self).selected_topic + 1 < old(self).topics@.len())
                && *final(self) == (App {
                    selected_topic: if changed {
                        (old(self).selected_topic + 1) as usize
                    } else {
                        old(self).selected_topic
                    },
                    ..*old(self)
                }),
            old(self).focus == Focus::Todos ==> !changed && *final(self) == (App {
                selected_todo: if old(self).selected_todo + 1 < old(self).todos@.len() {
                    (old(self).selected_todo + 1) as usize
                } else {
                    old(self).selected_todo
                },
                ..*old(self)
            }),
    {
        match self.focus {
            Focus::Topics => {
                if self.topics.len() > 0 && self.selected_topic < self.topics.len() - 1 {
                    self.selected_topic = self.selected_topic + 1;
                    true
                } else {
                    false
                }
            },
            Focus::Todos => {
                if self.todos.len() > 0 && self.selected_todo < self.todos.len() - 1 {
                    self.selected_todo = self.selected_todo + 1;
                }
                false
            },
        }
    }
}

/// A todo with another priority.
pub open spec fn with_priority(t: Todo, p: Option<u8>) -> TodoView {
    TodoView { priority: p, ..t@ }
}

/// A todo with other state flags.
pub open spec fn with_state(t: Todo, done: bool, in_progress: bool, blocked: bool) -> TodoView {
    TodoView { done: done, in_progress: in_progress, blocked: blocked, ..t@ }
}

/// A todo with another due date.
pub open spec fn with_due(t: Todo, due: Option<Seq<char>>) -> TodoView {
    TodoView { due_date: due, ..t@ }
}

/// The sequence changed at one position, the rest unchanged.
pub open spec fn updated_at(old: Seq<Todo>, new: Seq<Todo>, i: int, v: TodoView) -> bool {
    &&& new.len() == old.len()
    &&& new[i]@ == v
    &&& forall|j: int| 0 <= j < old.len() && j != i ==> new[j] == old[j]
}

/// What adding or editing a todo stores: its text without the priority
/// tags, the priority of the last tag, and a link.
pub struct TodoInput {
    pub text: String,
    pub priority: Option<u8>,
    pub url: Option<String>,
}

/// Reads a new todo's input line: the tags removed (see
/// [`extract_priority`]) and the first link of the remaining text.
pub fn new_todo_input(line: &str) -> (r: TodoInput)
    ensures
        r.text@ == join(untagged(words(line@)), seq![' ']),
        r.priority == last_priority_tag(words(line@)),
        crate::models::opt_str_view(r.url) == extracted_url(r.text@),
{
    let (text, priority) = extract_priority(line);
    let url = extract_url(text.as_str());
    TodoInput { text, priority, url }
}

impl App {
    /// The id of the todo under the cursor.
    pub fn selected_todo_id(&self) -> (r: Option<i64>)
        ensures
            r == (if self.selected_todo < self.todos@.len() {
                Some(self.todos@[self.selected_todo as int].id)
            } else {
                None
            }),
    {
        if self.selected_todo < self.todos.len() {
            Some(self.todos[self.selected_todo].id)
        } else {
            None
        }
    }

    /// The todo under the cursor and the priority the priority key gives it.
    pub fn priority_cycle_target(&self) -> (r: Option<(i64, Option<u8>)>)
        ensures
            self.selected_todo < self.todos@.len() ==> r == Some((
                self.todos@[self.selected_todo as int].id,
                crate::lifecycle::next_priority_spec(self.todos@[self.selected_todo as int].priority),
            )),
            self.selected_todo >= self.todos@.len() ==> r is None,
    {
        if self.selected_todo < self.todos.len() {
            let t = &self.todos[self.selected_todo];
            Some((t.id, crate::lifecycle::next_priority(t.priority)))
        } else {
            None
        }
    }

    /// Gives the todo under the cursor a priority.
    pub fn set_selected_priority(&mut self, priority: Option<u8>)
        ensures
            old(self).selected_todo < old(self).todos@.len() ==> updated_at(
                old(self).todos@,
                final(self).todos@,
                old(self).selected_todo as int,
                with_priority(old(self).todos@[old(self).selected_todo as int], priority),
            ),
            old(self).selected_todo >= old(self).todos@.len() ==> final(self).todos@ == old(self).todos@,
            *final(self) == (App { todos: final(self).todos, ..*old(self) }),
    {
        let i = self.selected_todo;
        if i < self.todos.len() {
            let mut t = self.todos[i].duplicate();
            t.priority = priority;
            self.todos.set(i, t);
        }
    }

    /// Gives the todo under the cursor new state flags.
    pub fn set_selected_state(&mut self, done: bool, in_progress: bool, blocked: bool)
        ensures
            old(self).selected_todo < old(self).todos@.len() ==> updated_at(
                old(self).todos@,
                final(self).todos@,
                old(self).selected_todo as int,
                with_state(old(self).todos@[old(self).selected_todo as int], done, in_progress, blocked),
            ),
            old(self).selected_todo >= old(self).todos@.len() ==> final(self).todos@ == old(self).todos@,
            *final(self) == (App { todos: final(self).todos, ..*old(self) }),
    {
        let i = self.selected_todo;
        if i < self.todos.len() {
            let mut t = self.todos[i].duplicate();
            t.done = done;
            t.in_progress = in_progress;
            t.blocked = blocked;
            self.todos.set(i, t);
        }
    }

    /// Shows the new state flags of the todo under the cursor and moves the
    /// cursor on to the next todo, when there is one.
    pub fn finish_toggle(&mut self, done: bool, in_progress: bool, blocked: bool)
        ensures
            old(self).selected_todo < old(self).todos@.len() ==> updated_at(
                old(self).todos@,
                final(self).todos@,
                old(self).selected_todo as int,
                with_state(old(self).todos@[old(self).selected_todo as int], done, in_progress, blocked),
            ),
            old(self).selected_todo >= old(self).todos@.len() ==> final(self).todos@ == old(self).todos@,
            final(self).selected_todo == if old(self).selected_todo + 1 < old(self).todos@.len() {
                old(self).selected_todo + 1
            } else {
                old(self).selected_todo as int
            },
            *final(self) == (App { todos: final(self).todos, selected_todo: final(self).selected_todo, ..*old(self) }),
    {
        self.set_selected_state(done, in_progress, blocked);
        if self.selected_todo < self.todos.len() && self.todos.len() - self.selected_todo > 1 {
            self.selected_todo = self.selected_todo + 1;
        }
    }

    /// Gives the todo under the cursor a due date.
    pub fn set_selected_due(&mut self, due: Option<String>)
        ensures
            old(self).selected_todo < old(self).todos@.len() ==> updated_at(
                old(self).todos@,
                final(self).todos@,
                old(self).selected_todo as int,
                with_due(old(self).todos@[old(self).selected_todo as int], crate::models::opt_str_view(due)),
            ),
            old(self).selected_todo >= old(self).todos@.len() ==> final(self).todos@ == old(self).todos@,
            *final(self) == (App { todos: final(self).todos, ..*old(self) }),
    {
        let i = self.selected_todo;
        if i < self.todos.len() {
            let mut t = self.todos[i].duplicate();
            t.due_date = due;
            self.todos.set(i, t);
        }
    }

    /// Lists a newly stored topic and selects it (its todos are then to be
    /// loaded).
    pub fn add_topic(&mut self, topic: Topic)
        ensures
            final(self).topics@ == old(self).topics@.push(topic),
            final(self).selected_topic == old(self).topics@.len(),
            *final(self) == (App { topics: final(self).topics, selected_topic: final(self).selected_topic, ..*old(self) }),
    {
        self.topics.push(topic);
        self.selected_topic = self.topics.len() - 1;
    }

    /// Lists a newly stored todo and puts the cursor on it.
    pub fn add_todo(&mut self, todo: Todo)
        ensures
            final(self).todos@ == old(self).todos@.push(todo),
            final(self).selected_todo == old(self).todos@.len(),
            *final(self) == (App { todos: final(self).todos, selected_todo: final(self).selected_todo, ..*old(self) }),
    {
        self.todos.push(todo);
        self.selected_todo = self.todos.len() - 1;
    }

    /// What editing the todo under the cursor stores: the input read as for
    /// a new todo, keeping the todo's link when the text has none.
    pub fn todo_edit(&self, line: &str) -> (r: Option<(i64, TodoInput, bool)>)
        ensures
            self.selected_todo >= self.todos@.len() ==> r is None,
            self.selected_todo < self.todos@.len() ==> (r matches Some((id, input, done)) && {
                let t = self.todos@[self.selected_todo as int];
                &&& id == t.id
                &&& done == t.done
                &&& input.text@ == join(untagged(words(line@)), seq![' '])
                &&& input.priority == last_priority_tag(words(line@))
                &&& crate::models::opt_str_view(input.url) == match extracted_url(input.text@) {
                    Some(u) => Some(u),
                    None => crate::models::opt_str_view(t.url),
                }
            }),
    {
        if self.selected_todo >= self.todos.len() {
            return None;
        }
        let t = &self.todos[self.selected_todo];
        let mut input = new_todo_input(line);
        if input.url.is_none() {
            input.url = crate::models::clone_opt_string(&t.url);
        }
        Some((t.id, input, t.done))
    }
}

/// The detail panel of a todo, opened on its text.
pub open spec fn opened_detail(
    d: DetailState,
    t: Todo,
    created_at: Option<String>,
    started_at: Option<String>,
    completed_at: Option<String>,
    comments: Seq<Comment>,
) -> bool {
    &&& d.todo_id == t.id
    &&& d.field == DetailField::Text
    &&& d.text@ == t.text@
    &&& d.text_cursor == 0
    &&& d.priority == t.priority
    &&& d.due@ == (match t.due_date {
        Some(x) => x@,
        None => Seq::empty(),
    })
    &&& d.due_cursor == d.due@.len()
    &&& d.url@ == (match t.url {
        Some(x) => x@,
        None => Seq::empty(),
    })
    &&& d.url_cursor == d.url@.len()
    &&& d.created_at == created_at
    &&& d.started_at == started_at
    &&& d.completed_at == completed_at
    &&& d.comments@ == comments
    &&& d.new_comment@.len() == 0
    &&& d.new_comment_cursor == 0
    &&& d.comment_edit_text@.len() == 0
    &&& d.comment_edit_cursor == 0
    &&& d.detail_scroll == 0
}

fn string_or_empty(s: &Option<String>) -> (r: String)
    ensures
        r@ == match *s {
            Some(x) => x@,
            None => Seq::empty(),
        },
{
    match s {
        Some(x) => x.clone(),
        None => String::new(),
    }
}

fn char_count(s: &String) -> (r: usize)
    ensures
        r == s@.len(),
{
    chars_of(s.as_str()).len()
}

/// What saving the detail panel stores.
pub struct DetailSave {
    pub todo_id: i64,
    pub text: String,
    pub priority: Option<u8>,
    /// The link; none when the field is empty.
    pub url: Option<String>,
    /// The due date as `YYYY-MM-DD`; none to clear it.
    pub due: Option<String>,
    /// Whether the todo is done, when it is in the listed todos (its text,
    /// state and link are only stored then).
    pub done: Option<bool>,
    /// The comments' texts, newest first.
    pub comment_texts: Vec<String>,
}

/// The outcome of confirming the detail panel.
pub enum DetailOutcome {
    /// The panel is not open.
    NotOpen,
    /// The due date is not understood; the message is shown and the panel
    /// stays open.
    Rejected,
    /// The due date is beyond the calendar's range.
    OutOfRange,
    /// The edits to store; the panel closes once they are stored.
    Save(DetailSave),
}

/// The edits a detail panel holds, given the due date read from it.
pub open spec fn detail_save_spec(d: DetailState, todos: Seq<Todo>, due: Option<Seq<char>>, s: DetailSave) -> bool {
    &&& s.todo_id == d.todo_id
    &&& s.text@ == d.text@
    &&& s.priority == d.priority
    &&& crate::models::opt_str_view(s.url) == (if d.url@.len() == 0 {
        None
    } else {
        Some(d.url@)
    })
    &&& crate::models::opt_str_view(s.due) == due
    &&& s.done == (match todo_position(todos, d.todo_id) {
        Some(i) => Some(todos[i].done),
        None => None,
    })
    &&& string_views(s.comment_texts@) == d.comments@.map_values(|c: Comment| c.text@)
}

/// A new comment to store.
pub struct NewComment {
    pub todo_id: i64,
    /// The comment without surrounding whitespace.
    pub text: String,
    /// The first link in it.
    pub url: Option<String>,
}

/// The outcome of leaving an edited comment.
pub enum CommentEdit {
    /// No existing comment is being edited.
    NotEditing,
    /// The edit is empty: delete the comment at this position.
    Delete { index: usize, comment_id: i64 },
    /// Store the edited text and its link for the comment at this position.
    Update { index: usize, comment_id: i64, text: String, url: Option<String> },
}

/// The new comment of a detail panel: its text without surrounding
/// whitespace and the first link in it; none when it is blank.
pub open spec fn new_comment_of(d: DetailState, r: Option<NewComment>) -> bool {
    let text = trim_ws(d.new_comment@);
    &&& text.len() == 0 ==> r is None
    &&& text.len() > 0 ==> (r matches Some(c) && c.todo_id == d.todo_id && c.text@ == text
        && crate::models::opt_str_view(c.url) == extracted_url(text))
}

/// What leaving the comment being edited in a detail panel stores: nothing
/// when no existing comment has focus; a delete when the edit is blank; else
/// the edit without surrounding whitespace and its first link.
pub open spec fn comment_edit_of(d: DetailState, r: CommentEdit) -> bool {
    &&& r is NotEditing <==> !(d.field matches DetailField::ExistingComment(i) && i < d.comments@.len())
    &&& r matches CommentEdit::Delete { index, comment_id } ==> d.field == DetailField::ExistingComment(index)
        && index < d.comments@.len() && comment_id == d.comments@[index as int].id
        && trim_ws(d.comment_edit_text@).len() == 0
    &&& r matches CommentEdit::Update { index, comment_id, text, url } ==> d.field == DetailField::ExistingComment(index)
        && index < d.comments@.len() && comment_id == d.comments@[index as int].id
        && text@ == trim_ws(d.comment_edit_text@) && text@.len() > 0
        && crate::models::opt_str_view(url) == extracted_url(text@)
}

/// The field focused after the comment at `i` was deleted, leaving `n`
/// comments: the new-comment field when none is left, else the comment now
/// at that position, else the last one.
pub open spec fn field_after_delete(i: usize, n: nat) -> DetailField {
    if n == 0 {
        DetailField::NewComment
    } else if i < n {
        DetailField::ExistingComment(i)
    } else {
        DetailField::ExistingComment((n - 1) as usize)
    }
}

/// After a comment is deleted the focus is on a field that exists.
pub proof fn lemma_focus_after_delete_exists(i: usize, n: nat)
    ensures
        field_exists(field_after_delete(i, n), n),
{
}

/// What confirming the due-date popup does.
pub enum DueConfirm {
    /// No todo is under the cursor.
    NoTodo,
    /// The input is not understood; the message is shown and the popup
    /// stays open.
    Rejected,
    /// The date is beyond the calendar's range.
    OutOfRange,
    /// Store this due date (`YYYY-MM-DD`, or none to clear) for this todo.
    Save { todo_id: i64, due: Option<String> },
}

/// The due date to store for a parse outcome (`YYYY-MM-DD`, or none to
/// clear).
pub open spec fn stored_due(o: crate::due_date::DueSpec) -> Option<Seq<char>> {
    match o {
        crate::due_date::DueSpec::Day(d) => Some(crate::cal::formatted_date(d as i32, "%Y-%m-%d"@)),
        _ => None,
    }
}

/// The label of the delete confirmation: the topic's name or the todo's
/// text (cut after 40 characters with an ellipsis).
pub open spec fn delete_label_spec(kind: Option<Focus>, topic_name: Option<Seq<char>>, todo_text: Option<Seq<char>>) -> Seq<char> {
    match kind {
        Some(Focus::Topics) => {
            let name = match topic_name {
                Some(n) => n,
                None => "this topic"@,
            };
            "Delete topic \""@ + name + "\"?"@
        },
        Some(Focus::Todos) => {
            let text = match todo_text {
                Some(t) => t,
                None => "this todo"@,
            };
            let label = if text.len() > 40 {
                text.take(40).push('\u{2026}')
            } else {
                text
            };
            "Delete \""@ + label + "\"?"@
        },
        None => "Delete?"@,
    }
}

impl App {
    /// Opens the detail panel on the todo under the cursor, with its
    /// timestamps and comments.
    pub fn open_detail(
        &mut self,
        created_at: Option<String>,
        started_at: Option<String>,
        completed_at: Option<String>,
        comments: Vec<Comment>,
    )
        ensures
            old(self).selected_todo < old(self).todos@.len() ==> (final(self).detail matches Some(d)
                && opened_detail(d, old(self).todos@[old(self).selected_todo as int], created_at, started_at, completed_at, comments@)),
            old(self).selected_todo >= old(self).todos@.len() ==> final(self).detail == old(self).detail,
            final(self).todos@ == old(self).todos@,
            final(self).selected_todo == old(self).selected_todo,
            *final(self) == (App { detail: final(self).detail, ..*old(self) }),
    {
        if self.selected_todo >= self.todos.len() {
            return;
        }
        let t = &self.todos[self.selected_todo];
        let due = string_or_empty(&t.due_date);
        let due_cursor = char_count(&due);
        let url = string_or_empty(&t.url);
        let url_cursor = char_count(&url);
        let d = DetailState {
            todo_id: t.id,
            field: DetailField::Text,
            text: t.text.clone(),
            text_cursor: 0,
            priority: t.priority,
            due,
            due_cursor,
            url,
            url_cursor,
            created_at,
            started_at,
            completed_at,
            comments,
            new_comment: String::new(),
            new_comment_cursor: 0,
            comment_edit_text: String::new(),
            comment_edit_cursor: 0,
            detail_scroll: 0,
        };
        self.detail = Some(d);
    }

    /// Closes the detail panel without saving.
    pub fn close_detail(&mut self)
        ensures
            *final(self) == (App { detail: None, ..*old(self) }),
    {
        self.detail = None;
    }

    /// Reads the detail panel's edits for storing (see [`DetailOutcome`]).
    pub fn confirm_detail(&mut self, today: i32) -> (r: DetailOutcome)
        requires
            crate::cal::day_in_range(today as int),
        ensures
            old(self).detail is None ==> r is NotOpen && final(self).status_message == old(self).status_message,
            old(self).detail matches Some(d) ==> {
                let o = crate::due_date::due_outcome(d.due@, today);
                &&& o matches crate::due_date::DueSpec::Error(m) ==> (final(self).status_message matches Some(s) && s@ == m && r is Rejected)
                &&& o is OutOfRange ==> r is OutOfRange
                &&& (o is Day || o is Clear) ==> (r matches DetailOutcome::Save(sv) && detail_save_spec(d, old(self).todos@, stored_due(o), sv))
                &&& !(o is Error) ==> final(self).status_message == old(self).status_message
            },
            *final(self) == (App { status_message: final(self).status_message, ..*old(self) }),
    {
        let d = match &self.detail {
            Some(d) => d,
            None => return DetailOutcome::NotOpen,
        };
        let due = match crate::due_date::parse(d.due.as_str(), today) {
            crate::due_date::DueParse::Error(m) => {
                self.status_message = Some(m);
                return DetailOutcome::Rejected;
            },
            crate::due_date::DueParse::OutOfRange => return DetailOutcome::OutOfRange,
            crate::due_date::DueParse::Clear => None,
            crate::due_date::DueParse::Date(day) => Some(crate::cal::format_date(day, "%Y-%m-%d")),
        };
        let url = if char_count(&d.url) == 0 {
            None
        } else {
            Some(d.url.clone())
        };
        let done = match find_todo(&self.todos, d.todo_id) {
            Some(i) => Some(self.todos[i].done),
            None => None,
        };
        let mut comment_texts: Vec<String> = Vec::new();
        let mut i: usize = 0;
        while i < d.comments.len()
            invariant
                i <= d.comments.len(),
                string_views(comment_texts@) == d.comments@.take(i as int).map_values(|c: Comment| c.text@),
            decreases d.comments.len() - i,
        {
            let ghost before = string_views(comment_texts@);
            let t = d.comments[i].text.clone();
            let ghost tv = t@;
            assert(tv == d.comments@[i as int].text@);
            comment_texts.push(t);
            assert(string_views(comment_texts@) =~= before.push(tv));
            assert(d.comments@.take(i + 1).map_values(|c: Comment| c.text@) =~= d.comments@.take(
                i as int,
            ).map_values(|c: Comment| c.text@).push(tv));
            i = i + 1;
        }
        assert(d.comments@.take(d.comments.len() as int) =~= d.comments@);
        DetailOutcome::Save(DetailSave {
            todo_id: d.todo_id,
            text: d.text.clone(),
            priority: d.priority,
            url,
            due,
            done,
            comment_texts,
        })
    }

    /// The new comment typed in the detail panel, when it is not blank.
    pub fn new_comment(&self) -> (r: Option<NewComment>)
        ensures
            self.detail is None ==> r is None,
            self.detail matches Some(d) ==> new_comment_of(d, r),
    {
        let d = match &self.detail {
            Some(d) => d,
            None => return None,
        };
        let v = chars_of(d.new_comment.as_str());
        let t = trim(&v);
        if t.len() == 0 {
            return None;
        }
        let text = string_of(&t);
        let url = extract_url(text.as_str());
        Some(NewComment { todo_id: d.todo_id, text, url })
    }

    /// Shows a newly stored comment first and clears the new-comment field.
    pub fn push_comment(&mut self, comment: Comment)
        ensures
            old(self).detail is None ==> final(self).detail == old(self).detail,
            old(self).detail matches Some(d) ==> (final(self).detail matches Some(e) && e.comments@
                == seq![comment] + d.comments@ && e.new_comment@.len() == 0 && e.new_comment_cursor == 0
                && e.field == d.field && e.todo_id == d.todo_id),
            *final(self) == (App { detail: final(self).detail, ..*old(self) }),
    {
        if let Some(d) = &mut self.detail {
            d.comments.insert(0, comment);
            d.new_comment = String::new();
            d.new_comment_cursor = 0;
            assert(d.comments@ =~= seq![comment] + old(self).detail->0.comments@);
        }
    }

    /// The position and id of the comment being edited in the detail panel.
    pub fn selected_comment(&self) -> (r: Option<(usize, i64)>)
        ensures
            r matches Some((i, id)) ==> self.detail matches Some(d) && d.field == DetailField::ExistingComment(i)
                && i < d.comments@.len() && id == d.comments@[i as int].id,
            r is None ==> !(self.detail matches Some(d) && d.field matches DetailField::ExistingComment(i)
                && i < d.comments@.len()),
    {
        match &self.detail {
            Some(d) => match d.field {
                DetailField::ExistingComment(i) => {
                    if i < d.comments.len() {
                        Some((i, d.comments[i].id))
                    } else {
                        None
                    }
                },
                _ => None,
            },
            None => None,
        }
    }

    /// Removes a deleted comment from the detail panel and moves the focus
    /// (see [`field_after_delete`]).
    pub fn remove_comment(&mut self, i: usize)
        ensures
            (old(self).detail is Some && i < old(self).detail->0.comments@.len()) ==> (final(self).detail matches Some(e)
                && e.comments@ == old(self).detail->0.comments@.remove(i as int)
                && e.field == field_after_delete(i, e.comments@.len())),
            !(old(self).detail matches Some(d) && i < d.comments@.len()) ==> final(self).detail == old(self).detail,
            *final(self) == (App { detail: final(self).detail, ..*old(self) }),
    {
        if let Some(d) = &mut self.detail {
            if i < d.comments.len() {
                d.comments.remove(i);
                let n = d.comments.len();
                d.field = if n == 0 {
                    DetailField::NewComment
                } else if i < n {
                    DetailField::ExistingComment(i)
                } else {
                    DetailField::ExistingComment(n - 1)
                };
            }
        }
    }

    /// What leaving the edited comment stores (see [`CommentEdit`]).
    pub fn comment_edit(&self) -> (r: CommentEdit)
        ensures
            self.detail is None ==> r is NotEditing,
            self.detail matches Some(d) ==> comment_edit_of(d, r),
    {
        let (i, id) = match self.selected_comment() {
            Some(x) => x,
            None => return CommentEdit::NotEditing,
        };
        let d = match &self.detail {
            Some(d) => d,
            None => return CommentEdit::NotEditing,
        };
        let v = chars_of(d.comment_edit_text.as_str());
        let t = trim(&v);
        if t.len() == 0 {
            return CommentEdit::Delete { index: i, comment_id: id };
        }
        let text = string_of(&t);
        let url = extract_url(text.as_str());
        CommentEdit::Update { index: i, comment_id: id, text, url }
    }

    /// Shows a stored comment edit.
    pub fn update_comment(&mut self, i: usize, text: String, url: Option<String>)
        ensures
            (old(self).detail is Some && i < old(self).detail->0.comments@.len()) ==> (final(self).detail matches Some(e)
                && e.comments@.len() == old(self).detail->0.comments@.len()
                && e.comments@[i as int]@ == (crate::models::CommentView { text: text@, url: crate::models::opt_str_view(url), ..old(self).detail->0.comments@[i as int]@ })
                && (forall|j: int| 0 <= j < old(self).detail->0.comments@.len() && j != i ==> e.comments@[j] == old(self).detail->0.comments@[j])
                && e.field == old(self).detail->0.field),
            !(old(self).detail matches Some(d) && i < d.comments@.len()) ==> final(self).detail == old(self).detail,
            *final(self) == (App { detail: final(self).detail, ..*old(self) }),
    {
        if let Some(d) = &mut self.detail {
            if i < d.comments.len() {
                let mut c = d.comments[i].duplicate();
                c.text = text;
                c.url = url;
                d.comments.set(i, c);
            }
        }
    }

    /// Loads a comment into the edit buffer when tabbing onto it.
    pub fn enter_comment_edit(&mut self, i: usize)
        ensures
            (old(self).detail is Some && i < old(self).detail->0.comments@.len()) ==> (final(self).detail matches Some(e)
                && e.comment_edit_text@ == old(self).detail->0.comments@[i as int].text@
                && e.comment_edit_cursor == e.comment_edit_text@.len()
                && e.comments@ == old(self).detail->0.comments@ && e.field == old(self).detail->0.field),
            !(old(self).detail matches Some(d) && i < d.comments@.len()) ==> final(self).detail == old(self).detail,
            *final(self) == (App { detail: final(self).detail, ..*old(self) }),
    {
        if let Some(d) = &mut self.detail {
            if i < d.comments.len() {
                d.comment_edit_text = d.comments[i].text.clone();
                d.comment_edit_cursor = char_count(&d.comment_edit_text);
            }
        }
    }

    /// Opens the due-date popup on the due date of the todo under the
    /// cursor (nothing happens when the list is empty).
    pub fn open_due_popup(&mut self)
        ensures
            old(self).todos@.len() == 0 ==> !final(self).due_popup == !old(self).due_popup
                && final(self).due_input@ == old(self).due_input@,
            old(self).todos@.len() > 0 ==> {
                &&& final(self).due_popup
                &&& final(self).due_input@ == (if old(self).selected_todo < old(self).todos@.len() {
                    match old(self).todos@[old(self).selected_todo as int].due_date {
                        Some(x) => x@,
                        None => Seq::empty(),
                    }
                } else {
                    Seq::empty()
                })
                &&& final(self).due_cursor == final(self).due_input@.len()
            },
            *final(self) == (App {
                due_popup: final(self).due_popup,
                due_input: final(self).due_input,
                due_cursor: final(self).due_cursor,
                ..*old(self)
            }),
            old(self).todos@.len() == 0 ==> *final(self) == *old(self),
    {
        if self.todos.len() == 0 {
            return;
        }
        let current = if self.selected_todo < self.todos.len() {
            string_or_empty(&self.todos[self.selected_todo].due_date)
        } else {
            String::new()
        };
        self.due_cursor = char_count(&current);
        self.due_input = current;
        self.due_popup = true;
    }

    /// Reads the due-date popup (see [`DueConfirm`]).
    pub fn confirm_due_date(&mut self, today: i32) -> (r: DueConfirm)
        requires
            crate::cal::day_in_range(today as int),
        ensures
            old(self).selected_todo >= old(self).todos@.len() ==> r is NoTodo,
            old(self).selected_todo < old(self).todos@.len() ==> {
                let o = crate::due_date::due_outcome(old(self).due_input@, today);
                &&& o matches crate::due_date::DueSpec::Error(m) ==> (final(self).status_message matches Some(s) && s@ == m && r is Rejected)
                &&& o is OutOfRange ==> r is OutOfRange
                &&& (o is Day || o is Clear) ==> (r matches DueConfirm::Save { todo_id, due }
                    && todo_id == old(self).todos@[old(self).selected_todo as int].id
                    && crate::models::opt_str_view(due) == stored_due(o))
            },
            !(r is Rejected) ==> final(self).status_message == old(self).status_message,
            *final(self) == (App { status_message: final(self).status_message, ..*old(self) }),
    {
        if self.selected_todo >= self.todos.len() {
            return DueConfirm::NoTodo;
        }
        let id = self.todos[self.selected_todo].id;
        match crate::due_date::parse(self.due_input.as_str(), today) {
            crate::due_date::DueParse::Error(m) => {
                self.status_message = Some(m);
                DueConfirm::Rejected
            },
            crate::due_date::DueParse::OutOfRange => DueConfirm::OutOfRange,
            crate::due_date::DueParse::Clear => DueConfirm::Save { todo_id: id, due: None },
            crate::due_date::DueParse::Date(day) => DueConfirm::Save {
                todo_id: id,
                due: Some(crate::cal::format_date(day, "%Y-%m-%d")),
            },
        }
    }

    /// Shows a stored due date on the todo under the cursor and closes the
    /// popup.
    pub fn apply_due_date(&mut self, due: Option<String>)
        ensures
            old(self).selected_todo < old(self).todos@.len() ==> updated_at(
                old(self).todos@,
                final(self).todos@,
                old(self).selected_todo as int,
                with_due(old(self).todos@[old(self).selected_todo as int], crate::models::opt_str_view(due)),
            ),
            !final(self).due_popup,
            final(self).due_input@.len() == 0,
            final(self).due_cursor == 0,
            *final(self) == (App { todos: final(self).todos, due_popup: false, due_input: final(self).due_input, due_cursor: 0, ..*old(self) }),
    {
        self.set_selected_due(due);
        self.close_due_popup();
    }

    /// Closes the due-date popup and clears its input.
    pub fn close_due_popup(&mut self)
        ensures
            final(self).due_input@.len() == 0,
            *final(self) == (App { due_popup: false, due_input: final(self).due_input, due_cursor: 0, ..*old(self) }),
    {
        self.due_popup = false;
        self.due_input = String::new();
        self.due_cursor = 0;
    }

    /// The label of the delete confirmation popup.
    pub fn delete_confirm_label(&self) -> (r: String)
        ensures
            r@ == delete_label_spec(
                self.confirm_delete,
                if self.selected_topic < self.topics@.len() {
                    Some(self.topics@[self.selected_topic as int].name@)
                } else {
                    None
                },
                if self.selected_todo < self.todos@.len() {
                    Some(self.todos@[self.selected_todo as int].text@)
                } else {
                    None
                },
            ),
    {
        match self.confirm_delete {
            Some(Focus::Topics) => {
                let mut r = owned("Delete topic \"");
                let name = if self.selected_topic < self.topics.len() {
                    chars_of(self.topics[self.selected_topic].name.as_str())
                } else {
                    chars_of("this topic")
                };
                push_chars(&mut r, &name);
                let tail = chars_of("\"?");
                push_chars(&mut r, &tail);
                r
            },
            Some(Focus::Todos) => {
                let mut r = owned("Delete \"");
                let text = if self.selected_todo < self.todos.len() {
                    chars_of(self.todos[self.selected_todo].text.as_str())
                } else {
                    chars_of("this todo")
                };
                if text.len() > 40 {
                    let head = slice_vec(&text, 0, 40);
                    push_chars(&mut r, &head);
                    push_char(&mut r, '\u{2026}');
                    assert(text@.subrange(0, 40) =~= text@.take(40));
                } else {
                    push_chars(&mut r, &text);
                }
                let tail = chars_of("\"?");
                push_chars(&mut r, &tail);
                r
            },
            None => owned("Delete?"),
        }
    }
}

/// The topics a todo can be moved to: stored topics other than its own.
pub open spec fn move_targets(topics: Seq<Topic>, current: Option<i64>) -> Seq<Topic>
    decreases topics.len(),
{
    if topics.len() == 0 {
        Seq::empty()
    } else if topics.last().id > 0 && Some(topics.last().id) != current {
        move_targets(topics.drop_last(), current).push(topics.last())
    } else {
        move_targets(topics.drop_last(), current)
    }
}

/// The topic of the todo under the cursor.
pub open spec fn selected_todo_topic(todos: Seq<Todo>, sel: usize) -> Option<i64> {
    if sel < todos.len() {
        Some(todos[sel as int].topic_id)
    } else {
        None
    }
}

/// The view of a sync status.
pub ghost struct SyncStatusView {
    pub message: Seq<char>,
    pub done: bool,
    pub error: bool,
    pub spinner_frame: usize,
    pub done_frames: u32,
}

/// The view of an optional sync status.
pub open spec fn sync_status_view(s: Option<SyncStatus>) -> Option<SyncStatusView> {
    match s {
        Some(x) => Some(
            SyncStatusView {
                message: x.message@,
                done: x.done,
                error: x.error,
                spinner_frame: x.spinner_frame,
                done_frames: x.done_frames,
            },
        ),
        None => None,
    }
}

/// A sync message, viewed.
pub ghost enum SyncMsgView {
    Status(Seq<char>),
    Done,
    Error(Seq<char>),
}

/// The views of sync messages.
pub open spec fn sync_msgs_view(m: Seq<SyncMsg>) -> Seq<SyncMsgView> {
    m.map_values(
        |x: SyncMsg|
            match x {
                SyncMsg::Status(s) => SyncMsgView::Status(s@),
                SyncMsg::Done => SyncMsgView::Done,
                SyncMsg::Error(e) => SyncMsgView::Error(e@),
            },
    )
}

/// The status after one sync message: progress replaces the message; the
/// end shows `Sync complete ✓` for about 3 s; an error shows `Sync error: `
/// and the error for about 5 s.
pub open spec fn status_after(st: Option<SyncStatusView>, m: SyncMsgView) -> Option<SyncStatusView> {
    match st {
        None => None,
        Some(x) => Some(
            match m {
                SyncMsgView::Status(t) => SyncStatusView { message: t, ..x },
                SyncMsgView::Done => SyncStatusView {
                    done: true,
                    message: "Sync complete \u{2713}"@,
                    done_frames: 30,
                    ..x
                },
                SyncMsgView::Error(e) => SyncStatusView {
                    done: true,
                    error: true,
                    message: "Sync error: "@ + e,
                    done_frames: 50,
                    ..x
                },
            },
        ),
    }
}

/// The status after a run of sync messages.
pub open spec fn status_after_all(st: Option<SyncStatusView>, ms: Seq<SyncMsgView>) -> Option<SyncStatusView>
    decreases ms.len(),
{
    if ms.len() == 0 {
        st
    } else {
        status_after(status_after_all(st, ms.drop_last()), ms.last())
    }
}

/// One tick of the status corner: the spinner turns while the sync runs;
/// a finished status counts down and disappears.
pub open spec fn status_tick(st: Option<SyncStatusView>) -> Option<SyncStatusView> {
    match st {
        None => None,
        Some(x) => if !x.done {
            Some(SyncStatusView { spinner_frame: (if x.spinner_frame == usize::MAX { 0 } else { x.spinner_frame + 1 }) as usize, ..x })
        } else if x.done_frames > 0 {
            if x.done_frames == 1 {
                None
            } else {
                Some(SyncStatusView { done_frames: (x.done_frames - 1) as u32, ..x })
            }
        } else {
            Some(x)
        },
    }
}

/// The status corner after `k` ticks.
pub open spec fn status_ticks(st: Option<SyncStatusView>, k: nat) -> Option<SyncStatusView>
    decreases k,
{
    if k == 0 {
        st
    } else {
        status_tick(status_ticks(st, (k - 1) as nat))
    }
}

proof fn lemma_countdown_steps(x: SyncStatusView, k: nat)
    requires
        x.done,
        k < x.done_frames,
    ensures
        status_ticks(Some(x), k) == Some(SyncStatusView { done_frames: (x.done_frames - k) as u32, ..x }),
    decreases k,
{
    if k > 0 {
        lemma_countdown_steps(x, (k - 1) as nat);
    }
}

/// A finished sync's status stays shown for its remaining frames, counting
/// down one per tick, and is gone after the last.
pub proof fn lemma_done_status_counts_down(x: SyncStatusView)
    requires
        x.done,
        x.done_frames > 0,
    ensures
        forall|k: nat| k < x.done_frames ==> #[trigger] status_ticks(Some(x), k) == Some(
            SyncStatusView { done_frames: (x.done_frames - k) as u32, ..x },
        ),
        status_ticks(Some(x), x.done_frames as nat) is None,
{
    assert forall|k: nat| k < x.done_frames implies #[trigger] status_ticks(Some(x), k) == Some(
        SyncStatusView { done_frames: (x.done_frames - k) as u32, ..x },
    ) by {
        lemma_countdown_steps(x, k);
    }
    lemma_countdown_steps(x, (x.done_frames - 1) as nat);
}

/// The sync ends with one of the messages.
pub open spec fn ends_sync(ms: Seq<SyncMsgView>) -> bool {
    exists|i: int| 0 <= i < ms.len() && !(ms[i] is Status)
}

/// The sync finished successfully in one of the messages.
pub open spec fn completes_sync(ms: Seq<SyncMsgView>) -> bool {
    exists|i: int| 0 <= i < ms.len() && ms[i] is Done
}

/// The stored topic nearest to position `i`, before it (`up`) or after it.
pub open spec fn reorder_neighbor(topics: Seq<Topic>, i: int, up: bool) -> Option<int> {
    if up {
        if exists|j: int| 0 <= j < i && topics[j].id > 0 {
            Some(choose|j: int| 0 <= j < i && topics[j].id > 0 && (forall|k: int| j < k < i ==> topics[k].id <= 0))
        } else {
            None
        }
    } else {
        if exists|j: int| i < j < topics.len() && topics[j].id > 0 {
            Some(choose|j: int| i < j < topics.len() && topics[j].id > 0 && (forall|k: int| i < k < j ==> topics[k].id <= 0))
        } else {
            None
        }
    }
}

/// Adding a message to a run: the sync completed or ended in the run when
/// it did before or does in that message.
proof fn lemma_sync_flags_push(pre: Seq<SyncMsgView>, m: SyncMsgView)
    ensures
        completes_sync(pre.push(m)) == (completes_sync(pre) || m is Done),
        ends_sync(pre.push(m)) == (ends_sync(pre) || !(m is Status)),
{
    let t = pre.push(m);
    if m is Done {
        assert(t[pre.len() as int] is Done);
    }
    if !(m is Status) {
        assert(!(t[pre.len() as int] is Status));
    }
    if completes_sync(pre) {
        let k = choose|k: int| 0 <= k < pre.len() && pre[k] is Done;
        assert(t[k] == pre[k]);
    }
    if ends_sync(pre) {
        let k = choose|k: int| 0 <= k < pre.len() && !(pre[k] is Status);
        assert(t[k] == pre[k]);
    }
    if completes_sync(t) && !(m is Done) {
        let k = choose|k: int| 0 <= k < t.len() && t[k] is Done;
        assert(pre[k] == t[k]);
    }
    if ends_sync(t) && m is Status {
        let k = choose|k: int| 0 <= k < t.len() && !(t[k] is Status);
        assert(pre[k] == t[k]);
    }
}

/// Applies the messages of a sync to its status and running flag, in
/// order; whether one of them reported completion.
fn take_sync_msgs(status: &mut Option<SyncStatus>, running: &mut bool, msgs: &Vec<SyncMsg>) -> (completed: bool)
    ensures
        completed == completes_sync(sync_msgs_view(msgs@)),
        *final(running) == (*old(running) && !ends_sync(sync_msgs_view(msgs@))),
        sync_status_view(*final(status)) == status_after_all(sync_status_view(*old(status)), sync_msgs_view(msgs@)),
{
    let ghost mv = sync_msgs_view(msgs@);
    let mut completed = false;
    let mut i: usize = 0;
    while i < msgs.len()
        invariant
            i <= msgs.len(),
            mv == sync_msgs_view(msgs@),
            completed == completes_sync(mv.take(i as int)),
            *running == (*old(running) && !ends_sync(mv.take(i as int))),
            sync_status_view(*status) == status_after_all(sync_status_view(*old(status)), mv.take(i as int)),
        decreases msgs.len() - i,
    {
        let ghost pre = mv.take(i as int);
        assert(mv.take(i + 1) =~= pre.push(mv[i as int]));
        assert(mv.take(i + 1).drop_last() =~= pre);
        assert(mv.take(i + 1).last() == mv[i as int]);
        proof {
            lemma_sync_flags_push(pre, mv[i as int]);
        }
        let ghost st_before = sync_status_view(*status);
        apply_sync_msg(status, &msgs[i]);
        assert(sync_status_view(*status) == status_after(st_before, mv[i as int]));
        match &msgs[i] {
            SyncMsg::Status(_) => {},
            SyncMsg::Done => {
                *running = false;
                completed = true;
            },
            SyncMsg::Error(_) => {
                *running = false;
            },
        }
        i = i + 1;
    }
    assert(mv.take(msgs.len() as int) =~= mv);
    completed
}

/// Advances the status corner by one frame: the spinner turns while the
/// sync runs; a finished status counts down and then disappears.
fn tick_sync_status(status: &mut Option<SyncStatus>)
    ensures
        sync_status_view(*final(status)) == status_tick(sync_status_view(*old(status))),
{
    let mut clear = false;
    if let Some(ss) = status {
        if !ss.done {
            ss.spinner_frame = if ss.spinner_frame == usize::MAX {
                0
            } else {
                ss.spinner_frame + 1
            };
        } else if ss.done_frames > 0 {
            ss.done_frames = ss.done_frames - 1;
            if ss.done_frames == 0 {
                clear = true;
            }
        }
    }
    if clear {
        *status = None;
    }
}

/// Applies one sync message to the status corner.
fn apply_sync_msg(st: &mut Option<SyncStatus>, m: &SyncMsg)
    ensures
        sync_status_view(*final(st)) == status_after(
            sync_status_view(*old(st)),
            match *m {
                SyncMsg::Status(s) => SyncMsgView::Status(s@),
                SyncMsg::Done => SyncMsgView::Done,
                SyncMsg::Error(e) => SyncMsgView::Error(e@),
            },
        ),
{
    if let Some(ss) = st {
        match m {
            SyncMsg::Status(t) => {
                ss.message = t.clone();
            },
            SyncMsg::Done => {
                ss.done = true;
                ss.message = owned("Sync complete \u{2713}");
                ss.done_frames = 30;
            },
            SyncMsg::Error(e) => {
                ss.done = true;
                ss.error = true;
                let mut msg = owned("Sync error: ");
                let ev = chars_of(e.as_str());
                push_chars(&mut msg, &ev);
                ss.message = msg;
                ss.done_frames = 50;
            },
        }
    }
}

impl App {
    /// The topics the todo under the cursor can be moved to.
    pub fn move_popup_topics(&self) -> (r: Vec<Topic>)
        ensures
            r@.map_values(|t: Topic| t@) == move_targets(self.topics@, selected_todo_topic(self.todos@, self.selected_todo)).map_values(|t: Topic| t@),
    {
        let current = if self.selected_todo < self.todos.len() {
            Some(self.todos[self.selected_todo].topic_id)
        } else {
            None
        };
        let ghost cur = selected_todo_topic(self.todos@, self.selected_todo);
        let mut r: Vec<Topic> = Vec::new();
        let mut i: usize = 0;
        while i < self.topics.len()
            invariant
                i <= self.topics.len(),
                current == cur,
                r@.map_values(|t: Topic| t@) == move_targets(self.topics@.take(i as int), cur).map_values(|t: Topic| t@),
            decreases self.topics.len() - i,
        {
            let ghost before = r@.map_values(|t: Topic| t@);
            assert(self.topics@.take(i + 1).drop_last() =~= self.topics@.take(i as int));
            let t = &self.topics[i];
            if t.id > 0 && Some(t.id) != current {
                let d = t.duplicate();
                r.push(d);
                assert(r@.map_values(|t: Topic| t@) =~= before.push(self.topics@[i as int]@));
                assert(move_targets(self.topics@.take(i + 1), cur).map_values(|t: Topic| t@) =~= move_targets(self.topics@.take(i as int), cur).map_values(|t: Topic| t@).push(self.topics@[i as int]@));
            }
            i = i + 1;
        }
        assert(self.topics@.take(self.topics.len() as int) =~= self.topics@);
        r
    }

    /// Opens the move popup, or says that there is nowhere to move to.
    pub fn open_move_popup(&mut self)
        ensures
            old(self).todos@.len() == 0 ==> final(self).move_popup == old(self).move_popup
                && final(self).status_message == old(self).status_message,
            old(self).todos@.len() > 0 && move_targets(old(self).topics@, selected_todo_topic(old(self).todos@, old(self).selected_todo)).len() == 0
                ==> (final(self).status_message matches Some(m) && m@ == "No other topics to move to"@)
                && final(self).move_popup == old(self).move_popup,
            old(self).todos@.len() > 0 && move_targets(old(self).topics@, selected_todo_topic(old(self).todos@, old(self).selected_todo)).len() > 0
                ==> final(self).move_popup && final(self).move_popup_selected == 0,
            *final(self) == (App {
                move_popup: final(self).move_popup,
                move_popup_selected: final(self).move_popup_selected,
                status_message: final(self).status_message,
                ..*old(self)
            }),
            old(self).todos@.len() == 0 ==> *final(self) == *old(self),
            old(self).todos@.len() > 0 && move_targets(old(self).topics@, selected_todo_topic(old(self).todos@, old(self).selected_todo)).len() == 0
                ==> final(self).move_popup_selected == old(self).move_popup_selected,
            old(self).todos@.len() > 0 && move_targets(old(self).topics@, selected_todo_topic(old(self).todos@, old(self).selected_todo)).len() > 0
                ==> final(self).status_message == old(self).status_message,
    {
        if self.todos.len() == 0 {
            return;
        }
        let targets = self.move_popup_topics();
        let ghost tv = move_targets(self.topics@, selected_todo_topic(self.todos@, self.selected_todo));
        assert(targets@.len() == tv.len()) by {
            assert(targets@.map_values(|t: Topic| t@).len() == tv.map_values(|t: Topic| t@).len());
        }
        if targets.len() == 0 {
            self.status_message = Some(owned("No other topics to move to"));
            return;
        }
        self.move_popup_selected = 0;
        self.move_popup = true;
    }

    /// Closes the move popup.
    pub fn close_move_popup(&mut self)
        ensures
            *final(self) == (App { move_popup: false, ..*old(self) }),
    {
        self.move_popup = false;
    }

    /// The todo to move and the topic chosen in the move popup.
    pub fn move_target(&self) -> (r: Option<(i64, i64)>)
        ensures
            ({
                let targets = move_targets(self.topics@, selected_todo_topic(self.todos@, self.selected_todo));
                &&& (self.move_popup_selected < targets.len() && self.selected_todo < self.todos@.len()) ==> r == Some((
                    self.todos@[self.selected_todo as int].id,
                    targets[self.move_popup_selected as int].id,
                ))
                &&& !(self.move_popup_selected < targets.len() && self.selected_todo < self.todos@.len()) ==> r is None
            }),
    {
        let targets = self.move_popup_topics();
        let ghost tv = move_targets(self.topics@, selected_todo_topic(self.todos@, self.selected_todo));
        assert(targets@.len() == tv.len()) by {
            assert(targets@.map_values(|t: Topic| t@).len() == tv.map_values(|t: Topic| t@).len());
        }
        if self.move_popup_selected >= targets.len() || self.selected_todo >= self.todos.len() {
            return None;
        }
        assert(targets@.map_values(|t: Topic| t@)[self.move_popup_selected as int] == tv.map_values(|t: Topic| t@)[self.move_popup_selected as int]);
        Some((self.todos[self.selected_todo].id, targets[self.move_popup_selected].id))
    }

    /// Opens the sync menu, unless a sync is already running.
    pub fn open_sync_popup(&mut self)
        ensures
            old(self).sync_running ==> (final(self).status_message matches Some(m) && m@ == "Sync already in progress"@)
                && final(self).sync_popup == old(self).sync_popup,
            !old(self).sync_running ==> final(self).sync_popup && final(self).sync_popup_selected == 0
                && final(self).status_message == old(self).status_message,
            old(self).sync_running ==> final(self).sync_popup_selected == old(self).sync_popup_selected,
            *final(self) == (App {
                sync_popup: final(self).sync_popup,
                sync_popup_selected: final(self).sync_popup_selected,
                status_message: final(self).status_message,
                ..*old(self)
            }),
    {
        if self.sync_running {
            self.status_message = Some(owned("Sync already in progress"));
            return;
        }
        self.sync_popup = true;
        self.sync_popup_selected = 0;
    }

    /// Closes the sync menu.
    pub fn close_sync_popup(&mut self)
        ensures
            *final(self) == (App { sync_popup: false, ..*old(self) }),
    {
        self.sync_popup = false;
    }

    /// Records that a sync of some kind has started.
    pub fn start_sync(&mut self, kind: SyncKind)
        ensures
            final(self).sync_running,
            !final(self).sync_popup,
            sync_status_view(final(self).sync_status) == Some(SyncStatusView {
                message: "Starting "@ + crate::sync::kind_label(kind) + "\u{2026}"@,
                done: false,
                error: false,
                spinner_frame: 0,
                done_frames: 0,
            }),
            *final(self) == (App {
                sync_running: true,
                sync_popup: false,
                sync_status: final(self).sync_status,
                ..*old(self)
            }),
    {
        let mut m = owned("Starting ");
        let l = chars_of(kind.label());
        push_chars(&mut m, &l);
        let e = chars_of("\u{2026}");
        push_chars(&mut m, &e);
        self.sync_running = true;
        self.sync_status = Some(SyncStatus { message: m, done: false, error: false, spinner_frame: 0, done_frames: 0 });
        self.sync_popup = false;
    }

    /// Takes in the messages a running sync sent and ticks the status
    /// corner; whether the sync completed (the topics are then to be
    /// reloaded).
    pub fn poll_sync(&mut self, msgs: Vec<SyncMsg>) -> (completed: bool)
        ensures
            completed == completes_sync(sync_msgs_view(msgs@)),
            final(self).sync_running == (old(self).sync_running && !ends_sync(sync_msgs_view(msgs@))),
            sync_status_view(final(self).sync_status) == status_tick(status_after_all(sync_status_view(old(self).sync_status), sync_msgs_view(msgs@))),
            *final(self) == (App {
                sync_running: final(self).sync_running,
                sync_status: final(self).sync_status,
                ..*old(self)
            }),
    {
        let completed = take_sync_msgs(&mut self.sync_status, &mut self.sync_running, &msgs);
        tick_sync_status(&mut self.sync_status);
        completed
    }

    /// Selects the todo with an id, when it is listed.
    pub fn select_todo_by_id(&mut self, id: i64)
        ensures
            final(self).selected_todo == match todo_position(old(self).todos@, id) {
                Some(p) => p as nat,
                None => old(self).selected_todo as nat,
            },
            final(self).todos@ == old(self).todos@,
            *final(self) == (App { selected_todo: final(self).selected_todo, ..*old(self) }),
    {
        if let Some(p) = find_todo(&self.todos, id) {
            self.selected_todo = p;
        }
    }

    /// Selects the topic with an id, when it is listed.
    pub fn select_topic_by_id(&mut self, id: i64)
        ensures
            final(self).selected_topic == match topic_position(old(self).topics@, id) {
                Some(p) => p as nat,
                None => old(self).selected_topic as nat,
            },
            final(self).topics@ == old(self).topics@,
            final(self).todos@ == old(self).todos@,
            *final(self) == (App { selected_topic: final(self).selected_topic, ..*old(self) }),
    {
        if let Some(p) = find_topic(&self.topics, id) {
            self.selected_topic = p;
        }
    }

    /// Decides what a search does before any ranking: an empty query
    /// clears the results; without an embedding model the search is
    /// unavailable and the status line says so; otherwise the search runs.
    pub fn begin_search(&mut self, has_embedder: bool) -> (r: SearchStart)
        ensures
            old(self).search_query@.len() == 0 ==> r == SearchStart::Cleared && *final(self) == (App {
                search_results: final(self).search_results,
                ..*old(self)
            }) && final(self).search_results@.len() == 0,
            old(self).search_query@.len() > 0 && !has_embedder ==> r == SearchStart::Unavailable && *final(self)
                == (App { status_message: final(self).status_message, ..*old(self) })
                && (final(self).status_message matches Some(m) && m@ == "Embedder not loaded \u{2014} search unavailable"@),
            old(self).search_query@.len() > 0 && has_embedder ==> r == SearchStart::Run && *final(self) == *old(self),
    {
        if self.search_query.as_str().is_empty() {
            self.search_results = Vec::new();
            return SearchStart::Cleared;
        }
        if !has_embedder {
            self.status_message = Some(owned("Embedder not loaded \u{2014} search unavailable"));
            return SearchStart::Unavailable;
        }
        SearchStart::Run
    }

    /// Starts a jump to the selected search result: selects its topic,
    /// focuses the todo list and returns the todo to select once the
    /// topic's todos are loaded. Nothing happens when the result's topic is
    /// not listed.
    pub fn begin_search_jump(&mut self) -> (r: Option<i64>)
        ensures
            (old(self).selected_search_result < old(self).search_results@.len()
                && topic_position(old(self).topics@, old(self).search_results@[old(self).selected_search_result as int].topic_id) is Some) ==> {
                let res = old(self).search_results@[old(self).selected_search_result as int];
                &&& r == Some(res.id)
                &&& *final(self) == (App {
                    selected_topic: topic_position(old(self).topics@, res.topic_id)->0 as usize,
                    focus: Focus::Todos,
                    mode: Mode::Normal,
                    ..*old(self)
                })
            },
            !(old(self).selected_search_result < old(self).search_results@.len()
                && topic_position(old(self).topics@, old(self).search_results@[old(self).selected_search_result as int].topic_id) is Some)
                ==> r is None && *final(self) == *old(self),
    {
        if self.selected_search_result >= self.search_results.len() {
            return None;
        }
        let todo_id = self.search_results[self.selected_search_result].id;
        let topic_id = self.search_results[self.selected_search_result].topic_id;
        match find_topic(&self.topics, topic_id) {
            Some(p) => {
                self.selected_topic = p;
                self.focus = Focus::Todos;
                self.mode = Mode::Normal;
                Some(todo_id)
            },
            None => None,
        }
    }

    /// The topic under the cursor and its stored neighbour (before it when
    /// `up`), whose places swap when reordering. Built-in views are never
    /// reordered.
    pub fn reorder_target(&self, up: bool) -> (r: Option<(i64, i64)>)
        ensures
            (self.selected_topic < self.topics@.len() && self.topics@[self.selected_topic as int].id > 0
                && reorder_neighbor(self.topics@, self.selected_topic as int, up) is Some) ==> r == Some((
                self.topics@[self.selected_topic as int].id,
                self.topics@[reorder_neighbor(self.topics@, self.selected_topic as int, up)->0].id,
            )),
            !(self.selected_topic < self.topics@.len() && self.topics@[self.selected_topic as int].id > 0
                && reorder_neighbor(self.topics@, self.selected_topic as int, up) is Some) ==> r is None,
    {
        let i = self.selected_topic;
        if i >= self.topics.len() || self.topics[i].id <= 0 {
            return None;
        }
        let ghost t = self.topics@;
        if up {
            let mut j = i;
            while j > 0 && self.topics[j - 1].id <= 0
                invariant
                    j <= i < self.topics.len(),
                    t == self.topics@,
                    forall|k: int| j <= k < i ==> t[k].id <= 0,
                decreases j,
            {
                j = j - 1;
            }
            if j == 0 {
                return None;
            }
            let n = j - 1;
            proof {
                let c = choose|x: int| 0 <= x < i && t[x].id > 0 && (forall|k: int| x < k < i ==> t[k].id <= 0);
                if c < n {
                    assert(t[n as int].id <= 0);
                } else if c > n {
                    assert(t[c].id <= 0);
                }
            }
            Some((self.topics[i].id, self.topics[n].id))
        } else {
            let mut j = i + 1;
            while j < self.topics.len() && self.topics[j].id <= 0
                invariant
                    i < j <= self.topics.len(),
                    t == self.topics@,
                    forall|k: int| i < k < j ==> t[k].id <= 0,
                decreases self.topics.len() - j,
            {
                j = j + 1;
            }
            if j == self.topics.len() {
                return None;
            }
            proof {
                let c = choose|x: int| i < x < t.len() && t[x].id > 0 && (forall|k: int| i < k < x ==> t[k].id <= 0);
                if c < j {
                    assert(t[c].id <= 0);
                } else if c > j {
                    assert(t[j as int].id <= 0);
                }
            }
            Some((self.topics[i].id, self.topics[j].id))
        }
    }
}

/// A reorder only ever swaps two stored topics: the neighbour found is a
/// stored topic on the requested side, with only built-in views between.
pub proof fn lemma_reorder_neighbor_is_stored(topics: Seq<Topic>, i: int, up: bool)
    requires
        0 <= i < topics.len(),
        reorder_neighbor(topics, i, up) is Some,
    ensures
        ({
            let j = reorder_neighbor(topics, i, up)->0;
            &&& 0 <= j < topics.len()
            &&& topics[j].id > 0
            &&& up ==> j < i && forall|k: int| j < k < i ==> topics[k].id <= 0
            &&& !up ==> i < j && forall|k: int| i < k < j ==> topics[k].id <= 0
        }),
{
    if up {
        let w = choose|j: int| 0 <= j < i && topics[j].id > 0;
        lemma_last_stored_before(topics, i, w);
    } else {
        let w = choose|j: int| i < j < topics.len() && topics[j].id > 0;
        lemma_first_stored_after(topics, i, w);
    }
}

proof fn lemma_last_stored_before(topics: Seq<Topic>, i: int, w: int)
    requires
        0 <= w < i <= topics.len(),
        topics[w].id > 0,
    ensures
        exists|j: int| 0 <= j < i && topics[j].id > 0 && (forall|k: int| j < k < i ==> topics[k].id <= 0),
    decreases i - w,
{
    if exists|k: int| w < k < i && topics[k].id > 0 {
        let k = choose|k: int| w < k < i && topics[k].id > 0;
        lemma_last_stored_before(topics, i, k);
    } else {
        assert(forall|k: int| w < k < i ==> topics[k].id <= 0);
    }
}

proof fn lemma_first_stored_after(topics: Seq<Topic>, i: int, w: int)
    requires
        0 <= i < w < topics.len(),
        topics[w].id > 0,
    ensures
        exists|j: int| i < j < topics.len() && topics[j].id > 0 && (forall|k: int| i < k < j ==> topics[k].id <= 0),
    decreases w - i,
{
    if exists|k: int| i < k < w && topics[k].id > 0 {
        let k = choose|k: int| i < k < w && topics[k].id > 0;
        lemma_first_stored_after(topics, i, k);
    } else {
        assert(forall|k: int| i < k < w ==> topics[k].id <= 0);
    }
}

/// The todos listed, with the first one holding an id changed (when there
/// is one).
pub open spec fn first_with_id_updated(old: Seq<Todo>, new: Seq<Todo>, id: i64, f: spec_fn(Todo) -> TodoView) -> bool {
    match todo_position(old, id) {
        Some(p) => updated_at(old, new, p, f(old[p])),
        None => new == old,
    }
}

/// Sets the state flags of the briefing row at a position, if there is one.
fn restate_briefing_row(items: &mut Vec<BriefingItem>, i: usize, done: bool, in_progress: bool, blocked: bool)
    ensures
        final(items)@.len() == old(items)@.len(),
        i < old(items)@.len() ==> final(items)@[i as int].todo@ == with_state(old(items)@[i as int].todo, done, in_progress, blocked),
        forall|j: int| 0 <= j < old(items)@.len() && j != i ==> final(items)@[j] == old(items)@[j],
{
    if i < items.len() {
        let it = &items[i];
        let mut t = it.todo.duplicate();
        t.done = done;
        t.in_progress = in_progress;
        t.blocked = blocked;
        let item = BriefingItem { todo: t, topic_name: it.topic_name.clone(), section: it.section };
        items.set(i, item);
    }
}

/// Sets the state flags of the first listed todo with an id, if any.
fn restate_listed_todo(todos: &mut Vec<Todo>, id: i64, done: bool, in_progress: bool, blocked: bool)
    ensures
        first_with_id_updated(old(todos)@, final(todos)@, id, |t: Todo| with_state(t, done, in_progress, blocked)),
{
    if let Some(p) = find_todo(todos, id) {
        let mut t = todos[p].duplicate();
        t.done = done;
        t.in_progress = in_progress;
        t.blocked = blocked;
        todos.set(p, t);
    }
}

/// Sets the due date of the briefing row at a position, if there is one.
fn redate_briefing_row(items: &mut Vec<BriefingItem>, i: usize, due: &String)
    ensures
        final(items)@.len() == old(items)@.len(),
        i < old(items)@.len() ==> final(items)@[i as int].todo@ == with_due(old(items)@[i as int].todo, Some(due@)),
        forall|j: int| 0 <= j < old(items)@.len() && j != i ==> final(items)@[j] == old(items)@[j],
{
    if i < items.len() {
        let it = &items[i];
        let mut t = it.todo.duplicate();
        t.due_date = Some(due.clone());
        let item = BriefingItem { todo: t, topic_name: it.topic_name.clone(), section: it.section };
        items.set(i, item);
    }
}

/// Sets the due date of the first listed todo with an id, if any.
fn redate_listed_todo(todos: &mut Vec<Todo>, id: i64, due: String)
    ensures
        first_with_id_updated(old(todos)@, final(todos)@, id, |t: Todo| with_due(t, Some(due@))),
{
    if let Some(p) = find_todo(todos, id) {
        let mut t = todos[p].duplicate();
        t.due_date = Some(due);
        todos.set(p, t);
    }
}

impl App {
    /// Opens the daily briefing on its items.
    pub fn set_briefing(&mut self, items: Vec<BriefingItem>)
        ensures
            final(self).briefing_items@ == items@,
            *final(self) == (App {
                briefing_items: final(self).briefing_items,
                selected_briefing: 0,
                briefing_open: true,
                ..*old(self)
            }),
    {
        self.briefing_items = items;
        self.selected_briefing = 0;
        self.briefing_open = true;
    }

    /// Closes the daily briefing.
    pub fn close_briefing(&mut self)
        ensures
            *final(self) == (App { briefing_open: false, ..*old(self) }),
    {
        self.briefing_open = false;
    }

    /// Moves the briefing cursor up one row, if it can.
    pub fn briefing_up(&mut self)
        ensures
            *final(self) == (App {
                selected_briefing: if old(self).selected_briefing > 0 {
                    (old(self).selected_briefing - 1) as usize
                } else {
                    0
                },
                ..*old(self)
            }),
    {
        if self.selected_briefing > 0 {
            self.selected_briefing = self.selected_briefing - 1;
        }
    }

    /// Moves the briefing cursor down one row, if it can.
    pub fn briefing_down(&mut self)
        ensures
            *final(self) == (App {
                selected_briefing: if old(self).selected_briefing + 1 < old(self).briefing_items@.len() {
                    (old(self).selected_briefing + 1) as usize
                } else {
                    old(self).selected_briefing
                },
                ..*old(self)
            }),
    {
        if self.briefing_items.len() > 0 && self.selected_briefing < self.briefing_items.len() - 1 {
            self.selected_briefing = self.selected_briefing + 1;
        }
    }

    /// The todo under the briefing cursor.
    pub fn briefing_todo(&self) -> (r: Option<&Todo>)
        ensures
            self.selected_briefing < self.briefing_items@.len() ==> r == Some(&self.briefing_items@[self.selected_briefing as int].todo),
            self.selected_briefing >= self.briefing_items@.len() ==> r is None,
    {
        if self.selected_briefing < self.briefing_items.len() {
            Some(&self.briefing_items[self.selected_briefing].todo)
        } else {
            None
        }
    }

    /// Shows new state flags on the briefing row under the cursor and on
    /// the listed todo with the same id.
    pub fn briefing_apply_state(&mut self, id: i64, done: bool, in_progress: bool, blocked: bool)
        ensures
            final(self).briefing_items@.len() == old(self).briefing_items@.len(),
            old(self).selected_briefing < old(self).briefing_items@.len() ==>
                final(self).briefing_items@[old(self).selected_briefing as int].todo@ == with_state(
                    old(self).briefing_items@[old(self).selected_briefing as int].todo, done, in_progress, blocked),
            forall|j: int| 0 <= j < old(self).briefing_items@.len() && j != old(self).selected_briefing
                ==> final(self).briefing_items@[j] == old(self).briefing_items@[j],
            first_with_id_updated(old(self).todos@, final(self).todos@, id, |t: Todo| with_state(t, done, in_progress, blocked)),
            *final(self) == (App {
                briefing_items: final(self).briefing_items,
                todos: final(self).todos,
                ..*old(self)
            }),
    {
        let i = self.selected_briefing;
        restate_briefing_row(&mut self.briefing_items, i, done, in_progress, blocked);
        restate_listed_todo(&mut self.todos, id, done, in_progress, blocked);
    }

    /// Shows a new due date on the briefing row under the cursor and on the
    /// listed todo with the same id.
    pub fn briefing_apply_due(&mut self, id: i64, due: String)
        ensures
            final(self).briefing_items@.len() == old(self).briefing_items@.len(),
            old(self).selected_briefing < old(self).briefing_items@.len() ==>
                final(self).briefing_items@[old(self).selected_briefing as int].todo@ == with_due(
                    old(self).briefing_items@[old(self).selected_briefing as int].todo, Some(due@)),
            forall|j: int| 0 <= j < old(self).briefing_items@.len() && j != old(self).selected_briefing
                ==> final(self).briefing_items@[j] == old(self).briefing_items@[j],
            first_with_id_updated(old(self).todos@, final(self).todos@, id, |t: Todo| with_due(t, Some(due@))),
            *final(self) == (App {
                briefing_items: final(self).briefing_items,
                todos: final(self).todos,
                ..*old(self)
            }),
    {
        let i = self.selected_briefing;
        redate_briefing_row(&mut self.briefing_items, i, &due);
        redate_listed_todo(&mut self.todos, id, due);
    }

    /// Starts a jump to the todo under the briefing cursor: closes the
    /// briefing, selects the todo's topic when it is listed and focuses the
    /// todo list; returns the todo to select once the topic's todos are
    /// loaded. Without a row under the cursor it only closes the briefing.
    pub fn begin_briefing_jump(&mut self) -> (r: Option<i64>)
        ensures
            old(self).selected_briefing >= old(self).briefing_items@.len() ==> r is None
                && *final(self) == (App { briefing_open: false, ..*old(self) }),
            old(self).selected_briefing < old(self).briefing_items@.len() ==> {
                let t = old(self).briefing_items@[old(self).selected_briefing as int].todo;
                &&& topic_position(old(self).topics@, t.topic_id) matches Some(p) ==> r == Some(t.id)
                    && *final(self) == (App {
                        briefing_open: false,
                        focus: Focus::Todos,
                        selected_topic: p as usize,
                        ..*old(self)
                    })
                &&& topic_position(old(self).topics@, t.topic_id) is None ==> r is None
                    && *final(self) == (App { briefing_open: false, focus: Focus::Todos, ..*old(self) })
            },
    {
        self.briefing_open = false;
        if self.selected_briefing >= self.briefing_items.len() {
            return None;
        }
        let topic_id = self.briefing_items[self.selected_briefing].todo.topic_id;
        let todo_id = self.briefing_items[self.selected_briefing].todo.id;
        self.focus = Focus::Todos;
        match find_topic(&self.topics, topic_id) {
            Some(p) => {
                self.selected_topic = p;
                Some(todo_id)
            },
            None => None,
        }
    }
}

} // verus!
