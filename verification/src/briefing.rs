//! The daily briefing: ranking todos and laying them out in sections.
use vstd::prelude::*;
use crate::app::{BriefingItem, BriefingSection};
use crate::cal::{day_in_range, parse_date};
use crate::lifecycle::stored_due_day;
use crate::models::{Todo, TodoView};
use crate::order::todo_views;

verus! {

/// Urgency of a due date `diff` days from today: overdue dates score 10
/// plus a day per day late (at most 15 more), today 10, tomorrow 7, within
/// three days 5, within six 3, within thirteen 1, later 0.
pub open spec fn urgency(diff: int) -> int {
    if diff <= -1 {
        10 + if -diff < 15 {
            -diff
        } else {
            15
        }
    } else if diff == 0 {
        10
    } else if diff == 1 {
        7
    } else if diff <= 3 {
        5
    } else if diff <= 6 {
        3
    } else if diff <= 13 {
        1
    } else {
        0
    }
}

/// Weight of a priority: high 8, medium 4, low 1.
pub open spec fn priority_weight(p: Option<u8>) -> int {
    match p {
        Some(1u8) => 8,
        Some(2u8) => 4,
        Some(3u8) => 1,
        _ => 0,
    }
}

/// The ranking score of a todo in the briefing: urgency of its due date,
/// weight of its priority, and 5 when it is in progress.
pub open spec fn briefing_score_spec(t: TodoView, today: i32) -> int {
    (match stored_due_day(t.due_date) {
        Some(d) => urgency(d - today),
        None => 0,
    }) + priority_weight(t.priority) + if t.in_progress {
        5int
    } else {
        0int
    }
}

/// Computes the briefing score of a todo.
pub fn briefing_score(todo: &Todo, today: i32) -> (r: u32)
    requires
        day_in_range(today as int),
    ensures
        r == briefing_score_spec(todo@, today),
{
    let due = match &todo.due_date {
        Some(s) => parse_date(s.as_str(), "%Y-%m-%d"),
        None => None,
    };
    let urgency: u32 = match due {
        Some(d) => {
            let diff: i64 = (d as i64) - (today as i64);
            if diff <= -1 {
                if -diff < 15 {
                    10 + ((-diff) as u32)
                } else {
                    25
                }
            } else if diff == 0 {
                10
            } else if diff == 1 {
                7
            } else if diff <= 3 {
                5
            } else if diff <= 6 {
                3
            } else if diff <= 13 {
                1
            } else {
                0
            }
        },
        None => 0,
    };
    let weight: u32 = match todo.priority {
        Some(1) => 8,
        Some(2) => 4,
        Some(3) => 1,
        _ => 0,
    };
    urgency + weight + if todo.in_progress {
        5
    } else {
        0
    }
}

/// The todo is a must-do: high priority, or overdue (due before today).
pub open spec fn is_must_do(t: TodoView, today: i32) -> bool {
    t.priority == Some(1u8) || (stored_due_day(t.due_date) is Some && stored_due_day(
        t.due_date,
    )->0 < today)
}

/// The briefing section of an unfinished todo: blocked todos wait; the
/// others are must-dos, in flight (in progress) or candidates for
/// recommendation.
pub open spec fn section_of(t: TodoView, today: i32) -> BriefingSection {
    if t.blocked {
        BriefingSection::Waiting
    } else if is_must_do(t, today) {
        BriefingSection::MustDo
    } else if t.in_progress {
        BriefingSection::InFlight
    } else {
        BriefingSection::Recommended
    }
}

/// Blocked todos wait; any other todo of high priority, or due before
/// today, is a must-do whether or not work on it has started; only the
/// remaining todos in progress are in flight; all else is a candidate.
pub proof fn lemma_section_rules(t: TodoView, today: i32)
    ensures
        t.blocked ==> section_of(t, today) == BriefingSection::Waiting,
        !t.blocked && (t.priority == Some(1u8) || (stored_due_day(t.due_date) is Some && stored_due_day(
            t.due_date,
        )->0 < today)) ==> section_of(t, today) == BriefingSection::MustDo,
        section_of(t, today) == BriefingSection::MustDo ==> !t.blocked && (t.priority == Some(1u8) || (
        stored_due_day(t.due_date) is Some && stored_due_day(t.due_date)->0 < today)),
        section_of(t, today) == BriefingSection::InFlight <==> (!t.blocked && t.in_progress && t.priority
            != Some(1u8) && !(stored_due_day(t.due_date) is Some && stored_due_day(t.due_date)->0 < today)),
{
}

/// Computes the section of a todo.
pub fn section(todo: &Todo, today: i32) -> (r: BriefingSection)
    requires
        day_in_range(today as int),
    ensures
        r == section_of(todo@, today),
{
    if todo.blocked {
        return BriefingSection::Waiting;
    }
    let due = match &todo.due_date {
        Some(s) => parse_date(s.as_str(), "%Y-%m-%d"),
        None => None,
    };
    let overdue = match due {
        Some(d) => d < today,
        None => false,
    };
    if todo.priority == Some(1u8) || overdue {
        BriefingSection::MustDo
    } else if todo.in_progress {
        BriefingSection::InFlight
    } else {
        BriefingSection::Recommended
    }
}

/// Todo `i` ranks before todo `j`: a higher score, or an equal score and
/// an earlier position.
pub open spec fn ranks_before(s: Seq<TodoView>, today: i32, i: int, j: int) -> bool {
    briefing_score_spec(s[i], today) > briefing_score_spec(s[j], today) || (
    briefing_score_spec(s[i], today) == briefing_score_spec(s[j], today) && i < j)
}

/// `out` lists the best-ranked todos of a section, at most `limit` of
/// them, best first: every entry is a todo of the section, in rank order;
/// a todo of the section left out ranks after every entry; and when fewer
/// than `limit` are listed, none is left out.
pub open spec fn top_of_section(
    s: Seq<TodoView>,
    today: i32,
    sec: BriefingSection,
    limit: nat,
    out: Seq<usize>,
) -> bool {
    &&& out.len() <= limit
    &&& forall|k: int| 0 <= k < out.len() ==> out[k] < s.len() && section_of(s[out[k] as int], today) == sec
    &&& forall|a: int, b: int|
        0 <= a < b < out.len() ==> ranks_before(s, today, #[trigger] out[a] as int, #[trigger] out[b] as int)
    &&& forall|i: int|
        0 <= i < s.len() && section_of(s[i], today) == sec && !out.contains(i as usize) ==> {
            &&& out.len() == limit
            &&& forall|k: int| 0 <= k < out.len() ==> ranks_before(s, today, #[trigger] out[k] as int, i)
        }
}

fn top_ranked(
    todos: &Vec<Todo>,
    scores: &Vec<u32>,
    sections: &Vec<BriefingSection>,
    today: i32,
    sec: BriefingSection,
    limit: usize,
) -> (out: Vec<usize>)
    requires
        scores.len() == todos.len(),
        sections.len() == todos.len(),
        forall|i: int| 0 <= i < todos.len() ==> scores@[i] == briefing_score_spec(#[trigger] todos@[i]@, today),
        forall|i: int| 0 <= i < todos.len() ==> sections@[i] == section_of(#[trigger] todos@[i]@, today),
    ensures
        top_of_section(todo_views(todos@), today, sec, limit as nat, out@),
{
    let ghost s = todo_views(todos@);
    let mut out: Vec<usize> = Vec::new();
    let mut i: usize = 0;
    while i < todos.len()
        invariant
            i <= todos.len(),
            s == todo_views(todos@),
            scores.len() == todos.len(),
            sections.len() == todos.len(),
            forall|j: int| 0 <= j < todos.len() ==> scores@[j] == briefing_score_spec(#[trigger] todos@[j]@, today),
            forall|j: int| 0 <= j < todos.len() ==> sections@[j] == section_of(#[trigger] todos@[j]@, today),
            forall|k: int| 0 <= k < out.len() ==> out@[k] < i && section_of(s[out@[k] as int], today) == sec,
            forall|a: int, b: int|
                0 <= a < b < out.len() ==> ranks_before(s, today, #[trigger] out@[a] as int, #[trigger] out@[b] as int),
            forall|j: int| 0 <= j < i && section_of(s[j], today) == sec ==> out@.contains(j as usize),
        decreases todos.len() - i,
    {
        if sections[i] == sec {
            let mut p: usize = 0;
            while p < out.len() && scores[out[p]] >= scores[i]
                invariant
                    p <= out.len(),
                    i < todos.len(),
                    s == todo_views(todos@),
                    scores.len() == todos.len(),
                    forall|j: int| 0 <= j < todos.len() ==> scores@[j] == briefing_score_spec(#[trigger] todos@[j]@, today),
                    forall|k: int| 0 <= k < out.len() ==> out@[k] < i,
                    forall|k: int| 0 <= k < p ==> ranks_before(s, today, #[trigger] out@[k] as int, i as int),
                decreases out.len() - p,
            {
                assert(s[out@[p as int] as int] == todos@[out@[p as int] as int]@);
                assert(s[i as int] == todos@[i as int]@);
                p = p + 1;
            }
            proof {
                if p < out.len() {
                    assert(s[out@[p as int] as int] == todos@[out@[p as int] as int]@);
                    assert(s[i as int] == todos@[i as int]@);
                    assert(ranks_before(s, today, i as int, out@[p as int] as int));
                    assert forall|k: int| p <= k < out.len() implies ranks_before(s, today, i as int, #[trigger] out@[k] as int) by {
                        if k > p {
                            assert(ranks_before(s, today, out@[p as int] as int, out@[k] as int));
                        }
                    }
                }
            }
            let ghost old_out = out@;
            out.insert(p, i);
            assert(out@ =~= old_out.insert(p as int, i));
            proof {
                assert(s[i as int] == todos@[i as int]@);
                assert forall|a: int, b: int| 0 <= a < b < out.len() implies ranks_before(s, today, #[trigger] out@[a] as int, #[trigger] out@[b] as int) by {
                    if a < p && b == p {
                    } else if a < p && b > p {
                        assert(out@[b] == old_out[b - 1]);
                    } else if a == p {
                        assert(out@[b] == old_out[b - 1]);
                    } else if a > p {
                        assert(out@[a] == old_out[a - 1] && out@[b] == old_out[b - 1]);
                    }
                }
                assert forall|j: int| 0 <= j < i + 1 && section_of(s[j], today) == sec implies out@.contains(j as usize) by {
                    if j < i {
                        let k = choose|k: int| 0 <= k < old_out.len() && old_out[k] == j as usize;
                        if k < p {
                            assert(out@[k] == j as usize);
                        } else {
                            assert(out@[k + 1] == j as usize);
                        }
                    } else {
                        assert(out@[p as int] == i);
                    }
                }
            }
        } else {
            proof {
                assert(s[i as int] == todos@[i as int]@);
            }
        }
        i = i + 1;
    }
    let ghost full = out@;
    if out.len() > limit {
        out.truncate(limit);
    }
    proof {
        assert forall|j: int| 0 <= j < s.len() && section_of(s[j], today) == sec && !out@.contains(j as usize) implies {
            &&& out@.len() == limit
            &&& forall|k: int| 0 <= k < out@.len() ==> ranks_before(s, today, #[trigger] out@[k] as int, j)
        } by {
            let m = choose|m: int| 0 <= m < full.len() && full[m] == j as usize;
            if m < out@.len() {
                assert(out@[m] == j as usize);
            }
            assert forall|k: int| 0 <= k < out@.len() implies ranks_before(s, today, #[trigger] out@[k] as int, j) by {
                assert(out@[k] == full[k]);
            }
        }
    }
    out
}

/// `out` lists every todo of a section, in their order.
pub open spec fn all_of_section(s: Seq<TodoView>, today: i32, sec: BriefingSection, out: Seq<usize>) -> bool {
    &&& forall|k: int| 0 <= k < out.len() ==> out[k] < s.len() && section_of(s[out[k] as int], today) == sec
    &&& forall|a: int, b: int| 0 <= a < b < out.len() ==> #[trigger] out[a] < #[trigger] out[b]
    &&& forall|i: int| 0 <= i < s.len() && section_of(s[i], today) == sec ==> out.contains(i as usize)
}

/// The sections of the daily briefing, as positions into the list of
/// unfinished todos: up to four must-dos, the todos in flight, and up to
/// twenty candidates for recommendation, each best-ranked first; and the
/// waiting (blocked) todos in their order.
pub struct BriefingPlan {
    pub must_do: Vec<usize>,
    pub in_flight: Vec<usize>,
    pub candidates: Vec<usize>,
    pub waiting: Vec<usize>,
}

/// Sorts unfinished todos into the sections of the daily briefing.
pub fn plan_briefing(todos: &Vec<Todo>, today: i32) -> (r: BriefingPlan)
    requires
        day_in_range(today as int),
    ensures
        top_of_section(todo_views(todos@), today, BriefingSection::MustDo, 4, r.must_do@),
        top_of_section(todo_views(todos@), today, BriefingSection::InFlight, todos.len() as nat, r.in_flight@),
        top_of_section(todo_views(todos@), today, BriefingSection::Recommended, 20, r.candidates@),
        all_of_section(todo_views(todos@), today, BriefingSection::Waiting, r.waiting@),
{
    let ghost s = todo_views(todos@);
    let mut scores: Vec<u32> = Vec::new();
    let mut sections: Vec<BriefingSection> = Vec::new();
    let mut waiting: Vec<usize> = Vec::new();
    let mut i: usize = 0;
    while i < todos.len()
        invariant
            i <= todos.len(),
            s == todo_views(todos@),
            day_in_range(today as int),
            scores.len() == i,
            sections.len() == i,
            forall|j: int| 0 <= j < i ==> scores@[j] == briefing_score_spec(#[trigger] todos@[j]@, today),
            forall|j: int| 0 <= j < i ==> sections@[j] == section_of(#[trigger] todos@[j]@, today),
            forall|k: int| 0 <= k < waiting.len() ==> waiting@[k] < i && section_of(s[waiting@[k] as int], today) == BriefingSection::Waiting,
            forall|a: int, b: int| 0 <= a < b < waiting.len() ==> #[trigger] waiting@[a] < #[trigger] waiting@[b],
            forall|j: int| 0 <= j < i && section_of(s[j], today) == BriefingSection::Waiting ==> waiting@.contains(j as usize),
        decreases todos.len() - i,
    {
        let sc = briefing_score(&todos[i], today);
        let sec = section(&todos[i], today);
        scores.push(sc);
        sections.push(sec);
        assert(s[i as int] == todos@[i as int]@);
        if sec == BriefingSection::Waiting {
            let ghost old_w = waiting@;
            waiting.push(i);
            assert forall|j: int| 0 <= j < i + 1 && section_of(s[j], today) == BriefingSection::Waiting implies waiting@.contains(j as usize) by {
                if j < i {
                    let k = choose|k: int| 0 <= k < old_w.len() && old_w[k] == j as usize;
                    assert(waiting@[k] == j as usize);
                } else {
                    assert(waiting@[old_w.len() as int] == i);
                }
            }
        }
        i = i + 1;
    }
    let must_do = top_ranked(todos, &scores, &sections, today, BriefingSection::MustDo, 4);
    let in_flight = top_ranked(todos, &scores, &sections, today, BriefingSection::InFlight, todos.len());
    let candidates = top_ranked(todos, &scores, &sections, today, BriefingSection::Recommended, 20);
    BriefingPlan { must_do, in_flight, candidates, waiting }
}

// ---------------------------------------------------------------------
// Layout of the briefing overlay
// ---------------------------------------------------------------------

/// Rows the briefing takes for items in these sections: each run of one
/// section gets a header row, runs are separated by a blank row, and each
/// item takes a row.
pub open spec fn layout_rows(s: Seq<BriefingSection>) -> nat
    decreases s.len(),
{
    if s.len() == 0 {
        0
    } else if s.len() == 1 {
        2
    } else if s[s.len() - 1] != s[s.len() - 2] {
        layout_rows(s.drop_last()) + 3
    } else {
        layout_rows(s.drop_last()) + 1
    }
}

/// The row of item `sel` (or the row after the last item when `sel` is past
/// the end).
pub open spec fn selected_row(s: Seq<BriefingSection>, sel: int) -> nat {
    if 0 <= sel < s.len() {
        (layout_rows(s.take(sel + 1)) - 1) as nat
    } else {
        layout_rows(s)
    }
}

proof fn lemma_layout_rows_positive(s: Seq<BriefingSection>)
    ensures
        s.len() > 0 ==> layout_rows(s) >= 2,
        layout_rows(s) <= 3 * s.len(),
    decreases s.len(),
{
    if s.len() > 1 {
        lemma_layout_rows_positive(s.drop_last());
    }
}

/// The number of rows the briefing items take.
pub fn count_content_rows(sections: &Vec<BriefingSection>) -> (r: usize)
    requires
        sections.len() < usize::MAX / 3,
    ensures
        r == layout_rows(sections@),
{
    let mut count: usize = 0;
    let mut i: usize = 0;
    while i < sections.len()
        invariant
            i <= sections.len(),
            sections.len() < usize::MAX / 3,
            count == layout_rows(sections@.take(i as int)),
        decreases sections.len() - i,
    {
        let ghost t = sections@.take(i + 1);
        assert(t.drop_last() =~= sections@.take(i as int));
        proof {
            lemma_layout_rows_positive(t);
        }
        if i == 0 {
            count = 2;
        } else if sections[i] != sections[i - 1] {
            count = count + 3;
        } else {
            count = count + 1;
        }
        i = i + 1;
    }
    assert(sections@.take(sections.len() as int) =~= sections@);
    count
}

/// The row of the selected item.
pub fn find_selected_line(sections: &Vec<BriefingSection>, selected: usize) -> (r: usize)
    requires
        sections.len() < usize::MAX / 3,
    ensures
        r == selected_row(sections@, selected as int),
{
    if selected < sections.len() {
        let mut prefix: Vec<BriefingSection> = Vec::new();
        let mut i: usize = 0;
        while i <= selected
            invariant
                i <= selected + 1,
                selected < sections.len(),
                prefix@ == sections@.take(i as int),
            decreases selected + 1 - i,
        {
            prefix.push(sections[i]);
            assert(sections@.take(i + 1) =~= sections@.take(i as int).push(sections@[i as int]));
            i = i + 1;
        }
        let rows = count_content_rows(&prefix);
        proof {
            lemma_layout_rows_positive(prefix@);
        }
        rows - 1
    } else {
        count_content_rows(sections)
    }
}

/// The first visible row so that the selected row is shown: none scrolled
/// while it fits, else centred.
pub fn compute_scroll(selected_line: usize, visible_h: usize) -> (r: usize)
    ensures
        selected_line < visible_h ==> r == 0,
        selected_line >= visible_h ==> r == selected_line - visible_h / 2,
        selected_line >= visible_h && visible_h > 0 ==> r <= selected_line < r + visible_h,
{
    if selected_line < visible_h {
        return 0;
    }
    selected_line - visible_h / 2
}


/// The positions of a section's todos, each paired with the section.
pub open spec fn tagged(ps: Seq<usize>, sec: BriefingSection) -> Seq<(usize, BriefingSection)> {
    ps.map_values(|p: usize| (p, sec))
}

/// The order of the briefing: the must-dos, the todos in flight, the
/// recommended ones, then the waiting ones, each with its section.
pub open spec fn briefing_order(
    must_do: Seq<usize>,
    in_flight: Seq<usize>,
    recommended: Seq<usize>,
    waiting: Seq<usize>,
) -> Seq<(usize, BriefingSection)> {
    tagged(must_do, BriefingSection::MustDo) + tagged(in_flight, BriefingSection::InFlight) + tagged(
        recommended,
        BriefingSection::Recommended,
    ) + tagged(waiting, BriefingSection::Waiting)
}

/// The items are the todos (with their topics' names) in an order of
/// positions, each in its section.
pub open spec fn items_in_order(
    items: Seq<BriefingItem>,
    todos: Seq<Todo>,
    names: Seq<String>,
    order: Seq<(usize, BriefingSection)>,
) -> bool {
    &&& items.len() == order.len()
    &&& forall|k: int|
        0 <= k < order.len() ==> {
            &&& (#[trigger] items[k]).todo@ == todos[order[k].0 as int]@
            &&& items[k].topic_name@ == names[order[k].0 as int]@
            &&& items[k].section == order[k].1
        }
}

fn push_items(
    items: &mut Vec<BriefingItem>,
    todos: &Vec<Todo>,
    names: &Vec<String>,
    ps: &Vec<usize>,
    sec: BriefingSection,
    Ghost(order): Ghost<Seq<(usize, BriefingSection)>>,
)
    requires
        names.len() == todos.len(),
        forall|k: int| 0 <= k < ps.len() ==> ps@[k] < todos.len(),
        items_in_order(old(items)@, todos@, names@, order),
    ensures
        items_in_order(final(items)@, todos@, names@, order + tagged(ps@, sec)),
{
    let mut i: usize = 0;
    while i < ps.len()
        invariant
            i <= ps.len(),
            names.len() == todos.len(),
            forall|k: int| 0 <= k < ps.len() ==> ps@[k] < todos.len(),
            items_in_order(items@, todos@, names@, order + tagged(ps@.take(i as int), sec)),
        decreases ps.len() - i,
    {
        let p = ps[i];
        let item = BriefingItem { todo: todos[p].duplicate(), topic_name: names[p].clone(), section: sec };
        items.push(item);
        assert(order + tagged(ps@.take(i + 1), sec) =~= (order + tagged(ps@.take(i as int), sec)).push((p, sec)));
        i = i + 1;
    }
    assert(ps@.take(ps.len() as int) =~= ps@);
}

/// The items of the daily briefing: the todos at the positions of each
/// section, with their topics' names, sections in the order must do, in
/// flight, recommended, waiting.
pub fn briefing_items(
    todos: &Vec<Todo>,
    names: &Vec<String>,
    must_do: &Vec<usize>,
    in_flight: &Vec<usize>,
    recommended: &Vec<usize>,
    waiting: &Vec<usize>,
) -> (r: Vec<BriefingItem>)
    requires
        names.len() == todos.len(),
        forall|k: int| 0 <= k < must_do.len() ==> must_do@[k] < todos.len(),
        forall|k: int| 0 <= k < in_flight.len() ==> in_flight@[k] < todos.len(),
        forall|k: int| 0 <= k < recommended.len() ==> recommended@[k] < todos.len(),
        forall|k: int| 0 <= k < waiting.len() ==> waiting@[k] < todos.len(),
    ensures
        items_in_order(r@, todos@, names@, briefing_order(must_do@, in_flight@, recommended@, waiting@)),
{
    let mut items: Vec<BriefingItem> = Vec::new();
    let ghost e: Seq<(usize, BriefingSection)> = Seq::empty();
    push_items(&mut items, todos, names, must_do, BriefingSection::MustDo, Ghost(e));
    push_items(&mut items, todos, names, in_flight, BriefingSection::InFlight, Ghost(e + tagged(must_do@, BriefingSection::MustDo)));
    push_items(
        &mut items,
        todos,
        names,
        recommended,
        BriefingSection::Recommended,
        Ghost(e + tagged(must_do@, BriefingSection::MustDo) + tagged(in_flight@, BriefingSection::InFlight)),
    );
    push_items(
        &mut items,
        todos,
        names,
        waiting,
        BriefingSection::Waiting,
        Ghost(e + tagged(must_do@, BriefingSection::MustDo) + tagged(in_flight@, BriefingSection::InFlight) + tagged(
            recommended@,
            BriefingSection::Recommended,
        )),
    );
    assert(e + tagged(must_do@, BriefingSection::MustDo) + tagged(in_flight@, BriefingSection::InFlight) + tagged(
        recommended@,
        BriefingSection::Recommended,
    ) + tagged(waiting@, BriefingSection::Waiting) =~= briefing_order(must_do@, in_flight@, recommended@, waiting@));
    items
}


/// Every entry names a todo of the list that is in the entry's section,
/// and no todo is named twice.
pub open spec fn order_ok(s: Seq<TodoView>, today: i32, o: Seq<(usize, BriefingSection)>) -> bool {
    &&& forall|k: int| 0 <= k < o.len() ==> (#[trigger] o[k]).0 < s.len() && section_of(s[o[k].0 as int], today) == o[k].1
    &&& forall|a: int, b: int| 0 <= a < b < o.len() ==> (#[trigger] o[a]).0 != (#[trigger] o[b]).0
}

proof fn lemma_tagged_ok(s: Seq<TodoView>, today: i32, ps: Seq<usize>, sec: BriefingSection)
    requires
        forall|k: int| 0 <= k < ps.len() ==> ps[k] < s.len() && section_of(s[ps[k] as int], today) == sec,
        forall|a: int, b: int| 0 <= a < b < ps.len() ==> ps[a] != ps[b],
    ensures
        order_ok(s, today, tagged(ps, sec)),
{
    let t = tagged(ps, sec);
    assert forall|a: int, b: int| 0 <= a < b < t.len() implies (#[trigger] t[a]).0 != (#[trigger] t[b]).0 by {
        assert(t[a].0 == ps[a] && t[b].0 == ps[b]);
    }
}

proof fn lemma_order_concat(s: Seq<TodoView>, today: i32, x: Seq<(usize, BriefingSection)>, y: Seq<(usize, BriefingSection)>)
    requires
        order_ok(s, today, x),
        order_ok(s, today, y),
        forall|a: int, b: int| 0 <= a < x.len() && 0 <= b < y.len() ==> (#[trigger] x[a]).1 != (#[trigger] y[b]).1,
    ensures
        order_ok(s, today, x + y),
{
    let z = x + y;
    assert forall|k: int| 0 <= k < z.len() implies (#[trigger] z[k]).0 < s.len() && section_of(s[z[k].0 as int], today) == z[k].1 by {
        if k < x.len() {
            assert(z[k] == x[k]);
        } else {
            assert(z[k] == y[k - x.len()]);
        }
    }
    assert forall|a: int, b: int| 0 <= a < b < z.len() implies (#[trigger] z[a]).0 != (#[trigger] z[b]).0 by {
        if b < x.len() {
            assert(z[a] == x[a] && z[b] == x[b]);
        } else if a >= x.len() {
            assert(z[a] == y[a - x.len()] && z[b] == y[b - x.len()]);
        } else {
            assert(z[a] == x[a] && z[b] == y[b - x.len()]);
            assert(x[a].1 != y[b - x.len()].1);
        }
    }
}

/// The daily briefing names no todo twice, and each of its todos stands in
/// its own section: for the sections of a plan (see [`plan_briefing`]) and
/// recommended todos picked, each once, among its candidates.
pub proof fn lemma_briefing_order_ok(
    s: Seq<TodoView>,
    today: i32,
    must_do: Seq<usize>,
    in_flight: Seq<usize>,
    candidates: Seq<usize>,
    recommended: Seq<usize>,
    waiting: Seq<usize>,
)
    requires
        top_of_section(s, today, BriefingSection::MustDo, 4, must_do),
        top_of_section(s, today, BriefingSection::InFlight, s.len(), in_flight),
        top_of_section(s, today, BriefingSection::Recommended, 20, candidates),
        all_of_section(s, today, BriefingSection::Waiting, waiting),
        forall|k: int| 0 <= k < recommended.len() ==> candidates.contains(#[trigger] recommended[k]),
        forall|a: int, b: int| 0 <= a < b < recommended.len() ==> recommended[a] != recommended[b],
    ensures
        order_ok(s, today, briefing_order(must_do, in_flight, recommended, waiting)),
{
    assert forall|a: int, b: int| 0 <= a < b < must_do.len() implies must_do[a] != must_do[b] by {
        assert(ranks_before(s, today, must_do[a] as int, must_do[b] as int));
    }
    assert forall|a: int, b: int| 0 <= a < b < in_flight.len() implies in_flight[a] != in_flight[b] by {
        assert(ranks_before(s, today, in_flight[a] as int, in_flight[b] as int));
    }
    assert forall|k: int| 0 <= k < recommended.len() implies recommended[k] < s.len() && section_of(
        s[recommended[k] as int],
        today,
    ) == BriefingSection::Recommended by {
        assert(candidates.contains(recommended[k]));
        let j = choose|j: int| 0 <= j < candidates.len() && candidates[j] == recommended[k];
        assert(candidates[j] < s.len());
    }
    assert forall|a: int, b: int| 0 <= a < b < waiting.len() implies waiting[a] != waiting[b] by {
        assert(waiting[a] < waiting[b]);
    }
    lemma_tagged_ok(s, today, must_do, BriefingSection::MustDo);
    lemma_tagged_ok(s, today, in_flight, BriefingSection::InFlight);
    lemma_tagged_ok(s, today, recommended, BriefingSection::Recommended);
    lemma_tagged_ok(s, today, waiting, BriefingSection::Waiting);
    let t1 = tagged(must_do, BriefingSection::MustDo);
    let t2 = tagged(in_flight, BriefingSection::InFlight);
    let t3 = tagged(recommended, BriefingSection::Recommended);
    let t4 = tagged(waiting, BriefingSection::Waiting);
    lemma_order_concat(s, today, t1, t2);
    assert forall|a: int, b: int| 0 <= a < (t1 + t2).len() && 0 <= b < t3.len() implies (#[trigger] (t1 + t2)[a]).1 != (#[trigger] t3[b]).1 by {
        if a < t1.len() {
            assert((t1 + t2)[a] == t1[a]);
        } else {
            assert((t1 + t2)[a] == t2[a - t1.len()]);
        }
    }
    lemma_order_concat(s, today, t1 + t2, t3);
    assert forall|a: int, b: int| 0 <= a < (t1 + t2 + t3).len() && 0 <= b < t4.len() implies (#[trigger] (t1 + t2 + t3)[a]).1 != (#[trigger] t4[b]).1 by {
        if a < t1.len() {
            assert((t1 + t2 + t3)[a] == t1[a]);
        } else if a < t1.len() + t2.len() {
            assert((t1 + t2 + t3)[a] == t2[a - t1.len()]);
        } else {
            assert((t1 + t2 + t3)[a] == t3[a - t1.len() - t2.len()]);
        }
    }
    lemma_order_concat(s, today, t1 + t2 + t3, t4);
}

} // verus!
