//! Orderings of todos and the stable sort behind the todo list.
use vstd::prelude::*;
use crate::models::{Todo, TodoView};
use crate::text::chars_of;

verus! {

// ---------------------------------------------------------------------
// Lexicographic order of strings
// ---------------------------------------------------------------------

/// `a` comes strictly before `b` in lexicographic order of code points,
/// which is the order `Ord` gives `str` (UTF-8 preserves it).
pub open spec fn str_lt(a: Seq<char>, b: Seq<char>) -> bool
    decreases a.len(),
{
    if a.len() == 0 {
        b.len() > 0
    } else if b.len() == 0 {
        false
    } else if a[0] != b[0] {
        (a[0] as int) < (b[0] as int)
    } else {
        str_lt(a.drop_first(), b.drop_first())
    }
}

/// No string comes before itself.
pub proof fn lemma_str_lt_irreflexive(a: Seq<char>)
    ensures
        !str_lt(a, a),
    decreases a.len(),
{
    if a.len() > 0 {
        lemma_str_lt_irreflexive(a.drop_first());
    }
}

/// Of two different strings, one comes first.
pub proof fn lemma_str_lt_total(a: Seq<char>, b: Seq<char>)
    ensures
        a == b || str_lt(a, b) || str_lt(b, a),
    decreases a.len(),
{
    if a.len() > 0 && b.len() > 0 {
        if a[0] == b[0] {
            lemma_str_lt_total(a.drop_first(), b.drop_first());
            if a.drop_first() == b.drop_first() {
                assert(a =~= seq![a[0]] + a.drop_first());
                assert(b =~= seq![b[0]] + b.drop_first());
            }
        } else {
            assert((a[0] as int) != (b[0] as int));
        }
    } else if a.len() == 0 && b.len() == 0 {
        assert(a =~= b);
    }
}

/// The order is asymmetric.
pub proof fn lemma_str_lt_asymmetric(a: Seq<char>, b: Seq<char>)
    ensures
        str_lt(a, b) ==> !str_lt(b, a),
    decreases a.len(),
{
    if a.len() > 0 && b.len() > 0 && a[0] == b[0] {
        lemma_str_lt_asymmetric(a.drop_first(), b.drop_first());
    }
}

/// The order is transitive.
pub proof fn lemma_str_lt_transitive(a: Seq<char>, b: Seq<char>, c: Seq<char>)
    requires
        str_lt(a, b),
        str_lt(b, c),
    ensures
        str_lt(a, c),
    decreases a.len(),
{
    if a.len() > 0 && b.len() > 0 && c.len() > 0 && a[0] == b[0] && b[0] == c[0] {
        lemma_str_lt_transitive(a.drop_first(), b.drop_first(), c.drop_first());
    }
}

/// Compares two strings in lexicographic order: whether `a < b`.
pub fn string_lt(a: &String, b: &String) -> (r: bool)
    ensures
        r == str_lt(a@, b@),
{
    let x = chars_of(a.as_str());
    let y = chars_of(b.as_str());
    let mut i: usize = 0;
    assert(x@.skip(0) =~= x@);
    assert(y@.skip(0) =~= y@);
    while i < x.len() && i < y.len() && x[i] == y[i]
        invariant
            i <= x.len(),
            i <= y.len(),
            str_lt(x@, y@) == str_lt(x@.skip(i as int), y@.skip(i as int)),
        decreases x.len() - i,
    {
        assert(x@.skip(i as int).drop_first() =~= x@.skip(i + 1));
        assert(y@.skip(i as int).drop_first() =~= y@.skip(i + 1));
        i = i + 1;
    }
    if i == x.len() {
        assert(x@.skip(i as int).len() == 0);
        i < y.len()
    } else if i == y.len() {
        assert(y@.skip(i as int).len() == 0);
        false
    } else {
        assert(x@.skip(i as int)[0] == x@[i as int]);
        assert(y@.skip(i as int)[0] == y@[i as int]);
        x[i] < y[i]
    }
}

// ---------------------------------------------------------------------
// The bucketed order
// ---------------------------------------------------------------------

/// Optional strings ordered as `Option<String>`: `None` first.
pub open spec fn opt_str_le(a: Option<Seq<char>>, b: Option<Seq<char>>) -> bool {
    match (a, b) {
        (None, _) => true,
        (Some(_), None) => false,
        (Some(x), Some(y)) => !str_lt(y, x),
    }
}

/// The sub-group of a todo: 0 when it has a priority, 1 when it has only a
/// due date, 2 otherwise.
pub open spec fn sort_group(t: TodoView) -> int {
    if t.priority is Some {
        0
    } else if t.due_date is Some {
        1
    } else {
        2
    }
}

/// `a` may come before `b` in the bucketed order: unfinished before
/// finished; then by sub-group; prioritized todos by priority, then due
/// date; todos with only a due date by due date; the rest are equal.
pub open spec fn bucket_le(a: TodoView, b: TodoView) -> bool {
    if a.done != b.done {
        !a.done
    } else if sort_group(a) != sort_group(b) {
        sort_group(a) < sort_group(b)
    } else if sort_group(a) == 0 {
        (a.priority->0 < b.priority->0) || (a.priority == b.priority && opt_str_le(
            a.due_date,
            b.due_date,
        ))
    } else if sort_group(a) == 1 {
        opt_str_le(a.due_date, b.due_date)
    } else {
        true
    }
}

/// Two todos are equal in the bucketed order.
pub open spec fn bucket_equiv(a: TodoView, b: TodoView) -> bool {
    bucket_le(a, b) && bucket_le(b, a)
}

/// Any two todos are comparable.
pub proof fn lemma_bucket_total(a: TodoView, b: TodoView)
    ensures
        bucket_le(a, b) || bucket_le(b, a),
{
    if let (Some(x), Some(y)) = (a.due_date, b.due_date) {
        lemma_str_lt_asymmetric(x, y);
    }
}

/// The bucketed order is transitive.
pub proof fn lemma_bucket_transitive(a: TodoView, b: TodoView, c: TodoView)
    requires
        bucket_le(a, b),
        bucket_le(b, c),
    ensures
        bucket_le(a, c),
{
    if let (Some(x), Some(y), Some(z)) = (a.due_date, b.due_date, c.due_date) {
        lemma_str_le_transitive(x, y, z);
    }
}

proof fn lemma_str_le_transitive(x: Seq<char>, y: Seq<char>, z: Seq<char>)
    ensures
        !str_lt(y, x) && !str_lt(z, y) ==> !str_lt(z, x),
{
    if !str_lt(y, x) && !str_lt(z, y) && str_lt(z, x) {
        lemma_str_lt_total(x, y);
        lemma_str_lt_total(y, z);
        if x == y {
        } else {
            lemma_str_lt_transitive(x, y, z);
            lemma_str_lt_asymmetric(x, z);
        }
    }
}

/// Every todo is equal to itself in the bucketed order.
pub proof fn lemma_bucket_reflexive(a: TodoView)
    ensures
        bucket_le(a, a),
{
    if let Some(x) = a.due_date {
        lemma_str_lt_irreflexive(x);
    }
}

fn opt_string_le(a: &Option<String>, b: &Option<String>) -> (r: bool)
    ensures
        r == opt_str_le(crate::models::opt_str_view(*a), crate::models::opt_str_view(*b)),
{
    match (a, b) {
        (None, _) => true,
        (Some(_), None) => false,
        (Some(x), Some(y)) => !string_lt(y, x),
    }
}

fn group_of(t: &Todo) -> (r: u8)
    ensures
        r as int == sort_group(t@),
{
    if t.priority.is_some() {
        0
    } else if t.due_date.is_some() {
        1
    } else {
        2
    }
}

/// Whether `a` may come before `b` in the bucketed order.
pub fn bucket_le_exec(a: &Todo, b: &Todo) -> (r: bool)
    ensures
        r == bucket_le(a@, b@),
{
    if a.done != b.done {
        return !a.done;
    }
    let ga = group_of(a);
    let gb = group_of(b);
    if ga != gb {
        ga < gb
    } else if ga == 0 {
        let pa = match a.priority {
            Some(p) => p,
            None => 0,
        };
        let pb = match b.priority {
            Some(p) => p,
            None => 0,
        };
        pa < pb || (pa == pb && opt_string_le(&a.due_date, &b.due_date))
    } else if ga == 1 {
        opt_string_le(&a.due_date, &b.due_date)
    } else {
        true
    }
}

// ---------------------------------------------------------------------
// Stability: the todos of each equivalence class, in order
// ---------------------------------------------------------------------

/// The todos of `s` equal to `x` in the bucketed order, in their order in
/// `s`.
pub open spec fn bucket_class(s: Seq<TodoView>, x: TodoView) -> Seq<TodoView>
    decreases s.len(),
{
    if s.len() == 0 {
        Seq::empty()
    } else if bucket_equiv(s.last(), x) {
        bucket_class(s.drop_last(), x).push(s.last())
    } else {
        bucket_class(s.drop_last(), x)
    }
}

/// The sequence is ordered by `bucket_le`.
pub open spec fn bucket_sorted(s: Seq<TodoView>) -> bool {
    forall|i: int, j: int| 0 <= i < j < s.len() ==> bucket_le(#[trigger] s[i], #[trigger] s[j])
}

/// In a list in the bucketed order, finished todos come after unfinished
/// ones, and among todos alike in that, those with a priority come first,
/// then those with only a due date, then the rest; prioritized todos are
/// ordered by priority (high first).
pub proof fn lemma_bucketed_layout(s: Seq<TodoView>, i: int, j: int)
    requires
        bucket_sorted(s),
        0 <= i < j < s.len(),
    ensures
        s[i].done ==> s[j].done,
        s[i].done == s[j].done ==> sort_group(s[i]) <= sort_group(s[j]),
        s[i].done == s[j].done && s[i].priority is Some && s[j].priority is Some
            ==> s[i].priority->0 <= s[j].priority->0,
{
    assert(bucket_le(s[i], s[j]));
}

/// Within the bucketed order, todos alike in being finished or not and in
/// their priority (the same priority, or none) are ordered by due date:
/// a todo without a due date never follows one with a due date, and of
/// two due dates the earlier (in `YYYY-MM-DD` text order) comes first.
pub proof fn lemma_bucketed_due_order(s: Seq<TodoView>, i: int, j: int)
    requires
        bucket_sorted(s),
        0 <= i < j < s.len(),
        s[i].done == s[j].done,
        s[i].priority == s[j].priority,
    ensures
        s[i].due_date is Some && s[j].priority is Some ==> s[j].due_date is Some,
        s[i].due_date is Some && s[j].due_date is Some ==> !str_lt(s[j].due_date->0, s[i].due_date->0),
{
    assert(bucket_le(s[i], s[j]));
}

/// Classes distribute over concatenation.
pub proof fn lemma_class_concat(a: Seq<TodoView>, b: Seq<TodoView>, x: TodoView)
    ensures
        bucket_class(a + b, x) == bucket_class(a, x) + bucket_class(b, x),
    decreases b.len(),
{
    if b.len() == 0 {
        assert(a + b =~= a);
        assert(bucket_class(a, x) + bucket_class(b, x) =~= bucket_class(a, x));
    } else {
        assert((a + b).drop_last() =~= a + b.drop_last());
        lemma_class_concat(a, b.drop_last(), x);
        if bucket_equiv(b.last(), x) {
            assert(bucket_class(a, x) + bucket_class(b, x) =~= (bucket_class(a, x)
                + bucket_class(b.drop_last(), x)).push(b.last()));
        }
    }
}

/// A class of a sequence with no member of it is empty.
proof fn lemma_class_empty(s: Seq<TodoView>, x: TodoView)
    requires
        forall|i: int| 0 <= i < s.len() ==> !bucket_equiv(#[trigger] s[i], x),
    ensures
        bucket_class(s, x) == Seq::<TodoView>::empty(),
    decreases s.len(),
{
    if s.len() > 0 {
        assert forall|i: int| 0 <= i < s.drop_last().len() implies !bucket_equiv(
            #[trigger] s.drop_last()[i],
            x,
        ) by {
            assert(s.drop_last()[i] == s[i]);
        }
        lemma_class_empty(s.drop_last(), x);
        assert(!bucket_equiv(s[s.len() - 1], x));
    }
}

/// Equivalence is transitive: classes are well defined.
proof fn lemma_equiv_trans(a: TodoView, b: TodoView, c: TodoView)
    requires
        bucket_equiv(a, b),
    ensures
        bucket_equiv(a, c) == bucket_equiv(b, c),
{
    if bucket_le(a, c) && bucket_le(c, a) {
        lemma_bucket_transitive(b, a, c);
        lemma_bucket_transitive(c, a, b);
    }
    if bucket_le(b, c) && bucket_le(c, b) {
        lemma_bucket_transitive(a, b, c);
        lemma_bucket_transitive(c, b, a);
    }
}

/// The single-element class.
proof fn lemma_class_single(e: TodoView, x: TodoView)
    ensures
        bucket_class(seq![e], x) == (if bucket_equiv(e, x) {
            seq![e]
        } else {
            Seq::<TodoView>::empty()
        }),
{
    assert(seq![e].drop_last() =~= Seq::<TodoView>::empty());
    assert(bucket_class(seq![e].drop_last(), x) == Seq::<TodoView>::empty());
    assert(seq![e].last() == e);
    if bucket_equiv(e, x) {
        assert(Seq::<TodoView>::empty().push(e) =~= seq![e]);
    }
}

/// Inserts `e` into a sorted sequence just before the first element not
/// smaller than it: the result is sorted, and its classes are those of the
/// old sequence with `e` added at the front of its own class.
proof fn lemma_insert_front_of_class(s: Seq<TodoView>, e: TodoView, p: int)
    requires
        bucket_sorted(s),
        0 <= p <= s.len(),
        forall|i: int| 0 <= i < p ==> !bucket_le(e, #[trigger] s[i]),
        forall|i: int| p <= i < s.len() ==> bucket_le(e, #[trigger] s[i]),
    ensures
        bucket_sorted(s.insert(p, e)),
        forall|x: TodoView|
            #![trigger bucket_class(s.insert(p, e), x)]
            bucket_class(s.insert(p, e), x) == bucket_class(seq![e], x) + bucket_class(s, x),
{
    let t = s.insert(p, e);
    assert forall|i: int, j: int| 0 <= i < j < t.len() implies bucket_le(
        #[trigger] t[i],
        #[trigger] t[j],
    ) by {
        if i < p && j == p {
            lemma_bucket_total(e, s[i]);
        } else if i < p && j > p {
            lemma_bucket_total(e, s[i]);
            assert(t[j] == s[j - 1]);
        } else if i == p {
            assert(t[j] == s[j - 1]);
        } else if i > p {
            assert(t[i] == s[i - 1] && t[j] == s[j - 1]);
        }
    }
    assert forall|x: TodoView| #[trigger]
        bucket_class(s.insert(p, e), x) == bucket_class(seq![e], x) + bucket_class(s, x) by {
        let a = s.take(p);
        let b = s.skip(p);
        assert(t =~= a + (seq![e] + b));
        assert(s =~= a + b);
        lemma_class_concat(a, seq![e] + b, x);
        lemma_class_concat(seq![e], b, x);
        lemma_class_concat(a, b, x);
        lemma_class_single(e, x);
        if bucket_equiv(e, x) {
            // every element before p is strictly smaller than e, hence not equivalent to x
            assert forall|i: int| 0 <= i < a.len() implies !bucket_equiv(#[trigger] a[i], x) by {
                assert(a[i] == s[i]);
                if bucket_equiv(a[i], x) {
                    lemma_equiv_trans(x, e, a[i]);
                    lemma_bucket_reflexive(x);
                    assert(bucket_equiv(e, x)) ;
                    lemma_equiv_trans(e, x, a[i]);
                }
            }
            lemma_class_empty(a, x);
            assert(bucket_class(a, x) + bucket_class(seq![e] + b, x) =~= bucket_class(seq![e], x)
                + (bucket_class(a, x) + bucket_class(b, x)));
        } else {
            assert(bucket_class(seq![e], x) =~= Seq::<TodoView>::empty());
            assert(bucket_class(a, x) + bucket_class(seq![e] + b, x) =~= bucket_class(seq![e], x)
                + (bucket_class(a, x) + bucket_class(b, x)));
        }
    }
}

/// The contents of a vector of todos.
pub open spec fn todo_views(v: Seq<Todo>) -> Seq<TodoView> {
    v.map_values(|t: Todo| t@)
}

/// Sorts todos in the bucketed order, keeping equal todos in the order
/// they had.
pub fn bucket_sort(todos: &mut Vec<Todo>)
    ensures
        todo_views(final(todos)@).len() == todo_views(old(todos)@).len(),
        bucket_sorted(todo_views(final(todos)@)),
        forall|x: TodoView|
            #![trigger bucket_class(todo_views(final(todos)@), x)]
            bucket_class(todo_views(final(todos)@), x) == bucket_class(todo_views(old(todos)@), x),
{
    let ghost input = todo_views(todos@);
    let mut src: Vec<Todo> = Vec::new();
    std::mem::swap(todos, &mut src);
    let mut out: Vec<Todo> = Vec::new();
    while src.len() > 0
        invariant
            input.len() == src.len() + out.len(),
            todo_views(src@) == input.take(src.len() as int),
            bucket_sorted(todo_views(out@)),
            forall|x: TodoView|
                #![trigger bucket_class(todo_views(out@), x)]
                bucket_class(todo_views(out@), x) == bucket_class(input.skip(src.len() as int), x),
        decreases src.len(),
    {
        let ghost n = src.len() as int;
        let ghost old_src = src@;
        let e = src.pop().unwrap();
        let ghost ev = e@;
        assert(e == old_src[n - 1]);
        assert(todo_views(old_src)[n - 1] == ev);
        assert(todo_views(src@) =~= input.take(n - 1));
        assert(ev == input[n - 1]);
        // find the first element of out not smaller than e
        let mut p: usize = 0;
        while p < out.len() && !bucket_le_exec(&e, &out[p])
            invariant
                p <= out.len(),
                ev == e@,
                forall|i: int| 0 <= i < p ==> !bucket_le(ev, #[trigger] todo_views(out@)[i]),
            decreases out.len() - p,
        {
            p = p + 1;
        }
        proof {
            let ov = todo_views(out@);
            assert forall|i: int| p <= i < ov.len() implies bucket_le(ev, #[trigger] ov[i]) by {
                if i > p {
                    lemma_bucket_transitive(ev, ov[p as int], ov[i]);
                }
            }
            lemma_insert_front_of_class(ov, ev, p as int);
            assert(input.skip(n - 1) =~= seq![ev] + input.skip(n));
            assert forall|x: TodoView| #[trigger] bucket_class(input.skip(n - 1), x)
                == bucket_class(seq![ev], x) + bucket_class(input.skip(n), x) by {
                lemma_class_concat(seq![ev], input.skip(n), x);
            }
        }
        let ghost old_ov = todo_views(out@);
        out.insert(p, e);
        assert(todo_views(out@) =~= old_ov.insert(p as int, ev));
    }
    assert(input.skip(0) =~= input);
    *todos = out;
}

} // verus!
