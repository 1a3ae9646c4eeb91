//! Choosing which ranked todos the search overlay shows.
use vstd::prelude::*;
use crate::models::{Todo, TodoView};
use crate::order::todo_views;

verus! {

/// The positions of the todos with the given `done` flag, in order.
pub open spec fn positions_with_done(s: Seq<TodoView>, done: bool) -> Seq<usize>
    decreases s.len(),
{
    if s.len() == 0 {
        Seq::empty()
    } else if s.last().done == done {
        positions_with_done(s.drop_last(), done).push((s.len() - 1) as usize)
    } else {
        positions_with_done(s.drop_last(), done)
    }
}

/// The first `k` elements (all of them when there are fewer).
pub open spec fn first_n<A>(s: Seq<A>, k: nat) -> Seq<A> {
    if s.len() <= k {
        s
    } else {
        s.take(k as int)
    }
}

/// The ids of the todos at some positions.
pub open spec fn ids_at(s: Seq<TodoView>, ps: Seq<usize>) -> Set<i64> {
    Set::new(|id: i64| exists|k: int| 0 <= k < ps.len() && s[ps[k] as int].id == id)
}

/// The positions of the todos whose id is not in a set, in order.
pub open spec fn positions_not_in(s: Seq<TodoView>, ids: Set<i64>) -> Seq<usize>
    decreases s.len(),
{
    if s.len() == 0 {
        Seq::empty()
    } else if !ids.contains(s.last().id) {
        positions_not_in(s.drop_last(), ids).push((s.len() - 1) as usize)
    } else {
        positions_not_in(s.drop_last(), ids)
    }
}

/// The todos a search shows, as positions: `ranked` into the ranked list
/// (up to seven unfinished todos, then up to five finished ones, each in
/// rank order), `extra` into the todos whose comments mention the query
/// (those not already shown).
pub struct SearchPick {
    pub ranked: Vec<usize>,
    pub extra: Vec<usize>,
}

fn positions_with(s: &Vec<Todo>, done: bool, k: usize) -> (r: Vec<usize>)
    ensures
        r@ == first_n(positions_with_done(todo_views(s@), done), k as nat),
{
    let ghost v = todo_views(s@);
    let mut r: Vec<usize> = Vec::new();
    let mut i: usize = 0;
    while i < s.len()
        invariant
            i <= s.len(),
            v == todo_views(s@),
            r@ == first_n(positions_with_done(v.take(i as int), done), k as nat),
        decreases s.len() - i,
    {
        assert(v.take(i + 1).drop_last() =~= v.take(i as int));
        assert(v.take(i + 1).last() == s@[i as int]@);
        let ghost before = positions_with_done(v.take(i as int), done);
        if s[i].done == done {
            assert(positions_with_done(v.take(i + 1), done) == before.push(i));
            if r.len() < k {
                r.push(i);
                assert(r@ =~= first_n(before.push(i), k as nat));
            } else {
                assert(first_n(before.push(i), k as nat) =~= first_n(before, k as nat));
            }
        }
        i = i + 1;
    }
    assert(v.take(s.len() as int) =~= v);
    r
}

fn id_among(s: &Vec<Todo>, ps: &Vec<usize>, id: i64) -> (r: bool)
    requires
        forall|k: int| 0 <= k < ps.len() ==> ps@[k] < s.len(),
    ensures
        r == ids_at(todo_views(s@), ps@).contains(id),
{
    let mut k: usize = 0;
    while k < ps.len()
        invariant
            k <= ps.len(),
            forall|j: int| 0 <= j < ps.len() ==> ps@[j] < s.len(),
            forall|j: int| 0 <= j < k ==> todo_views(s@)[ps@[j] as int].id != id,
        decreases ps.len() - k,
    {
        if s[ps[k]].id == id {
            assert(todo_views(s@)[ps@[k as int] as int].id == id);
            return true;
        }
        k = k + 1;
    }
    false
}

proof fn lemma_positions_in_bounds(s: Seq<TodoView>, done: bool)
    ensures
        forall|k: int| 0 <= k < positions_with_done(s, done).len() ==> #[trigger] positions_with_done(s, done)[k] < s.len(),
    decreases s.len(),
{
    if s.len() > 0 {
        lemma_positions_in_bounds(s.drop_last(), done);
        let p = positions_with_done(s.drop_last(), done);
        assert forall|k: int| 0 <= k < positions_with_done(s, done).len() implies #[trigger] positions_with_done(s, done)[k] < s.len() by {
            if k < p.len() {
                assert(positions_with_done(s, done)[k] == p[k]);
            }
        }
    }
}

/// Picks the search results: up to seven unfinished and five finished
/// ranked todos, then the comment matches not among them.
pub fn pick_search_results(ranked: &Vec<Todo>, comment_hits: &Vec<Todo>) -> (r: SearchPick)
    ensures
        r.ranked@ == first_n(positions_with_done(todo_views(ranked@), false), 7) + first_n(
            positions_with_done(todo_views(ranked@), true),
            5,
        ),
        r.extra@ == positions_not_in(todo_views(comment_hits@), ids_at(todo_views(ranked@), r.ranked@)),
{
    let mut picked = positions_with(ranked, false, 7);
    let done = positions_with(ranked, true, 5);
    proof {
        lemma_positions_in_bounds(todo_views(ranked@), false);
        lemma_positions_in_bounds(todo_views(ranked@), true);
    }
    let mut i: usize = 0;
    let ghost first = picked@;
    while i < done.len()
        invariant
            i <= done.len(),
            picked@ == first + done@.take(i as int),
        decreases done.len() - i,
    {
        picked.push(done[i]);
        assert(done@.take(i + 1) =~= done@.take(i as int).push(done@[i as int]));
        i = i + 1;
    }
    assert(done@.take(done.len() as int) =~= done@);
    let ghost ids = ids_at(todo_views(ranked@), picked@);
    let ghost hv = todo_views(comment_hits@);
    let mut extra: Vec<usize> = Vec::new();
    let mut j: usize = 0;
    while j < comment_hits.len()
        invariant
            j <= comment_hits.len(),
            hv == todo_views(comment_hits@),
            ids == ids_at(todo_views(ranked@), picked@),
            forall|k: int| 0 <= k < picked.len() ==> picked@[k] < ranked.len(),
            extra@ == positions_not_in(hv.take(j as int), ids),
        decreases comment_hits.len() - j,
    {
        assert(hv.take(j + 1).drop_last() =~= hv.take(j as int));
        assert(hv.take(j + 1).last() == comment_hits@[j as int]@);
        if !id_among(ranked, &picked, comment_hits[j].id) {
            extra.push(j);
        }
        j = j + 1;
    }
    assert(hv.take(comment_hits.len() as int) =~= hv);
    SearchPick { ranked: picked, extra }
}

} // verus!
