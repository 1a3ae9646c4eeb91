//! Decisions of the GitHub integration: what a pull request becomes as a
//! todo, and which todos may belong to pull requests that closed.
use vstd::prelude::*;
use crate::models::Todo;
use crate::text::{
    chars_of, decimal, is_whitespace, lowercase, owned, parse_uint, parse_unsigned_max, push_char,
    push_chars, push_decimal, seq_views, slice_vec, split_words, str_is, to_lowercase, words,
};

verus! {

/// The repository of a pull request.
pub struct Repo {
    pub name_with_owner: String,
}

/// A pull request as the GitHub CLI reports it.
pub struct PrItem {
    pub number: u64,
    pub title: String,
    pub state: String,
    pub repository: Repo,
}

impl PrItem {
    /// The prefix that identifies the todo of a pull request: `#N `.
    pub fn todo_prefix(&self) -> (r: String)
        ensures
            r@ == seq!['#'] + decimal(self.number as nat) + seq![' '],
    {
        let mut s = String::new();
        push_char(&mut s, '#');
        push_decimal(&mut s, self.number);
        push_char(&mut s, ' ');
        s
    }

    /// The text of the todo of a pull request: `#N title [owner/repo]`.
    pub fn todo_text(&self) -> (r: String)
        ensures
            r@ == seq!['#'] + decimal(self.number as nat) + seq![' '] + self.title@ + seq![' ', '[']
                + self.repository.name_with_owner@ + seq![']'],
    {
        let mut s = self.todo_prefix();
        let t = chars_of(self.title.as_str());
        push_chars(&mut s, &t);
        push_char(&mut s, ' ');
        push_char(&mut s, '[');
        let r = chars_of(self.repository.name_with_owner.as_str());
        push_chars(&mut s, &r);
        push_char(&mut s, ']');
        s
    }

    /// The web address of the pull request.
    pub fn url(&self) -> (r: String)
        ensures
            r@ == "https://github.com/"@ + self.repository.name_with_owner@ + "/pull/"@ + decimal(
                self.number as nat,
            ),
    {
        let mut s = owned("https://github.com/");
        let r = chars_of(self.repository.name_with_owner.as_str());
        push_chars(&mut s, &r);
        let p = chars_of("/pull/");
        push_chars(&mut s, &p);
        push_decimal(&mut s, self.number);
        s
    }

    /// The pull request is finished: its state, in lower case, is not
    /// `open`.
    pub fn is_done(&self) -> (r: bool)
        ensures
            r == (lowercase(self.state@) != "open"@),
    {
        !state_is_open(self.state.as_str())
    }
}

/// A pull request state, in lower case, is `open`.
pub fn state_is_open(state: &str) -> (r: bool)
    ensures
        r == (lowercase(state@) == "open"@),
{
    let l = to_lowercase(state);
    str_is(l.as_str(), "open")
}

/// The pull request number a todo's text begins with: `#` and then a
/// number as its first word.
pub open spec fn pr_number_spec(text: Seq<char>) -> Option<nat> {
    if text.len() > 0 && text[0] == '#' {
        let ws = words(text.skip(1));
        if ws.len() > 0 {
            parse_unsigned_max(ws[0], u64::MAX as nat)
        } else {
            None
        }
    } else {
        None
    }
}

/// The number of a pull request's todo reads back: a text `#N ...` has
/// number N, for every N a `u64` holds (as the todo text and prefix of
/// [`PrItem`] write it).
pub proof fn lemma_pr_number_reads_back(n: u64, rest: Seq<char>)
    ensures
        pr_number_spec(seq!['#'] + decimal(n as nat) + seq![' '] + rest) == Some(n as nat),
{
    let text = seq!['#'] + decimal(n as nat) + seq![' '] + rest;
    crate::text::lemma_decimal_is_word(n as nat);
    crate::text::lemma_first_word(decimal(n as nat), rest);
    assert(text.skip(1) =~= decimal(n as nat) + seq![' '] + rest);
    crate::text::lemma_parse_decimal(n as nat);
}

/// Reads the pull request number a todo's text begins with.
pub fn pr_number(text: &str) -> (r: Option<u64>)
    ensures
        r matches Some(n) ==> pr_number_spec(text@) == Some(n as nat),
        r is None ==> pr_number_spec(text@) is None,
{
    let v = chars_of(text);
    if v.len() == 0 || v[0] != '#' {
        return None;
    }
    let rest = slice_vec(&v, 1, v.len());
    assert(rest@ =~= v@.skip(1));
    let ws = split_words(&rest);
    if ws.len() == 0 {
        return None;
    }
    assert(seq_views(ws@)[0] == ws@[0]@);
    parse_uint(&ws[0], u64::MAX)
}

/// Whether `n` is among the numbers.
pub fn contains_number(ns: &Vec<u64>, n: u64) -> (r: bool)
    ensures
        r == ns@.contains(n),
{
    let mut i: usize = 0;
    while i < ns.len()
        invariant
            i <= ns.len(),
            forall|j: int| 0 <= j < i ==> ns@[j] != n,
        decreases ns.len() - i,
    {
        if ns[i] == n {
            return true;
        }
        i = i + 1;
    }
    false
}

/// The todo may belong to a pull request that has since closed: it is
/// unfinished, its text names a pull request that is no longer listed as
/// open, and it has a link to look the pull request up by.
pub open spec fn may_have_closed(
    done: bool,
    text: Seq<char>,
    url: Option<Seq<char>>,
    open_numbers: Seq<u64>,
) -> bool {
    &&& !done
    &&& pr_number_spec(text) is Some
    &&& !open_numbers.contains(pr_number_spec(text)->0 as u64)
    &&& url is Some && url->0.len() > 0
}

/// Whether the state of a todo's pull request should be checked.
pub fn needs_state_check(todo: &Todo, open_numbers: &Vec<u64>) -> (r: bool)
    ensures
        r == may_have_closed(todo.done, todo.text@, crate::models::opt_str_view(todo.url), open_numbers@),
{
    if todo.done {
        return false;
    }
    let n = match pr_number(todo.text.as_str()) {
        Some(n) => n,
        None => return false,
    };
    if contains_number(open_numbers, n) {
        return false;
    }
    match &todo.url {
        Some(u) => chars_of(u.as_str()).len() > 0,
        None => false,
    }
}

} // verus!
