//! Decisions of the Jira integration: what an issue becomes as a todo, and
//! where the Jira site is configured.
use vstd::prelude::*;
use crate::text::{
    chars_of, has_prefix, owned, push_chars, slice_vec, string_of, trim, trim_ws, push_char,
};

verus! {

/// The status category of an issue (`new`, `indeterminate`, `done`).
pub struct StatusCategory {
    pub key: String,
}

/// The status of an issue.
pub struct Status {
    pub status_category: StatusCategory,
}

/// The fields of an issue the sync reads.
pub struct Fields {
    pub summary: String,
    pub status: Status,
}

/// A Jira issue as the Atlassian CLI reports it.
pub struct JiraIssue {
    pub key: String,
    pub fields: Fields,
}

impl JiraIssue {
    /// The web address of the issue on a Jira site.
    pub fn browse_url(&self, site_base: &str) -> (r: String)
        ensures
            r@ == site_base@ + "/browse/"@ + self.key@,
    {
        let mut s = owned(site_base);
        let mid = chars_of("/browse/");
        push_chars(&mut s, &mid);
        let k = chars_of(self.key.as_str());
        push_chars(&mut s, &k);
        s
    }

    /// The issue is finished: its status category is `done`.
    pub fn is_done(&self) -> (r: bool)
        ensures
            r == (self.fields.status.status_category.key@ == "done"@),
    {
        crate::text::str_is(self.fields.status.status_category.key.as_str(), "done")
    }

    /// The prefix that identifies the todo of an issue: its key and a space.
    pub fn todo_prefix(&self) -> (r: String)
        ensures
            r@ == self.key@.push(' '),
    {
        let mut s = self.key.clone();
        push_char(&mut s, ' ');
        s
    }

    /// The text of the todo of an issue: its key, a space, its summary.
    pub fn todo_text(&self) -> (r: String)
        ensures
            r@ == self.key@.push(' ') + self.fields.summary@,
    {
        let mut s = self.todo_prefix();
        let t = chars_of(self.fields.summary.as_str());
        push_chars(&mut s, &t);
        s
    }
}

/// The lines of a text, as `str::lines` gives them: split after each `\n`,
/// without the `\n` or a `\r` just before it; a final empty line is not a
/// line.
pub open spec fn text_lines(s: Seq<char>) -> Seq<Seq<char>>
    decreases s.len(),
{
    if s.len() == 0 {
        Seq::empty()
    } else {
        let i = first_newline(s, 0);
        if i >= s.len() {
            seq![s]
        } else {
            let line = s.take(i);
            let line = if line.len() > 0 && line.last() == '\r' {
                line.drop_last()
            } else {
                line
            };
            proof {
                lemma_first_newline_bounds(s, 0);
            }
            seq![line] + text_lines(s.skip(i + 1))
        }
    }
}

/// The position of the first `\n` at or after `i`, or the length.
pub open spec fn first_newline(s: Seq<char>, i: int) -> int
    decreases s.len() - i,
{
    if i < 0 || i >= s.len() {
        s.len() as int
    } else if s[i] == '\n' {
        i
    } else {
        first_newline(s, i + 1)
    }
}

/// A newline search from `i` ends between `i` and the length.
pub proof fn lemma_first_newline_bounds(s: Seq<char>, i: int)
    requires
        0 <= i,
    ensures
        i <= first_newline(s, i) <= s.len() || (i > s.len() && first_newline(s, i) == s.len()),
    decreases s.len() - i,
{
    if i < s.len() && s[i] != '\n' {
        lemma_first_newline_bounds(s, i + 1);
    }
}

/// `s` without leading `c` characters.
pub open spec fn trim_start_char(s: Seq<char>, c: char) -> Seq<char>
    decreases s.len(),
{
    if s.len() > 0 && s[0] == c {
        trim_start_char(s.drop_first(), c)
    } else {
        s
    }
}

/// `s` without trailing `c` characters.
pub open spec fn trim_end_char(s: Seq<char>, c: char) -> Seq<char>
    decreases s.len(),
{
    if s.len() > 0 && s.last() == c {
        trim_end_char(s.drop_last(), c)
    } else {
        s
    }
}

/// `s` without leading or trailing `c` characters.
pub open spec fn trim_char(s: Seq<char>, c: char) -> Seq<char> {
    trim_end_char(trim_start_char(s, c), c)
}

/// The host a configuration line names: a line of the form `site: host`
/// (or `- site: host`), with the host unquoted.
pub open spec fn site_of_line(line: Seq<char>) -> Option<Seq<char>> {
    let t = trim_ws(trim_start_char(trim_ws(line), '-'));
    if has_prefix(t, "site:"@) {
        let host = trim_char(trim_char(trim_ws(t.skip(5)), '"'), '\'');
        if host.len() > 0 {
            Some(host)
        } else {
            None
        }
    } else {
        None
    }
}

/// The first site host named in the lines.
pub open spec fn first_site(lines: Seq<Seq<char>>) -> Option<Seq<char>>
    decreases lines.len(),
{
    if lines.len() == 0 {
        None
    } else {
        match site_of_line(lines[0]) {
            Some(h) => Some(h),
            None => first_site(lines.drop_first()),
        }
    }
}

/// The base address of the Jira site in the CLI's configuration: `https://`
/// followed by the first site host named in it.
pub open spec fn site_base_spec(content: Seq<char>) -> Option<Seq<char>> {
    match first_site(text_lines(content)) {
        Some(h) => Some("https://"@ + h),
        None => None,
    }
}

fn trim_char_vec(s: &Vec<char>, c: char) -> (r: Vec<char>)
    ensures
        r@ == trim_char(s@, c),
{
    let mut a: usize = 0;
    assert(s@.skip(0) =~= s@);
    while a < s.len() && s[a] == c
        invariant
            a <= s.len(),
            trim_start_char(s@, c) == trim_start_char(s@.skip(a as int), c),
        decreases s.len() - a,
    {
        assert(s@.skip(a as int).drop_first() =~= s@.skip(a + 1));
        a = a + 1;
    }
    let ghost front = s@.skip(a as int);
    let mut b: usize = s.len();
    assert(front =~= s@.subrange(a as int, b as int));
    while b > a && s[b - 1] == c
        invariant
            a <= b <= s.len(),
            trim_end_char(front, c) == trim_end_char(s@.subrange(a as int, b as int), c),
        decreases b,
    {
        assert(s@.subrange(a as int, b as int).drop_last() =~= s@.subrange(a as int, b - 1));
        b = b - 1;
    }
    slice_vec(s, a, b)
}

fn site_of(line: &Vec<char>) -> (r: Option<Vec<char>>)
    ensures
        r matches Some(h) ==> site_of_line(line@) == Some(h@),
        r is None ==> site_of_line(line@) is None,
{
    let t0 = trim(line);
    let mut a: usize = 0;
    assert(t0@.skip(0) =~= t0@);
    while a < t0.len() && t0[a] == '-'
        invariant
            a <= t0.len(),
            trim_start_char(t0@, '-') == trim_start_char(t0@.skip(a as int), '-'),
        decreases t0.len() - a,
    {
        assert(t0@.skip(a as int).drop_first() =~= t0@.skip(a + 1));
        a = a + 1;
    }
    let t1 = slice_vec(&t0, a, t0.len());
    assert(t1@ =~= t0@.skip(a as int));
    let t = trim(&t1);
    let site = chars_of("site:");
    if !crate::text::starts_with(&t, &site) {
        return None;
    }
    proof {
        reveal_strlit("site:");
    }
    let rest = slice_vec(&t, 5, t.len());
    assert(rest@ =~= t@.skip(5));
    let h0 = trim(&rest);
    let h1 = trim_char_vec(&h0, '"');
    let h = trim_char_vec(&h1, '\'');
    if h.len() > 0 {
        Some(h)
    } else {
        None
    }
}

/// Reads the Jira site from the CLI's configuration text.
pub fn site_base_from_config(content: &str) -> (r: Option<String>)
    ensures
        r matches Some(u) ==> site_base_spec(content@) == Some(u@),
        r is None ==> site_base_spec(content@) is None,
{
    let v = chars_of(content);
    let mut i: usize = 0;
    assert(v@.skip(0) =~= v@);
    while i < v.len()
        invariant
            i <= v.len(),
            v@ == content@,
            first_site(text_lines(v@)) == first_site(text_lines(v@.skip(i as int))),
        decreases v.len() - i,
    {
        let ghost rest = v@.skip(i as int);
        let mut j = i;
        while j < v.len() && v[j] != '\n'
            invariant
                i <= j <= v.len(),
                rest == v@.skip(i as int),
                first_newline(rest, 0) == first_newline(rest, j - i),
            decreases v.len() - j,
        {
            j = j + 1;
        }
        let mut end = j;
        if j < v.len() && end > i && v[end - 1] == '\r' {
            end = end - 1;
        }
        let line = slice_vec(&v, i, end);
        proof {
            assert(first_newline(rest, 0) == j - i);
            if j < v.len() {
                assert(rest.take(j - i) =~= v@.subrange(i as int, j as int));
                if j > i && v@[j - 1] == '\r' {
                    assert(line@ =~= rest.take(j - i).drop_last());
                } else {
                    assert(line@ =~= rest.take(j - i));
                }
                assert(rest.skip(j - i + 1) =~= v@.skip(j + 1));
            } else {
                assert(line@ =~= rest);
            }
            assert(text_lines(rest)[0] == line@);
        }
        match site_of(&line) {
            Some(h) => {
                let mut s = owned("https://");
                push_chars(&mut s, &h);
                return Some(s);
            },
            None => {},
        }
        if j >= v.len() {
            assert(text_lines(rest) =~= seq![line@]);
            assert(first_site(text_lines(rest).drop_first()) is None);
            return None;
        }
        assert(text_lines(rest).drop_first() =~= text_lines(v@.skip(j + 1)));
        i = j + 1;
    }
    assert(v@.skip(i as int).len() == 0);
    None
}

} // verus!
