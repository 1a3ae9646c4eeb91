//! Text shown in the views: truncation, link stripping, aliases, badges.
use vstd::prelude::*;
use crate::app::DetailField;
use crate::text::{
    char_whitespace, chars_of, find, find_chars, find_ws_from, first_ws_from, is_ascii_char,
    is_ascii_control_char, push_char, push_chars, skip_ws_backward, skip_ws_forward, slice_vec,
    string_of, trim_end_ws, trim_start_ws,
};

verus! {

/// The text cut to `max` characters: unchanged when it fits, else its
/// first `max - 1` characters followed by an ellipsis.
pub open spec fn truncated(s: Seq<char>, max: nat) -> Seq<char> {
    if s.len() <= max {
        s
    } else {
        s.take(if max >= 1 {
            max - 1
        } else {
            0
        }).push('\u{2026}')
    }
}

/// Cuts a text to at most `max` characters (with an ellipsis when cut).
pub fn truncate(s: &str, max: usize) -> (r: String)
    ensures
        r@ == truncated(s@, max as nat),
        max >= 1 ==> r@.len() <= max,
{
    let v = chars_of(s);
    if v.len() <= max {
        return string_of(&v);
    }
    let keep = if max >= 1 {
        max - 1
    } else {
        0
    };
    let mut r = string_of(&slice_vec(&v, 0, keep));
    push_char(&mut r, '\u{2026}');
    assert(v@.subrange(0, keep as int) =~= v@.take(keep as int));
    r
}

/// A todo's text as the todo list shows it (cut to `max` characters).
pub fn display_text(text: &str, max: usize) -> (r: String)
    ensures
        r@ == truncated(text@, max as nat),
{
    truncate(text, max)
}

/// Where the first link starts in a text: the first position of
/// `https://` or of `http://`, whichever comes first.
pub open spec fn link_start(s: Seq<char>) -> Option<int> {
    match (find(s, "https://"@), find(s, "http://"@)) {
        (Some(a), Some(b)) => Some(if a <= b { a } else { b }),
        (Some(a), None) => Some(a),
        (None, Some(b)) => Some(b),
        (None, None) => None,
    }
}

/// A text with its first link removed for compact display: the text
/// before the link (without trailing whitespace) and after it (from the
/// next whitespace, without leading whitespace), joined by one space when
/// both are non-empty.
pub open spec fn stripped_url(s: Seq<char>) -> Seq<char> {
    match link_start(s) {
        None => s,
        Some(start) => {
            let end = first_ws_from(s, start);
            let before = trim_end_ws(s.take(start));
            let after = trim_start_ws(s.skip(end));
            if before.len() == 0 {
                after
            } else if after.len() == 0 {
                before
            } else {
                before + seq![' '] + after
            }
        },
    }
}

/// Removes the first link from a text for compact display.
pub fn strip_url(text: &str) -> (r: String)
    ensures
        r@ == stripped_url(text@),
{
    let v = chars_of(text);
    let https = chars_of("https://");
    let http = chars_of("http://");
    let start = match (find_chars(&v, &https), find_chars(&v, &http)) {
        (Some(a), Some(b)) => Some(if a <= b { a } else { b }),
        (Some(a), None) => Some(a),
        (None, Some(b)) => Some(b),
        (None, None) => None,
    };
    let start = match start {
        None => return string_of(&v),
        Some(i) => i,
    };
    proof {
        crate::text::lemma_find_in_bounds(v@, "https://"@);
        crate::text::lemma_find_in_bounds(v@, "http://"@);
    }
    let end = find_ws_from(&v, start);
    let b = skip_ws_backward(&v, 0, start);
    assert(v@.subrange(0, start as int) =~= v@.take(start as int));
    assert(v@.subrange(0, b as int) =~= v@.take(b as int));
    let a = skip_ws_forward(&v, end);
    let before = slice_vec(&v, 0, b);
    let after = slice_vec(&v, a, v.len());
    assert(after@ =~= v@.skip(a as int));
    if before.len() == 0 {
        string_of(&after)
    } else if after.len() == 0 {
        string_of(&before)
    } else {
        let mut r = string_of(&before);
        push_char(&mut r, ' ');
        push_chars(&mut r, &after);
        assert(r@ =~= before@ + seq![' '] + after@);
        r
    }
}

/// The printable ASCII characters of a text (emoji and control characters
/// dropped).
pub open spec fn printable_ascii(s: Seq<char>) -> Seq<char>
    decreases s.len(),
{
    if s.len() == 0 {
        Seq::empty()
    } else if is_ascii_char(s.last()) && !is_ascii_control_char(s.last()) {
        printable_ascii(s.drop_last()).push(s.last())
    } else {
        printable_ascii(s.drop_last())
    }
}

fn printable_ascii_of(s: &str) -> (r: Vec<char>)
    ensures
        r@ == printable_ascii(s@),
{
    let v = chars_of(s);
    let mut r: Vec<char> = Vec::new();
    let mut i: usize = 0;
    while i < v.len()
        invariant
            i <= v.len(),
            v@ == s@,
            r@ == printable_ascii(v@.take(i as int)),
        decreases v.len() - i,
    {
        assert(v@.take(i + 1).drop_last() =~= v@.take(i as int));
        let c = v[i];
        if (c as u32) < 128 && !((c as u32) < 32 || (c as u32) == 127) {
            r.push(c);
        }
        i = i + 1;
    }
    assert(v@.take(v.len() as int) =~= v@);
    r
}

/// `s` padded with spaces on the right to `width` characters.
pub open spec fn pad_right(s: Seq<char>, width: nat) -> Seq<char> {
    if s.len() >= width {
        s
    } else {
        s + Seq::new((width - s.len()) as nat, |i: int| ' ')
    }
}

/// The short topic name shown beside search results: its printable ASCII
/// characters without leading whitespace, cut or padded to 16 characters.
pub open spec fn alias_of(name: Seq<char>) -> Seq<char> {
    let t = trim_start_ws(printable_ascii(name));
    pad_right(t.take(if t.len() < 16 {
        t.len() as int
    } else {
        16
    }), 16)
}

/// The short, fixed-width topic name shown beside search results.
pub fn topic_alias(name: &str) -> (r: String)
    ensures
        r@ == alias_of(name@),
        r@.len() == 16,
{
    let v = printable_ascii_of(name);
    let a = skip_ws_forward(&v, 0);
    assert(v@.skip(0) =~= v@);
    let t = slice_vec(&v, a, v.len());
    assert(t@ =~= v@.skip(a as int));
    let n = if t.len() < 16 {
        t.len()
    } else {
        16
    };
    let mut r = string_of(&slice_vec(&t, 0, n));
    let mut k = n;
    while k < 16
        invariant
            n <= k <= 16,
            r@ == t@.take(n as int) + Seq::new((k - n) as nat, |i: int| ' '),
        decreases 16 - k,
    {
        push_char(&mut r, ' ');
        assert(r@ =~= t@.take(n as int) + Seq::new((k + 1 - n) as nat, |i: int| ' '));
        k = k + 1;
    }
    assert(t@.subrange(0, n as int) =~= t@.take(n as int));
    assert(r@ =~= alias_of(name@));
    r
}

/// The topic name shown beside a briefing row: its printable ASCII
/// characters without leading whitespace, cut to 12 characters.
pub fn briefing_topic(name: &str) -> (r: String)
    ensures
        r@ == truncated(trim_start_ws(printable_ascii(name@)), 12),
{
    let v = printable_ascii_of(name);
    let a = skip_ws_forward(&v, 0);
    assert(v@.skip(0) =~= v@);
    let t = slice_vec(&v, a, v.len());
    assert(t@ =~= v@.skip(a as int));
    let ts = string_of(&t);
    truncate(ts.as_str(), 12)
}

/// How far the detail panel scrolls to show a field.
pub open spec fn field_scroll(f: DetailField) -> int {
    match f {
        DetailField::Text => 0,
        DetailField::Priority => 3,
        DetailField::Due => 5,
        DetailField::Url => 8,
        DetailField::NewComment => 11,
        DetailField::ExistingComment(i) => 14 + (i as u16) * 4,
    }
}

/// The scroll offset that shows a field of the detail panel.
pub fn field_scroll_target(field: &DetailField) -> (r: u16)
    requires
        field matches DetailField::ExistingComment(i) ==> 14 + (i as u16) * 4 <= u16::MAX,
    ensures
        r == field_scroll(*field),
{
    match field {
        DetailField::Text => 0,
        DetailField::Priority => 3,
        DetailField::Due => 5,
        DetailField::Url => 8,
        DetailField::NewComment => 11,
        DetailField::ExistingComment(i) => 14 + (*i as u16) * 4,
    }
}

} // verus!
