//! Editing a line of text at a cursor counted in characters.
use vstd::prelude::*;
use crate::text::{chars_of, string_of};

verus! {

/// Inserts `c` before character `pos` (at the end when `pos` is past it).
pub open spec fn inserted(s: Seq<char>, pos: int, c: char) -> Seq<char> {
    s.insert(if pos < s.len() {
        pos
    } else {
        s.len() as int
    }, c)
}

/// Inserts a character at a character position.
pub fn insert_char_at(s: &mut String, pos: usize, c: char)
    ensures
        final(s)@ == inserted(old(s)@, pos as int, c),
{
    let mut v = chars_of(s.as_str());
    let at = if pos < v.len() {
        pos
    } else {
        v.len()
    };
    v.insert(at, c);
    *s = string_of(&v);
}

/// Removes the character before position `pos`; whether there was one.
pub fn delete_char_before(s: &mut String, pos: usize) -> (r: bool)
    ensures
        r == (0 < pos <= old(s)@.len()),
        r ==> final(s)@ == old(s)@.remove(pos - 1),
        !r ==> final(s)@ == old(s)@,
{
    if pos == 0 {
        return false;
    }
    let mut v = chars_of(s.as_str());
    if pos - 1 < v.len() {
        v.remove(pos - 1);
        *s = string_of(&v);
        true
    } else {
        false
    }
}

/// Typing a character and then deleting the character before the cursor
/// gives back the text.
pub proof fn lemma_delete_undoes_insert(s: Seq<char>, pos: int, c: char)
    requires
        0 <= pos <= s.len(),
    ensures
        inserted(s, pos, c).remove(pos) == s,
        0 < pos + 1 <= inserted(s, pos, c).len(),
{
    assert(inserted(s, pos, c).remove(pos) =~= s);
}

/// The keys that edit a line of text.
#[derive(Clone, Copy, PartialEq, Eq, Debug, Structural)]
pub enum EditKey {
    Backspace,
    Left,
    Right,
    Char(char),
    /// Any other key, which leaves the line alone.
    Other,
}

/// Applies an editing key to a line and its cursor (in characters).
pub fn edit_field(text: &mut String, cursor: &mut usize, key: EditKey)
    requires
        key is Char ==> *old(cursor) < usize::MAX,
    ensures
        *old(cursor) <= old(text)@.len() ==> *final(cursor) <= final(text)@.len(),
        key == EditKey::Backspace ==> if 0 < *old(cursor) <= old(text)@.len() {
            final(text)@ == old(text)@.remove(*old(cursor) - 1) && *final(cursor) == *old(cursor) - 1
        } else {
            final(text)@ == old(text)@ && *final(cursor) == *old(cursor)
        },
        key == EditKey::Left ==> final(text)@ == old(text)@ && *final(cursor) == if *old(cursor) > 0 {
            *old(cursor) - 1
        } else {
            0
        },
        key == EditKey::Right ==> final(text)@ == old(text)@ && *final(cursor) == if *old(cursor)
            < old(text)@.len() {
            *old(cursor) + 1
        } else {
            *old(cursor) as int
        },
        key matches EditKey::Char(c) ==> final(text)@ == inserted(old(text)@, *old(cursor) as int, c)
            && *final(cursor) == *old(cursor) + 1,
        key == EditKey::Other ==> final(text)@ == old(text)@ && *final(cursor) == *old(cursor),
{
    match key {
        EditKey::Backspace => {
            if delete_char_before(text, *cursor) {
                *cursor = *cursor - 1;
            }
        },
        EditKey::Left => {
            if *cursor > 0 {
                *cursor = *cursor - 1;
            }
        },
        EditKey::Right => {
            let n = chars_of(text.as_str()).len();
            if *cursor < n {
                *cursor = *cursor + 1;
            }
        },
        EditKey::Char(c) => {
            insert_char_at(text, *cursor, c);
            *cursor = *cursor + 1;
        },
        EditKey::Other => {},
    }
}

} // verus!
