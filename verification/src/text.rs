use vstd::prelude::*;

verus! {

broadcast use vstd::string::group_string_axioms;

// ---------------------------------------------------------------------
// Character classes (Unicode properties, as std defines them)
// ---------------------------------------------------------------------

/// Whether a character has the Unicode `White_Space` property, which
/// `char::is_whitespace` reports: tab, line feed, vertical tab, form feed,
/// carriage return, space, next line, no-break space, ogham space mark,
/// the spaces U+2000 to U+200A, line and paragraph separators, narrow
/// no-break space, medium mathematical space and ideographic space.
pub open spec fn char_whitespace(c: char) -> bool {
    let n = c as u32;
    ||| 0x09 <= n <= 0x0d
    ||| n == 0x20
    ||| n == 0x85
    ||| n == 0xa0
    ||| n == 0x1680
    ||| 0x2000 <= n <= 0x200a
    ||| n == 0x2028
    ||| n == 0x2029
    ||| n == 0x202f
    ||| n == 0x205f
    ||| n == 0x3000
}

/// Whether a character is alphabetic or numeric, as
/// `char::is_alphanumeric` reports it.
pub uninterp spec fn char_alphanumeric(c: char) -> bool;

/// The lowercase form of a string, as `str::to_lowercase` produces it.
pub uninterp spec fn lowercase(s: Seq<char>) -> Seq<char>;

/// Whether a character has the Unicode `White_Space` property (what
/// `char::is_whitespace` answers).
pub fn is_whitespace(c: char) -> (r: bool)
    ensures
        r == char_whitespace(c),
{
    let n = c as u32;
    (0x09 <= n && n <= 0x0d) || n == 0x20 || n == 0x85 || n == 0xa0 || n == 0x1680 || (0x2000 <= n && n
        <= 0x200a) || n == 0x2028 || n == 0x2029 || n == 0x202f || n == 0x205f || n == 0x3000
}

/// Calls `char::is_alphanumeric`; its result is the named Unicode property.
#[verifier::external_body]
pub(crate) fn is_alphanumeric(c: char) -> (r: bool)
    ensures
        r == char_alphanumeric(c),
{
    c.is_alphanumeric()
}

/// Only the lowercase ASCII letters `a` to `z`.
pub open spec fn lower_ascii(s: Seq<char>) -> bool {
    forall|i: int| 0 <= i < s.len() ==> 'a' <= #[trigger] s[i] <= 'z'
}

/// Only ASCII characters.
pub open spec fn all_ascii(s: Seq<char>) -> bool {
    forall|i: int| 0 <= i < s.len() ==> (#[trigger] s[i] as u32) < 128
}

/// The lowercase form of an ASCII character: `A` to `Z` become `a` to
/// `z`, every other character stays.
pub open spec fn ascii_lower(c: char) -> char {
    if 'A' <= c <= 'Z' {
        ((c as u32) + 32) as char
    } else {
        c
    }
}

/// Calls `str::to_lowercase`; its result is the named lowercase mapping of
/// the argument. On ASCII text that mapping is the ASCII one: `A` to `Z`
/// become `a` to `z` and every other character stays as it is.
#[verifier::external_body]
pub(crate) fn to_lowercase(s: &str) -> (r: String)
    ensures
        r@ == lowercase(s@),
        all_ascii(s@) ==> r@ == s@.map_values(|c: char| ascii_lower(c)),
{
    s.to_lowercase()
}

/// A text of lowercase ASCII letters is ASCII, and lower-casing it the
/// ASCII way leaves it as it is.
pub proof fn lemma_lower_ascii_stays(s: Seq<char>)
    requires
        lower_ascii(s),
    ensures
        all_ascii(s),
        s.map_values(|c: char| ascii_lower(c)) == s,
{
    assert forall|i: int| 0 <= i < s.len() implies (#[trigger] s[i] as u32) < 128 by {
        assert('a' <= s[i] <= 'z');
    }
    assert forall|i: int| 0 <= i < s.len() implies s.map_values(|c: char| ascii_lower(c))[i] == s[i] by {
        assert('a' <= s[i] <= 'z');
    }
    assert(s.map_values(|c: char| ascii_lower(c)) =~= s);
}

/// Calls `String::push`, which appends one character.
#[verifier::external_body]
pub(crate) fn push_char(s: &mut String, c: char)
    ensures
        final(s)@ == old(s)@.push(c),
{
    s.push(c)
}

/// Removes the last character, if there is one.
pub fn pop_char(s: &mut String)
    ensures
        final(s)@ == if old(s)@.len() > 0 {
            old(s)@.drop_last()
        } else {
            old(s)@
        },
{
    let mut v = chars_of(s.as_str());
    if v.len() > 0 {
        v.pop();
        *s = string_of(&v);
    }
}

/// `char::is_ascii`: the code point is below 128.
pub open spec fn is_ascii_char(c: char) -> bool {
    (c as u32) < 128
}

/// `char::is_ascii_control`: U+0000 to U+001F, or U+007F.
pub open spec fn is_ascii_control_char(c: char) -> bool {
    (c as u32) < 32 || (c as u32) == 127
}

/// Whether a character is an ASCII decimal digit.
pub open spec fn is_digit(c: char) -> bool {
    '0' <= c && c <= '9'
}

/// The value of an ASCII decimal digit.
pub open spec fn digit_value(c: char) -> nat {
    ((c as u32) - ('0' as u32)) as nat
}

// ---------------------------------------------------------------------
// Conversions between strings and character vectors
// ---------------------------------------------------------------------

/// The characters of a string slice, in order.
pub fn chars_of(s: &str) -> (r: Vec<char>)
    ensures
        r@ == s@,
{
    let mut r: Vec<char> = Vec::new();
    for c in it: s.chars()
        invariant
            r@ == it.seq().take(it.index() as int),
    {
        r.push(c);
    }
    r
}

/// Appends characters to a string.
pub fn push_chars(s: &mut String, v: &Vec<char>)
    ensures
        final(s)@ == old(s)@ + v@,
{
    let ghost start = s@;
    let mut i: usize = 0;
    while i < v.len()
        invariant
            i <= v.len(),
            s@ == start + v@.take(i as int),
        decreases v.len() - i,
    {
        push_char(s, v[i]);
        assert(v@.take(i as int + 1) =~= v@.take(i as int).push(v@[i as int]));
        i = i + 1;
    }
    assert(v@.take(v.len() as int) =~= v@);
}

/// A string holding the given characters.
pub fn string_of(v: &Vec<char>) -> (r: String)
    ensures
        r@ == v@,
{
    let mut s = String::new();
    push_chars(&mut s, v);
    assert(Seq::<char>::empty() + v@ =~= v@);
    s
}

/// A string holding the characters of a slice of a vector.
pub fn string_of_range(v: &Vec<char>, lo: usize, hi: usize) -> (r: String)
    requires
        lo <= hi <= v.len(),
    ensures
        r@ == v@.subrange(lo as int, hi as int),
{
    let mut s = String::new();
    let mut i = lo;
    while i < hi
        invariant
            lo <= i <= hi <= v.len(),
            s@ == v@.subrange(lo as int, i as int),
        decreases hi - i,
    {
        push_char(&mut s, v[i]);
        assert(v@.subrange(lo as int, i + 1) =~= v@.subrange(lo as int, i as int).push(v@[i as int]));
        i = i + 1;
    }
    s
}

/// A copy of a string slice as an owned string.
pub fn owned(s: &str) -> (r: String)
    ensures
        r@ == s@,
{
    let v = chars_of(s);
    string_of(&v)
}

/// Compares two character sequences for equality.
pub fn chars_eq(a: &Vec<char>, b_exec: &Vec<char>) -> (r: bool)
    ensures
        r == (a@ == b_exec@),
{
    if a.len() != b_exec.len() {
        return false;
    }
    let mut i: usize = 0;
    while i < a.len()
        invariant
            a.len() == b_exec.len(),
            i <= a.len(),
            forall|j: int| 0 <= j < i ==> a@[j] == b_exec@[j],
        decreases a.len() - i,
    {
        if a[i] != b_exec[i] {
            return false;
        }
        i = i + 1;
    }
    assert(a@ =~= b_exec@);
    true
}

/// Whether a string equals a given character sequence.
pub fn str_is(s: &str, lit: &str) -> (r: bool)
    ensures
        r == (s@ == lit@),
{
    let a = chars_of(s);
    let b = chars_of(lit);
    chars_eq(&a, &b)
}

// ---------------------------------------------------------------------
// Prefixes and suffixes
// ---------------------------------------------------------------------

/// `s` begins with `p`.
pub open spec fn has_prefix(s: Seq<char>, p: Seq<char>) -> bool {
    p.len() <= s.len() && s.subrange(0, p.len() as int) == p
}

/// `s` ends with `p`.
pub open spec fn has_suffix(s: Seq<char>, p: Seq<char>) -> bool {
    p.len() <= s.len() && s.subrange(s.len() - p.len(), s.len() as int) == p
}

/// Whether `s` holds `p` at position `at`.
pub fn matches_at(s: &Vec<char>, at: usize, p: &Vec<char>) -> (r: bool)
    requires
        at <= s.len(),
    ensures
        r == (p.len() <= s.len() - at && s@.subrange(at as int, at + p.len()) == p@),
{
    if p.len() > s.len() - at {
        return false;
    }
    let mut i: usize = 0;
    while i < p.len()
        invariant
            p.len() <= s.len() - at,
            i <= p.len(),
            forall|j: int| 0 <= j < i ==> s@[at + j] == p@[j],
        decreases p.len() - i,
    {
        if s[at + i] != p[i] {
            assert(s@.subrange(at as int, at + p.len())[i as int] != p@[i as int]);
            return false;
        }
        i = i + 1;
    }
    assert(s@.subrange(at as int, at + p.len()) =~= p@);
    true
}

/// Whether `s` begins with `p`.
pub fn starts_with(s: &Vec<char>, p: &Vec<char>) -> (r: bool)
    ensures
        r == has_prefix(s@, p@),
{
    matches_at(s, 0, p)
}

/// Whether `s` ends with `p`.
pub fn ends_with(s: &Vec<char>, p: &Vec<char>) -> (r: bool)
    ensures
        r == has_suffix(s@, p@),
{
    if p.len() > s.len() {
        return false;
    }
    matches_at(s, s.len() - p.len(), p)
}

/// A vector holding `v@.subrange(lo, hi)`.
pub fn slice_vec(v: &Vec<char>, lo: usize, hi: usize) -> (r: Vec<char>)
    requires
        lo <= hi <= v.len(),
    ensures
        r@ == v@.subrange(lo as int, hi as int),
{
    let mut r: Vec<char> = Vec::new();
    let mut i = lo;
    while i < hi
        invariant
            lo <= i <= hi <= v.len(),
            r@ == v@.subrange(lo as int, i as int),
        decreases hi - i,
    {
        r.push(v[i]);
        assert(v@.subrange(lo as int, i + 1) =~= v@.subrange(lo as int, i as int).push(v@[i as int]));
        i = i + 1;
    }
    r
}

// ---------------------------------------------------------------------
// Whitespace: trimming and splitting into words
// ---------------------------------------------------------------------

/// `s` without its leading whitespace.
pub open spec fn trim_start_ws(s: Seq<char>) -> Seq<char>
    decreases s.len(),
{
    if s.len() > 0 && char_whitespace(s[0]) {
        trim_start_ws(s.drop_first())
    } else {
        s
    }
}

/// `s` without its trailing whitespace.
pub open spec fn trim_end_ws(s: Seq<char>) -> Seq<char>
    decreases s.len(),
{
    if s.len() > 0 && char_whitespace(s.last()) {
        trim_end_ws(s.drop_last())
    } else {
        s
    }
}

/// `s` without leading and trailing whitespace (`str::trim`).
pub open spec fn trim_ws(s: Seq<char>) -> Seq<char> {
    trim_end_ws(trim_start_ws(s))
}

/// The number of leading whitespace characters of `s.skip(i)`.
pub fn skip_ws_forward(s: &Vec<char>, i: usize) -> (r: usize)
    requires
        i <= s.len(),
    ensures
        i <= r <= s.len(),
        trim_start_ws(s@.skip(i as int)) == s@.skip(r as int),
{
    let mut k = i;
    while k < s.len() && is_whitespace(s[k])
        invariant
            i <= k <= s.len(),
            trim_start_ws(s@.skip(i as int)) == trim_start_ws(s@.skip(k as int)),
        decreases s.len() - k,
    {
        assert(s@.skip(k as int).drop_first() =~= s@.skip(k + 1));
        k = k + 1;
    }
    k
}

/// The end of `s.take(j)` once its trailing whitespace is removed.
pub fn skip_ws_backward(s: &Vec<char>, lo: usize, j: usize) -> (r: usize)
    requires
        lo <= j <= s.len(),
    ensures
        lo <= r <= j,
        trim_end_ws(s@.subrange(lo as int, j as int)) == s@.subrange(lo as int, r as int),
{
    let mut k = j;
    while k > lo && is_whitespace(s[k - 1])
        invariant
            lo <= k <= j,
            j <= s.len(),
            trim_end_ws(s@.subrange(lo as int, j as int)) == trim_end_ws(s@.subrange(lo as int, k as int)),
        decreases k,
    {
        assert(s@.subrange(lo as int, k as int).drop_last() =~= s@.subrange(lo as int, k - 1));
        k = k - 1;
    }
    k
}

/// `str::trim` on a character vector.
pub fn trim(s: &Vec<char>) -> (r: Vec<char>)
    ensures
        r@ == trim_ws(s@),
{
    let a = skip_ws_forward(s, 0);
    assert(s@.skip(0) =~= s@);
    assert(s@.skip(a as int) =~= s@.subrange(a as int, s.len() as int));
    let b = skip_ws_backward(s, a, s.len());
    slice_vec(s, a, b)
}

/// Words seen so far and the word being read, scanning `s` left to right.
pub open spec fn split_state(s: Seq<char>) -> (Seq<Seq<char>>, Seq<char>)
    decreases s.len(),
{
    if s.len() == 0 {
        (Seq::empty(), Seq::empty())
    } else {
        let (acc, cur) = split_state(s.drop_last());
        let c = s.last();
        if char_whitespace(c) {
            if cur.len() > 0 {
                (acc.push(cur), Seq::empty())
            } else {
                (acc, Seq::empty())
            }
        } else {
            (acc, cur.push(c))
        }
    }
}

/// The maximal runs of non-whitespace characters of `s`, in order
/// (`str::split_whitespace`).
pub open spec fn words(s: Seq<char>) -> Seq<Seq<char>> {
    let (acc, cur) = split_state(s);
    if cur.len() > 0 {
        acc.push(cur)
    } else {
        acc
    }
}

/// The contents of a sequence of character vectors.
pub open spec fn seq_views(v: Seq<Vec<char>>) -> Seq<Seq<char>> {
    v.map_values(|w: Vec<char>| w@)
}

/// Splits a character vector into its whitespace-separated words.
pub fn split_words(s: &Vec<char>) -> (r: Vec<Vec<char>>)
    ensures
        seq_views(r@) == words(s@),
{
    let mut acc: Vec<Vec<char>> = Vec::new();
    let mut cur: Vec<char> = Vec::new();
    let mut i: usize = 0;
    while i < s.len()
        invariant
            i <= s.len(),
            (seq_views(acc@), cur@) == split_state(s@.take(i as int)),
        decreases s.len() - i,
    {
        let c = s[i];
        assert(s@.take(i + 1).drop_last() =~= s@.take(i as int));
        if is_whitespace(c) {
            if cur.len() > 0 {
                let ghost old_acc = seq_views(acc@);
                let w = cur;
                let ghost wv = w@;
                acc.push(w);
                cur = Vec::new();
                assert(seq_views(acc@) =~= old_acc.push(wv));
            }
        } else {
            cur.push(c);
        }
        i = i + 1;
    }
    assert(s@.take(s.len() as int) =~= s@);
    if cur.len() > 0 {
        let ghost old_acc = seq_views(acc@);
        let ghost wv = cur@;
        acc.push(cur);
        assert(seq_views(acc@) =~= old_acc.push(wv));
    }
    acc
}

/// The words joined, with `sep` between consecutive ones.
pub open spec fn join(ws: Seq<Seq<char>>, sep: Seq<char>) -> Seq<char>
    decreases ws.len(),
{
    if ws.len() == 0 {
        Seq::empty()
    } else if ws.len() == 1 {
        ws[0]
    } else {
        join(ws.drop_last(), sep) + sep + ws.last()
    }
}

/// Joins words with a separator into a string.
pub fn join_words(ws: &Vec<Vec<char>>, sep: &Vec<char>) -> (r: String)
    ensures
        r@ == join(seq_views(ws@), sep@),
{
    let mut s = String::new();
    let mut i: usize = 0;
    while i < ws.len()
        invariant
            i <= ws.len(),
            s@ == join(seq_views(ws@).take(i as int), sep@),
        decreases ws.len() - i,
    {
        let ghost before = seq_views(ws@).take(i as int);
        assert(seq_views(ws@).take(i + 1).drop_last() =~= before);
        if i > 0 {
            push_chars(&mut s, sep);
        } else {
            assert(s@ == Seq::<char>::empty());
        }
        push_chars(&mut s, &ws[i]);
        proof {
            let t = seq_views(ws@).take(i + 1);
            assert(t.last() == ws[i as int]@);
            if i == 0 {
                assert(s@ =~= t[0]);
            }
        }
        i = i + 1;
    }
    assert(seq_views(ws@).take(ws.len() as int) =~= seq_views(ws@));
    s
}

// ---------------------------------------------------------------------
// Decimal numbers
// ---------------------------------------------------------------------

/// The ASCII digit for a value below ten.
pub open spec fn digit_char(d: nat) -> char
    recommends
        d < 10,
{
    (d + ('0' as u32)) as char
}

/// The decimal representation of a natural number, without leading zeros.
pub open spec fn decimal(n: nat) -> Seq<char>
    decreases n,
{
    if n < 10 {
        seq![digit_char(n)]
    } else {
        decimal(n / 10).push(digit_char(n % 10))
    }
}

/// The decimal representation of an integer, with a leading `-` when
/// negative (as `Display` writes integers).
pub open spec fn signed_decimal(n: int) -> Seq<char> {
    if n < 0 {
        seq!['-'] + decimal((-n) as nat)
    } else {
        decimal(n as nat)
    }
}

fn digit(d: u64) -> (c: char)
    requires
        d < 10,
    ensures
        c == digit_char(d as nat),
{
    let v: u8 = (d as u8) + 48u8;
    v as char
}

/// Appends the decimal representation of `n`.
pub fn push_decimal(s: &mut String, n: u64)
    ensures
        final(s)@ == old(s)@ + decimal(n as nat),
    decreases n,
{
    if n >= 10 {
        push_decimal(s, n / 10);
    }
    let c = digit(n % 10);
    let ghost mid = s@;
    push_char(s, c);
    proof {
        if n >= 10 {
            assert(s@ =~= old(s)@ + decimal(n as nat));
        } else {
            assert(s@ =~= old(s)@ + decimal(n as nat));
        }
    }
}

/// Appends the decimal representation of a signed integer.
pub fn push_signed_decimal(s: &mut String, n: i64)
    ensures
        final(s)@ == old(s)@ + signed_decimal(n as int),
{
    if n < 0 {
        push_char(s, '-');
        let m: u64 = if n == i64::MIN {
            9223372036854775808u64
        } else {
            (-n) as u64
        };
        push_decimal(s, m);
        assert(s@ =~= old(s)@ + signed_decimal(n as int));
    } else {
        push_decimal(s, n as u64);
    }
}

/// The value of a string of decimal digits.
pub open spec fn digits_value(s: Seq<char>) -> nat
    decreases s.len(),
{
    if s.len() == 0 {
        0
    } else {
        digits_value(s.drop_last()) * 10 + digit_value(s.last())
    }
}

/// All characters are ASCII digits.
pub open spec fn all_digits(s: Seq<char>) -> bool {
    forall|i: int| 0 <= i < s.len() ==> is_digit(#[trigger] s[i])
}

/// The digits of an unsigned number as `str::parse` reads them: an optional
/// `+`, then at least one ASCII digit and nothing else.
pub open spec fn unsigned_body(s: Seq<char>) -> Seq<char> {
    if s.len() > 0 && s[0] == '+' {
        s.drop_first()
    } else {
        s
    }
}

/// The value `str::parse` gives an unsigned integer type, before the check
/// that it fits the type.
pub open spec fn parse_unsigned(s: Seq<char>) -> Option<nat> {
    let b = unsigned_body(s);
    if b.len() > 0 && all_digits(b) {
        Some(digits_value(b))
    } else {
        None
    }
}

/// The value `str::parse` gives a signed integer type (an optional `+` or
/// `-`, then digits), before the check that it fits the type.
pub open spec fn parse_signed(s: Seq<char>) -> Option<int> {
    if s.len() > 0 && s[0] == '-' {
        let b = s.drop_first();
        if b.len() > 0 && all_digits(b) {
            Some(-(digits_value(b) as int))
        } else {
            None
        }
    } else {
        match parse_unsigned(s) {
            Some(v) => Some(v as int),
            None => None,
        }
    }
}

proof fn lemma_digits_value_monotone(s: Seq<char>, k: int)
    requires
        0 <= k <= s.len(),
        all_digits(s),
    ensures
        digits_value(s.take(k)) <= digits_value(s),
    decreases s.len(),
{
    if k < s.len() {
        assert(s.drop_last().take(k) =~= s.take(k));
        assert(all_digits(s.drop_last()));
        lemma_digits_value_monotone(s.drop_last(), k);
    } else {
        assert(s.take(k) =~= s);
    }
}

/// Reads digits `s[lo..hi]`, giving `None` when the value exceeds `max`.
fn read_digits(s: &Vec<char>, lo: usize, max: u64) -> (r: Option<u64>)
    requires
        lo <= s.len(),
        all_digits(s@.skip(lo as int)),
    ensures
        r matches Some(v) ==> v == digits_value(s@.skip(lo as int)) && v <= max,
        r is None ==> digits_value(s@.skip(lo as int)) > max,
{
    let ghost body = s@.skip(lo as int);
    let mut v: u64 = 0;
    let mut i = lo;
    while i < s.len()
        invariant
            lo <= i <= s.len(),
            body == s@.skip(lo as int),
            all_digits(body),
            v == digits_value(body.take(i - lo)),
            v <= max,
        decreases s.len() - i,
    {
        assert(body.take(i - lo + 1).drop_last() =~= body.take(i - lo));
        assert(is_digit(body[i - lo]));
        let d = (s[i] as u32 - '0' as u32) as u64;
        if d > max || v > (max - d) / 10 {
            proof {
                assert(digits_value(body.take(i - lo + 1)) == v * 10 + d);
                assert(v * 10 + d > max) by (nonlinear_arith)
                    requires d > max || v > (max - d) / 10, d <= 9;
                lemma_digits_value_monotone(body, i - lo + 1);
            }
            return None;
        }
        proof {
            assert(v * 10 + d <= max) by (nonlinear_arith)
                requires v <= (max - d) / 10, d <= 9;
        }
        v = v * 10 + d;
        i = i + 1;
    }
    assert(body.take(s.len() - lo) =~= body);
    Some(v)
}

} // verus!

verus! {

// ---------------------------------------------------------------------
// Searching
// ---------------------------------------------------------------------

/// `p` occurs in `s` at position `i`.
pub open spec fn occurs_at(s: Seq<char>, p: Seq<char>, i: int) -> bool {
    0 <= i && i + p.len() <= s.len() && s.subrange(i, i + p.len()) == p
}

/// The first position at or after `i` where `p` occurs in `s`.
pub open spec fn find_from(s: Seq<char>, p: Seq<char>, i: int) -> Option<int>
    decreases s.len() + 1 - i,
{
    if i < 0 || i + p.len() > s.len() {
        None
    } else if occurs_at(s, p, i) {
        Some(i)
    } else {
        find_from(s, p, i + 1)
    }
}

/// The first position where `p` occurs in `s` (`str::find`, counted in
/// characters).
pub open spec fn find(s: Seq<char>, p: Seq<char>) -> Option<int> {
    find_from(s, p, 0)
}

/// Finds the first occurrence of `p` in `s`.
pub fn find_chars(s: &Vec<char>, p: &Vec<char>) -> (r: Option<usize>)
    ensures
        r matches Some(i) ==> find(s@, p@) == Some(i as int),
        r is None ==> find(s@, p@) is None,
{
    let mut i: usize = 0;
    while i <= s.len() && p.len() <= s.len() - i
        invariant
            find(s@, p@) == find_from(s@, p@, i as int),
        decreases s.len() + 1 - i,
    {
        if matches_at(s, i, p) {
            return Some(i);
        }
        if i == s.len() {
            assert(s@.subrange(i as int, i as int) =~= p@);
            return None;
        }
        i = i + 1;
    }
    None
}

/// The first position at or after `i` holding whitespace, or the length.
pub open spec fn first_ws_from(s: Seq<char>, i: int) -> int
    decreases s.len() - i,
{
    if i < 0 || i >= s.len() {
        s.len() as int
    } else if char_whitespace(s[i]) {
        i
    } else {
        first_ws_from(s, i + 1)
    }
}

/// Finds the first whitespace at or after `i`.
pub fn find_ws_from(s: &Vec<char>, i: usize) -> (r: usize)
    requires
        i <= s.len(),
    ensures
        r == first_ws_from(s@, i as int),
        i <= r <= s.len(),
{
    let mut k = i;
    while k < s.len() && !is_whitespace(s[k])
        invariant
            i <= k <= s.len(),
            first_ws_from(s@, i as int) == first_ws_from(s@, k as int),
        decreases s.len() - k,
    {
        k = k + 1;
    }
    k
}

} // verus!

verus! {

/// `str::parse` for an unsigned type whose largest value is `max`.
pub open spec fn parse_unsigned_max(s: Seq<char>, max: nat) -> Option<nat> {
    match parse_unsigned(s) {
        Some(v) => if v <= max {
            Some(v)
        } else {
            None
        },
        None => None,
    }
}

/// `str::parse::<i64>`.
pub open spec fn parse_i64_spec(s: Seq<char>) -> Option<int> {
    match parse_signed(s) {
        Some(v) => if i64::MIN <= v <= i64::MAX {
            Some(v)
        } else {
            None
        },
        None => None,
    }
}

fn all_digits_from(s: &Vec<char>, lo: usize) -> (r: bool)
    requires
        lo <= s.len(),
    ensures
        r == all_digits(s@.skip(lo as int)),
{
    let mut i = lo;
    while i < s.len()
        invariant
            lo <= i <= s.len(),
            forall|j: int| lo <= j < i ==> is_digit(#[trigger] s@[j]),
        decreases s.len() - i,
    {
        if !('0' <= s[i] && s[i] <= '9') {
            assert(s@.skip(lo as int)[i - lo] == s@[i as int]);
            return false;
        }
        i = i + 1;
    }
    assert forall|j: int| 0 <= j < s@.skip(lo as int).len() implies is_digit(
        #[trigger] s@.skip(lo as int)[j],
    ) by {
        assert(s@.skip(lo as int)[j] == s@[lo + j]);
    }
    true
}

/// Parses an unsigned decimal number no larger than `max`, as `str::parse`
/// does for unsigned integer types.
pub fn parse_uint(s: &Vec<char>, max: u64) -> (r: Option<u64>)
    ensures
        r matches Some(v) ==> parse_unsigned_max(s@, max as nat) == Some(v as nat),
        r is None ==> parse_unsigned_max(s@, max as nat) is None,
{
    let lo: usize = if s.len() > 0 && s[0] == '+' {
        1
    } else {
        0
    };
    assert(unsigned_body(s@) =~= s@.skip(lo as int));
    if lo == s.len() {
        return None;
    }
    if !all_digits_from(s, lo) {
        return None;
    }
    read_digits(s, lo, max)
}

/// Parses a signed decimal number, as `str::parse::<i64>` does.
pub fn parse_i64(s: &Vec<char>) -> (r: Option<i64>)
    ensures
        r matches Some(v) ==> parse_i64_spec(s@) == Some(v as int),
        r is None ==> parse_i64_spec(s@) is None,
{
    if s.len() > 0 && s[0] == '-' {
        assert(s@.drop_first() =~= s@.skip(1));
        if s.len() == 1 || !all_digits_from(s, 1) {
            return None;
        }
        match read_digits(s, 1, 9223372036854775808u64) {
            Some(v) => {
                if v == 9223372036854775808u64 {
                    Some(i64::MIN)
                } else {
                    Some(-(v as i64))
                }
            },
            None => None,
        }
    } else {
        match parse_uint(s, 9223372036854775807u64) {
            Some(v) => Some(v as i64),
            None => None,
        }
    }
}

/// `s` with every `from` replaced by `to`.
pub open spec fn replace_char(s: Seq<char>, from: char, to: char) -> Seq<char> {
    s.map_values(|c: char| if c == from { to } else { c })
}

/// Replaces every `from` by `to`.
pub fn replace_chars(s: &Vec<char>, from: char, to: char) -> (r: Vec<char>)
    ensures
        r@ == replace_char(s@, from, to),
{
    let mut r: Vec<char> = Vec::new();
    let mut i: usize = 0;
    while i < s.len()
        invariant
            i <= s.len(),
            r@ == replace_char(s@.take(i as int), from, to),
        decreases s.len() - i,
    {
        let c = if s[i] == from {
            to
        } else {
            s[i]
        };
        r.push(c);
        assert(replace_char(s@.take(i + 1), from, to) =~= replace_char(s@.take(i as int), from, to).push(c));
        i = i + 1;
    }
    assert(s@.take(s.len() as int) =~= s@);
    r
}

} // verus!

verus! {

proof fn lemma_find_from_in_bounds(s: Seq<char>, p: Seq<char>, i: int)
    ensures
        find_from(s, p, i) matches Some(k) ==> 0 <= k && k + p.len() <= s.len(),
    decreases s.len() + 1 - i,
{
    if !(i < 0 || i + p.len() > s.len()) && !occurs_at(s, p, i) {
        lemma_find_from_in_bounds(s, p, i + 1);
    }
}

/// A found position lies within the text.
pub proof fn lemma_find_in_bounds(s: Seq<char>, p: Seq<char>)
    ensures
        find(s, p) matches Some(k) ==> 0 <= k && k + p.len() <= s.len(),
{
    lemma_find_from_in_bounds(s, p, 0);
}


/// A word: non-empty and without whitespace.
pub open spec fn is_word(w: Seq<char>) -> bool {
    w.len() > 0 && forall|i: int| 0 <= i < w.len() ==> !char_whitespace(#[trigger] w[i])
}

proof fn lemma_split_state_word(s: Seq<char>, t: Seq<char>)
    requires
        forall|i: int| 0 <= i < t.len() ==> !char_whitespace(#[trigger] t[i]),
    ensures
        split_state(s + t) == (split_state(s).0, split_state(s).1 + t),
    decreases t.len(),
{
    if t.len() == 0 {
        assert(s + t =~= s);
        assert(split_state(s).1 + t =~= split_state(s).1);
    } else {
        let u = t.drop_last();
        lemma_split_state_word(s, u);
        assert((s + t).drop_last() =~= s + u);
        assert((s + t).last() == t.last());
        assert(!char_whitespace(t[t.len() - 1]));
        assert((split_state(s).1 + u).push(t.last()) =~= split_state(s).1 + t);
    }
}

proof fn lemma_split_state_join(ws: Seq<Seq<char>>)
    requires
        ws.len() > 0,
        forall|k: int| 0 <= k < ws.len() ==> is_word(#[trigger] ws[k]),
    ensures
        split_state(join(ws, seq![' '])) == (ws.drop_last(), ws.last()),
    decreases ws.len(),
{
    if ws.len() == 1 {
        lemma_split_state_word(Seq::empty(), ws[0]);
        assert(Seq::<char>::empty() + ws[0] =~= ws[0]);
        assert(Seq::<char>::empty() + ws[0] =~= ws[0]);
        assert(ws.drop_last() =~= Seq::<Seq<char>>::empty());
    } else {
        let d = ws.drop_last();
        assert(forall|k: int| 0 <= k < d.len() ==> d[k] == ws[k]);
        lemma_split_state_join(d);
        let j = join(d, seq![' ']);
        let js = j + seq![' '];
        assert(js.drop_last() =~= j);
        assert(js.last() == ' ');
        assert(char_whitespace(' '));
        assert(is_word(d.last()));
        assert(d.drop_last().push(d.last()) =~= d);
        assert(split_state(js) == (d, Seq::<char>::empty()));
        assert(ws[ws.len() - 1] == ws.last());
        lemma_split_state_word(js, ws.last());
        assert(Seq::<char>::empty() + ws.last() =~= ws.last());
    }
}

/// Splitting words joined by single spaces gives back the words.
pub proof fn lemma_words_of_join(ws: Seq<Seq<char>>)
    requires
        forall|k: int| 0 <= k < ws.len() ==> is_word(#[trigger] ws[k]),
    ensures
        words(join(ws, seq![' '])) == ws,
{
    if ws.len() > 0 {
        lemma_split_state_join(ws);
        assert(ws.drop_last().push(ws.last()) =~= ws);
    } else {
        assert(join(ws, seq![' ']) =~= Seq::<char>::empty());
        assert(words(Seq::<char>::empty()) =~= ws);
    }
}

proof fn lemma_split_state_words(s: Seq<char>)
    ensures
        forall|k: int| 0 <= k < split_state(s).0.len() ==> is_word(#[trigger] split_state(s).0[k]),
        forall|i: int| 0 <= i < split_state(s).1.len() ==> !char_whitespace(#[trigger] split_state(s).1[i]),
    decreases s.len(),
{
    if s.len() > 0 {
        lemma_split_state_words(s.drop_last());
        let (acc, cur) = split_state(s.drop_last());
        let c = s.last();
        if char_whitespace(c) {
            if cur.len() > 0 {
                assert(is_word(cur));
                assert forall|k: int| 0 <= k < acc.push(cur).len() implies is_word(#[trigger] acc.push(cur)[k]) by {
                    if k < acc.len() {
                        assert(acc.push(cur)[k] == acc[k]);
                    }
                }
            }
        } else {
            assert forall|i: int| 0 <= i < cur.push(c).len() implies !char_whitespace(#[trigger] cur.push(c)[i]) by {
                if i < cur.len() {
                    assert(cur.push(c)[i] == cur[i]);
                }
            }
        }
    }
}

/// The words of a text are words: non-empty, without whitespace.
pub proof fn lemma_words_are_words(s: Seq<char>)
    ensures
        forall|k: int| 0 <= k < words(s).len() ==> is_word(#[trigger] words(s)[k]),
{
    lemma_split_state_words(s);
}


/// A text of lowercase ASCII letters reads as no number.
pub proof fn lemma_letters_no_number(s: Seq<char>)
    requires
        lower_ascii(s),
    ensures
        parse_unsigned(s) is None,
        parse_signed(s) is None,
{
    if s.len() > 0 {
        assert('a' <= s[0] <= 'z');
        assert(!is_digit(s[0]));
        assert(unsigned_body(s) == s);
        assert(!all_digits(s));
    }
}

/// A text of lowercase ASCII letters has no surrounding whitespace.
pub proof fn lemma_letters_trimmed(s: Seq<char>)
    requires
        lower_ascii(s),
    ensures
        trim_ws(s) == s,
{
    if s.len() > 0 {
        assert('a' <= s[0] <= 'z');
        assert(!char_whitespace(s[0]));
        assert(trim_start_ws(s) == s);
        assert('a' <= s[s.len() - 1] <= 'z');
        assert(!char_whitespace(s.last()));
    }
}


/// The decimal representation of a number is a non-empty run of digits
/// whose value is the number.
pub proof fn lemma_decimal_digits(n: nat)
    ensures
        decimal(n).len() > 0,
        all_digits(decimal(n)),
        digits_value(decimal(n)) == n,
    decreases n,
{
    if n < 10 {
        let c = digit_char(n);
        assert(('0' as u32) == 48);
        assert((c as u32) == n + 48);
        assert(digit_value(c) == n);
        assert(decimal(n).drop_last() =~= Seq::<char>::empty());
        assert(decimal(n).last() == c);
        assert(digits_value(Seq::<char>::empty()) == 0);
        assert(digits_value(decimal(n)) == digits_value(decimal(n).drop_last()) * 10 + digit_value(c));
        assert(is_digit(decimal(n)[0]));
    } else {
        lemma_decimal_digits(n / 10);
        let c = digit_char(n % 10);
        assert(('0' as u32) == 48);
        assert((c as u32) == n % 10 + 48);
        assert(digit_value(c) == n % 10);
        let d = decimal(n);
        assert(d.drop_last() =~= decimal(n / 10));
        assert(d.last() == c);
        assert(digits_value(d) == digits_value(decimal(n / 10)) * 10 + digit_value(c));
        assert((n / 10) * 10 + n % 10 == n);
        assert forall|i: int| 0 <= i < d.len() implies is_digit(#[trigger] d[i]) by {
            if i < d.len() - 1 {
                assert(d[i] == decimal(n / 10)[i]);
            }
        }
    }
}

/// `str::parse` reads a number's decimal representation back as the
/// number.
pub proof fn lemma_parse_decimal(n: nat)
    ensures
        parse_unsigned(decimal(n)) == Some(n),
{
    lemma_decimal_digits(n);
    assert(is_digit(decimal(n)[0]));
    assert(decimal(n)[0] != '+');
    assert(unsigned_body(decimal(n)) == decimal(n));
}

/// A number's decimal representation is a word.
pub proof fn lemma_decimal_is_word(n: nat)
    ensures
        is_word(decimal(n)),
{
    lemma_decimal_digits(n);
    assert forall|i: int| 0 <= i < decimal(n).len() implies !char_whitespace(#[trigger] decimal(n)[i]) by {
        assert(is_digit(decimal(n)[i]));
    }
}

proof fn lemma_split_state_prefix(s: Seq<char>, t: Seq<char>)
    ensures
        split_state(s).0.len() <= split_state(s + t).0.len(),
        split_state(s + t).0.take(split_state(s).0.len() as int) == split_state(s).0,
    decreases t.len(),
{
    if t.len() == 0 {
        assert(s + t =~= s);
        assert(split_state(s).0.take(split_state(s).0.len() as int) =~= split_state(s).0);
    } else {
        let u = t.drop_last();
        lemma_split_state_prefix(s, u);
        assert((s + t).drop_last() =~= s + u);
        let a = split_state(s + u).0;
        let k = split_state(s).0.len() as int;
        assert(a.push(split_state(s + u).1).take(k) =~= a.take(k));
    }
}

/// The first word of a text that begins with a word and a space is that
/// word.
pub proof fn lemma_first_word(w: Seq<char>, rest: Seq<char>)
    requires
        is_word(w),
    ensures
        words(w + seq![' '] + rest).len() > 0,
        words(w + seq![' '] + rest)[0] == w,
{
    lemma_split_state_word(Seq::empty(), w);
    assert(Seq::<char>::empty() + w =~= w);
    let p = w + seq![' '];
    assert(p.drop_last() =~= w);
    assert(p.last() == ' ');
    assert(char_whitespace(' '));
    assert(split_state(p).0 =~= seq![w]);
    lemma_split_state_prefix(p, rest);
    let full = split_state(p + rest).0;
    assert(full.take(1)[0] == full[0]);
    assert(w + seq![' '] + rest =~= p + rest);
}

} // verus!
