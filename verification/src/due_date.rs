//! Natural-language due dates and their labels.
use vstd::prelude::*;
use crate::cal::{
    day_of_civil, from_civil, iso_week_number, week_of,
    add_days, civil, civil_date, day_in_range, format_date, formatted_date, iso_week_monday,
    monday_of_iso_week, parse_date, parsed_date, plus_days, weekday, weekday_of, MAX_DAY,
};
use crate::text::{
    chars_eq, chars_of, decimal, has_prefix, has_suffix, owned, parse_i64, parse_i64_spec,
    parse_uint, parse_unsigned_max, push_char, push_chars, push_decimal, push_signed_decimal,
    replace_char, replace_chars, signed_decimal, slice_vec, starts_with, ends_with, string_of,
    to_lowercase, lowercase, trim, trim_ws, lower_ascii, lemma_letters_no_number, lemma_letters_trimmed,
    parse_unsigned, parse_signed,
};

verus! {

/// The weekday a name stands for (Monday = 0): `mon`/`monday` and so on.
pub open spec fn weekday_name(s: Seq<char>) -> Option<int> {
    if s == "mon"@ || s == "monday"@ {
        Some(0)
    } else if s == "tue"@ || s == "tuesday"@ {
        Some(1)
    } else if s == "wed"@ || s == "wednesday"@ {
        Some(2)
    } else if s == "thu"@ || s == "thursday"@ {
        Some(3)
    } else if s == "fri"@ || s == "friday"@ {
        Some(4)
    } else if s == "sat"@ || s == "saturday"@ {
        Some(5)
    } else if s == "sun"@ || s == "sunday"@ {
        Some(6)
    } else {
        None
    }
}

fn is_word(s: &Vec<char>, lit: &str) -> (r: bool)
    ensures
        r == (s@ == lit@),
{
    let l = chars_of(lit);
    chars_eq(s, &l)
}

/// Reads a weekday name.
pub fn parse_weekday(s: &Vec<char>) -> (r: Option<u32>)
    ensures
        r matches Some(w) ==> weekday_name(s@) == Some(w as int),
        r is None ==> weekday_name(s@) is None,
{
    if is_word(s, "mon") || is_word(s, "monday") {
        Some(0)
    } else if is_word(s, "tue") || is_word(s, "tuesday") {
        Some(1)
    } else if is_word(s, "wed") || is_word(s, "wednesday") {
        Some(2)
    } else if is_word(s, "thu") || is_word(s, "thursday") {
        Some(3)
    } else if is_word(s, "fri") || is_word(s, "friday") {
        Some(4)
    } else if is_word(s, "sat") || is_word(s, "saturday") {
        Some(5)
    } else if is_word(s, "sun") || is_word(s, "sunday") {
        Some(6)
    } else {
        None
    }
}

/// The first working day (Monday to Friday) after `d`.
pub open spec fn next_working_day(d: int) -> int {
    if weekday(d + 1) < 5 {
        d + 1
    } else if weekday(d + 2) < 5 {
        d + 2
    } else {
        d + 3
    }
}

/// The `n`-th working day after `d`.
pub open spec fn working_days_after(d: int, n: nat) -> int
    decreases n,
{
    if n == 0 {
        d
    } else {
        working_days_after(next_working_day(d), (n - 1) as nat)
    }
}

proof fn lemma_working_days_after_grows(d: int, n: nat)
    ensures
        working_days_after(d, n) >= d,
        n > 0 ==> working_days_after(d, n) >= next_working_day(d),
    decreases n,
{
    if n > 0 {
        lemma_working_days_after_grows(next_working_day(d), (n - 1) as nat);
    }
}

/// What a due-date input means.
pub ghost enum DueSpec {
    /// Remove the due date.
    Clear,
    /// Set it to this day.
    Day(int),
    /// The input is not understood; the message to show.
    Error(Seq<char>),
    /// The input names a day beyond the calendar's range.
    OutOfRange,
}

/// The outcome of reading a due-date input.
pub enum DueParse {
    Clear,
    Date(i32),
    Error(String),
    /// The date would be outside the calendar's range.
    OutOfRange,
}

/// The spec outcome of a parse result.
pub open spec fn due_parse_view(r: DueParse) -> DueSpec {
    match r {
        DueParse::Clear => DueSpec::Clear,
        DueParse::Date(d) => DueSpec::Day(d as int),
        DueParse::Error(m) => DueSpec::Error(m@),
        DueParse::OutOfRange => DueSpec::OutOfRange,
    }
}

/// A day offset from today, or out of range.
pub open spec fn day_or_range(r: Option<int>) -> DueSpec {
    match r {
        Some(d) => DueSpec::Day(d),
        None => DueSpec::OutOfRange,
    }
}

/// Days from weekday `from` to the next weekday `to`, 1 to 7 (a week when
/// they are the same).
pub open spec fn days_until_weekday(from: int, to: int) -> int {
    let d = (to - from) % 7;
    if d == 0 {
        7
    } else {
        d
    }
}

/// The week number an input names: `W16`, `w16` (after `w`) or `16w`.
pub open spec fn week_number(lower: Seq<char>) -> Option<nat> {
    if has_prefix(lower, seq!['w']) {
        parse_unsigned_max(lower.skip(1), u32::MAX as nat)
    } else if has_suffix(lower, seq!['w']) {
        parse_unsigned_max(lower.take(lower.len() - 1), u32::MAX as nat)
    } else {
        None
    }
}

/// The Monday of ISO week `week`, in the current year when that is not
/// before today, else in the next year.
pub open spec fn week_outcome(today: i32, week: nat) -> DueSpec {
    let year = civil_date(today).0;
    let this_year = iso_week_monday(year, week as u32);
    let chosen = match this_year {
        Some(d) => if d >= today {
            Some(d)
        } else {
            iso_week_monday((year + 1) as i32, week as u32)
        },
        None => iso_week_monday((year + 1) as i32, week as u32),
    };
    match chosen {
        Some(d) => DueSpec::Day(d as int),
        None => DueSpec::Error("Invalid work week: "@ + decimal(week)),
    }
}

/// The error for input that is not understood.
pub open spec fn unparsable_message(s: Seq<char>) -> Seq<char> {
    "Can't parse: '"@ + s + "'. Try: 3d, 3wd, fri, eow, W16, 16w, 20-04-2026"@
}

/// The meaning of the date-like forms: `DD-MM-YYYY` (or with dots),
/// `DD-MM` in the current year, `YYYY-MM-DD`.
pub open spec fn dated_outcome(lower: Seq<char>, s: Seq<char>, today: i32) -> DueSpec {
    let normalized = replace_char(lower, '.', '-');
    let year = civil_date(today).0;
    let with_year = normalized + seq!['-'] + signed_decimal(year as int);
    if parsed_date(normalized, "%d-%m-%Y"@) is Some {
        DueSpec::Day(parsed_date(normalized, "%d-%m-%Y"@)->0 as int)
    } else if parsed_date(with_year, "%d-%m-%Y"@) is Some {
        DueSpec::Day(parsed_date(with_year, "%d-%m-%Y"@)->0 as int)
    } else if parsed_date(lower, "%Y-%m-%d"@) is Some {
        DueSpec::Day(parsed_date(lower, "%Y-%m-%d"@)->0 as int)
    } else {
        DueSpec::Error(unparsable_message(s))
    }
}

/// The meaning of a due-date input, given today's day. The forms are
/// tried in this order, on the trimmed input in lower case: empty (clear);
/// `today`/`t`; `tomorrow`/`tom`; `eow` (the next Friday, a week ahead on
/// Fridays); `Nwd` (N working days ahead); `Nd` (N days ahead, or back when
/// negative); a week number; `next <weekday>` (that weekday in the
/// following Monday-to-Sunday week); a weekday (its next occurrence, never
/// today); then
/// [`dated_outcome`].
pub open spec fn due_outcome(input: Seq<char>, today: i32) -> DueSpec {
    let s = trim_ws(input);
    let lower = lowercase(s);
    let t = today as int;
    if s.len() == 0 {
        DueSpec::Clear
    } else if lower == "today"@ || lower == "t"@ {
        DueSpec::Day(t)
    } else if lower == "tomorrow"@ || lower == "tom"@ {
        day_or_range(add_days(t, 1))
    } else if lower == "eow"@ {
        day_or_range(add_days(t, days_until_weekday(weekday(t), 4)))
    } else if has_suffix(lower, seq!['w', 'd']) && parse_unsigned_max(
        lower.take(lower.len() - 2),
        u32::MAX as nat,
    ) is Some {
        let n = parse_unsigned_max(lower.take(lower.len() - 2), u32::MAX as nat)->0;
        let d = working_days_after(t, n);
        if d <= MAX_DAY {
            DueSpec::Day(d)
        } else {
            DueSpec::OutOfRange
        }
    } else if has_suffix(lower, seq!['d']) && parse_i64_spec(lower.take(lower.len() - 1)) is Some {
        day_or_range(add_days(t, parse_i64_spec(lower.take(lower.len() - 1))->0))
    } else if week_number(lower) is Some && 1 <= week_number(lower)->0 <= 53 {
        week_outcome(today, week_number(lower)->0)
    } else if has_prefix(lower, seq!['n', 'e', 'x', 't', ' ']) && weekday_name(lower.skip(5))
        is Some {
        day_or_range(
            add_days(t, 7 - weekday(t) + weekday_name(lower.skip(5))->0),
        )
    } else if weekday_name(lower) is Some {
        day_or_range(add_days(t, days_until_weekday(weekday(t), weekday_name(lower)->0)))
    } else {
        dated_outcome(lower, s, today)
    }
}

fn days_until(from: u32, to: u32) -> (r: i64)
    requires
        from < 7,
        to < 7,
    ensures
        r == days_until_weekday(from as int, to as int),
        1 <= r <= 7,
{
    let d: i64 = ((to as i64) - (from as i64) + 7) % 7;
    if d == 0 {
        7
    } else {
        d
    }
}

fn offset(today: i32, n: i64) -> (r: DueParse)
    requires
        day_in_range(today as int),
    ensures
        due_parse_view(r) == day_or_range(add_days(today as int, n as int)),
        r matches DueParse::Date(d) ==> day_in_range(d as int),
{
    match plus_days(today, n) {
        Some(d) => DueParse::Date(d),
        None => DueParse::OutOfRange,
    }
}

fn working_days(today: i32, n: u32) -> (r: DueParse)
    requires
        day_in_range(today as int),
    ensures
        due_parse_view(r) == (if working_days_after(today as int, n as nat) <= MAX_DAY {
            DueSpec::Day(working_days_after(today as int, n as nat))
        } else {
            DueSpec::OutOfRange
        }),
        r matches DueParse::Date(d) ==> day_in_range(d as int),
{
    let mut date = today;
    let mut remaining = n;
    while remaining > 0
        invariant
            day_in_range(date as int),
            working_days_after(today as int, n as nat) == working_days_after(
                date as int,
                remaining as nat,
            ),
        decreases remaining,
    {
        let w1 = weekday_of(date + 1);
        let w2 = weekday_of(date + 2);
        let next = if w1 < 5 {
            date + 1
        } else if w2 < 5 {
            date + 2
        } else {
            date + 3
        };
        if next > MAX_DAY {
            proof {
                lemma_working_days_after_grows(date as int, remaining as nat);
            }
            return DueParse::OutOfRange;
        }
        date = next;
        remaining = remaining - 1;
    }
    DueParse::Date(date)
}

fn week_parse(today: i32, week: u32) -> (r: DueParse)
    requires
        day_in_range(today as int),
    ensures
        due_parse_view(r) == week_outcome(today, week as nat),
        r matches DueParse::Date(d) ==> day_in_range(d as int),
{
    let (year, _, _) = civil(today);
    let this_year = monday_of_iso_week(year, week);
    let chosen = match this_year {
        Some(d) => if d >= today {
            Some(d)
        } else {
            monday_of_iso_week(year + 1, week)
        },
        None => monday_of_iso_week(year + 1, week),
    };
    match chosen {
        Some(d) => DueParse::Date(d),
        None => {
            let mut m = owned("Invalid work week: ");
            push_decimal(&mut m, week as u64);
            DueParse::Error(m)
        },
    }
}

fn unparsable(s: &Vec<char>) -> (r: String)
    ensures
        r@ == unparsable_message(s@),
{
    let mut m = owned("Can't parse: '");
    push_chars(&mut m, s);
    let tail = chars_of("'. Try: 3d, 3wd, fri, eow, W16, 16w, 20-04-2026");
    push_chars(&mut m, &tail);
    m
}

fn dated(lower: &Vec<char>, s: &Vec<char>, today: i32) -> (r: DueParse)
    requires
        day_in_range(today as int),
    ensures
        due_parse_view(r) == dated_outcome(lower@, s@, today),
        r matches DueParse::Date(d) ==> day_in_range(d as int),
{
    let normalized = replace_chars(lower, '.', '-');
    let nstr = string_of(&normalized);
    if let Some(d) = parse_date(nstr.as_str(), "%d-%m-%Y") {
        return DueParse::Date(d);
    }
    let (year, _, _) = civil(today);
    let mut with_year = string_of(&normalized);
    push_char(&mut with_year, '-');
    push_signed_decimal(&mut with_year, year as i64);
    assert(with_year@ =~= normalized@ + seq!['-'] + signed_decimal(year as int));
    if let Some(d) = parse_date(with_year.as_str(), "%d-%m-%Y") {
        return DueParse::Date(d);
    }
    let lstr = string_of(lower);
    if let Some(d) = parse_date(lstr.as_str(), "%Y-%m-%d") {
        return DueParse::Date(d);
    }
    DueParse::Error(unparsable(s))
}

proof fn lemma_weekday_input(input: Seq<char>, today: i32)
    requires
        lower_ascii(input),
        lowercase(input) == input,
        weekday_name(input) is Some,
    ensures
        due_outcome(input, today) == day_or_range(
            add_days(today as int, days_until_weekday(weekday(today as int), weekday_name(input)->0)),
        ),
{
    reveal_strlit("mon");
    reveal_strlit("monday");
    reveal_strlit("tue");
    reveal_strlit("tuesday");
    reveal_strlit("wed");
    reveal_strlit("wednesday");
    reveal_strlit("thu");
    reveal_strlit("thursday");
    reveal_strlit("fri");
    reveal_strlit("friday");
    reveal_strlit("sat");
    reveal_strlit("saturday");
    reveal_strlit("sun");
    reveal_strlit("sunday");
    reveal_strlit("today");
    reveal_strlit("t");
    reveal_strlit("tomorrow");
    reveal_strlit("tom");
    reveal_strlit("eow");
    lemma_letters_trimmed(input);
    let n = input.len();
    assert(n >= 3);
    assert(lower_ascii(input.take(n - 2)));
    lemma_letters_no_number(input.take(n - 2));
    assert(lower_ascii(input.take(n - 1)));
    lemma_letters_no_number(input.take(n - 1));
    assert(lower_ascii(input.skip(1)));
    lemma_letters_no_number(input.skip(1));
    assert(week_number(input) is None);
    if n >= 5 {
        assert('a' <= input[4] <= 'z');
        assert(input.subrange(0, 5)[4] == input[4]);
        assert(seq!['n', 'e', 'x', 't', ' '][4] == ' ');
    }
    assert(!has_prefix(input, seq!['n', 'e', 'x', 't', ' ']));
}

/// A weekday name typed as is (lowercase letters, e.g. `fri`) lands on the
/// next such weekday: 1 to 7 days ahead, never today.
pub open spec fn weekday_input_lands(input: Seq<char>, today: i32, r: DueSpec) -> bool {
    lower_ascii(input) && weekday_name(input) is Some ==> match r {
        DueSpec::Day(d) => weekday(d) == weekday_name(input)->0 && today < d <= today + 7,
        DueSpec::OutOfRange => true,
        _ => false,
    }
}

/// Reads a due date from natural-language input, given today's day (see
/// [`due_outcome`] for the forms understood).
pub fn parse(input: &str, today: i32) -> (r: DueParse)
    requires
        day_in_range(today as int),
    ensures
        due_parse_view(r) == due_outcome(input@, today),
        r matches DueParse::Date(d) ==> day_in_range(d as int),
        weekday_input_lands(input@, today, due_parse_view(r)),
        crate::text::all_ascii(trim_ws(input@)) ==> lowercase(trim_ws(input@)) == trim_ws(input@).map_values(
            |c: char| crate::text::ascii_lower(c),
        ),
{
    let raw = chars_of(input);
    let s = trim(&raw);
    proof {
        if lower_ascii(input@) {
            lemma_letters_trimmed(input@);
        }
        reveal_strlit("mon");
        reveal_strlit("tue");
        reveal_strlit("wed");
        reveal_strlit("thu");
        reveal_strlit("fri");
        reveal_strlit("sat");
        reveal_strlit("sun");
        reveal_strlit("monday");
        reveal_strlit("tuesday");
        reveal_strlit("wednesday");
        reveal_strlit("thursday");
        reveal_strlit("friday");
        reveal_strlit("saturday");
        reveal_strlit("sunday");
    }
    let s_str = string_of(&s);
    let lower_str = to_lowercase(s_str.as_str());
    if s.len() == 0 {
        return DueParse::Clear;
    }
    let lower = chars_of(lower_str.as_str());
    assert(lower@ == lowercase(trim_ws(input@)));
    proof {
        if lower_ascii(input@) && weekday_name(input@) is Some {
            crate::text::lemma_lower_ascii_stays(input@);
            lemma_weekday_input(input@, today);
            lemma_weekday_lands(today as int, weekday_name(input@)->0);
        }
    }
    if is_word(&lower, "today") || is_word(&lower, "t") {
        return DueParse::Date(today);
    }
    if is_word(&lower, "tomorrow") || is_word(&lower, "tom") {
        return offset(today, 1);
    }
    if is_word(&lower, "eow") {
        let k = days_until(weekday_of(today), 4);
        return offset(today, k);
    }
    let n = lower.len();
    let wd = vec!['w', 'd'];
    assert(wd@ =~= seq!['w', 'd']);
    if ends_with(&lower, &wd) {
        let body = slice_vec(&lower, 0, n - 2);
        assert(body@ =~= lower@.take(n - 2));
        if let Some(k) = parse_uint(&body, 4294967295u64) {
            return working_days(today, k as u32);
        }
    }
    let dsuf = vec!['d'];
    assert(dsuf@ =~= seq!['d']);
    if ends_with(&lower, &dsuf) {
        let body = slice_vec(&lower, 0, n - 1);
        assert(body@ =~= lower@.take(n - 1));
        if let Some(k) = parse_i64(&body) {
            return offset(today, k);
        }
    }
    let wv = vec!['w'];
    assert(wv@ =~= seq!['w']);
    let week: Option<u64> = if starts_with(&lower, &wv) {
        let rest = slice_vec(&lower, 1, n);
        assert(rest@ =~= lower@.skip(1));
        parse_uint(&rest, 4294967295u64)
    } else if ends_with(&lower, &wv) {
        let body = slice_vec(&lower, 0, n - 1);
        assert(body@ =~= lower@.take(n - 1));
        parse_uint(&body, 4294967295u64)
    } else {
        None
    };
    if let Some(w) = week {
        if 1 <= w && w <= 53 {
            return week_parse(today, w as u32);
        }
    }
    let next = vec!['n', 'e', 'x', 't', ' '];
    assert(next@ =~= seq!['n', 'e', 'x', 't', ' ']);
    if starts_with(&lower, &next) {
        let rest = slice_vec(&lower, 5, n);
        assert(rest@ =~= lower@.skip(5));
        if let Some(target) = parse_weekday(&rest) {
            let k: i64 = 7 - (weekday_of(today) as i64) + (target as i64);
            return offset(today, k);
        }
    }
    if let Some(target) = parse_weekday(&lower) {
        let k = days_until(weekday_of(today), target);
        return offset(today, k);
    }
    dated(&lower, &s, today)
}

// ---------------------------------------------------------------------
// What the input forms mean, stated as calendar facts
// ---------------------------------------------------------------------

/// A weekday name moves 1 to 7 days ahead and lands on that weekday.
pub proof fn lemma_weekday_lands(t: int, w: int)
    requires
        0 <= w < 7,
    ensures
        1 <= days_until_weekday(weekday(t), w) <= 7,
        weekday(t + days_until_weekday(weekday(t), w)) == w,
{
}

/// `eow` is the next Friday: 1 to 7 days ahead, on a Friday.
pub proof fn lemma_eow_is_friday(t: int)
    ensures
        1 <= days_until_weekday(weekday(t), 4) <= 7,
        weekday(t + days_until_weekday(weekday(t), 4)) == 4,
{
    lemma_weekday_lands(t, 4);
}

/// `next <weekday>` lands on that weekday in the week after today's:
/// 1 to 13 days ahead, on or after the next Monday and before the Monday
/// after it.
pub proof fn lemma_next_weekday_lands(t: int, w: int)
    requires
        0 <= w < 7,
    ensures
        1 <= 7 - weekday(t) + w <= 13,
        weekday(t + 7 - weekday(t) + w) == w,
        t + 7 - weekday(t) <= t + 7 - weekday(t) + w < t + 14 - weekday(t),
        weekday(t + 7 - weekday(t)) == 0,
{
    assert(weekday(t + 7 - weekday(t)) == 0);
    assert(weekday(t + 7 - weekday(t) + w) == w);
}

/// `Nwd` with N > 0 lands on a working day after today, no more than
/// 3N days ahead.
pub proof fn lemma_working_days_land_on_weekday(t: int, n: nat)
    requires
        n > 0,
    ensures
        weekday(working_days_after(t, n)) < 5,
        t < working_days_after(t, n) <= t + 3 * n,
    decreases n,
{
    lemma_weekday_step(t);
    lemma_weekday_step(t + 1);
    lemma_weekday_step(t + 2);
    if n > 1 {
        lemma_working_days_land_on_weekday(next_working_day(t), (n - 1) as nat);
    } else {
        assert(working_days_after(next_working_day(t), 0) == next_working_day(t));
    }
}

proof fn lemma_working_days_split(a: int, b: int, c: int)
    requires
        a - 1 <= b <= c,
    ensures
        working_days_between(a, c) == working_days_between(a, b) + working_days_between(b + 1, c),
    decreases b - a + 1,
{
    if a <= b {
        lemma_working_days_split(a + 1, b, c);
    }
}

proof fn lemma_next_working_day_counts_one(d: int)
    ensures
        d < next_working_day(d) <= d + 3,
        weekday(next_working_day(d)) < 5,
        working_days_between(d + 1, next_working_day(d)) == 1,
{
    lemma_weekday_step(d);
    lemma_weekday_step(d + 1);
    lemma_weekday_step(d + 2);
    let e = next_working_day(d);
    if e == d + 1 {
        assert(working_days_between(d + 2, d + 1) == 0);
    } else if e == d + 2 {
        assert(working_days_between(d + 3, d + 2) == 0);
        assert(working_days_between(d + 2, d + 2) == 1);
    } else {
        assert(working_days_between(d + 4, d + 3) == 0);
        assert(working_days_between(d + 3, d + 3) == 1);
        assert(working_days_between(d + 2, d + 3) == 1);
    }
}

/// `Nwd` counts working days: the day reached `n` working days after
/// `t` is a working day (Monday to Friday), and exactly `n` working days
/// lie after `t` up to and including it; so it is the first day after
/// which `n` working days have passed.
pub proof fn lemma_working_days_count(t: int, n: nat)
    requires
        n > 0,
    ensures
        weekday(working_days_after(t, n)) < 5,
        working_days_between(t + 1, working_days_after(t, n)) == n,
        working_days_between(t + 1, working_days_after(t, n) - 1) == n - 1,
    decreases n,
{
    let e = next_working_day(t);
    lemma_next_working_day_counts_one(t);
    let r = working_days_after(t, n);
    if n == 1 {
        assert(r == e);
        lemma_working_days_split(t + 1, e - 1, e);
        assert(working_days_between(e, e) == 1);
    } else {
        lemma_working_days_count(e, (n - 1) as nat);
        assert(r == working_days_after(e, (n - 1) as nat));
        lemma_working_days_after_grows(e, (n - 1) as nat);
        lemma_working_days_split(t + 1, e, r);
        lemma_working_days_split(t + 1, e, r - 1);
    }
}

/// The weekday after a weekday.
proof fn lemma_weekday_step(x: int)
    ensures
        weekday(x + 1) == (if weekday(x) == 6 {
            0
        } else {
            weekday(x) + 1
        }),
{
}

// ---------------------------------------------------------------------
// Labels
// ---------------------------------------------------------------------

/// The color of a due-date badge.
#[derive(Clone, Copy, PartialEq, Eq, Debug, Structural)]
pub enum DueColor {
    Red,
    Cyan,
    Yellow,
    Gray,
}

/// The badge of a due date: overdue dates say how many days ago (red),
/// then `today` (cyan), `tmrw` (yellow), the weekday within the week
/// (yellow), else the month and day (gray).
pub open spec fn due_label(due: i32, today: i32) -> (Seq<char>, DueColor) {
    let diff = due - today;
    if diff <= -1 {
        (seq!['\u{26a0}', ' '] + decimal((-diff) as nat) + seq!['d', ' ', 'a', 'g', 'o'], DueColor::Red)
    } else if diff == 0 {
        (seq!['t', 'o', 'd', 'a', 'y'], DueColor::Cyan)
    } else if diff == 1 {
        (seq!['t', 'm', 'r', 'w'], DueColor::Yellow)
    } else if diff <= 6 {
        (formatted_date(due, "%a"@), DueColor::Yellow)
    } else {
        (formatted_date(due, "%b %-d"@), DueColor::Gray)
    }
}

/// Returns the label and color of a due-date badge.
pub fn label(due: i32, today: i32) -> (r: (String, DueColor))
    requires
        day_in_range(due as int),
        day_in_range(today as int),
    ensures
        (r.0@, r.1) == due_label(due, today),
{
    let diff: i64 = (due as i64) - (today as i64);
    if diff <= -1 {
        let mut s = String::new();
        push_char(&mut s, '\u{26a0}');
        push_char(&mut s, ' ');
        push_decimal(&mut s, (-diff) as u64);
        push_char(&mut s, 'd');
        push_char(&mut s, ' ');
        push_char(&mut s, 'a');
        push_char(&mut s, 'g');
        push_char(&mut s, 'o');
        assert(s@ =~= seq!['\u{26a0}', ' '] + decimal((-diff) as nat) + seq!['d', ' ', 'a', 'g', 'o']);
        (s, DueColor::Red)
    } else if diff == 0 {
        let v = vec!['t', 'o', 'd', 'a', 'y'];
        (string_of(&v), DueColor::Cyan)
    } else if diff == 1 {
        let v = vec!['t', 'm', 'r', 'w'];
        (string_of(&v), DueColor::Yellow)
    } else if diff <= 6 {
        (format_date(due, "%a"), DueColor::Yellow)
    } else {
        (format_date(due, "%b %-d"), DueColor::Gray)
    }
}

/// The ISO week label of today, e.g. `W15`.
pub fn current_week_label(today: i32) -> (r: String)
    requires
        day_in_range(today as int),
    ensures
        r@ == seq!['W'] + decimal(iso_week_number(today) as nat),
{
    let mut s = String::new();
    push_char(&mut s, 'W');
    push_decimal(&mut s, week_of(today) as u64);
    s
}

/// Today as a short date, e.g. `Wed Apr 8`.
pub fn current_date_label(today: i32) -> (r: String)
    requires
        day_in_range(today as int),
    ensures
        r@ == formatted_date(today, "%a %b %-d"@),
{
    format_date(today, "%a %b %-d")
}

/// Working days (Monday to Friday) from `a` to `b`, both included.
pub open spec fn working_days_between(a: int, b: int) -> nat
    decreases b - a + 1,
{
    if a > b {
        0
    } else {
        (if weekday(a) < 5 {
            1nat
        } else {
            0nat
        }) + working_days_between(a + 1, b)
    }
}

/// The quarter (1 to 4) of a month.
pub open spec fn quarter_of(month: int) -> int {
    (month - 1) / 3 + 1
}

/// The last day of the quarter holding `today`.
pub open spec fn quarter_end(today: i32) -> Option<i32> {
    let (year, month, _) = civil_date(today);
    if month <= 3 {
        day_of_civil(year, 3, 31)
    } else if month <= 6 {
        day_of_civil(year, 6, 30)
    } else if month <= 9 {
        day_of_civil(year, 9, 30)
    } else {
        day_of_civil(year, 12, 31)
    }
}

/// The quarter and the working days left in it, today included, e.g.
/// `Q2 15d`; `None` when the quarter's end is not a date chrono knows.
pub fn quarter_label(today: i32) -> (r: Option<String>)
    requires
        day_in_range(today as int),
    ensures
        r is None <==> quarter_end(today) is None,
        r matches Some(s) ==> s@ == seq!['Q'] + decimal(quarter_of(civil_date(today).1 as int) as nat)
            + seq![' '] + decimal(working_days_between(today as int, quarter_end(today)->0 as int))
            + seq!['d'],
{
    let (year, month, _) = civil(today);
    let q = (month - 1) / 3 + 1;
    let end = if month <= 3 {
        from_civil(year, 3, 31)
    } else if month <= 6 {
        from_civil(year, 6, 30)
    } else if month <= 9 {
        from_civil(year, 9, 30)
    } else {
        from_civil(year, 12, 31)
    };
    let end = match end {
        Some(e) => e,
        None => return None,
    };
    let mut count: u64 = 0;
    let mut d = today;
    while d <= end
        invariant
            day_in_range(today as int),
            day_in_range(end as int),
            today <= d,
            d <= end + 1 || d == today,
            count + working_days_between(d as int, end as int) == working_days_between(
                today as int,
                end as int,
            ),
            count <= d - today,
        decreases end - d + 1,
    {
        if weekday_of(d) < 5 {
            count = count + 1;
        }
        d = d + 1;
    }
    let mut s = String::new();
    push_char(&mut s, 'Q');
    push_decimal(&mut s, q as u64);
    push_char(&mut s, ' ');
    push_decimal(&mut s, count);
    push_char(&mut s, 'd');
    assert(s@ =~= seq!['Q'] + decimal(q as nat) + seq![' '] + decimal(count as nat) + seq!['d']);
    Some(s)
}

/// The Sunday ending the week holding `today` (weeks start on Monday).
pub fn end_of_week(today: i32) -> (r: Option<i32>)
    requires
        day_in_range(today as int),
    ensures
        r matches Some(e) ==> add_days(today as int, 6 - weekday(today as int)) == Some(e as int),
        r is None ==> add_days(today as int, 6 - weekday(today as int)) is None,
{
    let w = weekday_of(today);
    plus_days(today, 6 - (w as i64))
}

/// A week ends on a Sunday, at most six days ahead.
pub proof fn lemma_end_of_week_is_sunday(t: int)
    ensures
        0 <= 6 - weekday(t) <= 6,
        weekday(t + (6 - weekday(t))) == 6,
{
}

} // verus!
