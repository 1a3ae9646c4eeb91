//! Calendar days. A day is its number in the proleptic Gregorian calendar
//! with January 1 of year 1 as day 1 (chrono's `num_days_from_ce`); the
//! conversions to and from calendar dates and text are chrono's.
use vstd::prelude::*;
use chrono::Datelike;

verus! {

/// The first day chrono can represent (`NaiveDate::MIN`, January 1,
/// 262144 BCE).
pub const MIN_DAY: i32 = -95746129i32;

/// The last day chrono can represent (`NaiveDate::MAX`, December 31,
/// 262142 CE).
pub const MAX_DAY: i32 = 95745399i32;

/// The day can be represented.
pub open spec fn day_in_range(d: int) -> bool {
    MIN_DAY <= d <= MAX_DAY
}

/// The weekday of a day, counted from Monday = 0 to Sunday = 6 (day 1 was
/// a Monday).
pub open spec fn weekday(d: int) -> int {
    (d + 6) % 7
}

/// The weekday of a day, counted from Monday = 0.
pub fn weekday_of(d: i32) -> (r: u32)
    ensures
        r == weekday(d as int),
        r < 7,
{
    let x: i64 = (d as i64) + 6 + 2800000000i64;
    let r = (x % 7) as u32;
    assert(r as int == weekday(d as int));
    r
}

/// The day `n` days after `d` (before, when `n` is negative), when it can
/// be represented.
pub open spec fn add_days(d: int, n: int) -> Option<int> {
    if day_in_range(d + n) {
        Some(d + n)
    } else {
        None
    }
}

/// Adds days to a day, when the result can be represented (chrono's
/// `NaiveDate + Duration::days` on day numbers).
pub fn plus_days(d: i32, n: i64) -> (r: Option<i32>)
    requires
        day_in_range(d as int),
    ensures
        r matches Some(x) ==> add_days(d as int, n as int) == Some(x as int),
        r is None ==> add_days(d as int, n as int) is None,
{
    if n < (MIN_DAY as i64) - (d as i64) || n > (MAX_DAY as i64) - (d as i64) {
        None
    } else {
        Some(((d as i64) + n) as i32)
    }
}

/// The calendar date (year, month, day of month) of a day, as chrono's
/// `NaiveDate` gives it.
pub uninterp spec fn civil_date(d: i32) -> (i32, u32, u32);

/// The day of a calendar date, as `NaiveDate::from_ymd_opt` gives it
/// (`None` for dates that do not exist or cannot be represented).
pub uninterp spec fn day_of_civil(year: i32, month: u32, day: u32) -> Option<i32>;

/// The Monday of an ISO week, as `NaiveDate::from_isoywd_opt` gives it.
pub uninterp spec fn iso_week_monday(year: i32, week: u32) -> Option<i32>;

/// The ISO week number of a day (`iso_week().week()`).
pub uninterp spec fn iso_week_number(d: i32) -> u32;

/// The day `NaiveDate::parse_from_str` reads from a text with a format.
pub uninterp spec fn parsed_date(s: Seq<char>, fmt: Seq<char>) -> Option<i32>;

/// The text chrono's `NaiveDate::format` writes for a day with a format.
pub uninterp spec fn formatted_date(d: i32, fmt: Seq<char>) -> Seq<char>;

/// The formats this library writes dates with.
pub open spec fn known_format(fmt: Seq<char>) -> bool {
    fmt == "%Y-%m-%d"@ || fmt == "%a"@ || fmt == "%b %-d"@ || fmt == "%a %b %-d"@
}

/// Year, month and day of month of a day (chrono's `year()`, `month()`
/// and `day()`). Chrono documents the month as 1 to 12 and the day as 1 to
/// 31; the year lies between those of `NaiveDate::MIN` (262144 BCE, year
/// -262143) and `NaiveDate::MAX` (262142 CE).
#[verifier::external_body]
pub(crate) fn civil(d: i32) -> (r: (i32, u32, u32))
    requires
        day_in_range(d as int),
    ensures
        r == civil_date(d),
        -262143 <= r.0 <= 262142,
        1 <= r.1 <= 12,
        1 <= r.2 <= 31,
{
    let date = chrono::NaiveDate::from_num_days_from_ce_opt(d).unwrap();
    (date.year(), date.month(), date.day())
}

/// `NaiveDate::from_ymd_opt`, as a day number. A date it returns lies
/// between `NaiveDate::MIN` and `NaiveDate::MAX`.
#[verifier::external_body]
pub(crate) fn from_civil(year: i32, month: u32, day: u32) -> (r: Option<i32>)
    ensures
        r == day_of_civil(year, month, day),
        r matches Some(x) ==> day_in_range(x as int),
{
    chrono::NaiveDate::from_ymd_opt(year, month, day).map(|x| x.num_days_from_ce())
}

/// `NaiveDate::from_isoywd_opt` for the Monday of the week, as a day
/// number. A date it returns lies between `NaiveDate::MIN` and
/// `NaiveDate::MAX`. The year is kept within chrono's range of years (and
/// one past it): chrono computes the year before or after the one asked
/// for, which overflows at the ends of `i32`.
#[verifier::external_body]
pub(crate) fn monday_of_iso_week(year: i32, week: u32) -> (r: Option<i32>)
    requires
        -262143 <= year <= 262143,
    ensures
        r == iso_week_monday(year, week),
        r matches Some(x) ==> day_in_range(x as int),
{
    chrono::NaiveDate::from_isoywd_opt(year, week, chrono::Weekday::Mon).map(|x| x.num_days_from_ce())
}

/// The ISO week number of a day; chrono documents it as 1 to 53.
#[verifier::external_body]
pub(crate) fn week_of(d: i32) -> (r: u32)
    requires
        day_in_range(d as int),
    ensures
        r == iso_week_number(d),
        1 <= r <= 53,
{
    chrono::NaiveDate::from_num_days_from_ce_opt(d).unwrap().iso_week().week()
}

/// The formats this library reads dates with.
pub open spec fn read_format(fmt: Seq<char>) -> bool {
    fmt == "%Y-%m-%d"@ || fmt == "%d-%m-%Y"@
}

/// `NaiveDate::parse_from_str` with one of the library's formats, as a day
/// number (`None` when the text does not match the format). A date it
/// returns lies between `NaiveDate::MIN` and `NaiveDate::MAX`.
#[verifier::external_body]
pub(crate) fn parse_date(s: &str, fmt: &str) -> (r: Option<i32>)
    requires
        read_format(fmt@),
    ensures
        r == parsed_date(s@, fmt@),
        r matches Some(x) ==> day_in_range(x as int),
{
    chrono::NaiveDate::parse_from_str(s, fmt).ok().map(|x| x.num_days_from_ce())
}

/// `NaiveDate::format(..).to_string()` for one of the library's formats.
#[verifier::external_body]
pub(crate) fn format_date(d: i32, fmt: &str) -> (r: String)
    requires
        day_in_range(d as int),
        known_format(fmt@),
    ensures
        r@ == formatted_date(d, fmt@),
{
    chrono::NaiveDate::from_num_days_from_ce_opt(d).unwrap().format(fmt).to_string()
}

} // verus!
