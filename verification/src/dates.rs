//! The day range to crawl: consecutive calendar days from a start date up
//! to, but excluding, the current date, each formatted as "YYYY-MM-DD".
//!
//! The start date is validated eagerly; a start date that does not exist is
//! reported before any fetching can begin. The current date is supplied by
//! the caller, since it comes from the clock.

use vstd::prelude::*;
use crate::text::string_from_chars;

verus! {

/// The failure of day-range generation.
#[derive(Debug, Clone, Copy, PartialEq, Eq, Structural)]
pub enum DateError {
    /// The supplied start date does not exist on the calendar.
    InvalidDate,
}

/// A year with 366 days.
pub open spec fn is_leap_year(y: int) -> bool {
    (y % 4 == 0 && y % 100 != 0) || y % 400 == 0
}

/// How many days month `m` of year `y` has.
pub open spec fn days_in_month(y: int, m: int) -> int {
    if m == 2 {
        if is_leap_year(y) {
            29
        } else {
            28
        }
    } else if m == 4 || m == 6 || m == 9 || m == 11 {
        30
    } else {
        31
    }
}

/// The date exists on the calendar (years with four-digit rendering).
pub open spec fn valid_date(y: int, m: int, d: int) -> bool {
    1 <= y <= 9999 && 1 <= m <= 12 && 1 <= d <= days_in_month(y, m)
}

/// The day after `(y, m, d)`.
pub open spec fn next_day_spec(y: int, m: int, d: int) -> (int, int, int) {
    if d < days_in_month(y, m) {
        (y, m, d + 1)
    } else if m < 12 {
        (y, m + 1, 1)
    } else {
        (y + 1, 1, 1)
    }
}

/// Strict calendar order on dates, lexicographic on (year, month, day).
pub open spec fn date_lt(a: (int, int, int), b: (int, int, int)) -> bool {
    a.0 < b.0 || (a.0 == b.0 && (a.1 < b.1 || (a.1 == b.1 && a.2 < b.2)))
}

/// A measure that orders valid dates as the calendar does.
pub open spec fn date_index(y: int, m: int, d: int) -> int {
    372 * y + 31 * m + d
}

/// Calendar order agrees with the date measure on valid dates.
pub proof fn lemma_date_lt_index(a: (int, int, int), b: (int, int, int))
    requires
        valid_date(a.0, a.1, a.2),
        valid_date(b.0, b.1, b.2),
        date_lt(a, b),
    ensures
        date_index(a.0, a.1, a.2) < date_index(b.0, b.1, b.2),
{
}

/// The character of a single decimal digit.
pub open spec fn digit_char(n: int) -> char {
    if n == 0 {
        '0'
    } else if n == 1 {
        '1'
    } else if n == 2 {
        '2'
    } else if n == 3 {
        '3'
    } else if n == 4 {
        '4'
    } else if n == 5 {
        '5'
    } else if n == 6 {
        '6'
    } else if n == 7 {
        '7'
    } else if n == 8 {
        '8'
    } else {
        '9'
    }
}

/// The "YYYY-MM-DD" rendering of a date.
pub open spec fn day_string(y: int, m: int, d: int) -> Seq<char> {
    seq![
        digit_char(y / 1000 % 10),
        digit_char(y / 100 % 10),
        digit_char(y / 10 % 10),
        digit_char(y % 10),
        '-',
        digit_char(m / 10 % 10),
        digit_char(m % 10),
        '-',
        digit_char(d / 10 % 10),
        digit_char(d % 10),
    ]
}

/// The formatted days from `(y, m, d)` up to, excluding, `(ty, tm, td)`.
pub open spec fn day_range_spec(y: int, m: int, d: int, ty: int, tm: int, td: int) -> Seq<
    Seq<char>,
>
    decreases date_index(ty, tm, td) - date_index(y, m, d)
        when valid_date(y, m, d) && valid_date(ty, tm, td)
{
    if valid_date(y, m, d) && valid_date(ty, tm, td) && date_lt((y, m, d), (ty, tm, td)) {
        seq![day_string(y, m, d)] + day_range_spec(
            next_day_spec(y, m, d).0,
            next_day_spec(y, m, d).1,
            next_day_spec(y, m, d).2,
            ty,
            tm,
            td,
        )
    } else {
        Seq::empty()
    }
}

/// Whether `y` is a leap year.
pub fn leap_year(y: u32) -> (b: bool)
    ensures
        b == is_leap_year(y as int),
{
    (y % 4 == 0 && y % 100 != 0) || y % 400 == 0
}

/// The number of days in month `m` of year `y`.
pub fn month_length(y: u32, m: u32) -> (n: u32)
    requires
        1 <= m <= 12,
    ensures
        n == days_in_month(y as int, m as int),
{
    if m == 2 {
        if leap_year(y) {
            29
        } else {
            28
        }
    } else if m == 4 || m == 6 || m == 9 || m == 11 {
        30
    } else {
        31
    }
}

/// Whether the date exists on the calendar.
pub fn check_date(y: u32, m: u32, d: u32) -> (b: bool)
    ensures
        b == valid_date(y as int, m as int, d as int),
{
    if y < 1 || y > 9999 || m < 1 || m > 12 {
        return false;
    }
    1 <= d && d <= month_length(y, m)
}

/// The day after a valid date (the last representable day excluded).
pub fn next_day(y: u32, m: u32, d: u32) -> (r: (u32, u32, u32))
    requires
        valid_date(y as int, m as int, d as int),
        !(y == 9999 && m == 12 && d == 31),
    ensures
        (r.0 as int, r.1 as int, r.2 as int) == next_day_spec(y as int, m as int, d as int),
        valid_date(r.0 as int, r.1 as int, r.2 as int),
{
    if d < month_length(y, m) {
        (y, m, d + 1)
    } else if m < 12 {
        (y, m + 1, 1)
    } else {
        (y + 1, 1, 1)
    }
}

/// The character of one decimal digit.
fn digit(n: u32) -> (c: char)
    requires
        n < 10,
    ensures
        c == digit_char(n as int),
{
    if n == 0 {
        '0'
    } else if n == 1 {
        '1'
    } else if n == 2 {
        '2'
    } else if n == 3 {
        '3'
    } else if n == 4 {
        '4'
    } else if n == 5 {
        '5'
    } else if n == 6 {
        '6'
    } else if n == 7 {
        '7'
    } else if n == 8 {
        '8'
    } else {
        '9'
    }
}

/// Render a valid date as "YYYY-MM-DD".
pub fn format_day(y: u32, m: u32, d: u32) -> (r: String)
    requires
        valid_date(y as int, m as int, d as int),
    ensures
        r@ == day_string(y as int, m as int, d as int),
{
    let mut v: Vec<char> = Vec::new();
    v.push(digit(y / 1000 % 10));
    v.push(digit(y / 100 % 10));
    v.push(digit(y / 10 % 10));
    v.push(digit(y % 10));
    v.push('-');
    v.push(digit(m / 10 % 10));
    v.push(digit(m % 10));
    v.push('-');
    v.push(digit(d / 10 % 10));
    v.push(digit(d % 10));
    proof {
        assert(v@ =~= day_string(y as int, m as int, d as int));
    }
    string_from_chars(&v)
}

/// Strict calendar order on dates.
pub fn date_before(y: u32, m: u32, d: u32, ty: u32, tm: u32, td: u32) -> (b: bool)
    ensures
        b == date_lt((y as int, m as int, d as int), (ty as int, tm as int, td as int)),
{
    y < ty || (y == ty && (m < tm || (m == tm && d < td)))
}

/// The abstract values of a vector of day strings.
pub open spec fn day_models(days: Seq<String>) -> Seq<Seq<char>> {
    days.map_values(|s: String| s@)
}

/// Generate the ordered, finite sequence of "YYYY-MM-DD" day strings from
/// the start date up to, but excluding, the current date `(ty, tm, td)`. A
/// start date that does not exist is rejected eagerly, before any day is
/// produced; a start date on or after the current date yields the empty
/// sequence.
pub fn generate_days(sy: u32, sm: u32, sd: u32, ty: u32, tm: u32, td: u32) -> (r: Result<
    Vec<String>,
    DateError,
>)
    requires
        valid_date(ty as int, tm as int, td as int),
    ensures
        match r {
            Ok(v) => valid_date(sy as int, sm as int, sd as int) && day_models(v@)
                == day_range_spec(
                sy as int,
                sm as int,
                sd as int,
                ty as int,
                tm as int,
                td as int,
            ),
            Err(e) => !valid_date(sy as int, sm as int, sd as int) && e == DateError::InvalidDate,
        },
{
    if !check_date(sy, sm, sd) {
        return Err(DateError::InvalidDate);
    }
    let mut y = sy;
    let mut m = sm;
    let mut d = sd;
    let mut out: Vec<String> = Vec::new();
    proof {
        assert(day_models(out@) =~= Seq::<Seq<char>>::empty());
        assert(Seq::<Seq<char>>::empty() + day_range_spec(
            sy as int,
            sm as int,
            sd as int,
            ty as int,
            tm as int,
            td as int,
        ) =~= day_range_spec(sy as int, sm as int, sd as int, ty as int, tm as int, td as int));
    }
    while date_before(y, m, d, ty, tm, td)
        invariant
            valid_date(y as int, m as int, d as int),
            valid_date(ty as int, tm as int, td as int),
            day_range_spec(sy as int, sm as int, sd as int, ty as int, tm as int, td as int)
                == day_models(out@) + day_range_spec(
                y as int,
                m as int,
                d as int,
                ty as int,
                tm as int,
                td as int,
            ),
        decreases date_index(ty as int, tm as int, td as int) - date_index(
            y as int,
            m as int,
            d as int,
        ),
    {
        let day = format_day(y, m, d);
        proof {
            lemma_date_lt_index((y as int, m as int, d as int), (ty as int, tm as int, td as int));
            assert(day_models(out@.push(day)) =~= day_models(out@) + seq![day@]);
        }
        out.push(day);
        let next = next_day(y, m, d);
        y = next.0;
        m = next.1;
        d = next.2;
        proof {
            assert(day_models(out@) + (seq![day@] + day_range_spec(
                y as int,
                m as int,
                d as int,
                ty as int,
                tm as int,
                td as int,
            )) =~= (day_models(out@) + seq![day@]) + day_range_spec(
                y as int,
                m as int,
                d as int,
                ty as int,
                tm as int,
                td as int,
            ));
        }
    }
    proof {
        assert(day_models(out@) + Seq::<Seq<char>>::empty() =~= day_models(out@));
    }
    Ok(out)
}

} // verus!
