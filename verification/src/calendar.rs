//! Calendar dates, checked, moved, compared and written through `chrono`, and the
//! earnings blackout window used when choosing option expirations.
use crate::text::{decimal_text, digit_char};
use chrono::Datelike;
use chrono::NaiveDate;
use chrono::TimeDelta;
use vstd::prelude::*;

verus! {

pub open spec fn is_leap_year(y: int) -> bool {
    (y % 4 == 0 && y % 100 != 0) || y % 400 == 0
}

pub open spec fn days_in_month(y: int, m: int) -> int {
    if m == 2 {
        if is_leap_year(y) {
            29
        } else {
            28
        }
    } else if m == 4 || m == 6 || m == 9 || m == 11 {
        30
    } else {
        31
    }
}

/// A day of the proleptic Gregorian calendar within the years that
/// `chrono::NaiveDate` represents.
pub open spec fn is_calendar_date(y: int, m: int, d: int) -> bool {
    &&& -262143 <= y <= 262142
    &&& 1 <= m <= 12
    &&& 1 <= d <= days_in_month(y, m)
}

/// The day number of a proleptic Gregorian date: whole days since 1970-01-01
/// (negative before it). Consecutive days have consecutive numbers.
pub open spec fn day_number(date: (int, int, int)) -> int {
    let y = if date.1 <= 2 {
        date.0 - 1
    } else {
        date.0
    };
    let era = y / 400;
    let year_of_era = y % 400;
    let month_from_march = if date.1 > 2 {
        date.1 - 3
    } else {
        date.1 + 9
    };
    let day_of_year = (153 * month_from_march + 2) / 5 + date.2 - 1;
    let day_of_era = year_of_era * 365 + year_of_era / 4 - year_of_era / 100 + day_of_year;
    era * 146097 + day_of_era - 719468
}

/// The first day of the March-based year `y`, which runs from March 1 of `y` to
/// the end of February of `y + 1`.
spec fn march_first(y: int) -> int {
    day_number((y, 3, 1))
}

/// Where a month begins within its March-based year, in days.
spec fn month_offset(months_from_march: int) -> int {
    (153 * months_from_march + 2) / 5
}

/// A March-based year holds 365 days, 366 when the February that ends it has a 29th.
proof fn lemma_march_year_length(y: int)
    ensures
        march_first(y + 1) == march_first(y) + 365 + (if is_leap_year(y + 1) {
            1int
        } else {
            0int
        }),
{
    let q = y / 400;
    let r = y % 400;
    vstd::arithmetic::div_mod::lemma_fundamental_div_mod(y, 400);
    if r < 399 {
        vstd::arithmetic::div_mod::lemma_fundamental_div_mod_converse(y + 1, 400, q, r + 1);
        vstd::arithmetic::div_mod::lemma_fundamental_div_mod_converse(
            y + 1,
            4,
            100 * q + (r + 1) / 4,
            (r + 1) % 4,
        );
        vstd::arithmetic::div_mod::lemma_fundamental_div_mod_converse(
            y + 1,
            100,
            4 * q + (r + 1) / 100,
            (r + 1) % 100,
        );
    } else {
        vstd::arithmetic::div_mod::lemma_fundamental_div_mod_converse(y + 1, 400, q + 1, 0);
    }
}

/// Later March-based years begin later.
proof fn lemma_march_first_grows(y: int, z: int)
    requires
        y < z,
    ensures
        march_first(y + 1) <= march_first(z),
    decreases z - y,
{
    if z > y + 1 {
        lemma_march_first_grows(y, z - 1);
        lemma_march_year_length(z - 1);
    }
}

/// A real date sits in its March-based year at its month's offset plus the day.
proof fn lemma_day_in_march_year(date: (int, int, int))
    requires
        is_calendar_date(date.0, date.1, date.2),
    ensures
        ({
            let y = if date.1 <= 2 {
                date.0 - 1
            } else {
                date.0
            };
            let k = if date.1 > 2 {
                date.1 - 3
            } else {
                date.1 + 9
            };
            &&& day_number(date) == march_first(y) + month_offset(k) + date.2 - 1
            &&& march_first(y) <= day_number(date) < march_first(y + 1)
        }),
{
    let y = if date.1 <= 2 {
        date.0 - 1
    } else {
        date.0
    };
    lemma_march_year_length(y);
}

/// Distinct real dates have distinct day numbers: a date is determined by its day
/// number.
pub proof fn lemma_day_number_injective(a: (int, int, int), b: (int, int, int))
    requires
        is_calendar_date(a.0, a.1, a.2),
        is_calendar_date(b.0, b.1, b.2),
        day_number(a) == day_number(b),
    ensures
        a == b,
{
    lemma_day_in_march_year(a);
    lemma_day_in_march_year(b);
    let ya = if a.1 <= 2 {
        a.0 - 1
    } else {
        a.0
    };
    let yb = if b.1 <= 2 {
        b.0 - 1
    } else {
        b.0
    };
    if ya < yb {
        lemma_march_first_grows(ya, yb);
    } else if yb < ya {
        lemma_march_first_grows(yb, ya);
    }
    assert(ya == yb);
}

/// The real date whose day number is `n`, where there is one (there is never more
/// than one: `lemma_day_number_injective`).
pub open spec fn date_of_day(n: int) -> (int, int, int) {
    choose|date: (int, int, int)| is_calendar_date(date.0, date.1, date.2) && day_number(date) == n
}

/// A real date is the date of its own day number.
pub proof fn lemma_date_of_own_day(date: (int, int, int))
    requires
        is_calendar_date(date.0, date.1, date.2),
    ensures
        date_of_day(day_number(date)) == date,
{
    let other = date_of_day(day_number(date));
    assert(is_calendar_date(other.0, other.1, other.2) && day_number(other) == day_number(date));
    lemma_day_number_injective(other, date);
}

/// The whole number of days from the second date to the first.
pub open spec fn spec_days_between(
    later_year: int,
    later_month: int,
    later_day: int,
    earlier_year: int,
    earlier_month: int,
    earlier_day: int,
) -> int {
    day_number((later_year, later_month, later_day)) - day_number(
        (earlier_year, earlier_month, earlier_day),
    )
}

/// The day numbers that `chrono::NaiveDate` represents, from its `MIN`
/// (-262143-01-01) to its `MAX` (262142-12-31).
pub open spec fn in_date_range(n: int) -> bool {
    day_number((-262143, 1, 1)) <= n <= day_number((262142, 12, 31))
}

/// `n` (below 100) as two decimal digits.
pub open spec fn two_digit_text(n: int) -> Seq<char> {
    seq![digit_char((n / 10) as nat), digit_char((n % 10) as nat)]
}

/// `n` (below 10000) as four decimal digits.
pub open spec fn four_digit_text(n: int) -> Seq<char> {
    seq![
        digit_char((n / 1000) as nat),
        digit_char((n / 100 % 10) as nat),
        digit_char((n / 10 % 10) as nat),
        digit_char((n % 10) as nat),
    ]
}

/// A year as `%Y` writes it: four digits for years 0 to 9999, a sign before
/// years past 9999 and before negative years, which keep at least four digits.
pub open spec fn iso_year_text(y: int) -> Seq<char> {
    if 0 <= y <= 9999 {
        four_digit_text(y)
    } else if y > 9999 {
        seq!['+'] + decimal_text(y as nat)
    } else if y >= -9999 {
        seq!['-'] + four_digit_text(-y)
    } else {
        seq!['-'] + decimal_text((-y) as nat)
    }
}

/// A date written `YYYY-MM-DD`, as `format("%Y-%m-%d")` writes it.
pub open spec fn iso_date_text(date: (int, int, int)) -> Seq<char> {
    iso_year_text(date.0) + seq!['-'] + two_digit_text(date.1) + seq!['-'] + two_digit_text(
        date.2,
    )
}

pub open spec fn is_digit_char(c: char) -> bool {
    48 <= c as int <= 57
}

pub open spec fn digit_value(c: char) -> int {
    c as int - 48
}

/// Text of the plain form `YYYY-MM-DD`: four digits, a hyphen, two digits, a
/// hyphen and two digits, nothing else.
pub open spec fn is_plain_iso_date_text(t: Seq<char>) -> bool {
    &&& t.len() == 10
    &&& t[4] == '-'
    &&& t[7] == '-'
    &&& forall|i: int| 0 <= i < 10 && i != 4 && i != 7 ==> is_digit_char(#[trigger] t[i])
}

/// The (year, month, day) that a text of the plain form writes.
pub open spec fn plain_iso_date_fields(t: Seq<char>) -> (int, int, int) {
    (
        digit_value(t[0]) * 1000 + digit_value(t[1]) * 100 + digit_value(t[2]) * 10 + digit_value(
            t[3],
        ),
        digit_value(t[5]) * 10 + digit_value(t[6]),
        digit_value(t[8]) * 10 + digit_value(t[9]),
    )
}

/// The date that `chrono::NaiveDate::parse_from_str(text, "%Y-%m-%d")` reads, as
/// (year, month, day), or `None` where it reports an error.
pub uninterp spec fn spec_parse_iso_date(text: Seq<char>) -> Option<(i32, u32, u32)>;

/// Calls `chrono::NaiveDate::from_ymd_opt(year, month, day)` and reports whether it
/// returned a date. chrono's documentation and source: `None` exactly when the year is
/// outside `MIN_YEAR..=MAX_YEAR` (-262143..=262142), the month or day is out of range,
/// or the day does not exist in that month.
#[verifier::external_body]
fn chrono_date_exists(year: i32, month: u32, day: u32) -> (r: bool)
    ensures
        r == is_calendar_date(year as int, month as int, day as int),
{
    NaiveDate::from_ymd_opt(year, month, day).is_some()
}

/// Calls `chrono::NaiveDate::parse_from_str(text, "%Y-%m-%d")` and hands back the
/// year, month and day of the parsed date. Claimed: the result is the named
/// `spec_parse_iso_date(text)`; a parsed date is a real calendar date (every
/// `NaiveDate` is one); and a text of the plain form `YYYY-MM-DD` reads as the
/// date its digits write, or as an error where no such date exists (chrono reads
/// `%Y` as up to four digits when no sign comes first, `%m` and `%d` as up to two,
/// and checks the date). What chrono makes of other texts is left to the name.
#[verifier::external_body]
fn chrono_parse_iso_date(text: &str) -> (r: Option<(i32, u32, u32)>)
    ensures
        r == spec_parse_iso_date(text@),
        r matches Some(t) ==> is_calendar_date(t.0 as int, t.1 as int, t.2 as int),
        is_plain_iso_date_text(text@) ==> ({
            let f = plain_iso_date_fields(text@);
            if is_calendar_date(f.0, f.1, f.2) {
                r == Some((f.0 as i32, f.1 as u32, f.2 as u32))
            } else {
                r is None
            }
        }),
{
    match NaiveDate::parse_from_str(text, "%Y-%m-%d") {
        Ok(d) => Some((d.year(), d.month(), d.day())),
        Err(_) => None,
    }
}

/// A calendar date: a year, a month and a day that exist together.
#[derive(Clone, Copy, Debug, PartialEq, Eq)]
pub struct CalendarDate {
    year: i32,
    month: u32,
    day: u32,
}

impl View for CalendarDate {
    type V = (int, int, int);

    closed spec fn view(&self) -> (int, int, int) {
        (self.year as int, self.month as int, self.day as int)
    }
}

/// Calls `chrono`: `(later - earlier).num_days()` for the two dates. Claimed: the
/// result is the difference of their day numbers (chrono counts days in the
/// proleptic Gregorian calendar, and the difference of two representable dates is
/// a whole number of days).
#[verifier::external_body]
fn chrono_days_between(later: &CalendarDate, earlier: &CalendarDate) -> (r: i64)
    requires
        is_calendar_date(later.year as int, later.month as int, later.day as int),
        is_calendar_date(earlier.year as int, earlier.month as int, earlier.day as int),
    ensures
        r as int == day_number(later@) - day_number(earlier@),
{
    let a = NaiveDate::from_ymd_opt(later.year, later.month, later.day).unwrap();
    let b = NaiveDate::from_ymd_opt(earlier.year, earlier.month, earlier.day).unwrap();
    (a - b).num_days()
}

/// Calls `NaiveDate::checked_add_signed` with `TimeDelta::try_days(days)`: the date
/// `days` days after `date` (before it when `days` is negative). Claimed, from
/// chrono's source: `None` exactly when that day lies outside
/// `NaiveDate::MIN..=NaiveDate::MAX` (a `days` too large for a `TimeDelta` or an
/// `i32` lands outside as well), and otherwise the real date with that day number.
#[verifier::external_body]
fn chrono_add_days(date: &CalendarDate, days: i64) -> (r: Option<CalendarDate>)
    ensures
        r is Some <==> in_date_range(day_number(date@) + days),
        r matches Some(d) ==> is_calendar_date(d@.0, d@.1, d@.2) && day_number(d@) == day_number(
            date@,
        ) + days,
{
    let start = NaiveDate::from_ymd_opt(date.year, date.month, date.day)?;
    let moved = start.checked_add_signed(TimeDelta::try_days(days)?)?;
    Some(CalendarDate { year: moved.year(), month: moved.month(), day: moved.day() })
}

/// Calls `NaiveDate::format("%Y-%m-%d").to_string()`. Claimed, from chrono's
/// source (`write_year` and `write_two` in `format/formatting.rs`): the year as
/// `iso_year_text` gives it, then the month and the day as two digits each,
/// joined by hyphens.
#[verifier::external_body]
fn chrono_iso_text(date: &CalendarDate) -> (r: String)
    requires
        is_calendar_date(date@.0, date@.1, date@.2),
    ensures
        r@ == iso_date_text(date@),
{
    NaiveDate::from_ymd_opt(date.year, date.month, date.day).unwrap().format("%Y-%m-%d").to_string()
}

impl CalendarDate {
    #[verifier::type_invariant]
    spec fn is_real_date(self) -> bool {
        is_calendar_date(self.year as int, self.month as int, self.day as int)
    }

    /// The date with these components, if it exists (`NaiveDate::from_ymd_opt`).
    pub fn from_ymd_opt(year: i32, month: u32, day: u32) -> (r: Option<CalendarDate>)
        ensures
            r is Some <==> is_calendar_date(year as int, month as int, day as int),
            r matches Some(d) ==> d@ == (year as int, month as int, day as int),
    {
        if chrono_date_exists(year, month, day) {
            Some(CalendarDate { year, month, day })
        } else {
            None
        }
    }

    pub fn year(&self) -> (r: i32)
        ensures
            r as int == self@.0,
    {
        self.year
    }

    pub fn month(&self) -> (r: u32)
        ensures
            r as int == self@.1,
    {
        self.month
    }

    pub fn day(&self) -> (r: u32)
        ensures
            r as int == self@.2,
    {
        self.day
    }

    /// The date `days` days after this one (before it when `days` is negative), if
    /// chrono represents it.
    pub fn checked_add_days(&self, days: i64) -> (r: Option<CalendarDate>)
        ensures
            r is Some <==> in_date_range(day_number(self@) + days),
            r matches Some(d) ==> d@ == date_of_day(day_number(self@) + days),
            r matches Some(d) ==> is_calendar_date(d@.0, d@.1, d@.2) && day_number(d@)
                == day_number(self@) + days,
    {
        let r = chrono_add_days(self, days);
        proof {
            if let Some(d) = r {
                lemma_date_of_own_day(d@);
            }
        }
        r
    }

    /// The date written `YYYY-MM-DD`.
    pub fn iso_text(&self) -> (r: String)
        ensures
            r@ == iso_date_text(self@),
    {
        proof {
            use_type_invariant(self);
        }
        chrono_iso_text(self)
    }

    /// Whole days from `earlier` to `self` (negative when `self` comes first).
    pub fn days_since(&self, earlier: &CalendarDate) -> (r: i64)
        ensures
            r as int == spec_days_between(self@.0, self@.1, self@.2, earlier@.0, earlier@.1, earlier@.2),
    {
        proof {
            use_type_invariant(self);
            use_type_invariant(earlier);
        }
        chrono_days_between(self, earlier)
    }
}

/// The underlying's known earnings dates, as written in the strategy's settings.
pub open spec fn earnings_date_text(k: int) -> Seq<char> {
    if k == 0 {
        "2026-01-14"@
    } else if k == 1 {
        "2026-04-15"@
    } else if k == 2 {
        "2026-07-15"@
    } else {
        "2026-10-14"@
    }
}

/// The date that the `k`-th earnings date text writes.
pub open spec fn earnings_date_value(k: int) -> (int, int, int) {
    if k == 0 {
        (2026, 1, 14)
    } else if k == 1 {
        (2026, 4, 15)
    } else if k == 2 {
        (2026, 7, 15)
    } else {
        (2026, 10, 14)
    }
}

/// The number of known earnings dates.
pub open spec fn earnings_date_count() -> int {
    4
}

fn earnings_date(k: usize) -> (r: &'static str)
    ensures
        r@ == earnings_date_text(k as int),
{
    if k == 0 {
        "2026-01-14"
    } else if k == 1 {
        "2026-04-15"
    } else if k == 2 {
        "2026-07-15"
    } else {
        "2026-10-14"
    }
}

/// Each earnings date text is of the plain `YYYY-MM-DD` form and writes a real date.
proof fn lemma_earnings_texts_are_dates(k: int)
    requires
        0 <= k < earnings_date_count(),
    ensures
        is_plain_iso_date_text(earnings_date_text(k)),
        plain_iso_date_fields(earnings_date_text(k)) == earnings_date_value(k),
        is_calendar_date(earnings_date_value(k).0, earnings_date_value(k).1, earnings_date_value(k).2),
{
    reveal_strlit("2026-01-14");
    reveal_strlit("2026-04-15");
    reveal_strlit("2026-07-15");
    reveal_strlit("2026-10-14");
    let t = earnings_date_text(k);
    assert(forall|i: int| 0 <= i < 10 && i != 4 && i != 7 ==> is_digit_char(#[trigger] t[i]));
}

/// `expiration` lies from two days before to seven days after the `k`-th earnings
/// date.
pub open spec fn near_earnings_date(expiration: (int, int, int), k: int) -> bool {
    -2 <= day_number(expiration) - day_number(earnings_date_value(k)) <= 7
}

pub open spec fn spec_within_earnings_window(expiration: (int, int, int)) -> bool {
    exists|k: int| 0 <= k < earnings_date_count() && near_earnings_date(expiration, k)
}

/// Whether `expiration` falls in the blackout window `[-2, +7]` days around a known
/// earnings date, where implied volatility collapses and assignment risk jumps.
pub fn within_earnings_window(expiration: &CalendarDate) -> (r: bool)
    ensures
        r == spec_within_earnings_window(expiration@),
{
    let mut k: usize = 0;
    while k < 4
        invariant
            k <= 4,
            forall|j: int| 0 <= j < k ==> !near_earnings_date(expiration@, j),
        decreases 4 - k,
    {
        let text = earnings_date(k);
        proof {
            lemma_earnings_texts_are_dates(k as int);
        }
        match chrono_parse_iso_date(text) {
            Some(parsed) => {
                let e = CalendarDate { year: parsed.0, month: parsed.1, day: parsed.2 };
                let diff = expiration.days_since(&e);
                if -2 <= diff && diff <= 7 {
                    assert(near_earnings_date(expiration@, k as int));
                    return true;
                }
            },
            None => {},
        }
        k = k + 1;
    }
    false
}

/// The earnings blackout in dates: an expiration is in the window exactly when it
/// lies from two days before to seven days after one of the known earnings dates,
/// 2026-01-14, 2026-04-15, 2026-07-15 and 2026-10-14.
pub proof fn lemma_earnings_window_dates(expiration: (int, int, int))
    ensures
        spec_within_earnings_window(expiration) <==> ({
            let n = day_number(expiration);
            ||| -2 <= n - day_number((2026, 1, 14)) <= 7
            ||| -2 <= n - day_number((2026, 4, 15)) <= 7
            ||| -2 <= n - day_number((2026, 7, 15)) <= 7
            ||| -2 <= n - day_number((2026, 10, 14)) <= 7
        }),
{
    let n = day_number(expiration);
    if -2 <= n - day_number((2026, 1, 14)) <= 7 {
        assert(near_earnings_date(expiration, 0));
    }
    if -2 <= n - day_number((2026, 4, 15)) <= 7 {
        assert(near_earnings_date(expiration, 1));
    }
    if -2 <= n - day_number((2026, 7, 15)) <= 7 {
        assert(near_earnings_date(expiration, 2));
    }
    if -2 <= n - day_number((2026, 10, 14)) <= 7 {
        assert(near_earnings_date(expiration, 3));
    }
}

} // verus!
