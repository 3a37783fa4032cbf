//! Calendar dates, ordered by their day number.

use chrono::Datelike;
use chrono::NaiveDate;
use vstd::prelude::*;

verus! {

/// The first year that has calendar dates.
pub const MIN_YEAR: i32 = -262143;

/// The last year that has calendar dates.
pub const MAX_YEAR: i32 = 262142;

/// Leap years of the proleptic Gregorian calendar.
pub open spec fn is_leap_year(year: int) -> bool {
    year % 4 == 0 && (year % 100 != 0 || year % 400 == 0)
}

/// The number of days of `month` (1 to 12) in `year`.
pub open spec fn days_in_month(year: int, month: int) -> int {
    if month == 2 {
        if is_leap_year(year) {
            29
        } else {
            28
        }
    } else if month == 4 || month == 6 || month == 9 || month == 11 {
        30
    } else {
        31
    }
}

/// Whether year, month and day name a calendar date that can be represented.
pub open spec fn valid_ymd(year: int, month: int, day: int) -> bool {
    &&& MIN_YEAR <= year <= MAX_YEAR
    &&& 1 <= month <= 12
    &&& 1 <= day <= days_in_month(year, month)
}

/// The number of days from January 1 of year 1 to the end of the year
/// before `year`. It is negative up to year 0: the years before year 1 are
/// counted backwards.
pub open spec fn days_before_year(year: int) -> int {
    let years = year - 1;
    365 * years + years / 4 - years / 100 + years / 400
}

/// The number of days of `year` that come before the first of `month`.
pub open spec fn days_before_month(year: int, month: int) -> int
    decreases month,
{
    if month <= 1 {
        0
    } else {
        days_before_month(year, month - 1) + days_in_month(year, month - 1)
    }
}

/// The day number of a calendar date: the count of the days of the
/// proleptic Gregorian calendar up to and including that date, where
/// January 1 of year 1 is day 1.
pub open spec fn day_number(year: int, month: int, day: int) -> int {
    days_before_year(year) + days_before_month(year, month) + day
}

/// The number of days of `year`.
pub open spec fn days_in_year(year: int) -> int {
    if is_leap_year(year) {
        366
    } else {
        365
    }
}

/// Whether the first of two calendar dates comes before the second.
pub open spec fn ymd_before(
    year: int,
    month: int,
    day: int,
    other_year: int,
    other_month: int,
    other_day: int,
) -> bool {
    ||| year < other_year
    ||| year == other_year && month < other_month
    ||| year == other_year && month == other_month && day < other_day
}

/// The calendar date that follows a calendar date.
pub open spec fn next_ymd(year: int, month: int, day: int) -> (int, int, int) {
    if day < days_in_month(year, month) {
        (year, month, day + 1)
    } else if month < 12 {
        (year, month + 1, 1)
    } else {
        (year + 1, 1, 1)
    }
}

/// A year has as many days before it as the year that precedes it, and the
/// days of that year.
pub proof fn lemma_days_before_year(year: int)
    ensures
        days_before_year(year + 1) == days_before_year(year) + days_in_year(year),
{
}

/// The years that lie between two years have at least 365 days each.
proof fn lemma_days_before_years(year: int, later: int)
    requires
        year <= later,
    ensures
        days_before_year(later) >= days_before_year(year) + 365 * (later - year),
    decreases later - year,
{
    if year < later {
        lemma_days_before_years(year, later - 1);
        lemma_days_before_year(later - 1);
    }
}

/// The days before a month grow with the month by the length of each month
/// passed, and the twelve months of a year hold all its days.
proof fn lemma_days_before_month(year: int, month: int)
    requires
        1 <= month <= 12,
    ensures
        days_before_month(year, month + 1) == days_before_month(year, month) + days_in_month(
            year,
            month,
        ),
        0 <= days_before_month(year, month),
        days_before_month(year, month) + days_in_month(year, month) <= days_in_year(year),
        days_before_month(year, 13) == days_in_year(year),
        forall|later: int|
            month < later <= 12 ==> days_before_month(year, month) + days_in_month(year, month)
                <= #[trigger] days_before_month(year, later),
{
    reveal_with_fuel(days_before_month, 14);
}

/// The calendar orders its dates as their day numbers are ordered.
pub proof fn lemma_day_number_order(
    year: int,
    month: int,
    day: int,
    other_year: int,
    other_month: int,
    other_day: int,
)
    requires
        valid_ymd(year, month, day),
        valid_ymd(other_year, other_month, other_day),
    ensures
        ymd_before(year, month, day, other_year, other_month, other_day) <==> day_number(
            year,
            month,
            day,
        ) < day_number(other_year, other_month, other_day),
        day_number(year, month, day) == day_number(other_year, other_month, other_day) <==> year
            == other_year && month == other_month && day == other_day,
{
    lemma_days_before_month(year, month);
    lemma_days_before_month(other_year, other_month);
    if year < other_year {
        lemma_days_before_year(year);
        lemma_days_before_years(year + 1, other_year);
    } else if other_year < year {
        lemma_days_before_year(other_year);
        lemma_days_before_years(other_year + 1, year);
    }
}

/// The date that follows a date in the calendar has the next day number,
/// and is a date of the calendar unless it begins the year after the last.
pub proof fn lemma_next_day(year: int, month: int, day: int)
    requires
        valid_ymd(year, month, day),
    ensures
        ({
            let (next_year, next_month, next_day) = next_ymd(year, month, day);
            &&& day_number(next_year, next_month, next_day) == day_number(year, month, day) + 1
            &&& next_year <= MAX_YEAR ==> valid_ymd(next_year, next_month, next_day)
        }),
{
    lemma_days_before_month(year, month);
    lemma_days_before_year(year);
}

/// The day number of a calendar date fits in 32 bits.
pub proof fn lemma_day_number_bounds(year: int, month: int, day: int)
    requires
        valid_ymd(year, month, day),
    ensures
        -100_000_000 < day_number(year, month, day) < 100_000_000,
{
    lemma_days_before_month(year, month);
}

/// Calls chrono's `NaiveDate::from_ymd_opt` and, on the date it returns,
/// `Datelike::num_days_from_ce`.
///
/// Trusted: chrono accepts exactly the dates of the proleptic Gregorian
/// calendar whose year lies between `MIN_YEAR` and `MAX_YEAR`, and counts
/// the days of that calendar with January 1 of year 1 as day 1.
#[verifier::external_body]
fn days_from_ce(year: i32, month: u32, day: u32) -> (days: Option<i32>)
    ensures
        days is Some <==> valid_ymd(year as int, month as int, day as int),
        days matches Some(n) ==> n == day_number(year as int, month as int, day as int),
{
    match NaiveDate::from_ymd_opt(year, month, day) {
        Some(date) => Some(date.num_days_from_ce()),
        None => None,
    }
}

/// The character of the decimal digit `n`.
pub open spec fn digit(n: int) -> char {
    (48 + n) as char
}

/// The number `n` in decimal digits, with zeros in front where it has
/// fewer than `width` digits.
pub open spec fn decimal(n: nat, width: nat) -> Seq<char>
    decreases n, width,
{
    if n < 10 && width <= 1 {
        seq![digit(n as int)]
    } else {
        decimal(n / 10, if width > 0 {
            (width - 1) as nat
        } else {
            0
        }).push(digit((n % 10) as int))
    }
}

/// A year in at least four digits. A year before year 0 or after year 9999
/// has its sign in front.
pub open spec fn year_text(year: int) -> Seq<char> {
    if 0 <= year <= 9999 {
        decimal(year as nat, 4)
    } else if year < 0 {
        seq!['-'] + decimal((-year) as nat, 4)
    } else {
        seq!['+'] + decimal(year as nat, 4)
    }
}

/// A calendar date written as year, month and day with hyphens between
/// them, the month and the day in two digits each, such as `2024-03-15`.
pub open spec fn ymd_text(year: int, month: int, day: int) -> Seq<char> {
    year_text(year) + seq!['-'] + decimal(month as nat, 2) + seq!['-'] + decimal(day as nat, 2)
}

/// Calls chrono's `NaiveDate::format` with the pattern `%Y-%m-%d` on the
/// date that `NaiveDate::from_ymd_opt` makes of the three numbers, and
/// collects what it writes.
///
/// Trusted: chrono writes the year in four digits, or more with its sign
/// where four do not hold it, and the month and the day in two digits each.
#[verifier::external_body]
fn write_ymd(year: i32, month: u32, day: u32) -> (text: String)
    requires
        valid_ymd(year as int, month as int, day as int),
    ensures
        text@ == ymd_text(year as int, month as int, day as int),
{
    NaiveDate::from_ymd_opt(year, month, day).unwrap().format("%Y-%m-%d").to_string()
}

/// A calendar date without a time of day.
///
/// A date keeps its year, month and day together with its day number. Dates
/// are ordered by day number, so that the date `n` days after a date is the
/// one whose day number is larger by `n`.
#[derive(Clone, Copy, Debug, PartialEq, Eq, Structural, PartialOrd, Ord, Hash)]
pub struct Date {
    days: i32,
    year: i32,
    month: u32,
    day: u32,
}

impl Date {
    #[verifier::type_invariant]
    spec fn on_calendar(self) -> bool {
        self.wf()
    }

    /// Whether the date is a date of the calendar and carries the day
    /// number of that date. Every date that the library hands out is.
    pub closed spec fn wf(&self) -> bool {
        &&& valid_ymd(self.year as int, self.month as int, self.day as int)
        &&& self.days == day_number(self.year as int, self.month as int, self.day as int)
    }

    /// The year of the date.
    pub closed spec fn spec_year(&self) -> i32 {
        self.year
    }

    /// The month of the date, from 1 to 12.
    pub closed spec fn spec_month(&self) -> u32 {
        self.month
    }

    /// The day of the month, from 1.
    pub closed spec fn spec_day(&self) -> u32 {
        self.day
    }

    /// The day number of the date.
    pub closed spec fn spec_num_days_from_ce(&self) -> i32 {
        self.days
    }

    /// The date of the given year, month (from 1) and day of the month,
    /// where the calendar has such a date.
    pub closed spec fn ymd(year: int, month: int, day: int) -> Date {
        Date {
            days: day_number(year, month, day) as i32,
            year: year as i32,
            month: month as u32,
            day: day as u32,
        }
    }

    /// A date of the calendar has the year, month and day that it was made
    /// of, and their day number.
    pub proof fn lemma_ymd(year: int, month: int, day: int)
        requires
            valid_ymd(year, month, day),
        ensures
            Date::ymd(year, month, day).wf(),
            Date::ymd(year, month, day).year() == year,
            Date::ymd(year, month, day).month() == month,
            Date::ymd(year, month, day).day() == day,
            Date::ymd(year, month, day).num_days_from_ce() == day_number(year, month, day),
    {
        lemma_day_number_bounds(year, month, day);
    }

    /// A well-formed date is the date of the calendar of its year, month
    /// and day, and its day number is the day number of that date.
    pub proof fn lemma_wf(self)
        requires
            self.wf(),
        ensures
            valid_ymd(self.year() as int, self.month() as int, self.day() as int),
            self.num_days_from_ce() == day_number(
                self.year() as int,
                self.month() as int,
                self.day() as int,
            ),
            self == Date::ymd(self.year() as int, self.month() as int, self.day() as int),
    {
    }

    /// Dates are ordered by their day numbers as the calendar orders them,
    /// and two dates with one day number are one date.
    pub proof fn lemma_calendar_order(self, other: Date)
        requires
            self.wf(),
            other.wf(),
        ensures
            self.num_days_from_ce() < other.num_days_from_ce() <==> ymd_before(
                self.year() as int,
                self.month() as int,
                self.day() as int,
                other.year() as int,
                other.month() as int,
                other.day() as int,
            ),
            self.num_days_from_ce() == other.num_days_from_ce() <==> self == other,
    {
        lemma_day_number_order(
            self.year as int,
            self.month as int,
            self.day as int,
            other.year as int,
            other.month as int,
            other.day as int,
        );
    }

    /// Makes the date of the given year, month (from 1) and day of the
    /// month, or `None` when the calendar has no such date.
    pub fn from_ymd_opt(year: i32, month: u32, day: u32) -> (date: Option<Date>)
        ensures
            date == if valid_ymd(year as int, month as int, day as int) {
                Some(Date::ymd(year as int, month as int, day as int))
            } else {
                None
            },
            date matches Some(d) ==> {
                &&& d.wf()
                &&& d.year() == year
                &&& d.month() == month
                &&& d.day() == day
                &&& d.num_days_from_ce() == day_number(year as int, month as int, day as int)
            },
    {
        match days_from_ce(year, month, day) {
            Some(days) => Some(Date { days, year, month, day }),
            None => None,
        }
    }

    /// The year of the date.
    #[verifier::when_used_as_spec(spec_year)]
    pub fn year(&self) -> (year: i32)
        ensures
            year == self.spec_year(),
            self.wf(),
            MIN_YEAR <= year <= MAX_YEAR,
    {
        proof {
            use_type_invariant(self);
        }
        self.year
    }

    /// The month of the date, from 1 to 12.
    #[verifier::when_used_as_spec(spec_month)]
    pub fn month(&self) -> (month: u32)
        ensures
            month == self.spec_month(),
            self.wf(),
            1 <= month <= 12,
    {
        proof {
            use_type_invariant(self);
        }
        self.month
    }

    /// The month of the date, from 0 for January to 11.
    pub fn month0(&self) -> (month: u32)
        ensures
            month == self.month() - 1,
            month < 12,
    {
        self.month() - 1
    }

    /// The day of the month, from 1.
    #[verifier::when_used_as_spec(spec_day)]
    pub fn day(&self) -> (day: u32)
        ensures
            day == self.spec_day(),
            self.wf(),
            1 <= day <= 31,
    {
        proof {
            use_type_invariant(self);
        }
        self.day
    }

    /// The date written as year, month and day, such as `2024-03-15`.
    pub fn format_ymd(&self) -> (text: String)
        ensures
            text@ == ymd_text(self.year() as int, self.month() as int, self.day() as int),
    {
        proof {
            use_type_invariant(self);
        }
        write_ymd(self.year, self.month, self.day)
    }

    /// The day number of the date: the count of the days of the calendar up
    /// to and including the date, where January 1 of year 1 is day 1.
    #[verifier::when_used_as_spec(spec_num_days_from_ce)]
    pub fn num_days_from_ce(&self) -> (days: i32)
        ensures
            days == self.spec_num_days_from_ce(),
            self.wf(),
            days == day_number(self.year() as int, self.month() as int, self.day() as int),
    {
        proof {
            use_type_invariant(self);
        }
        self.days
    }
}

} // verus!
