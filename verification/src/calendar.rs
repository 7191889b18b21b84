//! Calendar dates by day number, and the ISO 8601 weeks they fall in.

use chrono::Datelike;
use vstd::prelude::*;

verus! {

/// The first day of chrono's calendar, January 1 of the year -262143, counted from the Common Era.
pub const MIN_DAY: i32 = -95_746_129;

/// The last day of chrono's calendar, December 31 of the year 262142, counted from the Common Era.
pub const MAX_DAY: i32 = 95_745_399;

/// A date of the proleptic Gregorian calendar, held as its day number: January 1 of the year 1
/// is day 1, as in chrono's `num_days_from_ce`.
#[derive(Clone, Copy, Debug, PartialEq, Eq, Structural)]
pub struct Date {
    pub day: i32,
}

/// A week of the ISO 8601 calendar: the year that the week counts toward, and its number there,
/// starting from 1.
#[derive(Clone, Copy, Debug, PartialEq, Eq, Structural)]
pub struct IsoWeek {
    pub year: i32,
    pub week: u32,
}

impl Date {
    /// The day lies in the range of dates that chrono can hold.
    pub open spec fn wf(self) -> bool {
        MIN_DAY <= self.day <= MAX_DAY
    }
}

/// The number of the Monday-to-Sunday week that holds a day. Day 1 is a Monday.
pub open spec fn week_number(day: int) -> int {
    (day - 1) / 7
}

/// The day number of January 1 of a year: 365 days for each year before it since the year 1, and
/// one more for each leap year among them.
pub open spec fn first_of_year(year: int) -> int {
    365 * (year - 1) + (year - 1) / 4 - (year - 1) / 100 + (year - 1) / 400 + 1
}

/// The Thursday of the Monday-to-Sunday week that holds a day.
pub open spec fn thursday_of_week(day: int) -> int {
    7 * week_number(day) + 4
}

/// `week` is the ISO 8601 week of `day`: it counts toward the year that its Thursday falls in, and
/// its number is that of the Thursday among the Thursdays of that year.
pub open spec fn is_iso_week(day: int, week: IsoWeek) -> bool {
    let thursday = thursday_of_week(day);
    &&& first_of_year(week.year as int) <= thursday < first_of_year(week.year + 1)
    &&& week.week == (thursday - first_of_year(week.year as int)) / 7 + 1
}

/// chrono's `NaiveDate::iso_week`: the ISO 8601 week of a date, by its year and number.
#[verifier::external_body]
fn chrono_iso_week(day: i32) -> (week: IsoWeek)
    requires
        MIN_DAY <= day <= MAX_DAY,
    ensures
        is_iso_week(day as int, week),
{
    let week = chrono::NaiveDate::from_num_days_from_ce_opt(day).unwrap().iso_week();
    IsoWeek { year: week.year(), week: week.week() }
}

/// chrono's subtraction of a `TimeDelta` of whole days from a `NaiveDate`: the date that many days
/// earlier. chrono panics where that date is out of its range.
#[verifier::external_body]
fn chrono_days_before(day: i32, days: i64) -> (earlier: i32)
    requires
        MIN_DAY <= day <= MAX_DAY,
        0 <= days <= MAX_DAY - MIN_DAY,
        MIN_DAY <= day - days,
    ensures
        earlier == day - days,
{
    let date = chrono::NaiveDate::from_num_days_from_ce_opt(day).unwrap();
    (date - chrono::TimeDelta::days(days)).num_days_from_ce()
}

impl Date {
    /// The ISO 8601 week that holds the date.
    pub fn iso_week(&self) -> (week: IsoWeek)
        requires
            self.wf(),
        ensures
            is_iso_week(self.day as int, week),
    {
        chrono_iso_week(self.day)
    }

    /// The date `days` days earlier.
    pub fn days_before(&self, days: u32) -> (earlier: Date)
        requires
            self.wf(),
            MIN_DAY <= self.day - days,
        ensures
            earlier.wf(),
            earlier.day == self.day - days,
    {
        Date { day: chrono_days_before(self.day, days as i64) }
    }
}

/// A week has the seven days from a day one more than a multiple of 7, its Monday, to the next
/// multiple of 7, its Sunday. The Thursday of the week is its fourth day.
pub proof fn lemma_week_days(day: int)
    ensures
        7 * week_number(day) + 1 <= day <= 7 * week_number(day) + 7,
        (thursday_of_week(day) - 4) % 7 == 0,
        -3 <= day - thursday_of_week(day) <= 3,
{
}

/// The first year starts with day 1. A year has 366 days if its number is a multiple of 4, but not
/// of 100 unless it is one of 400, and otherwise 365 days.
pub proof fn lemma_leap_years(year: int)
    ensures
        first_of_year(1) == 1,
        first_of_year(year + 1) - first_of_year(year) == (if year % 4 == 0 && (year % 100 != 0
            || year % 400 == 0) {
            366int
        } else {
            365
        }),
{
}

/// January 4 is in the first week of its year.
pub proof fn lemma_first_iso_week(year: i32)
    ensures
        is_iso_week(first_of_year(year as int) + 3, (IsoWeek { year, week: 1 })),
{
    lemma_leap_years(year as int);
    lemma_week_days(first_of_year(year as int) + 3);
}

/// The year of the week after a week is the same or the next.
proof fn lemma_year_of_next_week(thursday: int, year: int, next_year: int)
    requires
        first_of_year(year) <= thursday < first_of_year(year + 1),
        first_of_year(next_year) <= thursday + 7 < first_of_year(next_year + 1),
    ensures
        next_year == year || next_year == year + 1,
{
    if next_year < year {
        lemma_first_of_year_increases(next_year + 1, year);
    } else if next_year > year + 1 {
        lemma_first_of_year_increases(year + 2, next_year);
        lemma_year_length(year + 1);
    }
}

/// A week later the number of the week is one higher, or it is the first of the next year. No year
/// has more than 53 weeks.
pub proof fn lemma_next_iso_week(day: int, week: IsoWeek, next: IsoWeek)
    requires
        is_iso_week(day, week),
        is_iso_week(day + 7, next),
    ensures
        1 <= week.week <= 53,
        next.year == week.year && next.week == week.week + 1 || next.year == week.year + 1
            && next.week == 1,
{
    let starts = Map::<int, int>::new(|year: int| true, |year: int| first_of_year(year));
    lemma_year_of_next_week(thursday_of_week(day), week.year as int, next.year as int);
    lemma_year_length(week.year as int);
    lemma_next_week_in_year(
        starts,
        thursday_of_week(day),
        week.year as int,
        next.year as int,
        week.week as int,
        next.week as int,
    );
}

/// The weeks of a year are counted from its first Thursday on, and those of the next year from the
/// first Thursday after its end.
proof fn lemma_next_week_in_year(
    starts: Map<int, int>,
    thursday: int,
    year: int,
    next_year: int,
    week: int,
    next: int,
)
    requires
        starts[year] <= thursday < starts[year + 1] <= starts[year] + 366,
        starts[next_year] <= thursday + 7,
        next_year == year || next_year == year + 1,
        week == (thursday - starts[year]) / 7 + 1,
        next == (thursday + 7 - starts[next_year]) / 7 + 1,
    ensures
        1 <= week <= 53,
        next_year == year ==> next == week + 1,
        next_year == year + 1 ==> next == 1,
{
}

/// A year has 365 or 366 days.
proof fn lemma_year_length(year: int)
    ensures
        365 <= first_of_year(year + 1) - first_of_year(year) <= 366,
{
}

/// A later year starts later.
proof fn lemma_first_of_year_increases(a: int, b: int)
    requires
        a <= b,
    ensures
        first_of_year(a) + 365 * (b - a) <= first_of_year(b),
    decreases b - a,
{
    if a < b {
        lemma_first_of_year_increases(a, b - 1);
        lemma_year_length(b - 1);
    }
}

/// Two days have the same ISO 8601 week, year and number, exactly when they lie in the same
/// Monday-to-Sunday week. So the turn of a year never parts a week.
pub proof fn lemma_same_iso_week(a: int, week_a: IsoWeek, b: int, week_b: IsoWeek)
    requires
        is_iso_week(a, week_a),
        is_iso_week(b, week_b),
    ensures
        week_a == week_b <==> week_number(a) == week_number(b),
{
    if week_number(a) == week_number(b) {
        if week_a.year < week_b.year {
            lemma_first_of_year_increases(week_a.year + 1, week_b.year as int);
        } else if week_b.year < week_a.year {
            lemma_first_of_year_increases(week_b.year + 1, week_a.year as int);
        }
    }
}

} // verus!
