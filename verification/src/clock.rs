//! Points in time with the local offset that they are shown in.

use crate::calendar::{Date, MAX_DAY, MIN_DAY};
use chrono::{Datelike, Timelike};
use vstd::prelude::*;

verus! {

/// The day number of January 1, 1970, the day on which Unix time starts.
pub const UNIX_EPOCH_DAY: i32 = 719_163;

/// The length of a day in seconds.
pub const SECONDS_PER_DAY: i64 = 86_400;

/// The length of a second in nanoseconds.
pub const NANOS_PER_SECOND: u32 = 1_000_000_000;

/// The first second of chrono's calendar in Unix time.
pub const MIN_SECONDS: i64 = -8_334_601_228_800;

/// The last second of chrono's calendar in Unix time.
pub const MAX_SECONDS: i64 = 8_210_266_876_799;

/// A point in time as chrono's `DateTime<Local>` holds it.
#[derive(Clone, Copy, Debug, PartialEq, Eq, Structural)]
pub struct LocalTimestamp {
    /// Whole seconds since the Unix epoch.
    pub seconds: i64,
    /// Nanoseconds into that second. A leap second is held as a second of twice the length.
    pub nanos: u32,
    /// How far local time is ahead of UTC, in seconds.
    pub offset: i32,
}

/// The day number of a count of seconds since the Unix epoch.
pub open spec fn day_of_seconds(seconds: int) -> int {
    seconds / (SECONDS_PER_DAY as int) + UNIX_EPOCH_DAY
}

/// The quotient of two integers, the divisor positive, rounded toward zero.
pub open spec fn divide_toward_zero(dividend: int, divisor: int) -> int {
    if dividend >= 0 {
        dividend / divisor
    } else {
        -((-dividend) / divisor)
    }
}

impl LocalTimestamp {
    /// The value is one that chrono can hold: its UTC date is in range, its second is no longer
    /// than a leap second, and the offset is less than a day.
    pub open spec fn wf(self) -> bool {
        &&& MIN_DAY <= day_of_seconds(self.seconds as int) <= MAX_DAY
        &&& self.nanos < 2 * NANOS_PER_SECOND
        &&& -SECONDS_PER_DAY < self.offset < SECONDS_PER_DAY
    }

    /// The day number of the date that a local calendar shows.
    pub open spec fn local_day(self) -> int {
        day_of_seconds(self.seconds + self.offset)
    }

    /// The local date is one that chrono can hold.
    pub open spec fn has_local_date(self) -> bool {
        MIN_DAY <= self.local_day() <= MAX_DAY
    }

    /// The second of the UTC day.
    pub open spec fn second_of_day(self) -> int {
        self.seconds as int % SECONDS_PER_DAY as int
    }

    /// This point in time is later than the other, wherever the two are shown.
    pub open spec fn later_than(self, other: LocalTimestamp) -> bool {
        self.seconds > other.seconds || (self.seconds == other.seconds && self.nanos > other.nanos)
    }

    /// The two are the same point in time, wherever they are shown.
    pub open spec fn same_instant(self, other: LocalTimestamp) -> bool {
        self.seconds == other.seconds && self.nanos == other.nanos
    }

    /// The leap second, if one of the two values is one, that lies between two times of day and
    /// that their seconds do not count.
    pub open spec fn leap_since(self, earlier: LocalTimestamp) -> int {
        if self.second_of_day() > earlier.second_of_day() && earlier.nanos >= NANOS_PER_SECOND {
            1
        } else if self.second_of_day() < earlier.second_of_day() && self.nanos
            >= NANOS_PER_SECOND {
            -1
        } else {
            0
        }
    }

    /// The nanoseconds from an earlier point in time to this one, negative if it is not earlier.
    pub open spec fn nanos_since(self, earlier: LocalTimestamp) -> int {
        (self.seconds - earlier.seconds + self.leap_since(earlier)) * NANOS_PER_SECOND + self.nanos
            - earlier.nanos
    }

    /// The whole days from an earlier point in time to this one, rounded toward zero.
    pub open spec fn days_since(self, earlier: LocalTimestamp) -> int {
        divide_toward_zero(self.nanos_since(earlier), SECONDS_PER_DAY * NANOS_PER_SECOND)
    }

    /// What every reading of the clock has in common: it is no earlier than the Unix epoch, and no
    /// leap second.
    pub open spec fn is_clock_reading(self) -> bool {
        &&& self.wf()
        &&& 0 <= self.seconds
        &&& self.nanos < NANOS_PER_SECOND
    }
}

/// What every date of a local clock has in common: it is no earlier than the day before the Unix
/// epoch.
pub open spec fn is_clock_date(date: Date) -> bool {
    UNIX_EPOCH_DAY - 1 <= date.day <= MAX_DAY
}

/// chrono's `Local::now`: the current time and the local offset. chrono returns only for times from
/// the Unix epoch on, and panics if the system clock shows an earlier one. It never returns a leap
/// second. Which time it is, is left open.
#[verifier::external_body]
pub(crate) fn chrono_now() -> (now: LocalTimestamp)
    ensures
        now.is_clock_reading(),
{
    let now = chrono::Local::now();
    LocalTimestamp {
        seconds: now.timestamp(),
        nanos: now.timestamp_subsec_nanos(),
        offset: now.offset().local_minus_utc(),
    }
}

/// The date of chrono's `Local::now().naive_local()`: the current local date. It is no earlier than
/// the day before the Unix epoch, since the time is not before the epoch, where chrono panics, and
/// the offset is less than a day. Which date it is, is left open.
#[verifier::external_body]
pub(crate) fn chrono_today() -> (today: Date)
    ensures
        is_clock_date(today),
{
    Date { day: chrono::Local::now().naive_local().date().num_days_from_ce() }
}

/// The date of chrono's `DateTime::naive_local`: the day on which the time falls at the offset.
/// chrono panics where that date is out of its range.
#[verifier::external_body]
fn chrono_local_day(seconds: i64, offset: i32) -> (day: i32)
    requires
        MIN_DAY <= day_of_seconds(seconds as int) <= MAX_DAY,
        -SECONDS_PER_DAY < offset < SECONDS_PER_DAY,
        MIN_DAY <= day_of_seconds(seconds + offset) <= MAX_DAY,
    ensures
        day == day_of_seconds(seconds + offset),
{
    let offset = chrono::FixedOffset::east_opt(offset).unwrap();
    let time = chrono::DateTime::from_timestamp(seconds, 0).unwrap().with_timezone(&offset);
    time.naive_local().date().num_days_from_ce()
}

/// chrono's `DateTime::signed_duration_since` and `TimeDelta::num_days`: the whole days between
/// two points in time, rounded toward zero. Offsets play no part.
#[verifier::external_body]
fn chrono_days_since(now: LocalTimestamp, earlier: LocalTimestamp) -> (days: i64)
    requires
        now.wf(),
        earlier.wf(),
    ensures
        days == now.days_since(earlier),
{
    let whole = chrono::DateTime::from_timestamp(now.seconds, 0).unwrap().naive_utc();
    let now = whole.with_nanosecond(now.nanos).unwrap().and_utc();
    let whole = chrono::DateTime::from_timestamp(earlier.seconds, 0).unwrap().naive_utc();
    let earlier = whole.with_nanosecond(earlier.nanos).unwrap().and_utc();
    now.signed_duration_since(earlier).num_days()
}

impl LocalTimestamp {
    /// Whether the value is one that chrono can hold.
    pub fn is_valid(&self) -> (valid: bool)
        ensures
            valid == self.wf(),
    {
        MIN_SECONDS <= self.seconds && self.seconds <= MAX_SECONDS && self.nanos < 2
            * NANOS_PER_SECOND && -SECONDS_PER_DAY < self.offset as i64 && (self.offset as i64)
            < SECONDS_PER_DAY
    }

    /// Whether the local date is one that chrono can hold.
    pub fn is_local_date_valid(&self) -> (valid: bool)
        requires
            self.wf(),
        ensures
            valid == self.has_local_date(),
    {
        let local: i64 = self.seconds + self.offset as i64;
        MIN_SECONDS <= local && local <= MAX_SECONDS
    }

    /// The date that a local calendar shows.
    pub fn local_date(&self) -> (date: Date)
        requires
            self.wf(),
            self.has_local_date(),
        ensures
            date.wf(),
            date.day == self.local_day(),
    {
        Date { day: chrono_local_day(self.seconds, self.offset) }
    }

    /// Whether this point in time is later than the other.
    pub fn is_later_than(&self, other: &LocalTimestamp) -> (later: bool)
        ensures
            later == self.later_than(*other),
    {
        self.seconds > other.seconds || (self.seconds == other.seconds && self.nanos > other.nanos)
    }

    /// The whole days from an earlier point in time to this one, rounded toward zero.
    pub fn whole_days_since(&self, earlier: &LocalTimestamp) -> (days: i64)
        requires
            self.wf(),
            earlier.wf(),
        ensures
            days == self.days_since(*earlier),
    {
        chrono_days_since(*self, *earlier)
    }
}

/// A day has 86,400 seconds, and the first second of Unix time is the first of January 1, 1970,
/// which is day 719,163. The local date goes by the seconds and the offset together.
pub proof fn lemma_seconds_of_day(time: LocalTimestamp, day: int)
    ensures
        day_of_seconds(time.seconds as int) == day <==> 0 <= time.seconds - 86_400 * (day - 719_163)
            < 86_400,
        time.local_day() == day <==> 0 <= time.seconds + time.offset - 86_400 * (day - 719_163)
            < 86_400,
        time.second_of_day() == time.seconds - 86_400 * (day_of_seconds(time.seconds as int)
            - 719_163),
{
}

/// The values that chrono can hold are those with a date in its calendar, with a second that may be
/// a leap second, and with an offset of less than a day either way. Which of them have a local date
/// goes by the seconds and the offset alone.
pub proof fn lemma_valid_times(time: LocalTimestamp)
    ensures
        time.wf() <==> MIN_SECONDS <= time.seconds <= MAX_SECONDS && time.nanos < 2_000_000_000
            && -86_400 < time.offset < 86_400,
        time.has_local_date() <==> MIN_SECONDS <= time.seconds + time.offset <= MAX_SECONDS,
{
}

/// Of two points in time the later one is the one with more seconds, or, in the same second, the
/// one with more nanoseconds. So of two one is later, unless they are the same point in time, and
/// offsets play no part.
pub proof fn lemma_later_times(a: LocalTimestamp, b: LocalTimestamp)
    ensures
        a.seconds > b.seconds ==> a.later_than(b) && !b.later_than(a),
        a.seconds == b.seconds ==> (a.later_than(b) <==> a.nanos > b.nanos),
        a.same_instant(b) <==> !a.later_than(b) && !b.later_than(a),
        a.same_instant(b) <==> a.seconds == b.seconds && a.nanos == b.nanos,
{
}

/// The days between two points in time are as many whole days as fit between them, and a minus sign
/// if the second is the later one. Neither of the two is a leap second here.
pub proof fn lemma_days_fit_between(now: LocalTimestamp, earlier: LocalTimestamp)
    requires
        now.nanos < 1_000_000_000,
        earlier.nanos < 1_000_000_000,
    ensures
        ({
            let days = now.days_since(earlier);
            let nanos = (now.seconds - earlier.seconds) * 1_000_000_000 + now.nanos - earlier.nanos;
            &&& nanos >= 0 ==> 0 <= nanos - days * 86_400_000_000_000 < 86_400_000_000_000
            &&& nanos <= 0 ==> 0 <= -nanos + days * 86_400_000_000_000 < 86_400_000_000_000
        }),
{
    assert(SECONDS_PER_DAY * NANOS_PER_SECOND == 86_400_000_000_000) by (nonlinear_arith)
        requires
            SECONDS_PER_DAY == 86_400,
            NANOS_PER_SECOND == 1_000_000_000,
    ;
}

/// Of two points in time the days from the one to the other are those from the other to the one,
/// but for the sign, leap seconds or not, and wherever they are shown.
pub proof fn lemma_days_between(a: LocalTimestamp, b: LocalTimestamp, elsewhere: i32)
    ensures
        a.days_since(b) == -b.days_since(a),
        a.days_since(a) == 0,
        (LocalTimestamp { offset: elsewhere, ..a }).days_since(b) == a.days_since(b),
{
    assert(SECONDS_PER_DAY * NANOS_PER_SECOND == 86_400_000_000_000) by (nonlinear_arith)
        requires
            SECONDS_PER_DAY == 86_400,
            NANOS_PER_SECOND == 1_000_000_000,
    ;
    let moved = LocalTimestamp { offset: elsewhere, ..a };
    assert(a.nanos_since(b) == -b.nanos_since(a));
    assert(moved.nanos_since(b) == a.nanos_since(b));
}

/// A leap second lasts a second longer than its seconds count, which a later time of day in another
/// second makes up for.
pub proof fn lemma_days_over_leap_second(now: LocalTimestamp, leap: LocalTimestamp)
    requires
        now.nanos < 1_000_000_000,
        1_000_000_000 <= leap.nanos < 2_000_000_000,
    ensures
        ({
            let nanos = now.nanos_since(leap);
            let counted = (now.seconds - leap.seconds) * 1_000_000_000 + now.nanos - leap.nanos;
            &&& now.seconds % 86_400 > leap.seconds % 86_400 ==> nanos == counted + 1_000_000_000
            &&& now.seconds % 86_400 <= leap.seconds % 86_400 ==> nanos == counted
            &&& nanos >= 0 ==> 0 <= nanos - now.days_since(leap) * 86_400_000_000_000
                < 86_400_000_000_000
            &&& nanos <= 0 ==> 0 <= -nanos + now.days_since(leap) * 86_400_000_000_000
                < 86_400_000_000_000
        }),
{
    assert(SECONDS_PER_DAY * NANOS_PER_SECOND == 86_400_000_000_000) by (nonlinear_arith)
        requires
            SECONDS_PER_DAY == 86_400,
            NANOS_PER_SECOND == 1_000_000_000,
    ;
}

} // verus!
