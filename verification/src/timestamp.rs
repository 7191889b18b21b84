//! What is asked of the time formatter for the time of a row.

use crate::bucket::EntryTimeFormat;
use crate::clock::{NANOS_PER_SECOND, SECONDS_PER_DAY};
use vstd::prelude::*;

verus! {

/// The start of the year -9999 in Unix time, the first second that the `time` crate can hold.
pub const MIN_UNIX_TIME: i64 = -377_705_116_800;

/// The end of the year 9999 in Unix time, the last second that the `time` crate can hold.
pub const MAX_UNIX_TIME: i64 = 253_402_300_799;

/// The largest offset from UTC that the `time` crate can hold, 25:59:59, in seconds.
pub const MAX_UTC_OFFSET: i32 = 93_599;

/// The Julian day number of January 1, 1970, the day on which Unix time starts.
pub const UNIX_EPOCH_JULIAN_DAY: i32 = 2_440_588;

/// An offset from UTC: how far local time is ahead, in seconds.
#[derive(Clone, Copy, Debug, PartialEq, Eq, Structural)]
pub struct UtcOffset {
    pub seconds: i32,
}

/// A point in time, in UTC.
#[derive(Clone, Copy, Debug, PartialEq, Eq, Structural)]
pub struct UtcMoment {
    /// Whole seconds since the Unix epoch.
    pub seconds: i64,
    /// Nanoseconds into that second.
    pub nanos: u32,
}

/// A text for a point in time, as it is asked of the time formatter.
#[derive(Clone, Copy, Debug, PartialEq, Eq, Structural)]
pub enum TimestampText {
    /// No text.
    Blank,
    /// The date and the time of day in the time zone, the date named by its distance from the
    /// reference where it is close.
    EnhancedAbsolute { timestamp: i64, reference: UtcMoment, timezone: UtcOffset },
    /// The time of day in the time zone, of the date with this Julian day number there.
    TimeOfDay { timezone: UtcOffset, julian_day: i32, hour: u8, minute: u8, second: u8 },
}

/// The Unix time is one that the `time` crate can hold.
pub open spec fn is_unix_time(timestamp: int) -> bool {
    MIN_UNIX_TIME <= timestamp <= MAX_UNIX_TIME
}

/// The second of the day of a count of seconds since the Unix epoch.
pub open spec fn second_of_day(seconds: int) -> int {
    seconds % (SECONDS_PER_DAY as int)
}

/// The Julian day number of a count of seconds since the Unix epoch.
pub open spec fn julian_day_of_seconds(seconds: int) -> int {
    seconds / (SECONDS_PER_DAY as int) + UNIX_EPOCH_JULIAN_DAY
}

impl UtcOffset {
    /// The offset is one that the `time` crate can hold.
    pub open spec fn wf(self) -> bool {
        -MAX_UTC_OFFSET <= self.seconds <= MAX_UTC_OFFSET
    }

    /// The offset of so many seconds, or UTC if the `time` crate can hold no such offset.
    pub open spec fn of_seconds(seconds: i32) -> UtcOffset {
        if -MAX_UTC_OFFSET <= seconds <= MAX_UTC_OFFSET {
            UtcOffset { seconds }
        } else {
            UtcOffset { seconds: 0 }
        }
    }
}

impl UtcMoment {
    /// What every reading of the clock has in common: it is a time that the `time` crate can hold.
    pub open spec fn is_clock_reading(self) -> bool {
        is_unix_time(self.seconds as int) && self.nanos < NANOS_PER_SECOND
    }
}

/// The text for the time of day in the time zone.
pub open spec fn time_of_day_text(timestamp: i64, timezone: UtcOffset) -> TimestampText {
    let local = timestamp + timezone.seconds;
    let second = second_of_day(local);
    TimestampText::TimeOfDay {
        timezone,
        julian_day: julian_day_of_seconds(local) as i32,
        hour: (second / 3600) as u8,
        minute: (second / 60 % 60) as u8,
        second: (second % 60) as u8,
    }
}

/// The text asked for in a format: none for a time that the `time` crate cannot hold.
pub open spec fn timestamp_text(
    format: EntryTimeFormat,
    timestamp: i64,
    timezone: UtcOffset,
    reference: UtcMoment,
) -> TimestampText {
    if !is_unix_time(timestamp as int) {
        TimestampText::Blank
    } else {
        match format {
            EntryTimeFormat::DateAndTime => TimestampText::EnhancedAbsolute {
                timestamp,
                reference,
                timezone,
            },
            EntryTimeFormat::TimeOnly => time_of_day_text(timestamp, timezone),
        }
    }
}

/// The time can be shown in the format: a time of day needs a local time that the `time` crate can
/// hold.
pub open spec fn can_format(format: EntryTimeFormat, timestamp: i64, timezone: UtcOffset) -> bool {
    format is TimeOnly && is_unix_time(timestamp as int) ==> is_unix_time(
        timestamp + timezone.seconds,
    )
}

/// `UtcOffset::from_whole_seconds` of the `time` crate: an offset of so many seconds, up to
/// 25:59:59 either way, and an error beyond.
#[verifier::external_body]
fn time_utc_offset(seconds: i32) -> (offset: Option<i32>)
    ensures
        offset == (if -MAX_UTC_OFFSET <= seconds <= MAX_UTC_OFFSET {
            Some(seconds)
        } else {
            None
        }),
{
    match time::UtcOffset::from_whole_seconds(seconds) {
        Ok(offset) => Some(offset.whole_seconds()),
        Err(_) => None,
    }
}

/// `OffsetDateTime::from_unix_timestamp` of the `time` crate: the point in time, in UTC, for the
/// years -9999 to 9999, and an error beyond.
#[verifier::external_body]
fn time_from_unix(timestamp: i64) -> (seconds: Option<i64>)
    ensures
        seconds == (if is_unix_time(timestamp as int) {
            Some(timestamp)
        } else {
            None
        }),
{
    match time::OffsetDateTime::from_unix_timestamp(timestamp) {
        Ok(time) => Some(time.unix_timestamp()),
        Err(_) => None,
    }
}

/// `OffsetDateTime::to_offset` of the `time` crate: the date, by its Julian day number, and the
/// hour, minute and second that a calendar and a clock at the offset show. The crate panics where
/// the local time is out of its range.
#[verifier::external_body]
fn time_to_offset(timestamp: i64, offset: i32) -> (local: (i32, u8, u8, u8))
    requires
        is_unix_time(timestamp as int),
        -MAX_UTC_OFFSET <= offset <= MAX_UTC_OFFSET,
        is_unix_time(timestamp + offset),
    ensures
        local.0 == julian_day_of_seconds(timestamp + offset),
        local.1 == second_of_day(timestamp + offset) / 3600,
        local.2 == second_of_day(timestamp + offset) / 60 % 60,
        local.3 == second_of_day(timestamp + offset) % 60,
{
    let offset = time::UtcOffset::from_whole_seconds(offset).unwrap();
    let time = time::OffsetDateTime::from_unix_timestamp(timestamp).unwrap().to_offset(offset);
    (time.to_julian_day(), time.hour(), time.minute(), time.second())
}

/// `OffsetDateTime::now_utc` of the `time` crate: the current time in UTC. It is one that the crate
/// can hold. Which time it is, is left open.
#[verifier::external_body]
fn time_now_utc() -> (now: UtcMoment)
    ensures
        now.is_clock_reading(),
{
    let now = time::OffsetDateTime::now_utc();
    UtcMoment { seconds: now.unix_timestamp(), nanos: now.nanosecond() }
}

impl UtcOffset {
    /// The offset of so many seconds, or UTC if the `time` crate can hold no such offset.
    pub fn from_whole_seconds(seconds: i32) -> (offset: UtcOffset)
        ensures
            offset == UtcOffset::of_seconds(seconds),
            offset.wf(),
    {
        match time_utc_offset(seconds) {
            Some(seconds) => UtcOffset { seconds },
            None => UtcOffset { seconds: 0 },
        }
    }
}

/// The text for the time of day in the time zone.
fn time_of_day(timestamp: i64, timezone: UtcOffset) -> (text: TimestampText)
    requires
        is_unix_time(timestamp as int),
        timezone.wf(),
        is_unix_time(timestamp + timezone.seconds),
    ensures
        text == time_of_day_text(timestamp, timezone),
{
    let (julian_day, hour, minute, second) = time_to_offset(timestamp, timezone.seconds);
    TimestampText::TimeOfDay { timezone, julian_day, hour, minute, second }
}

impl EntryTimeFormat {
    /// Whether the time can be shown in this format.
    pub fn can_format_timestamp(&self, timestamp: i64, timezone: UtcOffset) -> (can: bool)
        requires
            timezone.wf(),
        ensures
            can == can_format(*self, timestamp, timezone),
    {
        match self {
            EntryTimeFormat::DateAndTime => true,
            EntryTimeFormat::TimeOnly => {
                if timestamp < MIN_UNIX_TIME || timestamp > MAX_UNIX_TIME {
                    return true;
                }
                let local: i64 = timestamp + timezone.seconds as i64;
                MIN_UNIX_TIME <= local && local <= MAX_UNIX_TIME
            },
        }
    }

    /// The text to ask for in this format, with the reference taken from the clock. The clock is
    /// read only where the text has a reference.
    pub fn format_timestamp(&self, timestamp: i64, timezone: UtcOffset) -> (text: TimestampText)
        requires
            timezone.wf(),
            can_format(*self, timestamp, timezone),
        ensures
            exists|reference: UtcMoment| #[trigger]
                reference.is_clock_reading() && text == timestamp_text(
                    *self,
                    timestamp,
                    timezone,
                    reference,
                ),
    {
        let ghost some_reading = UtcMoment { seconds: 0, nanos: 0 };
        assert(some_reading.is_clock_reading());
        let timestamp = match time_from_unix(timestamp) {
            Some(timestamp) => timestamp,
            None => return TimestampText::Blank,
        };
        match self {
            EntryTimeFormat::DateAndTime => {
                let reference = time_now_utc();
                TimestampText::EnhancedAbsolute { timestamp, reference, timezone }
            },
            EntryTimeFormat::TimeOnly => time_of_day(timestamp, timezone),
        }
    }

    /// The text to ask for in this format, as seen from the reference.
    pub fn format_timestamp_at(
        &self,
        timestamp: i64,
        timezone: UtcOffset,
        reference: UtcMoment,
    ) -> (text: TimestampText)
        requires
            timezone.wf(),
            can_format(*self, timestamp, timezone),
        ensures
            text == timestamp_text(*self, timestamp, timezone, reference),
    {
        let timestamp = match time_from_unix(timestamp) {
            Some(timestamp) => timestamp,
            None => return TimestampText::Blank,
        };
        match self {
            EntryTimeFormat::DateAndTime => TimestampText::EnhancedAbsolute {
                timestamp,
                reference,
                timezone,
            },
            EntryTimeFormat::TimeOnly => time_of_day(timestamp, timezone),
        }
    }
}

/// The time of day that is asked for is the one that a clock in the time zone shows, and with its
/// date and time zone it stands for the very point in time that it is asked for.
pub proof fn lemma_time_of_day(timestamp: i64, timezone: UtcOffset, reference: UtcMoment)
    requires
        is_unix_time(timestamp as int),
        timezone.wf(),
    ensures
        match timestamp_text(EntryTimeFormat::TimeOnly, timestamp, timezone, reference) {
            TimestampText::TimeOfDay { timezone: shown, julian_day, hour, minute, second } => {
                let time = (hour * 60 + minute) * 60 + second;
                &&& shown == timezone
                &&& hour < 24 && minute < 60 && second < 60
                &&& time == second_of_day(timestamp + timezone.seconds)
                &&& (julian_day - UNIX_EPOCH_JULIAN_DAY) * SECONDS_PER_DAY + time
                    - timezone.seconds == timestamp
            },
            _ => false,
        },
{
}

/// A time in the years -9999 to 9999 has a text in either format, before the epoch and after it,
/// and no other time has one. The full date is asked for at that very time, seen from the reference
/// and in the time zone. The time of day does not depend on the reference.
pub proof fn lemma_texts_of_times(
    timestamp: i64,
    timezone: UtcOffset,
    reference: UtcMoment,
    other: UtcMoment,
)
    ensures
        timestamp < -377_705_116_800 || 253_402_300_799 < timestamp ==> timestamp_text(
            EntryTimeFormat::DateAndTime,
            timestamp,
            timezone,
            reference,
        ) is Blank && timestamp_text(
            EntryTimeFormat::TimeOnly,
            timestamp,
            timezone,
            reference,
        ) is Blank,
        -377_705_116_800 <= timestamp <= 253_402_300_799 ==> timestamp_text(
            EntryTimeFormat::DateAndTime,
            timestamp,
            timezone,
            reference,
        ) == (TimestampText::EnhancedAbsolute { timestamp, reference, timezone })
            && timestamp_text(
            EntryTimeFormat::TimeOnly,
            timestamp,
            timezone,
            reference,
        ) is TimeOfDay,
        timestamp_text(EntryTimeFormat::TimeOnly, timestamp, timezone, reference)
            == timestamp_text(EntryTimeFormat::TimeOnly, timestamp, timezone, other),
{
}

/// An hour later the clock shows the next hour of the day, with the same minute and second, or the
/// first hour of the next day.
proof fn lemma_hour_later(local: int)
    ensures
        ({
            let now = second_of_day(local);
            let later = second_of_day(local + 3600);
            &&& later / 60 % 60 == now / 60 % 60
            &&& later % 60 == now % 60
            &&& now / 3600 < 23 ==> later / 3600 == now / 3600 + 1 && julian_day_of_seconds(
                local + 3600,
            ) == julian_day_of_seconds(local)
            &&& now / 3600 == 23 ==> later / 3600 == 0 && julian_day_of_seconds(local + 3600)
                == julian_day_of_seconds(local) + 1
            &&& 0 <= now / 3600 <= 23
        }),
{
    let now = second_of_day(local);
    let later = second_of_day(local + 3600);
    let day = local / 86_400;
    assert(local == 86_400 * day + now);
    if now < 82_800 {
        assert((local + 3600) / 86_400 == day);
        assert(later == now + 3600);
    } else {
        assert((local + 3600) / 86_400 == day + 1);
        assert(later == now - 82_800);
    }
}

/// An hour later a clock in the same time zone shows the next hour, with the same minute and
/// second, or the first hour of the next day. A time zone an hour further east shows the same.
pub proof fn lemma_clock_runs(
    timestamp: i64,
    timezone: UtcOffset,
    later: i64,
    east: UtcOffset,
    reference: UtcMoment,
)
    requires
        -377_705_116_800 <= timestamp,
        later == timestamp + 3600,
        later <= 253_402_300_799,
        -93_599 <= timezone.seconds,
        east.seconds == timezone.seconds + 3600,
        east.seconds <= 93_599,
    ensures
        match (
            timestamp_text(EntryTimeFormat::TimeOnly, timestamp, timezone, reference),
            timestamp_text(EntryTimeFormat::TimeOnly, later, timezone, reference),
            timestamp_text(EntryTimeFormat::TimeOnly, timestamp, east, reference),
        ) {
            (
                TimestampText::TimeOfDay { julian_day, hour, minute, second, .. },
                TimestampText::TimeOfDay {
                    julian_day: later_day,
                    hour: later_hour,
                    minute: later_minute,
                    second: later_second,
                    ..
                },
                TimestampText::TimeOfDay {
                    julian_day: east_day,
                    hour: east_hour,
                    minute: east_minute,
                    second: east_second,
                    ..
                },
            ) => {
                &&& east_day == later_day && east_hour == later_hour
                &&& minute == later_minute == east_minute
                &&& second == later_second == east_second
                &&& hour < 23 ==> later_hour == hour + 1 && later_day == julian_day
                &&& hour == 23 ==> later_hour == 0 && later_day == julian_day + 1
                &&& hour <= 23
            },
            _ => false,
        },
{
    lemma_hour_later(timestamp + timezone.seconds);
    assert(later + timezone.seconds == timestamp + timezone.seconds + 3600);
    assert(timestamp + east.seconds == timestamp + timezone.seconds + 3600);
}

/// A full date can be shown of any time, and a time of day of any whose local time lies in the
/// years -9999 to 9999, or which has no text.
pub proof fn lemma_times_that_can_be_shown(timestamp: i64, timezone: UtcOffset)
    ensures
        can_format(EntryTimeFormat::DateAndTime, timestamp, timezone),
        -377_705_116_800 <= timestamp + timezone.seconds <= 253_402_300_799 ==> can_format(
            EntryTimeFormat::TimeOnly,
            timestamp,
            timezone,
        ),
        timestamp < -377_705_116_800 || 253_402_300_799 < timestamp ==> can_format(
            EntryTimeFormat::TimeOnly,
            timestamp,
            timezone,
        ),
{
}

/// An offset of up to 25:59:59 either way is taken as it is, and any other as UTC.
pub proof fn lemma_offsets(seconds: i32)
    ensures
        -93_599 <= seconds <= 93_599 ==> UtcOffset::of_seconds(seconds).seconds == seconds,
        seconds < -93_599 || 93_599 < seconds ==> UtcOffset::of_seconds(seconds).seconds == 0,
        (UtcOffset { seconds }).wf() <==> -93_599 <= seconds <= 93_599,
{
}

} // verus!
