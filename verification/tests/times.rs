use chrono::{DateTime, Datelike, FixedOffset, Local, NaiveDate, TimeDelta, Timelike};
use text_thread_history::bucket::{EntryTimeFormat, TimeBucket};
use text_thread_history::calendar::{Date, IsoWeek, MAX_DAY, MIN_DAY};
use text_thread_history::clock::{LocalTimestamp, MAX_SECONDS, MIN_SECONDS};
use text_thread_history::timestamp::{
    TimestampText, UtcMoment, UtcOffset, MAX_UNIX_TIME, MIN_UNIX_TIME,
};

fn day(year: i32, month: u32, day: u32) -> Date {
    Date {
        day: NaiveDate::from_ymd_opt(year, month, day)
            .unwrap()
            .num_days_from_ce(),
    }
}

fn first_of_year(year: i64) -> i64 {
    let before = year - 1;
    365 * before + before.div_euclid(4) - before.div_euclid(100) + before.div_euclid(400) + 1
}

fn at(seconds: i64, nanos: u32, offset: i32) -> LocalTimestamp {
    LocalTimestamp {
        seconds,
        nanos,
        offset,
    }
}

#[test]
fn calendar_range_is_that_of_chrono() {
    assert_eq!(NaiveDate::MIN.num_days_from_ce(), MIN_DAY);
    assert_eq!(NaiveDate::MAX.num_days_from_ce(), MAX_DAY);
    assert!(DateTime::from_timestamp(MIN_SECONDS, 0).is_some());
    assert!(DateTime::from_timestamp(MIN_SECONDS - 1, 0).is_none());
    assert!(DateTime::from_timestamp(MAX_SECONDS, 0).is_some());
    assert!(DateTime::from_timestamp(MAX_SECONDS + 1, 0).is_none());
}

#[test]
fn iso_week_at_the_turn_of_a_year() {
    // Friday, January 1, 2021 still counts toward 2020.
    assert_eq!(
        day(2021, 1, 1).iso_week(),
        IsoWeek {
            year: 2020,
            week: 53
        }
    );
    // Monday, December 29, 2014 counts toward 2015 already.
    assert_eq!(
        day(2014, 12, 29).iso_week(),
        IsoWeek {
            year: 2015,
            week: 1
        }
    );
    assert_eq!(
        day(2024, 6, 15).iso_week(),
        IsoWeek {
            year: 2024,
            week: 24
        }
    );
}

#[test]
fn iso_week_is_told_by_its_thursday() {
    let mut days: Vec<i32> = (MIN_DAY..MIN_DAY + 800).collect();
    days.extend(MAX_DAY - 800..=MAX_DAY);
    days.extend(-150_000..150_000);
    days.extend(700_000..800_000);
    for number in days {
        let week = Date { day: number }.iso_week();
        let thursday = 7 * (number as i64 - 1).div_euclid(7) + 4;
        let start = first_of_year(week.year as i64);
        assert!(start <= thursday && thursday < first_of_year(week.year as i64 + 1));
        assert_eq!(week.week as i64, (thursday - start) / 7 + 1);
    }
}

#[test]
fn days_before_counts_back() {
    assert_eq!(day(2024, 3, 1).days_before(1), day(2024, 2, 29));
    assert_eq!(day(2023, 3, 1).days_before(7), day(2023, 2, 22));
    assert_eq!(day(2024, 1, 3).days_before(0), day(2024, 1, 3));
}

#[test]
fn buckets_on_a_monday() {
    // The Sunday before a Monday is yesterday, though it is of the past week.
    let monday = day(2024, 6, 10);
    assert_eq!(
        TimeBucket::from_dates(monday, day(2024, 6, 9)),
        TimeBucket::Yesterday
    );
    assert_eq!(
        TimeBucket::from_dates(monday, day(2024, 6, 8)),
        TimeBucket::PastWeek
    );
    assert_eq!(
        TimeBucket::from_dates(monday, day(2024, 6, 3)),
        TimeBucket::PastWeek
    );
    assert_eq!(
        TimeBucket::from_dates(monday, day(2024, 6, 2)),
        TimeBucket::All
    );
    // A day still to come.
    assert_eq!(
        TimeBucket::from_dates(monday, day(2024, 6, 12)),
        TimeBucket::ThisWeek
    );
    assert_eq!(
        TimeBucket::from_dates(monday, day(2024, 6, 17)),
        TimeBucket::All
    );
}

#[test]
fn buckets_across_the_turn_of_a_year() {
    let friday = day(2021, 1, 1);
    assert_eq!(
        TimeBucket::from_dates(friday, day(2020, 12, 28)),
        TimeBucket::ThisWeek
    );
    assert_eq!(
        TimeBucket::from_dates(friday, day(2020, 12, 21)),
        TimeBucket::PastWeek
    );
    assert_eq!(
        TimeBucket::from_dates(friday, day(2020, 12, 20)),
        TimeBucket::All
    );
    // A year before, in a week of the same number.
    assert_eq!(
        TimeBucket::from_dates(day(2024, 6, 15), day(2023, 6, 15)),
        TimeBucket::All
    );
}

#[test]
fn buckets_at_the_ends_of_the_calendar() {
    let first = Date { day: MIN_DAY };
    assert_eq!(TimeBucket::from_dates(first, first), TimeBucket::Today);
    let last = Date { day: MAX_DAY };
    assert_eq!(TimeBucket::from_dates(last, first), TimeBucket::All);
}

#[test]
fn buckets_follow_days_and_repeat_weekly() {
    let rank = |bucket: TimeBucket| match bucket {
        TimeBucket::Today => 0,
        TimeBucket::Yesterday => 1,
        TimeBucket::ThisWeek => 2,
        TimeBucket::PastWeek => 3,
        TimeBucket::All => 4,
    };
    for reference in 738_000..738_007 {
        let mut last = 0;
        for back in 0..30 {
            let bucket = TimeBucket::from_dates(
                Date { day: reference },
                Date {
                    day: reference - back,
                },
            );
            assert!(rank(bucket) >= last);
            last = rank(bucket);
            assert_eq!(
                bucket,
                TimeBucket::from_dates(
                    Date {
                        day: reference + 364
                    },
                    Date {
                        day: reference - back + 364
                    },
                )
            );
            assert!(back >= 8 || bucket != TimeBucket::All);
            assert!(back < 14 || bucket == TimeBucket::All);
        }
    }
}

#[test]
fn bucket_labels_and_formats() {
    let buckets = [
        (TimeBucket::Today, "Today", EntryTimeFormat::TimeOnly),
        (TimeBucket::Yesterday, "Yesterday", EntryTimeFormat::TimeOnly),
        (TimeBucket::ThisWeek, "This Week", EntryTimeFormat::DateAndTime),
        (TimeBucket::PastWeek, "Past Week", EntryTimeFormat::DateAndTime),
        (TimeBucket::All, "All", EntryTimeFormat::DateAndTime),
    ];
    for (bucket, label, format) in buckets {
        assert_eq!(bucket.label(), label);
        assert_eq!(EntryTimeFormat::from(bucket), format);
    }
}

#[test]
fn local_date_depends_on_the_offset() {
    // 23:30 UTC on June 15, 2024.
    let seconds = 1_718_494_200;
    assert_eq!(at(seconds, 0, 0).local_date(), day(2024, 6, 15));
    assert_eq!(at(seconds, 0, 3600).local_date(), day(2024, 6, 16));
    assert_eq!(at(seconds, 0, -86_399).local_date(), day(2024, 6, 14));
    assert_eq!(at(-1, 0, 0).local_date(), day(1969, 12, 31));
}

#[test]
fn local_date_is_that_of_chrono() {
    for (seconds, offset) in [
        (0, 0),
        (1_700_000_000, 19_800),
        (1_700_000_000, -36_000),
        (-62_135_596_800, -1),
        (MAX_SECONDS, -86_399),
    ] {
        let time = DateTime::from_timestamp(seconds, 0)
            .unwrap()
            .with_timezone(&FixedOffset::east_opt(offset).unwrap());
        assert_eq!(
            at(seconds, 7, offset).local_date().day,
            time.naive_local().date().num_days_from_ce()
        );
    }
}

#[test]
fn whole_days_round_toward_zero() {
    let day = 86_400;
    let start = at(1_000_000_000, 0, 0);
    assert_eq!(at(1_000_000_000 + day, 0, 0).whole_days_since(&start), 1);
    assert_eq!(at(1_000_000_000 + day - 1, 999_999_999, 0).whole_days_since(&start), 0);
    assert_eq!(at(1_000_000_000 - day + 1, 0, 0).whole_days_since(&start), 0);
    assert_eq!(at(1_000_000_000 - day, 0, 0).whole_days_since(&start), -1);
    assert_eq!(at(1_000_000_000 - day, 1, 0).whole_days_since(&start), 0);
    assert_eq!(at(1_000_000_000 + 10 * day, 0, 3600).whole_days_since(&start), 10);
}

#[test]
fn whole_days_count_a_leap_second() {
    // A leap second at the end of a minute: 23:59:59 with more than a second of nanoseconds.
    let leap = at(86_400 * 10 - 1, 1_500_000_000, 0);
    assert!(leap.is_valid());
    // Nanoseconds between the two, with the leap second where it lies between the times of day.
    let expected_days = |now: LocalTimestamp, earlier: LocalTimestamp| {
        let (of_now, of_earlier) = (now.seconds % 86_400, earlier.seconds % 86_400);
        let leap = if of_now > of_earlier && earlier.nanos >= 1_000_000_000 {
            1
        } else if of_now < of_earlier && now.nanos >= 1_000_000_000 {
            -1
        } else {
            0
        };
        let nanos = (now.seconds - earlier.seconds + leap) as i128 * 1_000_000_000
            + now.nanos as i128
            - earlier.nanos as i128;
        (nanos / 86_400_000_000_000) as i64
    };
    let noon_leap = at(86_400 * 10 + 43_199, 1_000_000_000, 0);
    let odd_leap = at(86_400 * 10 + 7, 1_999_999_999, 0);
    for seconds in [8, 9, 10, 11, 12].map(|day| day * 86_400) {
        for shift in [-2, -1, 0, 1, 43_198, 43_199, 43_200, 43_201] {
            for nanos in [0, 499_999_999, 500_000_000, 500_000_001] {
                let now = at(seconds + shift, nanos, 0);
                for other in [leap, noon_leap, odd_leap] {
                    assert_eq!(now.whole_days_since(&other), expected_days(now, other));
                    assert_eq!(other.whole_days_since(&now), expected_days(other, now));
                }
            }
        }
    }
    let last = at(MAX_SECONDS, 1_999_999_999, 0);
    assert_eq!(last.whole_days_since(&at(MAX_SECONDS - 86_400, 0, 0)), 1);
    assert_eq!(at(86_400 * 11, 0, 0).whole_days_since(&leap), 0);
    assert_eq!(at(86_400 * 11, 500_000_000, 0).whole_days_since(&leap), 1);
}

#[test]
fn later_is_told_by_the_instant_alone() {
    assert!(at(2, 0, 0).is_later_than(&at(1, 999_999_999, 80_000)));
    assert!(at(1, 2, 0).is_later_than(&at(1, 1, 0)));
    assert!(!at(1, 1, 3600).is_later_than(&at(1, 1, 0)));
    assert!(!at(1, 0, 0).is_later_than(&at(1, 1, 0)));
}

#[test]
fn validity_of_timestamps() {
    assert!(at(0, 0, 0).is_valid());
    assert!(at(MIN_SECONDS, 0, -86_399).is_valid());
    assert!(!at(MIN_SECONDS - 1, 0, 0).is_valid());
    assert!(!at(MAX_SECONDS + 1, 0, 0).is_valid());
    assert!(!at(0, 0, 86_400).is_valid());
    assert!(at(0, 1_000_000_000, 0).is_valid());
    assert!(at(59, 1_000_000_000, 0).is_valid());
    assert!(at(-1, 1_999_999_999, 0).is_valid());
    assert!(!at(59, 2_000_000_000, 0).is_valid());
    assert!(!at(MIN_SECONDS, 0, -1).is_local_date_valid());
    assert!(at(MIN_SECONDS, 0, 1).is_local_date_valid());
    assert!(!at(MAX_SECONDS, 0, 1).is_local_date_valid());
    let now = Local::now();
    assert!(at(
        now.timestamp(),
        now.nanosecond(),
        now.offset().local_minus_utc()
    )
    .is_valid());
    assert!(now.timestamp() < (now + TimeDelta::days(1)).timestamp());
}

#[test]
fn utc_offset_falls_back_to_utc() {
    assert_eq!(UtcOffset::from_whole_seconds(3600).seconds, 3600);
    assert_eq!(UtcOffset::from_whole_seconds(-93_599).seconds, -93_599);
    assert_eq!(UtcOffset::from_whole_seconds(93_599).seconds, 93_599);
    assert_eq!(UtcOffset::from_whole_seconds(93_600).seconds, 0);
    assert_eq!(UtcOffset::from_whole_seconds(i32::MIN).seconds, 0);
}

#[test]
fn time_of_day_in_a_time_zone() {
    let reference = UtcMoment {
        seconds: 0,
        nanos: 0,
    };
    let timezone = UtcOffset { seconds: 19_800 };
    // 13:14:15 UTC.
    let timestamp = 86_400 * 3 + 13 * 3600 + 14 * 60 + 15;
    assert_eq!(
        EntryTimeFormat::TimeOnly.format_timestamp_at(timestamp, timezone, reference),
        TimestampText::TimeOfDay {
            timezone,
            julian_day: 2_440_591,
            hour: 18,
            minute: 44,
            second: 15
        }
    );
    let west = UtcOffset { seconds: -1 };
    assert_eq!(
        EntryTimeFormat::TimeOnly.format_timestamp_at(0, west, reference),
        TimestampText::TimeOfDay {
            timezone: west,
            julian_day: 2_440_587,
            hour: 23,
            minute: 59,
            second: 59
        }
    );
    assert!(matches!(
        EntryTimeFormat::TimeOnly.format_timestamp(timestamp, timezone),
        TimestampText::TimeOfDay { hour: 18, .. }
    ));
}

#[test]
fn full_date_is_seen_from_the_reference() {
    let reference = UtcMoment {
        seconds: 1_700_000_000,
        nanos: 5,
    };
    let timezone = UtcOffset { seconds: 3600 };
    assert_eq!(
        EntryTimeFormat::DateAndTime.format_timestamp_at(1_600_000_000, timezone, reference),
        TimestampText::EnhancedAbsolute {
            timestamp: 1_600_000_000,
            reference,
            timezone
        }
    );
    let before = Local::now().timestamp();
    let text = EntryTimeFormat::DateAndTime.format_timestamp(1_600_000_000, timezone);
    match text {
        TimestampText::EnhancedAbsolute { reference, .. } => {
            assert!(before <= reference.seconds && reference.seconds <= before + 60);
        }
        _ => panic!("no full date"),
    }
}

#[test]
fn no_text_for_a_time_out_of_range() {
    let reference = UtcMoment {
        seconds: 0,
        nanos: 0,
    };
    let utc = UtcOffset { seconds: 0 };
    for format in [EntryTimeFormat::DateAndTime, EntryTimeFormat::TimeOnly] {
        for timestamp in [MIN_UNIX_TIME - 1, MAX_UNIX_TIME + 1, i64::MIN, i64::MAX] {
            assert!(format.can_format_timestamp(timestamp, utc));
            assert_eq!(
                format.format_timestamp_at(timestamp, utc, reference),
                TimestampText::Blank
            );
            assert_eq!(format.format_timestamp(timestamp, utc), TimestampText::Blank);
        }
        for timestamp in [MIN_UNIX_TIME, MAX_UNIX_TIME] {
            assert_ne!(
                format.format_timestamp_at(timestamp, utc, reference),
                TimestampText::Blank
            );
        }
    }
    let east = UtcOffset { seconds: 1 };
    assert!(!EntryTimeFormat::TimeOnly.can_format_timestamp(MAX_UNIX_TIME, east));
    assert!(EntryTimeFormat::DateAndTime.can_format_timestamp(MAX_UNIX_TIME, east));
}
