//! The headings that threads are listed under, by how long ago they were last changed.

use crate::calendar::{lemma_same_iso_week, week_number, Date, MIN_DAY};
use vstd::prelude::*;

verus! {

/// A heading of the list.
#[derive(Clone, Copy, Debug, PartialEq, Eq, Structural)]
pub enum TimeBucket {
    Today,
    Yesterday,
    ThisWeek,
    PastWeek,
    All,
}

/// What a row shows of the time at which its thread was last changed.
#[derive(Clone, Copy, Debug, PartialEq, Eq, Structural)]
pub enum EntryTimeFormat {
    DateAndTime,
    TimeOnly,
}

/// The bucket of a day, seen from a reference day: the same day, the day before, another day of
/// the same Monday-to-Sunday week, a day of the week before that, or any other day.
pub open spec fn bucket_of_day(reference: int, day: int) -> TimeBucket {
    if day == reference {
        TimeBucket::Today
    } else if day == reference - 1 {
        TimeBucket::Yesterday
    } else if week_number(day) == week_number(reference) {
        TimeBucket::ThisWeek
    } else if week_number(day) == week_number(reference) - 1 {
        TimeBucket::PastWeek
    } else {
        TimeBucket::All
    }
}

/// The days before the reference that its buckets are told by exist in the calendar: the day
/// before, for any day but the reference itself, and the day a week before, for a day that is none
/// of today, yesterday and this week.
pub open spec fn bucket_days_exist(reference: int, day: int) -> bool {
    &&& day != reference ==> MIN_DAY <= reference - 1
    &&& bucket_of_day(reference, day) is PastWeek || bucket_of_day(reference, day) is All
        ==> MIN_DAY <= reference - 7
}

impl TimeBucket {
    /// How the rows of the bucket show their time.
    pub open spec fn time_format(self) -> EntryTimeFormat {
        match self {
            TimeBucket::Today | TimeBucket::Yesterday => EntryTimeFormat::TimeOnly,
            TimeBucket::ThisWeek | TimeBucket::PastWeek | TimeBucket::All => {
                EntryTimeFormat::DateAndTime
            },
        }
    }

    /// The text of the heading.
    pub open spec fn text(self) -> Seq<char> {
        match self {
            TimeBucket::Today => "Today"@,
            TimeBucket::Yesterday => "Yesterday"@,
            TimeBucket::ThisWeek => "This Week"@,
            TimeBucket::PastWeek => "Past Week"@,
            TimeBucket::All => "All"@,
        }
    }

    /// The place of the heading in the list, from the newest threads down.
    pub open spec fn rank(self) -> int {
        match self {
            TimeBucket::Today => 0,
            TimeBucket::Yesterday => 1,
            TimeBucket::ThisWeek => 2,
            TimeBucket::PastWeek => 3,
            TimeBucket::All => 4,
        }
    }

    /// The bucket of a date, seen from a reference date.
    pub fn from_dates(reference: Date, date: Date) -> (bucket: TimeBucket)
        requires
            reference.wf(),
            date.wf(),
            bucket_days_exist(reference.day as int, date.day as int),
        ensures
            bucket == bucket_of_day(reference.day as int, date.day as int),
    {
        if date == reference {
            return TimeBucket::Today;
        }
        if date == reference.days_before(1) {
            return TimeBucket::Yesterday;
        }
        let week = date.iso_week();
        let reference_week = reference.iso_week();
        proof {
            lemma_same_iso_week(date.day as int, week, reference.day as int, reference_week);
        }
        if reference_week == week {
            return TimeBucket::ThisWeek;
        }
        let week_ago = reference.days_before(7);
        let last_week = week_ago.iso_week();
        proof {
            lemma_same_iso_week(date.day as int, week, week_ago.day as int, last_week);
        }
        if week == last_week {
            return TimeBucket::PastWeek;
        }
        TimeBucket::All
    }

    /// The heading as it is shown.
    pub fn label(&self) -> (label: String)
        ensures
            label@ == self.text(),
    {
        match self {
            TimeBucket::Today => "Today".to_owned(),
            TimeBucket::Yesterday => "Yesterday".to_owned(),
            TimeBucket::ThisWeek => "This Week".to_owned(),
            TimeBucket::PastWeek => "Past Week".to_owned(),
            TimeBucket::All => "All".to_owned(),
        }
    }
}

impl From<TimeBucket> for EntryTimeFormat {
    fn from(bucket: TimeBucket) -> (format: EntryTimeFormat) {
        match bucket {
            TimeBucket::Today => EntryTimeFormat::TimeOnly,
            TimeBucket::Yesterday => EntryTimeFormat::TimeOnly,
            TimeBucket::ThisWeek => EntryTimeFormat::DateAndTime,
            TimeBucket::PastWeek => EntryTimeFormat::DateAndTime,
            TimeBucket::All => EntryTimeFormat::DateAndTime,
        }
    }
}

impl vstd::std_specs::convert::FromSpecImpl<TimeBucket> for EntryTimeFormat {
    open spec fn obeys_from_spec() -> bool {
        true
    }

    open spec fn from_spec(bucket: TimeBucket) -> EntryTimeFormat {
        bucket.time_format()
    }
}

/// Where one heading ends and the next begins. With the Monday on or before the reference day, this
/// week is the seven days from that Monday on and the past week the seven days before it, on
/// whatever day of the week the reference falls. Of these the reference day itself is today, the
/// day before it is yesterday, also where that is the Sunday of the past week, and every other day
/// stands under the heading of its week. All days before these two weeks, and all after them, stand
/// under the last.
pub proof fn lemma_bucket_boundaries(reference: int, day: int, monday: int)
    requires
        monday <= reference < monday + 7,
        (monday - 1) % 7 == 0,
    ensures
        bucket_of_day(reference, day) is Today <==> day == reference,
        bucket_of_day(reference, day) is Yesterday <==> day + 1 == reference,
        bucket_of_day(reference, day) is ThisWeek <==> monday <= day < monday + 7 && day
            != reference && day + 1 != reference,
        bucket_of_day(reference, day) is PastWeek <==> monday - 7 <= day < monday && day + 1
            != reference,
        bucket_of_day(reference, day) is All <==> day < monday - 7 || monday + 7 <= day,
{
}

/// The rows of today and yesterday show the time of day, and those of any other day how long ago it
/// is.
pub proof fn lemma_time_formats(reference: int, day: int)
    ensures
        bucket_of_day(reference, day).time_format() is TimeOnly <==> reference - 1 <= day
            <= reference,
{
}

/// Every day has a bucket, seen from a day a week or more after the start of the calendar. Seen
/// from an earlier day, only the first day of the calendar lacks the day before, and only days
/// outside the running week lack the week before.
pub proof fn lemma_buckets_exist(reference: int, day: int)
    requires
        MIN_DAY <= reference,
    ensures
        MIN_DAY + 7 <= reference ==> bucket_days_exist(reference, day),
        bucket_days_exist(reference, reference),
        MIN_DAY < reference ==> bucket_days_exist(reference, reference - 1),
        MIN_DAY < reference && 7 * week_number(reference) < day <= 7 * week_number(reference) + 7
            ==> bucket_days_exist(reference, day),
{
}

/// Of two days that are not after the reference, the earlier one never stands under a heading that
/// comes before that of the later one.
pub proof fn lemma_buckets_follow_days(reference: int, later: int, earlier: int)
    requires
        earlier <= later <= reference,
    ensures
        bucket_of_day(reference, later).rank() <= bucket_of_day(reference, earlier).rank(),
{
}

/// Of the days not after the reference, those before its last week stand under the heading for
/// all the rest, and no others: none of the last seven days, and every day two weeks back or more.
pub proof fn lemma_all_is_older_than_last_week(reference: int, day: int)
    requires
        day <= reference,
    ensures
        bucket_of_day(reference, day) is All <==> day <= 7 * (week_number(reference) - 1),
        reference - day < 8 ==> !(bucket_of_day(reference, day) is All),
        reference - day >= 14 ==> bucket_of_day(reference, day) is All,
{
}

/// Each heading has a text of its own.
pub proof fn lemma_headings_differ(a: TimeBucket, b: TimeBucket)
    ensures
        a.text() == b.text() ==> a == b,
        a.rank() == b.rank() ==> a == b,
{
    reveal_strlit("Today");
    reveal_strlit("Yesterday");
    reveal_strlit("This Week");
    reveal_strlit("Past Week");
    reveal_strlit("All");
    if a.text() == b.text() {
        assert(a.text().len() == b.text().len());
        assert(a.text()[0] == b.text()[0]);
    }
}

/// Moving both days by whole weeks changes no bucket.
pub proof fn lemma_buckets_repeat_weekly(reference: int, day: int, weeks: int)
    ensures
        bucket_of_day(reference + 7 * weeks, day + 7 * weeks) == bucket_of_day(reference, day),
{
}

} // verus!
