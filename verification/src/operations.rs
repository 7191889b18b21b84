//! What the operations of the panel do, told of what is handed to them and what comes back.

use crate::bucket::{lemma_bucket_boundaries, lemma_headings_differ, EntryTimeFormat, TimeBucket};
use crate::calendar::{lemma_same_iso_week, lemma_week_days, Date, IsoWeek};
use crate::clock::{
    is_clock_date, lemma_days_fit_between, lemma_later_times, lemma_seconds_of_day, lemma_valid_times,
    LocalTimestamp,
};
use crate::history::{
    compute_visible_items, Effects, Refresh, Removal, TextThreadHistory, TextThreadHistoryEvent,
    UpdateRequest, UpdateStep,
};
use crate::items::{
    bucketed_items, build_bucketed_items, build_bucketed_items_on, build_search_items, lemma_bucketed_push, lemma_bucketed_threads,
    lemma_found_rows, lemma_titles_are_searched, listed_threads, search_request, ListItemType,
    SearchRequest, StringMatch,
};
use crate::laws::{
    lemma_deletion_keeps_selected_thread, lemma_finished_list, lemma_finished_selection,
    lemma_row_opens_its_thread, lemma_selection_changes_selection_only, lemma_update_needs_store,
    lemma_update_request,
};
use crate::paths::{
    compare_paths, first_marked, is_plain_path, lemma_first_of_marked,
    lemma_rows_are_compared_by_path,
};
use crate::rows::{
    lemma_row_of_thread, lemma_row_shows_days, lemma_row_shows_time_of_day, lemma_rows_of_list,
    lemma_what_is_shown, search_placeholder, DisplayText, EntryRow, FooterText, HistoryBody,
    HistoryFooter, HistoryView, ListRow,
};
use crate::selection::{
    lemma_next_is_nearest_below, lemma_previous_is_nearest_above, lemma_selection_from_beyond,
    lemma_selection_passes_headings, next_start, previous_start, selection_target, Bias,
};
use crate::text::{
    append_integer, integer_text, is_white_space, lemma_digits_of_number, lemma_number_reads_back,
};
use crate::thread::{
    entry_title, lemma_blank_titles_are_listed_alike, lemma_sorted_by_time,
    lemma_title_is_listed_as_it_stands, sort_newest_first, SavedTextThreadMetadata,
};
use crate::timestamp::{
    lemma_offsets, lemma_texts_of_times, lemma_time_of_day, timestamp_text, TimestampText, UtcMoment,
    UtcOffset,
};
use std::ops::Range;
use vstd::prelude::*;

verus! {

/// A date stands under the heading of its week: this week is the seven days from the Monday on or
/// before the reference, and the past week the seven days before that. Of these, the reference is
/// today and the day before it is yesterday.
pub proof fn lemma_from_dates(reference: Date, date: Date, bucket: TimeBucket, monday: int)
    requires
        call_ensures(TimeBucket::from_dates, (reference, date), bucket),
        monday <= reference.day < monday + 7,
        (monday - 1) % 7 == 0,
    ensures
        bucket is Today <==> date.day == reference.day,
        bucket is Yesterday <==> date.day + 1 == reference.day,
        bucket is ThisWeek <==> monday <= date.day < monday + 7 && date.day != reference.day
            && date.day + 1 != reference.day,
        bucket is PastWeek <==> monday - 7 <= date.day < monday && date.day + 1 != reference.day,
        bucket is All <==> date.day < monday - 7 || monday + 7 <= date.day,
{
    lemma_bucket_boundaries(reference.day as int, date.day as int, monday);
}

/// Headings are shown by texts of their own.
pub proof fn lemma_labels_differ(a: TimeBucket, b: TimeBucket, label_a: String, label_b: String)
    requires
        call_ensures(TimeBucket::label, (&a,), label_a),
        call_ensures(TimeBucket::label, (&b,), label_b),
        label_a@ == label_b@,
    ensures
        a == b,
{
    lemma_headings_differ(a, b);
}

/// The dates of one Monday-to-Sunday week have one ISO 8601 week, and dates of different weeks have
/// different ones.
#[verifier::spinoff_prover]
#[verifier::rlimit(30)]
pub proof fn lemma_iso_weeks_of_dates(
    a: Date,
    b: Date,
    week_a: IsoWeek,
    week_b: IsoWeek,
    monday: int,
)
    requires
        call_ensures(Date::iso_week, (&a,), week_a),
        call_ensures(Date::iso_week, (&b,), week_b),
        monday <= a.day < monday + 7,
        (monday - 1) % 7 == 0,
    ensures
        week_a == week_b <==> monday <= b.day < monday + 7,
{
    lemma_same_iso_week(a.day as int, week_a, b.day as int, week_b);
    lemma_week_days(a.day as int);
    lemma_week_days(b.day as int);
}

/// An earlier date is so many days earlier.
pub proof fn lemma_dates_before(date: Date, days: u32, earlier: Date)
    requires
        call_ensures(Date::days_before, (&date, days), earlier),
    ensures
        earlier.day + days == date.day,
{
}

/// The local date of a time is the day whose 86,400 seconds hold the time, moved by its offset.
pub proof fn lemma_local_dates(time: LocalTimestamp, date: Date)
    requires
        call_ensures(LocalTimestamp::local_date, (&time,), date),
    ensures
        0 <= time.seconds + time.offset - 86_400 * (date.day - 719_163) < 86_400,
{
    lemma_seconds_of_day(time, date.day as int);
}

/// Times are told apart to the nanosecond, and offsets play no part.
pub proof fn lemma_comparing_times(a: LocalTimestamp, b: LocalTimestamp, later: bool)
    requires
        call_ensures(LocalTimestamp::is_later_than, (&a, &b), later),
    ensures
        later <==> a.seconds > b.seconds || a.seconds == b.seconds && a.nanos > b.nanos,
{
    lemma_later_times(a, b);
    lemma_later_times(b, a);
}

/// As many whole days are counted between two times as fit between them.
pub proof fn lemma_counting_days(now: LocalTimestamp, earlier: LocalTimestamp, days: i64)
    requires
        call_ensures(LocalTimestamp::whole_days_since, (&now, &earlier), days),
        now.nanos < 1_000_000_000,
        earlier.nanos < 1_000_000_000,
    ensures
        ({
            let nanos = (now.seconds - earlier.seconds) * 1_000_000_000 + now.nanos - earlier.nanos;
            &&& nanos >= 0 ==> 0 <= nanos - days * 86_400_000_000_000 < 86_400_000_000_000
            &&& nanos <= 0 ==> 0 <= -nanos + days * 86_400_000_000_000 < 86_400_000_000_000
        }),
{
    lemma_days_fit_between(now, earlier);
}

/// Times are tested for what chrono can hold, and local dates for what its calendar can.
pub proof fn lemma_testing_times(time: LocalTimestamp, valid: bool, has_date: bool)
    requires
        call_ensures(LocalTimestamp::is_valid, (&time,), valid),
        call_ensures(LocalTimestamp::is_local_date_valid, (&time,), has_date),
    ensures
        valid <==> -8_334_601_228_800 <= time.seconds <= 8_210_266_876_799 && time.nanos
            < 2_000_000_000 && -86_400 < time.offset < 86_400,
        has_date <==> -8_334_601_228_800 <= time.seconds + time.offset <= 8_210_266_876_799,
{
    lemma_valid_times(time);
}

/// A number is appended to a text in decimal digits that read back as the number, after a minus
/// sign if it is below zero. What was there before stays.
pub proof fn lemma_appending_numbers(text: &mut String, number: i64)
    requires
        call_ensures(append_integer, (text, number), ()),
    ensures
        ({
            let before = old(text)@;
            let after = final(text)@;
            let end = before.len() as int;
            &&& end < after.len()
            &&& after.take(end) == before
            &&& forall|i: int| end < i < after.len() ==> 48 <= #[trigger] after[i] as u32 <= 57
            &&& number >= 0 ==> {
                &&& 48 <= after[end] as u32 <= 57
                &&& after[end] as u32 == 48 ==> number == 0
                &&& after.skip(end).fold_left(
                    0int,
                    |value: int, digit: char| 10 * value + (digit as u32 - 48),
                ) == number
            }
            &&& number < 0 ==> {
                &&& after[end] == '-'
                &&& end + 1 < after.len()
                &&& after[end + 1] as u32 != 48
                &&& after.skip(end + 1).fold_left(
                    0int,
                    |value: int, digit: char| 10 * value + (digit as u32 - 48),
                ) == -number
            }
        }),
{
    let before = old(text)@;
    let after = final(text)@;
    let size: int = if number < 0 {
        -number
    } else {
        number as int
    };
    lemma_digits_of_number(size);
    lemma_number_reads_back(size);
    lemma_number_reads_back(number as int);
    assert(after =~= before + integer_text(number as int));
    assert(after.take(before.len() as int) =~= before);
    if number < 0 {
        let digits = after.skip(before.len() as int + 1);
        assert(after[before.len() as int] == integer_text(number as int)[0]);
        assert(digits =~= integer_text(number as int).drop_first());
        assert(after[before.len() as int + 1] == digits[0]);
        assert forall|i: int| before.len() < i < after.len() implies 48
            <= #[trigger] after[i] as u32 <= 57 by {
            assert(after[i] == digits[i - before.len() - 1]);
        }
    } else {
        let digits = after.skip(before.len() as int);
        assert(digits =~= integer_text(size));
        assert(after[before.len() as int] == digits[0]);
        assert forall|i: int| before.len() < i < after.len() implies 48
            <= #[trigger] after[i] as u32 <= 57 by {
            assert(after[i] == digits[i - before.len()]);
        }
    }
}

/// A thread is listed under its own title as it stands, whatever its length, if there is anything
/// but white space in it, and otherwise as a new thread.
pub proof fn lemma_listing_titles(entry: SavedTextThreadMetadata, title: String)
    requires
        call_ensures(entry_title, (&entry,), title),
    ensures
        forall|i: int|
            0 <= i < entry.title@.len() && !is_white_space(#[trigger] entry.title@[i])
                ==> title@ == entry.title@,
        (forall|i: int| 0 <= i < entry.title@.len() ==> is_white_space(#[trigger] entry.title@[i]))
            ==> title@ == seq!['N', 'e', 'w', ' ', 'T', 'h', 'r', 'e', 'a', 'd'],
{
    if forall|i: int| 0 <= i < entry.title@.len() ==> is_white_space(#[trigger] entry.title@[i]) {
        lemma_blank_titles_are_listed_alike(entry.title@);
    } else {
        let visible = choose|i: int|
            0 <= i < entry.title@.len() && !is_white_space(#[trigger] entry.title@[i]);
        lemma_title_is_listed_as_it_stands(entry.title@, visible);
    }
}

/// Sorting keeps all threads, puts no thread before one that was changed later, and keeps the order
/// of threads that were changed in the same nanosecond.
pub proof fn lemma_sorting_threads(
    threads: Vec<SavedTextThreadMetadata>,
    sorted: Vec<SavedTextThreadMetadata>,
    seconds: i64,
    nanos: u32,
)
    requires
        call_ensures(sort_newest_first, (threads,), sorted),
    ensures
        sorted@.to_multiset() == threads@.to_multiset(),
        forall|i: int, j: int|
            0 <= i < j < sorted@.len() ==> {
                let newer = (#[trigger] sorted@[i]).mtime;
                let older = (#[trigger] sorted@[j]).mtime;
                newer.seconds > older.seconds || newer.seconds == older.seconds && newer.nanos
                    >= older.nanos
            },
        sorted@.filter(
            |thread: SavedTextThreadMetadata|
                thread.mtime.seconds == seconds && thread.mtime.nanos == nanos,
        ) == threads@.filter(
            |thread: SavedTextThreadMetadata|
                thread.mtime.seconds == seconds && thread.mtime.nanos == nanos,
        ),
{
    lemma_sorted_by_time(threads@, seconds, nanos);
}

/// The list of threads under their headings grows by a thread at its end: by a row that shows the
/// time of day if the thread is of today or yesterday and how long ago it is otherwise, and by a
/// heading before it unless the thread before it has the same. All threads are listed, in their
/// order.
pub proof fn lemma_listing_threads(
    today: Date,
    threads: Vec<SavedTextThreadMetadata>,
    more: Vec<SavedTextThreadMetadata>,
    items: Vec<ListItemType>,
    more_items: Vec<ListItemType>,
    date: Date,
    date_before: Date,
    bucket: TimeBucket,
    bucket_before: TimeBucket,
)
    requires
        call_ensures(build_bucketed_items_on, (today, threads), items),
        call_ensures(build_bucketed_items_on, (today, more), more_items),
        more@.len() == threads@.len() + 1,
        more@.drop_last() == threads@,
        call_ensures(LocalTimestamp::local_date, (&more@.last().mtime,), date),
        call_ensures(TimeBucket::from_dates, (today, date), bucket),
        threads@.len() > 0 ==> call_ensures(
            LocalTimestamp::local_date,
            (&threads@.last().mtime,),
            date_before,
        ) && call_ensures(TimeBucket::from_dates, (today, date_before), bucket_before),
    ensures
        threads@.len() == 0 ==> items@.len() == 0,
        listed_threads(more_items@) == more@,
        ({
            let goes_on = threads@.len() > 0 && bucket_before == bucket;
            &&& more_items@.len() == items@.len() + (if goes_on {
                1int
            } else {
                2
            })
            &&& more_items@.take(items@.len() as int) == items@
            &&& !goes_on ==> more_items@[items@.len() as int] == ListItemType::BucketSeparator(
                bucket,
            )
            &&& more_items@.last() is Entry
            &&& more_items@.last()->Entry_entry == more@.last()
            &&& more_items@.last()->Entry_format is TimeOnly <==> today.day - 1 <= date.day
                <= today.day
        }),
{
    assert(threads@.push(more@.last()) =~= more@);
    lemma_bucketed_push(today.day as int, threads@, more@.last());
    lemma_bucketed_threads(today.day as int, more@);
    if threads@.len() == 0 {
        assert(threads@ =~= Seq::empty());
    }
}

/// At the current date the list is the one that is made on some date of the clock, the same for all
/// rows.
pub proof fn lemma_listing_threads_now(
    threads: Vec<SavedTextThreadMetadata>,
    items: Vec<ListItemType>,
)
    requires
        call_ensures(build_bucketed_items, (threads,), items),
    ensures
        listed_threads(items@) == threads@,
        threads@.len() == 0 ==> items@.len() == 0,
        exists|today: Date| #[trigger]
            today.wf() && today.day >= 719_162 && forall|same: Vec<ListItemType>| #[trigger]
                call_ensures(build_bucketed_items_on, (today, threads), same) ==> same@ == items@,
{
    let today = choose|today: Date| #[trigger]
        is_clock_date(today) && items@ == bucketed_items(today.day as int, threads@);
    lemma_bucketed_threads(today.day as int, threads@);
    assert(today.wf() && forall|same: Vec<ListItemType>| #[trigger]
        call_ensures(build_bucketed_items_on, (today, threads), same) ==> same@ == items@);
    if threads@.len() == 0 {
        assert(threads@ =~= Seq::empty());
    }
}

/// The matcher is asked for the query as it stands, in the titles of all threads, without regard to
/// case, with shorter titles first and for a hundred matches at most.
pub proof fn lemma_asking_matcher(
    threads: Vec<SavedTextThreadMetadata>,
    query: String,
    request: SearchRequest,
    index: int,
    visible: int,
)
    requires
        call_ensures(search_request, (&threads, query), request),
        0 <= index < threads@.len(),
        0 <= visible < threads@[index].title@.len(),
        !is_white_space(threads@[index].title@[visible]),
    ensures
        request.query@ == query@,
        !request.smart_case,
        request.penalize_length,
        request.max_results == 100,
        request.candidates@.len() == threads@.len(),
        request.candidates@[index].id == index,
        request.candidates@[index].string@ == threads@[index].title@,
{
    lemma_titles_are_searched(threads@, request.candidates@, index, visible);
}

/// What the matcher found is listed in its order, one row for each match, with the thread and the
/// places that were matched.
pub proof fn lemma_listing_matches(
    threads: Vec<SavedTextThreadMetadata>,
    matches: Vec<StringMatch>,
    items: Vec<ListItemType>,
)
    requires
        call_ensures(build_search_items, (&threads, matches), items),
    ensures
        items@.len() == matches@.len(),
        forall|i: int|
            0 <= i < items@.len() ==> #[trigger] items@[i] is SearchResult
                && items@[i]->SearchResult_entry == threads@[matches@[i].candidate_id as int]
                && items@[i]->SearchResult_positions@ == matches@[i].positions@,
{
    assert forall|i: int| 0 <= i < matches@.len() implies #[trigger] items@[i] is SearchResult
        && items@[i]->SearchResult_entry == threads@[matches@[i].candidate_id as int]
        && items@[i]->SearchResult_positions@ == matches@[i].positions@ by {
        lemma_found_rows(threads@, matches@, i);
    }
    if matches@.len() > 0 {
        lemma_found_rows(threads@, matches@, 0);
    }
}

/// The rows are compared with a path by the paths of their threads. A thread with that very path is
/// marked, a heading never is, and neither is a thread with another path if both are written
/// plainly.
pub proof fn lemma_comparing_rows(
    items: Vec<ListItemType>,
    path: String,
    same: Vec<bool>,
    index: int,
)
    requires
        call_ensures(compare_paths, (&items, &path), same),
        0 <= index < items@.len(),
    ensures
        same@.len() == items@.len(),
        match items@[index] {
            ListItemType::BucketSeparator(_) => !same@[index],
            ListItemType::Entry { entry, .. } => {
                &&& entry.path@ == path@ ==> same@[index]
                &&& is_plain_path(entry.path@) && is_plain_path(path@) ==> same@[index] == (
                entry.path@ == path@)
            },
            ListItemType::SearchResult { entry, .. } => {
                &&& entry.path@ == path@ ==> same@[index]
                &&& is_plain_path(entry.path@) && is_plain_path(path@) ==> same@[index] == (
                entry.path@ == path@)
            },
        },
{
    lemma_rows_are_compared_by_path(items@, path@, same@, index);
}

/// Of the marked rows the first is found.
pub proof fn lemma_finding_marked_row(marks: Vec<bool>, index: usize, marked: int)
    requires
        call_ensures(first_marked, (&marks,), index),
    ensures
        0 <= marked < marks@.len() && marks@[marked] ==> index <= marked && marks@[index as int],
        (forall|i: int| 0 <= i < marks@.len() ==> !#[trigger] marks@[i]) ==> index == 0,
{
    lemma_first_of_marked(marks@, index as int, marked);
}

/// A selection lands on a thread and passes headings only, around the end of the list or its top if
/// need be.
pub proof fn lemma_landing_of_selection(
    items: Vec<ListItemType>,
    start: usize,
    bias: Bias,
    target: usize,
    passed: int,
)
    requires
        call_ensures(selection_target, (&items, start, bias), target),
        0 <= passed < items@.len(),
    ensures
        target < items@.len(),
        !(items@[target as int] is BucketSeparator),
        ({
            let from = if start < items@.len() {
                start as int
            } else if bias is Right {
                0
            } else {
                items@.len() - 1
            };
            &&& bias is Right && from <= passed < target ==> items@[passed] is BucketSeparator
            &&& bias is Right && target < from && (from <= passed || passed < target)
                ==> items@[passed] is BucketSeparator
            &&& bias is Left && target < passed <= from ==> items@[passed] is BucketSeparator
            &&& bias is Left && from < target && (passed <= from || target < passed)
                ==> items@[passed] is BucketSeparator
        }),
{
    if start < items@.len() {
        lemma_selection_passes_headings(items@, start as int, bias, target as int, passed);
    } else {
        lemma_selection_from_beyond(items@, start as int, target as int, bias);
        let from = if bias is Right {
            0
        } else {
            items@.len() - 1
        };
        lemma_selection_passes_headings(items@, from, bias, target as int, passed);
    }
}

/// An offset that the `time` crate can hold is taken as it is, and any other as UTC.
pub proof fn lemma_taking_offsets(seconds: i32, offset: UtcOffset)
    requires
        call_ensures(UtcOffset::from_whole_seconds, (seconds,), offset),
    ensures
        offset.seconds == if -93_599 <= seconds <= 93_599 {
            seconds
        } else {
            0
        },
{
    lemma_offsets(seconds);
}

/// A full date is asked for at the very time, seen from the reference. A time of day is what a
/// clock in the time zone shows. A time outside the years -9999 to 9999 has no text.
pub proof fn lemma_formatting_times(
    format: EntryTimeFormat,
    timestamp: i64,
    timezone: UtcOffset,
    reference: UtcMoment,
    text: TimestampText,
)
    requires
        call_ensures(
            EntryTimeFormat::format_timestamp_at,
            (&format, timestamp, timezone, reference),
            text,
        ),
        timezone.wf(),
    ensures
        text is Blank <==> timestamp < -377_705_116_800 || 253_402_300_799 < timestamp,
        !(text is Blank) && format is DateAndTime ==> text == (TimestampText::EnhancedAbsolute {
            timestamp,
            reference,
            timezone,
        }),
        !(text is Blank) && format is TimeOnly ==> match text {
            TimestampText::TimeOfDay { timezone: shown, julian_day, hour, minute, second } => {
                &&& shown == timezone
                &&& hour < 24 && minute < 60 && second < 60
                &&& (julian_day - 2_440_588) * 86_400 + hour * 3600 + minute * 60 + second
                    == timestamp + timezone.seconds
            },
            _ => false,
        },
{
    lemma_texts_of_times(timestamp, timezone, reference, reference);
    if -377_705_116_800 <= timestamp <= 253_402_300_799 {
        lemma_time_of_day(timestamp, timezone, reference);
    }
}

/// At the current time the same holds, but for which time the reference is.
pub proof fn lemma_formatting_times_now(
    format: EntryTimeFormat,
    timestamp: i64,
    timezone: UtcOffset,
    text: TimestampText,
)
    requires
        call_ensures(EntryTimeFormat::format_timestamp, (&format, timestamp, timezone), text),
        timezone.wf(),
    ensures
        text is Blank <==> timestamp < -377_705_116_800 || 253_402_300_799 < timestamp,
        !(text is Blank) && format is DateAndTime ==> match text {
            TimestampText::EnhancedAbsolute { timestamp: shown, timezone: zone, .. } => shown
                == timestamp && zone == timezone,
            _ => false,
        },
        !(text is Blank) && format is TimeOnly ==> match text {
            TimestampText::TimeOfDay { timezone: shown, julian_day, hour, minute, second } => {
                &&& shown == timezone
                &&& hour < 24 && minute < 60 && second < 60
                &&& (julian_day - 2_440_588) * 86_400 + hour * 3600 + minute * 60 + second
                    == timestamp + timezone.seconds
            },
            _ => false,
        },
{
    let reference = choose|reference: UtcMoment| #[trigger]
        reference.is_clock_reading() && text == timestamp_text(
            format,
            timestamp,
            timezone,
            reference,
        );
    lemma_texts_of_times(timestamp, timezone, reference, reference);
    if -377_705_116_800 <= timestamp <= 253_402_300_799 {
        lemma_time_of_day(timestamp, timezone, reference);
    }
}

/// A new panel lists nothing, has its first place selected and nothing hovered, searches for
/// nothing, asks nothing, and shows times at the local offset. It asks for a list of all threads,
/// from the newest to the oldest, if there is a store.
pub proof fn lemma_new_panel(
    local_offset: i32,
    store: Option<Vec<SavedTextThreadMetadata>>,
    created: (TextThreadHistory, Option<UpdateRequest>),
    sorted: Vec<SavedTextThreadMetadata>,
)
    requires
        call_ensures(TextThreadHistory::new_at, (local_offset, store), created),
        store is Some ==> call_ensures(sort_newest_first, (store->0,), sorted),
    ensures
        created.0.visible_items@.len() == 0,
        created.0.selected_index == 0,
        created.0.hovered_index is None,
        created.0.search_query@.len() == 0,
        !created.0.confirming_delete_history,
        created.0.local_timezone.seconds == if -93_599 <= local_offset <= 93_599 {
            local_offset
        } else {
            0
        },
        created.1 is Some <==> store is Some,
        created.1 is Some ==> created.1->0.number == created.0.latest_update
            && created.1->0.threads@ == sorted@ && created.1->0.query@.len() == 0
            && created.1->0.selected_path is None,
{
    lemma_offsets(local_offset);
}

/// At the current local offset a new panel is the same, and its offset is one of less than a day.
pub proof fn lemma_new_panel_now(
    store: Option<Vec<SavedTextThreadMetadata>>,
    created: (TextThreadHistory, Option<UpdateRequest>),
    sorted: Vec<SavedTextThreadMetadata>,
)
    requires
        call_ensures(TextThreadHistory::new, (store,), created),
        store is Some ==> call_ensures(sort_newest_first, (store->0,), sorted),
    ensures
        created.0.visible_items@.len() == 0,
        created.0.selected_index == 0,
        created.0.hovered_index is None,
        created.0.search_query@.len() == 0,
        !created.0.confirming_delete_history,
        -86_400 < created.0.local_timezone.seconds < 86_400,
        created.1 is Some <==> store is Some,
        created.1 is Some ==> created.1->0.number == created.0.latest_update
            && created.1->0.threads@ == sorted@ && created.1->0.query@.len() == 0
            && created.1->0.selected_path is None,
{
}

/// Asking for a new list hands over all threads of the store, from the newest to the oldest, the
/// query, and, if the selection is to be kept, the path of the thread of the selected row, whatever
/// is searched for. The panel itself stays as it is.
pub proof fn lemma_asking_for_list(
    history: &mut TextThreadHistory,
    preserve_selected_item: bool,
    store: Option<Vec<SavedTextThreadMetadata>>,
    update: Option<UpdateRequest>,
)
    requires
        call_ensures(
            TextThreadHistory::update_visible_items,
            (history, preserve_selected_item, store),
            update,
        ),
    ensures
        update is Some <==> store is Some,
        update is Some ==> {
            let items = old(history).visible_items@;
            let index = old(history).selected_index as int;
            &&& preserve_selected_item && index < items.len() && items[index] is Entry
                ==> update->0.selected_path == Some(items[index]->Entry_entry.path)
            &&& preserve_selected_item && index < items.len() && items[index] is SearchResult
                ==> update->0.selected_path == Some(items[index]->SearchResult_entry.path)
            &&& !preserve_selected_item || items.len() <= index || items[index] is BucketSeparator
                ==> update->0.selected_path is None
            &&& update->0.query@ == old(history).search_query@
            &&& update->0.threads@.to_multiset() == store->0@.to_multiset()
            &&& update->0.number == final(history).latest_update
            &&& update->0.number != old(history).latest_update
        },
        update is None ==> final(history).latest_update == old(history).latest_update,
        final(history).visible_items == old(history).visible_items,
        final(history).selected_index == old(history).selected_index,
        final(history).hovered_index == old(history).hovered_index,
        final(history).search_query == old(history).search_query,
        final(history).local_timezone == old(history).local_timezone,
        final(history).confirming_delete_history == old(history).confirming_delete_history,
{
    lemma_update_needs_store(
        *old(history),
        preserve_selected_item,
        store,
        *final(history),
        update,
    );
    if let Some(update) = update {
        lemma_update_request(
            *old(history),
            preserve_selected_item,
            store->0@,
            *final(history),
            update,
        );
    }
}

/// A list that is finished late changes nothing and shows nothing. One that was asked for last is
/// listed row for row, whatever it holds, and the panel is drawn again. Without a path to keep its
/// topmost thread is selected, and with one a thread no lower than the topmost with that path.
pub proof fn lemma_finishing_list(
    history: &mut TextThreadHistory,
    number: u64,
    items: Vec<ListItemType>,
    selected_path: Option<String>,
    effects: Effects,
    row: int,
)
    requires
        call_ensures(
            TextThreadHistory::finish_update,
            (history, number, items, selected_path),
            effects,
        ),
    ensures
        number != old(history).latest_update ==> *final(history) == *old(history)
            && effects.scroll_to is None && !effects.notify,
        number == old(history).latest_update ==> {
            &&& final(history).visible_items@ == items@
            &&& effects.notify
            &&& effects.scroll_to == if items@.len() == 0 {
                None
            } else {
                Some(final(history).selected_index)
            }
            &&& items@.len() == 0 ==> final(history).selected_index == 0
            &&& 0 <= row < items@.len() && !(items@[row] is BucketSeparator) ==> {
                &&& final(history).selected_index < items@.len()
                &&& !(items@[final(history).selected_index as int] is BucketSeparator)
                &&& selected_path is None ==> final(history).selected_index <= row
                &&& selected_path is Some && items@[row] is Entry && items@[row]->Entry_entry.path@
                    == selected_path->0@ ==> final(history).selected_index <= row
                &&& selected_path is Some && items@[row] is SearchResult
                    && items@[row]->SearchResult_entry.path@ == selected_path->0@
                    ==> final(history).selected_index <= row
            }
        },
        final(history).hovered_index == old(history).hovered_index,
        final(history).search_query == old(history).search_query,
        final(history).local_timezone == old(history).local_timezone,
        final(history).confirming_delete_history == old(history).confirming_delete_history,
        final(history).latest_update == old(history).latest_update,
{
    if number == old(history).latest_update {
        lemma_finished_list(*old(history), items, selected_path, *final(history));
        if 0 <= row < items@.len() && !(items@[row] is BucketSeparator) {
            lemma_finished_selection(*old(history), items, selected_path, *final(history), row);
        }
    }
}

/// Once a thread is deleted, the new list is finished with the thread selected that was selected
/// before, if it is listed, whatever is searched for and however the rows have moved.
pub proof fn lemma_deleting_thread(
    before: &mut TextThreadHistory,
    store: Vec<SavedTextThreadMetadata>,
    refresh: Refresh,
    meanwhile: &mut TextThreadHistory,
    items: Vec<ListItemType>,
    effects: Effects,
    selected: SavedTextThreadMetadata,
    row: int,
)
    requires
        call_ensures(TextThreadHistory::thread_removed, (before, true, Some(store)), refresh),
        refresh.update is Some,
        call_ensures(
            TextThreadHistory::finish_update,
            (meanwhile, refresh.update->0.number, items, refresh.update->0.selected_path),
            effects,
        ),
        old(meanwhile).latest_update == refresh.update->0.number,
        old(before).selected_index < old(before).visible_items@.len(),
        match old(before).visible_items@[old(before).selected_index as int] {
            ListItemType::BucketSeparator(_) => false,
            ListItemType::Entry { entry, .. } => entry == selected,
            ListItemType::SearchResult { entry, .. } => entry == selected,
        },
        is_plain_path(selected.path@),
        forall|i: int|
            0 <= i < items@.len() ==> match (#[trigger] items@[i]).thread() {
                Some(thread) => is_plain_path(thread.path@),
                None => true,
            },
        0 <= row < items@.len(),
        match items@[row] {
            ListItemType::BucketSeparator(_) => false,
            ListItemType::Entry { entry, .. } => entry.path@ == selected.path@,
            ListItemType::SearchResult { entry, .. } => entry.path@ == selected.path@,
        },
    ensures
        refresh.notify,
        refresh.update->0.selected_path == Some(selected.path),
        final(meanwhile).selected_index <= row,
        match final(meanwhile).visible_items@[final(meanwhile).selected_index as int] {
            ListItemType::BucketSeparator(_) => false,
            ListItemType::Entry { entry, .. } => entry.path@ == selected.path@,
            ListItemType::SearchResult { entry, .. } => entry.path@ == selected.path@,
        },
{
    lemma_deletion_keeps_selected_thread(
        *old(before),
        store@,
        *final(before),
        refresh.update->0,
        *old(meanwhile),
        items,
        *final(meanwhile),
        selected,
        row,
    );
}

/// After a deletion that failed nothing follows. After one that did not, and after all threads have
/// been deleted, the panel is drawn again and the list is asked for anew, in the first case with
/// the selection kept and in the second with none.
pub proof fn lemma_after_deletions(
    failed: &mut TextThreadHistory,
    emptied: &mut TextThreadHistory,
    store: Option<Vec<SavedTextThreadMetadata>>,
    nothing: Refresh,
    refresh: Refresh,
)
    requires
        call_ensures(TextThreadHistory::thread_removed, (failed, false, store), nothing),
        call_ensures(TextThreadHistory::history_removed, (emptied, store), refresh),
    ensures
        *final(failed) == *old(failed),
        nothing.update is None,
        !nothing.notify,
        refresh.notify,
        refresh.update is Some <==> store is Some,
        refresh.update is Some ==> refresh.update->0.selected_path is None
            && refresh.update->0.query@ == old(emptied).search_query@
            && refresh.update->0.threads@.to_multiset() == store->0@.to_multiset(),
        final(emptied).visible_items == old(emptied).visible_items,
{
    lemma_update_needs_store(*old(emptied), false, store, *final(emptied), refresh.update);
    if let Some(update) = refresh.update {
        lemma_update_request(*old(emptied), false, store->0@, *final(emptied), update);
    }
}

/// Another query makes the list anew with nothing selected before, and the same query nothing.
pub proof fn lemma_editing_query(
    history: &mut TextThreadHistory,
    query: String,
    store: Option<Vec<SavedTextThreadMetadata>>,
    update: Option<UpdateRequest>,
)
    requires
        call_ensures(TextThreadHistory::query_edited, (history, query, store), update),
    ensures
        query@ == old(history).search_query@ ==> *final(history) == *old(history) && update is None,
        final(history).search_query@ == query@,
        query@ != old(history).search_query@ ==> (update is Some <==> store is Some),
        update is Some ==> update->0.query@ == query@ && update->0.selected_path is None
            && update->0.threads@.to_multiset() == store->0@.to_multiset() && update->0.number
            == final(history).latest_update && update->0.number != old(history).latest_update,
        final(history).visible_items == old(history).visible_items,
        final(history).selected_index == old(history).selected_index,
        final(history).hovered_index == old(history).hovered_index,
        final(history).local_timezone == old(history).local_timezone,
        final(history).confirming_delete_history == old(history).confirming_delete_history,
{
    if query@ != old(history).search_query@ {
        let edited = TextThreadHistory { search_query: query, ..*old(history) };
        assert(old(history).with_query(query) == edited);
        lemma_update_needs_store(edited, false, store, *final(history), update);
        if let Some(update) = update {
            lemma_update_request(edited, false, store->0@, *final(history), update);
        }
    }
}

/// To select the next row is to select the nearest thread below, or the topmost from the lowest,
/// and to select the previous row is to select the nearest thread above, or the lowest from the
/// topmost. The row comes into view, and nothing else changes.
pub proof fn lemma_selecting_neighbours(
    down: &mut TextThreadHistory,
    up: &mut TextThreadHistory,
    effects_down: Effects,
    effects_up: Effects,
    other: int,
)
    requires
        call_ensures(TextThreadHistory::select_next, (down,), effects_down),
        call_ensures(TextThreadHistory::select_previous, (up,), effects_up),
        *old(down) == *old(up),
        old(up).selected_index < old(up).visible_items@.len(),
        0 <= other < old(up).visible_items@.len(),
        !(old(up).visible_items@[other] is BucketSeparator),
    ensures
        ({
            let selected = old(up).selected_index;
            let next = final(down).selected_index;
            let previous = final(up).selected_index;
            &&& next < old(up).visible_items@.len()
            &&& previous < old(up).visible_items@.len()
            &&& !(old(up).visible_items@[next as int] is BucketSeparator)
            &&& !(old(up).visible_items@[previous as int] is BucketSeparator)
            &&& selected < other ==> selected < next <= other
            &&& other != selected ==> next != selected && previous != selected
            &&& next <= selected ==> next <= other <= selected
            &&& other < selected ==> other <= previous < selected
            &&& selected <= previous ==> selected <= other <= previous
        }),
        *final(down) == (TextThreadHistory {
            selected_index: final(down).selected_index,
            ..*old(down)
        }),
        *final(up) == (TextThreadHistory { selected_index: final(up).selected_index, ..*old(up) }),
        effects_down.notify && effects_down.scroll_to == Some(final(down).selected_index),
        effects_up.notify && effects_up.scroll_to == Some(final(up).selected_index),
{
    let items = old(up).visible_items@;
    let selected = old(up).selected_index as int;
    lemma_selection_changes_selection_only(
        *old(down),
        next_start(items, selected),
        Bias::Right,
        *final(down),
    );
    lemma_selection_changes_selection_only(
        *old(up),
        previous_start(items, selected),
        Bias::Left,
        *final(up),
    );
    lemma_next_is_nearest_below(items, selected, final(down).selected_index as int, other);
    lemma_previous_is_nearest_above(items, selected, final(up).selected_index as int, other);
}

/// To select the first row is to select the topmost thread, and to select the last row the lowest.
pub proof fn lemma_selecting_ends(
    first: &mut TextThreadHistory,
    last: &mut TextThreadHistory,
    effects_first: Effects,
    effects_last: Effects,
    other: int,
)
    requires
        call_ensures(TextThreadHistory::select_first, (first,), effects_first),
        call_ensures(TextThreadHistory::select_last, (last,), effects_last),
        *old(first) == *old(last),
        0 <= other < old(last).visible_items@.len(),
        !(old(last).visible_items@[other] is BucketSeparator),
    ensures
        final(first).selected_index <= other <= final(last).selected_index,
        final(last).selected_index < old(last).visible_items@.len(),
        !(old(last).visible_items@[final(first).selected_index as int] is BucketSeparator),
        !(old(last).visible_items@[final(last).selected_index as int] is BucketSeparator),
        *final(first) == (TextThreadHistory {
            selected_index: final(first).selected_index,
            ..*old(first)
        }),
        *final(last) == (TextThreadHistory {
            selected_index: final(last).selected_index,
            ..*old(last)
        }),
        effects_first.notify && effects_first.scroll_to == Some(final(first).selected_index),
        effects_last.notify && effects_last.scroll_to == Some(final(last).selected_index),
{
    let items = old(last).visible_items@;
    lemma_selection_changes_selection_only(*old(first), 0, Bias::Right, *final(first));
    lemma_selection_changes_selection_only(
        *old(last),
        items.len() - 1,
        Bias::Left,
        *final(last),
    );
    lemma_selection_passes_headings(
        items,
        0,
        Bias::Right,
        final(first).selected_index as int,
        other,
    );
    lemma_selection_passes_headings(
        items,
        items.len() - 1,
        Bias::Left,
        final(last).selected_index as int,
        other,
    );
}

/// To set the selection to a thread selects that thread, whichever way it looks.
pub proof fn lemma_setting_selection(
    history: &mut TextThreadHistory,
    index: usize,
    bias: Bias,
    effects: Effects,
)
    requires
        call_ensures(TextThreadHistory::set_selected_index, (history, index, bias), effects),
        index < old(history).visible_items@.len(),
        !(old(history).visible_items@[index as int] is BucketSeparator),
    ensures
        *final(history) == (TextThreadHistory { selected_index: index, ..*old(history) }),
        effects.notify,
        effects.scroll_to == Some(index),
{
    let items = old(history).visible_items@;
    let target = final(history).selected_index as int;
    lemma_selection_changes_selection_only(*old(history), index as int, bias, *final(history));
    lemma_selection_passes_headings(items, index as int, bias, target, index as int);
}

/// To confirm opens the thread of the row, to remove it hands over its path if there is a store,
/// and both act on the selected row where none is named. A heading is neither opened nor removed.
pub proof fn lemma_acting_on_rows(
    history: TextThreadHistory,
    ix: usize,
    store_exists: bool,
    opened: Option<TextThreadHistoryEvent>,
    confirmed: Option<TextThreadHistoryEvent>,
    removed: Option<String>,
    removed_selected: Option<String>,
)
    requires
        call_ensures(TextThreadHistory::confirm_entry, (&history, ix), opened),
        call_ensures(TextThreadHistory::confirm, (&history,), confirmed),
        call_ensures(TextThreadHistory::remove_thread, (&history, ix, store_exists), removed),
        call_ensures(
            TextThreadHistory::remove_selected_thread,
            (&history, store_exists),
            removed_selected,
        ),
    ensures
        ix < history.visible_items@.len() ==> match history.visible_items@[ix as int] {
            ListItemType::BucketSeparator(_) => opened is None && removed is None,
            ListItemType::Entry { entry, .. } => {
                &&& opened == Some(TextThreadHistoryEvent::OpenTextThread(entry.path))
                &&& removed == if store_exists {
                    Some(entry.path)
                } else {
                    None
                }
            },
            ListItemType::SearchResult { entry, .. } => {
                &&& opened == Some(TextThreadHistoryEvent::OpenTextThread(entry.path))
                &&& removed == if store_exists {
                    Some(entry.path)
                } else {
                    None
                }
            },
        },
        history.visible_items@.len() <= ix ==> opened is None && removed is None,
        ix == history.selected_index ==> confirmed == opened && removed_selected == removed,
{
    lemma_row_opens_its_thread(history.visible_items@, ix as int);
}

/// The path of the selected thread is that of the thread of the selected row.
pub proof fn lemma_reading_selection(
    history: TextThreadHistory,
    path: Option<&String>,
    entry: Option<&SavedTextThreadMetadata>,
)
    requires
        call_ensures(TextThreadHistory::selected_path, (&history,), path),
        call_ensures(TextThreadHistory::get_entry, (&history, history.selected_index), entry),
    ensures
        history.selected_index < history.visible_items@.len()
            ==> match history.visible_items@[history.selected_index as int] {
            ListItemType::BucketSeparator(_) => entry is None && path is None,
            ListItemType::Entry { entry: thread, .. } => entry is Some && *entry->0 == thread
                && path is Some && *path->0 == thread.path,
            ListItemType::SearchResult { entry: thread, .. } => entry is Some && *entry->0
                == thread && path is Some && *path->0 == thread.path,
        },
        history.visible_items@.len() <= history.selected_index ==> entry is None && path is None,
{
    lemma_row_opens_its_thread(history.visible_items@, history.selected_index as int);
}

/// To remove the history hands over the paths of all threads of the store, in their order, and
/// closes the question. Without a store it closes the question only.
pub proof fn lemma_removing_history(
    history: &mut TextThreadHistory,
    store: Option<&Vec<SavedTextThreadMetadata>>,
    removal: Removal,
)
    requires
        call_ensures(TextThreadHistory::remove_history, (history, store), removal),
    ensures
        *final(history) == (TextThreadHistory {
            confirming_delete_history: false,
            ..*old(history)
        }),
        removal.notify,
        removal.paths is Some <==> store is Some,
        store is Some ==> removal.paths->0@.len() == store->0@.len() && forall|i: int|
            0 <= i < store->0@.len() ==> #[trigger] removal.paths->0@[i] == store->0@[i].path,
{
}

/// To ask the question opens it and to cancel it closes it, and neither changes anything else.
pub proof fn lemma_asking_and_cancelling(
    asked: &mut TextThreadHistory,
    cancelled: &mut TextThreadHistory,
    effects_asked: Effects,
    effects_cancelled: Effects,
)
    requires
        call_ensures(TextThreadHistory::prompt_delete_history, (asked,), effects_asked),
        call_ensures(TextThreadHistory::cancel_delete_history, (cancelled,), effects_cancelled),
    ensures
        *final(asked) == (TextThreadHistory { confirming_delete_history: true, ..*old(asked) }),
        *final(cancelled) == (TextThreadHistory {
            confirming_delete_history: false,
            ..*old(cancelled)
        }),
        effects_asked.notify && effects_asked.scroll_to is None,
        effects_cancelled.notify && effects_cancelled.scroll_to is None,
{
}

/// A row that the pointer comes to is the hovered one. One that it leaves is not, and another one
/// that is hovered then stays so.
pub proof fn lemma_hovering(
    history: &mut TextThreadHistory,
    ix: usize,
    is_hovered: bool,
    effects: Effects,
)
    requires
        call_ensures(TextThreadHistory::hover_entry, (history, ix, is_hovered), effects),
    ensures
        *final(history) == (TextThreadHistory {
            hovered_index: final(history).hovered_index,
            ..*old(history)
        }),
        is_hovered ==> final(history).hovered_index == Some(ix),
        !is_hovered && old(history).hovered_index == Some(ix) ==> final(history).hovered_index
            is None,
        !is_hovered && old(history).hovered_index != Some(ix) ==> final(history).hovered_index
            == old(history).hovered_index,
        effects.notify && effects.scroll_to is None,
{
}

/// A new list is made of all threads under their headings if nothing is searched for, and otherwise
/// of what the matcher is asked about the same threads and the same query.
pub proof fn lemma_making_list(
    threads: Vec<SavedTextThreadMetadata>,
    query: String,
    step: UpdateStep,
)
    requires
        call_ensures(compute_visible_items, (threads, query), step),
    ensures
        match step {
            UpdateStep::Ready(items) => query@.len() == 0 && listed_threads(items@) == threads@,
            UpdateStep::Search(search) => {
                &&& query@.len() > 0
                &&& search.threads@ == threads@
                &&& search.request.query@ == query@
                &&& search.request.candidates@.len() == threads@.len()
                &&& !search.request.smart_case
                &&& search.request.penalize_length
                &&& search.request.max_results == 100
            },
        },
{
    if let UpdateStep::Ready(items) = step {
        let today = choose|today: Date| #[trigger]
            is_clock_date(today) && items@ == bucketed_items(
                today.day as int,
                threads@,
            );
        lemma_bucketed_threads(today.day as int, threads@);
    }
}

/// A search without matches is told from an empty list by its query.
pub proof fn lemma_finding_nothing(history: TextThreadHistory, no_matches: bool, view: HistoryView)
    requires
        call_ensures(TextThreadHistory::search_produced_no_matches, (&history,), no_matches),
        call_ensures(TextThreadHistory::render, (&history,), view),
    ensures
        no_matches <==> history.visible_items@.len() == 0 && history.search_query@.len() > 0,
        no_matches <==> view.body is NoMatches,
{
}

/// The panel shows its list if it has one, and otherwise a message, which for a search is another
/// than for no threads. Its foot is hidden where there are no threads, and asks the question while
/// it is open.
pub proof fn lemma_rendering(history: TextThreadHistory, view: HistoryView)
    requires
        call_ensures(TextThreadHistory::render, (&history,), view),
        history.visible_items@.len() <= usize::MAX,
    ensures
        view.body == if history.visible_items@.len() > 0 {
            HistoryBody::List(history.visible_items@.len() as usize)
        } else if history.search_query@.len() > 0 {
            HistoryBody::NoMatches
        } else {
            HistoryBody::NoHistory
        },
        view.footer == if history.visible_items@.len() == 0 && history.search_query@.len() == 0 {
            HistoryFooter::Hidden
        } else if history.confirming_delete_history {
            HistoryFooter::ConfirmDelete
        } else {
            HistoryFooter::DeleteHistory
        },
{
    lemma_what_is_shown(history);
}

/// A message is shown exactly in place of a list, and the two messages differ. The foot of the
/// panel has texts exactly if it is not hidden, and the labels of its buttons differ.
pub proof fn lemma_messages(
    body: HistoryBody,
    message: Option<String>,
    footer: HistoryFooter,
    text: FooterText,
)
    requires
        call_ensures(HistoryBody::message, (&body,), message),
        call_ensures(HistoryFooter::text, (&footer,), text),
    ensures
        message is None <==> body is List,
        body is NoHistory ==> message->0@.len() == 36 && message->0@[0] == 'Y',
        body is NoMatches ==> message->0@.len() == 29 && message->0@[0] == 'N',
        footer is Hidden <==> text is Nothing,
        footer is DeleteHistory <==> text is Button,
        footer is ConfirmDelete <==> text is Question,
        text is Question ==> text->cancel@ != text->confirm@ && text->question@ != text->warning@,
{
    reveal_strlit("You don't have any past threads yet.");
    reveal_strlit("No threads match your search.");
    reveal_strlit("Delete all threads?");
    reveal_strlit("You won't be able to recover them later.");
    reveal_strlit("Cancel");
    reveal_strlit("Delete");
    if let FooterText::Question { question, warning, cancel, confirm } = text {
        assert(cancel@[0] != confirm@[0]);
        assert(question@.len() != warning@.len());
    }
}

/// The row of a thread shows its place, its title as it stands, the matched places, and whether its
/// place is the selected or the hovered one.
pub proof fn lemma_rendering_entry(
    history: TextThreadHistory,
    entry: SavedTextThreadMetadata,
    format: EntryTimeFormat,
    ix: usize,
    highlight_positions: Vec<usize>,
    now: LocalTimestamp,
    reference: UtcMoment,
    row: EntryRow,
)
    requires
        call_ensures(
            TextThreadHistory::render_history_entry_at,
            (&history, &entry, format, ix, highlight_positions, now, reference),
            row,
        ),
    ensures
        row.index == ix,
        forall|i: int|
            0 <= i < entry.title@.len() && !is_white_space(#[trigger] entry.title@[i])
                ==> row.title@ == entry.title@,
        row.highlight_positions@ == highlight_positions@,
        row.selected <==> ix == history.selected_index,
        row.hovered <==> history.hovered_index == Some(ix),
        row.display_text is DaysAgo <==> format is DateAndTime,
        -377_705_116_800 <= entry.mtime.seconds <= 253_402_300_799 ==> row.full_date == (
        TimestampText::EnhancedAbsolute {
            timestamp: entry.mtime.seconds,
            reference,
            timezone: history.local_timezone,
        }),
{
    lemma_row_of_thread(
        history,
        entry,
        format,
        ix,
        highlight_positions@,
        now,
        reference,
        row,
    );
}

/// At the current time the row of a thread shows the same, whether it is asked for by the thread or by
/// its item in the list.
pub proof fn lemma_rendering_entry_now(
    history: TextThreadHistory,
    entry: SavedTextThreadMetadata,
    format: EntryTimeFormat,
    ix: usize,
    highlight_positions: Vec<usize>,
    row: EntryRow,
    item: ListItemType,
    item_row: ListRow,
)
    requires
        call_ensures(
            TextThreadHistory::render_history_entry,
            (&history, &entry, format, ix, highlight_positions),
            row,
        ),
        call_ensures(TextThreadHistory::render_list_item, (&history, &item, ix), item_row),
        item is SearchResult,
        item->SearchResult_entry == entry,
        item->SearchResult_positions@ == highlight_positions@,
    ensures
        item_row is Entry,
        forall|shown: EntryRow|
            shown == row || shown == item_row->Entry_0 ==> {
                &&& #[trigger] shown.index == ix
                &&& shown.highlight_positions@ == highlight_positions@
                &&& shown.selected <==> ix == history.selected_index
                &&& shown.hovered <==> history.hovered_index == Some(ix)
                &&& forall|i: int|
                    0 <= i < entry.title@.len() && !is_white_space(#[trigger] entry.title@[i])
                        ==> shown.title@ == entry.title@
                &&& -377_705_116_800 <= entry.mtime.seconds <= 253_402_300_799
                    ==> shown.full_date is EnhancedAbsolute
                    && shown.full_date->EnhancedAbsolute_timestamp == entry.mtime.seconds
                    && shown.full_date->EnhancedAbsolute_timezone == history.local_timezone
            },
        row.display_text is DaysAgo <==> format is DateAndTime,
        item_row->Entry_0.display_text is DaysAgo,
{
    lemma_rows_of_list(history, item, ix, item_row);
}

/// A row of the days shows the number of whole days since its thread was changed, in digits that
/// read back as the number, and a `d`.
pub proof fn lemma_rendering_days(
    history: TextThreadHistory,
    entry: SavedTextThreadMetadata,
    ix: usize,
    highlight_positions: Vec<usize>,
    now: LocalTimestamp,
    reference: UtcMoment,
    row: EntryRow,
    days: int,
)
    requires
        call_ensures(
            TextThreadHistory::render_history_entry_at,
            (
                &history,
                &entry,
                EntryTimeFormat::DateAndTime,
                ix,
                highlight_positions,
                now,
                reference,
            ),
            row,
        ),
        now.nanos < 1_000_000_000,
        entry.mtime.nanos < 1_000_000_000,
        0 <= (now.seconds - entry.mtime.seconds) * 1_000_000_000 + now.nanos - entry.mtime.nanos
            - days * 86_400_000_000_000 < 86_400_000_000_000,
        0 <= days,
    ensures
        match row.display_text {
            DisplayText::DaysAgo(text) => {
                &&& text@.len() > 1
                &&& text@.last() == 'd'
                &&& text@.drop_last().fold_left(
                    0int,
                    |value: int, digit: char| 10 * value + (digit as u32 - 48),
                ) == days
                &&& text@[0] as u32 == 48 ==> days == 0
            },
            DisplayText::Time(_) => false,
        },
{
    lemma_row_shows_days(
        history,
        entry,
        ix,
        highlight_positions@,
        now,
        reference,
        row,
        days,
    );
    lemma_digits_of_number(days);
    if let DisplayText::DaysAgo(text) = row.display_text {
        assert(text@[0] == text@.drop_last()[0]);
    }
}

/// A row of the time of day shows what a clock in the time zone of the panel showed when its thread
/// was changed.
pub proof fn lemma_rendering_time_of_day(
    history: TextThreadHistory,
    entry: SavedTextThreadMetadata,
    ix: usize,
    highlight_positions: Vec<usize>,
    now: LocalTimestamp,
    reference: UtcMoment,
    row: EntryRow,
)
    requires
        call_ensures(
            TextThreadHistory::render_history_entry_at,
            (&history, &entry, EntryTimeFormat::TimeOnly, ix, highlight_positions, now, reference),
            row,
        ),
        -93_599 <= history.local_timezone.seconds <= 93_599,
        -377_705_116_800 <= entry.mtime.seconds <= 253_402_300_799,
    ensures
        match row.display_text {
            DisplayText::Time(
                TimestampText::TimeOfDay { timezone, julian_day, hour, minute, second },
            ) => {
                &&& timezone == history.local_timezone
                &&& hour < 24 && minute < 60 && second < 60
                &&& (julian_day - 2_440_588) * 86_400 + hour * 3600 + minute * 60 + second
                    == entry.mtime.seconds + timezone.seconds
            },
            _ => false,
        },
{
    lemma_row_shows_time_of_day(
        history,
        entry,
        ix,
        highlight_positions@,
        now,
        reference,
        row,
    );
}

/// The rows of a range within the list are those of its items, each at its own place: headings by
/// their texts, threads under headings with nothing marked and in their format, and threads that a
/// search found with the matched places marked and their days. A range that is not within the list
/// has no rows.
pub proof fn lemma_rendering_range(
    history: TextThreadHistory,
    range: Range<usize>,
    rows: Vec<ListRow>,
    index: int,
)
    requires
        call_ensures(TextThreadHistory::render_list_items, (&history, range), rows),
    ensures
        range.start <= range.end <= history.visible_items@.len() ==> rows@.len() == range.end
            - range.start,
        range.end < range.start || history.visible_items@.len() < range.end ==> rows@.len() == 0,
        0 <= index < rows@.len() ==> match (
            history.visible_items@[range.start + index],
            rows@[index],
        ) {
            (ListItemType::BucketSeparator(bucket), ListRow::Heading(text)) => text@
                == bucket.text(),
            (ListItemType::Entry { entry, format }, ListRow::Entry(row)) => {
                &&& row.index == range.start + index
                &&& row.selected <==> row.index == history.selected_index
                &&& row.hovered <==> history.hovered_index == Some(row.index)
                &&& row.highlight_positions@.len() == 0
                &&& row.display_text is DaysAgo <==> format is DateAndTime
                &&& forall|i: int|
                    0 <= i < entry.title@.len() && !is_white_space(#[trigger] entry.title@[i])
                        ==> row.title@ == entry.title@
            },
            (ListItemType::SearchResult { entry, positions }, ListRow::Entry(row)) => {
                &&& row.index == range.start + index
                &&& row.selected <==> row.index == history.selected_index
                &&& row.hovered <==> history.hovered_index == Some(row.index)
                &&& row.highlight_positions@ == positions@
                &&& row.display_text is DaysAgo
                &&& forall|i: int|
                    0 <= i < entry.title@.len() && !is_white_space(#[trigger] entry.title@[i])
                        ==> row.title@ == entry.title@
            },
            _ => false,
        },
{
    if 0 <= index < rows@.len() {
        let item = history.visible_items@[range.start + index];
        let ix = (range.start + index) as usize;
        assert(history.is_list_row(item, ix, rows@[index]));
        lemma_rows_of_list(history, item, ix, rows@[index]);
    }
}

/// The hint to delete a thread is given exactly while its row is hovered, and the search field has
/// a text of its own.
pub proof fn lemma_hints(row: EntryRow, hint: Option<String>, placeholder: String)
    requires
        call_ensures(EntryRow::delete_hint, (&row,), hint),
        call_ensures(search_placeholder, (), placeholder),
    ensures
        hint is Some <==> row.hovered,
        hint is Some ==> hint->0@ == seq!['D', 'e', 'l', 'e', 't', 'e'],
        placeholder@.len() == 17,
{
    reveal_strlit("Delete");
    reveal_strlit("Search threads...");
}

} // verus!
