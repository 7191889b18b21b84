//! The rows of the list: threads under their headings, or the threads that a search found.

use crate::bucket::{
    bucket_days_exist, bucket_of_day, lemma_buckets_follow_days, EntryTimeFormat, TimeBucket,
};
use crate::calendar::{Date, MIN_DAY};
use crate::clock::{chrono_today, is_clock_date};
use crate::text::is_white_space;
use crate::thread::{
    entry_title, is_newest_first, lemma_title_is_listed_as_it_stands, listed_title,
    SavedTextThreadMetadata,
};
use vstd::prelude::*;

verus! {

/// A row of the list.
#[derive(Debug)]
pub enum ListItemType {
    /// A heading.
    BucketSeparator(TimeBucket),
    /// A thread under its heading.
    Entry { entry: SavedTextThreadMetadata, format: EntryTimeFormat },
    /// A thread that a search found, with the places of its title that the query matched.
    SearchResult { entry: SavedTextThreadMetadata, positions: Vec<usize> },
}

impl ListItemType {
    /// The row stands for a thread.
    pub open spec fn is_entry(self) -> bool {
        !(self is BucketSeparator)
    }

    /// The thread that the row stands for, if it is no heading.
    pub open spec fn thread(self) -> Option<SavedTextThreadMetadata> {
        match self {
            ListItemType::BucketSeparator(_) => None,
            ListItemType::Entry { entry, .. } => Some(entry),
            ListItemType::SearchResult { entry, .. } => Some(entry),
        }
    }

    /// The thread that the row stands for, if it is no heading.
    pub fn entry(&self) -> (entry: Option<&SavedTextThreadMetadata>)
        ensures
            entry is Some <==> self.is_entry(),
            match entry {
                Some(thread) => self.thread() == Some(*thread),
                None => self.thread() is None,
            },
    {
        match self {
            ListItemType::Entry { entry, .. } => Some(entry),
            ListItemType::SearchResult { entry, .. } => Some(entry),
            _ => None,
        }
    }
}

/// The threads of a list, in its order.
pub open spec fn listed_threads(items: Seq<ListItemType>) -> Seq<SavedTextThreadMetadata>
    decreases items.len(),
{
    if items.len() == 0 {
        Seq::empty()
    } else {
        match items.last().thread() {
            Some(thread) => listed_threads(items.drop_last()).push(thread),
            None => listed_threads(items.drop_last()),
        }
    }
}

/// The bucket of a thread, seen from a reference day.
pub open spec fn thread_bucket(reference: int, thread: SavedTextThreadMetadata) -> TimeBucket {
    bucket_of_day(reference, thread.mtime.local_day())
}

/// The row of a thread under its heading.
pub open spec fn bucketed_entry(reference: int, thread: SavedTextThreadMetadata) -> ListItemType {
    ListItemType::Entry { entry: thread, format: thread_bucket(reference, thread).time_format() }
}

/// The threads in their order, each under the heading of its bucket. A heading stands before each
/// thread whose bucket is not that of the thread before it.
pub open spec fn bucketed_items(reference: int, threads: Seq<SavedTextThreadMetadata>) -> Seq<
    ListItemType,
>
    decreases threads.len(),
{
    if threads.len() == 0 {
        Seq::empty()
    } else {
        let before = bucketed_items(reference, threads.drop_last());
        let bucket = thread_bucket(reference, threads.last());
        let entry = bucketed_entry(reference, threads.last());
        if threads.len() > 1 && thread_bucket(reference, threads[threads.len() - 2]) == bucket {
            before.push(entry)
        } else {
            before.push(ListItemType::BucketSeparator(bucket)).push(entry)
        }
    }
}

/// The dates of all threads, and those that their buckets are told by, exist in the calendar.
pub open spec fn can_bucket(reference: int, threads: Seq<SavedTextThreadMetadata>) -> bool {
    forall|i: int|
        0 <= i < threads.len() ==> {
            let mtime = (#[trigger] threads[i]).mtime;
            mtime.wf() && mtime.has_local_date() && bucket_days_exist(reference, mtime.local_day())
        }
}

/// The threads in their order, each under the heading of its bucket as seen from `today`.
pub fn build_bucketed_items_on(today: Date, threads: Vec<SavedTextThreadMetadata>) -> (items: Vec<
    ListItemType,
>)
    requires
        today.wf(),
        can_bucket(today.day as int, threads@),
    ensures
        items@ == bucketed_items(today.day as int, threads@),
{
    let mut items: Vec<ListItemType> = Vec::new();
    let mut bucket: Option<TimeBucket> = None;
    let ghost all = threads@;
    for thread in iter: threads
        invariant
            iter.seq() == all,
            today.wf(),
            can_bucket(today.day as int, all),
            items@ == bucketed_items(today.day as int, all.take(iter.index() as int)),
            iter.index() == 0 ==> bucket is None,
            iter.index() > 0 ==> bucket == Some(
                thread_bucket(today.day as int, all[iter.index() - 1]),
            ),
    {
        let ghost index = iter.index() as int;
        assert(thread == all[index]);
        assert(all.take(index + 1).drop_last() =~= all.take(index));
        let entry_date = thread.mtime.local_date();
        let entry_bucket = TimeBucket::from_dates(today, entry_date);
        let is_new = match bucket {
            Some(current) => current != entry_bucket,
            None => true,
        };
        if is_new {
            bucket = Some(entry_bucket);
            items.push(ListItemType::BucketSeparator(entry_bucket));
        }
        items.push(ListItemType::Entry { entry: thread, format: entry_bucket.into() });
    }
    assert(all.take(all.len() as int) =~= all);
    items
}

/// The threads in their order, each under the heading of its bucket as seen from the current local
/// date.
pub fn build_bucketed_items(threads: Vec<SavedTextThreadMetadata>) -> (items: Vec<ListItemType>)
    requires
        forall|i: int|
            0 <= i < threads@.len() ==> (#[trigger] threads@[i]).mtime.wf()
                && threads@[i].mtime.has_local_date(),
    ensures
        exists|today: Date| #[trigger]
            is_clock_date(today) && items@ == bucketed_items(today.day as int, threads@),
{
    let today = chrono_today();
    build_bucketed_items_on(today, threads)
}

/// The most threads that a search lists.
pub const MAX_MATCHES: usize = 100;

/// A text to search, and the number by which it is found again.
#[derive(Debug)]
pub struct StringMatchCandidate {
    pub id: usize,
    pub string: String,
}

/// A candidate that matched, and the places of its text that the query matched.
#[derive(Debug)]
pub struct StringMatch {
    pub candidate_id: usize,
    pub positions: Vec<usize>,
}

/// What is asked of the fuzzy matcher.
#[derive(Debug)]
pub struct SearchRequest {
    pub candidates: Vec<StringMatchCandidate>,
    pub query: String,
    /// Upper case in the query asks for upper case in the text.
    pub smart_case: bool,
    /// Long texts count as matching less well.
    pub penalize_length: bool,
    pub max_results: usize,
}

/// The candidates are the titles that the threads are listed under, numbered from 0.
pub open spec fn are_candidates(
    threads: Seq<SavedTextThreadMetadata>,
    candidates: Seq<StringMatchCandidate>,
) -> bool {
    &&& candidates.len() == threads.len()
    &&& forall|i: int|
        0 <= i < candidates.len() ==> (#[trigger] candidates[i]).id == i && candidates[i].string@
            == listed_title(threads[i].title@)
}

/// Every match is of a thread that there is.
pub open spec fn are_matches(
    threads: Seq<SavedTextThreadMetadata>,
    matches: Seq<StringMatch>,
) -> bool {
    forall|i: int| 0 <= i < matches.len() ==> (#[trigger] matches[i]).candidate_id < threads.len()
}

/// A row for each match, in the order of the matches.
pub open spec fn found_items(
    threads: Seq<SavedTextThreadMetadata>,
    matches: Seq<StringMatch>,
) -> Seq<ListItemType> {
    Seq::new(
        matches.len(),
        |i: int|
            ListItemType::SearchResult {
                entry: threads[matches[i].candidate_id as int],
                positions: matches[i].positions,
            },
    )
}

/// What is asked of the fuzzy matcher to search threads: the titles that they are listed under,
/// upper case and lower case taken as the same, shorter titles first, and the best matches only.
pub fn search_request(threads: &Vec<SavedTextThreadMetadata>, query: String) -> (request:
    SearchRequest)
    ensures
        are_candidates(threads@, request.candidates@),
        request.query == query,
        !request.smart_case,
        request.penalize_length,
        request.max_results == MAX_MATCHES,
{
    let mut candidates: Vec<StringMatchCandidate> = Vec::with_capacity(threads.len());
    let mut id: usize = 0;
    while id < threads.len()
        invariant
            id <= threads@.len(),
            are_candidates(threads@.take(id as int), candidates@),
        decreases threads@.len() - id,
    {
        let ghost before = candidates@;
        candidates.push(StringMatchCandidate { id, string: entry_title(&threads[id]) });
        assert forall|i: int| 0 <= i < candidates@.len() implies (#[trigger] candidates@[i]).id == i
            && candidates@[i].string@ == listed_title(threads@.take(id + 1)[i].title@) by {
            if i < id {
                assert(candidates@[i] == before[i]);
                assert(threads@.take(id as int)[i] == threads@.take(id + 1)[i]);
            }
        }
        id += 1;
    }
    assert(threads@.take(id as int) =~= threads@);
    SearchRequest {
        candidates,
        query,
        smart_case: false,
        penalize_length: true,
        max_results: MAX_MATCHES,
    }
}

/// The rows for what the fuzzy matcher found, in its order.
pub fn build_search_items(
    threads: &Vec<SavedTextThreadMetadata>,
    matches: Vec<StringMatch>,
) -> (items: Vec<ListItemType>)
    requires
        are_matches(threads@, matches@),
    ensures
        items@ == found_items(threads@, matches@),
{
    let mut items: Vec<ListItemType> = Vec::with_capacity(matches.len());
    let ghost all = matches@;
    for search_match in iter: matches
        invariant
            iter.seq() == all,
            are_matches(threads@, all),
            items@ == found_items(threads@, all.take(iter.index() as int)),
    {
        let ghost index = iter.index() as int;
        assert(search_match == all[index]);
        let ghost before = items@;
        items.push(
            ListItemType::SearchResult {
                entry: threads[search_match.candidate_id].clone(),
                positions: search_match.positions,
            },
        );
        assert(items@ =~= found_items(threads@, all.take(index + 1)));
    }
    assert(all.take(all.len() as int) =~= all);
    items
}

/// A row stands for the thread that it was made for, under a heading or found by a search, and a
/// heading stands for none.
pub proof fn lemma_threads_of_rows(
    bucket: TimeBucket,
    entry: SavedTextThreadMetadata,
    format: EntryTimeFormat,
    positions: Vec<usize>,
    item: ListItemType,
)
    ensures
        (ListItemType::Entry { entry, format }).thread() == Some(entry),
        (ListItemType::SearchResult { entry, positions }).thread() == Some(entry),
        ListItemType::BucketSeparator(bucket).thread() is None,
        item.is_entry() <==> item.thread() is Some,
        item.is_entry() <==> item is Entry || item is SearchResult,
{
}

/// One thread more at the end of the threads gives one row more at the end of the list, and before
/// it a heading if the thread is the first or its day has another heading than that of the thread
/// before it. The rows before stay as they are, and the thread keeps all that is known of it.
pub proof fn lemma_bucketed_push(
    reference: int,
    threads: Seq<SavedTextThreadMetadata>,
    thread: SavedTextThreadMetadata,
)
    ensures
        bucketed_items(reference, Seq::empty()).len() == 0,
        ({
            let before = bucketed_items(reference, threads);
            let items = bucketed_items(reference, threads.push(thread));
            let bucket = bucket_of_day(reference, thread.mtime.local_day());
            let goes_on = threads.len() > 0 && bucket_of_day(
                reference,
                threads.last().mtime.local_day(),
            ) == bucket;
            &&& items.len() == before.len() + (if goes_on {
                1int
            } else {
                2
            })
            &&& items.take(before.len() as int) == before
            &&& !goes_on ==> items[before.len() as int] == ListItemType::BucketSeparator(bucket)
            &&& items.last() == (ListItemType::Entry {
                entry: thread,
                format: bucket.time_format(),
            })
        }),
{
    let all = threads.push(thread);
    assert(all.drop_last() =~= threads);
    assert(all.last() == thread);
    if threads.len() > 0 {
        assert(all[all.len() - 2] == threads.last());
    }
    let before = bucketed_items(reference, threads);
    assert(bucketed_items(reference, all).take(before.len() as int) =~= before);
}

/// The threads of a list are those of its rows, row by row.
pub proof fn lemma_listed_threads_push(items: Seq<ListItemType>, item: ListItemType)
    ensures
        listed_threads(Seq::empty()).len() == 0,
        item is BucketSeparator ==> listed_threads(items.push(item)) == listed_threads(items),
        item is Entry ==> listed_threads(items.push(item)) == listed_threads(items).push(
            item->Entry_entry,
        ),
        item is SearchResult ==> listed_threads(items.push(item)) == listed_threads(items).push(
            item->SearchResult_entry,
        ),
{
    assert(items.push(item).drop_last() =~= items);
}

/// Any threads can be listed under headings, seen from a day a week or more after the start of the
/// calendar.
pub proof fn lemma_any_threads_can_be_bucketed(
    reference: int,
    threads: Seq<SavedTextThreadMetadata>,
)
    requires
        MIN_DAY + 7 <= reference,
        forall|i: int|
            0 <= i < threads.len() ==> (#[trigger] threads[i]).mtime.wf()
                && threads[i].mtime.has_local_date(),
    ensures
        can_bucket(reference, threads),
{
}

/// The matcher gets the titles of all threads, each under the place of its thread, and each as it
/// stands if there is anything but white space in it.
pub proof fn lemma_titles_are_searched(
    threads: Seq<SavedTextThreadMetadata>,
    candidates: Seq<StringMatchCandidate>,
    index: int,
    visible: int,
)
    requires
        are_candidates(threads, candidates),
        0 <= index < threads.len(),
        0 <= visible < threads[index].title@.len(),
        !is_white_space(threads[index].title@[visible]),
    ensures
        candidates.len() == threads.len(),
        candidates[index].id == index,
        candidates[index].string@ == threads[index].title@,
{
    lemma_title_is_listed_as_it_stands(threads[index].title@, visible);
    assert(candidates[index].id == index);
}

/// A search lists one row for each match, in the order of the matches, whatever their number: the
/// thread that was matched, with the places that were matched. Matches of threads that there are
/// can be listed.
pub proof fn lemma_found_rows(
    threads: Seq<SavedTextThreadMetadata>,
    matches: Seq<StringMatch>,
    index: int,
)
    requires
        0 <= index < matches.len(),
    ensures
        found_items(threads, matches).len() == matches.len(),
        found_items(threads, matches)[index] == (ListItemType::SearchResult {
            entry: threads[matches[index].candidate_id as int],
            positions: matches[index].positions,
        }),
        (forall|i: int|
            0 <= i < matches.len() ==> (#[trigger] matches[i]).candidate_id < threads.len())
            ==> are_matches(threads, matches),
{
}

/// The matcher looks for the query in the very title that the row of a match shows, so the places
/// that it reports are places of that title.
pub proof fn lemma_positions_are_of_listed_title(
    threads: Seq<SavedTextThreadMetadata>,
    candidates: Seq<StringMatchCandidate>,
    matches: Seq<StringMatch>,
    index: int,
)
    requires
        are_candidates(threads, candidates),
        are_matches(threads, matches),
        0 <= index < matches.len(),
    ensures
        match found_items(threads, matches)[index] {
            ListItemType::SearchResult { entry, positions } => {
                &&& candidates[matches[index].candidate_id as int].string@ == listed_title(
                    entry.title@,
                )
                &&& positions == matches[index].positions
            },
            _ => false,
        },
{
}

/// A search lists the threads that were matched, in the order of the matches, and no headings.
pub proof fn lemma_found_threads(
    threads: Seq<SavedTextThreadMetadata>,
    matches: Seq<StringMatch>,
)
    ensures
        listed_threads(found_items(threads, matches)) == Seq::new(
            matches.len(),
            |i: int| threads[matches[i].candidate_id as int],
        ),
    decreases matches.len(),
{
    if matches.len() > 0 {
        lemma_found_threads(threads, matches.drop_last());
        assert(found_items(threads, matches).drop_last() =~= found_items(
            threads,
            matches.drop_last(),
        ));
        assert(Seq::new(matches.len(), |i: int| threads[matches[i].candidate_id as int]) =~= Seq::new(
            matches.drop_last().len(),
            |i: int| threads[matches.drop_last()[i].candidate_id as int],
        ).push(threads[matches.last().candidate_id as int]));
    } else {
        assert(Seq::new(matches.len(), |i: int| threads[matches[i].candidate_id as int])
            =~= Seq::empty());
    }
}

/// The list with headings holds every thread once, in the order given.
pub proof fn lemma_bucketed_threads(reference: int, threads: Seq<SavedTextThreadMetadata>)
    ensures
        listed_threads(bucketed_items(reference, threads)) == threads,
    decreases threads.len(),
{
    if threads.len() > 0 {
        let front = threads.drop_last();
        lemma_bucketed_threads(reference, front);
        let before = bucketed_items(reference, front);
        let entry = bucketed_entry(reference, threads.last());
        let heading = ListItemType::BucketSeparator(thread_bucket(reference, threads.last()));
        reveal_with_fuel(listed_threads, 3);
        assert(before.push(entry).drop_last() =~= before);
        assert(before.push(heading).push(entry).drop_last() =~= before.push(heading));
        assert(before.push(heading).drop_last() =~= before);
        assert(front.push(threads.last()) =~= threads);
    } else {
        assert(threads =~= Seq::empty());
    }
}

/// A list of no threads has no rows, and a list of some has a heading for its first thread, and at
/// most one heading for each.
pub proof fn lemma_bucketed_length(reference: int, threads: Seq<SavedTextThreadMetadata>)
    ensures
        threads.len() == 0 ==> bucketed_items(reference, threads).len() == 0,
        threads.len() > 0 ==> threads.len() < bucketed_items(reference, threads).len() <= 2
            * threads.len(),
    decreases threads.len(),
{
    if threads.len() > 0 {
        lemma_bucketed_length(reference, threads.drop_last());
    }
}

/// The list of two runs of threads, one after the other, is the list of the first followed by the
/// list of the second, without the first heading of the second where the two meet in one bucket.
pub proof fn lemma_bucketed_join(
    reference: int,
    first: Seq<SavedTextThreadMetadata>,
    second: Seq<SavedTextThreadMetadata>,
)
    requires
        first.len() > 0,
        second.len() > 0,
    ensures
        bucketed_items(reference, first + second) == bucketed_items(reference, first) + (
        if thread_bucket(reference, first.last()) == thread_bucket(reference, second[0]) {
            bucketed_items(reference, second).drop_first()
        } else {
            bucketed_items(reference, second)
        }),
    decreases second.len(),
{
    let all = first + second;
    let front = second.drop_last();
    assert(all.drop_last() =~= first + front);
    assert(all.last() == second.last());
    if front.len() == 0 {
        assert(first + front =~= first);
        assert(all[all.len() - 2] == first.last());
        assert(bucketed_items(reference, front) =~= Seq::empty());
        let rest = bucketed_items(reference, second);
        assert(bucketed_items(reference, all) =~= bucketed_items(reference, first) + (
        if thread_bucket(reference, first.last()) == thread_bucket(reference, second[0]) {
            rest.drop_first()
        } else {
            rest
        }));
    } else {
        lemma_bucketed_join(reference, first, front);
        lemma_bucketed_length(reference, front);
        assert(front[0] == second[0]);
        assert(all[all.len() - 2] == second[second.len() - 2]);
        assert(bucketed_items(reference, all) =~= bucketed_items(reference, first) + (
        if thread_bucket(reference, first.last()) == thread_bucket(reference, second[0]) {
            bucketed_items(reference, second).drop_first()
        } else {
            bucketed_items(reference, second)
        }));
    }
}

/// The row at `index` stands where it should: a heading right before a thread of its bucket, and
/// after no thread of it; a thread below a row of its bucket, in the time format of its bucket.
pub open spec fn is_row_in_place(reference: int, items: Seq<ListItemType>, index: int) -> bool {
    match items[index] {
        ListItemType::BucketSeparator(bucket) => {
            &&& index + 1 < items.len()
            &&& items[index + 1] is Entry
            &&& thread_bucket(reference, items[index + 1]->Entry_entry) == bucket
            &&& index > 0 ==> items[index - 1] is Entry && thread_bucket(
                reference,
                items[index - 1]->Entry_entry,
            ) != bucket
        },
        ListItemType::Entry { entry, format } => {
            &&& index > 0
            &&& format == thread_bucket(reference, entry).time_format()
            &&& match items[index - 1] {
                ListItemType::BucketSeparator(bucket) => bucket == thread_bucket(reference, entry),
                ListItemType::Entry { entry: above, .. } => thread_bucket(reference, above)
                    == thread_bucket(reference, entry),
                ListItemType::SearchResult { .. } => false,
            }
        },
        ListItemType::SearchResult { .. } => false,
    }
}

/// Every row of the list with headings stands where it should: the first row is a heading, no
/// heading is without a thread, none is repeated for the next thread, and each thread stands under
/// the heading of its bucket.
pub proof fn lemma_bucketed_rows_in_place(
    reference: int,
    threads: Seq<SavedTextThreadMetadata>,
    index: int,
)
    requires
        0 <= index < bucketed_items(reference, threads).len(),
    ensures
        is_row_in_place(reference, bucketed_items(reference, threads), index),
    decreases threads.len(),
{
    if threads.len() > 0 {
        let front = threads.drop_last();
        let before = bucketed_items(reference, front);
        let items = bucketed_items(reference, threads);
        lemma_bucketed_length(reference, front);
        if front.len() > 0 {
            lemma_bucketed_last(reference, front);
        }
        if index < before.len() {
            lemma_bucketed_rows_in_place(reference, front, index);
            assert(items[index] == before[index]);
            if index > 0 {
                assert(items[index - 1] == before[index - 1]);
            }
            if index + 1 < before.len() {
                assert(items[index + 1] == before[index + 1]);
            }
        }
    }
}

/// The list with headings ends with its last thread.
proof fn lemma_bucketed_last(reference: int, threads: Seq<SavedTextThreadMetadata>)
    requires
        threads.len() > 0,
    ensures
        bucketed_items(reference, threads).len() > 0,
        bucketed_items(reference, threads).last() == bucketed_entry(reference, threads.last()),
{
}

/// No thread is of a later day than the one before it, and none of a day after the reference.
pub open spec fn are_days_descending(
    reference: int,
    threads: Seq<SavedTextThreadMetadata>,
) -> bool {
    &&& forall|i: int| 0 <= i < threads.len() ==> (#[trigger] threads[i]).mtime.local_day() <= reference
    &&& forall|i: int, j: int|
        0 <= i < j < threads.len() ==> (#[trigger] threads[j]).mtime.local_day() <= (
        #[trigger] threads[i]).mtime.local_day()
}

/// The bucket of a row.
pub open spec fn row_bucket(reference: int, item: ListItemType) -> TimeBucket {
    match item {
        ListItemType::BucketSeparator(bucket) => bucket,
        ListItemType::Entry { entry, .. } => thread_bucket(reference, entry),
        ListItemType::SearchResult { entry, .. } => thread_bucket(reference, entry),
    }
}

/// Where the days of the threads descend from the reference, the headings come in their order, from
/// today down, so none comes twice.
pub proof fn lemma_headings_in_order(
    reference: int,
    threads: Seq<SavedTextThreadMetadata>,
    i: int,
    j: int,
)
    requires
        are_days_descending(reference, threads),
        0 <= i < j < bucketed_items(reference, threads).len(),
        bucketed_items(reference, threads)[i] is BucketSeparator,
        bucketed_items(reference, threads)[j] is BucketSeparator,
    ensures
        row_bucket(reference, bucketed_items(reference, threads)[i]).rank() < row_bucket(
            reference,
            bucketed_items(reference, threads)[j],
        ).rank(),
    decreases threads.len(),
{
    if threads.len() > 0 {
        let front = threads.drop_last();
        let before = bucketed_items(reference, front);
        let items = bucketed_items(reference, threads);
        assert(are_days_descending(reference, front));
        assert(items[i] == before[i]) by {
            if i >= before.len() {
                assert(items[j] is Entry);
            }
        }
        if j < before.len() {
            assert(items[j] == before[j]);
            lemma_headings_in_order(reference, front, i, j);
        } else {
            lemma_rows_reach_last_bucket(reference, front, i);
            let previous = threads[threads.len() - 2];
            assert(front.last() == previous);
            lemma_buckets_follow_days(
                reference,
                previous.mtime.local_day(),
                threads.last().mtime.local_day(),
            );
        }
    }
}

/// Where the days of the threads descend, no row stands under a later heading than the last.
proof fn lemma_rows_reach_last_bucket(
    reference: int,
    threads: Seq<SavedTextThreadMetadata>,
    index: int,
)
    requires
        are_days_descending(reference, threads),
        0 <= index < bucketed_items(reference, threads).len(),
    ensures
        threads.len() > 0,
        row_bucket(reference, bucketed_items(reference, threads)[index]).rank() <= thread_bucket(
            reference,
            threads.last(),
        ).rank(),
    decreases threads.len(),
{
    if threads.len() > 0 {
        let front = threads.drop_last();
        let before = bucketed_items(reference, front);
        assert(are_days_descending(reference, front));
        if index < before.len() {
            lemma_rows_reach_last_bucket(reference, front, index);
            assert(bucketed_items(reference, threads)[index] == before[index]);
            lemma_buckets_follow_days(
                reference,
                front.last().mtime.local_day(),
                threads.last().mtime.local_day(),
            );
        }
    }
}

/// Where the days of the threads descend from the reference, there are no more headings than those
/// from today down to that of the last thread: at most five.
pub proof fn lemma_at_most_five_headings(reference: int, threads: Seq<SavedTextThreadMetadata>)
    requires
        are_days_descending(reference, threads),
    ensures
        bucketed_items(reference, threads).len() <= threads.len() + 5,
        threads.len() > 0 ==> bucketed_items(reference, threads).len() <= threads.len()
            + thread_bucket(reference, threads.last()).rank() + 1,
    decreases threads.len(),
{
    if threads.len() > 0 {
        let front = threads.drop_last();
        assert(are_days_descending(reference, front));
        lemma_at_most_five_headings(reference, front);
        if front.len() > 0 {
            lemma_buckets_follow_days(
                reference,
                front.last().mtime.local_day(),
                threads.last().mtime.local_day(),
            );
        }
    }
}

/// Threads that run from the newest to the oldest, all at one local offset and none of a day after
/// the reference, have descending days. So their headings come in order, each once.
pub proof fn lemma_newest_first_days_descend(
    reference: int,
    threads: Seq<SavedTextThreadMetadata>,
)
    requires
        is_newest_first(threads),
        forall|i: int, j: int|
            0 <= i < j < threads.len() ==> (#[trigger] threads[i]).mtime.offset == (
            #[trigger] threads[j]).mtime.offset,
        forall|i: int|
            0 <= i < threads.len() ==> (#[trigger] threads[i]).mtime.local_day() <= reference,
    ensures
        are_days_descending(reference, threads),
{
    assert forall|i: int, j: int| 0 <= i < j < threads.len() implies (
    #[trigger] threads[j]).mtime.local_day() <= (#[trigger] threads[i]).mtime.local_day() by {
        assert(!threads[j].mtime.later_than(threads[i].mtime));
        assert(threads[j].mtime.seconds <= threads[i].mtime.seconds);
    }
}

} // verus!
