//! What the store tells of a saved thread.

use crate::clock::LocalTimestamp;
use crate::text::{is_blank, is_white_space, lemma_trimmed_is_empty, std_trim};
use vstd::prelude::*;

verus! {

/// A saved thread: its title, the path of its file, and when it was last changed.
#[derive(Debug)]
pub struct SavedTextThreadMetadata {
    pub title: String,
    pub path: String,
    pub mtime: LocalTimestamp,
}

impl Clone for SavedTextThreadMetadata {
    fn clone(&self) -> (copy: SavedTextThreadMetadata)
        ensures
            copy == *self,
    {
        SavedTextThreadMetadata {
            title: self.title.clone(),
            path: self.path.clone(),
            mtime: self.mtime,
        }
    }
}

/// The title that a thread is listed under: its own, as it stands, or a stand-in if that is blank.
pub open spec fn listed_title(title: Seq<char>) -> Seq<char> {
    if is_blank(title) {
        "New Thread"@
    } else {
        title
    }
}

/// The title that a thread is listed under.
pub fn entry_title(entry: &SavedTextThreadMetadata) -> (title: String)
    ensures
        title@ == listed_title(entry.title@),
        !is_blank(entry.title@) ==> title@ == entry.title@,
{
    let trimmed = std_trim(entry.title.as_str());
    proof {
        lemma_trimmed_is_empty(entry.title@, trimmed@);
    }
    if trimmed.is_empty() {
        "New Thread".to_owned()
    } else {
        entry.title.clone()
    }
}

/// A title with a character in it that is no white space is listed as it stands, whatever else it
/// holds, however long it is, and with the white space at its ends.
pub proof fn lemma_title_is_listed_as_it_stands(title: Seq<char>, visible: int)
    requires
        0 <= visible < title.len(),
        !is_white_space(title[visible]),
    ensures
        listed_title(title) == title,
{
}

/// Titles of white space alone, the empty one among them, are all listed alike.
pub proof fn lemma_blank_titles_are_listed_alike(title: Seq<char>)
    requires
        forall|i: int| 0 <= i < title.len() ==> is_white_space(#[trigger] title[i]),
    ensures
        listed_title(title) == seq!['N', 'e', 'w', ' ', 'T', 'h', 'r', 'e', 'a', 'd'],
{
    reveal_strlit("New Thread");
}

/// No thread is listed under a blank title.
pub proof fn lemma_listed_title_is_not_blank(title: Seq<char>)
    ensures
        !is_blank(listed_title(title)),
{
    reveal_strlit("New Thread");
    if is_blank(title) {
        assert(listed_title(title)[0] == 'N');
    }
}

/// The threads with `thread` put in before the first that is not newer.
pub open spec fn insert_by_time(
    thread: SavedTextThreadMetadata,
    sorted: Seq<SavedTextThreadMetadata>,
) -> Seq<SavedTextThreadMetadata>
    decreases sorted.len(),
{
    if sorted.len() > 0 && sorted[0].mtime.later_than(thread.mtime) {
        seq![sorted[0]] + insert_by_time(thread, sorted.drop_first())
    } else {
        seq![thread] + sorted
    }
}

/// The threads from the newest to the oldest, those of the same instant in the order they came in.
pub open spec fn newest_first(threads: Seq<SavedTextThreadMetadata>) -> Seq<
    SavedTextThreadMetadata,
>
    decreases threads.len(),
{
    if threads.len() == 0 {
        threads
    } else {
        insert_by_time(threads[0], newest_first(threads.drop_first()))
    }
}

/// No thread is followed by a newer one.
pub open spec fn is_newest_first(threads: Seq<SavedTextThreadMetadata>) -> bool {
    forall|i: int, j: int|
        0 <= i < j < threads.len() ==> !(#[trigger] threads[j]).mtime.later_than(
            (#[trigger] threads[i]).mtime,
        )
}

/// The threads last changed at one instant, in their order.
pub open spec fn of_instant(
    threads: Seq<SavedTextThreadMetadata>,
    instant: LocalTimestamp,
) -> Seq<SavedTextThreadMetadata> {
    threads.filter(|thread: SavedTextThreadMetadata| thread.mtime.same_instant(instant))
}

/// `insert_by_time` puts the thread at the end of the newer ones.
proof fn lemma_insert_position(
    thread: SavedTextThreadMetadata,
    sorted: Seq<SavedTextThreadMetadata>,
    position: int,
)
    requires
        0 <= position <= sorted.len(),
        forall|i: int|
            0 <= i < position ==> (#[trigger] sorted[i]).mtime.later_than(thread.mtime),
        position < sorted.len() ==> !sorted[position].mtime.later_than(thread.mtime),
    ensures
        insert_by_time(thread, sorted) == sorted.insert(position, thread),
    decreases sorted.len(),
{
    if position > 0 {
        let rest = sorted.drop_first();
        lemma_insert_position(thread, rest, position - 1);
        assert(seq![sorted[0]] + rest.insert(position - 1, thread) =~= sorted.insert(
            position,
            thread,
        ));
    } else {
        assert(seq![thread] + sorted =~= sorted.insert(0, thread));
    }
}

/// Where `insert_by_time` puts a thread.
proof fn lemma_insert_position_exists(
    thread: SavedTextThreadMetadata,
    sorted: Seq<SavedTextThreadMetadata>,
) -> (position: int)
    ensures
        0 <= position <= sorted.len(),
        forall|i: int|
            0 <= i < position ==> (#[trigger] sorted[i]).mtime.later_than(thread.mtime),
        position < sorted.len() ==> !sorted[position].mtime.later_than(thread.mtime),
        insert_by_time(thread, sorted) == sorted.insert(position, thread),
    decreases sorted.len(),
{
    let position = if sorted.len() > 0 && sorted[0].mtime.later_than(thread.mtime) {
        let rest = sorted.drop_first();
        let before = lemma_insert_position_exists(thread, rest);
        assert forall|i: int| 0 <= i < before + 1 implies (
        #[trigger] sorted[i]).mtime.later_than(thread.mtime) by {
            if i > 0 {
                assert(rest[i - 1] == sorted[i]);
            }
        }
        before + 1
    } else {
        0
    };
    lemma_insert_position(thread, sorted, position);
    position
}

/// Putting a thread into a list that runs from the newest to the oldest keeps it so.
proof fn lemma_insert_keeps_order(
    thread: SavedTextThreadMetadata,
    sorted: Seq<SavedTextThreadMetadata>,
)
    requires
        is_newest_first(sorted),
    ensures
        is_newest_first(insert_by_time(thread, sorted)),
{
    let position = lemma_insert_position_exists(thread, sorted);
    let result = sorted.insert(position, thread);
    assert forall|i: int, j: int| 0 <= i < j < result.len() implies !(
    #[trigger] result[j]).mtime.later_than((#[trigger] result[i]).mtime) by {
        let a = if i < position { i } else { i - 1 };
        let b = if j < position { j } else { j - 1 };
        if i == position {
            if position < sorted.len() && b > position {
                assert(!sorted[b].mtime.later_than(sorted[position].mtime));
            }
        } else if j == position {
            assert(sorted[a].mtime.later_than(thread.mtime));
        } else {
            assert(!sorted[b].mtime.later_than(sorted[a].mtime));
        }
    }
}

/// The sorted list runs from the newest thread to the oldest.
pub proof fn lemma_newest_first_is_ordered(threads: Seq<SavedTextThreadMetadata>)
    ensures
        is_newest_first(newest_first(threads)),
    decreases threads.len(),
{
    if threads.len() > 0 {
        lemma_newest_first_is_ordered(threads.drop_first());
        lemma_insert_keeps_order(threads[0], newest_first(threads.drop_first()));
    }
}

/// Sorting loses no thread and adds none.
pub proof fn lemma_newest_first_keeps_threads(threads: Seq<SavedTextThreadMetadata>)
    ensures
        newest_first(threads).to_multiset() == threads.to_multiset(),
        newest_first(threads).len() == threads.len(),
    decreases threads.len(),
{
    broadcast use vstd::seq_lib::group_to_multiset_ensures;

    if threads.len() > 0 {
        let rest = threads.drop_first();
        lemma_newest_first_keeps_threads(rest);
        let sorted = newest_first(rest);
        let position = lemma_insert_position_exists(threads[0], sorted);
        assert(seq![threads[0]] + rest =~= threads);
        assert(rest.insert(0, threads[0]) =~= threads);
    }
}

/// Sorting is stable: threads of the same instant keep their order.
pub proof fn lemma_newest_first_is_stable(
    threads: Seq<SavedTextThreadMetadata>,
    instant: LocalTimestamp,
)
    ensures
        of_instant(newest_first(threads), instant) == of_instant(threads, instant),
    decreases threads.len(),
{
    let pred = |thread: SavedTextThreadMetadata| thread.mtime.same_instant(instant);
    if threads.len() > 0 {
        let first = threads[0];
        let rest = threads.drop_first();
        lemma_newest_first_is_stable(rest, instant);
        let sorted = newest_first(rest);
        let position = lemma_insert_position_exists(first, sorted);
        let front = sorted.take(position);
        let back = sorted.skip(position);
        assert(threads =~= seq![first] + rest);
        assert(sorted =~= front + back);
        assert(sorted.insert(position, first) =~= front + (seq![first] + back));
        Seq::filter_distributes_over_add(seq![first], rest, pred);
        Seq::filter_distributes_over_add(front, back, pred);
        Seq::filter_distributes_over_add(front, seq![first] + back, pred);
        Seq::filter_distributes_over_add(seq![first], back, pred);
        reveal_with_fuel(Seq::filter, 2);
        assert(seq![first].drop_last() =~= Seq::<SavedTextThreadMetadata>::empty());
        if pred(first) {
            lemma_filter_none(front, pred);
            assert(front.filter(pred) + (seq![first] + back.filter(pred)) =~= seq![first] + (
            front.filter(pred) + back.filter(pred)));
        } else {
            assert(seq![first].filter(pred) =~= Seq::<SavedTextThreadMetadata>::empty());
            assert(front.filter(pred) + (Seq::<SavedTextThreadMetadata>::empty() + back.filter(
                pred,
            )) =~= Seq::<SavedTextThreadMetadata>::empty() + (front.filter(pred) + back.filter(
                pred,
            )));
        }
    }
}

/// A filter that no item passes leaves nothing.
proof fn lemma_filter_none<A>(items: Seq<A>, pred: spec_fn(A) -> bool)
    requires
        forall|i: int| 0 <= i < items.len() ==> !pred(#[trigger] items[i]),
    ensures
        items.filter(pred) == Seq::<A>::empty(),
    decreases items.len(),
{
    reveal(Seq::filter);
    if items.len() > 0 {
        assert forall|i: int| 0 <= i < items.drop_last().len() implies !pred(
            #[trigger] items.drop_last()[i],
        ) by {
            assert(items.drop_last()[i] == items[i]);
        }
        lemma_filter_none(items.drop_last(), pred);
        assert(!pred(items[items.len() - 1]));
    }
}

/// Sorting leaves a list alone that runs from the newest thread to the oldest.
pub proof fn lemma_newest_first_keeps_sorted(threads: Seq<SavedTextThreadMetadata>)
    requires
        is_newest_first(threads),
    ensures
        newest_first(threads) == threads,
    decreases threads.len(),
{
    if threads.len() > 0 {
        let rest = threads.drop_first();
        assert forall|i: int, j: int| 0 <= i < j < rest.len() implies !(
        #[trigger] rest[j]).mtime.later_than((#[trigger] rest[i]).mtime) by {
            assert(rest[j] == threads[j + 1] && rest[i] == threads[i + 1]);
        }
        lemma_newest_first_keeps_sorted(rest);
        if rest.len() > 0 {
            assert(!threads[1].mtime.later_than(threads[0].mtime));
        }
        assert(seq![threads[0]] + rest =~= threads);
    }
}

/// In the sorted list no thread comes before one that was changed later, to the nanosecond, and
/// those changed in the same nanosecond come in the order in which they came in. Titles, paths and
/// offsets play no part.
pub proof fn lemma_sorted_by_time(threads: Seq<SavedTextThreadMetadata>, seconds: i64, nanos: u32)
    ensures
        newest_first(threads).to_multiset() == threads.to_multiset(),
        forall|i: int, j: int|
            0 <= i < j < newest_first(threads).len() ==> {
                let newer = (#[trigger] newest_first(threads)[i]).mtime;
                let older = (#[trigger] newest_first(threads)[j]).mtime;
                newer.seconds > older.seconds || newer.seconds == older.seconds && newer.nanos
                    >= older.nanos
            },
        newest_first(threads).filter(
            |thread: SavedTextThreadMetadata|
                thread.mtime.seconds == seconds && thread.mtime.nanos == nanos,
        ) == threads.filter(
            |thread: SavedTextThreadMetadata|
                thread.mtime.seconds == seconds && thread.mtime.nanos == nanos,
        ),
{
    lemma_newest_first_keeps_threads(threads);
    lemma_newest_first_is_ordered(threads);
    let instant = LocalTimestamp { seconds, nanos, offset: 0 };
    lemma_newest_first_is_stable(threads, instant);
    assert((|thread: SavedTextThreadMetadata|
        thread.mtime.seconds == seconds && thread.mtime.nanos == nanos)
        =~= (|thread: SavedTextThreadMetadata| thread.mtime.same_instant(instant)));
    assert forall|i: int, j: int| 0 <= i < j < newest_first(threads).len() implies {
        let newer = (#[trigger] newest_first(threads)[i]).mtime;
        let older = (#[trigger] newest_first(threads)[j]).mtime;
        newer.seconds > older.seconds || newer.seconds == older.seconds && newer.nanos
            >= older.nanos
    } by {
        assert(!newest_first(threads)[j].mtime.later_than(newest_first(threads)[i].mtime));
    }
}

/// Sorts threads from the newest to the oldest. Those of the same instant keep their order.
pub fn sort_newest_first(threads: Vec<SavedTextThreadMetadata>) -> (sorted: Vec<
    SavedTextThreadMetadata,
>)
    ensures
        sorted@ == newest_first(threads@),
{
    let mut left = threads;
    let mut sorted: Vec<SavedTextThreadMetadata> = Vec::with_capacity(left.len());
    assert(threads@.skip(threads@.len() as int) =~= Seq::empty());
    loop
        invariant
            left@ == threads@.take(left@.len() as int),
            left@.len() <= threads@.len(),
            sorted@ == newest_first(threads@.skip(left@.len() as int)),
        ensures
            sorted@ == newest_first(threads@),
        decreases left@.len(),
    {
        let ghost rest = threads@.skip(left@.len() as int);
        match left.pop() {
            None => {
                assert(rest =~= threads@);
                break;
            },
            Some(thread) => {
                proof {
                    lemma_newest_first_is_ordered(rest);
                    assert(threads@.skip(left@.len() as int).drop_first() =~= rest);
                }
                let mut low: usize = 0;
                let mut high: usize = sorted.len();
                while low < high
                    invariant
                        low <= high <= sorted.len(),
                        is_newest_first(sorted@),
                        forall|i: int|
                            0 <= i < low ==> (#[trigger] sorted@[i]).mtime.later_than(
                                thread.mtime,
                            ),
                        high < sorted@.len() ==> !sorted@[high as int].mtime.later_than(
                            thread.mtime,
                        ),
                    decreases high - low,
                {
                    let middle: usize = low + (high - low) / 2;
                    if sorted[middle].mtime.is_later_than(&thread.mtime) {
                        assert forall|i: int| 0 <= i < middle + 1 implies (
                        #[trigger] sorted@[i]).mtime.later_than(thread.mtime) by {
                            if i < middle {
                                assert(!sorted@[middle as int].mtime.later_than(sorted@[i].mtime));
                            }
                        }
                        low = middle + 1;
                    } else {
                        high = middle;
                    }
                }
                proof {
                    lemma_insert_position(thread, sorted@, low as int);
                }
                sorted.insert(low, thread);
            },
        }
    }
    sorted
}

} // verus!
