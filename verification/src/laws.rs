//! What holds of the panel over several steps.

use crate::history::{
    are_times_valid, is_listable, is_refresh_start, number_after, opening, path_at, store_threads,
    thread_at, TextThreadHistory, TextThreadHistoryEvent, UpdateRequest,
};
use crate::items::{
    are_matches, bucketed_items, found_items, lemma_bucketed_threads, listed_threads, ListItemType,
    StringMatch,
};
use crate::paths::{
    are_path_verdicts, components, folded_components, is_first_marked, is_plain_path, is_slash_path,
};
use crate::rows::HistoryBody;
use crate::selection::{
    is_first_entry_from, is_last_entry_to, is_selection_target, next_start, previous_start, Bias,
};
use crate::thread::{
    is_newest_first, lemma_newest_first_is_ordered, lemma_newest_first_keeps_threads, newest_first,
    SavedTextThreadMetadata,
};
use vstd::prelude::*;

verus! {

/// Sorting keeps the times of threads valid.
pub proof fn lemma_sorting_keeps_times_valid(threads: Seq<SavedTextThreadMetadata>)
    requires
        are_times_valid(threads),
    ensures
        are_times_valid(newest_first(threads)),
{
    broadcast use vstd::seq_lib::group_to_multiset_ensures;

    lemma_newest_first_keeps_threads(threads);
    let sorted = newest_first(threads);
    assert forall|i: int| 0 <= i < sorted.len() implies (#[trigger] sorted[i]).mtime.wf() by {
        assert(sorted.contains(sorted[i]));
        assert(sorted.to_multiset().count(sorted[i]) > 0);
        assert(threads.contains(sorted[i]));
    }
}

/// The list of threads under their headings can be listed, whatever the day.
pub proof fn lemma_bucketed_items_are_listable(
    reference: int,
    threads: Seq<SavedTextThreadMetadata>,
)
    requires
        are_times_valid(threads),
    ensures
        is_listable(bucketed_items(reference, threads)),
    decreases threads.len(),
{
    if threads.len() > 0 {
        let front = threads.drop_last();
        let items = bucketed_items(reference, threads);
        let before = bucketed_items(reference, front);
        assert(are_times_valid(front));
        lemma_bucketed_items_are_listable(reference, front);
        assert(items[items.len() - 1].is_entry());
        assert forall|i: int| 0 <= i < items.len() implies match (#[trigger] items[i]).thread() {
            Some(thread) => thread.mtime.wf(),
            None => true,
        } by {
            if i < before.len() {
                assert(items[i] == before[i]);
            }
        }
    }
}

/// What a search found can be listed.
pub proof fn lemma_found_items_are_listable(
    threads: Seq<SavedTextThreadMetadata>,
    matches: Seq<StringMatch>,
)
    requires
        are_times_valid(threads),
        are_matches(threads, matches),
    ensures
        is_listable(found_items(threads, matches)),
{
    let items = found_items(threads, matches);
    if items.len() > 0 {
        assert(items[0].is_entry());
    }
    assert forall|i: int| 0 <= i < items.len() implies match (#[trigger] items[i]).thread() {
        Some(thread) => thread.mtime.wf(),
        None => true,
    } by {
        assert(matches[i].candidate_id < threads.len());
        assert(threads[matches[i].candidate_id as int].mtime.wf());
    }
}

/// A new list can always be listed once it is made: from threads of the store with valid times come
/// rows that the panel can list, with or without a search.
pub proof fn lemma_update_can_be_finished(
    history: TextThreadHistory,
    preserve_selected_item: bool,
    threads: Seq<SavedTextThreadMetadata>,
    after: TextThreadHistory,
    update: UpdateRequest,
    today: int,
    matches: Seq<StringMatch>,
)
    requires
        are_times_valid(threads),
        history.is_update(preserve_selected_item, Some(threads), after, Some(update)),
    ensures
        is_listable(bucketed_items(today, update.threads@)),
        are_matches(update.threads@, matches) ==> is_listable(
            found_items(update.threads@, matches),
        ),
{
    lemma_sorting_keeps_times_valid(threads);
    lemma_bucketed_items_are_listable(today, update.threads@);
    if are_matches(update.threads@, matches) {
        lemma_found_items_are_listable(update.threads@, matches);
    }
}

/// Where nothing is searched for, the panel lists every thread of the store once, from the newest
/// to the oldest.
pub proof fn lemma_panel_lists_store(
    history: TextThreadHistory,
    preserve_selected_item: bool,
    threads: Seq<SavedTextThreadMetadata>,
    after: TextThreadHistory,
    update: UpdateRequest,
    today: int,
)
    requires
        history.is_update(preserve_selected_item, Some(threads), after, Some(update)),
    ensures
        listed_threads(bucketed_items(today, update.threads@)).to_multiset()
            == threads.to_multiset(),
        is_newest_first(listed_threads(bucketed_items(today, update.threads@))),
{
    lemma_bucketed_threads(today, newest_first(threads));
    lemma_newest_first_keeps_threads(threads);
    lemma_newest_first_is_ordered(threads);
}

/// The selected thread can always be opened: in a list that is not empty, to confirm is to open
/// the thread of the selected row.
pub proof fn lemma_selected_thread_opens(history: TextThreadHistory)
    requires
        history.wf(),
        history.visible_items@.len() > 0,
    ensures
        match history.visible_items@[history.selected_index as int].thread() {
            Some(thread) => opening(
                path_at(history.visible_items@, history.selected_index as int),
            ) == Some(TextThreadHistoryEvent::OpenTextThread(thread.path)),
            None => false,
        },
{
}

/// The first and the last thread are where a selection lands from the ends of the list.
pub proof fn lemma_ends_of_list(items: Seq<ListItemType>, first: int, last: int)
    requires
        items.len() > 0,
        is_selection_target(items, 0, Bias::Right, first),
        is_selection_target(items, items.len() - 1, Bias::Left, last),
    ensures
        is_first_entry_from(items, 0, first),
        is_last_entry_to(items, items.len() - 1, last),
{
}

/// The list wraps around: the next thread of the last one is the first, though headings stand
/// before it, and the previous thread of the first one is the last.
pub proof fn lemma_selection_wraps(
    items: Seq<ListItemType>,
    first: int,
    last: int,
    next: int,
    previous: int,
)
    requires
        is_first_entry_from(items, 0, first),
        is_last_entry_to(items, items.len() - 1, last),
        is_selection_target(items, next_start(items, last), Bias::Right, next),
        is_selection_target(items, previous_start(items, first), Bias::Left, previous),
    ensures
        next == first,
        previous == last,
{
}

/// The row stands for a thread whose path is written so.
pub open spec fn has_path(items: Seq<ListItemType>, index: int, path: Seq<char>) -> bool {
    &&& 0 <= index < items.len()
    &&& items[index].thread() is Some
    &&& items[index].thread()->0.path@ == path
}

/// The row stands for a thread whose path has the same folded components: it is written the same,
/// but for what Unix and Windows do not both tell apart.
pub open spec fn has_folded_path(items: Seq<ListItemType>, index: int, path: Seq<char>) -> bool {
    &&& 0 <= index < items.len()
    &&& items[index].thread() is Some
    &&& folded_components(items[index].thread()->0.path@) == folded_components(path)
}

/// The row stands for a thread whose path has the same components.
pub open spec fn has_components(items: Seq<ListItemType>, index: int, path: Seq<char>) -> bool {
    &&& 0 <= index < items.len()
    &&& items[index].thread() is Some
    &&& components(items[index].thread()->0.path@) == components(path)
}

/// Making the list anew keeps the selection, however paths are written, on Unix and on Windows. If
/// the thread selected before is still listed, the row selected afterwards is no later than its
/// first row, and its path has the same folded components. If no path of the list has these, the
/// row selected afterwards is the first that stands for a thread.
pub proof fn lemma_refresh_keeps_selection(
    items: Seq<ListItemType>,
    path: String,
    start: int,
    selected: int,
)
    requires
        is_refresh_start(items, Some(path), start),
        is_selection_target(items, start, Bias::Right, selected),
    ensures
        (exists|i: int| #[trigger] has_path(items, i, path@)) ==> has_folded_path(
            items,
            selected,
            path@,
        ) && forall|i: int| #[trigger] has_path(items, i, path@) ==> selected <= i,
        (forall|i: int| !#[trigger] has_folded_path(items, i, path@)) ==> is_first_entry_from(
            items,
            0,
            selected,
        ),
{
    let same = choose|same: Seq<bool>| #[trigger]
        are_path_verdicts(items, path@, same) && is_first_marked(same, start);
    assert forall|i: int| 0 <= i < items.len() && #[trigger] same[i] implies has_folded_path(
        items,
        i,
        path@,
    ) by {
        assert(items[i].thread() is Some);
    }
    if exists|i: int| #[trigger] has_path(items, i, path@) {
        assert forall|i: int| #[trigger] has_path(items, i, path@) implies same[i] by {
            assert(items[i].thread() is Some);
        }
        let i = choose|i: int| #[trigger] has_path(items, i, path@);
        assert(same[i]);
        assert(same[start]);
        assert(items[start].is_entry());
    }
    if forall|i: int| !#[trigger] has_folded_path(items, i, path@) {
        assert forall|i: int| 0 <= i < same.len() implies !#[trigger] same[i] by {
            assert(!has_folded_path(items, i, path@));
        }
    }
}

/// Where slashes alone separate the names of all paths, the row selected afterwards is the first
/// whose path has the components of the path selected before, if there is one, and otherwise the
/// first that stands for a thread.
pub proof fn lemma_refresh_finds_components(
    items: Seq<ListItemType>,
    path: String,
    start: int,
    selected: int,
)
    requires
        is_slash_path(path@),
        forall|i: int|
            0 <= i < items.len() ==> match (#[trigger] items[i]).thread() {
                Some(thread) => is_slash_path(thread.path@),
                None => true,
            },
        is_refresh_start(items, Some(path), start),
        is_selection_target(items, start, Bias::Right, selected),
    ensures
        (exists|i: int| #[trigger] has_components(items, i, path@)) ==> has_components(
            items,
            selected,
            path@,
        ) && forall|i: int| #[trigger] has_components(items, i, path@) ==> selected <= i,
        (forall|i: int| !#[trigger] has_components(items, i, path@)) ==> is_first_entry_from(
            items,
            0,
            selected,
        ),
{
    let same = choose|same: Seq<bool>| #[trigger]
        are_path_verdicts(items, path@, same) && is_first_marked(same, start);
    assert forall|i: int| 0 <= i < items.len() implies #[trigger] same[i] == has_components(
        items,
        i,
        path@,
    ) by {
        if let Some(thread) = items[i].thread() {
            assert(is_slash_path(thread.path@));
        }
    }
    if exists|i: int| #[trigger] has_components(items, i, path@) {
        let i = choose|i: int| #[trigger] has_components(items, i, path@);
        assert(same[i]);
        assert(same[start]);
        assert forall|j: int| #[trigger] has_components(items, j, path@) implies selected <= j by {
            assert(same[j]);
        }
    } else {
        assert forall|i: int| 0 <= i < same.len() implies !#[trigger] same[i] by {
            assert(!has_components(items, i, path@));
        }
    }
}

/// Where all paths are written plainly, the row selected afterwards is the first that stands for
/// the thread at the path selected before, if there is one, and otherwise the first that stands for
/// a thread.
pub proof fn lemma_refresh_finds_plain_path(
    items: Seq<ListItemType>,
    path: String,
    start: int,
    selected: int,
)
    requires
        is_plain_path(path@),
        forall|i: int|
            0 <= i < items.len() ==> match (#[trigger] items[i]).thread() {
                Some(thread) => is_plain_path(thread.path@),
                None => true,
            },
        is_refresh_start(items, Some(path), start),
        is_selection_target(items, start, Bias::Right, selected),
    ensures
        (exists|i: int| #[trigger] has_path(items, i, path@)) ==> has_path(items, selected, path@)
            && forall|i: int| #[trigger] has_path(items, i, path@) ==> selected <= i,
        (forall|i: int| !#[trigger] has_path(items, i, path@)) ==> is_first_entry_from(
            items,
            0,
            selected,
        ),
{
    let same = choose|same: Seq<bool>| #[trigger]
        are_path_verdicts(items, path@, same) && is_first_marked(same, start);
    assert forall|i: int| 0 <= i < items.len() implies #[trigger] same[i] == has_path(
        items,
        i,
        path@,
    ) by {
        if let Some(thread) = items[i].thread() {
            assert(is_plain_path(thread.path@));
        }
    }
    if exists|i: int| #[trigger] has_path(items, i, path@) {
        let i = choose|i: int| #[trigger] has_path(items, i, path@);
        assert(same[i]);
        assert(same[start]);
        assert forall|j: int| #[trigger] has_path(items, j, path@) implies selected <= j by {
            assert(same[j]);
        }
    } else {
        assert forall|i: int| 0 <= i < same.len() implies !#[trigger] same[i] by {
            assert(!has_path(items, i, path@));
        }
    }
}

/// Making the list anew leaves the selection alone where nothing has changed: in a list of threads
/// of whose paths no two have the same folded components, the selected row stays the selected one.
pub proof fn lemma_refresh_of_same_list(
    items: Seq<ListItemType>,
    selected: int,
    start: int,
    reselected: int,
)
    requires
        0 <= selected < items.len(),
        items[selected].is_entry(),
        forall|i: int, j: int, path: Seq<char>| #[trigger]
            has_folded_path(items, i, path) && #[trigger] has_folded_path(items, j, path) ==> i
                == j,
        is_refresh_start(items, path_at(items, selected), start),
        is_selection_target(items, start, Bias::Right, reselected),
    ensures
        reselected == selected,
{
    let path = items[selected].thread()->0.path;
    assert(has_path(items, selected, path@));
    assert(has_folded_path(items, selected, path@));
    lemma_refresh_keeps_selection(items, path, start, reselected);
}

/// The same of a list whose paths only slashes separate, and of which no two have the same
/// components.
pub proof fn lemma_refresh_of_same_slash_list(
    items: Seq<ListItemType>,
    selected: int,
    start: int,
    reselected: int,
)
    requires
        0 <= selected < items.len(),
        items[selected].is_entry(),
        forall|i: int|
            0 <= i < items.len() ==> match (#[trigger] items[i]).thread() {
                Some(thread) => is_slash_path(thread.path@),
                None => true,
            },
        forall|i: int, j: int, path: Seq<char>| #[trigger]
            has_components(items, i, path) && #[trigger] has_components(items, j, path) ==> i == j,
        is_refresh_start(items, path_at(items, selected), start),
        is_selection_target(items, start, Bias::Right, reselected),
    ensures
        reselected == selected,
{
    let path = items[selected].thread()->0.path;
    assert(is_slash_path(path@));
    assert(has_components(items, selected, path@));
    lemma_refresh_finds_components(items, path, start, reselected);
}

/// Without a path to keep, the selection of a new list is its first thread.
pub proof fn lemma_refresh_from_top(items: Seq<ListItemType>, start: int, selected: int)
    requires
        is_refresh_start(items, None, start),
        is_selection_target(items, start, Bias::Right, selected),
    ensures
        is_first_entry_from(items, 0, selected),
{
}

/// To cancel the question whether all threads are to be deleted undoes to ask it, and to ask it
/// twice is to ask it once. No thread is touched, and neither is the selection.
pub proof fn lemma_cancel_undoes_prompt(history: TextThreadHistory)
    ensures
        history.with_confirming(true).with_confirming(true) == history.with_confirming(true),
        !history.confirming_delete_history ==> history.with_confirming(true).with_confirming(false)
            == history,
{
}

/// The pointer goes from one row to another in either order of leaving the one and coming to the
/// other: the other is the hovered row then. Once the pointer has left it too, none is.
pub proof fn lemma_hover_moves(history: TextThreadHistory, from: usize, to: usize)
    requires
        from != to,
    ensures
        history.after_hover(from, true).after_hover(to, true).after_hover(from, false)
            == history.with_hovered(Some(to)),
        history.after_hover(from, true).after_hover(from, false).after_hover(to, true)
            == history.with_hovered(Some(to)),
        history.after_hover(to, true).after_hover(to, false) == history.with_hovered(None),
{
}

/// A newer list makes an older one void. Once any further lists have been asked for, the number of
/// the older one is not that of the latest, so that to finish it changes nothing. The number is
/// exact up to as many lists as there are numbers.
pub proof fn lemma_newer_update_voids_older(number: u64, updates: nat)
    requires
        0 < updates < 0x1_0000_0000_0000_0000,
    ensures
        number_after(number, updates) != number,
        number_after(number_after(number, 1), (updates - 1) as nat) == number_after(
            number,
            updates,
        ),
{
}

/// Of two lists asked for one after the other, the first is void and the second is not, whatever
/// the user selects, hovers, searches for or is asked in between.
pub proof fn lemma_second_update_is_latest(
    before: TextThreadHistory,
    between: TextThreadHistory,
    changed: TextThreadHistory,
    after: TextThreadHistory,
    first_store: Seq<SavedTextThreadMetadata>,
    second_store: Seq<SavedTextThreadMetadata>,
    first_preserves: bool,
    second_preserves: bool,
    first: UpdateRequest,
    second: UpdateRequest,
)
    requires
        before.is_update(first_preserves, Some(first_store), between, Some(first)),
        changed.latest_update == between.latest_update,
        changed.is_update(second_preserves, Some(second_store), after, Some(second)),
    ensures
        first.number != after.latest_update,
        second.number == after.latest_update,
        second.query == changed.search_query,
        second.threads@ == newest_first(second_store),
        after.visible_items == changed.visible_items,
        after.selected_index == changed.selected_index,
{
}

/// Nothing but to ask for a list changes the number of the latest list.
pub proof fn lemma_edits_keep_latest_update(
    history: TextThreadHistory,
    after: TextThreadHistory,
    confirming: bool,
    hovered: Option<usize>,
    query: String,
    items: Vec<ListItemType>,
    selected_path: Option<String>,
    start: int,
    bias: Bias,
)
    ensures
        history.with_confirming(confirming).latest_update == history.latest_update,
        history.with_hovered(hovered).latest_update == history.latest_update,
        history.with_query(query).latest_update == history.latest_update,
        history.is_selected_from(start, bias, after) ==> after.latest_update
            == history.latest_update,
        history.is_refreshed(items, selected_path, after) ==> after.latest_update
            == history.latest_update,
{
}

/// Asking, cancelling, hovering, editing the query and asking for a new list keep the panel
/// well-formed.
pub proof fn lemma_edits_keep_well_formed(
    history: TextThreadHistory,
    confirming: bool,
    hovered: Option<usize>,
    query: String,
)
    requires
        history.wf(),
    ensures
        history.with_confirming(confirming).wf(),
        history.with_hovered(hovered).wf(),
        history.with_query(query).wf(),
        history.with_next_update().wf(),
{
}

/// What is asked for when a new list is to be made, whatever is searched for and however many
/// threads there are: a list of all threads of the store, for the query of the panel. If the
/// selection is to be kept it carries the path of the thread of the selected row, under a heading
/// or found by a search. Where the selection is not to be kept, or the selected row stands for no
/// thread, it carries none. Nothing else of the panel changes.
pub proof fn lemma_update_request(
    history: TextThreadHistory,
    preserve_selected_item: bool,
    threads: Seq<SavedTextThreadMetadata>,
    after: TextThreadHistory,
    update: UpdateRequest,
)
    requires
        history.is_update(preserve_selected_item, Some(threads), after, Some(update)),
    ensures
        ({
            let items = history.visible_items@;
            let index = history.selected_index as int;
            &&& preserve_selected_item && index < items.len() && items[index] is Entry
                ==> update.selected_path == Some(items[index]->Entry_entry.path)
            &&& preserve_selected_item && index < items.len() && items[index] is SearchResult
                ==> update.selected_path == Some(items[index]->SearchResult_entry.path)
            &&& !preserve_selected_item || items.len() <= index || items[index] is BucketSeparator
                ==> update.selected_path is None
        }),
        update.query@ == history.search_query@,
        update.threads@.to_multiset() == threads.to_multiset(),
        update.threads@ == newest_first(threads),
        update.number == after.latest_update,
        after.latest_update != history.latest_update,
        after.selected_index == history.selected_index,
        after.hovered_index == history.hovered_index,
        after.search_query == history.search_query,
        after.visible_items == history.visible_items,
        after.local_timezone == history.local_timezone,
        after.confirming_delete_history == history.confirming_delete_history,
{
    lemma_newest_first_keeps_threads(threads);
}

/// A new list is asked for exactly if there is a store. Without one nothing changes.
pub proof fn lemma_update_needs_store(
    history: TextThreadHistory,
    preserve_selected_item: bool,
    store: Option<Vec<SavedTextThreadMetadata>>,
    after: TextThreadHistory,
    update: Option<UpdateRequest>,
)
    requires
        history.is_update(preserve_selected_item, store_threads(store), after, update),
    ensures
        update is Some <==> store is Some,
        store is None ==> after == history,
        update is Some ==> history.is_update(
            preserve_selected_item,
            Some(store->0@),
            after,
            update,
        ),
{
}

/// Once a new list is finished, its rows are the rows of the panel, whatever they are and whatever
/// is searched for. Only the rows and the selection change. A list without rows shows the message
/// for no matches while something is searched for, and otherwise the one for no threads, and any
/// other list is shown in full.
pub proof fn lemma_finished_list(
    history: TextThreadHistory,
    items: Vec<ListItemType>,
    selected_path: Option<String>,
    after: TextThreadHistory,
)
    requires
        history.is_refreshed(items, selected_path, after),
    ensures
        after.visible_items == items,
        after.visible_items@ == items@,
        after.search_query == history.search_query,
        after.hovered_index == history.hovered_index,
        after.local_timezone == history.local_timezone,
        after.confirming_delete_history == history.confirming_delete_history,
        after.latest_update == history.latest_update,
        items@.len() == 0 ==> after.selected_index == 0,
        items@.len() == 0 && history.search_query@.len() > 0 ==> after.shown().body is NoMatches,
        items@.len() == 0 && history.search_query@.len() == 0 ==> after.shown().body is NoHistory,
        0 < items@.len() <= usize::MAX ==> after.shown().body == HistoryBody::List(
            items@.len() as usize,
        ),
{
}

/// A finished list with rows has a thread selected. Without a path to keep it is the topmost. With
/// one it is no lower than the topmost thread with that very path, and all threads above it have
/// other paths.
pub proof fn lemma_finished_selection(
    history: TextThreadHistory,
    items: Vec<ListItemType>,
    selected_path: Option<String>,
    after: TextThreadHistory,
    row: int,
)
    requires
        history.is_refreshed(items, selected_path, after),
        0 <= row < items@.len(),
        !(items@[row] is BucketSeparator),
    ensures
        after.selected_index < items@.len(),
        !(items@[after.selected_index as int] is BucketSeparator),
        selected_path is None ==> after.selected_index <= row,
        selected_path is Some && items@[row] is Entry && items@[row]->Entry_entry.path@
            == selected_path->0@ ==> after.selected_index <= row,
        selected_path is Some && items@[row] is SearchResult
            && items@[row]->SearchResult_entry.path@ == selected_path->0@ ==> after.selected_index
            <= row,
{
    let start = choose|start: int| #[trigger]
        is_refresh_start(items@, selected_path, start) && history.with_items(
            items,
        ).is_selected_from(start, Bias::Right, after);
    let selected = after.selected_index as int;
    if let Some(path) = selected_path {
        lemma_refresh_keeps_selection(items@, path, start, selected);
        if items@[row].thread()->0.path@ == path@ {
            assert(has_path(items@, row, path@));
        }
        let same = choose|same: Seq<bool>| #[trigger]
            are_path_verdicts(items@, path@, same) && is_first_marked(same, start);
        assert(same.len() == items@.len());
    } else {
        lemma_refresh_from_top(items@, start, selected);
    }
}

/// A thread is deleted, another one is selected, and the selection stays on it. The list asked for
/// once the store has deleted the thread carries the path of the selected one, whatever is searched
/// for. Where the paths are written plainly, the row selected once that list is finished is the
/// topmost with that path, if there is one, however the rows have moved and whatever the user has
/// done meanwhile. If there is none, it is the topmost thread.
pub proof fn lemma_deletion_keeps_selected_thread(
    before: TextThreadHistory,
    store: Seq<SavedTextThreadMetadata>,
    asked: TextThreadHistory,
    update: UpdateRequest,
    meanwhile: TextThreadHistory,
    items: Vec<ListItemType>,
    after: TextThreadHistory,
    selected: SavedTextThreadMetadata,
    row: int,
)
    requires
        before.selected_index < before.visible_items@.len(),
        match before.visible_items@[before.selected_index as int] {
            ListItemType::BucketSeparator(_) => false,
            ListItemType::Entry { entry, .. } => entry == selected,
            ListItemType::SearchResult { entry, .. } => entry == selected,
        },
        before.is_update(true, Some(store), asked, Some(update)),
        meanwhile.is_refreshed(items, update.selected_path, after),
        is_plain_path(selected.path@),
        forall|i: int|
            0 <= i < items@.len() ==> match (#[trigger] items@[i]).thread() {
                Some(thread) => is_plain_path(thread.path@),
                None => true,
            },
        0 <= row < items@.len(),
        !(items@[row] is BucketSeparator),
    ensures
        update.selected_path == Some(selected.path),
        items@[row].thread()->0.path@ == selected.path@ ==> {
            &&& after.selected_index <= row
            &&& after.visible_items@[after.selected_index as int].thread() is Some
            &&& after.visible_items@[after.selected_index as int].thread()->0.path@
                == selected.path@
        },
        (forall|i: int|
            0 <= i < items@.len() && (#[trigger] items@[i]).is_entry()
                ==> items@[i].thread()->0.path@ != selected.path@) ==> after.selected_index <= row,
{
    let path = update.selected_path->0;
    let start = choose|start: int| #[trigger]
        is_refresh_start(items@, update.selected_path, start) && meanwhile.with_items(
            items,
        ).is_selected_from(start, Bias::Right, after);
    let index = after.selected_index as int;
    lemma_refresh_finds_plain_path(items@, path, start, index);
    if items@[row].thread()->0.path@ == path@ {
        assert(has_path(items@, row, path@));
    }
    if forall|i: int|
        0 <= i < items@.len() && (#[trigger] items@[i]).is_entry() ==> items@[i].thread()->0.path@
            != selected.path@ {
        assert forall|i: int| !#[trigger] has_path(items@, i, path@) by {
            if has_path(items@, i, path@) {
                assert(items@[i].is_entry());
            }
        }
    }
}

/// Where nothing is searched for, a thread that is still in the store is listed again, so the
/// selection stays on it.
pub proof fn lemma_stored_thread_is_listed(
    history: TextThreadHistory,
    preserve_selected_item: bool,
    store: Seq<SavedTextThreadMetadata>,
    after: TextThreadHistory,
    update: UpdateRequest,
    today: int,
    place: int,
) -> (row: int)
    requires
        history.is_update(preserve_selected_item, Some(store), after, Some(update)),
        0 <= place < store.len(),
    ensures
        0 <= row < bucketed_items(today, update.threads@).len(),
        bucketed_items(today, update.threads@)[row] matches ListItemType::Entry { entry, .. }
            && entry == store[place],
{
    broadcast use vstd::seq_lib::group_to_multiset_ensures;

    lemma_newest_first_keeps_threads(store);
    assert(store.contains(store[place]));
    assert(store.to_multiset().count(store[place]) > 0);
    assert(newest_first(store).contains(store[place]));
    let sorted = choose|i: int|
        0 <= i < newest_first(store).len() && newest_first(store)[i] == store[place];
    lemma_bucketed_holds_thread(today, newest_first(store), sorted)
}

/// The list with headings holds each thread.
proof fn lemma_bucketed_holds_thread(
    reference: int,
    threads: Seq<SavedTextThreadMetadata>,
    place: int,
) -> (row: int)
    requires
        0 <= place < threads.len(),
    ensures
        0 <= row < bucketed_items(reference, threads).len(),
        bucketed_items(reference, threads)[row] matches ListItemType::Entry { entry, .. } && entry
            == threads[place],
    decreases threads.len(),
{
    let front = threads.drop_last();
    let before = bucketed_items(reference, front);
    let items = bucketed_items(reference, threads);
    if place < front.len() {
        let row = lemma_bucketed_holds_thread(reference, front, place);
        assert(items[row] == before[row]);
        row
    } else {
        items.len() - 1
    }
}

/// Selecting a row changes nothing but the selection, brings the row into view and has the panel
/// drawn again. In an empty list there is nothing to select and nothing to draw.
pub proof fn lemma_selection_changes_selection_only(
    history: TextThreadHistory,
    start: int,
    bias: Bias,
    after: TextThreadHistory,
)
    requires
        0 <= start,
        history.is_selected_from(start, bias, after),
    ensures
        after.visible_items == history.visible_items,
        after.search_query == history.search_query,
        after.hovered_index == history.hovered_index,
        after.local_timezone == history.local_timezone,
        after.confirming_delete_history == history.confirming_delete_history,
        after.latest_update == history.latest_update,
        history.visible_items@.len() > 0 ==> {
            &&& after.selected_index < history.visible_items@.len()
            &&& is_selection_target(
                history.visible_items@,
                start,
                bias,
                after.selected_index as int,
            )
            &&& after.selection_effects().scroll_to == Some(after.selected_index)
            &&& after.selection_effects().notify
        },
        history.visible_items@.len() == 0 ==> {
            &&& after.selected_index == 0
            &&& after.selection_effects().scroll_to is None
            &&& !after.selection_effects().notify
        },
{
}

/// Editing the query, asking or cancelling the question whether all threads are to be deleted, and
/// moving the pointer each change what they are about, and nothing else.
pub proof fn lemma_edits_change_one_thing(
    history: TextThreadHistory,
    query: String,
    confirming: bool,
    ix: usize,
    is_hovered: bool,
)
    ensures
        history.with_query(query) == (TextThreadHistory { search_query: query, ..history }),
        history.with_confirming(confirming) == (TextThreadHistory {
            confirming_delete_history: confirming,
            ..history
        }),
        history.after_hover(ix, is_hovered).visible_items == history.visible_items,
        history.after_hover(ix, is_hovered).selected_index == history.selected_index,
        history.after_hover(ix, is_hovered).search_query == history.search_query,
        history.after_hover(ix, is_hovered).local_timezone == history.local_timezone,
        history.after_hover(ix, is_hovered).confirming_delete_history
            == history.confirming_delete_history,
        history.after_hover(ix, is_hovered).latest_update == history.latest_update,
        history.after_hover(ix, true).hovered_index == Some(ix),
        history.after_hover(ix, false).hovered_index != Some(ix),
        history.hovered_index != Some(ix) ==> history.after_hover(ix, false).hovered_index
            == history.hovered_index,
{
}

/// To confirm a row opens the thread that it stands for, under a heading or found by a search. A
/// heading opens nothing, and neither does a place beyond the list.
pub proof fn lemma_row_opens_its_thread(items: Seq<ListItemType>, index: int)
    requires
        0 <= index,
    ensures
        index < items.len() && items[index] is Entry ==> opening(path_at(items, index)) == Some(
            TextThreadHistoryEvent::OpenTextThread(items[index]->Entry_entry.path),
        ) && path_at(items, index) == Some(items[index]->Entry_entry.path) && thread_at(
            items,
            index,
        ) == Some(items[index]->Entry_entry),
        index < items.len() && items[index] is SearchResult ==> opening(path_at(items, index))
            == Some(
            TextThreadHistoryEvent::OpenTextThread(items[index]->SearchResult_entry.path),
        ) && path_at(items, index) == Some(items[index]->SearchResult_entry.path) && thread_at(
            items,
            index,
        ) == Some(items[index]->SearchResult_entry),
        items.len() <= index || items[index] is BucketSeparator ==> opening(path_at(items, index))
            is None && path_at(items, index) is None && thread_at(items, index) is None,
{
}

/// Which panels are well-formed: those that list nothing and have the first place selected, and
/// those whose selected place is that of a thread, wherever it is and however long the list, if all
/// times are ones that chrono can hold and the offset is one that the `time` crate can.
pub proof fn lemma_well_formed_panels(history: TextThreadHistory)
    requires
        -93_599 <= history.local_timezone.seconds <= 93_599,
        forall|i: int|
            0 <= i < history.visible_items@.len() ==> match #[trigger] history.visible_items@[i] {
                ListItemType::BucketSeparator(_) => true,
                ListItemType::Entry { entry, .. } => entry.mtime.wf(),
                ListItemType::SearchResult { entry, .. } => entry.mtime.wf(),
            },
        history.visible_items@.len() == 0 ==> history.selected_index == 0,
        history.visible_items@.len() > 0 ==> history.selected_index < history.visible_items@.len()
            && !(history.visible_items@[history.selected_index as int] is BucketSeparator),
    ensures
        history.wf(),
        is_listable(history.visible_items@),
{
    if history.visible_items@.len() > 0 {
        assert(history.visible_items@[history.selected_index as int].is_entry());
    }
}

} // verus!
