//! The state of the history panel, and what it asks of its surroundings.

use crate::calendar::Date;
use crate::clock::{chrono_now, is_clock_date, LocalTimestamp};
use crate::items::{
    are_candidates, bucketed_items, build_bucketed_items, search_request, ListItemType,
    SearchRequest, MAX_MATCHES,
};
use crate::paths::{are_path_verdicts, compare_paths, first_marked, is_first_marked};
use crate::selection::{
    has_entry, is_selection_target, next_start, previous_start, selection_target, Bias,
};
use crate::thread::{newest_first, sort_newest_first, SavedTextThreadMetadata};
use crate::timestamp::UtcOffset;
use vstd::prelude::*;

verus! {

/// The history panel: the rows that it lists, the row that is selected and the one that is hovered,
/// what is searched for, the time zone that times are shown in, whether the user is being asked to
/// confirm that all threads are to be deleted, and how many new lists have been asked for.
#[derive(Debug)]
pub struct TextThreadHistory {
    pub selected_index: usize,
    pub hovered_index: Option<usize>,
    pub search_query: String,
    pub visible_items: Vec<ListItemType>,
    pub local_timezone: UtcOffset,
    pub confirming_delete_history: bool,
    /// The number of the new list that was asked for last. Lists are numbered from 1 on, and the
    /// numbers wrap around.
    pub latest_update: u64,
}

/// What the panel tells its surroundings.
#[derive(Debug)]
pub enum TextThreadHistoryEvent {
    /// The thread at this path is to be opened.
    OpenTextThread(String),
}

/// What a new list of rows is made from.
#[derive(Debug)]
pub struct UpdateRequest {
    /// The number of the list. Once a list with another number is asked for, this one is void.
    pub number: u64,
    /// The threads of the store, from the newest to the oldest.
    pub threads: Vec<SavedTextThreadMetadata>,
    pub query: String,
    /// The path of the thread that is to be selected in the new list, if it is there.
    pub selected_path: Option<String>,
}

/// Threads, and the search of them that is asked of the fuzzy matcher.
#[derive(Debug)]
pub struct PendingSearch {
    pub threads: Vec<SavedTextThreadMetadata>,
    pub request: SearchRequest,
}

/// How far a new list of rows has come.
#[derive(Debug)]
pub enum UpdateStep {
    /// The list is done.
    Ready(Vec<ListItemType>),
    /// The list waits for what the fuzzy matcher finds.
    Search(PendingSearch),
}

/// What the panel is to do on the screen.
#[derive(Clone, Copy, Debug, PartialEq, Eq)]
pub struct Effects {
    /// The row to bring to the top of the view.
    pub scroll_to: Option<usize>,
    /// Whether the panel is to be drawn again.
    pub notify: bool,
}

/// The threads to delete once the user has confirmed that all are to be deleted.
#[derive(Debug)]
pub struct Removal {
    /// The paths of the threads, or nothing if there is no store.
    pub paths: Option<Vec<String>>,
    /// Whether the panel is to be drawn again.
    pub notify: bool,
}

/// What follows once the store has changed.
#[derive(Debug)]
pub struct Refresh {
    /// A new list to make.
    pub update: Option<UpdateRequest>,
    /// Whether the panel is to be drawn again.
    pub notify: bool,
}

/// The rows can be listed: a list that is not empty has a thread to select, and the times of all
/// threads are valid.
pub open spec fn is_listable(items: Seq<ListItemType>) -> bool {
    &&& items.len() > 0 ==> has_entry(items)
    &&& forall|i: int|
        0 <= i < items.len() ==> match (#[trigger] items[i]).thread() {
            Some(thread) => thread.mtime.wf(),
            None => true,
        }
}

/// The times of all threads are valid.
pub open spec fn are_times_valid(threads: Seq<SavedTextThreadMetadata>) -> bool {
    forall|i: int| 0 <= i < threads.len() ==> (#[trigger] threads[i]).mtime.wf()
}

/// The thread of a row, if there is such a row and it is no heading.
pub open spec fn thread_at(items: Seq<ListItemType>, index: int) -> Option<
    SavedTextThreadMetadata,
> {
    if 0 <= index < items.len() {
        items[index].thread()
    } else {
        None
    }
}

/// The path of the thread of a row, if there is such a row and it is no heading.
pub open spec fn path_at(items: Seq<ListItemType>, index: int) -> Option<String> {
    match thread_at(items, index) {
        Some(thread) => Some(thread.path),
        None => None,
    }
}

/// The number of the list that is asked for after so many others.
pub open spec fn number_after(number: u64, updates: nat) -> u64 {
    ((number + updates) % 0x1_0000_0000_0000_0000) as u64
}

/// `start` is where the selection of a new list starts: at the first row that stands for the thread
/// at the path, or at the top if there is no such row or no such path.
pub open spec fn is_refresh_start(
    items: Seq<ListItemType>,
    selected_path: Option<String>,
    start: int,
) -> bool {
    match selected_path {
        Some(path) => exists|same: Seq<bool>| #[trigger]
            are_path_verdicts(items, path@, same) && is_first_marked(same, start),
        None => start == 0,
    }
}

impl TextThreadHistory {
    /// The rows can be listed and times can be shown, and the selected row stands for a thread. An
    /// empty list has the first row selected, which there is not.
    pub open spec fn wf(self) -> bool {
        &&& self.local_timezone.wf()
        &&& is_listable(self.visible_items@)
        &&& if self.visible_items@.len() == 0 {
            self.selected_index == 0
        } else {
            self.selected_index < self.visible_items@.len()
                && self.visible_items@[self.selected_index as int].is_entry()
        }
    }

    /// The panel with other rows.
    pub open spec fn with_items(self, items: Vec<ListItemType>) -> TextThreadHistory {
        TextThreadHistory { visible_items: items, ..self }
    }

    /// The panel after another new list has been asked for.
    pub open spec fn with_next_update(self) -> TextThreadHistory {
        TextThreadHistory { latest_update: number_after(self.latest_update, 1), ..self }
    }

    /// The panel with another row selected.
    pub open spec fn with_selection(self, index: usize) -> TextThreadHistory {
        TextThreadHistory { selected_index: index, ..self }
    }

    /// The panel with another row hovered, or none.
    pub open spec fn with_hovered(self, index: Option<usize>) -> TextThreadHistory {
        TextThreadHistory { hovered_index: index, ..self }
    }

    /// The panel after the pointer has come to a row or has left it. To leave a row that is not the
    /// hovered one changes nothing.
    pub open spec fn after_hover(self, index: usize, is_hovered: bool) -> TextThreadHistory {
        if is_hovered {
            self.with_hovered(Some(index))
        } else if self.hovered_index == Some(index) {
            self.with_hovered(None)
        } else {
            self
        }
    }

    /// The panel with another query.
    pub open spec fn with_query(self, query: String) -> TextThreadHistory {
        TextThreadHistory { search_query: query, ..self }
    }

    /// The panel with the question open, or not, whether all threads are to be deleted.
    pub open spec fn with_confirming(self, confirming: bool) -> TextThreadHistory {
        TextThreadHistory { confirming_delete_history: confirming, ..self }
    }

    /// `after` is the panel with the row selected that a selection from `start` lands on. In an
    /// empty list the selection goes back to the top.
    pub open spec fn is_selected_from(
        self,
        start: int,
        bias: Bias,
        after: TextThreadHistory,
    ) -> bool {
        &&& after == self.with_selection(after.selected_index)
        &&& if self.visible_items@.len() == 0 {
            after.selected_index == 0
        } else {
            is_selection_target(self.visible_items@, start, bias, after.selected_index as int)
        }
    }

    /// `after` is the panel with new rows, and with the first of them selected that stands for the
    /// thread at the path, or else the first that stands for a thread.
    pub open spec fn is_refreshed(
        self,
        items: Vec<ListItemType>,
        selected_path: Option<String>,
        after: TextThreadHistory,
    ) -> bool {
        exists|start: int| #[trigger]
            is_refresh_start(items@, selected_path, start) && self.with_items(
                items,
            ).is_selected_from(start, Bias::Right, after)
    }

    /// What a change of the selection shows: the selected row comes into view. In an empty list
    /// there is nothing to show.
    pub open spec fn selection_effects(self) -> Effects {
        if self.visible_items@.len() == 0 {
            Effects { scroll_to: None, notify: false }
        } else {
            Effects { scroll_to: Some(self.selected_index), notify: true }
        }
    }

    /// `update` is what a new list is made from: the threads of the store, if there is one, the
    /// query, and the path of the selected thread, if the selection is to be kept. `after` is the
    /// panel once it is asked for. Without a store no list is asked for.
    pub open spec fn is_update(
        self,
        preserve_selected_item: bool,
        store: Option<Seq<SavedTextThreadMetadata>>,
        after: TextThreadHistory,
        update: Option<UpdateRequest>,
    ) -> bool {
        match (store, update) {
            (None, None) => after == self,
            (Some(threads), Some(request)) => {
                &&& after == self.with_next_update()
                &&& request.number == after.latest_update
                &&& request.threads@ == newest_first(threads)
                &&& request.query == self.search_query
                &&& request.selected_path == (if preserve_selected_item {
                    path_at(self.visible_items@, self.selected_index as int)
                } else {
                    None
                })
            },
            _ => false,
        }
    }
}

/// The threads of the store, if there is one.
pub open spec fn store_threads(store: Option<Vec<SavedTextThreadMetadata>>) -> Option<
    Seq<SavedTextThreadMetadata>,
> {
    match store {
        Some(threads) => Some(threads@),
        None => None,
    }
}

impl TextThreadHistory {
    /// A panel that lists nothing yet, at a local offset from UTC, and the first list to make from
    /// the threads of the store.
    pub fn new_at(local_offset: i32, store: Option<Vec<SavedTextThreadMetadata>>) -> (created: (
        TextThreadHistory,
        Option<UpdateRequest>,
    ))
        ensures
            created.0.wf(),
            created.0.selected_index == 0,
            created.0.hovered_index is None,
            created.0.search_query@.len() == 0,
            created.0.visible_items@.len() == 0,
            created.0.local_timezone == UtcOffset::of_seconds(local_offset),
            !created.0.confirming_delete_history,
            created.0.latest_update == (if store is Some {
                1u64
            } else {
                0u64
            }),
            match created.1 {
                Some(update) => {
                    &&& store is Some
                    &&& update.number == created.0.latest_update
                    &&& update.threads@ == newest_first(store->0@)
                    &&& update.query@.len() == 0
                    &&& update.selected_path is None
                },
                None => store is None,
            },
    {
        let mut history = TextThreadHistory {
            selected_index: 0,
            hovered_index: None,
            search_query: String::new(),
            visible_items: Vec::new(),
            local_timezone: UtcOffset::from_whole_seconds(local_offset),
            confirming_delete_history: false,
            latest_update: 0,
        };
        let update = history.update_visible_items(false, store);
        (history, update)
    }

    /// Asks for a new list, in place of any that was asked for before. Returns what it is made
    /// from, or nothing if there is no store. The selection is kept by the path of the selected
    /// thread.
    pub fn update_visible_items(
        &mut self,
        preserve_selected_item: bool,
        store: Option<Vec<SavedTextThreadMetadata>>,
    ) -> (update: Option<UpdateRequest>)
        ensures
            old(self).is_update(
                preserve_selected_item,
                store_threads(store),
                *final(self),
                update,
            ),
    {
        let threads = match store {
            Some(threads) => sort_newest_first(threads),
            None => return None,
        };
        let selected_path = if preserve_selected_item {
            match self.selected_path() {
                Some(path) => Some(path.clone()),
                None => None,
            }
        } else {
            None
        };
        self.latest_update = self.latest_update.wrapping_add(1);
        Some(
            UpdateRequest {
                number: self.latest_update,
                threads,
                query: self.search_query.clone(),
                selected_path,
            },
        )
    }

    /// The path of the selected thread.
    pub fn selected_path(&self) -> (path: Option<&String>)
        ensures
            match path {
                Some(path) => path_at(self.visible_items@, self.selected_index as int) == Some(
                    *path,
                ),
                None => path_at(self.visible_items@, self.selected_index as int) is None,
            },
    {
        match self.get_entry(self.selected_index) {
            Some(entry) => Some(&entry.path),
            None => None,
        }
    }

    /// The thread of a row, if there is such a row and it is no heading.
    pub fn get_entry(&self, visible_items_ix: usize) -> (entry: Option<&SavedTextThreadMetadata>)
        ensures
            match entry {
                Some(thread) => thread_at(self.visible_items@, visible_items_ix as int) == Some(
                    *thread,
                ),
                None => thread_at(self.visible_items@, visible_items_ix as int) is None,
            },
    {
        if visible_items_ix < self.visible_items.len() {
            self.visible_items[visible_items_ix].entry()
        } else {
            None
        }
    }

    /// A panel that lists nothing yet, at the current local offset from UTC, and the first list to
    /// make from the threads of the store.
    pub fn new(store: Option<Vec<SavedTextThreadMetadata>>) -> (created: (
        TextThreadHistory,
        Option<UpdateRequest>,
    ))
        ensures
            created.0.wf(),
            created.0.selected_index == 0,
            created.0.hovered_index is None,
            created.0.search_query@.len() == 0,
            created.0.visible_items@.len() == 0,
            exists|now: LocalTimestamp| #[trigger]
                now.is_clock_reading() && created.0.local_timezone.seconds == now.offset,
            !created.0.confirming_delete_history,
            created.0.latest_update == (if store is Some {
                1u64
            } else {
                0u64
            }),
            match created.1 {
                Some(update) => {
                    &&& store is Some
                    &&& update.number == created.0.latest_update
                    &&& update.threads@ == newest_first(store->0@)
                    &&& update.query@.len() == 0
                    &&& update.selected_path is None
                },
                None => store is None,
            },
    {
        let now = chrono_now();
        TextThreadHistory::new_at(now.offset, store)
    }

    /// Lists new rows, and selects the thread at the path again if it is there, or else the first
    /// thread. Everything but the rows and the selection stays as it is. The panel is drawn again,
    /// whether or not there is a row to bring into view. A list that was not asked for last is
    /// void, and changes nothing.
    pub fn finish_update(
        &mut self,
        number: u64,
        new_visible_items: Vec<ListItemType>,
        selected_path: Option<String>,
    ) -> (effects: Effects)
        requires
            old(self).wf(),
            number == old(self).latest_update ==> is_listable(new_visible_items@),
        ensures
            final(self).wf(),
            number != old(self).latest_update ==> *final(self) == *old(self) && effects == (
            Effects { scroll_to: None, notify: false }),
            number == old(self).latest_update ==> final(self).visible_items@
                == new_visible_items@,
            number == old(self).latest_update ==> old(self).is_refreshed(
                new_visible_items,
                selected_path,
                *final(self),
            ) && effects == (Effects {
                scroll_to: final(self).selection_effects().scroll_to,
                notify: true,
            }),
    {
        if number != self.latest_update {
            return Effects { scroll_to: None, notify: false };
        }
        let new_selected_index: usize = match &selected_path {
            Some(path) => {
                let same = compare_paths(&new_visible_items, path);
                let index: usize = first_marked(&same);
                assert(are_path_verdicts(new_visible_items@, path@, same@));
                index
            },
            None => 0,
        };
        assert(is_refresh_start(new_visible_items@, selected_path, new_selected_index as int));
        self.visible_items = new_visible_items;
        let effects = self.set_selected_index(new_selected_index, Bias::Right);
        Effects { scroll_to: effects.scroll_to, notify: true }
    }

    /// A search found nothing.
    pub fn search_produced_no_matches(&self) -> (no_matches: bool)
        ensures
            no_matches == (self.visible_items@.len() == 0 && self.search_query@.len() > 0),
    {
        self.visible_items.len() == 0 && !self.search_query.as_str().is_empty()
    }

    /// Selects the row that a selection from `index` lands on.
    pub fn set_selected_index(&mut self, index: usize, bias: Bias) -> (effects: Effects)
        requires
            old(self).local_timezone.wf(),
            is_listable(old(self).visible_items@),
        ensures
            final(self).wf(),
            old(self).is_selected_from(index as int, bias, *final(self)),
            effects == final(self).selection_effects(),
    {
        if self.visible_items.len() == 0 {
            self.selected_index = 0;
            return Effects { scroll_to: None, notify: false };
        }
        let index: usize = selection_target(&self.visible_items, index, bias);
        self.selected_index = index;
        Effects { scroll_to: Some(index), notify: true }
    }

    /// Selects the previous thread, or the last one from the first.
    pub fn select_previous(&mut self) -> (effects: Effects)
        requires
            old(self).wf(),
        ensures
            final(self).wf(),
            old(self).is_selected_from(
                previous_start(old(self).visible_items@, old(self).selected_index as int),
                Bias::Left,
                *final(self),
            ),
            effects == final(self).selection_effects(),
    {
        if self.selected_index > 0 {
            self.set_selected_index(self.selected_index - 1, Bias::Left)
        } else {
            self.select_last()
        }
    }

    /// Selects the next thread, or the first one from the last.
    pub fn select_next(&mut self) -> (effects: Effects)
        requires
            old(self).wf(),
        ensures
            final(self).wf(),
            old(self).is_selected_from(
                next_start(old(self).visible_items@, old(self).selected_index as int),
                Bias::Right,
                *final(self),
            ),
            effects == final(self).selection_effects(),
    {
        let count: usize = self.visible_items.len();
        if count == 0 || self.selected_index == count - 1 {
            self.set_selected_index(0, Bias::Right)
        } else {
            self.set_selected_index(self.selected_index + 1, Bias::Right)
        }
    }

    /// Selects the first thread.
    pub fn select_first(&mut self) -> (effects: Effects)
        requires
            old(self).wf(),
        ensures
            final(self).wf(),
            old(self).is_selected_from(0, Bias::Right, *final(self)),
            effects == final(self).selection_effects(),
    {
        self.set_selected_index(0, Bias::Right)
    }

    /// Selects the last thread.
    pub fn select_last(&mut self) -> (effects: Effects)
        requires
            old(self).wf(),
        ensures
            final(self).wf(),
            old(self).is_selected_from(
                old(self).visible_items@.len() - 1,
                Bias::Left,
                *final(self),
            ),
            effects == final(self).selection_effects(),
    {
        let count: usize = self.visible_items.len();
        let last: usize = if count == 0 {
            0
        } else {
            count - 1
        };
        self.set_selected_index(last, Bias::Left)
    }

    /// Opens the selected thread, if there is one.
    pub fn confirm(&self) -> (event: Option<TextThreadHistoryEvent>)
        ensures
            event == opening(path_at(self.visible_items@, self.selected_index as int)),
    {
        self.confirm_entry(self.selected_index)
    }

    /// Opens the thread of a row, if there is such a row and it is no heading.
    pub fn confirm_entry(&self, ix: usize) -> (event: Option<TextThreadHistoryEvent>)
        ensures
            event == opening(path_at(self.visible_items@, ix as int)),
    {
        match self.get_entry(ix) {
            Some(entry) => Some(TextThreadHistoryEvent::OpenTextThread(entry.path.clone())),
            None => None,
        }
    }

    /// The path of the selected thread, which the store is to delete. There is none if no thread is
    /// selected or there is no store.
    pub fn remove_selected_thread(&self, store_exists: bool) -> (path: Option<String>)
        ensures
            path == (if store_exists {
                path_at(self.visible_items@, self.selected_index as int)
            } else {
                None
            }),
    {
        self.remove_thread(self.selected_index, store_exists)
    }

    /// The path of the thread of a row, which the store is to delete. There is none if the row
    /// stands for no thread or there is no store.
    pub fn remove_thread(&self, visible_item_ix: usize, store_exists: bool) -> (path: Option<
        String,
    >)
        ensures
            path == (if store_exists {
                path_at(self.visible_items@, visible_item_ix as int)
            } else {
                None
            }),
    {
        match self.get_entry(visible_item_ix) {
            Some(entry) => if store_exists {
                Some(entry.path.clone())
            } else {
                None
            },
            None => None,
        }
    }

    /// What follows once the store has deleted a thread, or has failed to. If it has failed nothing
    /// follows. If it has not the list is made anew, with the selection kept.
    pub fn thread_removed(&mut self, deleted: bool, store: Option<Vec<SavedTextThreadMetadata>>) -> (
    refresh: Refresh)
        ensures
            refresh.notify == deleted,
            deleted ==> old(self).is_update(
                true,
                store_threads(store),
                *final(self),
                refresh.update,
            ),
            !deleted ==> *final(self) == *old(self) && refresh.update is None,
    {
        if !deleted {
            return Refresh { update: None, notify: false };
        }
        Refresh { update: self.update_visible_items(true, store), notify: true }
    }

    /// Closes the question whether all threads are to be deleted. Returns the paths of all threads
    /// of the store, which the store is to delete, or nothing if there is no store. Either way the
    /// panel is drawn again.
    pub fn remove_history(&mut self, store: Option<&Vec<SavedTextThreadMetadata>>) -> (removal:
        Removal)
        ensures
            *final(self) == old(self).with_confirming(false),
            removal.notify,
            match (store, removal.paths) {
                (None, None) => true,
                (Some(threads), Some(paths)) => paths@ == Seq::new(
                    threads@.len(),
                    |i: int| threads@[i].path,
                ),
                _ => false,
            },
    {
        self.confirming_delete_history = false;
        let threads = match store {
            Some(threads) => threads,
            None => return Removal { paths: None, notify: true },
        };
        let mut paths: Vec<String> = Vec::with_capacity(threads.len());
        let mut index: usize = 0;
        while index < threads.len()
            invariant
                index <= threads@.len(),
                paths@ == Seq::new(index as nat, |i: int| threads@[i].path),
            decreases threads@.len() - index,
        {
            paths.push(threads[index].path.clone());
            index += 1;
            assert(paths@ =~= Seq::new(index as nat, |i: int| threads@[i].path));
        }
        Removal { paths: Some(paths), notify: true }
    }

    /// What follows once the store has deleted all threads: the list is made anew, with the
    /// selection at the top.
    pub fn history_removed(&mut self, store: Option<Vec<SavedTextThreadMetadata>>) -> (refresh:
        Refresh)
        ensures
            refresh.notify,
            old(self).is_update(false, store_threads(store), *final(self), refresh.update),
    {
        Refresh { update: self.update_visible_items(false, store), notify: true }
    }

    /// Opens the question whether all threads are to be deleted.
    pub fn prompt_delete_history(&mut self) -> (effects: Effects)
        ensures
            *final(self) == old(self).with_confirming(true),
            effects == (Effects { scroll_to: None, notify: true }),
    {
        self.confirming_delete_history = true;
        Effects { scroll_to: None, notify: true }
    }

    /// Closes the question whether all threads are to be deleted.
    pub fn cancel_delete_history(&mut self) -> (effects: Effects)
        ensures
            *final(self) == old(self).with_confirming(false),
            effects == (Effects { scroll_to: None, notify: true }),
    {
        self.confirming_delete_history = false;
        Effects { scroll_to: None, notify: true }
    }

    /// The pointer has come to a row or has left it.
    pub fn hover_entry(&mut self, ix: usize, is_hovered: bool) -> (effects: Effects)
        ensures
            *final(self) == old(self).after_hover(ix, is_hovered),
            effects == (Effects { scroll_to: None, notify: true }),
    {
        if is_hovered {
            self.hovered_index = Some(ix);
        } else if let Some(hovered) = self.hovered_index {
            if hovered == ix {
                self.hovered_index = None;
            }
        }
        Effects { scroll_to: None, notify: true }
    }

    /// The text to search for has been edited. If it is another than before the list is made anew,
    /// with the selection at the top.
    pub fn query_edited(&mut self, query: String, store: Option<Vec<SavedTextThreadMetadata>>) -> (
    update: Option<UpdateRequest>)
        ensures
            query@ == old(self).search_query@ ==> *final(self) == *old(self) && update is None,
            query@ != old(self).search_query@ ==> old(self).with_query(query).is_update(
                false,
                store_threads(store),
                *final(self),
                update,
            ),
    {
        if self.search_query == query {
            return None;
        }
        self.search_query = query;
        self.update_visible_items(false, store)
    }
}

/// The event that a thread is to be opened, if there is a path.
pub open spec fn opening(path: Option<String>) -> Option<TextThreadHistoryEvent> {
    match path {
        Some(path) => Some(TextThreadHistoryEvent::OpenTextThread(path)),
        None => None,
    }
}

/// Makes a new list: all threads under their headings if nothing is searched for, and otherwise
/// what is asked of the fuzzy matcher.
pub fn compute_visible_items(threads: Vec<SavedTextThreadMetadata>, query: String) -> (step:
    UpdateStep)
    requires
        query@.len() == 0 ==> forall|i: int|
            0 <= i < threads@.len() ==> (#[trigger] threads@[i]).mtime.wf()
                && threads@[i].mtime.has_local_date(),
    ensures
        match step {
            UpdateStep::Ready(items) => {
                &&& query@.len() == 0
                &&& exists|today: Date| #[trigger]
                    is_clock_date(today) && items@ == bucketed_items(today.day as int, threads@)
            },
            UpdateStep::Search(search) => {
                &&& query@.len() > 0
                &&& search.threads == threads
                &&& are_candidates(threads@, search.request.candidates@)
                &&& search.request.query == query
                &&& !search.request.smart_case
                &&& search.request.penalize_length
                &&& search.request.max_results == MAX_MATCHES
            },
        },
{
    if query.as_str().is_empty() {
        UpdateStep::Ready(build_bucketed_items(threads))
    } else {
        let request = search_request(&threads, query);
        UpdateStep::Search(PendingSearch { threads, request })
    }
}

} // verus!
