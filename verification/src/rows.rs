//! What the panel shows.

use crate::bucket::EntryTimeFormat;
use crate::clock::{chrono_now, lemma_days_fit_between, LocalTimestamp};
use crate::history::TextThreadHistory;
use crate::items::ListItemType;
use crate::text::{
    append_integer, integer_text, is_white_space, lemma_digits_of_number, lemma_number_reads_back,
};
use crate::thread::{entry_title, listed_title, SavedTextThreadMetadata};
use crate::timestamp::{
    can_format, lemma_time_of_day, timestamp_text, TimestampText, UtcMoment, UtcOffset,
};
use std::ops::Range;
use vstd::prelude::*;
use vstd::string::StringExecFns;

verus! {

/// What the main part of the panel shows.
#[derive(Clone, Copy, Debug, PartialEq, Eq, Structural)]
pub enum HistoryBody {
    /// That there are no threads.
    NoHistory,
    /// That no thread matches the search.
    NoMatches,
    /// A list of so many rows.
    List(usize),
}

/// What the foot of the panel shows.
#[derive(Clone, Copy, Debug, PartialEq, Eq, Structural)]
pub enum HistoryFooter {
    /// Nothing.
    Hidden,
    /// A button to delete all threads.
    DeleteHistory,
    /// The question whether all threads are to be deleted, and a button for either answer.
    ConfirmDelete,
}

/// The texts at the foot of the panel.
#[derive(Debug)]
pub enum FooterText {
    /// No text.
    Nothing,
    /// The label of a button.
    Button(String),
    /// A question and a warning, and the labels of the buttons for either answer.
    Question { question: String, warning: String, cancel: String, confirm: String },
}

/// What the panel shows.
#[derive(Clone, Copy, Debug, PartialEq, Eq, Structural)]
pub struct HistoryView {
    pub body: HistoryBody,
    pub footer: HistoryFooter,
}

/// What a row shows of its time.
#[derive(Debug)]
pub enum DisplayText {
    /// How many days ago it is.
    DaysAgo(String),
    /// A text that is asked of the time formatter.
    Time(TimestampText),
}

/// The row of a thread.
#[derive(Debug)]
pub struct EntryRow {
    pub index: usize,
    pub title: String,
    /// The places of the title that a search matched.
    pub highlight_positions: Vec<usize>,
    pub selected: bool,
    /// The row is hovered, so that it shows a button to delete its thread.
    pub hovered: bool,
    pub display_text: DisplayText,
    /// The full date, which is shown with the title on request.
    pub full_date: TimestampText,
}

/// A row of the list.
#[derive(Debug)]
pub enum ListRow {
    Heading(String),
    Entry(EntryRow),
}

impl HistoryBody {
    /// The message that is shown in place of a list.
    pub open spec fn text(self) -> Option<Seq<char>> {
        match self {
            HistoryBody::NoHistory => Some("You don't have any past threads yet."@),
            HistoryBody::NoMatches => Some("No threads match your search."@),
            HistoryBody::List(_) => None,
        }
    }

    /// The message that is shown in place of a list.
    pub fn message(&self) -> (message: Option<String>)
        ensures
            match message {
                Some(message) => self.text() == Some(message@),
                None => self.text() is None,
            },
    {
        match self {
            HistoryBody::NoHistory => Some("You don't have any past threads yet.".to_owned()),
            HistoryBody::NoMatches => Some("No threads match your search.".to_owned()),
            HistoryBody::List(_) => None,
        }
    }
}

impl HistoryFooter {
    /// `text` is what stands at the foot of the panel.
    pub open spec fn is_text(self, text: FooterText) -> bool {
        match (self, text) {
            (HistoryFooter::Hidden, FooterText::Nothing) => true,
            (HistoryFooter::DeleteHistory, FooterText::Button(label)) => label@
                == "Delete All History"@,
            (
                HistoryFooter::ConfirmDelete,
                FooterText::Question { question, warning, cancel, confirm },
            ) => {
                &&& question@ == "Delete all threads?"@
                &&& warning@ == "You won't be able to recover them later."@
                &&& cancel@ == "Cancel"@
                &&& confirm@ == "Delete"@
            },
            _ => false,
        }
    }

    /// The texts at the foot of the panel.
    pub fn text(&self) -> (text: FooterText)
        ensures
            self.is_text(text),
    {
        match self {
            HistoryFooter::Hidden => FooterText::Nothing,
            HistoryFooter::DeleteHistory => FooterText::Button("Delete All History".to_owned()),
            HistoryFooter::ConfirmDelete => FooterText::Question {
                question: "Delete all threads?".to_owned(),
                warning: "You won't be able to recover them later.".to_owned(),
                cancel: "Cancel".to_owned(),
                confirm: "Delete".to_owned(),
            },
        }
    }
}

impl EntryRow {
    /// The hint of the button that deletes the thread, which the row shows while it is hovered.
    pub fn delete_hint(&self) -> (hint: Option<String>)
        ensures
            match hint {
                Some(hint) => self.hovered && hint@ == "Delete"@,
                None => !self.hovered,
            },
    {
        if self.hovered {
            Some("Delete".to_owned())
        } else {
            None
        }
    }
}

/// The text that the search field shows while it is empty.
pub fn search_placeholder() -> (text: String)
    ensures
        text@ == "Search threads..."@,
{
    "Search threads...".to_owned()
}

/// The text for a time so many days ago.
pub open spec fn days_text(days: int) -> Seq<char> {
    integer_text(days).push('d')
}

/// The time of the row can be shown.
pub open spec fn can_show(item: ListItemType, timezone: UtcOffset) -> bool {
    match item {
        ListItemType::Entry { entry, format } => can_format(format, entry.mtime.seconds, timezone),
        _ => true,
    }
}

impl TextThreadHistory {
    /// What the panel shows: that there are no threads if none are listed and nothing is searched
    /// for, that none match if none are listed otherwise, and else the list. Threads can be deleted
    /// unless there are none.
    pub open spec fn shown(self) -> HistoryView {
        let is_empty = self.visible_items@.len() == 0;
        let is_searching = self.search_query@.len() > 0;
        HistoryView {
            body: if is_empty && !is_searching {
                HistoryBody::NoHistory
            } else if is_empty {
                HistoryBody::NoMatches
            } else {
                HistoryBody::List(self.visible_items@.len() as usize)
            },
            footer: if is_empty && !is_searching {
                HistoryFooter::Hidden
            } else if self.confirming_delete_history {
                HistoryFooter::ConfirmDelete
            } else {
                HistoryFooter::DeleteHistory
            },
        }
    }

    /// `row` is the row at `ix` for a thread, at the given readings of the local clock and of the
    /// UTC clock. It is the selected or the hovered row if its place says so. It shows the title
    /// that the thread is listed under, and its time in the format: how many days ago it is, or the
    /// time of day.
    pub open spec fn is_entry_row(
        self,
        entry: SavedTextThreadMetadata,
        format: EntryTimeFormat,
        ix: usize,
        highlight_positions: Seq<usize>,
        now: LocalTimestamp,
        reference: UtcMoment,
        row: EntryRow,
    ) -> bool {
        let timestamp = entry.mtime.seconds;
        let timezone = self.local_timezone;
        &&& row.index == ix
        &&& row.title@ == listed_title(entry.title@)
        &&& row.highlight_positions@ == highlight_positions
        &&& row.selected == (ix == self.selected_index)
        &&& row.hovered == (self.hovered_index == Some(ix))
        &&& match (format, row.display_text) {
            (EntryTimeFormat::DateAndTime, DisplayText::DaysAgo(text)) => text@ == days_text(
                now.days_since(entry.mtime),
            ),
            (EntryTimeFormat::TimeOnly, DisplayText::Time(text)) => text == timestamp_text(
                EntryTimeFormat::TimeOnly,
                timestamp,
                timezone,
                reference,
            ),
            _ => false,
        }
        &&& row.full_date == timestamp_text(
            EntryTimeFormat::DateAndTime,
            timestamp,
            timezone,
            reference,
        )
    }

    /// `row` is the row at `ix` for a thread, at some readings of the clocks.
    pub open spec fn is_current_entry_row(
        self,
        entry: SavedTextThreadMetadata,
        format: EntryTimeFormat,
        ix: usize,
        highlight_positions: Seq<usize>,
        row: EntryRow,
    ) -> bool {
        exists|now: LocalTimestamp, reference: UtcMoment|
            {
                &&& #[trigger] now.is_clock_reading()
                &&& #[trigger] reference.is_clock_reading()
                &&& self.is_entry_row(entry, format, ix, highlight_positions, now, reference, row)
            }
    }

    /// `row` is what the list shows at `ix` for an item: the text of a heading, or a thread, in the
    /// format of its bucket, or, if a search found it, with how many days ago it is and with the
    /// matched places marked.
    pub open spec fn is_list_row(self, item: ListItemType, ix: usize, row: ListRow) -> bool {
        match (item, row) {
            (ListItemType::BucketSeparator(bucket), ListRow::Heading(text)) => text@
                == bucket.text(),
            (ListItemType::Entry { entry, format }, ListRow::Entry(row)) => {
                self.is_current_entry_row(entry, format, ix, Seq::empty(), row)
            },
            (ListItemType::SearchResult { entry, positions }, ListRow::Entry(row)) => {
                self.is_current_entry_row(
                    entry,
                    EntryTimeFormat::DateAndTime,
                    ix,
                    positions@,
                    row,
                )
            },
            _ => false,
        }
    }

    /// What the panel shows.
    pub fn render(&self) -> (view: HistoryView)
        ensures
            view == self.shown(),
    {
        let has_no_history = self.visible_items.len() == 0
            && self.search_query.as_str().is_empty();
        let body = if has_no_history {
            HistoryBody::NoHistory
        } else if self.search_produced_no_matches() {
            HistoryBody::NoMatches
        } else {
            HistoryBody::List(self.visible_items.len())
        };
        let footer = if has_no_history {
            HistoryFooter::Hidden
        } else if self.confirming_delete_history {
            HistoryFooter::ConfirmDelete
        } else {
            HistoryFooter::DeleteHistory
        };
        HistoryView { body, footer }
    }

    /// The rows of a range of the list, or none if the range is not within the list.
    pub fn render_list_items(&self, range: Range<usize>) -> (rows: Vec<ListRow>)
        requires
            self.wf(),
            forall|i: int|
                range.start <= i < range.end <= self.visible_items@.len() ==> can_show(
                    #[trigger] self.visible_items@[i],
                    self.local_timezone,
                ),
        ensures
            rows@.len() == (if range.start <= range.end <= self.visible_items@.len() {
                range.end - range.start
            } else {
                0
            }),
            forall|i: int|
                0 <= i < rows@.len() ==> self.is_list_row(
                    self.visible_items@[range.start + i],
                    (range.start + i) as usize,
                    #[trigger] rows@[i],
                ),
    {
        let mut rows: Vec<ListRow> = Vec::new();
        if range.start > range.end || range.end > self.visible_items.len() {
            return rows;
        }
        let mut ix: usize = range.start;
        while ix < range.end
            invariant
                self.wf(),
                forall|i: int|
                    range.start <= i < range.end <= self.visible_items@.len() ==> can_show(
                        #[trigger] self.visible_items@[i],
                        self.local_timezone,
                    ),
                range.start <= ix <= range.end <= self.visible_items@.len(),
                rows@.len() == ix - range.start,
                forall|i: int|
                    0 <= i < rows@.len() ==> self.is_list_row(
                        self.visible_items@[range.start + i],
                        (range.start + i) as usize,
                        #[trigger] rows@[i],
                    ),
            decreases range.end - ix,
        {
            let item = &self.visible_items[ix];
            assert(match item.thread() {
                Some(thread) => thread.mtime.wf(),
                None => true,
            });
            let row = self.render_list_item(item, ix);
            rows.push(row);
            ix += 1;
        }
        rows
    }

    /// The row at `ix` for an item.
    pub fn render_list_item(&self, item: &ListItemType, ix: usize) -> (row: ListRow)
        requires
            self.local_timezone.wf(),
            match item.thread() {
                Some(thread) => thread.mtime.wf(),
                None => true,
            },
            can_show(*item, self.local_timezone),
        ensures
            self.is_list_row(*item, ix, row),
    {
        match item {
            ListItemType::Entry { entry, format } => ListRow::Entry(
                self.render_history_entry(entry, *format, ix, Vec::new()),
            ),
            ListItemType::SearchResult { entry, positions } => ListRow::Entry(
                self.render_history_entry(
                    entry,
                    EntryTimeFormat::DateAndTime,
                    ix,
                    positions.clone(),
                ),
            ),
            ListItemType::BucketSeparator(bucket) => ListRow::Heading(bucket.label()),
        }
    }

    /// The row at `ix` for a thread, at the current time. The local clock is read only where the
    /// row shows how many days ago the time is.
    pub fn render_history_entry(
        &self,
        entry: &SavedTextThreadMetadata,
        format: EntryTimeFormat,
        ix: usize,
        highlight_positions: Vec<usize>,
    ) -> (row: EntryRow)
        requires
            self.local_timezone.wf(),
            entry.mtime.wf(),
            can_format(format, entry.mtime.seconds, self.local_timezone),
        ensures
            self.is_current_entry_row(*entry, format, ix, highlight_positions@, row),
    {
        let ghost mut now = LocalTimestamp { seconds: 0, nanos: 0, offset: 0 };
        assert(now.is_clock_reading());
        let timestamp: i64 = entry.mtime.seconds;
        let display_text = match format {
            EntryTimeFormat::DateAndTime => {
                let current = chrono_now();
                proof {
                    now = current;
                }
                days_ago(&current, &entry.mtime)
            },
            EntryTimeFormat::TimeOnly => DisplayText::Time(
                format.format_timestamp(timestamp, self.local_timezone),
            ),
        };
        let full_date = EntryTimeFormat::DateAndTime.format_timestamp(
            timestamp,
            self.local_timezone,
        );
        let row = self.entry_row(entry, ix, highlight_positions, display_text, full_date);
        proof {
            let reference = choose|reference: UtcMoment| #[trigger]
                reference.is_clock_reading() && full_date == timestamp_text(
                    EntryTimeFormat::DateAndTime,
                    timestamp,
                    self.local_timezone,
                    reference,
                );
            assert(now.is_clock_reading() && reference.is_clock_reading());
            assert(self.is_entry_row(
                *entry,
                format,
                ix,
                highlight_positions@,
                now,
                reference,
                row,
            ));
        }
        row
    }

    /// The row at `ix` for a thread, at the given readings of the local clock and of the UTC clock.
    pub fn render_history_entry_at(
        &self,
        entry: &SavedTextThreadMetadata,
        format: EntryTimeFormat,
        ix: usize,
        highlight_positions: Vec<usize>,
        now: LocalTimestamp,
        reference: UtcMoment,
    ) -> (row: EntryRow)
        requires
            self.local_timezone.wf(),
            entry.mtime.wf(),
            now.wf(),
            can_format(format, entry.mtime.seconds, self.local_timezone),
        ensures
            self.is_entry_row(
                *entry,
                format,
                ix,
                highlight_positions@,
                now,
                reference,
                row,
            ),
    {
        let timestamp: i64 = entry.mtime.seconds;
        let display_text = match format {
            EntryTimeFormat::DateAndTime => days_ago(&now, &entry.mtime),
            EntryTimeFormat::TimeOnly => DisplayText::Time(
                format.format_timestamp_at(timestamp, self.local_timezone, reference),
            ),
        };
        let full_date = EntryTimeFormat::DateAndTime.format_timestamp_at(
            timestamp,
            self.local_timezone,
            reference,
        );
        self.entry_row(entry, ix, highlight_positions, display_text, full_date)
    }

    /// The row at `ix` for a thread, with the texts for its time.
    fn entry_row(
        &self,
        entry: &SavedTextThreadMetadata,
        ix: usize,
        highlight_positions: Vec<usize>,
        display_text: DisplayText,
        full_date: TimestampText,
    ) -> (row: EntryRow)
        ensures
            row.index == ix,
            row.title@ == listed_title(entry.title@),
            row.highlight_positions == highlight_positions,
            row.selected == (ix == self.selected_index),
            row.hovered == (self.hovered_index == Some(ix)),
            row.display_text == display_text,
            row.full_date == full_date,
    {
        let hovered = match self.hovered_index {
            Some(hovered) => hovered == ix,
            None => false,
        };
        EntryRow {
            index: ix,
            title: entry_title(entry),
            highlight_positions,
            selected: ix == self.selected_index,
            hovered,
            display_text,
            full_date,
        }
    }
}

/// The text for how many days ago a time is.
fn days_ago(now: &LocalTimestamp, mtime: &LocalTimestamp) -> (text: DisplayText)
    requires
        now.wf(),
        mtime.wf(),
    ensures
        match text {
            DisplayText::DaysAgo(text) => text@ == days_text(now.days_since(*mtime)),
            DisplayText::Time(_) => false,
        },
{
    let days: i64 = now.whole_days_since(mtime);
    let mut text = String::new();
    append_integer(&mut text, days);
    proof {
        reveal_strlit("d");
    }
    text.append("d");
    assert(text@ =~= days_text(days as int));
    DisplayText::DaysAgo(text)
}

impl ListItemType {
    /// Whether the time of the row can be shown in the time zone.
    pub fn is_showable(&self, timezone: UtcOffset) -> (showable: bool)
        requires
            timezone.wf(),
        ensures
            showable == can_show(*self, timezone),
    {
        match self {
            ListItemType::Entry { entry, format } => {
                format.can_format_timestamp(entry.mtime.seconds, timezone)
            },
            _ => true,
        }
    }
}

/// One row is the selected one, and it is that of a thread: a row is marked as selected exactly if
/// its place is the selected one, and no heading has that place.
pub proof fn lemma_one_row_selected(history: TextThreadHistory, ix: usize, row: ListRow)
    requires
        history.wf(),
        ix < history.visible_items@.len(),
        history.is_list_row(history.visible_items@[ix as int], ix, row),
    ensures
        match row {
            ListRow::Heading(_) => ix != history.selected_index,
            ListRow::Entry(entry) => entry.selected <==> ix == history.selected_index,
        },
{
}

/// A message stands in place of the list exactly if there is nothing to list, and a list that is
/// shown has a row.
pub proof fn lemma_message_if_nothing_listed(history: TextThreadHistory)
    ensures
        history.shown().body.text() is Some <==> history.visible_items@.len() == 0,
        history.visible_items@.len() <= usize::MAX ==> match history.shown().body {
            HistoryBody::List(count) => count > 0 && count == history.visible_items@.len(),
            _ => true,
        },
{
}

/// To delete all threads is offered unless there are none, and the question is asked only where it
/// is open.
pub proof fn lemma_footer(history: TextThreadHistory)
    ensures
        history.shown().footer is Hidden <==> history.shown().body is NoHistory,
        history.shown().footer is ConfirmDelete ==> history.confirming_delete_history,
        history.with_confirming(false).shown().footer !is ConfirmDelete,
{
}

/// Which message or list, and which foot, the panel shows: for any rows a list of just so many, for
/// none the message for no threads or, while something is searched for, the one for no matches. The
/// foot is hidden only with the message for no threads, and otherwise asks the question while it is
/// open. What is selected and hovered plays no part.
pub proof fn lemma_what_is_shown(history: TextThreadHistory)
    requires
        history.visible_items@.len() <= usize::MAX,
    ensures
        history.visible_items@.len() > 0 ==> history.shown().body == HistoryBody::List(
            history.visible_items@.len() as usize,
        ),
        history.visible_items@.len() == 0 && history.search_query@.len() == 0
            ==> history.shown().body is NoHistory && history.shown().footer is Hidden,
        history.visible_items@.len() == 0 && history.search_query@.len() > 0
            ==> history.shown().body is NoMatches,
        history.visible_items@.len() > 0 || history.search_query@.len() > 0
            ==> history.shown().footer == (if history.confirming_delete_history {
            HistoryFooter::ConfirmDelete
        } else {
            HistoryFooter::DeleteHistory
        }),
{
}

/// What the row of a thread shows: its own place, the title as it stands if there is anything but
/// white space in it, the matched places as they were found, and whether its place is the selected
/// or the hovered one. Its time is shown in its format. The full date is asked for at the time of
/// the thread in the time zone of the panel.
pub proof fn lemma_row_of_thread(
    history: TextThreadHistory,
    entry: SavedTextThreadMetadata,
    format: EntryTimeFormat,
    ix: usize,
    positions: Seq<usize>,
    now: LocalTimestamp,
    reference: UtcMoment,
    row: EntryRow,
)
    requires
        history.is_entry_row(entry, format, ix, positions, now, reference, row),
    ensures
        row.index == ix,
        forall|i: int|
            0 <= i < entry.title@.len() && !is_white_space(#[trigger] entry.title@[i])
                ==> row.title@ == entry.title@,
        (forall|i: int| 0 <= i < entry.title@.len() ==> is_white_space(#[trigger] entry.title@[i]))
            ==> row.title@ == seq!['N', 'e', 'w', ' ', 'T', 'h', 'r', 'e', 'a', 'd'],
        row.highlight_positions@ == positions,
        row.selected <==> ix == history.selected_index,
        row.hovered <==> history.hovered_index is Some && history.hovered_index->0 == ix,
        match row.display_text {
            DisplayText::DaysAgo(text) => format is DateAndTime && text@ == integer_text(
                now.days_since(entry.mtime),
            ).push('d'),
            DisplayText::Time(text) => format is TimeOnly && text == timestamp_text(
                EntryTimeFormat::TimeOnly,
                entry.mtime.seconds,
                history.local_timezone,
                reference,
            ),
        },
        row.full_date is Blank || row.full_date == (TimestampText::EnhancedAbsolute {
            timestamp: entry.mtime.seconds,
            reference,
            timezone: history.local_timezone,
        }),
        -377_705_116_800 <= entry.mtime.seconds <= 253_402_300_799 ==> !(row.full_date is Blank),
{
    reveal_strlit("New Thread");
}

/// A row of the days shows how many days ago its thread was changed: the number of whole days that
/// fit between the two times, in decimal digits, and a `d`. The number has a minus sign if the
/// thread was changed a day or more after the time that the clock shows.
pub proof fn lemma_row_shows_days(
    history: TextThreadHistory,
    entry: SavedTextThreadMetadata,
    ix: usize,
    positions: Seq<usize>,
    now: LocalTimestamp,
    reference: UtcMoment,
    row: EntryRow,
    days: int,
)
    requires
        history.is_entry_row(
            entry,
            EntryTimeFormat::DateAndTime,
            ix,
            positions,
            now,
            reference,
            row,
        ),
        now.nanos < 1_000_000_000,
        entry.mtime.nanos < 1_000_000_000,
        ({
            let nanos = (now.seconds - entry.mtime.seconds) * 1_000_000_000 + now.nanos
                - entry.mtime.nanos;
            ||| nanos >= 0 && 0 <= nanos - days * 86_400_000_000_000 < 86_400_000_000_000
            ||| nanos < 0 && 0 <= -nanos + days * 86_400_000_000_000 < 86_400_000_000_000
        }),
    ensures
        match row.display_text {
            DisplayText::DaysAgo(text) => {
                &&& text@.len() > 1
                &&& text@.last() == 'd'
                &&& text@.drop_last() == integer_text(days)
                &&& days >= 0 ==> text@.drop_last().fold_left(
                    0int,
                    |value: int, digit: char| 10 * value + (digit as u32 - 48),
                ) == days
                &&& days < 0 ==> text@[0] == '-' && text@.drop_last().drop_first()
                    == integer_text(-days)
            },
            DisplayText::Time(_) => false,
        },
{
    lemma_days_fit_between(now, entry.mtime);
    assert(now.days_since(entry.mtime) == days);
    if days >= 0 {
        lemma_digits_of_number(days);
    } else {
        lemma_digits_of_number(-days);
    }
    lemma_number_reads_back(days);
    assert(days_text(days).drop_last() =~= integer_text(days));
}

/// A row of the time of day shows what a clock in the time zone of the panel showed when its thread
/// was changed.
pub proof fn lemma_row_shows_time_of_day(
    history: TextThreadHistory,
    entry: SavedTextThreadMetadata,
    ix: usize,
    positions: Seq<usize>,
    now: LocalTimestamp,
    reference: UtcMoment,
    row: EntryRow,
)
    requires
        history.is_entry_row(
            entry,
            EntryTimeFormat::TimeOnly,
            ix,
            positions,
            now,
            reference,
            row,
        ),
        history.local_timezone.wf(),
        -377_705_116_800 <= entry.mtime.seconds <= 253_402_300_799,
    ensures
        match row.display_text {
            DisplayText::Time(
                TimestampText::TimeOfDay { timezone, julian_day, hour, minute, second },
            ) => {
                &&& timezone == history.local_timezone
                &&& hour < 24 && minute < 60 && second < 60
                &&& (julian_day - 2_440_588) * 86_400 + hour * 3600 + minute * 60 + second
                    == entry.mtime.seconds + timezone.seconds
            },
            _ => false,
        },
{
    lemma_time_of_day(entry.mtime.seconds, history.local_timezone, reference);
}

/// A heading is listed by its text, a thread under a heading by the row of its format with nothing
/// marked, and a thread that a search found by the row of the days with the matched places marked,
/// each at its own place.
pub proof fn lemma_rows_of_list(
    history: TextThreadHistory,
    item: ListItemType,
    ix: usize,
    row: ListRow,
)
    requires
        history.is_list_row(item, ix, row),
    ensures
        match (item, row) {
            (ListItemType::BucketSeparator(bucket), ListRow::Heading(text)) => text@
                == bucket.text(),
            (ListItemType::Entry { entry, format }, ListRow::Entry(row)) => {
                exists|now: LocalTimestamp, reference: UtcMoment|
                    {
                        &&& #[trigger] now.is_clock_reading()
                        &&& #[trigger] reference.is_clock_reading()
                        &&& history.is_entry_row(
                            entry,
                            format,
                            ix,
                            Seq::empty(),
                            now,
                            reference,
                            row,
                        )
                    }
            },
            (ListItemType::SearchResult { entry, positions }, ListRow::Entry(row)) => {
                exists|now: LocalTimestamp, reference: UtcMoment|
                    {
                        &&& #[trigger] now.is_clock_reading()
                        &&& #[trigger] reference.is_clock_reading()
                        &&& history.is_entry_row(
                            entry,
                            EntryTimeFormat::DateAndTime,
                            ix,
                            positions@,
                            now,
                            reference,
                            row,
                        )
                    }
            },
            _ => false,
        },
{
}

/// Headings and search results can always be shown, and so can a thread under a heading unless its
/// local time of day is asked for and lies outside the years -9999 to 9999.
pub proof fn lemma_rows_that_can_be_shown(item: ListItemType, timezone: UtcOffset)
    ensures
        !(item is Entry) ==> can_show(item, timezone),
        item is Entry && item->Entry_format is DateAndTime ==> can_show(item, timezone),
        item is Entry && -377_705_116_800 <= item->Entry_entry.mtime.seconds + timezone.seconds
            <= 253_402_300_799 ==> can_show(item, timezone),
{
}

} // verus!
