use chrono::Local;
use text_thread_history::bucket::{EntryTimeFormat, TimeBucket};
use text_thread_history::clock::LocalTimestamp;
use text_thread_history::history::{
    compute_visible_items, Effects, TextThreadHistory, TextThreadHistoryEvent, UpdateRequest, UpdateStep,
};
use text_thread_history::items::{build_search_items, ListItemType, StringMatch};
use text_thread_history::rows::{
    search_placeholder, DisplayText, EntryRow, FooterText, HistoryBody, HistoryFooter, ListRow,
};
use text_thread_history::thread::SavedTextThreadMetadata;
use text_thread_history::timestamp::{TimestampText, UtcMoment, UtcOffset};

const DAY: i64 = 86_400;

fn thread(title: &str, path: &str, seconds: i64) -> SavedTextThreadMetadata {
    SavedTextThreadMetadata {
        title: title.to_string(),
        path: path.to_string(),
        mtime: LocalTimestamp {
            seconds,
            nanos: 0,
            offset: 0,
        },
    }
}

fn heading(bucket: TimeBucket) -> ListItemType {
    ListItemType::BucketSeparator(bucket)
}

fn row(path: &str, format: EntryTimeFormat) -> ListItemType {
    ListItemType::Entry {
        entry: thread(path, path, 1_000_000),
        format,
    }
}

fn found(path: &str, positions: Vec<usize>) -> ListItemType {
    ListItemType::SearchResult {
        entry: thread(path, path, 1_000_000),
        positions,
    }
}

/// Today: /1, /2; All: /3.
fn three_rows() -> Vec<ListItemType> {
    vec![
        heading(TimeBucket::Today),
        row("/1", EntryTimeFormat::TimeOnly),
        row("/2", EntryTimeFormat::TimeOnly),
        heading(TimeBucket::All),
        row("/3", EntryTimeFormat::DateAndTime),
    ]
}

fn panel(items: Vec<ListItemType>) -> TextThreadHistory {
    let (mut history, update) = TextThreadHistory::new_at(3600, None);
    assert!(update.is_none());
    refresh(&mut history, items, None);
    history
}

/// The effects of a change of the selection.
fn shown(row: Option<usize>) -> Effects {
    Effects {
        scroll_to: row,
        notify: row.is_some(),
    }
}

/// Finishes the list that was asked for last.
fn refresh(
    history: &mut TextThreadHistory,
    items: Vec<ListItemType>,
    selected_path: Option<String>,
) -> Effects {
    history.finish_update(history.latest_update, items, selected_path)
}

fn opened(event: Option<TextThreadHistoryEvent>) -> Option<String> {
    event.map(|event| match event {
        TextThreadHistoryEvent::OpenTextThread(path) => path,
    })
}

#[test]
fn new_panel_is_empty() {
    let threads = vec![thread("old", "/old", 1), thread("new", "/new", 2)];
    let (history, update) = TextThreadHistory::new_at(-18_000, Some(threads));
    assert_eq!(history.local_timezone, UtcOffset { seconds: -18_000 });
    assert_eq!(history.selected_index, 0);
    assert_eq!(history.hovered_index, None);
    assert!(history.visible_items.is_empty());
    assert!(history.search_query.is_empty());
    assert!(!history.confirming_delete_history);
    let UpdateRequest {
        number,
        threads,
        query,
        selected_path,
    } = update.unwrap();
    assert_eq!(number, 1);
    assert_eq!(history.latest_update, 1);
    assert_eq!(threads[0].path, "/new");
    assert_eq!(threads[1].path, "/old");
    assert_eq!(query, "");
    assert_eq!(selected_path, None);
}

#[test]
fn new_panel_takes_the_local_offset() {
    let before = Local::now().offset().local_minus_utc();
    let (history, update) = TextThreadHistory::new(None);
    assert_eq!(history.local_timezone.seconds, before);
    assert!(update.is_none());
}

#[test]
fn selection_moves_over_threads_and_wraps() {
    let mut history = panel(three_rows());
    assert_eq!(history.selected_index, 1);
    assert_eq!(history.select_next(), shown(Some(2)));
    assert_eq!(history.select_next(), shown(Some(4)));
    assert_eq!(history.select_next(), shown(Some(1)));
    assert_eq!(history.select_previous(), shown(Some(4)));
    assert_eq!(history.select_previous(), shown(Some(2)));
    assert_eq!(history.select_last(), shown(Some(4)));
    assert_eq!(history.select_first(), shown(Some(1)));
    assert_eq!(history.selected_index, 1);
}

#[test]
fn previous_and_next_undo_each_other() {
    let mut history = panel(three_rows());
    for _ in 0..3 {
        let selected = history.selected_index;
        history.select_next();
        history.select_previous();
        assert_eq!(history.selected_index, selected);
        history.select_previous();
        history.select_next();
        assert_eq!(history.selected_index, selected);
        history.select_next();
    }
    let mut single = panel(vec![heading(TimeBucket::All), row("/1", EntryTimeFormat::DateAndTime)]);
    assert_eq!(single.select_next(), shown(Some(1)));
    assert_eq!(single.select_previous(), shown(Some(1)));
}

#[test]
fn an_empty_list_has_nothing_to_select() {
    let mut history = panel(vec![]);
    assert_eq!(history.select_next(), shown(None));
    assert_eq!(history.select_previous(), shown(None));
    assert_eq!(history.select_first(), shown(None));
    assert_eq!(history.select_last(), shown(None));
    assert_eq!(history.selected_index, 0);
    assert_eq!(history.selected_path(), None);
    assert!(history.confirm().is_none());
    assert_eq!(history.remove_selected_thread(true), None);
}

#[test]
fn confirm_opens_the_thread_of_the_row() {
    let mut history = panel(three_rows());
    assert_eq!(opened(history.confirm()), Some("/1".to_string()));
    history.select_last();
    assert_eq!(opened(history.confirm()), Some("/3".to_string()));
    assert_eq!(opened(history.confirm_entry(2)), Some("/2".to_string()));
    assert_eq!(opened(history.confirm_entry(3)), None);
    assert_eq!(opened(history.confirm_entry(5)), None);
    assert_eq!(history.get_entry(4).unwrap().path, "/3");
    assert!(history.get_entry(0).is_none());
}

#[test]
fn refresh_keeps_the_selected_thread() {
    let mut history = panel(three_rows());
    history.select_last();
    let store = vec![thread("3", "/3", 9), thread("1", "/1", 3)];
    let update = history.update_visible_items(true, Some(store)).unwrap();
    assert_eq!(update.selected_path.as_deref(), Some("/3"));
    assert_eq!(update.threads[0].path, "/3");
    let items = vec![
        heading(TimeBucket::Today),
        row("/0", EntryTimeFormat::TimeOnly),
        row("/3", EntryTimeFormat::TimeOnly),
        row("/3", EntryTimeFormat::TimeOnly),
    ];
    assert_eq!(refresh(&mut history, items, update.selected_path).scroll_to, Some(2));
    assert_eq!(history.selected_path().unwrap(), "/3");
    assert_eq!(history.visible_items.len(), 4);
}

#[test]
fn refresh_of_the_same_list_leaves_the_selection_alone() {
    let mut history = panel(three_rows());
    for selected in [1, 2, 4] {
        assert_eq!(history.selected_index, selected);
        let path = history.selected_path().cloned();
        let effects = refresh(&mut history, three_rows(), path);
        assert_eq!(effects, shown(Some(selected)));
        history.select_next();
    }
    let update = history.update_visible_items(true, Some(vec![])).unwrap();
    assert_eq!(update.selected_path.as_deref(), Some("/1"));
}

#[test]
fn refresh_falls_back_to_the_first_thread() {
    let mut history = panel(three_rows());
    history.select_last();
    let gone = Some("/gone".to_string());
    assert_eq!(refresh(&mut history, three_rows(), gone).scroll_to, Some(1));
    history.select_last();
    assert_eq!(refresh(&mut history, three_rows(), None).scroll_to, Some(1));
    let effects = refresh(&mut history, vec![], Some("/1".to_string()));
    assert_eq!(effects.scroll_to, None);
    assert!(effects.notify);
    assert_eq!(history.selected_index, 0);
}

#[test]
fn a_newer_update_voids_an_older_one() {
    let mut history = panel(three_rows());
    history.select_last();
    let store = vec![thread("a", "/a", 1)];
    let first = history.update_visible_items(false, Some(store.clone())).unwrap();
    let second = history.query_edited("x".to_string(), Some(store)).unwrap();
    assert_ne!(first.number, second.number);

    let effects = history.finish_update(first.number, vec![], first.selected_path);
    assert_eq!(effects, shown(None));
    assert_eq!(history.visible_items.len(), 5);
    assert_eq!(history.selected_index, 4);

    let items = vec![found("/a", vec![0])];
    let effects = history.finish_update(second.number, items, second.selected_path);
    assert_eq!(effects, shown(Some(0)));
    assert_eq!(history.visible_items.len(), 1);
}

#[test]
fn update_without_a_store_voids_nothing() {
    let mut history = panel(three_rows());
    let first = history.update_visible_items(true, Some(vec![])).unwrap();
    assert!(history.update_visible_items(true, None).is_none());
    assert!(!history.thread_removed(false, Some(vec![])).notify);
    let effects = history.finish_update(first.number, vec![], first.selected_path);
    assert!(effects.notify);
    assert!(history.visible_items.is_empty());
}

#[test]
fn numbers_of_updates_wrap_around() {
    let mut history = panel(vec![]);
    history.latest_update = u64::MAX;
    let update = history.update_visible_items(false, Some(vec![])).unwrap();
    assert_eq!(update.number, 0);
}

#[test]
fn next_visits_each_thread_once_and_comes_back() {
    let mut items = three_rows();
    items.push(row("/4", EntryTimeFormat::DateAndTime));
    items.push(heading(TimeBucket::All));
    let mut history = panel(items);
    history.select_next();
    let mut visited: Vec<usize> = vec![];
    for _ in 0..4 {
        visited.push(history.selected_index);
        history.select_next();
    }
    assert_eq!(visited, [2, 4, 5, 1]);
    assert_eq!(history.selected_index, 2);
}

#[test]
fn update_needs_a_store() {
    let mut history = panel(three_rows());
    assert!(history.update_visible_items(true, None).is_none());
    let update = history.update_visible_items(false, Some(vec![])).unwrap();
    assert_eq!(update.selected_path, None);
    assert!(update.threads.is_empty());
}

#[test]
fn an_empty_query_lists_all_threads() {
    let now = Local::now().timestamp();
    let step = compute_visible_items(vec![thread("a", "/a", now - 40 * DAY)], String::new());
    match step {
        UpdateStep::Ready(items) => {
            assert_eq!(items.len(), 2);
            assert!(matches!(
                items[0],
                ListItemType::BucketSeparator(TimeBucket::All)
            ));
            assert_eq!(items[1].entry().unwrap().path, "/a");
        }
        UpdateStep::Search(_) => panic!("nothing is searched for"),
    }
}

#[test]
fn a_query_asks_the_matcher() {
    let threads = vec![thread("alpha", "/a", 1), thread("", "/b", 2)];
    match compute_visible_items(threads, "new".to_string()) {
        UpdateStep::Ready(_) => panic!("something is searched for"),
        UpdateStep::Search(search) => {
            assert_eq!(search.request.query, "new");
            assert_eq!(search.request.max_results, 100);
            assert_eq!(search.request.candidates[1].string, "New Thread");
            let matches = vec![StringMatch {
                candidate_id: 1,
                positions: vec![0, 1, 2],
            }];
            let items = build_search_items(&search.threads, matches);
            assert_eq!(items[0].entry().unwrap().path, "/b");
        }
    }
}

#[test]
fn editing_the_query_makes_a_new_list() {
    let mut history = panel(three_rows());
    history.select_last();
    let store = vec![thread("a", "/a", 1)];
    assert!(history.query_edited(String::new(), Some(store.clone())).is_none());
    let update = history
        .query_edited("abc".to_string(), Some(store.clone()))
        .unwrap();
    assert_eq!(update.query, "abc");
    assert_eq!(update.selected_path, None);
    assert_eq!(history.search_query, "abc");
    assert!(history.query_edited("abc".to_string(), Some(store)).is_none());
    assert!(history.query_edited("x".to_string(), None).is_none());
    assert_eq!(history.search_query, "x");
    assert_eq!(history.selected_index, 4);
}

#[test]
fn removing_a_thread() {
    let mut history = panel(three_rows());
    assert_eq!(history.remove_thread(2, true), Some("/2".to_string()));
    assert_eq!(history.remove_thread(2, false), None);
    assert_eq!(history.remove_thread(3, true), None);
    assert_eq!(history.remove_thread(9, true), None);
    history.select_next();
    assert_eq!(history.remove_selected_thread(true), Some("/2".to_string()));
    assert_eq!(history.remove_selected_thread(false), None);

    let failed = history.thread_removed(false, Some(vec![]));
    assert!(!failed.notify && failed.update.is_none());
    let done = history.thread_removed(true, Some(vec![thread("1", "/1", 1)]));
    assert!(done.notify);
    assert_eq!(done.update.unwrap().selected_path.as_deref(), Some("/2"));
    let gone = history.thread_removed(true, None);
    assert!(gone.notify && gone.update.is_none());
}

#[test]
fn removing_the_history() {
    let mut history = panel(three_rows());
    history.prompt_delete_history();
    assert!(history.confirming_delete_history);
    let store = vec![thread("b", "/b", 1), thread("a", "/a", 2)];
    let paths = history.remove_history(Some(&store)).paths.unwrap();
    assert_eq!(paths, ["/b", "/a"]);
    assert!(!history.confirming_delete_history);

    history.prompt_delete_history();
    let removal = history.remove_history(None);
    assert!(removal.paths.is_none() && removal.notify);
    assert!(!history.confirming_delete_history);

    let refresh = history.history_removed(Some(vec![]));
    assert!(refresh.notify);
    assert_eq!(refresh.update.unwrap().selected_path, None);
}

#[test]
fn cancelling_undoes_the_prompt() {
    let mut history = panel(three_rows());
    history.select_next();
    assert_eq!(history.render().footer, HistoryFooter::DeleteHistory);
    assert!(history.prompt_delete_history().notify);
    assert_eq!(history.render().footer, HistoryFooter::ConfirmDelete);
    assert!(history.cancel_delete_history().notify);
    assert_eq!(history.render().footer, HistoryFooter::DeleteHistory);
    assert_eq!(history.selected_index, 2);
    assert_eq!(history.visible_items.len(), 5);
}

#[test]
fn hover_follows_the_pointer() {
    let mut history = panel(three_rows());
    assert!(history.hover_entry(1, true).notify);
    history.hover_entry(2, true);
    history.hover_entry(1, false);
    assert_eq!(history.hovered_index, Some(2));
    history.hover_entry(2, false);
    assert_eq!(history.hovered_index, None);
    history.hover_entry(2, false);
    assert_eq!(history.hovered_index, None);
}

#[test]
fn messages_in_place_of_a_list() {
    let mut history = panel(vec![]);
    let shown = history.render();
    assert_eq!(shown.body, HistoryBody::NoHistory);
    assert_eq!(shown.footer, HistoryFooter::Hidden);
    assert_eq!(
        shown.body.message().as_deref(),
        Some("You don't have any past threads yet.")
    );
    assert!(!history.search_produced_no_matches());

    history.prompt_delete_history();
    assert_eq!(history.render().footer, HistoryFooter::Hidden);
    history.cancel_delete_history();

    history.query_edited("abc".to_string(), None);
    let shown = history.render();
    assert_eq!(shown.body, HistoryBody::NoMatches);
    assert_eq!(shown.footer, HistoryFooter::DeleteHistory);
    assert_eq!(
        shown.body.message().as_deref(),
        Some("No threads match your search.")
    );
    assert!(history.search_produced_no_matches());

    refresh(&mut history, three_rows(), None);
    let shown = history.render();
    assert_eq!(shown.body, HistoryBody::List(5));
    assert_eq!(shown.body.message(), None);
    assert!(!history.search_produced_no_matches());
}

#[test]
fn texts_at_the_foot_of_the_panel() {
    let mut history = panel(vec![]);
    assert!(matches!(history.render().footer.text(), FooterText::Nothing));
    refresh(&mut history, three_rows(), None);
    match history.render().footer.text() {
        FooterText::Button(label) => assert_eq!(label, "Delete All History"),
        text => panic!("{:?}", text),
    }
    history.prompt_delete_history();
    match history.render().footer.text() {
        FooterText::Question {
            question,
            warning,
            cancel,
            confirm,
        } => {
            assert_eq!(question, "Delete all threads?");
            assert_eq!(warning, "You won't be able to recover them later.");
            assert_eq!(cancel, "Cancel");
            assert_eq!(confirm, "Delete");
        }
        text => panic!("{:?}", text),
    }
    assert_eq!(search_placeholder(), "Search threads...");
}

fn entry_row(row: &ListRow) -> &EntryRow {
    match row {
        ListRow::Entry(row) => row,
        ListRow::Heading(_) => panic!("a heading"),
    }
}

#[test]
fn rows_of_a_range() {
    let mut history = panel(three_rows());
    history.hover_entry(2, true);
    let rows = history.render_list_items(0..5);
    assert_eq!(rows.len(), 5);
    assert!(matches!(&rows[0], ListRow::Heading(text) if text == "Today"));
    assert!(matches!(&rows[3], ListRow::Heading(text) if text == "All"));
    let first = entry_row(&rows[1]);
    assert_eq!((first.index, first.title.as_str()), (1, "/1"));
    assert!(first.selected && !first.hovered);
    assert!(first.highlight_positions.is_empty());
    let second = entry_row(&rows[2]);
    assert!(!second.selected && second.hovered);
    assert_eq!(first.delete_hint(), None);
    assert_eq!(second.delete_hint().as_deref(), Some("Delete"));

    let rows = history.render_list_items(3..5);
    assert_eq!(rows.len(), 2);
    assert_eq!(entry_row(&rows[1]).index, 4);
    assert!(history.render_list_items(3..6).is_empty());
    assert!(history.render_list_items(5..5).is_empty());
    let (start, end) = (4, 3);
    assert!(history.render_list_items(start..end).is_empty());
}

#[test]
fn a_range_outside_the_list_shows_nothing() {
    // The time of the row cannot be shown, but no row is asked for.
    let history = panel(vec![ListItemType::Entry {
        entry: thread("t", "/t", 253_402_300_799),
        format: EntryTimeFormat::TimeOnly,
    }]);
    assert!(!history.visible_items[0].is_showable(history.local_timezone));
    assert!(history.render_list_items(0..2).is_empty());
}

#[test]
fn times_of_rows() {
    let history = panel(three_rows());
    let rows = history.render_list_items(0..5);
    // 1,000,000 seconds after the epoch it is 13:46:40, and an hour later in the time zone.
    let timezone = UtcOffset { seconds: 3600 };
    match entry_row(&rows[1]).display_text {
        DisplayText::Time(text) => assert_eq!(
            text,
            TimestampText::TimeOfDay {
                timezone,
                julian_day: 2_440_599,
                hour: 14,
                minute: 46,
                second: 40
            }
        ),
        DisplayText::DaysAgo(_) => panic!("a time of day is shown"),
    }
    let days = (Local::now().timestamp() - 1_000_000) / DAY;
    match &entry_row(&rows[4]).display_text {
        DisplayText::DaysAgo(text) => {
            assert!(*text == format!("{}d", days) || *text == format!("{}d", days + 1));
        }
        DisplayText::Time(_) => panic!("days are shown"),
    }
    assert!(matches!(
        entry_row(&rows[1]).full_date,
        TimestampText::EnhancedAbsolute {
            timestamp: 1_000_000,
            ..
        }
    ));
}

#[test]
fn days_are_shown_in_decimal() {
    let history = panel(three_rows());
    let reference = UtcMoment {
        seconds: 0,
        nanos: 0,
    };
    let entry = thread("t", "/t", 0);
    for days in [0i64, 1, 9, 10, 99, 100, 12_345, -1, -7, -10, -98_765, 90_000_000] {
        let now = LocalTimestamp {
            seconds: days * DAY,
            nanos: 0,
            offset: 0,
        };
        let row = history.render_history_entry_at(
            &entry,
            EntryTimeFormat::DateAndTime,
            7,
            vec![1],
            now,
            reference,
        );
        assert_eq!(row.index, 7);
        assert_eq!(row.highlight_positions, [1]);
        match row.display_text {
            DisplayText::DaysAgo(text) => assert_eq!(text, format!("{}d", days)),
            DisplayText::Time(_) => panic!("days are shown"),
        }
    }
}

#[test]
fn search_results_show_days_and_positions() {
    let history = panel(vec![found("/a", vec![1, 2]), found("/b", vec![])]);
    assert_eq!(history.selected_index, 0);
    let rows = history.render_list_items(0..2);
    assert_eq!(entry_row(&rows[0]).highlight_positions, [1, 2]);
    assert!(entry_row(&rows[0]).selected);
    assert!(matches!(
        entry_row(&rows[1]).display_text,
        DisplayText::DaysAgo(_)
    ));
}

#[test]
fn a_blank_title_and_a_time_out_of_range() {
    let history = panel(three_rows());
    let entry = thread(" ", "/t", 253_402_300_800);
    let reference = UtcMoment {
        seconds: 0,
        nanos: 0,
    };
    let row = history.render_history_entry_at(
        &entry,
        EntryTimeFormat::TimeOnly,
        1,
        vec![],
        entry.mtime,
        reference,
    );
    assert_eq!(row.title, "New Thread");
    assert!(matches!(
        row.display_text,
        DisplayText::Time(TimestampText::Blank)
    ));
    assert_eq!(row.full_date, TimestampText::Blank);

    let row = history.render_history_entry(&entry, EntryTimeFormat::TimeOnly, 1, vec![]);
    assert!(matches!(
        row.display_text,
        DisplayText::Time(TimestampText::Blank)
    ));
    assert_eq!(row.full_date, TimestampText::Blank);
}

#[test]
fn rows_that_can_be_shown() {
    let utc = UtcOffset { seconds: 0 };
    let east = UtcOffset { seconds: 3600 };
    let last = ListItemType::Entry {
        entry: thread("t", "/t", 253_402_300_799),
        format: EntryTimeFormat::TimeOnly,
    };
    assert!(last.is_showable(utc));
    assert!(!last.is_showable(east));
    assert!(heading(TimeBucket::All).is_showable(east));
    assert!(found("/a", vec![]).is_showable(east));
}
