use text_thread_history::bucket::{EntryTimeFormat, TimeBucket};
use text_thread_history::calendar::Date;
use text_thread_history::clock::LocalTimestamp;
use text_thread_history::items::{
    build_bucketed_items_on, build_search_items, search_request, ListItemType, StringMatch,
    MAX_MATCHES,
};
use text_thread_history::paths::{compare_paths, first_marked};
use text_thread_history::selection::{selection_target, Bias};
use text_thread_history::thread::{entry_title, sort_newest_first, SavedTextThreadMetadata};

const DAY: i64 = 86_400;

fn thread(title: &str, path: &str, seconds: i64) -> SavedTextThreadMetadata {
    SavedTextThreadMetadata {
        title: title.to_string(),
        path: path.to_string(),
        mtime: LocalTimestamp {
            seconds,
            nanos: 0,
            offset: 0,
        },
    }
}

fn heading() -> ListItemType {
    ListItemType::BucketSeparator(TimeBucket::All)
}

fn row(path: &str) -> ListItemType {
    ListItemType::Entry {
        entry: thread("row", path, 0),
        format: EntryTimeFormat::DateAndTime,
    }
}

fn titles(threads: &[SavedTextThreadMetadata]) -> Vec<&str> {
    threads.iter().map(|thread| thread.title.as_str()).collect()
}

#[test]
fn title_is_blank_exactly_for_white_space() {
    for code in 0..=0x10FFFFu32 {
        if let Some(c) = char::from_u32(code) {
            let title = c.to_string();
            let entry = thread(&title, "/test/path.json", 0);
            let blank = matches!(code, 0x9..=0xD | 0x20 | 0x85 | 0xA0 | 0x1680 | 0x2000..=0x200A
                | 0x2028 | 0x2029 | 0x202F | 0x205F | 0x3000);
            assert_eq!(c.is_whitespace(), blank);
            let expected = if blank { "New Thread" } else { title.as_str() };
            assert_eq!(entry_title(&entry), expected);
        }
    }
}

#[test]
fn title_with_text_is_kept_as_it_stands() {
    assert_eq!(entry_title(&thread("\t\n\u{3000}", "", 0)), "New Thread");
    assert_eq!(entry_title(&thread(" \u{a0}x\t", "", 0)), " \u{a0}x\t");
    assert_eq!(entry_title(&thread("\u{200B}", "", 0)), "\u{200B}");
}

#[test]
fn sorting_is_newest_first_and_stable() {
    let mut later = thread("e", "", 5);
    later.mtime.nanos = 1;
    later.mtime.offset = -7200;
    let mut shifted = thread("f", "", 5);
    shifted.mtime.offset = 3600;
    let threads = vec![
        thread("a", "", 1),
        thread("b", "", 5),
        thread("c", "", 3),
        thread("d", "", 5),
        later,
        shifted,
    ];
    let sorted = sort_newest_first(threads);
    assert_eq!(titles(&sorted), ["e", "b", "d", "f", "c", "a"]);
    let again = sort_newest_first(sorted.clone());
    assert_eq!(titles(&again), titles(&sorted));
    assert!(sort_newest_first(vec![]).is_empty());
}

#[test]
fn sorting_is_that_of_the_standard_library() {
    let mut threads: Vec<SavedTextThreadMetadata> = Vec::new();
    let mut state: u64 = 7;
    for i in 0..500 {
        state = state.wrapping_mul(6364136223846793005).wrapping_add(1442695040888963407);
        threads.push(thread(&i.to_string(), "", (state >> 58) as i64));
    }
    let mut expected = threads.clone();
    expected.sort_by(|a, b| b.mtime.seconds.cmp(&a.mtime.seconds));
    assert_eq!(titles(&sort_newest_first(threads)), titles(&expected));
}

#[test]
fn headings_stand_before_each_new_bucket() {
    // Saturday, June 15, 2024.
    let today = Date { day: 739_052 };
    let noon = (739_052 - 719_163) * DAY + DAY / 2;
    let threads = vec![
        thread("today", "1", noon),
        thread("monday", "2", noon - 5 * DAY),
        thread("tuesday", "3", noon - 4 * DAY),
        thread("last week", "4", noon - 10 * DAY),
        thread("long ago", "5", noon - 30 * DAY),
        thread("today again", "6", noon + 60),
    ];
    let items = build_bucketed_items_on(today, threads);
    let shown: Vec<String> = items
        .iter()
        .map(|item| match item {
            ListItemType::BucketSeparator(bucket) => bucket.label(),
            ListItemType::Entry { entry, format } => format!("{}/{:?}", entry.title, format),
            ListItemType::SearchResult { .. } => panic!("no search"),
        })
        .collect();
    assert_eq!(
        shown,
        [
            "Today",
            "today/TimeOnly",
            "This Week",
            "monday/DateAndTime",
            "tuesday/DateAndTime",
            "Past Week",
            "last week/DateAndTime",
            "All",
            "long ago/DateAndTime",
            "Today",
            "today again/TimeOnly",
        ]
    );
}

#[test]
fn lists_of_two_runs_are_joined() {
    let today = Date { day: 739_052 };
    let noon = (739_052 - 719_163) * DAY + DAY / 2;
    let days = [0, 0, 1, 3, 4, 9, 40];
    let run = |days: &[i64]| -> Vec<String> {
        let threads = days.iter().map(|back| thread(&back.to_string(), "", noon - back * DAY));
        build_bucketed_items_on(today, threads.collect())
            .iter()
            .map(|item| match item.entry() {
                Some(entry) => entry.title.clone(),
                None => "heading".to_string(),
            })
            .collect()
    };
    for middle in 1..days.len() {
        let mut joined = run(&days[..middle]);
        let second = run(&days[middle..]);
        // The first two threads are of today, the fourth and fifth of this week.
        let meet = middle == 1 || middle == 4;
        joined.extend(second.into_iter().skip(if meet { 1 } else { 0 }));
        assert_eq!(run(&days), joined);
    }
}

#[test]
fn headings_of_sorted_threads_come_once() {
    let today = Date { day: 739_052 };
    let noon = (739_052 - 719_163) * DAY + DAY / 2;
    let mut threads: Vec<SavedTextThreadMetadata> = Vec::new();
    for back in 0..40 {
        threads.push(thread("", "", noon - (back * 17 % 40) * DAY));
    }
    let items = build_bucketed_items_on(today, sort_newest_first(threads));
    let headings: Vec<TimeBucket> = items
        .iter()
        .filter_map(|item| match item {
            ListItemType::BucketSeparator(bucket) => Some(*bucket),
            _ => None,
        })
        .collect();
    assert_eq!(
        headings,
        [
            TimeBucket::Today,
            TimeBucket::Yesterday,
            TimeBucket::ThisWeek,
            TimeBucket::PastWeek,
            TimeBucket::All
        ]
    );
    assert_eq!(items.len(), 45);
    for (index, item) in items.iter().enumerate() {
        if item.entry().is_none() {
            assert!(items[index + 1].entry().is_some());
        }
    }
}

#[test]
fn search_asks_for_listed_titles() {
    let threads = vec![thread("One", "1", 0), thread("  ", "2", 0)];
    let request = search_request(&threads, "on".to_string());
    assert_eq!(request.query, "on");
    assert!(!request.smart_case);
    assert!(request.penalize_length);
    assert_eq!(request.max_results, 100);
    assert_eq!(request.max_results, MAX_MATCHES);
    let candidates: Vec<(usize, &str)> = request
        .candidates
        .iter()
        .map(|candidate| (candidate.id, candidate.string.as_str()))
        .collect();
    assert_eq!(candidates, [(0, "One"), (1, "New Thread")]);
}

#[test]
fn search_lists_matches_in_their_order() {
    let threads = vec![thread("a", "1", 0), thread("b", "2", 0), thread("c", "3", 0)];
    let matches = vec![
        StringMatch {
            candidate_id: 2,
            positions: vec![0],
        },
        StringMatch {
            candidate_id: 0,
            positions: vec![],
        },
        StringMatch {
            candidate_id: 2,
            positions: vec![1, 2],
        },
    ];
    let items = build_search_items(&threads, matches);
    let found: Vec<(&str, &[usize])> = items
        .iter()
        .map(|item| match item {
            ListItemType::SearchResult { entry, positions } => {
                (entry.path.as_str(), positions.as_slice())
            }
            _ => panic!("not a search result"),
        })
        .collect();
    assert_eq!(found[0], ("3", &[0usize][..]));
    assert_eq!(found[1], ("1", &[][..]));
    assert_eq!(found[2], ("3", &[1usize, 2][..]));
    assert_eq!(found.len(), 3);
    assert!(build_search_items(&threads, vec![]).is_empty());
}

#[test]
fn selection_skips_headings_and_wraps() {
    let items = vec![heading(), row("1"), row("2"), heading(), heading(), row("3"), heading()];
    assert_eq!(selection_target(&items, 0, Bias::Right), 1);
    assert_eq!(selection_target(&items, 2, Bias::Right), 2);
    assert_eq!(selection_target(&items, 3, Bias::Right), 5);
    assert_eq!(selection_target(&items, 6, Bias::Right), 1);
    assert_eq!(selection_target(&items, 100, Bias::Right), 1);
    assert_eq!(selection_target(&items, 6, Bias::Left), 5);
    assert_eq!(selection_target(&items, 4, Bias::Left), 2);
    assert_eq!(selection_target(&items, 0, Bias::Left), 5);
    assert_eq!(selection_target(&items, 100, Bias::Left), 5);
}

#[test]
fn paths_are_compared_by_their_components() {
    let items = vec![
        heading(),
        row("/test/2.json"),
        row("/test/1.json"),
        row("/test//1.json"),
        row("/test/./1.json"),
        row("/test/1.json/"),
        row("/test/x/../1.json"),
        row("test/1.json"),
        row("/TEST/1.json"),
    ];
    let same = compare_paths(&items, &"/test/1.json".to_string());
    assert_eq!(
        same,
        [false, false, true, true, true, true, false, false, false]
    );
    assert_eq!(first_marked(&same), 2);

    let items = vec![
        row("./a"),
        row("a"),
        row("././a/"),
        row("/./a"),
        row("/a"),
        row(""),
        row("/x/Fix: a.json"),
        row("/x/b.json"),
        row("C:\\x\\a.json"),
        row("C:\\x\\b.json"),
        row("C:\\x\\B.json"),
        row("\\x"),
    ];
    let marked = |path: &str| -> Vec<usize> {
        let same = compare_paths(&items, &path.to_string());
        (0..items.len()).filter(|i| same[*i]).collect()
    };
    assert_eq!(marked("./a"), [0, 2]);
    assert_eq!(marked("a/."), [1]);
    assert_eq!(marked("/a"), [3, 4]);
    assert_eq!(marked(""), [5]);
    assert_eq!(marked("/x//Fix: a.json"), [6]);
    assert_eq!(marked("C:\\x\\b.json"), [9]);
    assert!(marked("..").is_empty());
    assert!(marked("x").is_empty());
    assert_eq!(first_marked(&vec![false, false]), 0);
    assert_eq!(first_marked(&vec![]), 0);
}
