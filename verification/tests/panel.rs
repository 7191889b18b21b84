use chrono::{Datelike, Local, NaiveDate, TimeDelta};
use text_thread_history::bucket::{EntryTimeFormat, TimeBucket};
use text_thread_history::calendar::Date;
use text_thread_history::clock::LocalTimestamp;
use text_thread_history::items::{
    build_bucketed_items, build_search_items, search_request, ListItemType, SearchRequest,
    StringMatch,
};
use text_thread_history::thread::{entry_title, SavedTextThreadMetadata};

fn date(date: NaiveDate) -> Date {
    Date {
        day: date.num_days_from_ce(),
    }
}

fn timestamp(time: chrono::DateTime<Local>) -> LocalTimestamp {
    LocalTimestamp {
        seconds: time.timestamp(),
        nanos: time.timestamp_subsec_nanos(),
        offset: time.offset().local_minus_utc(),
    }
}

fn thread(title: &str, path: &str, mtime: chrono::DateTime<Local>) -> SavedTextThreadMetadata {
    SavedTextThreadMetadata {
        title: title.to_string(),
        path: path.to_string(),
        mtime: timestamp(mtime),
    }
}

#[test]
fn test_time_bucket_from_dates() {
    let today = NaiveDate::from_ymd_opt(2024, 6, 15).unwrap(); // Saturday

    assert_eq!(
        TimeBucket::from_dates(date(today), date(today)),
        TimeBucket::Today
    );

    let yesterday = today - TimeDelta::days(1);
    assert_eq!(
        TimeBucket::from_dates(date(today), date(yesterday)),
        TimeBucket::Yesterday
    );

    let earlier_this_week = today - TimeDelta::days(5);
    assert_eq!(
        TimeBucket::from_dates(date(today), date(earlier_this_week)),
        TimeBucket::ThisWeek
    );

    let last_week = today - TimeDelta::days(10);
    assert_eq!(
        TimeBucket::from_dates(date(today), date(last_week)),
        TimeBucket::PastWeek
    );

    let long_ago = today - TimeDelta::days(30);
    assert_eq!(
        TimeBucket::from_dates(date(today), date(long_ago)),
        TimeBucket::All
    );
}

#[test]
fn test_entry_title_fallback_and_trimming() {
    let make_entry = |title: &str| thread(title, "/test/path.json", Local::now());

    assert_eq!(entry_title(&make_entry("My Thread")).as_str(), "My Thread");
    assert_eq!(entry_title(&make_entry("")).as_str(), "New Thread");
    assert_eq!(entry_title(&make_entry("   ")).as_str(), "New Thread");
    assert_eq!(
        entry_title(&make_entry("  Trimmed Title  ")).as_str(),
        "  Trimmed Title  "
    );
}

#[test]
fn test_build_bucketed_items_inserts_separators() {
    let today = Local::now();
    let yesterday = today - TimeDelta::days(1);

    let threads = vec![
        thread("Thread 1", "/test/1.json", today),
        thread("Thread 2", "/test/2.json", today),
        thread("Thread 3", "/test/3.json", yesterday),
    ];

    let items = build_bucketed_items(threads);

    // Should have: Today separator, Thread 1, Thread 2, Yesterday separator, Thread 3
    assert_eq!(items.len(), 5);

    assert!(matches!(
        &items[0],
        ListItemType::BucketSeparator(TimeBucket::Today)
    ));
    assert!(matches!(&items[1], ListItemType::Entry { entry, .. } if entry.title == "Thread 1"));
    assert!(matches!(&items[2], ListItemType::Entry { entry, .. } if entry.title == "Thread 2"));
    assert!(matches!(
        &items[3],
        ListItemType::BucketSeparator(TimeBucket::Yesterday)
    ));
    assert!(matches!(&items[4], ListItemType::Entry { entry, .. } if entry.title == "Thread 3"));
    assert!(matches!(
        &items[1],
        ListItemType::Entry {
            format: EntryTimeFormat::TimeOnly,
            ..
        }
    ));
}

#[test]
fn test_build_bucketed_items_empty_input() {
    let items = build_bucketed_items(vec![]);
    assert!(items.is_empty());
}

/// A matcher that finds the query as it stands, whatever its case.
fn find_all(request: &SearchRequest) -> Vec<StringMatch> {
    let query = request.query.to_lowercase();
    let mut matches: Vec<StringMatch> = Vec::new();
    for candidate in &request.candidates {
        if let Some(start) = candidate.string.to_lowercase().find(&query) {
            matches.push(StringMatch {
                candidate_id: candidate.id,
                positions: (start..start + query.len()).collect(),
            });
        }
    }
    matches.truncate(request.max_results);
    matches
}

#[test]
fn test_build_search_items_fuzzy_matching() {
    let threads = vec![
        thread("Implement user authentication", "/test/1.json", Local::now()),
        thread("Fix database connection", "/test/2.json", Local::now()),
        thread("Add user profile page", "/test/3.json", Local::now()),
        thread("Refactor authentication module", "/test/4.json", Local::now()),
    ];

    // Search for "auth" - should match threads with "authentication"
    let request = search_request(&threads, "auth".to_string());
    let items = build_search_items(&threads, find_all(&request));
    assert_eq!(items.len(), 2);

    // Verify both auth-related threads are found
    let titles: Vec<&str> = items
        .iter()
        .filter_map(|item| item.entry().map(|e| e.title.as_str()))
        .collect();
    assert!(titles.contains(&"Implement user authentication"));
    assert!(titles.contains(&"Refactor authentication module"));

    // Verify search results have highlight positions
    for item in &items {
        if let ListItemType::SearchResult { positions, .. } = item {
            assert!(
                !positions.is_empty(),
                "Search results should have highlight positions"
            );
        } else {
            panic!("Expected SearchResult variant");
        }
    }

    // Search for "user" - should match threads with "user"
    let request = search_request(&threads, "user".to_string());
    let items = build_search_items(&threads, find_all(&request));
    assert_eq!(items.len(), 2);

    // Search with no matches
    let request = search_request(&threads, "xyz123".to_string());
    let items = build_search_items(&threads, find_all(&request));
    assert!(items.is_empty());
}
