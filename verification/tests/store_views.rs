use tabstore::blob::BlobOp;
use tabstore::clock::{day_start_from, now_millis, start_of_today, today_text};
use tabstore::record::{TabRecord, TabSnapshot, TabSuggestion};
use tabstore::settings::{DailyReport, Settings};
use tabstore::storage::{active_since, Storage};

const START: i64 = 1_700_000_000_000;

fn row(id: i64, created_at: i64, last_active_at: Option<i64>, closed_at: Option<i64>) -> TabRecord {
    TabRecord {
        id,
        window_id: None,
        url: Some(format!("https://site{}.example/", id)),
        title: Some(format!("Row {}", id)),
        fav_icon_url: None,
        created_at,
        last_active_at,
        total_active_ms: 0,
        is_active: closed_at.is_none(),
        closed_at,
        description: None,
        snapshot: None,
        suggestion: None,
    }
}

fn sorted_ids(rows: &[TabRecord]) -> Vec<i64> {
    let mut ids: Vec<i64> = rows.iter().map(|r| r.id).collect();
    ids.sort();
    ids
}

fn sample() -> Storage {
    let mut store = Storage::new();
    // created today, open
    store.tabs.insert(1, row(1, START, None, None));
    // created before, active today, open
    store.tabs.insert(2, row(2, START - 10, Some(START + 5), None));
    // created before, never active today, open
    store.tabs.insert(3, row(3, START - 10, Some(START - 1), None));
    // created before, closed today
    store.tabs.insert(4, row(4, START - 10, None, Some(START)));
    // created before, active today, closed before today
    store.tabs.insert(5, row(5, START - 10, Some(START), Some(START - 1)));
    // created today, closed before today
    store.tabs.insert(6, row(6, START + 1, None, Some(START - 5)));
    // all before today, closed
    store.tabs.insert(7, row(7, START - 10, Some(START - 5), Some(START - 1)));
    store
}

#[test]
fn new_store_is_empty_with_default_settings() {
    let store = Storage::new();
    assert!(store.tabs.is_empty());
    assert!(store.all().is_empty());
    assert_eq!(store.report, None);
    assert_eq!(store.settings, Settings::default());
    assert_eq!(store.get_stats(), (0, 0, 0));
    assert!(store.ids().is_empty());
}

#[test]
fn get_returns_a_copy_of_the_record() {
    let store = sample();
    assert_eq!(store.get(2), Some(row(2, START - 10, Some(START + 5), None)));
    assert_eq!(store.get(99), None);
}

#[test]
fn all_lists_every_record_once() {
    let store = sample();
    let rows = store.all();
    assert_eq!(sorted_ids(&rows), vec![1, 2, 3, 4, 5, 6, 7]);
    for r in &rows {
        assert_eq!(Some(r.clone()), store.get(r.id));
    }
    let mut ids = store.ids();
    ids.sort();
    assert_eq!(ids, vec![1, 2, 3, 4, 5, 6, 7]);
}

#[test]
fn open_tabs_are_those_without_closing_time() {
    let store = sample();
    let rows = store.get_open_tabs();
    assert_eq!(sorted_ids(&rows), vec![1, 2, 3]);
    for r in &rows {
        assert_eq!(Some(r.clone()), store.get(r.id));
    }
}

#[test]
fn today_tabs_were_created_or_active_since_the_start_of_day() {
    let store = sample();
    assert_eq!(sorted_ids(&store.today_tabs_since(START)), vec![1, 2, 5, 6]);
    assert_eq!(sorted_ids(&store.today_tabs_since(START + 1)), vec![2, 6]);
    assert_eq!(sorted_ids(&store.today_tabs_since(i64::MIN)), vec![1, 2, 3, 4, 5, 6, 7]);
    assert!(store.today_tabs_since(i64::MAX).is_empty());
}

#[test]
fn today_closed_tabs_are_closed_and_touched_since_the_start_of_day() {
    let store = sample();
    assert_eq!(sorted_ids(&store.today_closed_tabs_since(START)), vec![4, 5, 6]);
    assert_eq!(sorted_ids(&store.today_closed_tabs_since(START + 1)), vec![6]);
    assert_eq!(sorted_ids(&store.today_closed_tabs_since(i64::MIN)), vec![4, 5, 6, 7]);
}

#[test]
fn views_through_the_clock_use_the_local_day() {
    let mut store = Storage::new();
    store.tabs.insert(1, row(1, i64::MAX, None, None));
    store.tabs.insert(2, row(2, i64::MIN, None, None));
    store.tabs.insert(3, row(3, i64::MIN, Some(i64::MAX), Some(i64::MIN)));
    store.tabs.insert(4, row(4, i64::MIN, None, Some(i64::MAX)));
    store.tabs.insert(5, row(5, i64::MIN, Some(i64::MIN), Some(i64::MIN)));
    assert_eq!(sorted_ids(&store.get_today_tabs()), vec![1, 3]);
    assert_eq!(sorted_ids(&store.get_today_closed_tabs()), vec![3, 4]);
}

#[test]
fn active_since_looks_at_creation_and_last_activity() {
    assert!(active_since(&row(1, 10, None, None), 10));
    assert!(!active_since(&row(1, 9, None, None), 10));
    assert!(active_since(&row(1, 0, Some(10), None), 10));
    assert!(!active_since(&row(1, 0, Some(9), Some(50)), 10));
}

#[test]
fn stats_count_total_open_and_closed() {
    let store = sample();
    assert_eq!(store.get_stats(), (7, 3, 4));
}

#[test]
fn close_tab_at_sets_closing_time_and_clears_activity() {
    let mut store = sample();
    store.close_tab_at(1, START + 77);
    let rec = store.get(1).unwrap();
    assert_eq!(rec.closed_at, Some(START + 77));
    assert!(!rec.is_active);
    assert_eq!(rec.created_at, START);
    store.close_tab_at(99, START + 77);
    assert_eq!(store.get(99), None);
    assert_eq!(store.get_stats(), (7, 2, 5));
}

#[test]
fn close_tab_uses_the_current_instant() {
    let mut store = sample();
    let before = now_millis();
    store.close_tab(2);
    let after = now_millis();
    let closed = store.get(2).unwrap().closed_at.unwrap();
    assert!(before <= closed && closed <= after);
    assert!(closed > START);
    store.close_tab(1234);
    assert_eq!(store.get(1234), None);
}

#[test]
fn update_suggestion_replaces_only_the_suggestion() {
    let mut store = sample();
    let verdict = TabSuggestion {
        decision: "close".to_string(),
        reason: "idle".to_string(),
        category: Some("entertainment".to_string()),
        digest: None,
        scored_at: 9,
    };
    store.update_suggestion(3, verdict.clone());
    let mut want = row(3, START - 10, Some(START - 1), None);
    want.suggestion = Some(verdict.clone());
    assert_eq!(store.get(3), Some(want));
    store.update_suggestion(42, verdict);
    assert_eq!(store.get(42), None);
    assert_eq!(store.get_stats(), (7, 3, 4));
}

#[test]
fn remove_says_whether_there_was_a_record() {
    let mut store = sample();
    assert!(store.remove(4));
    assert!(!store.remove(4));
    assert_eq!(store.get(4), None);
    assert_eq!(store.get_stats(), (6, 3, 3));
}

#[test]
fn clear_forgets_records_and_report_but_not_settings() {
    let mut store = sample();
    store.settings.model = Some("other".to_string());
    store.report = Some(DailyReport { date: "d".to_string(), content: "c".to_string(), generated_at: 1 });
    assert_eq!(store.clear(), BlobOp::DeleteAll);
    assert!(store.all().is_empty());
    assert_eq!(store.report, None);
    assert_eq!(store.settings.model, Some("other".to_string()));
}

#[test]
fn store_report_replaces_the_report() {
    let mut store = sample();
    let first = store.store_report_at("one".to_string(), "2024-01-01".to_string(), 5);
    assert_eq!(first, DailyReport { date: "2024-01-01".to_string(), content: "one".to_string(), generated_at: 5 });
    assert_eq!(store.report, Some(first));
    let before = now_millis();
    let second = store.store_report("two".to_string());
    assert_eq!(second.content, "two");
    assert_eq!(second.date, today_text());
    assert!(second.generated_at >= before);
    assert_eq!(store.report, Some(second));
    assert_eq!(store.get_stats(), (7, 3, 4));
}

#[test]
fn day_start_falls_back_to_the_epoch() {
    assert_eq!(day_start_from(Some(1234)), 1234);
    assert_eq!(day_start_from(Some(-5)), -5);
    assert_eq!(day_start_from(None), 0);
}

#[test]
fn clock_reads_are_plausible() {
    let now = now_millis();
    let start = start_of_today();
    assert!(now > START);
    assert!(start <= now);
    assert!(now - start <= 25 * 60 * 60 * 1000 || start == 0);
    let date = today_text();
    assert_eq!(date.len(), 10);
    assert_eq!(date.as_bytes()[4], b'-');
    assert_eq!(date.as_bytes()[7], b'-');
}

#[test]
fn copies_equal_what_they_copy() {
    let mut rec = row(1, 2, Some(3), Some(4));
    rec.snapshot = Some(TabSnapshot { screenshot_path: Some("p".to_string()), captured_at: 8 });
    rec.suggestion = Some(TabSuggestion {
        decision: "keep".to_string(),
        reason: "r".to_string(),
        category: None,
        digest: Some("d".to_string()),
        scored_at: 1,
    });
    assert_eq!(rec.clone(), rec);
    let settings = Settings {
        openai_api_key: Some("k".to_string()),
        base_url: None,
        model: Some("m".to_string()),
        user_context: Some("ctx".to_string()),
        analyze_batch_size: Some(3),
    };
    assert_eq!(settings.clone(), settings);
    let report = DailyReport { date: "d".to_string(), content: "c".to_string(), generated_at: 1 };
    assert_eq!(report.clone(), report);
}
