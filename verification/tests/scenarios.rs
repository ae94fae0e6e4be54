use tabstore::blob::BlobOp;
use tabstore::engine::{handle_capture, handle_event, handle_event_at, handle_sync, plan_capture};
use tabstore::record::{TabRecord, TabSnapshot, TabSuggestion};
use tabstore::storage::Storage;
use tabstore::wire::{event_kind, CapturePayload, EventKind, SyncPayload, TabData, TabEvent};

const DAY: i64 = 86_400_000;
const TODAY: i64 = 1_700_000_000_000;

fn tab(id: i64, created_at: i64, total_active_ms: i64) -> TabData {
    TabData {
        id,
        window_id: Some(1),
        url: Some(format!("https://example.com/{}", id)),
        title: Some(format!("Tab {}", id)),
        fav_icon_url: None,
        created_at,
        last_active_at: None,
        total_active_ms,
        is_active: false,
        closed_at: None,
        discarded: None,
        last_screenshot_at: None,
        description: None,
    }
}

fn record(id: i64, created_at: i64, total_active_ms: i64) -> TabRecord {
    TabRecord {
        id,
        window_id: Some(1),
        url: None,
        title: None,
        fav_icon_url: None,
        created_at,
        last_active_at: None,
        total_active_ms,
        is_active: true,
        closed_at: None,
        description: None,
        snapshot: None,
        suggestion: None,
    }
}

fn verdict(decision: &str, category: Option<&str>) -> TabSuggestion {
    TabSuggestion {
        decision: decision.to_string(),
        reason: "because".to_string(),
        category: category.map(|c| c.to_string()),
        digest: Some("digest".to_string()),
        scored_at: 7,
    }
}

fn event(kind: &str, tab: TabData, timestamp: i64) -> TabEvent {
    TabEvent { event_type: kind.to_string(), tab, timestamp }
}

#[test]
fn update_with_smaller_active_time_keeps_the_larger() {
    let mut store = Storage::new();
    store.tabs.insert(1, record(1, TODAY, 100));
    let op = handle_event_at(&mut store, &event("updated", tab(1, TODAY, 80), TODAY + 5), TODAY);
    assert_eq!(op, None);
    let rec = store.get(1).unwrap();
    assert_eq!(rec.total_active_ms, 100);
    assert_eq!(rec.closed_at, None);
    assert_eq!(rec.created_at, TODAY);
}

#[test]
fn update_with_larger_active_time_takes_it() {
    let mut store = Storage::new();
    store.tabs.insert(1, record(1, TODAY, 100));
    handle_event_at(&mut store, &event("activated", tab(1, TODAY, 250), TODAY + 5), TODAY);
    assert_eq!(store.get(1).unwrap().total_active_ms, 250);
}

#[test]
fn removing_a_tab_from_yesterday_closes_it_and_reclaims_its_blob() {
    let mut store = Storage::new();
    let mut old = record(1, TODAY - DAY, 100);
    old.snapshot = Some(TabSnapshot { screenshot_path: Some("shots/1.jpg".to_string()), captured_at: TODAY - DAY });
    store.tabs.insert(1, old);
    let closed_at = TODAY - 1;
    let op = handle_event_at(&mut store, &event("removed", tab(1, TODAY - DAY, 100), closed_at), TODAY);
    assert_eq!(op, Some(BlobOp::Delete { id: 1 }));
    let rec = store.get(1).unwrap();
    assert_eq!(rec.closed_at, Some(closed_at));
    assert!(!rec.is_active);
    assert!(rec.snapshot.is_some());
    assert!(store.today_closed_tabs_since(TODAY).is_empty());
    assert!(store.today_tabs_since(TODAY).is_empty());
    assert!(store.get_open_tabs().is_empty());
}

#[test]
fn removing_a_tab_from_yesterday_today_lists_it_as_closed_today() {
    let mut store = Storage::new();
    store.tabs.insert(1, record(1, TODAY - DAY, 100));
    let op = handle_event_at(&mut store, &event("removed", tab(1, TODAY - DAY, 100), TODAY + 9), TODAY);
    assert_eq!(op, Some(BlobOp::Delete { id: 1 }));
    let closed = store.today_closed_tabs_since(TODAY);
    assert_eq!(closed.len(), 1);
    assert_eq!(closed[0].closed_at, Some(TODAY + 9));
    assert!(store.today_tabs_since(TODAY).is_empty());
}

#[test]
fn removing_a_tab_of_today_keeps_its_blob() {
    let mut store = Storage::new();
    store.tabs.insert(1, record(1, TODAY + 1, 100));
    let mut active = record(2, TODAY - DAY, 5);
    active.last_active_at = Some(TODAY);
    store.tabs.insert(2, active);
    assert_eq!(handle_event_at(&mut store, &event("removed", tab(1, 0, 0), TODAY + 9), TODAY), None);
    assert_eq!(handle_event_at(&mut store, &event("removed", tab(2, 0, 0), TODAY + 9), TODAY), None);
    assert_eq!(store.get(1).unwrap().closed_at, Some(TODAY + 9));
    assert_eq!(store.get(2).unwrap().closed_at, Some(TODAY + 9));
    assert_eq!(store.today_closed_tabs_since(TODAY).len(), 2);
}

#[test]
fn removing_an_unknown_tab_does_nothing() {
    let mut store = Storage::new();
    store.tabs.insert(1, record(1, TODAY, 100));
    let op = handle_event_at(&mut store, &event("removed", tab(9, TODAY - DAY, 0), TODAY), TODAY);
    assert_eq!(op, None);
    assert_eq!(store.get(9), None);
    assert_eq!(store.get(1), Some(record(1, TODAY, 100)));
    assert_eq!(store.get_stats(), (1, 1, 0));
}

#[test]
fn message_of_unknown_type_is_ignored() {
    let mut store = Storage::new();
    store.tabs.insert(1, record(1, TODAY, 100));
    let op = handle_event_at(&mut store, &event("moved", tab(1, TODAY, 500), TODAY), TODAY);
    assert_eq!(op, None);
    assert_eq!(store.get(1), Some(record(1, TODAY, 100)));
    let op = handle_event_at(&mut store, &event("Created", tab(2, TODAY, 500), TODAY), TODAY);
    assert_eq!(op, None);
    assert_eq!(store.get(2), None);
}

#[test]
fn event_kinds_are_told_apart_by_name() {
    assert_eq!(event_kind("created"), EventKind::Upsert);
    assert_eq!(event_kind("updated"), EventKind::Upsert);
    assert_eq!(event_kind("activated"), EventKind::Upsert);
    assert_eq!(event_kind("removed"), EventKind::Removed);
    assert_eq!(event_kind(""), EventKind::Ignored);
    assert_eq!(event_kind("removed "), EventKind::Ignored);
}

#[test]
fn first_message_creates_the_record() {
    let mut store = Storage::new();
    let mut t = tab(4, TODAY, 30);
    t.description = Some("about".to_string());
    t.last_active_at = Some(TODAY + 1);
    t.is_active = true;
    t.closed_at = Some(1);
    handle_event_at(&mut store, &event("created", t, TODAY), TODAY);
    let rec = store.get(4).unwrap();
    assert_eq!(
        rec,
        TabRecord {
            id: 4,
            window_id: Some(1),
            url: Some("https://example.com/4".to_string()),
            title: Some("Tab 4".to_string()),
            fav_icon_url: None,
            created_at: TODAY,
            last_active_at: Some(TODAY + 1),
            total_active_ms: 30,
            is_active: true,
            closed_at: None,
            description: Some("about".to_string()),
            snapshot: None,
            suggestion: None,
        }
    );
}

#[test]
fn first_message_with_negative_active_time_starts_at_zero() {
    let mut store = Storage::new();
    handle_event_at(&mut store, &event("created", tab(4, TODAY, -30), TODAY), TODAY);
    assert_eq!(store.get(4).unwrap().total_active_ms, 0);
}

#[test]
fn merge_follows_the_browser_but_keeps_identity_and_history() {
    let mut store = Storage::new();
    let mut known = record(1, TODAY - 5, 100);
    known.url = Some("https://old.example".to_string());
    known.title = Some("Old".to_string());
    known.fav_icon_url = Some("old.ico".to_string());
    known.description = Some("known text".to_string());
    known.window_id = Some(3);
    known.snapshot = Some(TabSnapshot { screenshot_path: Some("p".to_string()), captured_at: 2 });
    known.suggestion = Some(verdict("close", Some("work")));
    store.tabs.insert(1, known);

    let mut t = tab(1, TODAY + 50, 20);
    t.url = None;
    t.title = None;
    t.window_id = Some(8);
    t.last_active_at = Some(TODAY + 60);
    handle_event_at(&mut store, &event("updated", t, TODAY + 70), TODAY);

    let rec = store.get(1).unwrap();
    assert_eq!(rec.url, None);
    assert_eq!(rec.title, None);
    assert_eq!(rec.fav_icon_url, None);
    assert_eq!(rec.last_active_at, Some(TODAY + 60));
    assert!(!rec.is_active);
    assert_eq!(rec.description, Some("known text".to_string()));
    assert_eq!(rec.total_active_ms, 100);
    assert_eq!(rec.window_id, Some(3));
    assert_eq!(rec.created_at, TODAY - 5);
    assert_eq!(rec.snapshot, Some(TabSnapshot { screenshot_path: Some("p".to_string()), captured_at: 2 }));
    assert_eq!(rec.suggestion, Some(verdict("close", Some("work"))));
}

#[test]
fn merge_replaces_the_description_when_one_arrives() {
    let mut store = Storage::new();
    let mut known = record(1, TODAY, 1);
    known.description = Some("first".to_string());
    store.tabs.insert(1, known);
    let mut t = tab(1, TODAY, 1);
    t.description = Some("second".to_string());
    handle_event_at(&mut store, &event("updated", t, TODAY), TODAY);
    assert_eq!(store.get(1).unwrap().description, Some("second".to_string()));
}

#[test]
fn message_for_a_closed_tab_leaves_it_closed() {
    let mut store = Storage::new();
    let mut known = record(1, TODAY, 1);
    known.closed_at = Some(TODAY + 3);
    store.tabs.insert(1, known);
    handle_event_at(&mut store, &event("created", tab(1, TODAY + 10, 9), TODAY + 10), TODAY);
    let rec = store.get(1).unwrap();
    assert_eq!(rec.closed_at, Some(TODAY + 3));
    assert_eq!(rec.created_at, TODAY);
    assert_eq!(rec.total_active_ms, 9);
}

#[test]
fn capture_stores_blob_and_snapshot() {
    let mut store = Storage::new();
    let payload = CapturePayload {
        tab: tab(5, TODAY, 12),
        screenshot_base64: Some("aGVsbG8=".to_string()),
        captured_at: TODAY + 1,
    };
    let op = plan_capture(&store, &payload);
    assert_eq!(op, Some(BlobOp::Write { id: 5, bytes: b"hello".to_vec() }));
    handle_capture(&mut store, &payload, Some("shots/5.jpg".to_string()));
    let rec = store.get(5).unwrap();
    assert_eq!(
        rec.snapshot,
        Some(TabSnapshot { screenshot_path: Some("shots/5.jpg".to_string()), captured_at: TODAY + 1 })
    );
    assert_eq!(rec.total_active_ms, 12);
    assert_eq!(rec.closed_at, None);
    assert_eq!(rec.suggestion, None);
}

#[test]
fn capture_with_bad_screenshot_still_records_the_attempt() {
    let mut store = Storage::new();
    let payload = CapturePayload {
        tab: tab(5, TODAY, 12),
        screenshot_base64: Some("not base64 at all!".to_string()),
        captured_at: TODAY + 1,
    };
    assert_eq!(plan_capture(&store, &payload), None);
    handle_capture(&mut store, &payload, None);
    assert_eq!(
        store.get(5).unwrap().snapshot,
        Some(TabSnapshot { screenshot_path: None, captured_at: TODAY + 1 })
    );
}

#[test]
fn capture_without_screenshot_plans_no_write() {
    let store = Storage::new();
    let payload = CapturePayload { tab: tab(5, TODAY, 12), screenshot_base64: None, captured_at: 1 };
    assert_eq!(plan_capture(&store, &payload), None);
}

#[test]
fn capture_merges_like_a_message_and_replaces_the_snapshot() {
    let mut store = Storage::new();
    let mut known = record(1, TODAY - 5, 100);
    known.fav_icon_url = Some("old.ico".to_string());
    known.description = Some("known text".to_string());
    known.snapshot = Some(TabSnapshot { screenshot_path: Some("old".to_string()), captured_at: 2 });
    known.suggestion = Some(verdict("keep", None));
    known.closed_at = Some(TODAY);
    store.tabs.insert(1, known);
    let mut t = tab(1, TODAY, 80);
    t.fav_icon_url = Some("new.ico".to_string());
    let payload = CapturePayload { tab: t, screenshot_base64: None, captured_at: TODAY + 9 };
    handle_capture(&mut store, &payload, None);
    let rec = store.get(1).unwrap();
    assert_eq!(rec.total_active_ms, 100);
    assert_eq!(rec.fav_icon_url, Some("new.ico".to_string()));
    assert_eq!(rec.url, Some("https://example.com/1".to_string()));
    assert_eq!(rec.description, Some("known text".to_string()));
    assert_eq!(rec.snapshot, Some(TabSnapshot { screenshot_path: None, captured_at: TODAY + 9 }));
    assert_eq!(rec.suggestion, Some(verdict("keep", None)));
    assert_eq!(rec.closed_at, Some(TODAY));
    assert_eq!(rec.created_at, TODAY - 5);
}

#[test]
fn sync_drops_a_bare_stale_tab_and_leaves_the_listed_ones() {
    let mut store = Storage::new();
    for id in [1, 2, 3] {
        store.tabs.insert(id, record(id, TODAY, id * 10));
    }
    let out = store.sync_with_chrome_tabs_at(&[2, 3], TODAY + 100);
    assert_eq!(out.count, 1);
    assert_eq!(out.blob_ids, vec![1]);
    assert_eq!(store.get(1), None);
    assert_eq!(store.get(2), Some(record(2, TODAY, 20)));
    assert_eq!(store.get(3), Some(record(3, TODAY, 30)));
}

#[test]
fn sync_closes_a_stale_tab_that_has_history() {
    let mut store = Storage::new();
    let mut judged = record(1, TODAY, 10);
    judged.suggestion = Some(verdict("keep", Some("work")));
    store.tabs.insert(1, judged);
    let mut shot = record(2, TODAY, 10);
    shot.snapshot = Some(TabSnapshot { screenshot_path: None, captured_at: 4 });
    store.tabs.insert(2, shot);
    store.tabs.insert(3, record(3, TODAY, 10));
    let mut closed = record(4, TODAY, 10);
    closed.closed_at = Some(5);
    store.tabs.insert(4, closed);

    let out = store.sync_with_chrome_tabs_at(&[], TODAY + 100);
    assert_eq!(out.count, 3);
    assert_eq!(out.blob_ids, vec![3]);
    let one = store.get(1).unwrap();
    assert_eq!(one.closed_at, Some(TODAY + 100));
    assert!(!one.is_active);
    assert_eq!(one.suggestion, Some(verdict("keep", Some("work"))));
    let two = store.get(2).unwrap();
    assert_eq!(two.closed_at, Some(TODAY + 100));
    assert_eq!(store.get(3), None);
    assert_eq!(store.get(4).unwrap().closed_at, Some(5));
}

#[test]
fn sync_twice_changes_nothing_the_second_time() {
    let mut store = Storage::new();
    let mut judged = record(1, TODAY, 10);
    judged.suggestion = Some(verdict("keep", Some("work")));
    store.tabs.insert(1, judged);
    store.tabs.insert(2, record(2, TODAY, 10));
    store.tabs.insert(3, record(3, TODAY, 10));
    let first = store.sync_with_chrome_tabs_at(&[3, 3, 7], TODAY + 100);
    assert_eq!(first.count, 2);
    let after_first = (store.get(1), store.get(2), store.get(3), store.get_stats());
    let second = store.sync_with_chrome_tabs_at(&[3, 3, 7], TODAY + 900);
    assert_eq!(second.count, 0);
    assert!(second.blob_ids.is_empty());
    assert_eq!((store.get(1), store.get(2), store.get(3), store.get_stats()), after_first);
    assert_eq!(store.get(1).unwrap().closed_at, Some(TODAY + 100));
}

#[test]
fn sync_through_the_clock_counts_and_drops() {
    let mut store = Storage::new();
    let mut judged = record(1, TODAY, 10);
    judged.suggestion = Some(verdict("keep", Some("work")));
    store.tabs.insert(1, judged);
    store.tabs.insert(2, record(2, TODAY, 10));
    let out = handle_sync(&mut store, &SyncPayload { tab_ids: vec![5] });
    assert_eq!(out.count, 2);
    assert_eq!(out.blob_ids, vec![2]);
    assert!(store.get(1).unwrap().closed_at.unwrap() > TODAY);
    assert_eq!(store.get(2), None);
}

#[test]
fn cleanup_evicts_what_was_closed_long_ago() {
    let now = TODAY;
    let mut store = Storage::new();
    let mut ten_days = record(1, 0, 1);
    ten_days.closed_at = Some(now - 10 * DAY);
    ten_days.snapshot = Some(TabSnapshot { screenshot_path: Some("1.jpg".to_string()), captured_at: 1 });
    store.tabs.insert(1, ten_days);
    let mut three_days = record(2, 0, 1);
    three_days.closed_at = Some(now - 3 * DAY);
    store.tabs.insert(2, three_days);
    let out = store.cleanup_old_tabs_at(7, now);
    assert_eq!(out.count, 1);
    assert_eq!(out.blob_ids, vec![1]);
    assert_eq!(store.get(1), None);
    assert_eq!(store.get(2).unwrap().closed_at, Some(now - 3 * DAY));
}

#[test]
fn cleanup_never_touches_open_tabs() {
    let now = TODAY;
    let mut store = Storage::new();
    store.tabs.insert(1, record(1, 0, 1));
    store.tabs.insert(2, record(2, i64::MIN, 1));
    let out = store.cleanup_old_tabs_at(0, now);
    assert_eq!(out.count, 0);
    assert!(out.blob_ids.is_empty());
    let out = store.cleanup_old_tabs_at(-100_000, i64::MAX);
    assert_eq!(out.count, 0);
    assert_eq!(store.get_stats(), (2, 2, 0));
}

#[test]
fn cleanup_cutoff_is_strict_and_never_overflows() {
    let now = TODAY;
    let mut store = Storage::new();
    let mut at_cutoff = record(1, 0, 1);
    at_cutoff.closed_at = Some(now - 7 * DAY);
    store.tabs.insert(1, at_cutoff);
    let mut just_before = record(2, 0, 1);
    just_before.closed_at = Some(now - 7 * DAY - 1);
    store.tabs.insert(2, just_before);
    assert_eq!(store.cleanup_old_tabs_at(i64::MAX, i64::MIN).count, 0);
    assert_eq!(store.cleanup_old_tabs_at(i64::MAX, now).count, 0);
    let out = store.cleanup_old_tabs_at(7, now);
    assert_eq!(out.blob_ids, vec![2]);
    assert!(store.get(1).is_some());
    let out = store.cleanup_old_tabs_at(i64::MIN, i64::MAX);
    assert_eq!(out.blob_ids, vec![1]);
    assert_eq!(store.get_stats(), (0, 0, 0));
}

#[test]
fn cleanup_through_the_clock_evicts_the_old() {
    let mut store = Storage::new();
    let mut old = record(1, 0, 1);
    old.closed_at = Some(1_000);
    store.tabs.insert(1, old);
    let mut future = record(2, 0, 1);
    future.closed_at = Some(i64::MAX);
    store.tabs.insert(2, future);
    store.tabs.insert(3, record(3, 0, 1));
    let out = store.cleanup_old_tabs(7);
    assert_eq!(out.count, 1);
    assert_eq!(out.blob_ids, vec![1]);
    assert_eq!(store.get_stats(), (2, 1, 1));
}

#[test]
fn handle_event_through_the_clock_merges_and_closes() {
    let mut store = Storage::new();
    assert_eq!(handle_event(&mut store, &event("created", tab(1, 5, 10), 6)), None);
    assert_eq!(store.get(1).unwrap().total_active_ms, 10);
    let op = handle_event(&mut store, &event("removed", tab(1, 5, 10), 7));
    assert_eq!(op, Some(BlobOp::Delete { id: 1 }));
    assert_eq!(store.get(1).unwrap().closed_at, Some(7));

    assert_eq!(handle_event(&mut store, &event("created", tab(2, i64::MAX, 10), 6)), None);
    assert_eq!(handle_event(&mut store, &event("removed", tab(2, 0, 0), 8)), None);
    assert_eq!(store.get(2).unwrap().closed_at, Some(8));
}
