use tabstore::judgement::{verdicts_from_items, SuggestionItem};
use tabstore::record::{TabRecord, TabSuggestion};
use tabstore::storage::Storage;

fn plain(id: i64, closed_at: Option<i64>, suggestion: Option<TabSuggestion>) -> TabRecord {
    TabRecord {
        id,
        window_id: None,
        url: None,
        title: None,
        fav_icon_url: None,
        created_at: 1,
        last_active_at: None,
        total_active_ms: 0,
        is_active: false,
        closed_at,
        description: None,
        snapshot: None,
        suggestion,
    }
}

fn judged(decision: &str, category: Option<&str>, scored_at: i64) -> TabSuggestion {
    TabSuggestion {
        decision: decision.to_string(),
        reason: format!("why {}", decision),
        category: category.map(|c| c.to_string()),
        digest: Some("short".to_string()),
        scored_at,
    }
}

fn item(tab_id: i64, decision: &str) -> SuggestionItem {
    SuggestionItem {
        tab_id,
        category: Some("work".to_string()),
        decision: decision.to_string(),
        reason: format!("why {}", decision),
        digest: Some("short".to_string()),
    }
}

#[test]
fn items_become_verdicts_scored_now() {
    let items = vec![item(1, "keep"), item(2, "close")];
    let verdicts = verdicts_from_items(&items, 55);
    assert_eq!(
        verdicts,
        vec![(1, judged("keep", Some("work"), 55)), (2, judged("close", Some("work"), 55))]
    );
    assert!(verdicts_from_items(&Vec::new(), 55).is_empty());
}

#[test]
fn verdicts_reach_known_tabs_and_the_later_one_stands() {
    let mut store = Storage::new();
    store.tabs.insert(1, plain(1, None, None));
    store.tabs.insert(2, plain(2, Some(4), Some(judged("unsure", None, 1))));
    store.apply_suggestions(&vec![
        (1, judged("keep", Some("work"), 9)),
        (7, judged("close", None, 9)),
        (2, judged("close", Some("shopping"), 9)),
        (1, judged("close", Some("research"), 9)),
    ]);
    assert_eq!(store.get(1).unwrap().suggestion, Some(judged("close", Some("research"), 9)));
    assert_eq!(store.get(2).unwrap().suggestion, Some(judged("close", Some("shopping"), 9)));
    assert_eq!(store.get(2).unwrap().closed_at, Some(4));
    assert_eq!(store.get(7), None);
    assert_eq!(store.get_stats(), (2, 1, 1));
}

#[test]
fn applying_no_verdicts_changes_nothing() {
    let mut store = Storage::new();
    store.tabs.insert(1, plain(1, None, Some(judged("keep", None, 1))));
    store.apply_suggestions(&Vec::new());
    assert_eq!(store.get(1), Some(plain(1, None, Some(judged("keep", None, 1)))));
}

#[test]
fn mark_keep_preserves_the_category() {
    let mut store = Storage::new();
    store.tabs.insert(1, plain(1, None, Some(judged("close", Some("shopping"), 1))));
    store.tabs.insert(2, plain(2, None, None));
    store.mark_keep_at(1, 500);
    store.mark_keep_at(2, 501);
    store.mark_keep_at(3, 502);
    assert_eq!(
        store.get(1).unwrap().suggestion,
        Some(TabSuggestion {
            decision: "keep".to_string(),
            reason: "Marked as keep by user".to_string(),
            category: Some("shopping".to_string()),
            digest: None,
            scored_at: 500,
        })
    );
    assert_eq!(
        store.get(2).unwrap().suggestion,
        Some(TabSuggestion {
            decision: "keep".to_string(),
            reason: "Marked as keep by user".to_string(),
            category: None,
            digest: None,
            scored_at: 501,
        })
    );
    assert_eq!(store.get(3), None);
}

#[test]
fn mark_keep_through_the_clock_scores_now() {
    let mut store = Storage::new();
    store.tabs.insert(1, plain(1, None, None));
    store.mark_keep(1);
    let s = store.get(1).unwrap().suggestion.unwrap();
    assert_eq!(s.decision, "keep");
    assert!(s.scored_at > 1_700_000_000_000);
}

#[test]
fn clear_suggestions_clears_all_and_nothing_else() {
    let mut store = Storage::new();
    store.tabs.insert(1, plain(1, None, Some(judged("close", Some("shopping"), 1))));
    store.tabs.insert(2, plain(2, Some(3), Some(judged("keep", None, 1))));
    store.tabs.insert(3, plain(3, None, None));
    store.clear_suggestions();
    assert_eq!(store.get(1), Some(plain(1, None, None)));
    assert_eq!(store.get(2), Some(plain(2, Some(3), None)));
    assert_eq!(store.get(3), Some(plain(3, None, None)));
}

#[test]
fn unanalyzed_batch_takes_open_tabs_without_suggestion() {
    let mut store = Storage::new();
    store.tabs.insert(1, plain(1, None, None));
    store.tabs.insert(2, plain(2, None, Some(judged("keep", None, 1))));
    store.tabs.insert(3, plain(3, Some(5), None));
    store.tabs.insert(4, plain(4, None, None));
    store.tabs.insert(5, plain(5, None, None));
    let all = store.unanalyzed_batch(10);
    let mut ids: Vec<i64> = all.iter().map(|r| r.id).collect();
    ids.sort();
    assert_eq!(ids, vec![1, 4, 5]);
    let two = store.unanalyzed_batch(2);
    assert_eq!(two.len(), 2);
    assert!(two[0].id != two[1].id);
    for r in &two {
        assert!(r.closed_at.is_none() && r.suggestion.is_none());
        assert_eq!(Some(r.clone()), store.get(r.id));
    }
    assert!(store.unanalyzed_batch(0).is_empty());
    assert_eq!(store.unanalyzed_batch(3).len(), 3);
}
