//! The mathematical model of the tab store.
//!
//! Every executable type of the crate has a view in this module, and every
//! operation on the store is stated here as a function on those views. Text is
//! a sequence of characters, a timestamp is a count of milliseconds since the
//! Unix epoch, and the store itself is a map from tab identity to record.

use vstd::prelude::*;

verus! {

/// Text as the model sees it.
pub type Text = Seq<char>;

/// Model of the metadata of one captured snapshot.
pub struct SnapshotView {
    pub screenshot_path: Option<Text>,
    pub captured_at: i64,
}

/// Model of one classifier verdict.
pub struct SuggestionView {
    pub decision: Text,
    pub reason: Text,
    pub category: Option<Text>,
    pub digest: Option<Text>,
    pub scored_at: i64,
}

/// Model of the record kept for one tab identity.
pub struct RecordView {
    pub id: i64,
    pub window_id: Option<i64>,
    pub url: Option<Text>,
    pub title: Option<Text>,
    pub fav_icon_url: Option<Text>,
    pub created_at: i64,
    pub last_active_at: Option<i64>,
    pub total_active_ms: i64,
    pub is_active: bool,
    pub closed_at: Option<i64>,
    pub description: Option<Text>,
    pub snapshot: Option<SnapshotView>,
    pub suggestion: Option<SuggestionView>,
}

/// Model of the process-wide configuration.
pub struct SettingsView {
    pub openai_api_key: Option<Text>,
    pub base_url: Option<Text>,
    pub model: Option<Text>,
    pub user_context: Option<Text>,
    pub analyze_batch_size: Option<u32>,
}

/// Model of the daily report.
pub struct ReportView {
    pub date: Text,
    pub content: Text,
    pub generated_at: i64,
}

/// Model of the tab description that the browser sends with every message.
pub struct TabDataView {
    pub id: i64,
    pub window_id: Option<i64>,
    pub url: Option<Text>,
    pub title: Option<Text>,
    pub fav_icon_url: Option<Text>,
    pub created_at: i64,
    pub last_active_at: Option<i64>,
    pub total_active_ms: i64,
    pub is_active: bool,
    pub closed_at: Option<i64>,
    pub discarded: Option<bool>,
    pub last_screenshot_at: Option<i64>,
    pub description: Option<Text>,
}

/// The records of a store, keyed by tab identity.
pub type Records = Map<i64, RecordView>;

/// The larger of two accumulated active times.
pub open spec fn max_ms(a: i64, b: i64) -> i64 {
    if a >= b {
        a
    } else {
        b
    }
}

/// `incoming` where it is present, else `known`.
pub open spec fn prefer<T>(incoming: Option<T>, known: Option<T>) -> Option<T> {
    if incoming is Some {
        incoming
    } else {
        known
    }
}

impl RecordView {
    /// A record is open until it has been given a closing time.
    pub open spec fn is_open(self) -> bool {
        self.closed_at is None
    }

    /// A record without snapshot and without suggestion carries no history
    /// worth keeping.
    pub open spec fn is_bare(self) -> bool {
        self.snapshot is None && self.suggestion is None
    }

    /// The record was created or last active at or after `start_of_day`.
    pub open spec fn active_since(self, start_of_day: i64) -> bool {
        self.created_at >= start_of_day || (self.last_active_at matches Some(t) && t
            >= start_of_day)
    }

    /// The record is closed, and it was closed, active or created at or after
    /// `start_of_day`.
    pub open spec fn closed_since(self, start_of_day: i64) -> bool {
        self.closed_at matches Some(c) && (c >= start_of_day || self.active_since(start_of_day))
    }

    /// The record is closed and was closed before `cutoff`.
    pub open spec fn closed_before(self, cutoff: int) -> bool {
        self.closed_at matches Some(c) && c < cutoff
    }

    /// The record with its closing time set to `at`.
    pub open spec fn closed(self, at: i64) -> RecordView {
        RecordView { closed_at: Some(at), is_active: false, ..self }
    }

    /// The record with its suggestion replaced.
    pub open spec fn with_suggestion(self, suggestion: Option<SuggestionView>) -> RecordView {
        RecordView { suggestion, ..self }
    }
}

/// The record that a lifecycle message creates for a tab seen for the first
/// time.
pub open spec fn fresh_from_event(tab: TabDataView) -> RecordView {
    RecordView {
        id: tab.id,
        window_id: tab.window_id,
        url: tab.url,
        title: tab.title,
        fav_icon_url: tab.fav_icon_url,
        created_at: tab.created_at,
        last_active_at: tab.last_active_at,
        total_active_ms: max_ms(0, tab.total_active_ms),
        is_active: tab.is_active,
        closed_at: None,
        description: tab.description,
        snapshot: None,
        suggestion: None,
    }
}

/// The record `known` after a `created`, `updated` or `activated` message
/// about `tab` has been merged into it.
pub open spec fn merged_with_event(known: RecordView, tab: TabDataView) -> RecordView {
    RecordView {
        url: tab.url,
        title: tab.title,
        fav_icon_url: tab.fav_icon_url,
        last_active_at: tab.last_active_at,
        is_active: tab.is_active,
        description: prefer(tab.description, known.description),
        total_active_ms: max_ms(known.total_active_ms, tab.total_active_ms),
        ..known
    }
}

/// The record for `tab` after a lifecycle message, whether or not the tab was
/// known before.
pub open spec fn event_outcome(known: Option<RecordView>, tab: TabDataView) -> RecordView {
    match known {
        Some(r) => merged_with_event(r, tab),
        None => fresh_from_event(tab),
    }
}

/// The record that a capture creates for a tab seen for the first time.
pub open spec fn fresh_from_capture(tab: TabDataView, snapshot: SnapshotView) -> RecordView {
    RecordView { snapshot: Some(snapshot), ..fresh_from_event(tab) }
}

/// The record `known` after a capture of `tab` has been merged into it: the
/// fields merge as for a lifecycle message, and the snapshot metadata is
/// always replaced.
pub open spec fn merged_with_capture(
    known: RecordView,
    tab: TabDataView,
    snapshot: SnapshotView,
) -> RecordView {
    RecordView { snapshot: Some(snapshot), ..merged_with_event(known, tab) }
}

/// The record for `tab` after a capture, whether or not the tab was known
/// before.
pub open spec fn capture_outcome(
    known: Option<RecordView>,
    tab: TabDataView,
    snapshot: SnapshotView,
) -> RecordView {
    match known {
        Some(r) => merged_with_capture(r, tab, snapshot),
        None => fresh_from_capture(tab, snapshot),
    }
}

/// The record under `id`, if the store has one.
pub open spec fn lookup(records: Records, id: i64) -> Option<RecordView> {
    if records.contains_key(id) {
        Some(records[id])
    } else {
        None
    }
}

/// The store after a `created`, `updated` or `activated` message about `tab`.
pub open spec fn after_event(records: Records, tab: TabDataView) -> Records {
    records.insert(tab.id, event_outcome(lookup(records, tab.id), tab))
}

/// The store after a capture of `tab`.
pub open spec fn after_capture(records: Records, tab: TabDataView, snapshot: SnapshotView) -> Records {
    records.insert(tab.id, capture_outcome(lookup(records, tab.id), tab, snapshot))
}

/// The store after the tab `id` has been closed at `at`. Closing an unknown
/// tab changes nothing.
pub open spec fn after_close(records: Records, id: i64, at: i64) -> Records {
    if records.contains_key(id) {
        records.insert(id, records[id].closed(at))
    } else {
        records
    }
}

/// The store after the record of `id` has been given `suggestion`. An unknown
/// tab changes nothing.
pub open spec fn after_suggestion(records: Records, id: i64, suggestion: SuggestionView) -> Records {
    if records.contains_key(id) {
        records.insert(id, records[id].with_suggestion(Some(suggestion)))
    } else {
        records
    }
}

/// The store with the suggestions of the records of `ids` cleared.
pub open spec fn unjudged_among(records: Records, ids: Set<i64>) -> Records {
    Map::new(
        |id: i64| records.contains_key(id),
        |id: i64|
            if ids.contains(id) {
                records[id].with_suggestion(None)
            } else {
                records[id]
            },
    )
}

/// The store with every suggestion cleared.
pub open spec fn without_suggestions(records: Records) -> Records {
    unjudged_among(records, records.dom())
}

/// The store after a run of verdicts has been applied in order: a verdict
/// for an unknown tab is dropped, and of two verdicts for one tab the later
/// stands.
pub open spec fn after_verdicts(records: Records, verdicts: Seq<(i64, SuggestionView)>) -> Records
    decreases verdicts.len(),
{
    if verdicts.len() == 0 {
        records
    } else {
        after_suggestion(
            after_verdicts(records, verdicts.drop_last()),
            verdicts.last().0,
            verdicts.last().1,
        )
    }
}

/// What the user's wish to keep a tab reads as.
pub open spec fn keep_decision() -> Text {
    "keep"@
}

/// The reason recorded with the user's wish to keep a tab.
pub open spec fn keep_reason() -> Text {
    "Marked as keep by user"@
}

/// The verdict that stands for the user's wish to keep the tab of `r`: the
/// category known so far stays.
pub open spec fn keep_verdict(r: RecordView, now: i64) -> SuggestionView {
    SuggestionView {
        decision: keep_decision(),
        reason: keep_reason(),
        category: match r.suggestion {
            Some(s) => s.category,
            None => None,
        },
        digest: None,
        scored_at: now,
    }
}

/// The store after the user has asked to keep the tab `id`. An unknown tab
/// changes nothing.
pub open spec fn after_keep(records: Records, id: i64, now: i64) -> Records {
    if records.contains_key(id) {
        after_suggestion(records, id, keep_verdict(records[id], now))
    } else {
        records
    }
}

/// A condition on records, by which views and correction passes select.
pub enum Window {
    /// Every record.
    All,
    /// Records without a closing time.
    Open,
    /// Records created or last active at or after the instant.
    ActiveSince(i64),
    /// Closed records that were closed, active or created at or after the
    /// instant.
    ClosedSince(i64),
    /// Closed records whose closing time lies before the instant.
    ClosedBefore(int),
    /// Open records whose identity is missing from the set.
    Stale(Set<i64>),
    /// Open records that have no suggestion yet.
    Unjudged,
}

impl Window {
    /// Whether the window selects the record.
    pub open spec fn admits(self, r: RecordView) -> bool {
        match self {
            Window::All => true,
            Window::Open => r.is_open(),
            Window::ActiveSince(start) => r.active_since(start),
            Window::ClosedSince(start) => r.closed_since(start),
            Window::ClosedBefore(cutoff) => r.closed_before(cutoff),
            Window::Stale(open_ids) => r.is_open() && !open_ids.contains(r.id),
            Window::Unjudged => r.is_open() && r.suggestion is None,
        }
    }
}

/// The identities of the records that the window selects.
pub open spec fn selected(records: Records, window: Window) -> Set<i64> {
    Set::new(|id: i64| records.contains_key(id) && window.admits(records[id]))
}

/// `rows` holds the records of `ids`, each once, in some order.
pub open spec fn lists(rows: Seq<RecordView>, records: Records, ids: Set<i64>) -> bool {
    exists|keys: Seq<i64>|
        keys.no_duplicates() && keys.to_set() == ids && rows == #[trigger] rows_at(records, keys)
}

/// The records under `keys`, in the order of `keys`.
pub open spec fn rows_at(records: Records, keys: Seq<i64>) -> Seq<RecordView> {
    Seq::new(keys.len(), |j: int| records[keys[j]])
}

/// Milliseconds in `days` days.
pub open spec fn days_in_ms(days: int) -> int {
    days * 86_400_000
}

/// The instant before which a closed record is old enough to be evicted.
pub open spec fn retention_cutoff(now: i64, max_age_days: i64) -> int {
    now - days_in_ms(max_age_days as int)
}

/// The store without the records of `ids`.
pub open spec fn evicted(records: Records, ids: Set<i64>) -> Records {
    records.remove_keys(ids)
}

/// The store after age-based eviction: every record closed before the
/// cutoff is gone, and nothing else has changed.
pub open spec fn after_cleanup(records: Records, now: i64, max_age_days: i64) -> Records {
    evicted(records, selected(records, Window::ClosedBefore(retention_cutoff(now, max_age_days))))
}

/// The store after the records of `ids` have been corrected at `now`: a bare
/// record is dropped, any other is closed.
pub open spec fn corrected(records: Records, ids: Set<i64>, now: i64) -> Records {
    Map::new(
        |id: i64| records.contains_key(id) && !(ids.contains(id) && records[id].is_bare()),
        |id: i64|
            if ids.contains(id) {
                records[id].closed(now)
            } else {
                records[id]
            },
    )
}

/// The identities among `ids` whose record is bare.
pub open spec fn bare_among(records: Records, ids: Set<i64>) -> Set<i64> {
    Set::new(|id: i64| ids.contains(id) && records.contains_key(id) && records[id].is_bare())
}

/// The store after drift correction against the browser's list `open_ids`.
pub open spec fn after_reconcile(records: Records, open_ids: Set<i64>, now: i64) -> Records {
    corrected(records, selected(records, Window::Stale(open_ids)), now)
}

/// The identities that drift correction drops, and whose snapshot blob it
/// reclaims.
pub open spec fn dropped_by_reconcile(records: Records, open_ids: Set<i64>) -> Set<i64> {
    bare_among(records, selected(records, Window::Stale(open_ids)))
}

/// Every record is filed under its own identity.
pub open spec fn keyed_by_id(records: Records) -> bool {
    forall|id: i64| #[trigger] records.contains_key(id) ==> records[id].id == id
}

} // verus!
