//! The reconciliation engine: how lifecycle messages, captures and the
//! browser's list of open tabs change the store.

use crate::blob::{capture_write, op_of, BlobOp, BlobOpView};
use crate::clock::start_of_today;
use crate::model::{
    after_capture, after_close, after_event, after_reconcile, dropped_by_reconcile,
    fresh_from_event, max_ms, merged_with_event, selected, Records, SnapshotView, TabDataView,
    Window,
};
use crate::record::{copy_text, text_of, TabRecord, TabSnapshot};
use crate::retention::Reclaimed;
use crate::storage::{active_since, Storage};
use crate::wire::{event_kind, kind_of, CapturePayload, EventKind, SyncPayload, TabData, TabEvent};
use vstd::prelude::*;

verus! {

broadcast use vstd::std_specs::hash::group_hash_axioms;

/// The larger of two accumulated active times.
pub fn larger_ms(a: i64, b: i64) -> (r: i64)
    ensures
        r == max_ms(a, b),
{
    if a >= b {
        a
    } else {
        b
    }
}

/// The record for a tab that the store sees for the first time.
pub fn fresh_record(tab: &TabData) -> (r: TabRecord)
    ensures
        r@ == fresh_from_event(tab@),
{
    TabRecord {
        id: tab.id,
        window_id: tab.window_id,
        url: copy_text(&tab.url),
        title: copy_text(&tab.title),
        fav_icon_url: copy_text(&tab.fav_icon_url),
        created_at: tab.created_at,
        last_active_at: tab.last_active_at,
        total_active_ms: larger_ms(0, tab.total_active_ms),
        is_active: tab.is_active,
        closed_at: None,
        description: copy_text(&tab.description),
        snapshot: None,
        suggestion: None,
    }
}

/// Merges what the browser says of a tab into the record known so far: the
/// descriptive fields follow the browser, a description is only ever
/// replaced by another, the active time never shrinks, and identity,
/// window, creation, closing, snapshot and suggestion stay.
pub fn merge_event(known: TabRecord, tab: &TabData) -> (r: TabRecord)
    ensures
        r@ == merged_with_event(known@, tab@),
{
    let mut rec = known;
    rec.url = copy_text(&tab.url);
    rec.title = copy_text(&tab.title);
    rec.fav_icon_url = copy_text(&tab.fav_icon_url);
    rec.last_active_at = tab.last_active_at;
    rec.is_active = tab.is_active;
    if tab.description.is_some() {
        rec.description = copy_text(&tab.description);
    }
    rec.total_active_ms = larger_ms(rec.total_active_ms, tab.total_active_ms);
    rec
}

/// The store after a lifecycle message of the given kind.
pub open spec fn after_message(
    records: Records,
    kind: EventKind,
    tab: TabDataView,
    timestamp: i64,
) -> Records {
    match kind {
        EventKind::Upsert => after_event(records, tab),
        EventKind::Removed => after_close(records, tab.id, timestamp),
        EventKind::Ignored => records,
    }
}

/// The blob work that a lifecycle message asks for: when a tab is removed
/// whose record has not been active since `start_of_day`, its blob goes.
pub open spec fn reclaim_on_message(
    records: Records,
    kind: EventKind,
    id: i64,
    start_of_day: i64,
) -> Option<BlobOpView> {
    if kind == EventKind::Removed && records.contains_key(id) && !records[id].active_since(
        start_of_day,
    ) {
        Some(BlobOpView::Delete { id })
    } else {
        None
    }
}

impl Storage {
    /// Merges a tab into its record, or creates the record.
    pub fn upsert_tab(&mut self, tab: &TabData)
        ensures
            final(self).records() == after_event(old(self).records(), tab@),
            final(self).config() == old(self).config(),
    {
        let rec = match self.tabs.remove(&tab.id) {
            Some(known) => merge_event(known, tab),
            None => fresh_record(tab),
        };
        self.tabs.insert(tab.id, rec);
        assert(self.records() =~= after_event(old(self).records(), tab@));
    }

    /// Merges a captured tab into its record, or creates the record, and
    /// replaces the snapshot metadata.
    pub fn record_capture(&mut self, tab: &TabData, snapshot: TabSnapshot)
        ensures
            final(self).records() == after_capture(old(self).records(), tab@, snapshot@),
            final(self).config() == old(self).config(),
    {
        let mut rec = match self.tabs.remove(&tab.id) {
            Some(known) => merge_event(known, tab),
            None => fresh_record(tab),
        };
        rec.snapshot = Some(snapshot);
        self.tabs.insert(tab.id, rec);
        assert(self.records() =~= after_capture(old(self).records(), tab@, snapshot@));
    }
}

/// Applies a lifecycle message, with the day's window starting at
/// `start_of_day`. Returns the blob work that the message asks for.
pub fn handle_event_at(storage: &mut Storage, event: &TabEvent, start_of_day: i64) -> (r: Option<
    BlobOp,
>)
    ensures
        final(storage).records() == after_message(
            old(storage).records(),
            kind_of(event.event_type@),
            event.tab@,
            event.timestamp,
        ),
        op_of(r) == reclaim_on_message(
            old(storage).records(),
            kind_of(event.event_type@),
            event.tab.id,
            start_of_day,
        ),
        final(storage).config() == old(storage).config(),
{
    match event_kind(event.event_type.as_str()) {
        EventKind::Upsert => {
            storage.upsert_tab(&event.tab);
            None
        },
        EventKind::Removed => {
            let id = event.tab.id;
            let stale = match storage.tabs.get(&id) {
                Some(rec) => !active_since(rec, start_of_day),
                None => false,
            };
            storage.close_tab_at(id, event.timestamp);
            if stale {
                Some(storage.delete_screenshot(id))
            } else {
                None
            }
        },
        EventKind::Ignored => None,
    }
}

/// Applies a lifecycle message, with the day's window starting at local
/// midnight.
pub fn handle_event(storage: &mut Storage, event: &TabEvent) -> (r: Option<BlobOp>)
    ensures
        final(storage).records() == after_message(
            old(storage).records(),
            kind_of(event.event_type@),
            event.tab@,
            event.timestamp,
        ),
        exists|start_of_day: i64|
            op_of(r) == #[trigger] reclaim_on_message(
                old(storage).records(),
                kind_of(event.event_type@),
                event.tab.id,
                start_of_day,
            ),
        final(storage).config() == old(storage).config(),
{
    let start = start_of_today();
    handle_event_at(storage, event, start)
}

/// The first step of a capture: the write that its screenshot asks for.
/// There is none where the capture carries no screenshot, or one that does
/// not decode; the capture goes on without a blob then.
pub fn plan_capture(storage: &Storage, payload: &CapturePayload) -> (r: Option<BlobOp>)
    ensures
        op_of(r) == capture_write(payload.tab.id, text_of(payload.screenshot_base64)),
{
    match &payload.screenshot_base64 {
        Some(data) => match storage.save_screenshot(payload.tab.id, data.as_str()) {
            Ok(op) => Some(op),
            Err(_) => None,
        },
        None => None,
    }
}

/// The second step of a capture, after the caller has tried the write:
/// merges the tab into its record and replaces the snapshot metadata.
/// `screenshot_path` is where the blob was stored, or `None` where nothing
/// was stored.
pub fn handle_capture(
    storage: &mut Storage,
    payload: &CapturePayload,
    screenshot_path: Option<String>,
)
    ensures
        final(storage).records() == after_capture(
            old(storage).records(),
            payload.tab@,
            SnapshotView {
                screenshot_path: text_of(screenshot_path),
                captured_at: payload.captured_at,
            },
        ),
        final(storage).config() == old(storage).config(),
{
    let snapshot = TabSnapshot { screenshot_path, captured_at: payload.captured_at };
    storage.record_capture(&payload.tab, snapshot);
}

/// Drift correction against the browser's list, at the current instant.
pub fn handle_sync(storage: &mut Storage, payload: &SyncPayload) -> (r: Reclaimed)
    ensures
        exists|now: i64|
            final(storage).records() == #[trigger] after_reconcile(
                old(storage).records(),
                payload.tab_ids@.to_set(),
                now,
            ),
        r.count == selected(
            old(storage).records(),
            Window::Stale(payload.tab_ids@.to_set()),
        ).len(),
        r.blob_ids@.no_duplicates(),
        r.blob_ids@.to_set() == dropped_by_reconcile(
            old(storage).records(),
            payload.tab_ids@.to_set(),
        ),
        final(storage).config() == old(storage).config(),
{
    storage.sync_with_chrome_tabs(payload.tab_ids.as_slice())
}

} // verus!
