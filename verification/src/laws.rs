//! What holds of the store whatever the browser sends: laws of the model,
//! each proved from the definitions that the contracts of the executable
//! functions use.

use crate::blob::{base64_decoded, blobs_after_maybe, blobs_without, capture_write, Blobs};
use crate::engine::{after_message, reclaim_on_message};
use crate::model::{
    after_capture, after_cleanup, after_close, after_keep, after_reconcile,
    after_suggestion, dropped_by_reconcile, keyed_by_id, max_ms, retention_cutoff, selected,
    without_suggestions, Records, SnapshotView, SuggestionView, TabDataView, Text, Window,
};
use crate::wire::EventKind;
use vstd::prelude::*;

verus! {

/// One thing that the browser can make the engine do to the records.
pub enum Step {
    /// A lifecycle message.
    Message { kind: EventKind, tab: TabDataView, timestamp: i64 },
    /// A capture, with the snapshot metadata that it leaves.
    Capture { tab: TabDataView, snapshot: SnapshotView },
}

impl Step {
    /// The tab that the step is about.
    pub open spec fn tab(self) -> TabDataView {
        match self {
            Step::Message { tab, .. } => tab,
            Step::Capture { tab, .. } => tab,
        }
    }

    /// Whether the step merges its tab into the record: a capture, or a
    /// `created`, `updated` or `activated` message.
    pub open spec fn merges(self) -> bool {
        match self {
            Step::Message { kind, .. } => kind == EventKind::Upsert,
            Step::Capture { .. } => true,
        }
    }
}

/// The store after one step.
pub open spec fn after_step(records: Records, step: Step) -> Records {
    match step {
        Step::Message { kind, tab, timestamp } => after_message(records, kind, tab, timestamp),
        Step::Capture { tab, snapshot } => after_capture(records, tab, snapshot),
    }
}

/// The store after a run of steps, in order.
pub open spec fn after_steps(records: Records, steps: Seq<Step>) -> Records
    decreases steps.len(),
{
    if steps.len() == 0 {
        records
    } else {
        after_step(after_steps(records, steps.drop_last()), steps.last())
    }
}

/// The active time known of `id` before anything is merged: that of its
/// record, or nothing.
pub open spec fn known_ms(records: Records, id: i64) -> i64 {
    if records.contains_key(id) {
        records[id].total_active_ms
    } else {
        0
    }
}

/// The active times that a run of steps supplies, in order.
pub open spec fn supplied_ms(steps: Seq<Step>) -> Seq<i64> {
    Seq::new(steps.len(), |j: int| steps[j].tab().total_active_ms)
}

/// The largest of `base` and `values`, taken one value after the other.
pub open spec fn peak(base: i64, values: Seq<i64>) -> i64
    decreases values.len(),
{
    if values.len() == 0 {
        base
    } else {
        max_ms(peak(base, values.drop_last()), values.last())
    }
}

/// Every step of the run merges the tab `id`.
pub open spec fn merges_of(steps: Seq<Step>, id: i64) -> bool {
    forall|j: int| 0 <= j < steps.len() ==> (#[trigger] steps[j]).merges() && steps[j].tab().id == id
}

/// `peak` is a maximum: no smaller than the base and than any value, and
/// itself the base or one of the values.
pub proof fn law_peak_is_maximum(base: i64, values: Seq<i64>)
    ensures
        peak(base, values) >= base,
        forall|j: int| 0 <= j < values.len() ==> peak(base, values) >= #[trigger] values[j],
        peak(base, values) == base || exists|j: int|
            0 <= j < values.len() && #[trigger] values[j] == peak(base, values),
    decreases values.len(),
{
    if values.len() > 0 {
        let front = values.drop_last();
        law_peak_is_maximum(base, front);
        assert forall|j: int| 0 <= j < values.len() implies peak(base, values)
            >= #[trigger] values[j] by {
            if j < front.len() {
                assert(front[j] == values[j]);
            }
        }
        if peak(base, values) != base {
            if peak(base, values) == values.last() {
                assert(values[values.len() - 1] == peak(base, values));
            } else {
                let j = choose|j: int| 0 <= j < front.len() && #[trigger] front[j] == peak(base, front);
                assert(values[j] == peak(base, values));
            }
        }
    }
}

/// The order in which the values arrive does not matter to `peak`.
pub proof fn law_peak_ignores_order(base: i64, a: Seq<i64>, b: Seq<i64>)
    requires
        a.to_multiset() == b.to_multiset(),
    ensures
        peak(base, a) == peak(base, b),
{
    broadcast use vstd::seq_lib::group_to_multiset_ensures;

    law_peak_is_maximum(base, a);
    law_peak_is_maximum(base, b);
    assert forall|x: i64| a.contains(x) == b.contains(x) by {
        assert(a.contains(x) == (a.to_multiset().count(x) > 0));
        assert(b.contains(x) == (b.to_multiset().count(x) > 0));
    }
    if peak(base, a) != base {
        let j = choose|j: int| 0 <= j < a.len() && #[trigger] a[j] == peak(base, a);
        assert(a.contains(a[j]));
        assert(b.contains(a[j]));
        let k = choose|k: int| 0 <= k < b.len() && b[k] == a[j];
        assert(peak(base, b) >= b[k]);
    }
    if peak(base, b) != base {
        let j = choose|j: int| 0 <= j < b.len() && #[trigger] b[j] == peak(base, b);
        assert(b.contains(b[j]));
        assert(a.contains(b[j]));
        let k = choose|k: int| 0 <= k < a.len() && a[k] == b[j];
        assert(peak(base, a) >= a[k]);
    }
}

/// After any run of merges of one tab, its record's active time is the
/// largest of what was known before and what the merges supplied.
pub proof fn law_active_time_is_peak(records: Records, id: i64, steps: Seq<Step>)
    requires
        merges_of(steps, id),
    ensures
        steps.len() > 0 ==> after_steps(records, steps).contains_key(id),
        known_ms(after_steps(records, steps), id) == peak(known_ms(records, id), supplied_ms(steps)),
    decreases steps.len(),
{
    if steps.len() > 0 {
        let front = steps.drop_last();
        assert(merges_of(front, id)) by {
            assert forall|j: int| 0 <= j < front.len() implies (#[trigger] front[j]).merges()
                && front[j].tab().id == id by {
                assert(front[j] == steps[j]);
            }
        }
        law_active_time_is_peak(records, id, front);
        assert(steps.last() == steps[steps.len() - 1]);
        assert(supplied_ms(steps).drop_last() =~= supplied_ms(front));
        assert(supplied_ms(steps).last() == steps.last().tab().total_active_ms);
        law_peak_is_maximum(known_ms(records, id), supplied_ms(front));
    }
}

/// Monotone active time. After any run of merges of one tab, in whatever
/// order they arrive, the record's active time is the maximum of the values
/// supplied, where one of them reaches what was known before (for a tab seen
/// for the first time: where one of them is not negative).
pub proof fn law_monotone_active_time(records: Records, id: i64, steps: Seq<Step>)
    requires
        merges_of(steps, id),
        exists|j: int| 0 <= j < steps.len() && #[trigger] supplied_ms(steps)[j] >= known_ms(records, id),
    ensures
        after_steps(records, steps).contains_key(id),
        forall|j: int|
            0 <= j < steps.len() ==> after_steps(records, steps)[id].total_active_ms
                >= #[trigger] supplied_ms(steps)[j],
        exists|j: int|
            0 <= j < steps.len() && #[trigger] supplied_ms(steps)[j] == after_steps(
                records,
                steps,
            )[id].total_active_ms,
        forall|other: Seq<Step>|
            merges_of(other, id) && supplied_ms(other).to_multiset() == supplied_ms(
                steps,
            ).to_multiset() ==> known_ms(#[trigger] after_steps(records, other), id)
                == after_steps(records, steps)[id].total_active_ms,
{
    let base = known_ms(records, id);
    let values = supplied_ms(steps);
    law_active_time_is_peak(records, id, steps);
    law_peak_is_maximum(base, values);
    let reached = choose|j: int| 0 <= j < steps.len() && #[trigger] supplied_ms(steps)[j] >= base;
    assert(peak(base, values) >= values[reached]);
    if peak(base, values) == base {
        assert(values[reached] == peak(base, values));
    }
    assert forall|other: Seq<Step>|
        merges_of(other, id) && supplied_ms(other).to_multiset() == supplied_ms(
            steps,
        ).to_multiset() implies known_ms(#[trigger] after_steps(records, other), id)
        == after_steps(records, steps)[id].total_active_ms by {
        law_active_time_is_peak(records, id, other);
        law_peak_ignores_order(base, supplied_ms(other), values);
    }
}

/// A merge never lowers the active time of a record.
pub proof fn law_active_time_never_shrinks(records: Records, step: Step, id: i64)
    requires
        records.contains_key(id),
    ensures
        after_step(records, step).contains_key(id),
        after_step(records, step)[id].total_active_ms >= records[id].total_active_ms,
{
}

/// Closed is terminal, one step: a record that has a closing time has one
/// after any lifecycle message and any capture.
pub proof fn law_closed_stays_closed(records: Records, step: Step, id: i64)
    requires
        records.contains_key(id),
        !records[id].is_open(),
    ensures
        after_step(records, step).contains_key(id),
        !after_step(records, step)[id].is_open(),
{
}

/// Closed is terminal: a record that has a closing time has one after any
/// run of lifecycle messages and captures.
pub proof fn law_closed_is_terminal(records: Records, steps: Seq<Step>, id: i64)
    requires
        records.contains_key(id),
        !records[id].is_open(),
    ensures
        after_steps(records, steps).contains_key(id),
        !after_steps(records, steps)[id].is_open(),
    decreases steps.len(),
{
    if steps.len() > 0 {
        law_closed_is_terminal(records, steps.drop_last(), id);
        law_closed_stays_closed(after_steps(records, steps.drop_last()), steps.last(), id);
    }
}

/// Description non-erasure, one step: a step that brings no description
/// leaves the description of every record as it was.
pub proof fn law_description_kept(records: Records, step: Step, id: i64)
    requires
        records.contains_key(id),
        step.tab().description is None,
    ensures
        after_step(records, step).contains_key(id),
        after_step(records, step)[id].description == records[id].description,
{
}

/// Description non-erasure: a record that has a description has one after
/// any run of lifecycle messages and captures.
pub proof fn law_description_never_erased(records: Records, steps: Seq<Step>, id: i64)
    requires
        records.contains_key(id),
        records[id].description is Some,
    ensures
        after_steps(records, steps).contains_key(id),
        after_steps(records, steps)[id].description is Some,
    decreases steps.len(),
{
    if steps.len() > 0 {
        law_description_never_erased(records, steps.drop_last(), id);
    }
}

/// Snapshot and suggestion survive every lifecycle message.
pub proof fn law_message_keeps_history(
    records: Records,
    kind: EventKind,
    tab: TabDataView,
    timestamp: i64,
    id: i64,
)
    requires
        records.contains_key(id),
    ensures
        after_message(records, kind, tab, timestamp).contains_key(id),
        after_message(records, kind, tab, timestamp)[id].snapshot == records[id].snapshot,
        after_message(records, kind, tab, timestamp)[id].suggestion == records[id].suggestion,
        after_message(records, kind, tab, timestamp)[id].created_at == records[id].created_at,
{
}

/// The snapshot that the latest capture with a screenshot that decodes
/// leaves behind, if there is one.
pub open spec fn latest_decoded(screenshots: Seq<Option<Text>>) -> Option<Seq<u8>>
    decreases screenshots.len(),
{
    if screenshots.len() == 0 {
        None
    } else {
        match screenshots.last() {
            Some(text) => match base64_decoded(text) {
                Some(bytes) => Some(bytes),
                None => latest_decoded(screenshots.drop_last()),
            },
            None => latest_decoded(screenshots.drop_last()),
        }
    }
}

/// The snapshot store after a run of captures of the tab `id`, each with
/// its screenshot payload or none.
pub open spec fn blobs_after_captures(blobs: Blobs, id: i64, screenshots: Seq<Option<Text>>) -> Blobs
    decreases screenshots.len(),
{
    if screenshots.len() == 0 {
        blobs
    } else {
        blobs_after_maybe(
            blobs_after_captures(blobs, id, screenshots.drop_last()),
            capture_write(id, screenshots.last()),
        )
    }
}

/// At most one blob per tab. After any run of captures of one tab, the
/// snapshot store holds for that tab the bytes of the latest screenshot that
/// decoded, and nothing else has changed; where none decoded, nothing has
/// changed at all.
pub proof fn law_one_blob_per_tab(blobs: Blobs, id: i64, screenshots: Seq<Option<Text>>)
    ensures
        blobs_after_captures(blobs, id, screenshots) == match latest_decoded(screenshots) {
            Some(bytes) => blobs.insert(id, bytes),
            None => blobs,
        },
    decreases screenshots.len(),
{
    if screenshots.len() > 0 {
        let front = screenshots.drop_last();
        law_one_blob_per_tab(blobs, id, front);
        let mid = blobs_after_captures(blobs, id, front);
        match capture_write(id, screenshots.last()) {
            Some(op) => {
                let bytes = base64_decoded(screenshots.last()->0)->0;
                assert(mid.insert(id, bytes) =~= blobs.insert(id, bytes));
            },
            None => {},
        }
    }
}

/// Drift idempotence: a second correction against the same list finds
/// nothing stale, drops nothing, and leaves the store as the first left it.
pub proof fn law_drift_idempotent(records: Records, open_ids: Set<i64>, first: i64, second: i64)
    ensures
        selected(after_reconcile(records, open_ids, first), Window::Stale(open_ids))
            == Set::<i64>::empty(),
        dropped_by_reconcile(after_reconcile(records, open_ids, first), open_ids)
            == Set::<i64>::empty(),
        after_reconcile(after_reconcile(records, open_ids, first), open_ids, second)
            == after_reconcile(records, open_ids, first),
{
    let once = after_reconcile(records, open_ids, first);
    assert(selected(once, Window::Stale(open_ids)) =~= Set::<i64>::empty());
    assert(dropped_by_reconcile(once, open_ids) =~= Set::<i64>::empty());
    assert(after_reconcile(once, open_ids, second) =~= once);
}

/// Drift correction leaves alone every record that is closed already, and
/// every open record that the browser still lists.
pub proof fn law_drift_touches_only_stale(records: Records, open_ids: Set<i64>, now: i64, id: i64)
    requires
        records.contains_key(id),
        !records[id].is_open() || open_ids.contains(records[id].id),
    ensures
        after_reconcile(records, open_ids, now).contains_key(id),
        after_reconcile(records, open_ids, now)[id] == records[id],
{
}

/// Retention safety: age-based eviction never removes and never changes an
/// open record, whatever the age limit and the instant.
pub proof fn law_retention_safety(records: Records, now: i64, max_age_days: i64, id: i64)
    requires
        records.contains_key(id),
        records[id].is_open(),
    ensures
        after_cleanup(records, now, max_age_days).contains_key(id),
        after_cleanup(records, now, max_age_days)[id] == records[id],
{
}

/// Age-based eviction removes exactly the records closed before the
/// cutoff, and changes none of those it keeps.
pub proof fn law_retention_exact(records: Records, now: i64, max_age_days: i64, id: i64)
    requires
        records.contains_key(id),
    ensures
        after_cleanup(records, now, max_age_days).contains_key(id) <==> !(records[id].closed_at
            matches Some(c) && c < now - max_age_days * 86_400_000),
        after_cleanup(records, now, max_age_days).contains_key(id) ==> after_cleanup(
            records,
            now,
            max_age_days,
        )[id] == records[id],
{
}

/// Eviction is idempotent: a second pass with the same limit at the same
/// instant finds nothing to remove.
pub proof fn law_retention_idempotent(records: Records, now: i64, max_age_days: i64)
    ensures
        after_cleanup(after_cleanup(records, now, max_age_days), now, max_age_days)
            == after_cleanup(records, now, max_age_days),
{
    let once = after_cleanup(records, now, max_age_days);
    assert(after_cleanup(once, now, max_age_days) =~= once);
}

/// Every blob belongs to a record.
pub open spec fn no_orphans(records: Records, blobs: Blobs) -> bool {
    blobs.dom().subset_of(records.dom())
}

/// Where every blob belongs to a record, it still does after eviction, once
/// the blobs of the evicted records have been deleted.
pub proof fn law_cleanup_leaves_no_orphans(
    records: Records,
    blobs: Blobs,
    now: i64,
    max_age_days: i64,
)
    requires
        no_orphans(records, blobs),
    ensures
        no_orphans(
            after_cleanup(records, now, max_age_days),
            blobs_without(
                blobs,
                selected(records, Window::ClosedBefore(retention_cutoff(now, max_age_days))),
            ),
        ),
{
}

/// Where every blob belongs to a record, it still does after drift
/// correction, once the blobs of the dropped records have been deleted.
pub proof fn law_reconcile_leaves_no_orphans(
    records: Records,
    blobs: Blobs,
    open_ids: Set<i64>,
    now: i64,
)
    requires
        no_orphans(records, blobs),
    ensures
        no_orphans(
            after_reconcile(records, open_ids, now),
            blobs_without(blobs, dropped_by_reconcile(records, open_ids)),
        ),
{
}

/// Where every blob belongs to a record, it still does after a lifecycle
/// message, once the blob work that the message asks for has been done.
pub proof fn law_message_leaves_no_orphans(
    records: Records,
    blobs: Blobs,
    kind: EventKind,
    tab: TabDataView,
    timestamp: i64,
    start_of_day: i64,
)
    requires
        no_orphans(records, blobs),
    ensures
        no_orphans(
            after_message(records, kind, tab, timestamp),
            blobs_after_maybe(blobs, reclaim_on_message(records, kind, tab.id, start_of_day)),
        ),
{
}

/// Where every blob belongs to a record, it still does after a capture,
/// once its screenshot has been written.
pub proof fn law_capture_leaves_no_orphans(
    records: Records,
    blobs: Blobs,
    tab: TabDataView,
    snapshot: SnapshotView,
    screenshot: Option<Text>,
)
    requires
        no_orphans(records, blobs),
    ensures
        no_orphans(
            after_capture(records, tab, snapshot),
            blobs_after_maybe(blobs, capture_write(tab.id, screenshot)),
        ),
{
}

/// One record per identity: where every record is filed under its own
/// identity, it still is after any step of the engine.
pub proof fn law_step_keeps_identity(records: Records, step: Step)
    requires
        keyed_by_id(records),
    ensures
        keyed_by_id(after_step(records, step)),
{
}

/// One record per identity, through the correction passes and the user's
/// actions.
pub proof fn law_passes_keep_identity(
    records: Records,
    open_ids: Set<i64>,
    now: i64,
    max_age_days: i64,
    id: i64,
    verdict: SuggestionView,
)
    requires
        keyed_by_id(records),
    ensures
        keyed_by_id(after_reconcile(records, open_ids, now)),
        keyed_by_id(after_cleanup(records, now, max_age_days)),
        keyed_by_id(after_close(records, id, now)),
        keyed_by_id(after_suggestion(records, id, verdict)),
        keyed_by_id(after_keep(records, id, now)),
        keyed_by_id(without_suggestions(records)),
{
}

} // verus!
