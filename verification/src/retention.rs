//! The two correction passes over the store: age-based eviction of closed
//! records, and drift correction against the browser's list of open tabs.

use crate::clock::now_millis;
use crate::model::{
    after_cleanup, after_reconcile, bare_among, corrected, dropped_by_reconcile, evicted,
    retention_cutoff, selected, Window,
};
use crate::ids::{id_table, lemma_prefix_step, lemma_prefix_whole, lemma_push_new, prefix_set};
use crate::storage::{Filter, Storage};
use vstd::prelude::*;

verus! {

broadcast use vstd::std_specs::hash::group_hash_axioms;

/// What a correction pass did: how many records it touched, and the
/// identities whose snapshot blob the caller has to delete.
#[derive(Debug, PartialEq, Eq)]
pub struct Reclaimed {
    pub count: usize,
    pub blob_ids: Vec<i64>,
}

impl Storage {
    /// Age-based eviction at the instant `now`: removes every record that was
    /// closed more than `days_old` days before `now`, and nothing else. The
    /// blobs of the removed records are the caller's to delete.
    pub fn cleanup_old_tabs_at(&mut self, days_old: i64, now: i64) -> (r: Reclaimed)
        ensures
            final(self).records() == after_cleanup(old(self).records(), now, days_old),
            r.blob_ids@.no_duplicates(),
            r.blob_ids@.to_set() == selected(
                old(self).records(),
                Window::ClosedBefore(retention_cutoff(now, days_old)),
            ),
            r.count == r.blob_ids@.len(),
            final(self).config() == old(self).config(),
    {
        let cutoff: i128 = now as i128 - (days_old as i128) * 86_400_000;
        let doomed = self.ids_where(&Filter::ClosedBefore(cutoff));
        let ghost before = self.records();
        for i in 0..doomed.len()
            invariant
                doomed@.no_duplicates(),
                self.records() == evicted(before, prefix_set(doomed@, i as int)),
                self.config() == old(self).config(),
        {
            proof {
                lemma_prefix_step(doomed@, i as int);
            }
            let ghost earlier = self.records();
            self.tabs.remove(&doomed[i]);
            assert(self.records() =~= earlier.remove(doomed@[i as int]));
            assert(self.records() =~= evicted(before, prefix_set(doomed@, i + 1)));
        }
        proof {
            lemma_prefix_whole(doomed@);
        }
        Reclaimed { count: doomed.len(), blob_ids: doomed }
    }

    /// Age-based eviction at the current instant.
    pub fn cleanup_old_tabs(&mut self, days_old: i64) -> (r: Reclaimed)
        ensures
            exists|now: i64|
                {
                    &&& final(self).records() == #[trigger] after_cleanup(
                        old(self).records(),
                        now,
                        days_old,
                    )
                    &&& r.blob_ids@.to_set() == selected(
                        old(self).records(),
                        Window::ClosedBefore(retention_cutoff(now, days_old)),
                    )
                },
            r.blob_ids@.no_duplicates(),
            r.count == r.blob_ids@.len(),
            final(self).config() == old(self).config(),
    {
        let now = now_millis();
        self.cleanup_old_tabs_at(days_old, now)
    }

    /// Drift correction at the instant `now`: every open record whose
    /// identity the browser no longer lists is dropped when it is bare, and
    /// closed at `now` otherwise. Counts the records touched, and names the
    /// dropped ones, whose blobs are the caller's to delete.
    pub fn sync_with_chrome_tabs_at(&mut self, chrome_tab_ids: &[i64], now: i64) -> (r: Reclaimed)
        ensures
            final(self).records() == after_reconcile(
                old(self).records(),
                chrome_tab_ids@.to_set(),
                now,
            ),
            r.count == selected(
                old(self).records(),
                Window::Stale(chrome_tab_ids@.to_set()),
            ).len(),
            r.blob_ids@.no_duplicates(),
            r.blob_ids@.to_set() == dropped_by_reconcile(
                old(self).records(),
                chrome_tab_ids@.to_set(),
            ),
            final(self).config() == old(self).config(),
    {
        let listed = id_table(chrome_tab_ids);
        let stale = self.ids_where(&Filter::Stale(&listed));
        let ghost before = self.records();
        let mut dropped: Vec<i64> = Vec::new();
        for i in 0..stale.len()
            invariant
                stale@.no_duplicates(),
                stale@.to_set() == selected(before, Window::Stale(chrome_tab_ids@.to_set())),
                self.records() == corrected(before, prefix_set(stale@, i as int), now),
                dropped@.no_duplicates(),
                dropped@.to_set() == bare_among(before, prefix_set(stale@, i as int)),
                self.config() == old(self).config(),
        {
            let id = stale[i];
            proof {
                lemma_prefix_step(stale@, i as int);
                assert(stale@.to_set().contains(id));
            }
            let ghost earlier = self.records();
            let ghost earlier_dropped = dropped@;
            proof {
                assert(before.contains_key(id));
                assert(earlier.contains_key(id) && earlier[id] == before[id]);
                assert(self.tabs@.contains_key(id));
                assert(!earlier_dropped.to_set().contains(id));
            }
            match self.tabs.remove(&id) {
                Some(rec) => {
                    assert(rec@ == before[id]);
                    if rec.snapshot.is_none() && rec.suggestion.is_none() {
                        dropped.push(id);
                        proof {
                            lemma_push_new(earlier_dropped, id);
                        }
                        assert(self.records() =~= earlier.remove(id));
                    } else {
                        let mut rec = rec;
                        rec.closed_at = Some(now);
                        rec.is_active = false;
                        self.tabs.insert(id, rec);
                        assert(!before[id].is_bare());
                        assert(self.records() =~= earlier.insert(id, earlier[id].closed(now)));
                        assert(dropped@.to_set() =~= bare_among(before, prefix_set(stale@, i + 1)));
                    }
                },
                None => {},
            }
            assert(self.records() =~= corrected(before, prefix_set(stale@, i + 1), now));
            assert(dropped@.to_set() =~= bare_among(before, prefix_set(stale@, i + 1)));
        }
        proof {
            lemma_prefix_whole(stale@);
            stale@.unique_seq_to_set();
        }
        Reclaimed { count: stale.len(), blob_ids: dropped }
    }

    /// Drift correction at the current instant.
    pub fn sync_with_chrome_tabs(&mut self, chrome_tab_ids: &[i64]) -> (r: Reclaimed)
        ensures
            exists|now: i64|
                final(self).records() == #[trigger] after_reconcile(
                    old(self).records(),
                    chrome_tab_ids@.to_set(),
                    now,
                ),
            r.count == selected(
                old(self).records(),
                Window::Stale(chrome_tab_ids@.to_set()),
            ).len(),
            r.blob_ids@.no_duplicates(),
            r.blob_ids@.to_set() == dropped_by_reconcile(
                old(self).records(),
                chrome_tab_ids@.to_set(),
            ),
            final(self).config() == old(self).config(),
    {
        let now = now_millis();
        self.sync_with_chrome_tabs_at(chrome_tab_ids, now)
    }
}

} // verus!
