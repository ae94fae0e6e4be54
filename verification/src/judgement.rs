//! How the classifier's verdicts and the user's own wishes reach the
//! records.

use crate::clock::now_millis;
use crate::model::{
    after_keep, after_verdicts, rows_at, selected, unjudged_among, without_suggestions,
    SuggestionView, Text, Window,
};
use crate::record::{copy_text, text_of, TabRecord, TabSuggestion};
use crate::ids::{lemma_prefix_step, lemma_prefix_whole, prefix_set};
use crate::storage::{views, Filter, Storage};
use vstd::prelude::*;
use vstd::string::StringExecFns;

verus! {

broadcast use vstd::std_specs::hash::group_hash_axioms;

/// One entry of the classifier's answer.
#[derive(Debug, PartialEq, Eq)]
pub struct SuggestionItem {
    pub tab_id: i64,
    pub category: Option<String>,
    pub decision: String,
    pub reason: String,
    pub digest: Option<String>,
}

/// Model of one entry of the classifier's answer.
pub struct ItemView {
    pub tab_id: i64,
    pub category: Option<Text>,
    pub decision: Text,
    pub reason: Text,
    pub digest: Option<Text>,
}

impl View for SuggestionItem {
    type V = ItemView;

    open spec fn view(&self) -> ItemView {
        ItemView {
            tab_id: self.tab_id,
            category: text_of(self.category),
            decision: self.decision@,
            reason: self.reason@,
            digest: text_of(self.digest),
        }
    }
}

/// The verdict that an entry of the classifier's answer stands for, scored
/// at `now`.
pub open spec fn verdict_of(item: ItemView, now: i64) -> (i64, SuggestionView) {
    (
        item.tab_id,
        SuggestionView {
            decision: item.decision,
            reason: item.reason,
            category: item.category,
            digest: item.digest,
            scored_at: now,
        },
    )
}

/// The models of a run of verdicts.
pub open spec fn verdict_views(verdicts: Seq<(i64, TabSuggestion)>) -> Seq<(i64, SuggestionView)> {
    Seq::new(verdicts.len(), |j: int| (verdicts[j].0, verdicts[j].1@))
}

/// The verdicts that the classifier's answer stands for, in its order, all
/// scored at `now`.
pub fn verdicts_from_items(items: &Vec<SuggestionItem>, now: i64) -> (r: Vec<(i64, TabSuggestion)>)
    ensures
        verdict_views(r@) == Seq::new(items@.len(), |j: int| verdict_of(items@[j]@, now)),
{
    let mut out: Vec<(i64, TabSuggestion)> = Vec::new();
    for i in 0..items.len()
        invariant
            out@.len() == i,
            forall|j: int|
                0 <= j < i ==> ((#[trigger] out@[j]).0, out@[j].1@) == verdict_of(items@[j]@, now),
    {
        let item = &items[i];
        let verdict = TabSuggestion {
            decision: item.decision.clone(),
            reason: item.reason.clone(),
            category: copy_text(&item.category),
            digest: copy_text(&item.digest),
            scored_at: now,
        };
        out.push((item.tab_id, verdict));
    }
    assert(verdict_views(out@) =~= Seq::new(items@.len(), |j: int| verdict_of(items@[j]@, now)));
    out
}

impl Storage {
    /// Applies a run of verdicts in order. A verdict for an unknown tab is
    /// dropped, and of two verdicts for one tab the later stands.
    pub fn apply_suggestions(&mut self, verdicts: &Vec<(i64, TabSuggestion)>)
        ensures
            final(self).records() == after_verdicts(old(self).records(), verdict_views(verdicts@)),
            final(self).config() == old(self).config(),
    {
        let ghost all = verdict_views(verdicts@);
        let ghost before = self.records();
        for i in 0..verdicts.len()
            invariant
                all == verdict_views(verdicts@),
                self.records() == after_verdicts(before, all.take(i as int)),
                self.config() == old(self).config(),
        {
            proof {
                assert(all.take(i + 1).drop_last() =~= all.take(i as int));
                assert(all.take(i + 1).last() == all[i as int]);
            }
            let id = verdicts[i].0;
            let verdict = verdicts[i].1.clone();
            self.update_suggestion(id, verdict);
        }
        assert(all.take(verdicts@.len() as int) =~= all);
    }

    /// Records the user's wish to keep the tab `tab_id`, at the instant
    /// `now`. The category known so far stays. An unknown tab is left alone.
    pub fn mark_keep_at(&mut self, tab_id: i64, now: i64)
        ensures
            final(self).records() == after_keep(old(self).records(), tab_id, now),
            final(self).config() == old(self).config(),
    {
        let category = match self.tabs.get(&tab_id) {
            Some(rec) => match &rec.suggestion {
                Some(s) => copy_text(&s.category),
                None => None,
            },
            None => None,
        };
        let verdict = TabSuggestion {
            decision: String::from_str("keep"),
            reason: String::from_str("Marked as keep by user"),
            category,
            digest: None,
            scored_at: now,
        };
        self.update_suggestion(tab_id, verdict);
    }

    /// Records the user's wish to keep the tab `tab_id`, at the current
    /// instant.
    pub fn mark_keep(&mut self, tab_id: i64)
        ensures
            exists|now: i64|
                final(self).records() == #[trigger] after_keep(old(self).records(), tab_id, now),
            final(self).config() == old(self).config(),
    {
        let now = now_millis();
        self.mark_keep_at(tab_id, now);
    }

    /// Clears the suggestion of every record.
    pub fn clear_suggestions(&mut self)
        ensures
            final(self).records() == without_suggestions(old(self).records()),
            final(self).config() == old(self).config(),
    {
        let ids = self.ids();
        let ghost before = self.records();
        for i in 0..ids.len()
            invariant
                ids@.no_duplicates(),
                ids@.to_set() == before.dom(),
                self.records() == unjudged_among(before, prefix_set(ids@, i as int)),
                self.config() == old(self).config(),
        {
            let id = ids[i];
            proof {
                lemma_prefix_step(ids@, i as int);
                assert(ids@.to_set().contains(id));
            }
            let ghost earlier = self.records();
            match self.tabs.remove(&id) {
                Some(rec) => {
                    let mut rec = rec;
                    rec.suggestion = None;
                    self.tabs.insert(id, rec);
                    assert(self.records() =~= earlier.insert(id, earlier[id].with_suggestion(None)));
                },
                None => {},
            }
            assert(self.records() =~= unjudged_among(before, prefix_set(ids@, i + 1)));
        }
        proof {
            lemma_prefix_whole(ids@);
        }
    }

    /// Up to `limit` of the open records that have no suggestion yet: the
    /// next batch for the classifier.
    pub fn unanalyzed_batch(&self, limit: usize) -> (r: Vec<TabRecord>)
        ensures
            exists|keys: Seq<i64>|
                {
                    &&& keys.no_duplicates()
                    &&& keys.to_set().subset_of(selected(self.records(), Window::Unjudged))
                    &&& views(r@) == #[trigger] rows_at(self.records(), keys)
                },
            r@.len() == if limit <= selected(self.records(), Window::Unjudged).len() {
                limit as int
            } else {
                selected(self.records(), Window::Unjudged).len() as int
            },
    {
        let mut keys = self.ids_where(&Filter::Unjudged);
        let ghost found = keys@;
        proof {
            found.unique_seq_to_set();
        }
        if keys.len() > limit {
            keys.truncate(limit);
        }
        proof {
            assert forall|j: int| 0 <= j < keys@.len() implies self.records().contains_key(
                #[trigger] keys@[j],
            ) by {
                assert(keys@[j] == found[j]);
                assert(found.to_set().contains(found[j]));
            }
            assert forall|id: i64| keys@.to_set().contains(id) implies selected(
                self.records(),
                Window::Unjudged,
            ).contains(id) by {
                let j = choose|j: int| 0 <= j < keys@.len() && keys@[j] == id;
                assert(found.to_set().contains(found[j]));
            }
        }
        let out = self.rows(&keys);
        assert(views(out@).len() == keys@.len());
        out
    }
}

} // verus!
