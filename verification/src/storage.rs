//! The tab record store: one record per tab identity, with the views that
//! read it and the simple changes to single records.

use crate::blob::{BlobOp, BlobOpView};
use crate::clock::{now_millis, start_of_today, today_text};
use crate::ids::{lemma_prefix_step, lemma_prefix_whole, lemma_push_new, prefix_set};
use crate::model::{
    after_close, after_suggestion, lists, lookup, rows_at, selected, RecordView, Records,
    ReportView, SettingsView, Window,
};
use crate::record::{TabRecord, TabSuggestion};
use crate::settings::{default_settings, report_of, DailyReport, Settings};
use std::collections::HashMap;
use std::collections::HashSet;
use vstd::prelude::*;
use vstd::std_specs::hash::spec_keys_iter;
use vstd::std_specs::iter::IteratorSpec;

verus! {

broadcast use vstd::std_specs::hash::group_hash_axioms;

/// The models of a run of records.
pub open spec fn views(rows: Seq<TabRecord>) -> Seq<RecordView> {
    Seq::new(rows.len(), |j: int| rows[j]@)
}

/// The identities among `ids` whose record the window selects.
pub open spec fn selected_among(records: Records, window: Window, ids: Set<i64>) -> Set<i64> {
    Set::new(|id: i64| ids.contains(id) && records.contains_key(id) && window.admits(records[id]))
}

/// A condition on records, in executable form.
pub(crate) enum Filter<'a> {
    All,
    Open,
    ActiveSince(i64),
    ClosedSince(i64),
    ClosedBefore(i128),
    Stale(&'a HashSet<i64>),
    Unjudged,
}

impl<'a> Filter<'a> {
    pub(crate) open spec fn window(&self) -> Window {
        match self {
            Filter::All => Window::All,
            Filter::Open => Window::Open,
            Filter::ActiveSince(start) => Window::ActiveSince(*start),
            Filter::ClosedSince(start) => Window::ClosedSince(*start),
            Filter::ClosedBefore(cutoff) => Window::ClosedBefore(*cutoff as int),
            Filter::Stale(open_ids) => Window::Stale(open_ids@),
            Filter::Unjudged => Window::Unjudged,
        }
    }

    pub(crate) fn admits(&self, r: &TabRecord) -> (b: bool)
        ensures
            b == self.window().admits(r@),
    {
        match self {
            Filter::All => true,
            Filter::Open => r.closed_at.is_none(),
            Filter::ActiveSince(start) => active_since(r, *start),
            Filter::ClosedSince(start) => match r.closed_at {
                Some(c) => c >= *start || active_since(r, *start),
                None => false,
            },
            Filter::ClosedBefore(cutoff) => match r.closed_at {
                Some(c) => (c as i128) < *cutoff,
                None => false,
            },
            Filter::Stale(open_ids) => r.closed_at.is_none() && !open_ids.contains(&r.id),
            Filter::Unjudged => r.closed_at.is_none() && r.suggestion.is_none(),
        }
    }
}

/// Whether the record was created or last active at or after `start_of_day`.
pub fn active_since(r: &TabRecord, start_of_day: i64) -> (b: bool)
    ensures
        b == r@.active_since(start_of_day),
{
    r.created_at >= start_of_day || match r.last_active_at {
        Some(t) => t >= start_of_day,
        None => false,
    }
}

/// The store: the records by tab identity, the settings, and the last
/// report.
pub struct Storage {
    pub tabs: HashMap<i64, TabRecord>,
    pub settings: Settings,
    pub report: Option<DailyReport>,
}

impl Storage {
    /// The records of the store, as the model sees them.
    pub open spec fn records(&self) -> Records {
        self.tabs@.map_values(|r: TabRecord| r@)
    }

    /// The settings and the report, as the model sees them.
    pub open spec fn config(&self) -> (SettingsView, Option<ReportView>) {
        (self.settings@, report_of(self.report))
    }

    /// An empty store with the settings of a fresh installation.
    pub fn new() -> (r: Self)
        ensures
            r.records() == Map::<i64, RecordView>::empty(),
            r.settings@ == default_settings(),
            r.report is None,
    {
        let r = Storage { tabs: HashMap::new(), settings: Settings::default(), report: None };
        assert(r.records() =~= Map::<i64, RecordView>::empty());
        r
    }

    /// The identities of the tabs in the store, in the order in which the
    /// table yields them.
    pub fn ids(&self) -> (r: Vec<i64>)
        ensures
            r@.no_duplicates(),
            r@.to_set() == self.records().dom(),
    {
        let mut out: Vec<i64> = Vec::new();
        for k in it: self.tabs.keys()
            invariant
                it.seq() == spec_keys_iter(&self.tabs).remaining(),
                out@.len() == it.index(),
                forall|j: int| 0 <= j < out@.len() ==> out@[j] == *it.seq()[j],
        {
            out.push(*k);
        }
        proof {
            let keys = spec_keys_iter(&self.tabs).remaining();
            assert(out@ =~= keys.unref());
            assert(self.records().dom() =~= self.tabs@.dom());
        }
        out
    }

    /// The identities that the filter selects, each once.
    pub(crate) fn ids_where(&self, filter: &Filter<'_>) -> (r: Vec<i64>)
        ensures
            r@.no_duplicates(),
            r@.to_set() == selected(self.records(), filter.window()),
    {
        let all = self.ids();
        let mut out: Vec<i64> = Vec::new();
        assert(out@.to_set() =~= selected_among(
            self.records(),
            filter.window(),
            prefix_set(all@, 0),
        ));
        for i in 0..all.len()
            invariant
                all@.no_duplicates(),
                all@.to_set() == self.records().dom(),
                out@.no_duplicates(),
                out@.to_set() == selected_among(
                    self.records(),
                    filter.window(),
                    prefix_set(all@, i as int),
                ),
        {
            let id = all[i];
            proof {
                lemma_prefix_step(all@, i as int);
                assert(all@.to_set().contains(id));
            }
            let found = self.tabs.get(&id);
            let rec = found.unwrap();
            let ghost earlier = out@;
            if filter.admits(rec) {
                out.push(id);
                proof {
                    lemma_push_new(earlier, id);
                }
            }
            assert(out@.to_set() =~= selected_among(
                self.records(),
                filter.window(),
                prefix_set(all@, i + 1),
            ));
        }
        proof {
            lemma_prefix_whole(all@);
            assert(out@.to_set() =~= selected(self.records(), filter.window()));
        }
        out
    }

    /// Copies of the records under `keys`, in the order of `keys`.
    pub(crate) fn rows(&self, keys: &Vec<i64>) -> (r: Vec<TabRecord>)
        requires
            forall|j: int| 0 <= j < keys@.len() ==> self.records().contains_key(#[trigger] keys@[j]),
        ensures
            views(r@) == rows_at(self.records(), keys@),
    {
        let mut out: Vec<TabRecord> = Vec::new();
        for i in 0..keys.len()
            invariant
                forall|j: int|
                    0 <= j < keys@.len() ==> self.records().contains_key(#[trigger] keys@[j]),
                out@.len() == i,
                forall|j: int| 0 <= j < i ==> (#[trigger] out@[j])@ == self.records()[keys@[j]],
        {
            let id = keys[i];
            assert(self.records().contains_key(keys@[i as int]));
            let found = self.tabs.get(&id);
            let rec = found.unwrap();
            out.push(rec.clone());
        }
        assert(views(out@) =~= rows_at(self.records(), keys@));
        out
    }

    /// Copies of the records that the filter selects.
    pub(crate) fn collect(&self, filter: &Filter<'_>) -> (r: Vec<TabRecord>)
        ensures
            lists(views(r@), self.records(), selected(self.records(), filter.window())),
    {
        let keys = self.ids_where(filter);
        proof {
            assert forall|j: int| 0 <= j < keys@.len() implies self.records().contains_key(
                #[trigger] keys@[j],
            ) by {
                assert(keys@.to_set().contains(keys@[j]));
            }
        }
        let out = self.rows(&keys);
        assert(views(out@) == rows_at(self.records(), keys@));
        out
    }

    /// The record of `id`, if the store has one.
    pub fn get(&self, id: i64) -> (r: Option<TabRecord>)
        ensures
            match r {
                Some(rec) => lookup(self.records(), id) == Some(rec@),
                None => lookup(self.records(), id) is None,
            },
    {
        match self.tabs.get(&id) {
            Some(rec) => Some(rec.clone()),
            None => None,
        }
    }

    /// Every record of the store, in no particular order.
    pub fn all(&self) -> (r: Vec<TabRecord>)
        ensures
            lists(views(r@), self.records(), self.records().dom()),
    {
        let out = self.collect(&Filter::All);
        assert(selected(self.records(), Window::All) =~= self.records().dom());
        out
    }

    /// The records without a closing time.
    pub fn get_open_tabs(&self) -> (r: Vec<TabRecord>)
        ensures
            lists(views(r@), self.records(), selected(self.records(), Window::Open)),
    {
        self.collect(&Filter::Open)
    }

    /// The records created or last active at or after `start_of_day`.
    pub fn today_tabs_since(&self, start_of_day: i64) -> (r: Vec<TabRecord>)
        ensures
            lists(
                views(r@),
                self.records(),
                selected(self.records(), Window::ActiveSince(start_of_day)),
            ),
    {
        self.collect(&Filter::ActiveSince(start_of_day))
    }

    /// The records created or last active today, by the local calendar. The
    /// start of the day is read once, before the scan.
    pub fn get_today_tabs(&self) -> (r: Vec<TabRecord>)
        ensures
            exists|start_of_day: i64|
                lists(
                    views(r@),
                    self.records(),
                    #[trigger] selected(self.records(), Window::ActiveSince(start_of_day)),
                ),
    {
        let start = start_of_today();
        self.today_tabs_since(start)
    }

    /// The closed records that were closed, active or created at or after
    /// `start_of_day`.
    pub fn today_closed_tabs_since(&self, start_of_day: i64) -> (r: Vec<TabRecord>)
        ensures
            lists(
                views(r@),
                self.records(),
                selected(self.records(), Window::ClosedSince(start_of_day)),
            ),
    {
        self.collect(&Filter::ClosedSince(start_of_day))
    }

    /// The closed records that were closed, active or created today, by the
    /// local calendar. The start of the day is read once, before the scan.
    pub fn get_today_closed_tabs(&self) -> (r: Vec<TabRecord>)
        ensures
            exists|start_of_day: i64|
                lists(
                    views(r@),
                    self.records(),
                    #[trigger] selected(self.records(), Window::ClosedSince(start_of_day)),
                ),
    {
        let start = start_of_today();
        self.today_closed_tabs_since(start)
    }
    /// Forgets every record and the report; the settings stay. Asks for
    /// every snapshot blob to be deleted.
    pub fn clear(&mut self) -> (r: BlobOp)
        ensures
            final(self).records() == Map::<i64, RecordView>::empty(),
            final(self).report is None,
            final(self).settings == old(self).settings,
            r@ == BlobOpView::DeleteAll,
    {
        self.tabs.clear();
        self.report = None;
        assert(self.records() =~= Map::<i64, RecordView>::empty());
        BlobOp::DeleteAll
    }

    /// Keeps `content` as the report of the day `date`, generated at `now`,
    /// in place of any earlier report, and returns a copy of it.
    pub fn store_report_at(&mut self, content: String, date: String, now: i64) -> (r: DailyReport)
        ensures
            r@ == (ReportView { date: date@, content: content@, generated_at: now }),
            report_of(final(self).report) == Some(r@),
            final(self).records() == old(self).records(),
            final(self).settings == old(self).settings,
    {
        let report = DailyReport { date, content, generated_at: now };
        let copy = report.clone();
        self.report = Some(report);
        copy
    }

    /// Keeps `content` as the report of the current day, in place of any
    /// earlier report, and returns a copy of it.
    pub fn store_report(&mut self, content: String) -> (r: DailyReport)
        ensures
            r@.content == content@,
            report_of(final(self).report) == Some(r@),
            final(self).records() == old(self).records(),
            final(self).settings == old(self).settings,
    {
        let date = today_text();
        let now = now_millis();
        self.store_report_at(content, date, now)
    }

    /// Removes the record of `id`. Says whether there was one.
    pub fn remove(&mut self, id: i64) -> (r: bool)
        ensures
            r == old(self).records().contains_key(id),
            final(self).records() == old(self).records().remove(id),
            final(self).config() == old(self).config(),
    {
        let gone = self.tabs.remove(&id);
        assert(self.records() =~= old(self).records().remove(id));
        gone.is_some()
    }

    /// Closes the tab `tab_id` at the instant `now`. An unknown tab is left
    /// alone.
    pub fn close_tab_at(&mut self, tab_id: i64, now: i64)
        ensures
            final(self).records() == after_close(old(self).records(), tab_id, now),
            final(self).config() == old(self).config(),
    {
        match self.tabs.remove(&tab_id) {
            Some(rec) => {
                let mut rec = rec;
                rec.closed_at = Some(now);
                rec.is_active = false;
                self.tabs.insert(tab_id, rec);
            },
            None => {},
        }
        assert(self.records() =~= after_close(old(self).records(), tab_id, now));
    }

    /// Closes the tab `tab_id` at the current instant.
    pub fn close_tab(&mut self, tab_id: i64)
        ensures
            exists|now: i64|
                final(self).records() == #[trigger] after_close(old(self).records(), tab_id, now),
            final(self).config() == old(self).config(),
    {
        let now = now_millis();
        self.close_tab_at(tab_id, now);
    }

    /// Replaces the suggestion of the tab `tab_id`. An unknown tab is left
    /// alone.
    pub fn update_suggestion(&mut self, tab_id: i64, suggestion: TabSuggestion)
        ensures
            final(self).records() == after_suggestion(old(self).records(), tab_id, suggestion@),
            final(self).config() == old(self).config(),
    {
        match self.tabs.remove(&tab_id) {
            Some(rec) => {
                let mut rec = rec;
                rec.suggestion = Some(suggestion);
                self.tabs.insert(tab_id, rec);
            },
            None => {},
        }
        assert(self.records() =~= after_suggestion(old(self).records(), tab_id, suggestion@));
    }

    /// How many records the store holds, how many of them are open, and how
    /// many closed.
    pub fn get_stats(&self) -> (r: (usize, usize, usize))
        ensures
            r.0 == self.records().dom().len(),
            r.1 == selected(self.records(), Window::Open).len(),
            r.2 == r.0 - r.1,
    {
        let total = self.tabs.len();
        let open = self.ids_where(&Filter::Open);
        proof {
            assert(self.records().dom() =~= self.tabs@.dom());
            open@.unique_seq_to_set();
            vstd::set_lib::lemma_len_subset(
                selected(self.records(), Window::Open),
                self.records().dom(),
            );
        }
        (total, open.len(), total - open.len())
    }
}

} // verus!
