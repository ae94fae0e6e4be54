//! The records that the store keeps, one per tab identity.

use crate::model::{RecordView, SnapshotView, SuggestionView, Text};
use vstd::prelude::*;

verus! {

/// The model of an optional piece of text.
pub open spec fn text_of(s: Option<String>) -> Option<Text> {
    match s {
        Some(t) => Some(t@),
        None => None,
    }
}

/// A copy of an optional piece of text.
pub fn copy_text(s: &Option<String>) -> (r: Option<String>)
    ensures
        r == *s,
        text_of(r) == text_of(*s),
{
    match s {
        Some(t) => Some(t.clone()),
        None => None,
    }
}

/// Metadata of the latest snapshot captured for a tab.
#[derive(Debug, PartialEq, Eq)]
pub struct TabSnapshot {
    pub screenshot_path: Option<String>,
    pub captured_at: i64,
}

impl View for TabSnapshot {
    type V = SnapshotView;

    open spec fn view(&self) -> SnapshotView {
        SnapshotView {
            screenshot_path: text_of(self.screenshot_path),
            captured_at: self.captured_at,
        }
    }
}

impl Clone for TabSnapshot {
    fn clone(&self) -> (r: Self)
        ensures
            r == *self,
            r@ == self@,
    {
        TabSnapshot {
            screenshot_path: copy_text(&self.screenshot_path),
            captured_at: self.captured_at,
        }
    }
}

/// The classifier's verdict on a tab.
#[derive(Debug, PartialEq, Eq)]
pub struct TabSuggestion {
    pub decision: String,
    pub reason: String,
    pub category: Option<String>,
    pub digest: Option<String>,
    pub scored_at: i64,
}

impl View for TabSuggestion {
    type V = SuggestionView;

    open spec fn view(&self) -> SuggestionView {
        SuggestionView {
            decision: self.decision@,
            reason: self.reason@,
            category: text_of(self.category),
            digest: text_of(self.digest),
            scored_at: self.scored_at,
        }
    }
}

impl Clone for TabSuggestion {
    fn clone(&self) -> (r: Self)
        ensures
            r == *self,
            r@ == self@,
    {
        TabSuggestion {
            decision: self.decision.clone(),
            reason: self.reason.clone(),
            category: copy_text(&self.category),
            digest: copy_text(&self.digest),
            scored_at: self.scored_at,
        }
    }
}

/// The model of an optional snapshot.
pub open spec fn snapshot_of(s: Option<TabSnapshot>) -> Option<SnapshotView> {
    match s {
        Some(t) => Some(t@),
        None => None,
    }
}

/// The model of an optional suggestion.
pub open spec fn suggestion_of(s: Option<TabSuggestion>) -> Option<SuggestionView> {
    match s {
        Some(t) => Some(t@),
        None => None,
    }
}

/// Everything the store knows about one tab identity.
#[derive(Debug, PartialEq, Eq)]
pub struct TabRecord {
    pub id: i64,
    pub window_id: Option<i64>,
    pub url: Option<String>,
    pub title: Option<String>,
    pub fav_icon_url: Option<String>,
    pub created_at: i64,
    pub last_active_at: Option<i64>,
    pub total_active_ms: i64,
    pub is_active: bool,
    pub closed_at: Option<i64>,
    /// Text extracted from the page.
    pub description: Option<String>,
    pub snapshot: Option<TabSnapshot>,
    pub suggestion: Option<TabSuggestion>,
}

impl View for TabRecord {
    type V = RecordView;

    open spec fn view(&self) -> RecordView {
        RecordView {
            id: self.id,
            window_id: self.window_id,
            url: text_of(self.url),
            title: text_of(self.title),
            fav_icon_url: text_of(self.fav_icon_url),
            created_at: self.created_at,
            last_active_at: self.last_active_at,
            total_active_ms: self.total_active_ms,
            is_active: self.is_active,
            closed_at: self.closed_at,
            description: text_of(self.description),
            snapshot: snapshot_of(self.snapshot),
            suggestion: suggestion_of(self.suggestion),
        }
    }
}

impl Clone for TabRecord {
    fn clone(&self) -> (r: Self)
        ensures
            r == *self,
            r@ == self@,
    {
        TabRecord {
            id: self.id,
            window_id: self.window_id,
            url: copy_text(&self.url),
            title: copy_text(&self.title),
            fav_icon_url: copy_text(&self.fav_icon_url),
            created_at: self.created_at,
            last_active_at: self.last_active_at,
            total_active_ms: self.total_active_ms,
            is_active: self.is_active,
            closed_at: self.closed_at,
            description: copy_text(&self.description),
            snapshot: match &self.snapshot {
                Some(s) => Some(s.clone()),
                None => None,
            },
            suggestion: match &self.suggestion {
                Some(s) => Some(s.clone()),
                None => None,
            },
        }
    }
}

} // verus!
