//! The messages that the browser sends.

use crate::model::{TabDataView, Text};
use crate::record::text_of;
use vstd::prelude::*;
use vstd::string::StringExecFns;

verus! {

/// The browser's description of one tab, as carried by every message.
#[derive(Debug, PartialEq, Eq)]
pub struct TabData {
    pub id: i64,
    pub window_id: Option<i64>,
    pub url: Option<String>,
    pub title: Option<String>,
    pub fav_icon_url: Option<String>,
    pub created_at: i64,
    pub last_active_at: Option<i64>,
    pub total_active_ms: i64,
    pub is_active: bool,
    pub closed_at: Option<i64>,
    /// Whether the browser discarded the tab to save memory.
    pub discarded: Option<bool>,
    /// When the browser last took a screenshot of the tab.
    pub last_screenshot_at: Option<i64>,
    /// Text extracted from the page.
    pub description: Option<String>,
}

impl View for TabData {
    type V = TabDataView;

    open spec fn view(&self) -> TabDataView {
        TabDataView {
            id: self.id,
            window_id: self.window_id,
            url: text_of(self.url),
            title: text_of(self.title),
            fav_icon_url: text_of(self.fav_icon_url),
            created_at: self.created_at,
            last_active_at: self.last_active_at,
            total_active_ms: self.total_active_ms,
            is_active: self.is_active,
            closed_at: self.closed_at,
            discarded: self.discarded,
            last_screenshot_at: self.last_screenshot_at,
            description: text_of(self.description),
        }
    }
}

/// A full capture of a tab, with an optional screenshot as base64 text.
#[derive(Debug, PartialEq, Eq)]
pub struct CapturePayload {
    pub tab: TabData,
    pub screenshot_base64: Option<String>,
    pub captured_at: i64,
}

/// A lifecycle message about a tab.
#[derive(Debug, PartialEq, Eq)]
pub struct TabEvent {
    pub event_type: String,
    pub tab: TabData,
    pub timestamp: i64,
}

/// The browser's list of the tabs that are open right now.
#[derive(Debug, PartialEq, Eq)]
pub struct SyncPayload {
    pub tab_ids: Vec<i64>,
}

/// What a lifecycle message asks for.
#[derive(Debug, Clone, Copy, PartialEq, Eq, Structural)]
pub enum EventKind {
    /// `created`, `updated` or `activated`: merge the tab into its record.
    Upsert,
    /// `removed`: close the record.
    Removed,
    /// Anything else: nothing to do.
    Ignored,
}

/// The kind of the message whose type field reads `name`.
pub open spec fn kind_of(name: Text) -> EventKind {
    if name == "created"@ || name == "updated"@ || name == "activated"@ {
        EventKind::Upsert
    } else if name == "removed"@ {
        EventKind::Removed
    } else {
        EventKind::Ignored
    }
}

/// Whether two pieces of text read the same.
pub fn same_text(a: &str, b: &str) -> (r: bool)
    ensures
        r == (a@ == b@),
{
    let x = String::from_str(a);
    let y = String::from_str(b);
    x == y
}

/// Reads the type field of a lifecycle message.
pub fn event_kind(name: &str) -> (r: EventKind)
    ensures
        r == kind_of(name@),
{
    if same_text(name, "created") || same_text(name, "updated") || same_text(name, "activated") {
        EventKind::Upsert
    } else if same_text(name, "removed") {
        EventKind::Removed
    } else {
        EventKind::Ignored
    }
}

} // verus!
