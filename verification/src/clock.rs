//! The two instants that the store asks the machine for: now, and the start
//! of the local day.
//!
//! Nothing is known of either beyond its type, so every operation that
//! depends on one of them has a twin that takes the instant as an argument
//! and says exactly what it does with it.

use vstd::prelude::*;

verus! {

/// The system clock, read through `chrono::Utc::now` and
/// `DateTime::timestamp_millis`: milliseconds since the Unix epoch. The
/// contract claims nothing of the value. The clock must not stand before the
/// epoch.
#[verifier::external_body]
fn utc_now_millis() -> i64 {
    chrono::Utc::now().timestamp_millis()
}

/// Local midnight of the current day, through `chrono::Local::now`,
/// `TimeZone::from_local_datetime` and `MappedLocalTime::single`, in
/// milliseconds since the Unix epoch; `None` where the local calendar has no
/// midnight today, or two. The contract claims nothing of the value.
#[verifier::external_body]
fn local_midnight_millis() -> Option<i64> {
    let midnight = chrono::Local::now().date_naive().and_time(chrono::NaiveTime::MIN);
    let mapped = chrono::TimeZone::from_local_datetime(&chrono::Local, &midnight);
    match mapped.single() {
        Some(t) => Some(t.timestamp_millis()),
        None => None,
    }
}

/// The local date of the current day, through `chrono::Local::now` and
/// `DateTime::format` with the pattern `%Y-%m-%d`. The contract claims
/// nothing of the text.
#[verifier::external_body]
fn local_date_text() -> String {
    chrono::Local::now().format("%Y-%m-%d").to_string()
}

/// The start of the day's window, given what the calendar said of local
/// midnight: that instant, or the epoch where there is none, so that
/// nothing is taken for old by mistake.
pub open spec fn window_start(midnight: Option<i64>) -> i64 {
    match midnight {
        Some(t) => t,
        None => 0,
    }
}

/// The start of the day's window for a given answer of the calendar.
pub fn day_start_from(midnight: Option<i64>) -> (r: i64)
    ensures
        r == window_start(midnight),
{
    match midnight {
        Some(t) => t,
        None => 0,
    }
}

/// The current instant, in milliseconds since the Unix epoch.
pub fn now_millis() -> i64 {
    utc_now_millis()
}

/// The current local date, as year, month and day.
pub fn today_text() -> String {
    local_date_text()
}

/// The start of the current local day, in milliseconds since the Unix epoch.
pub fn start_of_today() -> i64 {
    day_start_from(local_midnight_millis())
}

} // verus!
