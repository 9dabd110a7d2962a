//! When the dashboard reloads its kild list: a slow poll (fast when file
//! watching is unavailable), and a debounced reload after file events.
use vstd::prelude::*;

verus! {

/// Poll interval, in milliseconds, while the file watcher runs.
pub const POLL_INTERVAL_MS: u64 = 60_000;

/// Poll interval, in milliseconds, when file watching is unavailable.
pub const FAST_POLL_INTERVAL_MS: u64 = 5_000;

/// Least time, in milliseconds, between two reloads caused by file events.
pub const DEBOUNCE_INTERVAL_MS: u64 = 100;

/// How often, in milliseconds, the watcher is checked for events.
pub const WATCH_CHECK_MS: u64 = 50;

/// The poll interval: slow with a file watcher, fast without one.
pub fn poll_interval_ms(has_watcher: bool) -> (r: u64)
    ensures
        r == (if has_watcher { POLL_INTERVAL_MS } else { FAST_POLL_INTERVAL_MS }),
{
    if has_watcher {
        POLL_INTERVAL_MS
    } else {
        FAST_POLL_INTERVAL_MS
    }
}

/// One check of the file watcher: `pending` tells whether events seen
/// earlier still await a reload, `events_seen` whether new ones arrived,
/// and `since_reload_ms` how long ago the last reload was. Returns whether
/// to reload now, and whether events still await one afterwards: a reload
/// happens when events await and more than the debounce interval has
/// passed, and then nothing awaits.
pub fn watcher_tick(pending: bool, events_seen: bool, since_reload_ms: u64) -> (r: (bool, bool))
    ensures
        r.0 == ((pending || events_seen) && since_reload_ms > DEBOUNCE_INTERVAL_MS),
        r.1 == ((pending || events_seen) && !r.0),
{
    let waiting = pending || events_seen;
    if waiting && since_reload_ms > DEBOUNCE_INTERVAL_MS {
        (true, false)
    } else {
        (false, waiting)
    }
}

} // verus!
