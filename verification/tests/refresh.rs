use kild_ui::refresh::{poll_interval_ms, watcher_tick, DEBOUNCE_INTERVAL_MS};

#[test]
fn poll_is_fast_without_a_watcher() {
    assert_eq!(poll_interval_ms(true), 60_000);
    assert_eq!(poll_interval_ms(false), 5_000);
}

#[test]
fn file_events_reload_after_the_debounce() {
    assert_eq!(watcher_tick(false, false, 10_000), (false, false));
    assert_eq!(watcher_tick(false, true, 50), (false, true));
    assert_eq!(watcher_tick(true, false, DEBOUNCE_INTERVAL_MS), (false, true));
    assert_eq!(watcher_tick(true, false, DEBOUNCE_INTERVAL_MS + 1), (true, false));
    assert_eq!(watcher_tick(false, true, 500), (true, false));
}
