use kild_ui::terminal_tabs::{adjust_active_after_close, TerminalBackend, TerminalTabs};

#[test]
fn test_adjust_active_close_only_tab() {
    assert_eq!(adjust_active_after_close(0, 0, 0), 0);
}

#[test]
fn test_adjust_active_close_active_in_middle() {
    assert_eq!(adjust_active_after_close(1, 1, 2), 1);
}

#[test]
fn test_adjust_active_close_before_active() {
    assert_eq!(adjust_active_after_close(2, 0, 2), 1);
}

#[test]
fn test_adjust_active_close_after_active() {
    assert_eq!(adjust_active_after_close(0, 2, 2), 0);
}

#[test]
fn test_adjust_active_close_last_when_active_is_last() {
    assert_eq!(adjust_active_after_close(2, 2, 2), 1);
}

#[test]
fn test_adjust_active_close_first_of_two() {
    assert_eq!(adjust_active_after_close(0, 0, 1), 0);
}

#[test]
fn test_adjust_active_close_second_of_two_when_active() {
    assert_eq!(adjust_active_after_close(1, 1, 1), 0);
}

#[test]
fn test_terminal_tabs_new_is_empty() {
    let tabs: TerminalTabs<u32> = TerminalTabs::new();
    assert!(tabs.is_empty());
    assert_eq!(tabs.active, 0);
    assert!(tabs.active_view().is_none());
}

#[test]
fn tabs_are_labelled_and_closed() {
    let mut tabs: TerminalTabs<u32> = TerminalTabs::new();
    tabs.push(10, TerminalBackend::Local);
    tabs.push(
        20,
        TerminalBackend::Daemon {
            daemon_session_id: "d-1".to_string(),
        },
    );
    tabs.push(30, TerminalBackend::Local);
    assert_eq!(tabs.len(), 3);
    assert_eq!(tabs.tabs[0].label, "Shell 1");
    assert_eq!(tabs.tabs[1].label, "D • Shell 2");
    assert_eq!(tabs.tabs[2].label, "Shell 3");
    assert_eq!(tabs.active, 2);
    assert_eq!(tabs.active_view(), Some(&30));

    assert_eq!(tabs.close(1), Some("d-1".to_string()));
    assert_eq!(tabs.active, 1);
    assert_eq!(tabs.active_view(), Some(&30));
    assert_eq!(tabs.close(7), None);
    assert_eq!(tabs.close(0), None);
    assert_eq!(tabs.active, 0);

    tabs.push(40, TerminalBackend::Local);
    assert_eq!(tabs.tabs[1].label, "Shell 4");
}

#[test]
fn tabs_cycle_and_rename() {
    let mut tabs: TerminalTabs<u32> = TerminalTabs::new();
    tabs.cycle_next();
    assert_eq!(tabs.active, 0);
    tabs.push(1, TerminalBackend::Local);
    tabs.push(2, TerminalBackend::Local);
    tabs.push(3, TerminalBackend::Local);
    tabs.cycle_next();
    assert_eq!(tabs.active, 0);
    tabs.cycle_prev();
    assert_eq!(tabs.active, 2);
    tabs.cycle_prev();
    assert_eq!(tabs.active, 1);
    tabs.rename(1, "build".to_string());
    assert_eq!(tabs.tabs[1].label, "build");
    assert_eq!(tabs.tabs[0].label, "Shell 1");
    tabs.rename(9, "nothing".to_string());
    assert_eq!(tabs.len(), 3);
}
