use kild_ui::commands::UICommand;
use kild_ui::errors::{OperationError, OperationErrors};
use kild_ui::layout::{LayoutState, SidebarMode, SplitDirection};
use kild_ui::terminals::TerminalStore;

#[test]
fn test_operation_errors_set_and_get() {
    let mut errors = OperationErrors::new();

    errors.set(
        "branch-1",
        OperationError {
            branch: "branch-1".to_string(),
            message: "error 1".to_string(),
        },
    );

    assert!(errors.get("branch-1").is_some());
    assert_eq!(errors.get("branch-1").unwrap().message, "error 1");
    assert!(errors.get("branch-2").is_none());
}

#[test]
fn test_operation_errors_clear() {
    let mut errors = OperationErrors::new();

    errors.set(
        "branch-1",
        OperationError {
            branch: "branch-1".to_string(),
            message: "error 1".to_string(),
        },
    );
    errors.clear("branch-1");

    assert!(errors.get("branch-1").is_none());
}

#[test]
fn operation_errors_replace_and_keep_others() {
    let mut errors = OperationErrors::default();
    let err = |b: &str, m: &str| OperationError {
        branch: b.to_string(),
        message: m.to_string(),
    };
    errors.set("a", err("a", "first"));
    errors.set("b", err("b", "other"));
    errors.set("a", err("a", "second"));
    assert_eq!(errors.get("a").unwrap().message, "second");
    assert_eq!(errors.get("b").unwrap().message, "other");
    errors.clear("a");
    errors.clear("a");
    assert!(errors.get("a").is_none());
    assert_eq!(errors.get("b").unwrap().message, "other");
}

#[test]
fn test_ui_command_variants_construct() {
    let commands: Vec<UICommand> = vec![
        UICommand::OpenCreateDialog,
        UICommand::OpenConfirmDialog {
            branch: "feature".to_string(),
        },
        UICommand::OpenAddProjectDialog,
        UICommand::CloseDialog,
        UICommand::SetDialogError {
            message: "error".to_string(),
        },
        UICommand::SelectKild {
            id: "session-id".to_string(),
        },
        UICommand::ClearSelection,
        UICommand::SetError {
            branch: "feature".to_string(),
            message: "failed".to_string(),
        },
        UICommand::DismissError {
            branch: "feature".to_string(),
        },
        UICommand::SetBulkErrors {
            errors: vec![OperationError {
                branch: "b1".to_string(),
                message: "err".to_string(),
            }],
        },
        UICommand::ClearBulkErrors,
    ];

    assert_eq!(commands.len(), 11);
}

#[test]
fn test_ui_command_is_debug() {
    let cmd = UICommand::SelectKild {
        id: "test".to_string(),
    };
    let debug_str = format!("{:?}", cmd);
    assert!(debug_str.contains("SelectKild"));
}

#[test]
fn test_ui_command_is_clone() {
    let cmd = UICommand::SetError {
        branch: "feature".to_string(),
        message: "oops".to_string(),
    };
    let cloned = cmd.clone();
    let source_debug = format!("{:?}", cmd);
    let cloned_debug = format!("{:?}", cloned);
    assert_eq!(source_debug, cloned_debug);
}

#[test]
fn test_new_defaults() {
    let state = LayoutState::new();
    assert!(state.focused_kild().is_none());
    assert!(state.minimized_ids().is_empty());
    assert_eq!(*state.sidebar_mode(), SidebarMode::List);
    assert!(!state.is_split());
}

#[test]
fn test_focus_and_minimize_cycle() {
    let mut state = LayoutState::new();

    state.focus_kild("k1");
    assert_eq!(state.focused_kild(), Some("k1"));
    assert!(!state.is_minimized("k1"));

    state.minimize_kild("k1");
    assert!(state.focused_kild().is_none());
    assert!(state.is_minimized("k1"));

    state.focus_kild("k1");
    assert_eq!(state.focused_kild(), Some("k1"));
    assert!(!state.is_minimized("k1"));
}

#[test]
fn test_focus_removes_from_minimized() {
    let mut state = LayoutState::new();

    state.minimize_kild("k1");
    state.minimize_kild("k2");
    assert!(state.is_minimized("k1"));
    assert!(state.is_minimized("k2"));

    state.focus_kild("k1");
    assert!(!state.is_minimized("k1"));
    assert!(state.is_minimized("k2"));
}

#[test]
fn test_minimize_only_clears_matching_focus() {
    let mut state = LayoutState::new();

    state.focus_kild("k1");
    state.minimize_kild("k2");

    assert_eq!(state.focused_kild(), Some("k1"));
    assert!(state.is_minimized("k2"));
}

#[test]
fn test_toggle_sidebar_detail() {
    let mut state = LayoutState::new();
    assert_eq!(*state.sidebar_mode(), SidebarMode::List);

    state.toggle_sidebar_detail("k1");
    assert_eq!(
        *state.sidebar_mode(),
        SidebarMode::Detail {
            kild_id: "k1".to_string()
        }
    );

    state.toggle_sidebar_detail("k1");
    assert_eq!(*state.sidebar_mode(), SidebarMode::List);

    state.toggle_sidebar_detail("k1");
    state.toggle_sidebar_detail("k2");
    assert_eq!(
        *state.sidebar_mode(),
        SidebarMode::Detail {
            kild_id: "k2".to_string()
        }
    );
}

fn ratio(state: &LayoutState) -> f32 {
    state.split().unwrap().ratio as f32 / 1000.0
}

#[test]
fn test_split_and_unsplit() {
    let mut state = LayoutState::new();
    assert!(!state.is_split());

    state.split_with(SplitDirection::Vertical, "pane-2".to_string());
    assert!(state.is_split());
    let split = state.split().unwrap();
    assert_eq!(split.direction, SplitDirection::Vertical);
    assert_eq!(split.second_id, "pane-2");
    assert!((ratio(&state) - 0.5).abs() < f32::EPSILON);

    state.unsplit();
    assert!(!state.is_split());
}

#[test]
fn test_maximize_and_restore() {
    let mut state = LayoutState::new();
    state.split_with(SplitDirection::Horizontal, "pane-2".to_string());

    state.maximize();
    assert!(!state.is_split());

    state.restore();
    assert!(state.is_split());
    assert_eq!(state.split().unwrap().second_id, "pane-2");
}

#[test]
fn test_set_split_ratio_clamps() {
    let mut state = LayoutState::new();
    state.split_with(SplitDirection::Vertical, "pane-2".to_string());

    state.set_split_ratio(0);
    assert!((ratio(&state) - 0.1).abs() < f32::EPSILON);

    state.set_split_ratio(1000);
    assert!((ratio(&state) - 0.9).abs() < f32::EPSILON);

    state.set_split_ratio(300);
    assert!((ratio(&state) - 0.3).abs() < f32::EPSILON);
}

#[test]
fn restore_without_saved_split_changes_nothing() {
    let mut state = LayoutState::new();
    state.restore();
    assert!(!state.is_split());
    state.set_split_ratio(300);
    assert!(state.split().is_none());
}

#[test]
fn test_new_store_is_empty() {
    let store: TerminalStore<u32> = TerminalStore::new();
    assert!(store.focused_terminal().is_none());
    assert!(store.focused_kild_id().is_none());
    assert!(!store.has_terminal("test"));
}

#[test]
fn test_has_terminal() {
    let mut store: TerminalStore<u32> = TerminalStore::new();
    assert!(!store.has_terminal("kild-1"));

    store.detach_terminal("kild-1");
    assert!(!store.has_terminal("kild-1"));
}

#[test]
fn test_focus_and_clear() {
    let mut store: TerminalStore<u32> = TerminalStore::new();

    store.set_focus("kild-1");
    assert_eq!(store.focused_kild_id(), Some("kild-1"));

    store.clear_focus();
    assert!(store.focused_kild_id().is_none());
}

#[test]
fn test_detach_clears_focus_if_matched() {
    let mut store: TerminalStore<u32> = TerminalStore::new();
    store.set_focus("kild-1");

    store.detach_terminal("kild-1");
    assert!(store.focused_kild_id().is_none());
}

#[test]
fn test_detach_preserves_focus_if_different() {
    let mut store: TerminalStore<u32> = TerminalStore::new();
    store.set_focus("kild-1");

    store.detach_terminal("kild-2");
    assert_eq!(store.focused_kild_id(), Some("kild-1"));
}

#[test]
fn attach_then_detach_forgets_daemon_sessions() {
    let mut store: TerminalStore<u32> = TerminalStore::new();
    store.attach_terminal("k1".to_string(), "d1".to_string(), 7);
    store.attach_terminal("k2".to_string(), "d2".to_string(), 8);
    store.attach_terminal("k1".to_string(), "d3".to_string(), 9);
    store.set_focus("k1");
    assert_eq!(store.focused_terminal(), Some(&9));
    assert_eq!(store.kild_for_daemon("d1"), Some("k1"));
    assert_eq!(store.kild_for_daemon("d3"), Some("k1"));
    store.detach_terminal("k1");
    assert!(!store.has_terminal("k1"));
    assert_eq!(store.get_terminal("k2"), Some(&8));
    assert_eq!(store.kild_for_daemon("d1"), None);
    assert_eq!(store.kild_for_daemon("d3"), None);
    assert_eq!(store.kild_for_daemon("d2"), Some("k2"));
    assert!(store.focused_terminal().is_none());
}
