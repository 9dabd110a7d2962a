use kild_ui::dashboard::{
    compute_alerts, detail_status, git_status_text, group_by_status, hidden_alert_count,
    hidden_alerts_note, keyboard_hints_for_view, list_status, GitStatus, KildDisplay,
    ProcessStatus, Status, truncate_path,
};
use kild_ui::errors::{OperationError, OperationErrors};
use kild_ui::navigation::ActiveView;

fn make_info(branch: &str, process_status: ProcessStatus, git_status: GitStatus) -> KildDisplay {
    KildDisplay {
        id: format!("test-{}", branch),
        branch: branch.to_string(),
        process_status,
        git_status,
    }
}

#[test]
fn test_compute_alerts_empty_state() {
    let alerts = compute_alerts(&vec![], &OperationErrors::new());
    assert!(alerts.is_empty());
}

#[test]
fn test_compute_alerts_dirty_stopped_kild() {
    let info = make_info("fix-bug", ProcessStatus::Stopped, GitStatus::Dirty);
    let alerts = compute_alerts(&vec![info], &OperationErrors::new());
    assert_eq!(alerts.len(), 1);
    assert!(!alerts[0].is_error);
    assert!(alerts[0].message.contains("fix-bug"));
    assert!(alerts[0].message.contains("uncommitted"));
}

#[test]
fn test_compute_alerts_clean_stopped_kild_no_alert() {
    let info = make_info("clean-branch", ProcessStatus::Stopped, GitStatus::Clean);
    let alerts = compute_alerts(&vec![info], &OperationErrors::new());
    assert!(alerts.is_empty());
}

#[test]
fn test_compute_alerts_max_truncation() {
    let infos: Vec<KildDisplay> = (0..5)
        .map(|i| make_info(&format!("dirty-{}", i), ProcessStatus::Stopped, GitStatus::Dirty))
        .collect();
    let alerts = compute_alerts(&infos, &OperationErrors::new());
    assert_eq!(alerts.len(), 5);
    assert_eq!(hidden_alert_count(alerts.len()), 3);
    assert_eq!(hidden_alerts_note(alerts.len()), Some("+3 more".to_string()));
}

#[test]
fn test_keyboard_hints_control_view() {
    let hints = keyboard_hints_for_view(ActiveView::Control);
    assert_eq!(hints.len(), 4);
    assert_eq!(hints[0].0, "cmd-j");
    assert_eq!(hints[2].0, "cmd-d");
    assert_eq!(hints[2].1, "dashboard");
    assert_eq!(hints[3].0, "ctrl-tab");
}

#[test]
fn test_keyboard_hints_dashboard_view() {
    let hints = keyboard_hints_for_view(ActiveView::Dashboard);
    assert_eq!(hints.len(), 3);
    assert_eq!(hints[2].0, "cmd-d");
    assert_eq!(hints[2].1, "control");
}

#[test]
fn test_keyboard_hints_detail_view() {
    let hints = keyboard_hints_for_view(ActiveView::Detail);
    assert_eq!(hints.len(), 2);
    assert_eq!(hints[0].0, "escape");
    assert_eq!(hints[0].1, "back");
}

#[test]
fn test_compute_alerts_errors_before_dirty() {
    let info = make_info("branch-1", ProcessStatus::Stopped, GitStatus::Dirty);
    let mut errors = OperationErrors::new();
    errors.set(
        "branch-1",
        OperationError {
            branch: "branch-1".to_string(),
            message: "open failed".to_string(),
        },
    );
    let alerts = compute_alerts(&vec![info], &errors);
    assert_eq!(alerts.len(), 2);
    assert!(alerts[0].is_error, "error alert should come first");
    assert!(!alerts[1].is_error, "dirty alert should come second");
    assert_eq!(alerts[0].message, "branch-1: open failed");
    assert_eq!(alerts[1].message, "branch-1 has uncommitted changes");
}

#[test]
fn test_compute_alerts_running_dirty_kild_no_alert() {
    let info = make_info("active-work", ProcessStatus::Running, GitStatus::Dirty);
    let alerts = compute_alerts(&vec![info], &OperationErrors::new());
    assert!(alerts.is_empty(), "running dirty kilds should not trigger alerts");
}

#[test]
fn few_alerts_have_no_note() {
    assert_eq!(hidden_alert_count(2), 0);
    assert_eq!(hidden_alerts_note(2), None);
    assert_eq!(hidden_alerts_note(0), None);
}

#[test]
fn statuses_and_groups() {
    assert_eq!(list_status(ProcessStatus::Running), Status::Active);
    assert_eq!(list_status(ProcessStatus::Unknown), Status::Stopped);
    assert_eq!(detail_status(ProcessStatus::Unknown), Status::Crashed);
    assert_eq!(detail_status(ProcessStatus::Stopped), Status::Stopped);
    assert_eq!(Status::Crashed.label(), "Crashed");
    assert!(!Status::Stopped.has_glow());
    assert!(Status::Active.has_glow());
    assert_eq!(git_status_text(GitStatus::Dirty), "Uncommitted");
    let ds = vec![
        make_info("a", ProcessStatus::Stopped, GitStatus::Clean),
        make_info("b", ProcessStatus::Running, GitStatus::Clean),
        make_info("c", ProcessStatus::Unknown, GitStatus::Clean),
        make_info("d", ProcessStatus::Running, GitStatus::Clean),
    ];
    let (active, stopped) = group_by_status(&ds);
    assert_eq!(active, vec![1, 3]);
    assert_eq!(stopped, vec![0, 2]);
}

#[test]
fn test_truncate_path_short() {
    assert_eq!(truncate_path("/foo"), "/foo");
    assert_eq!(truncate_path("/foo/bar"), "/foo/bar");
}

#[test]
fn test_truncate_path_long() {
    assert_eq!(truncate_path("/Users/dev/project/src"), ".../project/src");
}

#[test]
fn test_truncate_path_empty() {
    assert_eq!(truncate_path(""), "");
}

#[test]
fn truncate_path_ignores_empty_components() {
    assert_eq!(truncate_path("//a//b//"), "//a//b//");
    assert_eq!(truncate_path("a/b/c/"), ".../b/c");
}
