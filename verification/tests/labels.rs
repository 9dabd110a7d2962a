use kild_ui::dashboard::{
    agent_position, destroy_title, project_initial, running_kilds, section_header,
    teammate_tab_name, warning_line, GitStatus, KildDisplay, ProcessStatus,
};
use kild_ui::errors::OperationErrors;
use kild_ui::handlers::{
    focus_failed_message, focus_window_missing, refresh_after_bulk, select_plan, SelectPlan,
};
use kild_ui::terminal_error::TerminalError;

#[test]
fn rail_initials() {
    assert_eq!(project_initial("kild"), "K");
    assert_eq!(project_initial("ßeta"), "SS");
    assert_eq!(project_initial(""), "?");
}

#[test]
fn label_texts() {
    assert_eq!(section_header("Active", 3), "Active (3)");
    assert_eq!(agent_position(0, 4), "(1/4)");
    assert_eq!(destroy_title("feat"), "Destroy 'feat'?");
    assert_eq!(warning_line("unpushed commits"), "⚠ unpushed commits");
    assert_eq!(teammate_tab_name("", true, "%3"), "lead");
    assert_eq!(teammate_tab_name("", false, "%3"), "%3");
    assert_eq!(teammate_tab_name("tester", true, "%3"), "tester");
}

#[test]
fn minimized_bars_show_running_kilds() {
    let d = |b: &str, p| KildDisplay {
        id: b.to_string(),
        branch: b.to_string(),
        process_status: p,
        git_status: GitStatus::Clean,
    };
    let ds = vec![
        d("a", ProcessStatus::Running),
        d("b", ProcessStatus::Stopped),
        d("c", ProcessStatus::Running),
    ];
    assert_eq!(running_kilds(&ds), vec![0, 2]);
}

#[test]
fn record_error_sets_branch_and_message() {
    let mut e = OperationErrors::new();
    e.record("b", "boom");
    let got = e.get("b").unwrap();
    assert_eq!(got.branch, "b");
    assert_eq!(got.message, "boom");
}

#[test]
fn selection_plans() {
    assert_eq!(select_plan(true, true, Some("d".to_string())), SelectPlan::UseTabs);
    assert_eq!(
        select_plan(false, true, Some("d".to_string())),
        SelectPlan::AttachDaemon("d".to_string())
    );
    assert_eq!(select_plan(false, false, Some("d".to_string())), SelectPlan::OpenLocal);
    assert_eq!(select_plan(false, true, None), SelectPlan::OpenLocal);
    assert_eq!(focus_window_missing(true, true), None);
    assert!(focus_window_missing(true, false).unwrap().starts_with("Terminal window info"));
    assert_eq!(focus_failed_message("x"), "Failed to focus terminal: x");
    assert!(refresh_after_bulk(0, 1));
    assert!(refresh_after_bulk(2, 0));
    assert!(!refresh_after_bulk(0, 0));
}

#[test]
fn terminal_error_messages() {
    assert_eq!(
        TerminalError::ShellSpawn {
            shell: "zsh".to_string(),
            message: "not found".to_string()
        }
        .to_string(),
        "Failed to spawn shell 'zsh': not found"
    );
    assert_eq!(TerminalError::PtyWrite("x".to_string()).to_string(), "PTY write failed");
    assert_eq!(
        TerminalError::InvalidCwd {
            path: "/x".to_string(),
            message: "gone".to_string()
        }
        .to_string(),
        "Working directory not accessible '/x': gone"
    );
    assert_eq!(
        TerminalError::DaemonAttach {
            message: "refused".to_string()
        }
        .to_string(),
        "Daemon attach failed: refused"
    );
    assert_eq!(TerminalError::Base64Decode("x".to_string()).to_string(), "Base64 decode failed");
}
