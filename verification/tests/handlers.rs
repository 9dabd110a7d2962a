use kild_ui::handlers::{
    add_project_fields, branch_input_allowed, create_fields, daemon_tab_plan, next_agent_index,
    note_input_allowed, optional_text, prune_terminal_cache, rename_label, should_start_daemon,
    tab_click, teammate_tabs_for, teammate_tabs_to_add, DaemonTabPlan, TabClick,
};
use kild_ui::strmap::StrMap;
use kild_ui::teams::{TeamColor, TeamManager, TeamMember, TeamState};
use kild_ui::terminal_tabs::{TerminalBackend, TerminalTabs};

#[test]
fn add_project_fields_are_trimmed() {
    assert_eq!(
        add_project_fields("  /repo  ", "   "),
        Ok(("/repo".to_string(), None))
    );
    assert_eq!(
        add_project_fields("/repo", " Mine "),
        Ok(("/repo".to_string(), Some("Mine".to_string())))
    );
    assert_eq!(
        add_project_fields("   ", "x"),
        Err("Path cannot be empty".to_string())
    );
}

#[test]
fn create_fields_are_trimmed() {
    assert_eq!(
        create_fields(" feat/x ", " note "),
        ("feat/x".to_string(), Some("note".to_string()))
    );
    assert_eq!(create_fields("b", "  "), ("b".to_string(), None));
    assert_eq!(optional_text(""), None);
    assert_eq!(rename_label("  build "), Some("build".to_string()));
    assert_eq!(rename_label("   "), None);
}

#[test]
fn input_filters() {
    assert!(branch_input_allowed("feature/ABC-12_x"));
    assert!(branch_input_allowed(""));
    assert!(!branch_input_allowed("bad name"));
    assert!(!branch_input_allowed("ünï"));
    assert!(note_input_allowed("fix the login bug"));
    assert!(!note_input_allowed("tab\there"));
    assert!(!note_input_allowed("bell\u{7}"));
    assert!(!note_input_allowed("c1\u{85}"));
}

#[test]
fn agent_cycling_wraps() {
    assert_eq!(next_agent_index(0, 3), Ok(1));
    assert_eq!(next_agent_index(2, 3), Ok(0));
    assert_eq!(
        next_agent_index(0, 0),
        Err("No agents available. Check kild-core configuration.".to_string())
    );
}

#[test]
fn daemon_start_and_tab_plans() {
    assert!(should_start_daemon(false, None));
    assert!(should_start_daemon(false, Some(false)));
    assert!(!should_start_daemon(true, None));
    assert!(!should_start_daemon(false, Some(true)));
    assert_eq!(
        daemon_tab_plan("k1", true, Some("d1".to_string()), 0),
        DaemonTabPlan::Attach("d1".to_string())
    );
    assert_eq!(
        daemon_tab_plan("k1", false, Some("d1".to_string()), 3),
        DaemonTabPlan::Create("k1_ui_shell_3".to_string())
    );
    assert_eq!(
        daemon_tab_plan("k1", true, None, 0),
        DaemonTabPlan::Create("k1_ui_shell_0".to_string())
    );
    assert_eq!(tab_click(Some(2), 2), TabClick::Rename);
    assert_eq!(tab_click(Some(2), 1), TabClick::Select);
    assert_eq!(tab_click(None, 0), TabClick::Select);
}

fn mate(name: &str, daemon: Option<&str>, leader: bool) -> TeamMember {
    TeamMember {
        name: name.to_string(),
        daemon_session_id: daemon.map(|d| d.to_string()),
        is_leader: leader,
        color: TeamColor::Green,
    }
}

#[test]
fn teammate_tabs_skip_existing_sessions() {
    let mut tabs: TerminalTabs<u32> = TerminalTabs::new();
    tabs.push(
        1,
        TerminalBackend::Daemon {
            daemon_session_id: "d1".to_string(),
        },
    );
    let m1 = mate("a", Some("d1"), false);
    let m2 = mate("b", Some("d2"), false);
    let m3 = mate("c", None, false);
    let mates = vec![&m1, &m2, &m3];
    let add = teammate_tabs_for("k", &mates, Some(&tabs));
    assert_eq!(add.len(), 1);
    assert_eq!(add[0].daemon_session_id, "d2");
    assert_eq!(add[0].name, "b");
    assert_eq!(teammate_tabs_for::<u32>("k", &mates, None).len(), 2);
    assert!(tabs.has_daemon_session("d1"));
    assert!(!tabs.has_daemon_session("d2"));
}

#[test]
fn teammate_tabs_for_all_kilds() {
    let mut teams = TeamManager::new();
    teams.add_discovered("k1", vec![mate("lead", Some("d0"), true), mate("w", Some("d5"), false)]);
    let mut by_kild: StrMap<TerminalTabs<u32>> = StrMap::new();
    by_kild.insert("k1", TerminalTabs::new());
    let add = teammate_tabs_to_add(&vec!["k1".to_string(), "k2".to_string()], &teams, &by_kild);
    assert_eq!(add.len(), 1);
    assert_eq!(add[0].kild_id, "k1");
    assert_eq!(add[0].daemon_session_id, "d5");
    let _unused: Option<TeamState> = None;
}

#[test]
fn pruning_drops_gone_kilds() {
    let mut by_kild: StrMap<TerminalTabs<u32>> = StrMap::new();
    by_kild.insert("a", TerminalTabs::new());
    by_kild.insert("b", TerminalTabs::new());
    let mut active = Some("b".to_string());
    let cleared = prune_terminal_cache(&mut by_kild, &vec!["a".to_string()], &mut active);
    assert!(cleared);
    assert_eq!(active, None);
    assert!(by_kild.contains_key("a"));
    assert!(!by_kild.contains_key("b"));
    let mut active = Some("a".to_string());
    assert!(!prune_terminal_cache(&mut by_kild, &vec!["a".to_string()], &mut active));
    assert_eq!(active, Some("a".to_string()));
}
