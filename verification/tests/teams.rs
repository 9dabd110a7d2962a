use kild_ui::teams::{is_usable, team_color_rgb, TeamColor, TeamManager, TeamMember, TeamState};

fn member(name: &str, daemon: Option<&str>, leader: bool) -> TeamMember {
    TeamMember {
        name: name.to_string(),
        daemon_session_id: daemon.map(|d| d.to_string()),
        is_leader: leader,
        color: TeamColor::Blue,
    }
}

fn team(name: &str, session: Option<&str>, members: Vec<TeamMember>) -> TeamState {
    TeamState {
        team_name: name.to_string(),
        kild_session_id: session.map(|s| s.to_string()),
        members,
    }
}

#[test]
fn usable_teams_need_a_session_and_a_running_member() {
    assert!(is_usable(&team("t", Some("s"), vec![member("a", Some("d"), false)])));
    assert!(!is_usable(&team("t", None, vec![member("a", Some("d"), false)])));
    assert!(!is_usable(&team("t", Some("s"), vec![member("a", None, false)])));
}

#[test]
fn refresh_matches_first_usable_session() {
    let mut m = TeamManager::new();
    let sessions = vec!["s1".to_string(), "s2".to_string()];
    let teams = vec![
        (
            "alpha".to_string(),
            vec![
                Some(team("alpha", Some("s1"), vec![member("lead", None, true)])),
                Some(team(
                    "alpha",
                    Some("s2"),
                    vec![member("lead", None, true), member("w", Some("d2"), false)],
                )),
            ],
        ),
        ("beta".to_string(), vec![None, Some(team("beta", None, vec![]))]),
    ];
    m.refresh(&sessions, teams);
    assert!(m.team_for_session("s1").is_none());
    let t = m.team_for_session("s2").unwrap();
    assert_eq!(t.team_name, "alpha");
    let mates = m.teammates_for_session("s2");
    assert_eq!(mates.len(), 1);
    assert_eq!(mates[0].name, "w");
    assert!(m.needs_discovery("s1"));
    assert!(!m.needs_discovery("s2"));

    m.add_discovered("s1", vec![member("x", Some("d9"), false)]);
    let t = m.team_for_session("s1").unwrap();
    assert_eq!(t.team_name, "shim-s1");
    assert_eq!(t.kild_session_id.as_deref(), Some("s1"));
    assert!(m.teammates_for_session("nope").is_empty());
}

#[test]
fn sessions_without_a_team_get_their_shim_teammates() {
    let mut m = TeamManager::new();
    let sessions = vec!["s1".to_string(), "s2".to_string(), "s3".to_string()];
    let teams = vec![(
        "alpha".to_string(),
        vec![
            Some(team("alpha", Some("s1"), vec![member("w", Some("d1"), false)])),
            None,
            None,
        ],
    )];
    m.refresh(&sessions, teams);
    m.add_discovered_teams(
        &sessions,
        vec![
            Some(vec![member("ignored", Some("dx"), false)]),
            Some(vec![member("x", Some("d2"), false)]),
            None,
        ],
    );
    assert_eq!(m.team_for_session("s1").unwrap().team_name, "alpha");
    let t2 = m.team_for_session("s2").unwrap();
    assert_eq!(t2.team_name, "shim-s2");
    assert_eq!(t2.kild_session_id.as_deref(), Some("s2"));
    assert_eq!(t2.members.len(), 1);
    assert_eq!(t2.members[0].name, "x");
    assert!(m.team_for_session("s3").is_none());
}

#[test]
fn team_colors_use_the_palette() {
    assert_eq!(team_color_rgb(TeamColor::Red), 0xF87171);
    assert_eq!(team_color_rgb(TeamColor::Blue), 0x38BDF8);
    assert_eq!(team_color_rgb(TeamColor::Yellow), 0xE5C07B);
    assert_eq!(team_color_rgb(TeamColor::Unknown), 0x5C6370);
}
