use kild_ui::projects::{
    apply_canonical_paths, derive_display_name, derive_project_id, migrate_projects_to_canonical,
    projects_file_path_with, projects_from_load, validate_project_path, LoadOutcome, Project,
    ProjectError, ProjectValidation, ProjectsData,
};

#[test]
fn test_derive_project_id_consistency() {
    let path = "/Users/test/Projects/my-project";
    let id1 = derive_project_id(path);
    let id2 = derive_project_id(path);
    assert_eq!(id1, id2);
}

#[test]
fn test_derive_project_id_different_paths() {
    let id1 = derive_project_id("/Users/test/Projects/project-a");
    let id2 = derive_project_id("/Users/test/Projects/project-b");
    assert_ne!(id1, id2);
}

#[test]
fn test_derive_project_id_is_hex() {
    let id = derive_project_id("/Users/test/Projects/my-project");
    assert!(!id.is_empty());
    assert!(id.chars().all(|c| c.is_ascii_hexdigit()));
}

#[test]
fn test_derive_display_name() {
    let name = derive_display_name("/Users/test/Projects/my-project");
    assert_eq!(name, "my-project");
}

#[test]
fn test_derive_display_name_root() {
    let name = derive_display_name("/");
    assert_eq!(name, "unknown");
}

#[test]
fn test_load_projects_missing_file() {
    let data = ProjectsData::default();
    assert!(data.projects.is_empty());
    assert!(data.active.is_none());
}

#[test]
fn test_projects_data_default() {
    let data = ProjectsData::default();
    assert!(data.projects.is_empty());
    assert!(data.active.is_none());
}

#[test]
fn test_project_equality() {
    let project1 = Project::new_unchecked("/path/to/project".to_string(), "Project".to_string());
    let project2 = Project::new_unchecked("/path/to/project".to_string(), "Project".to_string());
    let project3 = Project::new_unchecked("/different/path".to_string(), "Project".to_string());

    assert_eq!(project1, project2);
    assert_ne!(project1, project3);
}

#[test]
fn test_derive_project_id_different_for_non_canonical() {
    let id1 = derive_project_id("/users/test/project");
    let id2 = derive_project_id("/Users/test/project");
    assert_ne!(
        id1, id2,
        "Non-canonical paths produce different hashes (this is why canonicalization is needed)"
    );
}

#[test]
fn test_validate_project_path_not_directory() {
    let result = validate_project_path("/tmp/test.txt", &[], false, false);
    assert_eq!(result, ProjectValidation::NotADirectory);
}

#[test]
fn test_validate_project_path_not_git() {
    let result = validate_project_path("/tmp/some-dir", &[], true, false);
    assert_eq!(result, ProjectValidation::NotAGitRepo);
}

#[test]
fn test_validate_project_path_already_exists() {
    let existing = vec![Project::new_unchecked(
        "/tmp/repo".to_string(),
        "test".to_string(),
    )];
    let result = validate_project_path("/tmp/repo", &existing, true, true);
    assert_eq!(result, ProjectValidation::AlreadyExists);
}

#[test]
fn test_validate_project_path_valid() {
    let result = validate_project_path("/tmp/repo", &[], true, true);
    assert_eq!(result, ProjectValidation::Valid);
}

#[test]
fn test_migration_handles_missing_paths_gracefully() {
    let missing_path = "/this/path/definitely/does/not/exist/anywhere";
    let mut data = ProjectsData::default();
    data.projects
        .push(Project::new_unchecked("/".to_string(), "root".to_string()));
    data.projects
        .push(Project::new_unchecked(missing_path.to_string(), "gone".to_string()));

    let changed = migrate_projects_to_canonical(&mut data);

    assert!(!changed);
    assert_eq!(data.projects.len(), 2);
    assert_eq!(data.projects[0].path(), "/");
    assert_eq!(data.projects[1].path(), missing_path);
    assert_eq!(data.projects[1].name(), "gone");
}

#[test]
fn test_filtering_works_after_path_canonicalization() {
    let canonical = kild_ui::paths::canonicalize_path("/").unwrap();
    let session_project_id = derive_project_id(&canonical);
    let active_project_id = derive_project_id(&canonical);
    assert_eq!(session_project_id, active_project_id);
}

#[test]
fn test_path_canonicalization_consistency() {
    let canonical1 = kild_ui::paths::canonicalize_path("/").unwrap();
    let canonical2 = kild_ui::paths::canonicalize_path("/").unwrap();
    assert_eq!(canonical1, canonical2);
    assert_eq!(derive_project_id(&canonical1), derive_project_id(&canonical2));
}

#[test]
fn new_project_reports_errors_in_order() {
    let err = Project::new(Err("No such file or directory (os error 2)".to_string()), false, false, None)
        .unwrap_err();
    assert_eq!(
        err.to_string(),
        "Cannot resolve path: No such file or directory (os error 2)"
    );
    let err = Project::new(Ok("/tmp/file".to_string()), false, true, None).unwrap_err();
    assert_eq!(err, ProjectError::NotADirectory);
    assert_eq!(err.to_string(), "Path is not a directory");
    let err = Project::new(Ok("/tmp/dir".to_string()), true, false, None).unwrap_err();
    assert_eq!(err, ProjectError::NotAGitRepo);
    assert_eq!(err.to_string(), "Path is not a git repository");
}

#[test]
fn new_project_names_after_final_component() {
    let p = Project::new(Ok("/home/me/code/kild".to_string()), true, true, None).unwrap();
    assert_eq!(p.path(), "/home/me/code/kild");
    assert_eq!(p.name(), "kild");
    let p = Project::new(
        Ok("/home/me/code/kild".to_string()),
        true,
        true,
        Some("Mine".to_string()),
    )
    .unwrap();
    assert_eq!(p.name(), "Mine");
}

#[test]
fn set_name_and_path_touch_one_field() {
    let mut p = Project::new_unchecked("/a".to_string(), "A".to_string());
    p.set_name("B".to_string());
    assert_eq!(p.name(), "B");
    assert_eq!(p.path(), "/a");
    p.set_path("/b".to_string());
    assert_eq!(p.path(), "/b");
    assert_eq!(p.name(), "B");
}

#[test]
fn project_equality_compares_paths_by_component() {
    let p1 = Project::new_unchecked("/a//b/".to_string(), "P".to_string());
    let p2 = Project::new_unchecked("/a/b".to_string(), "P".to_string());
    let p3 = Project::new_unchecked("/a/b".to_string(), "Q".to_string());
    assert_eq!(p1, p2);
    assert_ne!(p2, p3);
}

#[test]
fn apply_canonical_paths_moves_and_clears() {
    let mut data = ProjectsData::default();
    data.projects
        .push(Project::new_unchecked("/users/me/a".to_string(), "a".to_string()));
    data.projects
        .push(Project::new_unchecked("/Users/me/b".to_string(), "b".to_string()));
    data.projects
        .push(Project::new_unchecked("/gone".to_string(), "c".to_string()));
    data.active = Some("/users/me/a".to_string());
    let results = vec![
        Ok("/Users/me/a".to_string()),
        Ok("/Users/me/b".to_string()),
        Err("not found".to_string()),
    ];
    let changed = apply_canonical_paths(&mut data, &results, Some(Err("denied".to_string())));
    assert!(changed);
    assert_eq!(data.projects[0].path(), "/Users/me/a");
    assert_eq!(data.projects[0].name(), "a");
    assert_eq!(data.projects[1].path(), "/Users/me/b");
    assert_eq!(data.projects[2].path(), "/gone");
    assert_eq!(data.active, None);
}

#[test]
fn apply_canonical_paths_moves_selection() {
    let mut data = ProjectsData::default();
    data.active = Some("/users/me/a".to_string());
    let changed = apply_canonical_paths(&mut data, &vec![], Some(Ok("/Users/me/a".to_string())));
    assert!(changed);
    assert_eq!(data.active, Some("/Users/me/a".to_string()));

    let changed = apply_canonical_paths(&mut data, &vec![], Some(Ok("/Users/me/a".to_string())));
    assert!(!changed);
    assert_eq!(data.active, Some("/Users/me/a".to_string()));
}

#[test]
fn projects_file_path_prefers_non_empty_override() {
    assert_eq!(
        projects_file_path_with(Some("/x/custom.json".to_string()), Some("/home/me".to_string())),
        "/x/custom.json"
    );
    assert_eq!(
        projects_file_path_with(Some(String::new()), Some("/home/me".to_string())),
        "/home/me/.kild/projects.json"
    );
    assert_eq!(
        projects_file_path_with(None, None),
        "./.kild/projects.json"
    );
}

#[test]
fn load_outcomes_record_errors() {
    let d = projects_from_load(LoadOutcome::Missing, "/p.json");
    assert!(d.projects.is_empty() && d.active.is_none() && d.load_error.is_none());
    let d = projects_from_load(LoadOutcome::Corrupted("bad json".to_string()), "/p.json");
    assert_eq!(
        d.load_error.unwrap(),
        "Projects file corrupted (bad json). Your project list could not be loaded. Delete /p.json to reset."
    );
    let d = projects_from_load(LoadOutcome::Unreadable("denied".to_string()), "/p.json");
    assert_eq!(
        d.load_error.unwrap(),
        "Failed to read projects file: denied. Check permissions on /p.json"
    );
    let mut parsed = ProjectsData::default();
    parsed.active = Some("/a".to_string());
    let d = projects_from_load(LoadOutcome::Parsed(parsed), "/p.json");
    assert_eq!(d.active, Some("/a".to_string()));
}

#[test]
fn selector_label_names_the_active_project() {
    let projects = vec![
        Project::new_unchecked("/a".to_string(), "alpha".to_string()),
        Project::new_unchecked("/b".to_string(), "beta".to_string()),
    ];
    assert_eq!(kild_ui::projects::project_selector_label(&projects, None), "All Projects");
    assert_eq!(kild_ui::projects::project_selector_label(&projects, Some("/b")), "beta");
    assert_eq!(kild_ui::projects::project_selector_label(&projects, Some("/b/")), "beta");
    assert_eq!(kild_ui::projects::project_selector_label(&projects, Some("/c")), "Select Project");
}
