use kild_ui::paths::{access_result, canonicalize_path, choose_slashed, normalize_project_path, plan_path, DirProbe, PlannedPath};

#[test]
fn tests_test_canonicalize_path_nonexistent_returns_error() {
    let result = canonicalize_path("/nonexistent/path/that/does/not/exist");
    assert!(result.is_err());
    assert!(result.unwrap_err().contains("Cannot access"));
}

#[test]
fn tests_test_canonicalize_path_existing() {
    let result = canonicalize_path("/").unwrap();
    let expected = std::path::Path::new("/").canonicalize().unwrap();
    assert_eq!(result, expected.to_str().unwrap());
}

#[test]
fn tests_test_normalize_path_with_leading_slash_nonexistent() {
    let result = normalize_project_path("/Users/test/project");
    assert!(result.is_err());
    assert!(result.unwrap_err().contains("Cannot access"));
}

#[test]
fn tests_test_normalize_path_tilde_expansion() {
    let result = normalize_project_path("~/projects/test");
    assert!(result.is_err());
    assert!(result.unwrap_err().contains("Cannot access"));
}

#[test]
fn tests_test_normalize_path_bare_tilde() {
    let result = normalize_project_path("~").unwrap();
    let expected_home = dirs::home_dir()
        .expect("test requires home dir")
        .canonicalize()
        .expect("home should be canonicalizable");
    assert_eq!(result, expected_home.to_str().unwrap());
}

#[test]
fn tests_test_normalize_path_trims_whitespace() {
    let result = normalize_project_path("  /Users/test/project  ");
    assert!(result.is_err());
    assert!(result.unwrap_err().contains("Cannot access"));
}

#[test]
fn tests_test_normalize_path_without_leading_slash_fallback() {
    let result = normalize_project_path("nonexistent/path/here");
    assert!(result.is_err());
    assert!(result.unwrap_err().contains("Cannot access"));
}

#[test]
fn tests_test_normalize_path_empty_string() {
    let result = normalize_project_path("");
    assert!(result.is_err());
    assert!(result.unwrap_err().contains("Cannot access"));
}

#[test]
fn tests_test_normalize_path_whitespace_only() {
    let result = normalize_project_path("   ");
    assert!(result.is_err());
    assert!(result.unwrap_err().contains("Cannot access"));
}

#[test]
fn tests_test_normalize_path_tilde_in_middle_not_expanded() {
    let result = normalize_project_path("/Users/test/~project");
    assert!(result.is_err());
    assert!(result.unwrap_err().contains("Cannot access"));
}

#[test]
fn tests_test_normalize_path_canonicalizes_existing_path() {
    let result = normalize_project_path("/").unwrap();
    let expected = std::path::Path::new("/").canonicalize().unwrap();
    assert_eq!(result, expected.to_str().unwrap());
}

#[test]
fn tests_test_normalize_path_lowercase_canonicalized() {
    if let Some(home) = dirs::home_dir() {
        let lowercase_path = home.to_str().unwrap().to_lowercase();
        let result = normalize_project_path(&lowercase_path).unwrap();

        assert!(
            std::path::Path::new(&result).exists(),
            "Canonicalized path should exist"
        );

        let expected = home.canonicalize().unwrap();
        assert_eq!(result, expected.to_str().unwrap());
    }
}

#[test]
fn slash_is_added_when_that_is_a_directory() {
    assert_eq!(normalize_project_path("tmp").ok(), canonicalize_path("/tmp").ok());
}

#[test]
fn access_error_names_the_path() {
    let r = access_result("/x", Err("No such file or directory (os error 2)".to_string()));
    assert_eq!(
        r.unwrap_err(),
        "Cannot access '/x': No such file or directory (os error 2)"
    );
    let r = access_result("/x", Ok("/y".to_string()));
    assert_eq!(r.unwrap(), "/y");
}

#[test]
fn plans_cover_tilde_and_relative_forms() {
    match plan_path("~/code", Some("/home/me".to_string())) {
        PlannedPath::Canonicalize(p) => assert_eq!(p, "/home/me/code"),
        _ => panic!("expected a path"),
    }
    match plan_path("~", Some("/home/me".to_string())) {
        PlannedPath::Canonicalize(p) => assert_eq!(p, "/home/me"),
        _ => panic!("expected a path"),
    }
    match plan_path("~proj", Some("/home/me".to_string())) {
        PlannedPath::Canonicalize(p) => assert_eq!(p, "~proj"),
        _ => panic!("expected a path"),
    }
    assert!(matches!(plan_path("~/code", None), PlannedPath::NoHome));
    match plan_path("users/me", None) {
        PlannedPath::TrySlashed(a, b) => {
            assert_eq!(a, "/users/me");
            assert_eq!(b, "users/me");
        }
        _ => panic!("expected a slashed try"),
    }
    match plan_path("", None) {
        PlannedPath::Canonicalize(p) => assert_eq!(p, ""),
        _ => panic!("expected a path"),
    }
}

#[test]
fn slashed_choice_follows_the_probe() {
    let a = || "/users/me".to_string();
    let b = || "users/me".to_string();
    assert_eq!(choose_slashed(a(), b(), DirProbe::Metadata { is_dir: true }), Ok(a()));
    assert_eq!(choose_slashed(a(), b(), DirProbe::Metadata { is_dir: false }), Ok(b()));
    assert_eq!(choose_slashed(a(), b(), DirProbe::NotFound), Ok(b()));
    assert_eq!(
        choose_slashed(a(), b(), DirProbe::Failed("denied".to_string())),
        Err("Cannot access '/users/me': denied".to_string())
    );
}

#[test]
fn main_view_test_normalize_path_with_leading_slash_nonexistent() {
    let result = normalize_project_path("/Users/test/project");
    assert!(result.is_err());
    assert!(result.unwrap_err().contains("Cannot access"));
}

#[test]
fn main_view_test_normalize_path_tilde_expansion() {
    let result = normalize_project_path("~/projects/test");
    assert!(result.is_err());
    assert!(result.unwrap_err().contains("Cannot access"));
}

#[test]
fn main_view_test_normalize_path_bare_tilde() {
    let result = normalize_project_path("~").unwrap();
    let expected_home = dirs::home_dir()
        .expect("test requires home dir")
        .canonicalize()
        .expect("home should be canonicalizable");
    assert_eq!(result, expected_home.to_str().unwrap());
}

#[test]
fn main_view_test_normalize_path_trims_whitespace() {
    let result = normalize_project_path("  /Users/test/project  ");
    assert!(result.is_err());
    assert!(result.unwrap_err().contains("Cannot access"));
}

#[test]
fn main_view_test_normalize_path_without_leading_slash_fallback() {
    let result = normalize_project_path("nonexistent/path/here");
    assert!(result.is_err());
    assert!(result.unwrap_err().contains("Cannot access"));
}

#[test]
fn main_view_test_normalize_path_empty_string() {
    let result = normalize_project_path("");
    assert!(result.is_err());
    assert!(result.unwrap_err().contains("Cannot access"));
}

#[test]
fn main_view_test_normalize_path_whitespace_only() {
    let result = normalize_project_path("   ");
    assert!(result.is_err());
    assert!(result.unwrap_err().contains("Cannot access"));
}

#[test]
fn main_view_test_normalize_path_tilde_in_middle_not_expanded() {
    let result = normalize_project_path("/Users/test/~project");
    assert!(result.is_err());
    assert!(result.unwrap_err().contains("Cannot access"));
}

#[test]
fn main_view_test_normalize_path_canonicalizes_existing_path() {
    let result = normalize_project_path("/").unwrap();
    let expected = std::path::Path::new("/").canonicalize().unwrap();
    assert_eq!(result, expected.to_str().unwrap());
}

#[test]
fn main_view_test_normalize_path_lowercase_canonicalized() {
    if let Some(home) = dirs::home_dir() {
        let lowercase_path = home.to_str().unwrap().to_lowercase();
        let result = normalize_project_path(&lowercase_path).unwrap();

        assert!(
            std::path::Path::new(&result).exists(),
            "Canonicalized path should exist"
        );

        let expected = home.canonicalize().unwrap();
        assert_eq!(result, expected.to_str().unwrap());
    }
}

#[test]
fn main_view_test_canonicalize_path_existing() {
    let result = canonicalize_path("/").unwrap();
    let expected = std::path::Path::new("/").canonicalize().unwrap();
    assert_eq!(result, expected.to_str().unwrap());
}

#[test]
fn main_view_test_canonicalize_path_nonexistent_returns_error() {
    let result = canonicalize_path("/nonexistent/path/that/does/not/exist");
    assert!(result.is_err());
    assert!(result.unwrap_err().contains("Cannot access"));
}

#[test]
fn home_paths_join_with_one_separator() {
    match plan_path("~/code", Some("/home/me/".to_string())) {
        PlannedPath::Canonicalize(p) => assert_eq!(p, "/home/me/code"),
        _ => panic!("expected a path to canonicalise"),
    }
    match plan_path("~//abs", Some("/home/me".to_string())) {
        PlannedPath::Canonicalize(p) => assert_eq!(p, "/abs"),
        _ => panic!("expected a path to canonicalise"),
    }
}

#[test]
fn canonical_paths_have_no_dot_components() {
    let c = canonicalize_path("/tmp/./..//tmp/.").unwrap();
    assert!(c.starts_with('/'));
    assert!(c.split('/').all(|seg| seg != "." && seg != ".."));
}
