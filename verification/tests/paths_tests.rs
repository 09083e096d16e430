use cmuxinator::paths::{
    config_dir, config_file_path, expand_cwd, expand_tilde, join_path, looks_like_path,
    new_project_path, project_path, validate_name, validate_project_slug, NameProblem, PathError,
};

#[test]
fn rejects_project_slugs_with_extensions() {
    assert!(validate_project_slug("dex.yml").is_err());
}

#[test]
fn expands_tilde_paths() {
    let expanded = expand_cwd("~/example", Some("/home/user")).unwrap();
    assert!(!expanded.starts_with('~'));
}

#[test]
fn list_empty_when_config_dir_is_missing() {
    assert!(config_dir(None, Some("/home/user")).is_ok());
}

#[test]
fn slug_errors_come_in_order() {
    assert_eq!(validate_project_slug(""), Err(PathError::Name(NameProblem::Empty)));
    assert_eq!(validate_project_slug("a/b"), Err(PathError::PathSeparator));
    assert_eq!(validate_project_slug("a\\b"), Err(PathError::PathSeparator));
    assert_eq!(validate_project_slug("."), Err(PathError::DotName));
    assert_eq!(validate_project_slug(".."), Err(PathError::DotName));
    assert_eq!(validate_project_slug("dex.yaml"), Err(PathError::FileExtension));
    assert_eq!(validate_project_slug("dex"), Ok(()));
}

#[test]
fn names_report_kind_and_problem() {
    let e = validate_name("a\rb", "workspace").unwrap_err();
    assert_eq!(e.kind, "workspace");
    assert_eq!(e.name, "a\rb");
    assert_eq!(e.problem, NameProblem::Newline);
    assert!(validate_name(" ok ", "surface").is_ok());
}

#[test]
fn tilde_expansion_uses_the_given_home() {
    assert_eq!(expand_tilde("~/code/app", Some("/home/u")), "/home/u/code/app");
    assert_eq!(expand_tilde("~", Some("/home/u")), "/home/u");
    assert_eq!(expand_tilde("~other/x", Some("/home/u")), "~other/x");
    assert_eq!(expand_tilde("/abs/~", Some("/home/u")), "/abs/~");
    assert_eq!(expand_tilde("~/x", None), "~/x");
}

#[test]
fn cwd_errors() {
    assert_eq!(expand_cwd("", None), Err(PathError::EmptyCwd));
    assert_eq!(expand_cwd("a\0", None), Err(PathError::NulInCwd));
    assert_eq!(expand_cwd("/srv/app", Some("/home/u")).unwrap(), "/srv/app");
}

#[test]
fn config_dir_prefers_xdg() {
    assert_eq!(config_dir(Some("/xdg"), Some("/home/u")).unwrap(), "/xdg/cmuxinator");
    assert_eq!(config_dir(Some("/xdg/"), None).unwrap(), "/xdg/cmuxinator");
    assert_eq!(config_dir(Some("  "), Some("/home/u")).unwrap(), "/home/u/.config/cmuxinator");
    assert_eq!(config_dir(None, None), Err(PathError::NoHomeDirectory));
}

#[test]
fn joins_like_pathbuf() {
    assert_eq!(join_path("", "a.yml"), "a.yml");
    assert_eq!(join_path("/d/", "a.yml"), "/d/a.yml");
    assert_eq!(join_path("/d", "a.yml"), "/d/a.yml");
    assert_eq!(config_file_path("/d", "dex", ".yaml"), "/d/dex.yaml");
}

#[test]
fn path_like_arguments() {
    assert!(looks_like_path("~/p.yml"));
    assert!(looks_like_path("dir/p"));
    assert!(looks_like_path("p.yaml"));
    assert!(!looks_like_path(".yml"));
    assert!(!looks_like_path("dex"));
}

#[test]
fn project_paths() {
    let dir = Some("/c");
    assert_eq!(project_path("dex", None, dir, false, false).unwrap(), "/c/dex.yml");
    assert_eq!(project_path("dex", None, dir, false, true).unwrap(), "/c/dex.yaml");
    assert_eq!(project_path("dex", None, dir, true, true).unwrap(), "/c/dex.yml");
    assert_eq!(project_path("~/x.yml", Some("/h"), None, false, false).unwrap(), "/h/x.yml");
    assert_eq!(project_path("dex", None, None, false, false), Err(PathError::NoHomeDirectory));
}

#[test]
fn new_project_paths() {
    assert_eq!(new_project_path("dex", Some("/c")).unwrap(), "/c/dex.yml");
    assert_eq!(new_project_path("dex.yml", Some("/c")), Err(PathError::FileExtension));
    assert_eq!(new_project_path("dex", None), Err(PathError::NoHomeDirectory));
    // a project created by `new` is found again by `start`
    let created = new_project_path("dex", Some("/c")).unwrap();
    assert_eq!(project_path("dex", None, Some("/c"), true, false).unwrap(), created);
}

#[test]
fn backslash_after_tilde_is_left_alone() {
    assert_eq!(expand_tilde("~\\code", Some("/home/u")), "~\\code");
    assert_eq!(expand_cwd("~\\code", Some("/home/u")).unwrap(), "~\\code");
}

#[test]
fn expanding_twice_changes_nothing() {
    for input in ["~", "~/code", "~other", "/abs", "", "~\\x"] {
        let once = expand_tilde(input, Some("/home/u"));
        assert_eq!(expand_tilde(&once, Some("/home/u")), once);
    }
}
