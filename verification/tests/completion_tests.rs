use cmuxinator::completion::{
    completion_slot, filter_values, is_positional_value, project_from_completion_words,
    project_or_workspace_values, CompletionSlot,
};

fn words(list: &[&str]) -> Vec<String> {
    list.iter().map(|w| w.to_string()).collect()
}

#[test]
fn finds_project_for_workspace_completion() {
    let words = ["cmuxinator", "start", "--group", "dex", ""]
        .into_iter()
        .map(String::from)
        .collect::<Vec<_>>();

    assert_eq!(project_from_completion_words(&words).as_deref(), Some("dex"));
}

#[test]
fn treats_empty_start_position_as_project_slot() {
    let words = ["cmuxinator", "start", ""].into_iter().map(String::from).collect::<Vec<_>>();

    assert_eq!(completion_slot(&words, 2), Some(CompletionSlot::Project));
}

#[test]
fn treats_position_after_project_as_workspace_slot() {
    let words = ["cmuxinator", "start", "--group", "dex", ""]
        .into_iter()
        .map(String::from)
        .collect::<Vec<_>>();

    assert_eq!(completion_slot(&words, 4), Some(CompletionSlot::Workspace("dex".into())));
}

#[test]
fn lets_clap_handle_option_completion() {
    let words = ["cmuxinator", "start", "--"].into_iter().map(String::from).collect::<Vec<_>>();

    assert_eq!(completion_slot(&words, 2), None);
}

#[test]
fn filters_completion_candidates_by_prefix() {
    let values = filter_values("de", vec!["dex".into(), "pi".into()]);

    assert_eq!(values, vec!["dex"]);
}

#[test]
fn filters_values_by_prefix() {
    let values = filter_values("de", vec!["dex".into(), "pi".into(), "dev".into()]);
    assert_eq!(values, vec!["dex", "dev"]);
    assert_eq!(filter_values("", vec!["a".into(), "b".into()]), vec!["a", "b"]);
}

#[test]
fn validate_takes_one_project() {
    assert_eq!(completion_slot(&words(&["c", "validate", ""]), 2), Some(CompletionSlot::Project));
    assert_eq!(
        completion_slot(&words(&["c", "validate", "dex", ""]), 3),
        Some(CompletionSlot::NoValues)
    );
    assert_eq!(completion_slot(&words(&["c", "list", ""]), 2), None);
    assert_eq!(completion_slot(&words(&["c", "start"]), 1), None);
    assert_eq!(completion_slot(&words(&["c", "dry-run"]), 5), Some(CompletionSlot::Project));
}

#[test]
fn candidates_follow_the_slot() {
    let projects = vec!["dex".to_string(), "home".to_string()];
    let workspaces = vec!["agents".to_string(), "dev".to_string()];
    assert_eq!(
        project_or_workspace_values(&words(&["c", "start", "d"]), 2, projects.clone(), workspaces.clone()),
        Some(vec!["dex".to_string()])
    );
    assert_eq!(
        project_or_workspace_values(&words(&["c", "start", "dex", "a"]), 3, projects.clone(), workspaces.clone()),
        Some(vec!["agents".to_string()])
    );
    assert_eq!(
        project_or_workspace_values(&words(&["c", "validate", "dex", ""]), 3, projects.clone(), workspaces.clone()),
        Some(vec![])
    );
    assert_eq!(
        project_or_workspace_values(&words(&["c", "start", "-"]), 2, projects, workspaces),
        None
    );
}

#[test]
fn positional_values() {
    assert!(is_positional_value("dex"));
    assert!(!is_positional_value("--group"));
    assert!(!is_positional_value(""));
    assert_eq!(project_from_completion_words(&words(&["c", "validate", "dex"])), None);
    assert_eq!(project_from_completion_words(&words(&["c", "start", "--group"])), None);
}

#[test]
fn workspace_names_are_offered_once() {
    let mut names = words(&["dev", "ops"]);
    cmuxinator::completion::add_new_names(&mut names, &words(&["ops", "web", "web", "dev", "db"]));
    assert_eq!(names, words(&["dev", "ops", "web", "db"]));
    cmuxinator::completion::add_new_names(&mut names, &words(&["db", "web"]));
    assert_eq!(names, words(&["dev", "ops", "web", "db"]));
}
