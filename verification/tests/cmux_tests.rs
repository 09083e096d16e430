use cmuxinator::cmux::{
    join_texts, new_workspace_args, parse_window_create_id, parse_workspace_refs,
    window_id_from, workspace_group_args, workspace_refs_from, CmuxError, NewWorkspaceSpec,
};
use cmuxinator::layout::{LayoutNode, PaneNode};

#[test]
fn parses_window_id_from_window_create_json() {
    let window_id = parse_window_create_id(
        br#"{
            "window_id":"977EEEBE-E2CE-420B-89BC-BB8208DE43A3",
            "window_ref":"window:5"
        }"#,
    )
    .unwrap();

    assert_eq!(window_id, "977EEEBE-E2CE-420B-89BC-BB8208DE43A3");
}

#[test]
fn parses_workspace_refs_from_list_workspaces_json() {
    let refs = parse_workspace_refs(
        br#"{
            "window_ref":"window:3",
            "workspaces":[{"ref":"workspace:7"},{"ref":"workspace:8"}]
        }"#,
    )
    .unwrap();

    assert_eq!(refs, vec!["workspace:7", "workspace:8"]);
}

#[test]
fn reports_missing_or_malformed_json() {
    assert!(matches!(parse_window_create_id(b"not json"), Err(CmuxError::Json(_))));
    assert!(matches!(parse_window_create_id(br#"{"window_id": 5}"#), Err(CmuxError::MissingWindowId)));
    assert!(matches!(parse_workspace_refs(br#"{"workspaces": {}}"#), Err(CmuxError::MissingWorkspaces)));
    assert_eq!(
        parse_workspace_refs(br#"{"workspaces":[{"ref":"w:1"},{"id":2},{"ref":3}]}"#).unwrap(),
        vec!["w:1"]
    );
    assert!(matches!(window_id_from(None), Err(CmuxError::MissingWindowId)));
    assert_eq!(window_id_from(Some("w")).unwrap(), "w");
    assert_eq!(
        workspace_refs_from(&vec![Some("a".to_string()), None, Some("b".to_string())]),
        vec!["a", "b"]
    );
}

fn spec(cwd: Option<&str>) -> NewWorkspaceSpec {
    NewWorkspaceSpec {
        name: "dev".to_string(),
        cwd: cwd.map(|c| c.to_string()),
        layout: LayoutNode::Pane(PaneNode { surfaces: vec![] }),
    }
}

#[test]
fn builds_new_workspace_arguments() {
    assert_eq!(
        new_workspace_args(&spec(Some("/tmp/app")), "{}", "window:3", true),
        vec!["new-workspace", "--name", "dev", "--cwd", "/tmp/app", "--layout", "{}", "--window", "window:3", "--focus", "true"]
    );
    assert_eq!(
        new_workspace_args(&spec(None), "{}", "w", false),
        vec!["new-workspace", "--name", "dev", "--layout", "{}", "--window", "w", "--focus", "false"]
    );
}

#[test]
fn groups_two_or_more_workspaces() {
    let one = vec!["workspace:1".to_string()];
    assert_eq!(workspace_group_args("dex", &one, "w"), None);
    let two = vec!["workspace:1".to_string(), "workspace:2".to_string()];
    assert_eq!(
        workspace_group_args("dex", &two, "w").unwrap(),
        vec!["workspace-group", "create", "--name", "dex", "--from", "workspace:1,workspace:2", "--window", "w"]
    );
    assert_eq!(join_texts(&vec![], ","), "");
    assert_eq!(join_texts(&two, ", "), "workspace:1, workspace:2");
}

#[test]
fn reads_only_the_named_members() {
    assert!(matches!(
        parse_window_create_id(br#"{"window_ref":"window:5"}"#),
        Err(CmuxError::MissingWindowId)
    ));
    assert!(matches!(parse_window_create_id(br#"["window_id"]"#), Err(CmuxError::MissingWindowId)));
    assert!(matches!(parse_workspace_refs(br#"{"refs":[]}"#), Err(CmuxError::MissingWorkspaces)));
    assert_eq!(parse_workspace_refs(br#"{"workspaces":[]}"#).unwrap(), Vec::<String>::new());
    assert_eq!(
        parse_workspace_refs(br#"{"workspaces":[{"ref":"b","x":{"ref":"no"}},{"ref":"a"}]}"#).unwrap(),
        vec!["b", "a"]
    );
}

#[test]
fn builds_window_list_and_close_arguments() {
    assert_eq!(cmuxinator::cmux::window_create_args(), vec!["rpc", "window.create", "{}"]);
    assert_eq!(
        cmuxinator::cmux::list_workspaces_args("window:3"),
        vec!["list-workspaces", "--window", "window:3", "--json"]
    );
    assert_eq!(
        cmuxinator::cmux::close_workspace_args("workspace:1", "window:3"),
        vec!["close-workspace", "--workspace", "workspace:1", "--window", "window:3"]
    );
}
