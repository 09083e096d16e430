use cmuxinator::cmux::NewWorkspaceSpec;
use cmuxinator::formatting::{command_shape, decimal_string, validation_success};
use cmuxinator::layout::{LayoutNode, PaneNode, SurfaceEntry};
use cmuxinator::templates::project_template;

#[test]
fn dry_run_command_shape_includes_window_and_cwd_when_present() {
    let spec = NewWorkspaceSpec {
        name: "dev".to_string(),
        cwd: Some("/tmp/app".to_string()),
        layout: LayoutNode::Pane(PaneNode {
            surfaces: vec![SurfaceEntry::Terminal { command: None, name: None, focus: None }],
        }),
    };

    assert_eq!(
        command_shape(&spec, "window:3", true),
        "cmux new-workspace --name dev --cwd /tmp/app --layout <json> --window window:3 --focus true"
    );
}

#[test]
fn command_shape_without_cwd() {
    let spec = NewWorkspaceSpec {
        name: "dev".to_string(),
        cwd: None,
        layout: LayoutNode::Pane(PaneNode { surfaces: vec![] }),
    };
    assert_eq!(
        command_shape(&spec, "<new-window>", false),
        "cmux new-workspace --name dev --layout <json> --window <new-window> --focus false"
    );
}

#[test]
fn decimal_numbers() {
    assert_eq!(decimal_string(0), "0");
    assert_eq!(decimal_string(7), "7");
    assert_eq!(decimal_string(10), "10");
    assert_eq!(decimal_string(1234567), "1234567");
    assert_eq!(decimal_string(usize::MAX), usize::MAX.to_string());
}

#[test]
fn validation_message() {
    assert_eq!(validation_success("dex", "/c/dex.yml"), "Project dex is valid (/c/dex.yml)");
}

#[test]
fn template_contains_project_name_and_browser_example() {
    let template = project_template("dex");
    assert!(template.contains("name: dex"));
    assert!(template.contains("type: browser"));
    assert!(template.contains("alias cmx='cmuxinator'"));
}

#[test]
fn template_names_the_project_everywhere() {
    let template = project_template("shop");
    assert!(template.starts_with("# cmuxinator project config\n# Canonical command: cmuxinator start shop\n"));
    assert_eq!(template.matches("cwd: ~/codebase/shop").count(), 2);
    assert!(template.ends_with("url: http://localhost:3000\n"));
}

#[test]
fn ordinals_count_from_one() {
    assert_eq!(cmuxinator::formatting::ordinal_string(0), "1");
    assert_eq!(cmuxinator::formatting::ordinal_string(9), "10");
    assert_eq!(cmuxinator::formatting::ordinal_string(usize::MAX), (usize::MAX as u128 + 1).to_string());
}

#[test]
fn dry_run_shape_is_the_new_workspace_call() {
    for cwd in [Some("/tmp/app".to_string()), None] {
        let spec = NewWorkspaceSpec {
            name: "dev".to_string(),
            cwd,
            layout: LayoutNode::Pane(PaneNode { surfaces: vec![] }),
        };
        for focus in [true, false] {
            let args = cmuxinator::cmux::new_workspace_args(&spec, "<json>", "window:1", focus);
            assert_eq!(command_shape(&spec, "window:1", focus), format!("cmux {}", args.join(" ")));
        }
    }
}
