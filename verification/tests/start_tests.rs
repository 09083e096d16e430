use cmuxinator::commands::start::{
    build_plan, dry_run, new_workspace_ref, select_specs, StartAction, StartError, StartEvent,
    StartPlan, StartRun,
};
use cmuxinator::config::{ConfigError, Pane, Project, Workspace};
use cmuxinator::formatting::DryRunLine;
use cmuxinator::paths::PathError;

fn project(names: &[&str]) -> Project {
    Project {
        name: "dex".to_string(),
        workspaces: names
            .iter()
            .map(|n| Workspace {
                name: n.to_string(),
                cwd: None,
                layout: None,
                panes: vec![Pane { surfaces: None }],
            })
            .collect(),
    }
}

fn texts(list: &[&str]) -> Vec<String> {
    list.iter().map(|s| s.to_string()).collect()
}

#[test]
fn selects_only_requested_workspaces() {
    let project = project(&["agents", "dev"]);
    project.validate(None).unwrap();

    let specs = select_specs(&project, &vec!["dev".to_string()], None).unwrap();
    assert_eq!(specs.len(), 1);
    assert_eq!(specs[0].name, "dev");
}

#[test]
fn rejects_unknown_requested_workspaces() {
    let project = project(&["dev"]);
    project.validate(None).unwrap();

    assert!(select_specs(&project, &vec!["agents".to_string()], None).is_err());
}

#[test]
fn selects_all_without_names_in_project_order() {
    let p = project(&["a", "b", "c"]);
    let specs = select_specs(&p, &vec![], None).unwrap();
    let names: Vec<&str> = specs.iter().map(|s| s.name.as_str()).collect();
    assert_eq!(names, vec!["a", "b", "c"]);
    let specs = select_specs(&p, &texts(&["c", "a"]), None).unwrap();
    let names: Vec<&str> = specs.iter().map(|s| s.name.as_str()).collect();
    assert_eq!(names, vec!["a", "c"]);
}

#[test]
fn unknown_names_are_listed_once_in_request_order() {
    let p = project(&["dev"]);
    match select_specs(&p, &texts(&["x", "dev", "y", "x"]), None) {
        Err(StartError::UnknownWorkspaces { names }) => assert_eq!(names, vec!["x", "y"]),
        other => panic!("{:?}", other),
    }
}

#[test]
fn cwds_are_expanded_in_specs() {
    let mut p = project(&["dev"]);
    p.workspaces[0].cwd = Some("~/app".to_string());
    let specs = select_specs(&p, &vec![], Some("/home/u")).unwrap();
    assert_eq!(specs[0].cwd.as_deref(), Some("/home/u/app"));
    p.workspaces[0].cwd = Some(" ".to_string());
    match select_specs(&p, &vec![], None) {
        Err(StartError::InvalidCwd { workspace: 0, error: PathError::EmptyCwd }) => {}
        other => panic!("{:?}", other),
    }
}

#[test]
fn plans_validate_first() {
    let p = project(&["dev", "dev"]);
    match build_plan(&p, &vec![], None) {
        Err(StartError::Config(ConfigError::DuplicateWorkspace { workspace: 1 })) => {}
        other => panic!("{:?}", other),
    }
    let plan = build_plan(&project(&["a", "b"]), &vec![], None).unwrap();
    assert_eq!(plan.project_name, "dex");
    assert_eq!(plan.specs.len(), 2);
}

#[test]
fn finds_the_one_new_workspace() {
    let before = texts(&["workspace:1"]);
    assert_eq!(
        new_workspace_ref(&before, &texts(&["workspace:1", "workspace:2"])).unwrap(),
        "workspace:2"
    );
    assert!(matches!(
        new_workspace_ref(&before, &texts(&["workspace:1"])),
        Err(StartError::NoNewWorkspace)
    ));
    match new_workspace_ref(&before, &texts(&["workspace:3", "workspace:1", "workspace:4"])) {
        Err(StartError::MultipleNewWorkspaces { refs }) => {
            assert_eq!(refs, vec!["workspace:3", "workspace:4"])
        }
        other => panic!("{:?}", other),
    }
}

#[test]
fn dry_run_prints_the_plan() {
    let p = project(&["a", "b"]);
    let (plan, lines) = dry_run(&p, &vec![], true, None).unwrap();
    assert_eq!(plan.specs.len(), 2);
    let text: Vec<String> = lines
        .iter()
        .map(|l| match l {
            DryRunLine::Text(t) => t.clone(),
            DryRunLine::Layout(i) => format!("<layout {}>", i),
        })
        .collect();
    assert_eq!(
        text,
        vec![
            "cmuxinator dry-run: 2 workspace(s)",
            "",
            "# create project window",
            "cmux rpc window.create '{}'",
            "cmux list-workspaces --window <new-window> --json",
            "",
            "# workspace: a",
            "cmux new-workspace --name a --layout <json> --window <new-window> --focus true",
            "<layout 0>",
            "",
            "# workspace: b",
            "cmux new-workspace --name b --layout <json> --window <new-window> --focus false",
            "<layout 1>",
            "",
            "# close placeholder workspace(s) created by cmux window.create",
            "cmux close-workspace --workspace <placeholder-workspace> --window <new-window>",
            "",
            "# group project workspaces under a collapsible sidebar header",
            "cmux workspace-group create --name dex --from <created-workspace-refs> --window <new-window>",
        ]
    );
}

fn drive(plan: &StartPlan, group: bool) -> Vec<String> {
    let (mut run, mut action) = StartRun::new(plan, group);
    let mut log = Vec::new();
    let mut workspaces: Vec<String> = vec!["workspace:0".to_string()];
    let mut next = 1;
    loop {
        let event = match &action {
            StartAction::CheckCmux => {
                log.push("check".to_string());
                StartEvent::Done
            }
            StartAction::CreateWindow => {
                log.push("window".to_string());
                StartEvent::WindowCreated("window:9".to_string())
            }
            StartAction::ListWorkspaces { window } => {
                assert_eq!(window, "window:9");
                StartEvent::Workspaces(workspaces.clone())
            }
            StartAction::CreateWorkspace { index, focus, .. } => {
                log.push(format!("create {} {}", index, focus));
                workspaces.push(format!("workspace:{}", next));
                next += 1;
                StartEvent::Done
            }
            StartAction::ClosePlaceholder { workspace_ref, .. } => {
                log.push(format!("close {}", workspace_ref));
                StartEvent::Done
            }
            StartAction::CreateGroup { name, refs, .. } => {
                log.push(format!("group {} {}", name, refs.join(",")));
                StartEvent::Done
            }
            StartAction::Finished => break,
        };
        action = run.step(event).unwrap();
    }
    log
}

#[test]
fn start_runs_in_order() {
    let plan = build_plan(&project(&["a", "b"]), &vec![], None).unwrap();
    assert_eq!(
        drive(&plan, true),
        vec![
            "check",
            "window",
            "create 0 true",
            "create 1 false",
            "close workspace:0",
            "group dex workspace:1,workspace:2",
        ]
    );
    assert_eq!(
        drive(&plan, false),
        vec!["check", "window", "create 0 true", "create 1 false", "close workspace:0"]
    );
    let single = build_plan(&project(&["a"]), &vec![], None).unwrap();
    assert_eq!(
        drive(&single, true),
        vec!["check", "window", "create 0 true", "close workspace:0"]
    );
}

#[test]
fn start_refuses_an_event_of_the_wrong_kind() {
    let plan = build_plan(&project(&["a"]), &vec![], None).unwrap();
    let (mut run, _) = StartRun::new(&plan, false);
    assert!(matches!(
        run.step(StartEvent::Workspaces(vec![])),
        Err(StartError::UnexpectedEvent)
    ));
    assert!(matches!(run.step(StartEvent::Done), Ok(StartAction::CreateWindow)));
}

#[test]
fn created_workspace_is_found_against_the_listing_before_it() {
    let plan = build_plan(&project(&["a"]), &vec![], None).unwrap();
    let (mut run, _) = StartRun::new(&plan, true);
    assert!(matches!(run.step(StartEvent::Done), Ok(StartAction::CreateWindow)));
    let a = run.step(StartEvent::WindowCreated("window:9".to_string())).unwrap();
    assert!(matches!(a, StartAction::ListWorkspaces { .. }));
    let a = run.step(StartEvent::Workspaces(texts(&["workspace:0"]))).unwrap();
    assert!(matches!(a, StartAction::ListWorkspaces { .. }));
    // Another workspace appeared before this one was created: it is not taken
    // as the created one.
    let a = run.step(StartEvent::Workspaces(texts(&["workspace:0", "workspace:5"]))).unwrap();
    assert!(matches!(a, StartAction::CreateWorkspace { index: 0, focus: true, .. }));
    let a = run.step(StartEvent::Done).unwrap();
    assert!(matches!(a, StartAction::ListWorkspaces { .. }));
    let a = run
        .step(StartEvent::Workspaces(texts(&["workspace:0", "workspace:5", "workspace:6"])))
        .unwrap();
    match a {
        StartAction::ClosePlaceholder { workspace_ref, .. } => assert_eq!(workspace_ref, "workspace:0"),
        other => panic!("unexpected {:?}", other),
    }
}
