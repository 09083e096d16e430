use cmuxinator::cmux::CmuxError;
use cmuxinator::commands::new::NewError;
use cmuxinator::commands::start::StartError;
use cmuxinator::config::{
    ConfigError, Pane, PaneError, Project, Surface, SurfaceError, SurfaceType, Workspace,
    WorkspaceError,
};
use cmuxinator::messages::name_message;
use cmuxinator::paths::{validate_name, NameProblem, PathError};

fn focused(name: &str) -> Surface {
    Surface {
        surface_type: SurfaceType::Terminal,
        name: Some(name.to_string()),
        command: None,
        url: None,
        focus: Some(true),
    }
}

fn dev(panes: Vec<Pane>) -> Workspace {
    Workspace { name: "dev".to_string(), cwd: None, layout: None, panes }
}

#[test]
fn name_messages() {
    assert_eq!(name_message("project", " ", NameProblem::Empty), "project name cannot be empty");
    assert_eq!(
        name_message("workspace", "a\nb", NameProblem::Newline),
        "workspace name cannot contain newlines: \"a\\nb\""
    );
    assert_eq!(
        name_message("surface", "a\0", NameProblem::Nul),
        "surface name cannot contain a NUL byte"
    );
    let e = validate_name("x\ry", "workspace").unwrap_err();
    assert_eq!(e.message(), "workspace name cannot contain newlines: \"x\\ry\"");
}

#[test]
fn path_messages() {
    assert_eq!(
        PathError::PathSeparator.message("a/b"),
        "project name must not contain path separators: a/b"
    );
    assert_eq!(PathError::DotName.message(".."), "project name cannot be \"..\"");
    assert_eq!(
        PathError::FileExtension.message("dex.yml"),
        "project name should not include a file extension: dex.yml"
    );
    assert_eq!(PathError::EmptyCwd.message(""), "cwd cannot be empty");
    assert_eq!(PathError::NulInCwd.message(""), "cwd contains a NUL byte");
    assert_eq!(PathError::NoHomeDirectory.message("x"), "could not determine home directory");
    assert_eq!(PathError::Name(NameProblem::Empty).message(""), "project name cannot be empty");
}

#[test]
fn multiple_focus_counts_across_panes() {
    let w = dev(vec![
        Pane { surfaces: Some(vec![focused("one")]) },
        Pane { surfaces: Some(vec![focused("two")]) },
    ]);
    let e = w.validate(None).unwrap_err();
    assert_eq!(e, WorkspaceError::MultipleFocus);
    let r = e.report(&w);
    assert_eq!(r.message, "workspace dev has multiple surfaces with focus: true");
    assert_eq!(r.cause, None);
}

#[test]
fn browser_without_url_message() {
    let s = Surface {
        surface_type: SurfaceType::Browser,
        name: Some("preview".to_string()),
        command: None,
        url: None,
        focus: None,
    };
    let e = s.validate().unwrap_err();
    let r = e.report("dev", 0, 0, "preview");
    assert_eq!(r.message, "browser workspace dev pane 1 surface 1 must define url");
    assert_eq!(
        SurfaceError::TerminalWithUrl.report("dev", 1, 2, "").message,
        "terminal workspace dev pane 2 surface 3 must not define url"
    );
    assert_eq!(
        SurfaceError::BrowserWithCommand.report("dev", 0, 0, "").message,
        "browser workspace dev pane 1 surface 1 must not define command"
    );
    assert_eq!(
        SurfaceError::BrowserBlankUrl.report("dev", 0, 9, "").message,
        "browser workspace dev pane 1 surface 10 must define a non-empty url"
    );
    let named = SurfaceError::Name(NameProblem::Empty).report("dev", 0, 1, " ");
    assert_eq!(named.message, "invalid name for workspace dev pane 1 surface 2");
    assert_eq!(named.cause.as_deref(), Some("surface name cannot be empty"));
}

#[test]
fn workspace_and_project_messages() {
    let mut bad = focused(" ");
    bad.focus = None;
    let w = dev(vec![Pane { surfaces: Some(vec![]) }, Pane { surfaces: Some(vec![bad]) }]);
    let empty = WorkspaceError::Pane { pane: 0, error: PaneError::EmptySurfaces }.report(&w);
    assert_eq!(empty.message, "workspace dev pane 1 must not use surfaces: []");
    let named = WorkspaceError::Pane {
        pane: 1,
        error: PaneError::Surface { surface: 0, error: SurfaceError::Name(NameProblem::Empty) },
    }
    .report(&w);
    assert_eq!(named.message, "invalid name for workspace dev pane 2 surface 1");
    assert_eq!(named.cause.as_deref(), Some("surface name cannot be empty"));
    assert_eq!(
        WorkspaceError::NoPanes.report(&w).message,
        "workspace dev must define at least one pane"
    );
    let cwd = WorkspaceError::Cwd(PathError::EmptyCwd).report(&w);
    assert_eq!(cwd.message, "invalid cwd for workspace dev");
    assert_eq!(cwd.cause.as_deref(), Some("cwd cannot be empty"));

    let p = Project { name: "dex".to_string(), workspaces: vec![w.clone(), w] };
    assert_eq!(
        ConfigError::NoWorkspaces.report(&p).message,
        "project dex must define at least one workspace"
    );
    assert_eq!(
        ConfigError::DuplicateWorkspace { workspace: 1 }.report(&p).message,
        "project dex defines duplicate workspace name dev"
    );
    assert_eq!(
        ConfigError::Workspace { workspace: 0, error: WorkspaceError::NoPanes }.report(&p).message,
        "workspace dev must define at least one pane"
    );
}

#[test]
fn start_messages() {
    let p = Project { name: "dex".to_string(), workspaces: vec![dev(vec![])] };
    let unknown = StartError::UnknownWorkspaces { names: vec!["a".to_string(), "b".to_string()] };
    assert_eq!(
        unknown.report(&p, "").message,
        "project dex does not define workspace(s): a, b"
    );
    assert_eq!(
        StartError::NoNewWorkspace.report(&p, "window:3").message,
        "no new workspace appeared in window window:3"
    );
    let many = StartError::MultipleNewWorkspaces { refs: vec!["w:1".to_string(), "w:2".to_string()] };
    assert_eq!(
        many.report(&p, "window:3").message,
        "multiple new workspaces appeared in window window:3: w:1, w:2"
    );
    let cwd = StartError::InvalidCwd { workspace: 0, error: PathError::NulInCwd }.report(&p, "");
    assert_eq!(cwd.message, "invalid cwd for workspace dev");
    assert_eq!(cwd.cause.as_deref(), Some("cwd contains a NUL byte"));
    assert_eq!(
        StartError::UnexpectedEvent.report(&p, "").message,
        "cmux start sequence went out of step"
    );
}

#[test]
fn new_and_cmux_messages() {
    assert_eq!(
        NewError::AlreadyExists { path: "/c/dex.yml".to_string() }.message("dex"),
        "project file already exists at /c/dex.yml; pass --force to overwrite"
    );
    assert_eq!(
        NewError::Path(PathError::DotName).message("."),
        "project name cannot be \".\""
    );
    assert_eq!(
        CmuxError::MissingWindowId.message("window.create"),
        "window.create response did not contain window_id"
    );
    assert_eq!(
        CmuxError::MissingWorkspaces.message("cmux list-workspaces"),
        "cmux list-workspaces JSON did not contain workspaces[]"
    );
    let json = cmuxinator::cmux::parse_window_create_id(b"{").unwrap_err();
    assert_eq!(json.message("window.create"), "failed to parse window.create JSON");
}
