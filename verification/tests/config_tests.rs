use cmuxinator::config::{
    ConfigError, LayoutPreset, Pane, PaneError, Project, Surface, SurfaceError, SurfaceType,
    Workspace, WorkspaceError,
};
use cmuxinator::paths::{NameProblem, PathError};

fn surface(name: &str) -> Surface {
    Surface {
        surface_type: SurfaceType::default(),
        name: Some(name.to_string()),
        command: None,
        url: None,
        focus: None,
    }
}

fn workspace(name: &str, panes: Vec<Pane>) -> Workspace {
    Workspace { name: name.to_string(), cwd: None, layout: None, panes }
}

fn project(workspaces: Vec<Workspace>) -> Project {
    Project { name: "dex".to_string(), workspaces }
}

fn pane(surfaces: Vec<Surface>) -> Pane {
    Pane { surfaces: Some(surfaces) }
}

fn empty_pane() -> Pane {
    Pane { surfaces: None }
}

#[test]
fn terminal_is_default_surface_type() {
    let mut shell = surface("shell");
    shell.command = Some("pi".to_string());
    let project = project(vec![workspace("dev", vec![pane(vec![shell])])]);

    let surface = project.workspaces[0].panes[0].surfaces.as_ref().unwrap()[0].surface_type;
    assert_eq!(surface, SurfaceType::Terminal);
    project.validate(None).unwrap();
}

#[test]
fn accepts_browser_surface_with_url() {
    let mut preview = surface("preview");
    preview.surface_type = SurfaceType::Browser;
    preview.url = Some("http://localhost:3000".to_string());
    let project = project(vec![workspace("dev", vec![pane(vec![preview])])]);

    project.validate(None).unwrap();
}

#[test]
fn rejects_browser_surface_without_url() {
    let mut preview = surface("preview");
    preview.surface_type = SurfaceType::Browser;
    let project = project(vec![workspace("dev", vec![pane(vec![preview])])]);

    assert!(project.validate(None).is_err());
}

#[test]
fn rejects_duplicate_workspace_names() {
    let project = project(vec![
        workspace("dev", vec![empty_pane()]),
        workspace("dev", vec![empty_pane()]),
    ]);

    assert!(project.validate(None).is_err());
}

#[test]
fn rejects_multiple_focused_surfaces() {
    let mut one = surface("one");
    one.focus = Some(true);
    let mut two = surface("two");
    two.focus = Some(true);
    let project = project(vec![workspace("dev", vec![pane(vec![one, two])])]);

    assert!(project.validate(None).is_err());
}

#[test]
fn reports_each_problem_where_it_occurs() {
    let mut terminal = surface("t");
    terminal.url = Some("http://x".to_string());
    let p = project(vec![workspace("dev", vec![empty_pane(), pane(vec![surface("a"), terminal])])]);
    assert_eq!(
        p.validate(None),
        Err(ConfigError::Workspace {
            workspace: 0,
            error: WorkspaceError::Pane {
                pane: 1,
                error: PaneError::Surface { surface: 1, error: SurfaceError::TerminalWithUrl },
            },
        })
    );

    let p = project(vec![workspace("dev", vec![empty_pane()]), workspace("ops", vec![])]);
    assert_eq!(
        p.validate(None),
        Err(ConfigError::Workspace { workspace: 1, error: WorkspaceError::NoPanes })
    );

    let p = project(vec![workspace("a", vec![empty_pane()]), workspace("b", vec![empty_pane()]), workspace("a", vec![empty_pane()])]);
    assert_eq!(p.validate(None), Err(ConfigError::DuplicateWorkspace { workspace: 2 }));

    let p = project(vec![]);
    assert_eq!(p.validate(None), Err(ConfigError::NoWorkspaces));

    let mut p = project(vec![workspace("dev", vec![empty_pane()])]);
    p.name = " \t".to_string();
    assert_eq!(p.validate(None), Err(ConfigError::Name(NameProblem::Empty)));
    p.name = "a\nb".to_string();
    assert_eq!(p.validate(None), Err(ConfigError::Name(NameProblem::Newline)));
    p.name = "a\0b".to_string();
    assert_eq!(p.validate(None), Err(ConfigError::Name(NameProblem::Nul)));
}

#[test]
fn browser_surface_errors() {
    let mut b = surface("b");
    b.surface_type = SurfaceType::Browser;
    b.command = Some("pi".to_string());
    b.url = Some("http://x".to_string());
    assert_eq!(b.validate(), Err(SurfaceError::BrowserWithCommand));
    b.command = None;
    b.url = Some("  ".to_string());
    assert_eq!(b.validate(), Err(SurfaceError::BrowserBlankUrl));
    b.url = None;
    assert_eq!(b.validate(), Err(SurfaceError::BrowserWithoutUrl));
    b.name = Some("".to_string());
    assert_eq!(b.validate(), Err(SurfaceError::Name(NameProblem::Empty)));
}

#[test]
fn empty_surface_list_is_refused() {
    assert_eq!(pane(vec![]).validate(), Err(PaneError::EmptySurfaces));
    assert_eq!(empty_pane().validate(), Ok(()));
}

#[test]
fn cwd_is_expanded_and_checked() {
    let mut w = workspace("dev", vec![empty_pane()]);
    w.cwd = Some("~/code".to_string());
    assert_eq!(w.validate(Some("/home/u")), Ok(()));
    w.cwd = Some("   ".to_string());
    assert_eq!(w.validate(Some("/home/u")), Err(WorkspaceError::Cwd(PathError::EmptyCwd)));
    w.cwd = Some("/tmp/\0x".to_string());
    assert_eq!(w.validate(None), Err(WorkspaceError::Cwd(PathError::NulInCwd)));
    w.cwd = Some("~".to_string());
    assert_eq!(w.validate(Some(" ")), Err(WorkspaceError::Cwd(PathError::EmptyCwd)));
}

#[test]
fn one_focused_surface_is_accepted() {
    let mut one = surface("one");
    one.focus = Some(true);
    let mut two = surface("two");
    two.focus = Some(false);
    let w = workspace("dev", vec![pane(vec![one]), pane(vec![two])]);
    assert_eq!(w.validate(None), Ok(()));
}

#[test]
fn layout_preset_defaults_to_even_horizontal() {
    let mut w = workspace("dev", vec![empty_pane()]);
    assert_eq!(w.layout_preset(), LayoutPreset::EvenHorizontal);
    w.layout = Some(LayoutPreset::Tiled);
    assert_eq!(w.layout_preset(), LayoutPreset::Tiled);
}
