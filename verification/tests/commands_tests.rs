use cmuxinator::commands::list::{run as list_projects, stem_of, text_less};
use cmuxinator::commands::new::{run as new_project, NewError};
use cmuxinator::commands::validate::run as validate_project;
use cmuxinator::config::{ConfigError, Pane, Project, Workspace};
use cmuxinator::paths::PathError;

#[test]
fn lists_projects_sorted_once_each() {
    let files: Vec<String> = ["b.yml", "a.yaml", "notes.txt", ".yml", "a.yml", "c.yaml.bak", "z.y.yml"]
        .iter()
        .map(|s| s.to_string())
        .collect();
    assert_eq!(list_projects(&files), vec!["a", "b", "z.y"]);
    assert_eq!(list_projects(&vec![]), Vec::<String>::new());
}

#[test]
fn stems_and_order() {
    assert_eq!(stem_of("dex.yml").as_deref(), Some("dex"));
    assert_eq!(stem_of("dex.yaml").as_deref(), Some("dex"));
    assert_eq!(stem_of(".yaml"), None);
    assert_eq!(stem_of("..yml").as_deref(), Some("."));
    assert!(text_less("a", "b"));
    assert!(text_less("a", "ab"));
    assert!(!text_less("b", "ab"));
    assert!(!text_less("x", "x"));
    assert!(text_less("Z", "a"));
}

#[test]
fn new_writes_the_template_unless_a_file_exists() {
    let f = new_project("dex", None, Some("/c"), false, false, false, false, false).unwrap();
    assert_eq!(f.path, "/c/dex.yml");
    assert!(f.contents.contains("name: dex"));
    match new_project("dex", None, Some("/c"), false, true, true, false, false) {
        Err(NewError::AlreadyExists { path }) => assert_eq!(path, "/c/dex.yaml"),
        other => panic!("{:?}", other),
    }
    let f = new_project("dex", None, Some("/c"), false, true, true, false, true).unwrap();
    assert_eq!(f.path, "/c/dex.yaml");
    assert!(matches!(
        new_project("dex.yml", None, Some("/c"), false, false, false, false, true),
        Err(NewError::Path(PathError::FileExtension))
    ));
    assert!(matches!(
        new_project("dex", None, None, false, false, false, false, true),
        Err(NewError::Path(PathError::NoHomeDirectory))
    ));
}

#[test]
fn validate_reports_the_file() {
    let p = Project {
        name: "dex".to_string(),
        workspaces: vec![Workspace {
            name: "dev".to_string(),
            cwd: None,
            layout: None,
            panes: vec![Pane { surfaces: None }],
        }],
    };
    assert_eq!(validate_project(&p, "/c/dex.yml", None).unwrap(), "Project dex is valid (/c/dex.yml)");
    let empty = Project { name: "dex".to_string(), workspaces: vec![] };
    assert_eq!(validate_project(&empty, "/c/dex.yml", None), Err(ConfigError::NoWorkspaces));
}
