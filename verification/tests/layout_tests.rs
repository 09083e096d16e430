use cmuxinator::config::{LayoutPreset, Pane, Project, Surface, SurfaceType, Workspace};
use cmuxinator::layout::{
    build_workspace_layout, split_balanced, split_main, split_tiled, LayoutNode, PaneNode, Ratio,
    SplitDirection, SurfaceEntry,
};

fn named_pane(name: &str) -> Pane {
    Pane {
        surfaces: Some(vec![Surface {
            surface_type: SurfaceType::Terminal,
            name: Some(name.to_string()),
            command: None,
            url: None,
            focus: None,
        }]),
    }
}

fn workspace_with(layout: Option<LayoutPreset>, panes: Vec<Pane>) -> Workspace {
    let project = Project {
        name: "dex".to_string(),
        workspaces: vec![Workspace { name: "dev".to_string(), cwd: None, layout, panes }],
    };
    project.validate(None).unwrap();
    project.workspaces.into_iter().next().unwrap()
}

fn ratio(node: &LayoutNode) -> f64 {
    match node {
        LayoutNode::Split { split, .. } => split.numerator as f64 / split.denominator as f64,
        LayoutNode::Pane(_) => panic!("not a split"),
    }
}

fn children(node: &LayoutNode) -> (&LayoutNode, &LayoutNode) {
    match node {
        LayoutNode::Split { first, second, .. } => (first, second),
        LayoutNode::Pane(_) => panic!("not a split"),
    }
}

fn direction(node: &LayoutNode) -> &'static str {
    match node {
        LayoutNode::Split { direction, .. } => direction.as_str(),
        LayoutNode::Pane(_) => panic!("not a split"),
    }
}

fn leaf_names(node: &LayoutNode, out: &mut Vec<String>) {
    match node {
        LayoutNode::Pane(p) => match &p.surfaces[0] {
            SurfaceEntry::Terminal { name, .. } | SurfaceEntry::Browser { name, .. } => {
                out.push(name.clone().unwrap_or_default())
            }
        },
        LayoutNode::Split { first, second, .. } => {
            leaf_names(first, out);
            leaf_names(second, out);
        }
    }
}

#[test]
fn builds_single_pane_layout() {
    let workspace = workspace_with(None, vec![named_pane("shell")]);

    let layout = build_workspace_layout(&workspace);
    assert_eq!(
        layout,
        LayoutNode::Pane(PaneNode {
            surfaces: vec![SurfaceEntry::Terminal {
                command: None,
                name: Some("shell".to_string()),
                focus: None,
            }],
        })
    );
}

#[test]
fn builds_two_pane_even_horizontal_layout() {
    let workspace = workspace_with(
        Some(LayoutPreset::EvenHorizontal),
        vec![named_pane("left"), named_pane("right")],
    );

    let layout = build_workspace_layout(&workspace);
    assert_eq!(direction(&layout), "horizontal");
    assert_eq!(ratio(&layout), 0.5);
    let (first, second) = children(&layout);
    assert!(matches!(first, LayoutNode::Pane(_)) && matches!(second, LayoutNode::Pane(_)));
}

#[test]
fn builds_three_pane_even_layout_with_equal_top_split() {
    let workspace = workspace_with(
        Some(LayoutPreset::EvenHorizontal),
        vec![named_pane("one"), named_pane("two"), named_pane("three")],
    );

    let layout = build_workspace_layout(&workspace);
    assert_eq!(direction(&layout), "horizontal");
    assert_eq!(ratio(&layout), 1.0 / 3.0);
    assert_eq!(ratio(children(&layout).1), 0.5);
}

#[test]
fn builds_four_pane_even_vertical_layout() {
    let workspace = workspace_with(
        Some(LayoutPreset::EvenVertical),
        vec![named_pane("one"), named_pane("two"), named_pane("three"), named_pane("four")],
    );

    let layout = build_workspace_layout(&workspace);
    assert_eq!(direction(&layout), "vertical");
    assert_eq!(ratio(&layout), 0.5);
    assert_eq!(ratio(children(&layout).0), 0.5);
    assert_eq!(ratio(children(&layout).1), 0.5);
}

#[test]
fn emits_browser_surface() {
    let workspace = workspace_with(
        None,
        vec![Pane {
            surfaces: Some(vec![Surface {
                surface_type: SurfaceType::Browser,
                name: Some("preview".to_string()),
                command: None,
                url: Some("http://localhost:3000".to_string()),
                focus: None,
            }]),
        }],
    );

    let layout = build_workspace_layout(&workspace);
    match layout {
        LayoutNode::Pane(p) => match &p.surfaces[0] {
            SurfaceEntry::Browser { url, .. } => {
                assert_eq!(url.as_deref(), Some("http://localhost:3000"))
            }
            other => panic!("expected a browser, got {:?}", other),
        },
        other => panic!("expected a pane, got {:?}", other),
    }
}

#[test]
fn layouts_keep_every_pane_in_order() {
    let names = ["a", "b", "c", "d", "e"];
    for preset in [
        LayoutPreset::EvenHorizontal,
        LayoutPreset::EvenVertical,
        LayoutPreset::MainHorizontal,
        LayoutPreset::MainVertical,
        LayoutPreset::Tiled,
    ] {
        let workspace =
            workspace_with(Some(preset), names.iter().map(|n| named_pane(n)).collect());
        let mut leaves = Vec::new();
        leaf_names(&build_workspace_layout(&workspace), &mut leaves);
        assert_eq!(leaves, names.to_vec(), "{:?}", preset);
    }
}

#[test]
fn main_layout_gives_the_first_pane_three_fifths() {
    let workspace = workspace_with(
        Some(LayoutPreset::MainVertical),
        vec![named_pane("main"), named_pane("b"), named_pane("c")],
    );
    let layout = build_workspace_layout(&workspace);
    assert_eq!(direction(&layout), "vertical");
    assert_eq!(ratio(&layout), 0.6);
    let (first, second) = children(&layout);
    assert!(matches!(first, LayoutNode::Pane(_)));
    assert_eq!(ratio(second), 0.5);
    assert_eq!(direction(second), "vertical");
}

#[test]
fn tiled_layout_turns_at_each_level() {
    let workspace = workspace_with(
        Some(LayoutPreset::Tiled),
        vec![named_pane("a"), named_pane("b"), named_pane("c"), named_pane("d")],
    );
    let layout = build_workspace_layout(&workspace);
    assert_eq!(direction(&layout), "horizontal");
    let (first, second) = children(&layout);
    assert_eq!(direction(first), "vertical");
    assert_eq!(direction(second), "vertical");
}

#[test]
fn no_panes_give_one_terminal() {
    let default = LayoutNode::Pane(PaneNode {
        surfaces: vec![SurfaceEntry::Terminal { command: None, name: None, focus: None }],
    });
    assert_eq!(split_balanced(vec![], SplitDirection::Horizontal), default);
    assert_eq!(split_main(vec![], SplitDirection::Horizontal), default);
    assert_eq!(split_tiled(vec![], SplitDirection::Vertical), default);
    let w = Workspace { name: "w".to_string(), cwd: None, layout: None, panes: vec![Pane { surfaces: None }] };
    assert_eq!(build_workspace_layout(&w), default);
}

#[test]
fn balanced_split_of_five_takes_two_first() {
    let nodes: Vec<PaneNode> = (0..5).map(|_| PaneNode { surfaces: vec![] }).collect();
    match split_balanced(nodes, SplitDirection::Vertical) {
        LayoutNode::Split { split, .. } => {
            assert_eq!(split, Ratio { numerator: 2, denominator: 5 })
        }
        other => panic!("{:?}", other),
    }
}

#[test]
fn directions_have_names_and_opposites() {
    assert_eq!(SplitDirection::Horizontal.as_str(), "horizontal");
    assert_eq!(SplitDirection::Vertical.as_str(), "vertical");
    assert_eq!(SplitDirection::Horizontal.opposite(), SplitDirection::Vertical);
    assert_eq!(SplitDirection::Vertical.opposite(), SplitDirection::Horizontal);
}
