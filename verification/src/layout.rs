//! The layout tree that cmux builds a workspace from: panes at the leaves,
//! splits inside, arranged by the workspace's preset.
use vstd::prelude::*;
use crate::config::{LayoutPreset, Pane, Surface, SurfaceType, Workspace};

verus! {

/// The direction in which a split divides its area.
#[derive(Clone, Copy, Debug, PartialEq, Eq, Structural)]
pub enum SplitDirection {
    Horizontal,
    Vertical,
}

/// The fraction of a split's area that its first child takes.
#[derive(Clone, Copy, Debug, PartialEq, Eq, Structural)]
pub struct Ratio {
    pub numerator: usize,
    pub denominator: usize,
}

/// One surface of a pane, as cmux is told about it: a terminal keeps its
/// command, a browser its URL.
#[derive(Clone, Debug, PartialEq, Eq)]
pub enum SurfaceEntry {
    Terminal { command: Option<String>, name: Option<String>, focus: Option<bool> },
    Browser { url: Option<String>, name: Option<String>, focus: Option<bool> },
}

/// A leaf of the layout: the surfaces of one pane.
#[derive(Clone, Debug, PartialEq, Eq)]
pub struct PaneNode {
    pub surfaces: Vec<SurfaceEntry>,
}

/// A layout tree.
#[derive(Debug, PartialEq, Eq)]
pub enum LayoutNode {
    Pane(PaneNode),
    Split {
        direction: SplitDirection,
        split: Ratio,
        first: Box<LayoutNode>,
        second: Box<LayoutNode>,
    },
}

/// The mathematical shape of a layout tree: a pane is its sequence of
/// surfaces.
pub enum LayoutShape {
    Pane(Seq<SurfaceEntry>),
    Split {
        direction: SplitDirection,
        split: Ratio,
        first: Box<LayoutShape>,
        second: Box<LayoutShape>,
    },
}

impl View for PaneNode {
    type V = Seq<SurfaceEntry>;

    open spec fn view(&self) -> Seq<SurfaceEntry> {
        self.surfaces@
    }
}

pub open spec fn node_shape(n: LayoutNode) -> LayoutShape
    decreases n,
{
    match n {
        LayoutNode::Pane(p) => LayoutShape::Pane(p.surfaces@),
        LayoutNode::Split { direction, split, first, second } => LayoutShape::Split {
            direction,
            split,
            first: Box::new(node_shape(*first)),
            second: Box::new(node_shape(*second)),
        },
    }
}

impl View for LayoutNode {
    type V = LayoutShape;

    open spec fn view(&self) -> LayoutShape {
        node_shape(*self)
    }
}

pub open spec fn opposite_spec(d: SplitDirection) -> SplitDirection {
    match d {
        SplitDirection::Horizontal => SplitDirection::Vertical,
        SplitDirection::Vertical => SplitDirection::Horizontal,
    }
}

pub open spec fn direction_name(d: SplitDirection) -> Seq<char> {
    match d {
        SplitDirection::Horizontal => seq!['h', 'o', 'r', 'i', 'z', 'o', 'n', 't', 'a', 'l'],
        SplitDirection::Vertical => seq!['v', 'e', 'r', 't', 'i', 'c', 'a', 'l'],
    }
}

/// The single terminal of a pane that lists no surfaces.
pub open spec fn default_surfaces() -> Seq<SurfaceEntry> {
    seq![SurfaceEntry::Terminal { command: None, name: None, focus: None }]
}

/// The entry cmux gets for a surface.
pub open spec fn surface_entry(s: Surface) -> SurfaceEntry {
    match s.surface_type {
        SurfaceType::Terminal => SurfaceEntry::Terminal {
            command: s.command,
            name: s.name,
            focus: s.focus,
        },
        SurfaceType::Browser => SurfaceEntry::Browser { url: s.url, name: s.name, focus: s.focus },
    }
}

/// The surfaces of a pane's leaf.
pub open spec fn pane_surfaces(p: Pane) -> Seq<SurfaceEntry> {
    match p.surfaces {
        None => default_surfaces(),
        Some(v) => v@.map_values(|s: Surface| surface_entry(s)),
    }
}

/// Panes split in halves, the first half the smaller, all in one direction.
pub open spec fn balanced(s: Seq<Seq<SurfaceEntry>>, d: SplitDirection) -> LayoutShape
    decreases s.len(),
{
    if s.len() == 0 {
        LayoutShape::Pane(default_surfaces())
    } else if s.len() == 1 {
        LayoutShape::Pane(s[0])
    } else {
        let left = s.len() / 2;
        LayoutShape::Split {
            direction: d,
            split: Ratio { numerator: left as usize, denominator: s.len() as usize },
            first: Box::new(balanced(s.take(left as int), d)),
            second: Box::new(balanced(s.skip(left as int), d)),
        }
    }
}

/// The first pane takes three fifths; the others share the rest, balanced.
pub open spec fn main_split(s: Seq<Seq<SurfaceEntry>>, d: SplitDirection) -> LayoutShape {
    if s.len() == 0 {
        LayoutShape::Pane(default_surfaces())
    } else if s.len() == 1 {
        LayoutShape::Pane(s[0])
    } else {
        LayoutShape::Split {
            direction: d,
            split: Ratio { numerator: 3, denominator: 5 },
            first: Box::new(LayoutShape::Pane(s[0])),
            second: Box::new(balanced(s.skip(1), d)),
        }
    }
}

/// Panes split in halves like `balanced`, the direction alternating at
/// each level.
pub open spec fn tiled(s: Seq<Seq<SurfaceEntry>>, d: SplitDirection) -> LayoutShape
    decreases s.len(),
{
    if s.len() == 0 {
        LayoutShape::Pane(default_surfaces())
    } else if s.len() == 1 {
        LayoutShape::Pane(s[0])
    } else {
        let left = s.len() / 2;
        LayoutShape::Split {
            direction: d,
            split: Ratio { numerator: left as usize, denominator: s.len() as usize },
            first: Box::new(tiled(s.take(left as int), opposite_spec(d))),
            second: Box::new(tiled(s.skip(left as int), opposite_spec(d))),
        }
    }
}

pub open spec fn pane_leaves(ps: Seq<Pane>) -> Seq<Seq<SurfaceEntry>> {
    ps.map_values(|p: Pane| pane_surfaces(p))
}

pub open spec fn preset_of(w: Workspace) -> LayoutPreset {
    match w.layout {
        Some(l) => l,
        None => LayoutPreset::EvenHorizontal,
    }
}

/// The layout of a workspace, by its preset.
pub open spec fn workspace_layout(w: Workspace) -> LayoutShape {
    let s = pane_leaves(w.panes@);
    match preset_of(w) {
        LayoutPreset::EvenHorizontal => balanced(s, SplitDirection::Horizontal),
        LayoutPreset::EvenVertical => balanced(s, SplitDirection::Vertical),
        LayoutPreset::MainHorizontal => main_split(s, SplitDirection::Horizontal),
        LayoutPreset::MainVertical => main_split(s, SplitDirection::Vertical),
        LayoutPreset::Tiled => tiled(s, SplitDirection::Horizontal),
    }
}

pub open spec fn node_views(v: Seq<PaneNode>) -> Seq<Seq<SurfaceEntry>> {
    v.map_values(|n: PaneNode| n@)
}

impl SplitDirection {
    /// The name cmux knows the direction by.
    pub fn as_str(self) -> (r: &'static str)
        ensures
            r@ == direction_name(self),
    {
        proof {
            reveal_strlit("horizontal");
            reveal_strlit("vertical");
        }
        match self {
            SplitDirection::Horizontal => "horizontal",
            SplitDirection::Vertical => "vertical",
        }
    }

    /// The other direction.
    pub fn opposite(self) -> (r: Self)
        ensures
            r == opposite_spec(self),
    {
        match self {
            SplitDirection::Horizontal => SplitDirection::Vertical,
            SplitDirection::Vertical => SplitDirection::Horizontal,
        }
    }
}

fn clone_text(o: &Option<String>) -> (r: Option<String>)
    ensures
        r == *o,
{
    match o {
        Some(s) => Some(s.clone()),
        None => None,
    }
}

/// The entry cmux gets for a surface.
pub fn surface_value(surface: &Surface) -> (r: SurfaceEntry)
    ensures
        r == surface_entry(*surface),
        surface.surface_type == SurfaceType::Terminal ==> r == (SurfaceEntry::Terminal {
            command: surface.command,
            name: surface.name,
            focus: surface.focus,
        }),
        surface.surface_type == SurfaceType::Browser ==> r == (SurfaceEntry::Browser {
            url: surface.url,
            name: surface.name,
            focus: surface.focus,
        }),
{
    match surface.surface_type {
        SurfaceType::Terminal => SurfaceEntry::Terminal {
            command: clone_text(&surface.command),
            name: clone_text(&surface.name),
            focus: surface.focus,
        },
        SurfaceType::Browser => SurfaceEntry::Browser {
            url: clone_text(&surface.url),
            name: clone_text(&surface.name),
            focus: surface.focus,
        },
    }
}

fn default_pane_node() -> (r: PaneNode)
    ensures
        r@ == default_surfaces(),
{
    let mut surfaces: Vec<SurfaceEntry> = Vec::new();
    surfaces.push(SurfaceEntry::Terminal { command: None, name: None, focus: None });
    PaneNode { surfaces }
}

/// The leaf of a pane.
pub fn pane_node(pane: &Pane) -> (r: PaneNode)
    ensures
        r@ == pane_surfaces(*pane),
{
    match &pane.surfaces {
        None => default_pane_node(),
        Some(v) => {
            let mut surfaces: Vec<SurfaceEntry> = Vec::new();
            let mut i: usize = 0;
            while i < v.len()
                invariant
                    i <= v.len(),
                    surfaces@ == v@.take(i as int).map_values(|s: Surface| surface_entry(s)),
                decreases v.len() - i,
            {
                surfaces.push(surface_value(&v[i]));
                i = i + 1;
                assert(surfaces@ =~= v@.take(i as int).map_values(|s: Surface| surface_entry(s)));
            }
            assert(v@.take(v.len() as int) =~= v@);
            PaneNode { surfaces }
        },
    }
}

/// Splits `nodes` into the first `at` and the rest.
fn split_nodes(nodes: Vec<PaneNode>, at: usize) -> (r: (Vec<PaneNode>, Vec<PaneNode>))
    requires
        at <= nodes.len(),
    ensures
        node_views(r.0@) == node_views(nodes@).take(at as int),
        node_views(r.1@) == node_views(nodes@).skip(at as int),
        r.0@.len() == at,
        r.1@.len() == nodes.len() - at,
{
    let mut first = nodes;
    let second = first.split_off(at);
    assert(node_views(first@) =~= node_views(nodes@).take(at as int));
    assert(node_views(second@) =~= node_views(nodes@).skip(at as int));
    (first, second)
}

fn single_leaf(nodes: Vec<PaneNode>) -> (r: LayoutNode)
    requires
        nodes.len() == 1,
    ensures
        r@ == LayoutShape::Pane(node_views(nodes@)[0]),
{
    let mut nodes = nodes;
    let leaf = nodes.pop().unwrap();
    LayoutNode::Pane(leaf)
}

/// Panes split in halves in one direction.
pub fn split_balanced(nodes: Vec<PaneNode>, direction: SplitDirection) -> (r: LayoutNode)
    ensures
        r@ == balanced(node_views(nodes@), direction),
    decreases nodes.len(),
{
    let len: usize = nodes.len();
    if len == 0 {
        LayoutNode::Pane(default_pane_node())
    } else if len == 1 {
        single_leaf(nodes)
    } else {
        let left: usize = len / 2;
        let (a, b) = split_nodes(nodes, left);
        let first = split_balanced(a, direction);
        let second = split_balanced(b, direction);
        LayoutNode::Split {
            direction,
            split: Ratio { numerator: left, denominator: len },
            first: Box::new(first),
            second: Box::new(second),
        }
    }
}

/// The first pane beside the others, balanced.
pub fn split_main(nodes: Vec<PaneNode>, direction: SplitDirection) -> (r: LayoutNode)
    ensures
        r@ == main_split(node_views(nodes@), direction),
{
    let len: usize = nodes.len();
    if len == 0 {
        LayoutNode::Pane(default_pane_node())
    } else if len == 1 {
        single_leaf(nodes)
    } else {
        let (a, b) = split_nodes(nodes, 1);
        let first = single_leaf(a);
        let second = split_balanced(b, direction);
        LayoutNode::Split {
            direction,
            split: Ratio { numerator: 3, denominator: 5 },
            first: Box::new(first),
            second: Box::new(second),
        }
    }
}

/// Panes split in halves, the direction alternating at each level.
pub fn split_tiled(nodes: Vec<PaneNode>, direction: SplitDirection) -> (r: LayoutNode)
    ensures
        r@ == tiled(node_views(nodes@), direction),
    decreases nodes.len(),
{
    let len: usize = nodes.len();
    if len == 0 {
        LayoutNode::Pane(default_pane_node())
    } else if len == 1 {
        single_leaf(nodes)
    } else {
        let left: usize = len / 2;
        let (a, b) = split_nodes(nodes, left);
        let next = direction.opposite();
        let first = split_tiled(a, next);
        let second = split_tiled(b, next);
        LayoutNode::Split {
            direction,
            split: Ratio { numerator: left, denominator: len },
            first: Box::new(first),
            second: Box::new(second),
        }
    }
}

/// The layout of a workspace: its panes' leaves arranged by its preset.
pub fn build_workspace_layout(workspace: &Workspace) -> (r: LayoutNode)
    ensures
        r@ == workspace_layout(*workspace),
{
    let mut nodes: Vec<PaneNode> = Vec::new();
    let mut i: usize = 0;
    while i < workspace.panes.len()
        invariant
            i <= workspace.panes.len(),
            node_views(nodes@) == pane_leaves(workspace.panes@.take(i as int)),
        decreases workspace.panes.len() - i,
    {
        let node = pane_node(&workspace.panes[i]);
        let ghost before = nodes@;
        nodes.push(node);
        assert(workspace.panes@.take(i + 1) =~= workspace.panes@.take(i as int).push(
            workspace.panes@[i as int],
        ));
        assert(nodes@ =~= before.push(node));
        assert(node_views(nodes@) =~= node_views(before).push(node@));
        assert(pane_leaves(workspace.panes@.take(i + 1)) =~= pane_leaves(
            workspace.panes@.take(i as int),
        ).push(pane_surfaces(workspace.panes@[i as int])));
        i = i + 1;
    }
    assert(workspace.panes@.take(workspace.panes.len() as int) =~= workspace.panes@);
    match workspace.layout_preset() {
        LayoutPreset::EvenHorizontal => split_balanced(nodes, SplitDirection::Horizontal),
        LayoutPreset::EvenVertical => split_balanced(nodes, SplitDirection::Vertical),
        LayoutPreset::MainHorizontal => split_main(nodes, SplitDirection::Horizontal),
        LayoutPreset::MainVertical => split_main(nodes, SplitDirection::Vertical),
        LayoutPreset::Tiled => split_tiled(nodes, SplitDirection::Horizontal),
    }
}

/// The panes of a layout, left to right.
pub open spec fn leaves(t: LayoutShape) -> Seq<Seq<SurfaceEntry>>
    decreases t,
{
    match t {
        LayoutShape::Pane(s) => seq![s],
        LayoutShape::Split { first, second, .. } => leaves(*first) + leaves(*second),
    }
}

/// Each split's ratio is the share of panes in its first child, and the
/// first child holds the smaller half.
pub open spec fn halved(t: LayoutShape) -> bool
    decreases t,
{
    match t {
        LayoutShape::Pane(_) => true,
        LayoutShape::Split { split, first, second, .. } => {
            &&& split.numerator == leaves(*first).len()
            &&& split.denominator == leaves(*first).len() + leaves(*second).len()
            &&& leaves(*first).len() == split.denominator / 2
            &&& halved(*first)
            &&& halved(*second)
        },
    }
}

/// Every split divides in direction `d`.
pub open spec fn all_in_direction(t: LayoutShape, d: SplitDirection) -> bool
    decreases t,
{
    match t {
        LayoutShape::Pane(_) => true,
        LayoutShape::Split { direction, first, second, .. } => {
            &&& direction == d
            &&& all_in_direction(*first, d)
            &&& all_in_direction(*second, d)
        },
    }
}

/// The top split divides in direction `d`, and each level below turns.
pub open spec fn alternating_from(t: LayoutShape, d: SplitDirection) -> bool
    decreases t,
{
    match t {
        LayoutShape::Pane(_) => true,
        LayoutShape::Split { direction, first, second, .. } => {
            &&& direction == d
            &&& alternating_from(*first, opposite_spec(d))
            &&& alternating_from(*second, opposite_spec(d))
        },
    }
}

/// A balanced layout holds the given panes in order, each once, splits them
/// in halves with faithful ratios, all in the given direction.
pub proof fn lemma_balanced_layout(s: Seq<Seq<SurfaceEntry>>, d: SplitDirection)
    requires
        0 < s.len() <= usize::MAX,
    ensures
        leaves(balanced(s, d)) == s,
        halved(balanced(s, d)),
        all_in_direction(balanced(s, d), d),
    decreases s.len(),
{
    if s.len() == 1 {
        assert(leaves(balanced(s, d)) =~= s);
    } else {
        let left = s.len() / 2;
        lemma_balanced_layout(s.take(left as int), d);
        lemma_balanced_layout(s.skip(left as int), d);
        assert(s.take(left as int) + s.skip(left as int) =~= s);
    }
}

/// A tiled layout holds the given panes in order, each once, splits them in
/// halves with faithful ratios, turning direction at each level.
pub proof fn lemma_tiled_layout(s: Seq<Seq<SurfaceEntry>>, d: SplitDirection)
    requires
        0 < s.len() <= usize::MAX,
    ensures
        leaves(tiled(s, d)) == s,
        halved(tiled(s, d)),
        alternating_from(tiled(s, d), d),
    decreases s.len(),
{
    if s.len() == 1 {
        assert(leaves(tiled(s, d)) =~= s);
    } else {
        let left = s.len() / 2;
        lemma_tiled_layout(s.take(left as int), opposite_spec(d));
        lemma_tiled_layout(s.skip(left as int), opposite_spec(d));
        assert(s.take(left as int) + s.skip(left as int) =~= s);
    }
}

/// A main layout holds the given panes in order, each once: the first on
/// its own with three fifths, the others balanced beside it.
pub proof fn lemma_main_layout(s: Seq<Seq<SurfaceEntry>>, d: SplitDirection)
    requires
        0 < s.len() <= usize::MAX,
    ensures
        leaves(main_split(s, d)) == s,
        all_in_direction(main_split(s, d), d),
        s.len() > 1 ==> (main_split(s, d) matches LayoutShape::Split { split, first, .. } && split
            == (Ratio { numerator: 3, denominator: 5 }) && *first == LayoutShape::Pane(s[0])),
{
    if s.len() == 1 {
        assert(leaves(main_split(s, d)) =~= s);
    } else {
        lemma_balanced_layout(s.skip(1), d);
        let t = main_split(s, d);
        assert(t == LayoutShape::Split {
            direction: d,
            split: Ratio { numerator: 3, denominator: 5 },
            first: Box::new(LayoutShape::Pane(s[0])),
            second: Box::new(balanced(s.skip(1), d)),
        });
        assert(leaves(LayoutShape::Pane(s[0])) == seq![s[0]]);
        assert(all_in_direction(LayoutShape::Pane(s[0]), d));
        assert(seq![s[0]] + s.skip(1) =~= s);
    }
}

/// Whatever its preset, a workspace's layout holds one leaf for each of its
/// panes, in the order of the panes; a workspace without panes gets one
/// terminal.
pub proof fn lemma_workspace_layout_keeps_panes(w: Workspace)
    requires
        w.panes@.len() <= usize::MAX,
    ensures
        w.panes@.len() > 0 ==> leaves(workspace_layout(w)) == pane_leaves(w.panes@),
        w.panes@.len() == 0 ==> workspace_layout(w) == LayoutShape::Pane(default_surfaces()),
{
    let s = pane_leaves(w.panes@);
    if w.panes@.len() > 0 {
        lemma_balanced_layout(s, SplitDirection::Horizontal);
        lemma_balanced_layout(s, SplitDirection::Vertical);
        lemma_main_layout(s, SplitDirection::Horizontal);
        lemma_main_layout(s, SplitDirection::Vertical);
        lemma_tiled_layout(s, SplitDirection::Horizontal);
    }
}

/// Every split gives each of its children a share strictly between nothing
/// and the whole.
pub open spec fn proper_ratios(t: LayoutShape) -> bool
    decreases t,
{
    match t {
        LayoutShape::Pane(_) => true,
        LayoutShape::Split { split, first, second, .. } => {
            &&& 0 < split.numerator < split.denominator
            &&& proper_ratios(*first)
            &&& proper_ratios(*second)
        },
    }
}

proof fn lemma_leaves_nonempty(t: LayoutShape)
    ensures
        leaves(t).len() >= 1,
    decreases t,
{
    if let LayoutShape::Split { first, second, .. } = t {
        lemma_leaves_nonempty(*first);
        lemma_leaves_nonempty(*second);
    }
}

proof fn lemma_halved_ratios_proper(t: LayoutShape)
    requires
        halved(t),
    ensures
        proper_ratios(t),
    decreases t,
{
    if let LayoutShape::Split { first, second, .. } = t {
        lemma_leaves_nonempty(*first);
        lemma_leaves_nonempty(*second);
        lemma_halved_ratios_proper(*first);
        lemma_halved_ratios_proper(*second);
    }
}

proof fn lemma_main_ratios_proper(s: Seq<Seq<SurfaceEntry>>, d: SplitDirection)
    requires
        1 < s.len() <= usize::MAX,
    ensures
        proper_ratios(main_split(s, d)),
{
    lemma_balanced_layout(s.skip(1), d);
    lemma_halved_ratios_proper(balanced(s.skip(1), d));
    let first = LayoutShape::Pane(s[0]);
    assert(proper_ratios(first));
    assert(main_split(s, d) == LayoutShape::Split {
        direction: d,
        split: Ratio { numerator: 3, denominator: 5 },
        first: Box::new(first),
        second: Box::new(balanced(s.skip(1), d)),
    });
}

/// Whatever its preset, every split of a workspace's layout gives its first
/// child a share strictly between 0 and 1.
pub proof fn lemma_workspace_ratios_proper(w: Workspace)
    requires
        w.panes@.len() <= usize::MAX,
    ensures
        proper_ratios(workspace_layout(w)),
{
    let s = pane_leaves(w.panes@);
    if s.len() > 0 {
        lemma_balanced_layout(s, SplitDirection::Horizontal);
        lemma_balanced_layout(s, SplitDirection::Vertical);
        lemma_tiled_layout(s, SplitDirection::Horizontal);
        lemma_halved_ratios_proper(balanced(s, SplitDirection::Horizontal));
        lemma_halved_ratios_proper(balanced(s, SplitDirection::Vertical));
        lemma_halved_ratios_proper(tiled(s, SplitDirection::Horizontal));
        if s.len() > 1 {
            lemma_main_ratios_proper(s, SplitDirection::Horizontal);
            lemma_main_ratios_proper(s, SplitDirection::Vertical);
        }
    }
}

/// Whatever the preset, the layout keeps every surface as it was written:
/// the surface at `j` of the pane at `i` becomes a terminal with the same
/// command, or a browser with the same URL, with the same name and focus.
pub proof fn lemma_layout_keeps_surfaces(w: Workspace, i: int, j: int)
    requires
        w.panes@.len() <= usize::MAX,
        0 <= i < w.panes@.len(),
        w.panes@[i].surfaces is Some,
        0 <= j < w.panes@[i].surfaces->0@.len(),
    ensures
        ({
            let s = w.panes@[i].surfaces->0@[j];
            let e = leaves(workspace_layout(w))[i][j];
            &&& s.surface_type == SurfaceType::Terminal ==> e == (SurfaceEntry::Terminal {
                command: s.command,
                name: s.name,
                focus: s.focus,
            })
            &&& s.surface_type == SurfaceType::Browser ==> e == (SurfaceEntry::Browser {
                url: s.url,
                name: s.name,
                focus: s.focus,
            })
        }),
{
    lemma_workspace_layout_keeps_panes(w);
    assert(pane_leaves(w.panes@)[i] == pane_surfaces(w.panes@[i]));
}

} // verus!
