//! The project file's model and its validation.
use vstd::prelude::*;
use crate::paths::{
    cwd_check, expand_cwd, expand_tilde_spec, name_problem, opt_str_view,
    validate_name, NameProblem, PathError,
};
use crate::search::{first_index, lemma_first_index_found, lemma_first_index_none};
use crate::text::{is_blank, is_blank_str, str_equal};

verus! {

/// What a surface shows.
#[derive(Clone, Copy, Debug, PartialEq, Eq, Structural)]
pub enum SurfaceType {
    Terminal,
    Browser,
}

impl Default for SurfaceType {
    /// A surface is a terminal unless it says otherwise.
    fn default() -> (r: Self)
        ensures
            r == SurfaceType::Terminal,
    {
        SurfaceType::Terminal
    }
}

/// How a workspace's panes are arranged.
#[derive(Clone, Copy, Debug, PartialEq, Eq, Structural)]
pub enum LayoutPreset {
    EvenHorizontal,
    EvenVertical,
    MainHorizontal,
    MainVertical,
    Tiled,
}

/// A project: a name and the workspaces it opens.
#[derive(Clone, Debug)]
pub struct Project {
    pub name: String,
    pub workspaces: Vec<Workspace>,
}

/// A cmux workspace: a name, an optional working directory, a layout preset
/// and its panes.
#[derive(Clone, Debug)]
pub struct Workspace {
    pub name: String,
    pub cwd: Option<String>,
    pub layout: Option<LayoutPreset>,
    pub panes: Vec<Pane>,
}

/// A pane, with its surfaces (one terminal where none are given).
#[derive(Clone, Debug)]
pub struct Pane {
    pub surfaces: Option<Vec<Surface>>,
}

/// A surface: a terminal that may run a command, or a browser on a URL.
#[derive(Clone, Debug)]
pub struct Surface {
    pub surface_type: SurfaceType,
    pub name: Option<String>,
    pub command: Option<String>,
    pub url: Option<String>,
    pub focus: Option<bool>,
}

/// A project with the path of the file it was read from.
#[derive(Clone, Debug)]
pub struct LoadedProject {
    pub project: Project,
    pub path: String,
}

/// Why a surface is refused.
#[derive(Clone, Copy, Debug, PartialEq, Eq, Structural)]
pub enum SurfaceError {
    /// Its name is not a valid name.
    Name(NameProblem),
    /// A terminal that defines `url`.
    TerminalWithUrl,
    /// A browser that defines `command`.
    BrowserWithCommand,
    /// A browser without `url`.
    BrowserWithoutUrl,
    /// A browser whose `url` is blank.
    BrowserBlankUrl,
}

/// Why a pane is refused.
#[derive(Clone, Copy, Debug, PartialEq, Eq, Structural)]
pub enum PaneError {
    /// `surfaces: []`.
    EmptySurfaces,
    /// The surface at this index (from 0) is refused.
    Surface { surface: usize, error: SurfaceError },
}

/// Why a workspace is refused.
#[derive(Clone, Copy, Debug, PartialEq, Eq, Structural)]
pub enum WorkspaceError {
    /// Its name is not a valid name.
    Name(NameProblem),
    /// Its working directory is refused.
    Cwd(PathError),
    /// It has no panes.
    NoPanes,
    /// The pane at this index (from 0) is refused.
    Pane { pane: usize, error: PaneError },
    /// More than one of its surfaces has `focus: true`.
    MultipleFocus,
}

/// Why a project is refused.
#[derive(Clone, Copy, Debug, PartialEq, Eq, Structural)]
pub enum ConfigError {
    /// Its name is not a valid name.
    Name(NameProblem),
    /// It has no workspaces.
    NoWorkspaces,
    /// The workspace at this index (from 0) is refused.
    Workspace { workspace: usize, error: WorkspaceError },
    /// The workspace at this index has the name of an earlier one.
    DuplicateWorkspace { workspace: usize },
}

pub open spec fn as_result<E>(o: Option<E>) -> Result<(), E> {
    match o {
        Some(e) => Err(e),
        None => Ok(()),
    }
}

/// The first problem of a surface.
pub open spec fn surface_error(s: Surface) -> Option<SurfaceError> {
    if s.name is Some && name_problem(s.name->0@) is Some {
        Some(SurfaceError::Name(name_problem(s.name->0@)->0))
    } else {
        match s.surface_type {
            SurfaceType::Terminal => if s.url is Some {
                Some(SurfaceError::TerminalWithUrl)
            } else {
                None
            },
            SurfaceType::Browser => if s.command is Some {
                Some(SurfaceError::BrowserWithCommand)
            } else if s.url is None {
                Some(SurfaceError::BrowserWithoutUrl)
            } else if is_blank(s.url->0@) {
                Some(SurfaceError::BrowserBlankUrl)
            } else {
                None
            },
        }
    }
}

pub open spec fn surface_fails(ss: Seq<Surface>) -> spec_fn(int) -> bool {
    |i: int| surface_error(ss[i]) is Some
}

/// The first problem of a pane: an empty surface list, else its first
/// refused surface.
pub open spec fn pane_error(p: Pane) -> Option<PaneError> {
    match p.surfaces {
        None => None,
        Some(v) => if v@.len() == 0 {
            Some(PaneError::EmptySurfaces)
        } else {
            match first_index(v@.len(), surface_fails(v@)) {
                Some(i) => Some(
                    PaneError::Surface { surface: i as usize, error: surface_error(v@[i])->0 },
                ),
                None => None,
            }
        },
    }
}

pub open spec fn is_focused(s: Surface) -> bool {
    s.focus == Some(true)
}

/// How many of these surfaces have `focus: true`.
pub open spec fn focus_count(ss: Seq<Surface>) -> nat
    decreases ss.len(),
{
    if ss.len() == 0 {
        0
    } else {
        focus_count(ss.drop_last()) + if is_focused(ss.last()) {
            1nat
        } else {
            0nat
        }
    }
}

pub open spec fn pane_focus_count(p: Pane) -> nat {
    match p.surfaces {
        Some(v) => focus_count(v@),
        None => 0,
    }
}

/// How many surfaces of these panes have `focus: true`.
pub open spec fn panes_focus_count(ps: Seq<Pane>) -> nat
    decreases ps.len(),
{
    if ps.len() == 0 {
        0
    } else {
        panes_focus_count(ps.drop_last()) + pane_focus_count(ps.last())
    }
}

pub open spec fn pane_fails(ps: Seq<Pane>) -> spec_fn(int) -> bool {
    |i: int| pane_error(ps[i]) is Some
}

/// The first problem of a workspace's panes.
pub open spec fn panes_error(ps: Seq<Pane>) -> Option<WorkspaceError> {
    if ps.len() == 0 {
        Some(WorkspaceError::NoPanes)
    } else {
        match first_index(ps.len(), pane_fails(ps)) {
            Some(i) => Some(WorkspaceError::Pane { pane: i as usize, error: pane_error(ps[i])->0 }),
            None => if panes_focus_count(ps) > 1 {
                Some(WorkspaceError::MultipleFocus)
            } else {
                None
            },
        }
    }
}

/// The first problem of a workspace, its working directory expanded with
/// `home`.
pub open spec fn workspace_error(w: Workspace, home: Option<Seq<char>>) -> Option<WorkspaceError> {
    if name_problem(w.name@) is Some {
        Some(WorkspaceError::Name(name_problem(w.name@)->0))
    } else if w.cwd is Some && cwd_check(expand_tilde_spec(w.cwd->0@, home)) is Some {
        Some(WorkspaceError::Cwd(cwd_check(expand_tilde_spec(w.cwd->0@, home))->0))
    } else {
        panes_error(w.panes@)
    }
}

/// Some workspace before `i` has the name of workspace `i`.
pub open spec fn duplicate_name(ws: Seq<Workspace>, i: int) -> bool {
    exists|j: int| 0 <= j < i && #[trigger] ws[j].name@ == ws[i].name@
}

pub open spec fn workspace_fails(ws: Seq<Workspace>, home: Option<Seq<char>>) -> spec_fn(
    int,
) -> bool {
    |i: int| workspace_error(ws[i], home) is Some || duplicate_name(ws, i)
}

/// The first problem of a project: its name, no workspaces, or the first
/// workspace that is refused or repeats an earlier name.
pub open spec fn project_error(p: Project, home: Option<Seq<char>>) -> Option<ConfigError> {
    let ws = p.workspaces@;
    if name_problem(p.name@) is Some {
        Some(ConfigError::Name(name_problem(p.name@)->0))
    } else if ws.len() == 0 {
        Some(ConfigError::NoWorkspaces)
    } else {
        match first_index(ws.len(), workspace_fails(ws, home)) {
            Some(i) => if workspace_error(ws[i], home) is Some {
                Some(
                    ConfigError::Workspace {
                        workspace: i as usize,
                        error: workspace_error(ws[i], home)->0,
                    },
                )
            } else {
                Some(ConfigError::DuplicateWorkspace { workspace: i as usize })
            },
            None => None,
        }
    }
}

impl Surface {
    /// Checks a surface: a valid name if it has one; a terminal defines no
    /// `url`; a browser defines no `command` and a non-blank `url`.
    pub fn validate(&self) -> (r: Result<(), SurfaceError>)
        ensures
            r == as_result(surface_error(*self)),
    {
        if let Some(name) = &self.name {
            match validate_name(name.as_str(), "surface") {
                Err(e) => return Err(SurfaceError::Name(e.problem)),
                Ok(()) => {},
            }
        }
        match self.surface_type {
            SurfaceType::Terminal => {
                if self.url.is_some() {
                    return Err(SurfaceError::TerminalWithUrl);
                }
            },
            SurfaceType::Browser => {
                if self.command.is_some() {
                    return Err(SurfaceError::BrowserWithCommand);
                }
                match &self.url {
                    None => return Err(SurfaceError::BrowserWithoutUrl),
                    Some(url) => {
                        if is_blank_str(url.as_str()) {
                            return Err(SurfaceError::BrowserBlankUrl);
                        }
                    },
                }
            },
        }
        Ok(())
    }
}

impl Pane {
    /// Checks a pane: an explicit surface list is not empty and each of its
    /// surfaces is valid.
    pub fn validate(&self) -> (r: Result<(), PaneError>)
        ensures
            r == as_result(pane_error(*self)),
    {
        match &self.surfaces {
            None => Ok(()),
            Some(surfaces) => {
                if surfaces.len() == 0 {
                    return Err(PaneError::EmptySurfaces);
                }
                let ghost f = surface_fails(surfaces@);
                let mut i: usize = 0;
                while i < surfaces.len()
                    invariant
                        i <= surfaces.len(),
                        self.surfaces == Some(*surfaces),
                        surfaces@.len() > 0,
                        f == surface_fails(surfaces@),
                        forall|j: int| 0 <= j < i ==> !#[trigger] f(j),
                    decreases surfaces.len() - i,
                {
                    match surfaces[i].validate() {
                        Err(e) => {
                            proof {
                                lemma_first_index_found(surfaces@.len(), f, i as int);
                            }
                            return Err(PaneError::Surface { surface: i, error: e });
                        },
                        Ok(()) => {},
                    }
                    i = i + 1;
                }
                proof {
                    lemma_first_index_none(surfaces@.len(), f);
                }
                Ok(())
            },
        }
    }
}

/// `min(focus_count(ss), 2)`: all that matters is whether it exceeds one.
fn count_focus_capped(ss: &Vec<Surface>, start: usize) -> (r: usize)
    requires
        start <= 2,
    ensures
        r == if start + focus_count(ss@) >= 2 {
            2
        } else {
            start + focus_count(ss@)
        },
{
    let mut count: usize = start;
    let mut i: usize = 0;
    while i < ss.len()
        invariant
            i <= ss.len(),
            count == if start + focus_count(ss@.take(i as int)) >= 2 {
                2
            } else {
                start + focus_count(ss@.take(i as int))
            },
        decreases ss.len() - i,
    {
        assert(ss@.take(i + 1).drop_last() =~= ss@.take(i as int));
        if ss[i].focus == Some(true) && count < 2 {
            count = count + 1;
        }
        i = i + 1;
    }
    assert(ss@.take(ss.len() as int) =~= ss@);
    count
}

impl Workspace {
    /// The workspace's layout preset, `even-horizontal` where none is given.
    pub fn layout_preset(&self) -> (r: LayoutPreset)
        ensures
            r == match self.layout {
                Some(l) => l,
                None => LayoutPreset::EvenHorizontal,
            },
    {
        match self.layout {
            Some(l) => l,
            None => LayoutPreset::EvenHorizontal,
        }
    }

    /// Checks a workspace: a valid name, a valid working directory once
    /// expanded with `home`, at least one pane, valid panes, and at most one
    /// surface with `focus: true`.
    pub fn validate(&self, home: Option<&str>) -> (r: Result<(), WorkspaceError>)
        ensures
            r == as_result(workspace_error(*self, opt_str_view(home))),
    {
        match validate_name(self.name.as_str(), "workspace") {
            Err(e) => return Err(WorkspaceError::Name(e.problem)),
            Ok(()) => {},
        }
        if let Some(cwd) = &self.cwd {
            match expand_cwd(cwd.as_str(), home) {
                Err(e) => return Err(WorkspaceError::Cwd(e)),
                Ok(_) => {},
            }
        }
        if self.panes.len() == 0 {
            return Err(WorkspaceError::NoPanes);
        }
        let ghost ps = self.panes@;
        let ghost f = pane_fails(ps);
        let mut focused: usize = 0;
        let mut i: usize = 0;
        while i < self.panes.len()
            invariant
                i <= self.panes.len(),
                ps == self.panes@,
                ps.len() > 0,
                name_problem(self.name@) is None,
                !(self.cwd is Some && cwd_check(
                    expand_tilde_spec(self.cwd->0@, opt_str_view(home)),
                ) is Some),
                f == pane_fails(ps),
                forall|j: int| 0 <= j < i ==> !#[trigger] f(j),
                focused == if panes_focus_count(ps.take(i as int)) >= 2 {
                    2
                } else {
                    panes_focus_count(ps.take(i as int))
                },
            decreases self.panes.len() - i,
        {
            match self.panes[i].validate() {
                Err(e) => {
                    proof {
                        lemma_first_index_found(ps.len(), f, i as int);
                    }
                    return Err(WorkspaceError::Pane { pane: i, error: e });
                },
                Ok(()) => {},
            }
            assert(ps.take(i + 1).drop_last() =~= ps.take(i as int));
            if let Some(surfaces) = &self.panes[i].surfaces {
                focused = count_focus_capped(surfaces, focused);
            }
            i = i + 1;
        }
        proof {
            lemma_first_index_none(ps.len(), f);
            assert(ps.take(ps.len() as int) =~= ps);
        }
        if focused > 1 {
            return Err(WorkspaceError::MultipleFocus);
        }
        Ok(())
    }
}

/// Whether a workspace before `i` has the name of workspace `i`.
fn name_seen_before(ws: &Vec<Workspace>, i: usize) -> (r: bool)
    requires
        i < ws.len(),
    ensures
        r == duplicate_name(ws@, i as int),
{
    let mut j: usize = 0;
    while j < i
        invariant
            i < ws.len(),
            j <= i,
            forall|k: int| 0 <= k < j ==> ws@[k].name@ != ws@[i as int].name@,
        decreases i - j,
    {
        if str_equal(ws[j].name.as_str(), ws[i].name.as_str()) {
            return true;
        }
        j = j + 1;
    }
    false
}

impl Project {
    /// Checks a project: a valid name, at least one workspace, valid
    /// workspaces (working directories expanded with `home`) and no two
    /// workspaces with one name.
    pub fn validate(&self, home: Option<&str>) -> (r: Result<(), ConfigError>)
        ensures
            r == as_result(
                project_error(*self, opt_str_view(home)),
            ),
    {
        match validate_name(self.name.as_str(), "project") {
            Err(e) => return Err(ConfigError::Name(e.problem)),
            Ok(()) => {},
        }
        if self.workspaces.len() == 0 {
            return Err(ConfigError::NoWorkspaces);
        }
        let ghost ws = self.workspaces@;
        let ghost h = opt_str_view(home);
        let ghost f = workspace_fails(ws, h);
        let mut i: usize = 0;
        while i < self.workspaces.len()
            invariant
                i <= self.workspaces.len(),
                ws == self.workspaces@,
                ws.len() > 0,
                name_problem(self.name@) is None,
                h == opt_str_view(home),
                f == workspace_fails(ws, h),
                forall|j: int| 0 <= j < i ==> !#[trigger] f(j),
            decreases self.workspaces.len() - i,
        {
            match self.workspaces[i].validate(home) {
                Err(e) => {
                    proof {
                        lemma_first_index_found(ws.len(), f, i as int);
                    }
                    return Err(ConfigError::Workspace { workspace: i, error: e });
                },
                Ok(()) => {},
            }
            if name_seen_before(&self.workspaces, i) {
                proof {
                    lemma_first_index_found(ws.len(), f, i as int);
                }
                return Err(ConfigError::DuplicateWorkspace { workspace: i });
            }
            i = i + 1;
        }
        proof {
            lemma_first_index_none(ws.len(), f);
        }
        Ok(())
    }
}

} // verus!
