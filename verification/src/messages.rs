//! What each refusal says: the text of every error of the library.
//!
//! An error that wraps another reports a message and, as its cause, the
//! message of the wrapped error.
use vstd::prelude::*;
use crate::cmux::{join_spec, join_texts, text_views, CmuxError};
use crate::commands::new::NewError;
use crate::commands::start::StartError;
use crate::config::{ConfigError, Pane, PaneError, Project, SurfaceError, Workspace, WorkspaceError};
use crate::formatting::{concat, decimal, ordinal_string};
use crate::paths::{NameError, NameProblem, PathError};
use crate::text::to_string;

verus! {

/// `s` as `{:?}` shows a string: in double quotes, with the characters that
/// need it escaped.
pub uninterp spec fn debug_text(s: Seq<char>) -> Seq<char>;

/// The `Debug` form of a string.
///
/// Trusted: formats `s` with `{:?}`, std's `Debug` for `str`, whose result
/// depends on the text alone. The contract names that result.
#[verifier::external_body]
fn debug_string(s: &str) -> (r: String)
    ensures
        r@ == debug_text(s@),
{
    format!("{:?}", s)
}

/// A message, and the message of its cause where the error wraps another.
#[derive(Debug)]
pub struct Report {
    pub message: String,
    pub cause: Option<String>,
}

pub open spec fn report_text(r: Report) -> (Seq<char>, Option<Seq<char>>) {
    (
        r.message@,
        match r.cause {
            Some(c) => Some(c@),
            None => None,
        },
    )
}

fn plain(message: String) -> (r: Report)
    ensures
        report_text(r) == (message@, None::<Seq<char>>),
{
    Report { message, cause: None }
}

fn caused(message: String, cause: String) -> (r: Report)
    ensures
        report_text(r) == (message@, Some(cause@)),
{
    Report { message, cause: Some(cause) }
}

/// What a refused name says; `kind` is what it names.
pub open spec fn name_text(kind: Seq<char>, name: Seq<char>, problem: NameProblem) -> Seq<char> {
    match problem {
        NameProblem::Empty => kind + " name cannot be empty"@,
        NameProblem::Newline => kind + " name cannot contain newlines: "@ + debug_text(name),
        NameProblem::Nul => kind + " name cannot contain a NUL byte"@,
    }
}

/// The message of a refused name.
pub fn name_message(kind: &str, name: &str, problem: NameProblem) -> (r: String)
    ensures
        r@ == name_text(kind@, name@, problem),
{
    match problem {
        NameProblem::Empty => concat(kind, " name cannot be empty"),
        NameProblem::Newline => {
            let mut out = concat(kind, " name cannot contain newlines: ");
            let quoted = debug_string(name);
            out.append(quoted.as_str());
            out
        },
        NameProblem::Nul => concat(kind, " name cannot contain a NUL byte"),
    }
}

impl NameError {
    /// What the refused name says.
    pub fn message(&self) -> (r: String)
        ensures
            r@ == name_text(self.kind@, self.name@, self.problem),
    {
        name_message(self.kind.as_str(), self.name.as_str(), self.problem)
    }
}

/// What a refused slug, working directory or configuration directory says;
/// `project` is the project name, for the errors about it.
pub open spec fn path_text(e: PathError, project: Seq<char>) -> Seq<char> {
    match e {
        PathError::Name(p) => name_text("project"@, project, p),
        PathError::PathSeparator => "project name must not contain path separators: "@ + project,
        PathError::DotName => "project name cannot be "@ + debug_text(project),
        PathError::FileExtension => "project name should not include a file extension: "@
            + project,
        PathError::EmptyCwd => "cwd cannot be empty"@,
        PathError::NulInCwd => "cwd contains a NUL byte"@,
        PathError::NoHomeDirectory => "could not determine home directory"@,
    }
}

impl PathError {
    /// What the error says; `project` is the project name that was checked.
    pub fn message(&self, project: &str) -> (r: String)
        ensures
            r@ == path_text(*self, project@),
    {
        match self {
            PathError::Name(p) => name_message("project", project, *p),
            PathError::PathSeparator => concat(
                "project name must not contain path separators: ",
                project,
            ),
            PathError::DotName => {
                let mut out = to_string("project name cannot be ");
                let quoted = debug_string(project);
                out.append(quoted.as_str());
                out
            },
            PathError::FileExtension => concat(
                "project name should not include a file extension: ",
                project,
            ),
            PathError::EmptyCwd => to_string("cwd cannot be empty"),
            PathError::NulInCwd => to_string("cwd contains a NUL byte"),
            PathError::NoHomeDirectory => to_string("could not determine home directory"),
        }
    }
}

/// Where a surface stands, counted from 1.
pub open spec fn surface_location(workspace: Seq<char>, pane: nat, surface: nat) -> Seq<char> {
    "workspace "@ + workspace + " pane "@ + decimal(pane + 1) + " surface "@ + decimal(
        surface + 1,
    )
}

fn location(workspace: &str, pane: usize, surface: usize) -> (r: String)
    ensures
        r@ == surface_location(workspace@, pane as nat, surface as nat),
{
    let mut out = concat("workspace ", workspace);
    out.append(" pane ");
    let p = ordinal_string(pane);
    out.append(p.as_str());
    out.append(" surface ");
    let s = ordinal_string(surface);
    out.append(s.as_str());
    out
}

/// What a refused surface reports; `name` is the surface's name.
pub open spec fn surface_report(
    workspace: Seq<char>,
    pane: nat,
    surface: nat,
    e: SurfaceError,
    name: Seq<char>,
) -> (Seq<char>, Option<Seq<char>>) {
    let at = surface_location(workspace, pane, surface);
    match e {
        SurfaceError::Name(p) => (
            "invalid name for "@ + at,
            Some(name_text("surface"@, name, p)),
        ),
        SurfaceError::TerminalWithUrl => ("terminal "@ + at + " must not define url"@, None),
        SurfaceError::BrowserWithCommand => (
            "browser "@ + at + " must not define command"@,
            None,
        ),
        SurfaceError::BrowserWithoutUrl => ("browser "@ + at + " must define url"@, None),
        SurfaceError::BrowserBlankUrl => (
            "browser "@ + at + " must define a non-empty url"@,
            None,
        ),
    }
}

impl SurfaceError {
    /// What the error reports for the surface at `surface` of the pane at
    /// `pane` of `workspace` (indices from 0), named `name`.
    pub fn report(&self, workspace: &str, pane: usize, surface: usize, name: &str) -> (r: Report)
        ensures
            report_text(r) == surface_report(
                workspace@,
                pane as nat,
                surface as nat,
                *self,
                name@,
            ),
    {
        let at = location(workspace, pane, surface);
        match self {
            SurfaceError::Name(p) => caused(
                concat("invalid name for ", at.as_str()),
                name_message("surface", name, *p),
            ),
            SurfaceError::TerminalWithUrl => {
                let mut out = concat("terminal ", at.as_str());
                out.append(" must not define url");
                plain(out)
            },
            SurfaceError::BrowserWithCommand => {
                let mut out = concat("browser ", at.as_str());
                out.append(" must not define command");
                plain(out)
            },
            SurfaceError::BrowserWithoutUrl => {
                let mut out = concat("browser ", at.as_str());
                out.append(" must define url");
                plain(out)
            },
            SurfaceError::BrowserBlankUrl => {
                let mut out = concat("browser ", at.as_str());
                out.append(" must define a non-empty url");
                plain(out)
            },
        }
    }
}

/// The name of the surface at `surface` of the pane at `pane`; empty where
/// there is none.
pub open spec fn surface_name_at(panes: Seq<Pane>, pane: int, surface: int) -> Seq<char> {
    if 0 <= pane < panes.len() && panes[pane].surfaces is Some && 0 <= surface
        < panes[pane].surfaces->0.len() && panes[pane].surfaces->0[surface].name is Some {
        panes[pane].surfaces->0[surface].name->0@
    } else {
        Seq::empty()
    }
}

fn surface_name(panes: &Vec<Pane>, pane: usize, surface: usize) -> (r: String)
    ensures
        r@ == surface_name_at(panes@, pane as int, surface as int),
{
    proof {
        reveal_strlit("");
    }
    if pane < panes.len() {
        if let Some(surfaces) = &panes[pane].surfaces {
            if surface < surfaces.len() {
                if let Some(name) = &surfaces[surface].name {
                    return to_string(name.as_str());
                }
            }
        }
    }
    to_string("")
}

/// What a refused workspace reports, given its name and panes.
pub open spec fn workspace_report(name: Seq<char>, panes: Seq<Pane>, e: WorkspaceError) -> (
    Seq<char>,
    Option<Seq<char>>,
) {
    match e {
        WorkspaceError::Name(p) => (name_text("workspace"@, name, p), None),
        WorkspaceError::Cwd(c) => (
            "invalid cwd for workspace "@ + name,
            Some(path_text(c, Seq::empty())),
        ),
        WorkspaceError::NoPanes => ("workspace "@ + name + " must define at least one pane"@, None),
        WorkspaceError::MultipleFocus => (
            "workspace "@ + name + " has multiple surfaces with focus: true"@,
            None,
        ),
        WorkspaceError::Pane { pane, error: PaneError::EmptySurfaces } => (
            "workspace "@ + name + " pane "@ + decimal(pane as nat + 1)
                + " must not use surfaces: []"@,
            None,
        ),
        WorkspaceError::Pane { pane, error: PaneError::Surface { surface, error } } =>
            surface_report(
            name,
            pane as nat,
            surface as nat,
            error,
            surface_name_at(panes, pane as int, surface as int),
        ),
    }
}

fn cwd_report(lead: &str, name: &str, error: &PathError) -> (r: Report)
    ensures
        report_text(r) == (lead@ + name@, Some(path_text(*error, Seq::empty()))),
{
    proof {
        reveal_strlit("");
        assert(""@ =~= Seq::<char>::empty());
    }
    caused(concat(lead, name), error.message(""))
}

fn workspace_report_of(name: &str, panes: &Vec<Pane>, e: &WorkspaceError) -> (r: Report)
    ensures
        report_text(r) == workspace_report(name@, panes@, *e),
{
    match e {
        WorkspaceError::Name(p) => plain(name_message("workspace", name, *p)),
        WorkspaceError::Cwd(c) => cwd_report("invalid cwd for workspace ", name, c),
        WorkspaceError::NoPanes => {
            let mut out = concat("workspace ", name);
            out.append(" must define at least one pane");
            plain(out)
        },
        WorkspaceError::MultipleFocus => {
            let mut out = concat("workspace ", name);
            out.append(" has multiple surfaces with focus: true");
            plain(out)
        },
        WorkspaceError::Pane { pane, error: PaneError::EmptySurfaces } => {
            let mut out = concat("workspace ", name);
            out.append(" pane ");
            let p = ordinal_string(*pane);
            out.append(p.as_str());
            out.append(" must not use surfaces: []");
            plain(out)
        },
        WorkspaceError::Pane { pane, error: PaneError::Surface { surface, error } } => {
            let surface_name = surface_name(panes, *pane, *surface);
            error.report(name, *pane, *surface, surface_name.as_str())
        },
    }
}

impl WorkspaceError {
    /// What the error reports for `workspace`.
    pub fn report(&self, workspace: &Workspace) -> (r: Report)
        ensures
            report_text(r) == workspace_report(workspace.name@, workspace.panes@, *self),
    {
        workspace_report_of(workspace.name.as_str(), &workspace.panes, self)
    }
}

/// The name of the workspace at `i`; empty where there is none.
pub open spec fn workspace_name_at(p: Project, i: int) -> Seq<char> {
    if 0 <= i < p.workspaces@.len() {
        p.workspaces@[i].name@
    } else {
        Seq::empty()
    }
}

/// The panes of the workspace at `i`; none where there is no workspace.
pub open spec fn workspace_panes_at(p: Project, i: int) -> Seq<Pane> {
    if 0 <= i < p.workspaces@.len() {
        p.workspaces@[i].panes@
    } else {
        Seq::empty()
    }
}

fn workspace_name(p: &Project, i: usize) -> (r: String)
    ensures
        r@ == workspace_name_at(*p, i as int),
{
    proof {
        reveal_strlit("");
    }
    if i < p.workspaces.len() {
        to_string(p.workspaces[i].name.as_str())
    } else {
        to_string("")
    }
}

/// What a refused project reports.
pub open spec fn config_report(p: Project, e: ConfigError) -> (Seq<char>, Option<Seq<char>>) {
    match e {
        ConfigError::Name(problem) => (name_text("project"@, p.name@, problem), None),
        ConfigError::NoWorkspaces => (
            "project "@ + p.name@ + " must define at least one workspace"@,
            None,
        ),
        ConfigError::DuplicateWorkspace { workspace } => (
            "project "@ + p.name@ + " defines duplicate workspace name "@ + workspace_name_at(
                p,
                workspace as int,
            ),
            None,
        ),
        ConfigError::Workspace { workspace, error } => workspace_report(
            workspace_name_at(p, workspace as int),
            workspace_panes_at(p, workspace as int),
            error,
        ),
    }
}

impl ConfigError {
    /// What the error reports for `project`.
    pub fn report(&self, project: &Project) -> (r: Report)
        ensures
            report_text(r) == config_report(*project, *self),
    {
        match self {
            ConfigError::Name(problem) => plain(
                name_message("project", project.name.as_str(), *problem),
            ),
            ConfigError::NoWorkspaces => {
                let mut out = concat("project ", project.name.as_str());
                out.append(" must define at least one workspace");
                plain(out)
            },
            ConfigError::DuplicateWorkspace { workspace } => {
                let mut out = concat("project ", project.name.as_str());
                out.append(" defines duplicate workspace name ");
                let name = workspace_name(project, *workspace);
                out.append(name.as_str());
                plain(out)
            },
            ConfigError::Workspace { workspace, error } => {
                let name = workspace_name(project, *workspace);
                if *workspace < project.workspaces.len() {
                    workspace_report_of(
                        name.as_str(),
                        &project.workspaces[*workspace].panes,
                        error,
                    )
                } else {
                    let none: Vec<Pane> = Vec::new();
                    assert(none@ =~= workspace_panes_at(*project, *workspace as int));
                    workspace_report_of(name.as_str(), &none, error)
                }
            },
        }
    }
}

/// What a failed `start` reports, for `project` and its window.
pub open spec fn start_report(p: Project, window: Seq<char>, e: StartError) -> (
    Seq<char>,
    Option<Seq<char>>,
) {
    match e {
        StartError::Config(c) => config_report(p, c),
        StartError::UnknownWorkspaces { names } => (
            "project "@ + p.name@ + " does not define workspace(s): "@ + join_spec(
                text_views(names@),
                ", "@,
            ),
            None,
        ),
        StartError::InvalidCwd { workspace, error } => (
            "invalid cwd for workspace "@ + workspace_name_at(p, workspace as int),
            Some(path_text(error, Seq::empty())),
        ),
        StartError::NoNewWorkspace => ("no new workspace appeared in window "@ + window, None),
        StartError::MultipleNewWorkspaces { refs } => (
            "multiple new workspaces appeared in window "@ + window + ": "@ + join_spec(
                text_views(refs@),
                ", "@,
            ),
            None,
        ),
        StartError::UnexpectedEvent => ("cmux start sequence went out of step"@, None),
    }
}

impl StartError {
    /// What the error reports for `project`, whose window is `window`.
    pub fn report(&self, project: &Project, window: &str) -> (r: Report)
        ensures
            report_text(r) == start_report(*project, window@, *self),
    {
        match self {
            StartError::Config(c) => c.report(project),
            StartError::UnknownWorkspaces { names } => {
                let mut out = concat("project ", project.name.as_str());
                out.append(" does not define workspace(s): ");
                let joined = join_texts(names, ", ");
                out.append(joined.as_str());
                plain(out)
            },
            StartError::InvalidCwd { workspace, error } => {
                let name = workspace_name(project, *workspace);
                cwd_report("invalid cwd for workspace ", name.as_str(), error)
            },
            StartError::NoNewWorkspace => plain(
                concat("no new workspace appeared in window ", window),
            ),
            StartError::MultipleNewWorkspaces { refs } => {
                let mut out = concat("multiple new workspaces appeared in window ", window);
                out.append(": ");
                let joined = join_texts(refs, ", ");
                out.append(joined.as_str());
                plain(out)
            },
            StartError::UnexpectedEvent => plain(to_string("cmux start sequence went out of step")),
        }
    }
}

/// What a refused `new` says, for the project name it was given.
pub open spec fn new_text(e: NewError, project: Seq<char>) -> Seq<char> {
    match e {
        NewError::Path(p) => path_text(p, project),
        NewError::AlreadyExists { path } => "project file already exists at "@ + path@
            + "; pass --force to overwrite"@,
    }
}

impl NewError {
    /// What the error says; `project` is the project name given to `new`.
    pub fn message(&self, project: &str) -> (r: String)
        ensures
            r@ == new_text(*self, project@),
    {
        match self {
            NewError::Path(p) => p.message(project),
            NewError::AlreadyExists { path } => {
                let mut out = concat("project file already exists at ", path.as_str());
                out.append("; pass --force to overwrite");
                out
            },
        }
    }
}

/// What an unreadable cmux reply says; `reply` names the reply's command.
pub open spec fn cmux_text(e: CmuxError, reply: Seq<char>) -> Seq<char> {
    match e {
        CmuxError::Json(_) => "failed to parse "@ + reply + " JSON"@,
        CmuxError::MissingWindowId => "window.create response did not contain window_id"@,
        CmuxError::MissingWorkspaces => "cmux list-workspaces JSON did not contain workspaces[]"@,
    }
}

impl CmuxError {
    /// What the error says; a JSON error's cause is the parser's own
    /// message.
    pub fn message(&self, reply: &str) -> (r: String)
        ensures
            r@ == cmux_text(*self, reply@),
    {
        match self {
            CmuxError::Json(_) => {
                let mut out = concat("failed to parse ", reply);
                out.append(" JSON");
                out
            },
            CmuxError::MissingWindowId => to_string(
                "window.create response did not contain window_id",
            ),
            CmuxError::MissingWorkspaces => to_string(
                "cmux list-workspaces JSON did not contain workspaces[]",
            ),
        }
    }
}

} // verus!
