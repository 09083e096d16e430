//! Planning `start` and `dry-run`: which workspaces to create, with which
//! working directories and layouts.
use vstd::prelude::*;
use crate::cmux::{text_views, NewWorkspaceSpec};
use crate::formatting::{dry_run_lines, dry_run_script, lines_view, DryRunLine};
use crate::config::{project_error, workspace_error, workspace_fails, ConfigError, Project, Workspace};
use crate::layout::{build_workspace_layout, workspace_layout};
use crate::paths::{cwd_check, expand_cwd, expand_tilde_spec, opt_str_view, PathError};
use crate::search::{first_index, lemma_first_index_found, lemma_first_index_none};
use crate::text::str_equal;

verus! {

/// The workspaces that `start` creates for a project, in order.
#[derive(Debug)]
pub struct StartPlan {
    pub project_name: String,
    pub specs: Vec<NewWorkspaceSpec>,
}

/// Why a project cannot be started.
#[derive(Debug)]
pub enum StartError {
    /// The project is refused.
    Config(ConfigError),
    /// Requested workspaces that the project does not define.
    UnknownWorkspaces { names: Vec<String> },
    /// The working directory of the workspace at this index is refused.
    InvalidCwd { workspace: usize, error: PathError },
    /// No new workspace appeared in the window.
    NoNewWorkspace,
    /// More than one new workspace appeared in the window.
    MultipleNewWorkspaces { refs: Vec<String> },
    /// A run of `start` was told an outcome of the wrong kind.
    UnexpectedEvent,
}

pub open spec fn name_views(ws: Seq<Workspace>) -> Seq<Seq<char>> {
    ws.map_values(|w: Workspace| w.name@)
}

/// The requested names that no workspace has, each once, in the order of
/// their first request.
pub open spec fn unknown_names(sel: Seq<Seq<char>>, names: Seq<Seq<char>>) -> Seq<Seq<char>>
    decreases sel.len(),
{
    if sel.len() == 0 {
        Seq::empty()
    } else {
        let r = unknown_names(sel.drop_last(), names);
        let x = sel.last();
        if names.contains(x) || r.contains(x) {
            r
        } else {
            r.push(x)
        }
    }
}

/// A workspace is started when none is requested or it is requested.
pub open spec fn is_chosen(w: Workspace, sel: Seq<Seq<char>>) -> bool {
    sel.len() == 0 || sel.contains(w.name@)
}

/// The workspaces that are started, in the project's order.
pub open spec fn chosen(ws: Seq<Workspace>, sel: Seq<Seq<char>>) -> Seq<Workspace>
    decreases ws.len(),
{
    if ws.len() == 0 {
        Seq::empty()
    } else {
        let r = chosen(ws.drop_last(), sel);
        if is_chosen(ws.last(), sel) {
            r.push(ws.last())
        } else {
            r
        }
    }
}

pub open spec fn cwd_fails(ws: Seq<Workspace>, sel: Seq<Seq<char>>, home: Option<Seq<char>>) -> spec_fn(
    int,
) -> bool {
    |i: int|
        is_chosen(ws[i], sel) && ws[i].cwd is Some && cwd_check(
            expand_tilde_spec(ws[i].cwd->0@, home),
        ) is Some
}

/// `s` creates workspace `w`: same name, the working directory expanded
/// with `home`, and the workspace's layout.
pub open spec fn spec_for(s: NewWorkspaceSpec, w: Workspace, home: Option<Seq<char>>) -> bool {
    &&& s.name == w.name
    &&& s.layout@ == workspace_layout(w)
    &&& match w.cwd {
        None => s.cwd is None,
        Some(c) => s.cwd is Some && s.cwd->0@ == expand_tilde_spec(c@, home),
    }
}

/// The specs create the chosen workspaces, one each, in order.
pub open spec fn specs_for(specs: Seq<NewWorkspaceSpec>, ws: Seq<Workspace>, home: Option<Seq<char>>) -> bool {
    &&& specs.len() == ws.len()
    &&& forall|i: int| 0 <= i < ws.len() ==> spec_for(#[trigger] specs[i], ws[i], home)
}

/// What `select_specs` gives: the unknown requested names, else the first
/// chosen workspace whose working directory is refused, else success.
pub open spec fn selection_outcome(
    r: Result<Vec<NewWorkspaceSpec>, StartError>,
    p: Project,
    sel: Seq<Seq<char>>,
    home: Option<Seq<char>>,
) -> bool {
    let ws = p.workspaces@;
    let unknown = unknown_names(sel, name_views(ws));
    if unknown.len() > 0 {
        r matches Err(StartError::UnknownWorkspaces { names }) && text_views(names@) == unknown
    } else {
        match first_index(ws.len(), cwd_fails(ws, sel, home)) {
            Some(k) => r matches Err(StartError::InvalidCwd { workspace, error }) && workspace
                == k && Some(error) == cwd_check(expand_tilde_spec(ws[k].cwd->0@, home)),
            None => r matches Ok(specs) && specs_for(specs@, chosen(ws, sel), home),
        }
    }
}

/// Whether `v` holds a string equal to `s`.
pub fn contains_text(v: &Vec<String>, s: &str) -> (r: bool)
    ensures
        r == text_views(v@).contains(s@),
{
    let mut i: usize = 0;
    while i < v.len()
        invariant
            i <= v.len(),
            forall|j: int| 0 <= j < i ==> v@[j]@ != s@,
        decreases v.len() - i,
    {
        if str_equal(v[i].as_str(), s) {
            assert(text_views(v@)[i as int] == s@);
            return true;
        }
        i = i + 1;
    }
    assert forall|j: int| 0 <= j < text_views(v@).len() implies text_views(v@)[j] != s@ by {}
    false
}

/// Whether some workspace of the project is named `name`.
fn defines_workspace(ws: &Vec<Workspace>, name: &str) -> (r: bool)
    ensures
        r == name_views(ws@).contains(name@),
{
    let mut i: usize = 0;
    while i < ws.len()
        invariant
            i <= ws.len(),
            forall|j: int| 0 <= j < i ==> ws@[j].name@ != name@,
        decreases ws.len() - i,
    {
        if str_equal(ws[i].name.as_str(), name) {
            assert(name_views(ws@)[i as int] == name@);
            return true;
        }
        i = i + 1;
    }
    assert forall|j: int| 0 <= j < name_views(ws@).len() implies name_views(ws@)[j] != name@ by {}
    false
}

/// The requested names that the project does not define.
fn unknown_requested(ws: &Vec<Workspace>, selected: &Vec<String>) -> (r: Vec<String>)
    ensures
        text_views(r@) == unknown_names(text_views(selected@), name_views(ws@)),
{
    let ghost sel = text_views(selected@);
    let ghost names = name_views(ws@);
    let mut unknown: Vec<String> = Vec::new();
    let mut i: usize = 0;
    while i < selected.len()
        invariant
            i <= selected.len(),
            sel == text_views(selected@),
            names == name_views(ws@),
            text_views(unknown@) == unknown_names(sel.take(i as int), names),
        decreases selected.len() - i,
    {
        assert(sel.take(i + 1).drop_last() =~= sel.take(i as int));
        assert(sel.take(i + 1).last() == selected@[i as int]@);
        let known = defines_workspace(ws, selected[i].as_str());
        let seen = contains_text(&unknown, selected[i].as_str());
        if !known && !seen {
            let ghost before = unknown@;
            unknown.push(selected[i].clone());
            assert(text_views(unknown@) =~= text_views(before).push(selected@[i as int]@));
        }
        i = i + 1;
    }
    assert(sel.take(selected.len() as int) =~= sel);
    unknown
}

/// The specs of the workspaces to start: all of them when none are
/// requested, else those requested, in the project's order.
pub fn select_specs(project: &Project, selected_workspaces: &Vec<String>, home: Option<&str>) -> (r:
    Result<Vec<NewWorkspaceSpec>, StartError>)
    ensures
        selection_outcome(
            r,
            *project,
            text_views(selected_workspaces@),
            opt_str_view(home),
        ),
{
    let unknown = unknown_requested(&project.workspaces, selected_workspaces);
    if unknown.len() > 0 {
        return Err(StartError::UnknownWorkspaces { names: unknown });
    }
    let ghost ws = project.workspaces@;
    let ghost sel = text_views(selected_workspaces@);
    let ghost h = opt_str_view(home);
    let ghost f = cwd_fails(ws, sel, h);
    let mut specs: Vec<NewWorkspaceSpec> = Vec::new();
    let mut i: usize = 0;
    while i < project.workspaces.len()
        invariant
            i <= project.workspaces.len(),
            ws == project.workspaces@,
            sel == text_views(selected_workspaces@),
            h == opt_str_view(home),
            f == cwd_fails(ws, sel, h),
            unknown_names(sel, name_views(ws)).len() == 0,
            forall|j: int| 0 <= j < i ==> !#[trigger] f(j),
            specs_for(specs@, chosen(ws.take(i as int), sel), h),
        decreases project.workspaces.len() - i,
    {
        let w = &project.workspaces[i];
        assert(ws.take(i + 1).drop_last() =~= ws.take(i as int));
        assert(ws.take(i + 1).last() == ws[i as int]);
        let take = selected_workspaces.len() == 0 || contains_text(
            selected_workspaces,
            w.name.as_str(),
        );
        if take {
            let cwd: Option<String> = match &w.cwd {
                None => None,
                Some(c) => match expand_cwd(c.as_str(), home) {
                    Ok(e) => Some(e),
                    Err(e) => {
                        proof {
                            lemma_first_index_found(ws.len(), f, i as int);
                        }
                        return Err(StartError::InvalidCwd { workspace: i, error: e });
                    },
                },
            };
            let layout = build_workspace_layout(w);
            let ghost before = specs@;
            specs.push(NewWorkspaceSpec { name: w.name.clone(), cwd, layout });
            proof {
                let c = chosen(ws.take(i + 1), sel);
                assert(c == chosen(ws.take(i as int), sel).push(ws[i as int]));
                assert forall|j: int| 0 <= j < c.len() implies spec_for(
                    #[trigger] specs@[j],
                    c[j],
                    h,
                ) by {
                    if j < before.len() {
                        assert(specs@[j] == before[j]);
                    }
                }
            }
        }
        i = i + 1;
    }
    proof {
        lemma_first_index_none(ws.len(), f);
        assert(ws.take(ws.len() as int) =~= ws);
    }
    Ok(specs)
}

/// A project that passes validation has no working directory that
/// planning refuses: what validation accepts can be started.
pub proof fn lemma_valid_project_cwds(p: Project, sel: Seq<Seq<char>>, home: Option<Seq<char>>)
    requires
        project_error(p, home) is None,
    ensures
        first_index(p.workspaces@.len(), cwd_fails(p.workspaces@, sel, home)) is None,
{
    let ws = p.workspaces@;
    if ws.len() > 0 && crate::paths::name_problem(p.name@) is None {
        lemma_first_index_none(ws.len(), workspace_fails(ws, home));
        assert forall|i: int| 0 <= i < ws.len() implies !#[trigger] cwd_fails(ws, sel, home)(i) by {
            assert(!workspace_fails(ws, home)(i));
            assert(workspace_error(ws[i], home) is None);
        }
    }
    lemma_first_index_none(ws.len(), cwd_fails(ws, sel, home));
}

/// What `build_plan` gives: the project's first problem, else the unknown
/// requested names, else the plan.
pub open spec fn plan_outcome(
    r: Result<StartPlan, StartError>,
    p: Project,
    sel: Seq<Seq<char>>,
    home: Option<Seq<char>>,
) -> bool {
    let ws = p.workspaces@;
    match project_error(p, home) {
        Some(e) => r matches Err(StartError::Config(c)) && c == e,
        None => {
            let unknown = unknown_names(sel, name_views(ws));
            if unknown.len() > 0 {
                r matches Err(StartError::UnknownWorkspaces { names }) && text_views(names@)
                    == unknown
            } else {
                r matches Ok(plan) && plan.project_name == p.name && specs_for(
                    plan.specs@,
                    chosen(ws, sel),
                    home,
                )
            }
        },
    }
}

/// Validates a project and plans the workspaces to start.
pub fn build_plan(project: &Project, selected_workspaces: &Vec<String>, home: Option<&str>) -> (r:
    Result<StartPlan, StartError>)
    ensures
        plan_outcome(
            r,
            *project,
            text_views(selected_workspaces@),
            opt_str_view(home),
        ),
{
    match project.validate(home) {
        Err(e) => return Err(StartError::Config(e)),
        Ok(()) => {},
    }
    proof {
        lemma_valid_project_cwds(*project, text_views(selected_workspaces@), opt_str_view(home));
    }
    let specs = select_specs(project, selected_workspaces, home)?;
    Ok(StartPlan { project_name: project.name.clone(), specs })
}

/// The references in `after` that are not in `before`, in order.
pub open spec fn created_refs(before: Seq<Seq<char>>, after: Seq<Seq<char>>) -> Seq<Seq<char>> {
    after.filter(|x: Seq<char>| !before.contains(x))
}

/// The workspace that appeared in a window: the one reference listed
/// after creating it and not before.
pub fn new_workspace_ref(before: &Vec<String>, after: &Vec<String>) -> (r: Result<String, StartError>)
    ensures
        ({
            let created = created_refs(text_views(before@), text_views(after@));
            if created.len() == 1 {
                r matches Ok(s) && s@ == created[0]
            } else if created.len() == 0 {
                r matches Err(StartError::NoNewWorkspace)
            } else {
                r matches Err(StartError::MultipleNewWorkspaces { refs }) && text_views(refs@)
                    == created
            }
        }),
{
    let ghost b = text_views(before@);
    let ghost a = text_views(after@);
    let mut created: Vec<String> = Vec::new();
    let mut i: usize = 0;
    while i < after.len()
        invariant
            i <= after.len(),
            b == text_views(before@),
            a == text_views(after@),
            text_views(created@) == created_refs(b, a.take(i as int)),
        decreases after.len() - i,
    {
        proof {
            reveal_with_fuel(Seq::filter, 1);
        }
        assert(a.take(i + 1).drop_last() =~= a.take(i as int));
        let known = contains_text(before, after[i].as_str());
        if !known {
            let ghost old_created = created@;
            created.push(after[i].clone());
            assert(text_views(created@) =~= text_views(old_created).push(after@[i as int]@));
        }
        i = i + 1;
    }
    assert(a.take(after.len() as int) =~= a);
    if created.len() == 1 {
        let mut created = created;
        let only = created.pop().unwrap();
        Ok(only)
    } else if created.len() == 0 {
        Err(StartError::NoNewWorkspace)
    } else {
        Err(StartError::MultipleNewWorkspaces { refs: created })
    }
}

/// Plans a project as `build_plan` does and gives the lines that a dry run
/// prints for the plan.
pub fn dry_run(
    project: &Project,
    selected_workspaces: &Vec<String>,
    create_group: bool,
    home: Option<&str>,
) -> (r: Result<(StartPlan, Vec<DryRunLine>), StartError>)
    ensures
        plan_outcome(
            match r {
                Ok((plan, _)) => Ok(plan),
                Err(e) => Err(e),
            },
            *project,
            text_views(selected_workspaces@),
            opt_str_view(home),
        ),
        r matches Ok((plan, lines)) ==> lines_view(lines@) == dry_run_script(
            plan.project_name@,
            plan.specs@,
            create_group,
        ),
{
    let plan = build_plan(project, selected_workspaces, home)?;
    let lines = dry_run_lines(plan.project_name.as_str(), &plan.specs, create_group);
    Ok((plan, lines))
}

/// A step of `start` for the caller to perform against cmux.
#[derive(Debug)]
pub enum StartAction {
    /// Check that the cmux command line is available.
    CheckCmux,
    /// Create the project's window and report its id.
    CreateWindow,
    /// List the workspaces of the window and report their references.
    ListWorkspaces { window: String },
    /// Create the workspace of the plan's spec at `index`.
    CreateWorkspace { index: usize, window: String, focus: bool },
    /// Close a workspace that cmux created with the window.
    ClosePlaceholder { workspace_ref: String, window: String },
    /// Group the created workspaces under the project's name.
    CreateGroup { name: String, refs: Vec<String>, window: String },
    /// Nothing is left to do.
    Finished,
}

/// What the caller reports once it has performed an action.
#[derive(Debug)]
pub enum StartEvent {
    /// The action succeeded.
    Done,
    /// The window was created with this id.
    WindowCreated(String),
    /// The window holds the workspaces with these references.
    Workspaces(Vec<String>),
}

/// Where a run of `start` stands.
#[derive(Clone, Copy, Debug, PartialEq, Eq, Structural)]
pub enum StartPhase {
    CheckingCmux,
    CreatingWindow,
    ListingPlaceholders,
    ListingBefore,
    Creating,
    ListingAfter,
    Closing,
    Grouping,
    Finished,
}

/// The mathematical form of an action.
pub enum StartStep {
    CheckCmux,
    CreateWindow,
    List,
    Create(nat, bool),
    Close(Seq<char>),
    Group(Seq<Seq<char>>),
    Finish,
}

pub open spec fn step_of(a: StartAction) -> StartStep {
    match a {
        StartAction::CheckCmux => StartStep::CheckCmux,
        StartAction::CreateWindow => StartStep::CreateWindow,
        StartAction::ListWorkspaces { .. } => StartStep::List,
        StartAction::CreateWorkspace { index, focus, .. } => StartStep::Create(index as nat, focus),
        StartAction::ClosePlaceholder { workspace_ref, .. } => StartStep::Close(workspace_ref@),
        StartAction::CreateGroup { refs, .. } => StartStep::Group(text_views(refs@)),
        StartAction::Finished => StartStep::Finish,
    }
}

/// An action acts in `window`, creates one of the `count` planned
/// workspaces, and groups under the project's name.
pub open spec fn action_fits(a: StartAction, window: Seq<char>, project_name: Seq<char>, count: nat) -> bool {
    match a {
        StartAction::ListWorkspaces { window: w } => w@ == window,
        StartAction::CreateWorkspace { index, window: w, .. } => w@ == window && index < count,
        StartAction::ClosePlaceholder { window: w, .. } => w@ == window,
        StartAction::CreateGroup { name, window: w, .. } => w@ == window && name@ == project_name,
        _ => true,
    }
}

/// The outcome is of the kind that the action of this phase reports: a
/// plain success after checking cmux, creating a workspace, closing a
/// placeholder or grouping; the window's id after creating it; the window's
/// workspaces after listing them. A finished run takes no more outcomes.
pub open spec fn event_fits(phase: StartPhase, event: StartEvent) -> bool {
    match phase {
        StartPhase::CheckingCmux => event is Done,
        StartPhase::CreatingWindow => event is WindowCreated,
        StartPhase::ListingPlaceholders => event is Workspaces,
        StartPhase::ListingBefore => event is Workspaces,
        StartPhase::Creating => event is Done,
        StartPhase::ListingAfter => event is Workspaces,
        StartPhase::Closing => event is Done,
        StartPhase::Grouping => event is Done,
        StartPhase::Finished => false,
    }
}

pub open spec fn opening_steps() -> Seq<StartStep> {
    seq![StartStep::CheckCmux, StartStep::CreateWindow, StartStep::List]
}

/// Creating the workspace at `i`: list, create (focused only for the
/// first), list again to find the new one.
pub open spec fn workspace_steps(i: nat) -> Seq<StartStep> {
    seq![StartStep::List, StartStep::Create(i, i == 0), StartStep::List]
}

pub open spec fn creation_steps(n: nat) -> Seq<StartStep>
    decreases n,
{
    if n == 0 {
        Seq::empty()
    } else {
        creation_steps((n - 1) as nat) + workspace_steps((n - 1) as nat)
    }
}

pub open spec fn close_steps(refs: Seq<Seq<char>>) -> Seq<StartStep> {
    refs.map_values(|r: Seq<char>| StartStep::Close(r))
}

pub open spec fn group_steps(group: bool, created: Seq<Seq<char>>) -> Seq<StartStep> {
    if group && created.len() > 1 {
        seq![StartStep::Group(created)]
    } else {
        Seq::empty()
    }
}

/// Everything a successful run does: open a window, create the workspaces
/// in order, close every placeholder, group when asked and there are two or
/// more workspaces, finish.
pub open spec fn run_steps(
    n: nat,
    placeholders: Seq<Seq<char>>,
    created: Seq<Seq<char>>,
    group: bool,
) -> Seq<StartStep> {
    opening_steps() + creation_steps(n) + close_steps(placeholders) + group_steps(group, created)
        + seq![StartStep::Finish]
}

/// A run of `start`: a state machine that says what to do next and is told
/// how it went.
pub struct StartRun {
    project_name: String,
    count: usize,
    create_group: bool,
    phase: StartPhase,
    window: String,
    placeholders: Vec<String>,
    before: Vec<String>,
    created: Vec<String>,
    closed: usize,
    trace: Ghost<Seq<StartStep>>,
}

impl StartRun {
    pub closed spec fn project_name(&self) -> Seq<char> {
        self.project_name@
    }

    /// How many workspaces the run creates.
    pub closed spec fn count(&self) -> nat {
        self.count as nat
    }

    pub closed spec fn create_group(&self) -> bool {
        self.create_group
    }

    /// The workspaces listed in the window before the workspace being
    /// created was asked for.
    pub closed spec fn before(&self) -> Seq<Seq<char>> {
        text_views(self.before@)
    }

    /// The project's window, once cmux has created it.
    pub closed spec fn window(&self) -> Seq<char> {
        self.window@
    }

    pub closed spec fn phase(&self) -> StartPhase {
        self.phase
    }

    pub closed spec fn placeholders(&self) -> Seq<Seq<char>> {
        text_views(self.placeholders@)
    }

    /// The references of the workspaces created so far, in order.
    pub closed spec fn created(&self) -> Seq<Seq<char>> {
        text_views(self.created@)
    }

    /// The actions given so far.
    pub closed spec fn trace(&self) -> Seq<StartStep> {
        self.trace@
    }

    /// The run is where its actions so far have brought it.
    pub closed spec fn wf(&self) -> bool {
        let k = self.created@.len() as nat;
        let head = opening_steps() + creation_steps(k);
        let ph = text_views(self.placeholders@);
        let done = opening_steps() + creation_steps(self.count as nat);
        &&& k <= self.count
        &&& match self.phase {
            StartPhase::CheckingCmux => self.trace@ == seq![StartStep::CheckCmux] && k == 0,
            StartPhase::CreatingWindow => self.trace@ == seq![
                StartStep::CheckCmux,
                StartStep::CreateWindow,
            ] && k == 0,
            StartPhase::ListingPlaceholders => self.trace@ == opening_steps() && k == 0,
            StartPhase::ListingBefore => k < self.count && self.trace@ == head + seq![StartStep::List],
            StartPhase::Creating => k < self.count && self.trace@ == head + workspace_steps(k).take(2),
            StartPhase::ListingAfter => k < self.count && self.trace@ == head + workspace_steps(k),
            StartPhase::Closing => k == self.count && self.closed < ph.len() && self.trace@ == done
                + close_steps(ph.take(self.closed + 1)),
            StartPhase::Grouping => k == self.count && self.trace@ == done + close_steps(ph)
                + group_steps(self.create_group, self.created())
                && self.create_group && k > 1,
            StartPhase::Finished => k == self.count && self.trace@ == run_steps(
                self.count as nat,
                ph,
                self.created(),
                self.create_group,
            ),
        }
    }

    /// A finished run has created every planned workspace; asked to group
    /// two or more, it has grouped all the created workspaces, just before
    /// finishing, and it has grouped nothing otherwise.
    pub proof fn lemma_finished_run_groups(&self)
        requires
            self.wf(),
            self.phase() == StartPhase::Finished,
        ensures
            self.created().len() == self.count(),
            self.create_group() && self.count() >= 2 ==> self.trace()[self.trace().len() - 2]
                == StartStep::Group(self.created()),
            forall|k: int|
                0 <= k < self.trace().len() && (#[trigger] self.trace()[k] is Group) ==> (
                self.create_group() && self.count() >= 2),
    {
        lemma_run_groups_all_created(
            self.count as nat,
            text_views(self.placeholders@),
            self.created(),
            self.create_group,
        );
    }

    /// A run for a plan; its first action is to check for cmux.
    pub fn new(plan: &StartPlan, create_group: bool) -> (r: (StartRun, StartAction))
        ensures
            r.0.wf(),
            r.0.project_name() == plan.project_name@,
            r.0.count() == plan.specs@.len(),
            r.0.create_group() == create_group,
            r.0.phase() == StartPhase::CheckingCmux,
            r.0.trace() == seq![step_of(r.1)],
            r.1 is CheckCmux,
    {
        let ghost first = seq![StartStep::CheckCmux];
        let run = StartRun {
            project_name: plan.project_name.clone(),
            count: plan.specs.len(),
            create_group,
            phase: StartPhase::CheckingCmux,
            window: String::new(),
            placeholders: Vec::new(),
            before: Vec::new(),
            created: Vec::new(),
            closed: 0,
            trace: Ghost(first),
        };
        (run, StartAction::CheckCmux)
    }

    fn list_action(&self) -> (r: StartAction)
        ensures
            step_of(r) == StartStep::List,
            r matches StartAction::ListWorkspaces { window } && window == self.window,
    {
        StartAction::ListWorkspaces { window: self.window.clone() }
    }

    /// Once every workspace exists: close the first placeholder, else group
    /// or finish.
    fn after_creation(&mut self) -> (r: StartAction)
        requires
            old(self).created@.len() == old(self).count,
            old(self).trace@ == opening_steps() + creation_steps(old(self).count as nat),
        ensures
            final(self).wf(),
            final(self).trace@ == old(self).trace@.push(step_of(r)),
            final(self).project_name == old(self).project_name,
            final(self).count == old(self).count,
            final(self).create_group == old(self).create_group,
            final(self).placeholders == old(self).placeholders,
            final(self).created == old(self).created,
            final(self).window == old(self).window,
            final(self).before == old(self).before,
            action_fits(r, final(self).window@, final(self).project_name@, final(self).count as nat),
    {
        self.closed = 0;
        if self.placeholders.len() > 0 {
            let action = StartAction::ClosePlaceholder {
                workspace_ref: self.placeholders[0].clone(),
                window: self.window.clone(),
            };
            self.phase = StartPhase::Closing;
            proof {
                let ph = text_views(self.placeholders@);
                assert(close_steps(ph.take(1)) =~= seq![StartStep::Close(ph[0])]);
                self.trace@ = self.trace@.push(step_of(action));
                assert(self.trace@ =~= opening_steps() + creation_steps(self.count as nat)
                    + close_steps(ph.take(1)));
            }
            action
        } else {
            proof {
                assert(text_views(self.placeholders@) =~= Seq::<Seq<char>>::empty());
                assert(close_steps(text_views(self.placeholders@)) =~= Seq::<StartStep>::empty());
            }
            self.after_closing()
        }
    }

    /// Once every placeholder is closed: group, else finish.
    fn after_closing(&mut self) -> (r: StartAction)
        requires
            old(self).created@.len() == old(self).count,
            old(self).trace@ == opening_steps() + creation_steps(old(self).count as nat)
                + close_steps(text_views(old(self).placeholders@)),
        ensures
            final(self).wf(),
            final(self).trace@ == old(self).trace@.push(step_of(r)),
            final(self).project_name == old(self).project_name,
            final(self).count == old(self).count,
            final(self).create_group == old(self).create_group,
            final(self).placeholders == old(self).placeholders,
            final(self).created == old(self).created,
            final(self).window == old(self).window,
            final(self).before == old(self).before,
            action_fits(r, final(self).window@, final(self).project_name@, final(self).count as nat),
    {
        if self.create_group && self.created.len() > 1 {
            let refs = clone_texts(&self.created);
            let action = StartAction::CreateGroup {
                name: self.project_name.clone(),
                refs,
                window: self.window.clone(),
            };
            self.phase = StartPhase::Grouping;
            proof {
                let old_trace = self.trace@;
                self.trace@ = self.trace@.push(step_of(action));
                assert(group_steps(self.create_group, self.created()) =~= seq![
                    StartStep::Group(text_views(self.created@)),
                ]);
                assert(self.trace@ =~= old_trace + group_steps(self.create_group, self.created()));
            }
            action
        } else {
            self.phase = StartPhase::Finished;
            proof {
                self.trace@ = self.trace@.push(StartStep::Finish);
                assert(group_steps(self.create_group, self.created()) =~= Seq::<StartStep>::empty());
                assert(self.trace@ =~= run_steps(
                    self.count as nat,
                    text_views(self.placeholders@),
                    self.created(),
                    self.create_group,
                ));
            }
            StartAction::Finished
        }
    }

    /// The run's project, size and grouping stay as they were.
    pub closed spec fn same_run(&self, other: &StartRun) -> bool {
        &&& self.project_name == other.project_name
        &&& self.count == other.count
        &&& self.create_group == other.create_group
    }

    fn on_cmux_checked(&mut self) -> (r: StartAction)
        requires
            old(self).wf(),
            old(self).phase == StartPhase::CheckingCmux,
        ensures
            final(self).wf(),
            final(self).same_run(old(self)),
            final(self).trace@ == old(self).trace@.push(step_of(r)),
            final(self).window == old(self).window,
            final(self).before == old(self).before,
            action_fits(r, final(self).window@, final(self).project_name@, final(self).count as nat),
    {
        self.phase = StartPhase::CreatingWindow;
        proof {
            self.trace@ = self.trace@.push(StartStep::CreateWindow);
            assert(self.trace@ =~= seq![StartStep::CheckCmux, StartStep::CreateWindow]);
        }
        StartAction::CreateWindow
    }

    fn on_window(&mut self, window: String) -> (r: StartAction)
        requires
            old(self).wf(),
            old(self).phase == StartPhase::CreatingWindow,
        ensures
            final(self).wf(),
            final(self).same_run(old(self)),
            final(self).trace@ == old(self).trace@.push(step_of(r)),
            final(self).window == window,
            final(self).before == old(self).before,
            action_fits(r, final(self).window@, final(self).project_name@, final(self).count as nat),
    {
        self.window = window;
        self.phase = StartPhase::ListingPlaceholders;
        let action = self.list_action();
        proof {
            self.trace@ = self.trace@.push(step_of(action));
            assert(self.trace@ =~= opening_steps());
        }
        action
    }

    fn on_placeholders(&mut self, refs: Vec<String>) -> (r: StartAction)
        requires
            old(self).wf(),
            old(self).phase == StartPhase::ListingPlaceholders,
        ensures
            final(self).wf(),
            final(self).same_run(old(self)),
            final(self).trace@ == old(self).trace@.push(step_of(r)),
            final(self).window == old(self).window,
            final(self).before == old(self).before,
            action_fits(r, final(self).window@, final(self).project_name@, final(self).count as nat),
            final(self).placeholders == refs,
    {
        self.placeholders = refs;
        if self.count > 0 {
            self.phase = StartPhase::ListingBefore;
            let action = self.list_action();
            proof {
                self.trace@ = self.trace@.push(step_of(action));
                assert(creation_steps(0) =~= Seq::<StartStep>::empty());
                assert(self.trace@ =~= opening_steps() + creation_steps(0) + seq![StartStep::List]);
            }
            action
        } else {
            proof {
                assert(opening_steps() + creation_steps(0) =~= opening_steps());
            }
            self.after_creation()
        }
    }

    fn on_before(&mut self, refs: Vec<String>) -> (r: StartAction)
        requires
            old(self).wf(),
            old(self).phase == StartPhase::ListingBefore,
        ensures
            final(self).wf(),
            final(self).same_run(old(self)),
            final(self).trace@ == old(self).trace@.push(step_of(r)),
            final(self).window == old(self).window,
            final(self).before == refs,
            action_fits(r, final(self).window@, final(self).project_name@, final(self).count as nat),
    {
        let ghost k = self.created@.len() as nat;
        self.before = refs;
        let index = self.created.len();
        let action = StartAction::CreateWorkspace {
            index,
            window: self.window.clone(),
            focus: index == 0,
        };
        self.phase = StartPhase::Creating;
        proof {
            self.trace@ = self.trace@.push(step_of(action));
            assert(workspace_steps(k).take(2) =~= seq![
                StartStep::List,
                StartStep::Create(k, k == 0),
            ]);
            assert(self.trace@ =~= opening_steps() + creation_steps(k) + workspace_steps(k).take(
                2,
            ));
        }
        action
    }

    fn on_created(&mut self) -> (r: StartAction)
        requires
            old(self).wf(),
            old(self).phase == StartPhase::Creating,
        ensures
            final(self).wf(),
            final(self).same_run(old(self)),
            final(self).trace@ == old(self).trace@.push(step_of(r)),
            final(self).window == old(self).window,
            final(self).before == old(self).before,
            action_fits(r, final(self).window@, final(self).project_name@, final(self).count as nat),
    {
        let ghost k = self.created@.len() as nat;
        self.phase = StartPhase::ListingAfter;
        let action = self.list_action();
        proof {
            self.trace@ = self.trace@.push(step_of(action));
            assert(self.trace@ =~= opening_steps() + creation_steps(k) + workspace_steps(k));
        }
        action
    }

    fn on_after(&mut self, after: Vec<String>) -> (r: Result<StartAction, StartError>)
        requires
            old(self).wf(),
            old(self).phase == StartPhase::ListingAfter,
        ensures
            final(self).wf(),
            final(self).same_run(old(self)),
            match r {
                Ok(a) => final(self).trace@ == old(self).trace@.push(step_of(a)),
                Err(_) => final(self).trace@ == old(self).trace@,
            },
            final(self).window == old(self).window,
            final(self).before == old(self).before,
            r matches Ok(a) ==> action_fits(a, final(self).window@, final(self).project_name@, final(self).count as nat),
            ({
                let created = created_refs(text_views(old(self).before@), text_views(after@));
                &&& (r is Ok <==> created.len() == 1)
                &&& (created.len() == 0 ==> (r matches Err(StartError::NoNewWorkspace)))
                &&& (created.len() > 1 ==> (r matches Err(StartError::MultipleNewWorkspaces { refs })
                    && text_views(refs@) == created))
                &&& r is Ok ==> text_views(final(self).created@) == text_views(
                    old(self).created@,
                ).push(created[0])
                &&& r is Err ==> *final(self) == *old(self)
            }),
    {
        let ghost k = self.created@.len() as nat;
        let ghost old_created = self.created@;
        let new_ref = new_workspace_ref(&self.before, &after)?;
        self.created.push(new_ref);
        proof {
            assert(text_views(self.created@) =~= text_views(old_created).push(
                self.created@[old_created.len() as int]@,
            ));
            assert(creation_steps(k + 1) == creation_steps(k) + workspace_steps(k));
            assert(opening_steps() + creation_steps(k) + workspace_steps(k) =~= opening_steps()
                + creation_steps(k + 1));
        }
        if self.created.len() < self.count {
            self.phase = StartPhase::ListingBefore;
            let action = self.list_action();
            proof {
                self.trace@ = self.trace@.push(step_of(action));
                assert(self.trace@ =~= opening_steps() + creation_steps(k + 1) + seq![
                    StartStep::List,
                ]);
            }
            Ok(action)
        } else {
            Ok(self.after_creation())
        }
    }

    fn on_closed(&mut self) -> (r: StartAction)
        requires
            old(self).wf(),
            old(self).phase == StartPhase::Closing,
        ensures
            final(self).wf(),
            final(self).same_run(old(self)),
            final(self).trace@ == old(self).trace@.push(step_of(r)),
            final(self).window == old(self).window,
            final(self).before == old(self).before,
            action_fits(r, final(self).window@, final(self).project_name@, final(self).count as nat),
    {
        let ghost ph = text_views(self.placeholders@);
        let total: usize = self.placeholders.len();
        self.closed = self.closed + 1;
        if self.closed < total {
            let action = StartAction::ClosePlaceholder {
                workspace_ref: self.placeholders[self.closed].clone(),
                window: self.window.clone(),
            };
            proof {
                let c = self.closed as int;
                assert(close_steps(ph.take(c + 1)) =~= close_steps(ph.take(c)).push(
                    StartStep::Close(ph[c]),
                ));
                self.trace@ = self.trace@.push(step_of(action));
                assert(self.trace@ =~= opening_steps() + creation_steps(self.count as nat)
                    + close_steps(ph.take(c + 1)));
            }
            action
        } else {
            proof {
                assert(ph.take(self.closed as int) =~= ph);
            }
            self.after_closing()
        }
    }

    fn on_grouped(&mut self) -> (r: StartAction)
        requires
            old(self).wf(),
            old(self).phase == StartPhase::Grouping,
        ensures
            final(self).wf(),
            final(self).same_run(old(self)),
            final(self).trace@ == old(self).trace@.push(step_of(r)),
            final(self).window == old(self).window,
            final(self).before == old(self).before,
            action_fits(r, final(self).window@, final(self).project_name@, final(self).count as nat),
    {
        self.phase = StartPhase::Finished;
        proof {
            self.trace@ = self.trace@.push(StartStep::Finish);
            assert(self.trace@ =~= run_steps(
                self.count as nat,
                text_views(self.placeholders@),
                self.created(),
                self.create_group,
            ));
        }
        StartAction::Finished
    }

    /// Takes the outcome of the last action and gives the next one. An
    /// event of the wrong kind for the last action is refused and changes
    /// nothing.
    pub fn step(&mut self, event: StartEvent) -> (r: Result<StartAction, StartError>)
        requires
            old(self).wf(),
        ensures
            final(self).wf(),
            final(self).project_name() == old(self).project_name(),
            final(self).count() == old(self).count(),
            final(self).create_group() == old(self).create_group(),
            match r {
                Ok(a) => final(self).trace() == old(self).trace().push(step_of(a)),
                Err(_) => final(self).trace() == old(self).trace(),
            },
            final(self).phase() == StartPhase::Finished ==> final(self).trace() == run_steps(
                final(self).count(),
                final(self).placeholders(),
                final(self).created(),
                final(self).create_group(),
            ),
            (old(self).phase() == StartPhase::CreatingWindow && r is Ok) ==> (event matches StartEvent::WindowCreated(
                w,
            ) && final(self).window() == w@),
            !(old(self).phase() == StartPhase::CreatingWindow && r is Ok) ==> final(self).window()
                == old(self).window(),
            r matches Ok(a) ==> action_fits(
                a,
                final(self).window(),
                final(self).project_name(),
                final(self).count(),
            ),
            !event_fits(old(self).phase(), event) ==> r matches Err(StartError::UnexpectedEvent),
            event_fits(old(self).phase(), event) && old(self).phase() != StartPhase::ListingAfter
                ==> r is Ok,
            old(self).phase() == StartPhase::ListingAfter ==> (event matches StartEvent::Workspaces(
                after,
            ) ==> ({
                let created = created_refs(old(self).before(), text_views(after@));
                &&& (r is Ok <==> created.len() == 1)
                &&& (created.len() == 0 ==> (r matches Err(StartError::NoNewWorkspace)))
                &&& (created.len() > 1 ==> (r matches Err(StartError::MultipleNewWorkspaces { refs })
                    && text_views(refs@) == created))
                &&& r is Ok ==> final(self).created() == old(self).created().push(created[0])
            })),
            old(self).phase() == StartPhase::ListingPlaceholders ==> (event matches StartEvent::Workspaces(
                refs,
            ) ==> final(self).placeholders() == text_views(refs@)),
            old(self).phase() == StartPhase::ListingBefore ==> (event matches StartEvent::Workspaces(
                refs,
            ) ==> final(self).before() == text_views(refs@)),
            !(old(self).phase() == StartPhase::ListingBefore && r is Ok) ==> final(self).before()
                == old(self).before(),
            r is Err ==> *final(self) == *old(self),
    {
        match (self.phase, event) {
            (StartPhase::CheckingCmux, StartEvent::Done) => Ok(self.on_cmux_checked()),
            (StartPhase::CreatingWindow, StartEvent::WindowCreated(w)) => Ok(self.on_window(w)),
            (StartPhase::ListingPlaceholders, StartEvent::Workspaces(refs)) => Ok(
                self.on_placeholders(refs),
            ),
            (StartPhase::ListingBefore, StartEvent::Workspaces(refs)) => Ok(self.on_before(refs)),
            (StartPhase::Creating, StartEvent::Done) => Ok(self.on_created()),
            (StartPhase::ListingAfter, StartEvent::Workspaces(after)) => self.on_after(after),
            (StartPhase::Closing, StartEvent::Done) => Ok(self.on_closed()),
            (StartPhase::Grouping, StartEvent::Done) => Ok(self.on_grouped()),
            _ => Err(StartError::UnexpectedEvent),
        }
    }
}

/// A copy of a list of strings.
fn clone_texts(v: &Vec<String>) -> (r: Vec<String>)
    ensures
        r@ == v@,
{
    let mut out: Vec<String> = Vec::new();
    let mut i: usize = 0;
    while i < v.len()
        invariant
            i <= v.len(),
            out@ == v@.take(i as int),
        decreases v.len() - i,
    {
        out.push(v[i].clone());
        i = i + 1;
        assert(out@ =~= v@.take(i as int));
    }
    assert(v@.take(v.len() as int) =~= v@);
    out
}

/// Starting a project without naming workspaces starts all of them, in
/// the project's order.
pub proof fn lemma_no_selection_starts_all(ws: Seq<Workspace>)
    ensures
        chosen(ws, Seq::empty()) == ws,
        unknown_names(Seq::empty(), name_views(ws)).len() == 0,
    decreases ws.len(),
{
    if ws.len() > 0 {
        lemma_no_selection_starts_all(ws.drop_last());
        assert(ws.drop_last().push(ws.last()) =~= ws);
    }
}

proof fn lemma_creation_steps_no_group(n: nat)
    ensures
        forall|k: int| 0 <= k < creation_steps(n).len() ==> !(#[trigger] creation_steps(n)[k] is Group),
        creation_steps(n).len() == 3 * n,
    decreases n,
{
    if n > 0 {
        lemma_creation_steps_no_group((n - 1) as nat);
        let a = creation_steps((n - 1) as nat);
        let b = workspace_steps((n - 1) as nat);
        assert forall|k: int| 0 <= k < creation_steps(n).len() implies !(
        #[trigger] creation_steps(n)[k] is Group) by {
            if k < a.len() {
                assert(creation_steps(n)[k] == a[k]);
            } else {
                assert(creation_steps(n)[k] == b[k - a.len()]);
            }
        }
    }
}

/// A run groups only when asked and two or more workspaces were created,
/// and then it groups all of them, just before it finishes; it always ends
/// by finishing.
pub proof fn lemma_run_groups_all_created(
    n: nat,
    placeholders: Seq<Seq<char>>,
    created: Seq<Seq<char>>,
    group: bool,
)
    ensures
        ({
            let t = run_steps(n, placeholders, created, group);
            &&& t.len() >= 1 && t.last() == StartStep::Finish
            &&& (group && created.len() >= 2) ==> t[t.len() - 2] == StartStep::Group(created)
            &&& forall|k: int|
                0 <= k < t.len() && (#[trigger] t[k] is Group) ==> (group && created.len() >= 2
                    && t[k] == StartStep::Group(created))
        }),
{
    let t = run_steps(n, placeholders, created, group);
    let o = opening_steps();
    let cr = creation_steps(n);
    let cl = close_steps(placeholders);
    let gr = group_steps(group, created);
    lemma_creation_steps_no_group(n);
    assert(t == o + cr + cl + gr + seq![StartStep::Finish]);
    assert forall|k: int| 0 <= k < t.len() && (#[trigger] t[k] is Group) implies (group
        && created.len() >= 2 && t[k] == StartStep::Group(created)) by {
        if k < o.len() {
            assert(t[k] == o[k]);
        } else if k < o.len() + cr.len() {
            assert(t[k] == cr[k - o.len()]);
        } else if k < o.len() + cr.len() + cl.len() {
            assert(t[k] == cl[k - o.len() - cr.len()]);
        } else if k < o.len() + cr.len() + cl.len() + gr.len() {
            assert(t[k] == gr[k - o.len() - cr.len() - cl.len()]);
        } else {
            assert(t[k] == StartStep::Finish);
        }
    }
    if group && created.len() >= 2 {
        assert(t[t.len() - 2] == gr[0]);
    }
}

/// With names requested, the workspaces started are exactly those whose
/// name equals one of the requested names, in the project's order.
pub proof fn lemma_requested_workspaces_are_started(ws: Seq<Workspace>, sel: Seq<Seq<char>>)
    requires
        sel.len() > 0,
    ensures
        chosen(ws, sel) == ws.filter(|w: Workspace| sel.contains(w.name@)),
    decreases ws.len(),
{
    reveal_with_fuel(Seq::filter, 1);
    if ws.len() > 0 {
        lemma_requested_workspaces_are_started(ws.drop_last(), sel);
    }
}

/// Naming every workspace of a project starts the same workspaces as naming
/// none, and no name is unknown.
pub proof fn lemma_selecting_all_starts_all(ws: Seq<Workspace>)
    ensures
        chosen(ws, name_views(ws)) == ws,
        unknown_names(name_views(ws), name_views(ws)).len() == 0,
{
    let names = name_views(ws);
    assert forall|i: int| 0 <= i < ws.len() implies names.contains(#[trigger] ws[i].name@) by {
        assert(names[i] == ws[i].name@);
    }
    lemma_chosen_all_named(ws, names);
    lemma_unknown_none(names, names);
}

proof fn lemma_chosen_all_named(ws: Seq<Workspace>, names: Seq<Seq<char>>)
    requires
        forall|i: int| 0 <= i < ws.len() ==> names.contains(#[trigger] ws[i].name@),
    ensures
        chosen(ws, names) == ws,
    decreases ws.len(),
{
    if ws.len() > 0 {
        lemma_chosen_all_named(ws.drop_last(), names);
        assert(names.contains(ws[ws.len() - 1].name@));
        assert(ws.drop_last().push(ws.last()) =~= ws);
    }
}

proof fn lemma_unknown_none(sel: Seq<Seq<char>>, names: Seq<Seq<char>>)
    requires
        forall|i: int| 0 <= i < sel.len() ==> names.contains(#[trigger] sel[i]),
    ensures
        unknown_names(sel, names).len() == 0,
    decreases sel.len(),
{
    if sel.len() > 0 {
        lemma_unknown_none(sel.drop_last(), names);
        assert(names.contains(sel[sel.len() - 1]));
    }
}

proof fn lemma_creation_steps_len(n: nat)
    ensures
        creation_steps(n).len() == 3 * n,
    decreases n,
{
    if n > 0 {
        lemma_creation_steps_len((n - 1) as nat);
    }
}

/// The steps that create the workspaces: three for each, in order, the
/// `i`-th creation focused exactly when `i` is the first.
pub proof fn lemma_creation_steps(n: nat, i: nat)
    requires
        i < n,
    ensures
        creation_steps(n).len() == 3 * n,
        creation_steps(n)[(3 * i + 1) as int] == StartStep::Create(i, i == 0),
    decreases n,
{
    lemma_creation_steps_len(n);
    lemma_creation_steps_len((n - 1) as nat);
    if i < n - 1 {
        lemma_creation_steps((n - 1) as nat, i);
    }
}

/// A dry run shows the calls that `start` makes: the command it prints for
/// the `i`-th workspace asks for focus exactly when `start` creates that
/// workspace with focus, which is when it is the first.
pub proof fn lemma_dry_run_matches_start(
    project: Seq<char>,
    specs: Seq<NewWorkspaceSpec>,
    group: bool,
    i: nat,
)
    requires
        i < specs.len(),
    ensures
        dry_run_script(project, specs, group)[(5 + 4 * i + 2) as int] == crate::formatting::ScriptLine::Text(
            crate::formatting::command_shape_spec(
                specs[i as int].name@,
                crate::cmux::opt_text(specs[i as int].cwd),
                crate::formatting::DRY_RUN_WINDOW_HANDLE@,
                i == 0,
            ),
        ),
        dry_run_script(project, specs, group)[(5 + 4 * i + 3) as int] == crate::formatting::ScriptLine::Layout(i),
        creation_steps(specs.len())[(3 * i + 1) as int] == StartStep::Create(i, i == 0),
{
    lemma_workspace_blocks(specs, i);
    lemma_creation_steps(specs.len(), i);
    let head = crate::formatting::script_head(specs.len());
    let blocks = crate::formatting::workspace_blocks(specs);
    assert(head.len() == 5);
    let rest = crate::formatting::script_close() + if group && specs.len() > 1 {
        crate::formatting::script_group(project)
    } else {
        Seq::empty()
    };
    assert(dry_run_script(project, specs, group) =~= head + blocks + rest);
}

proof fn lemma_workspace_blocks_len(specs: Seq<NewWorkspaceSpec>)
    ensures
        crate::formatting::workspace_blocks(specs).len() == 4 * specs.len(),
    decreases specs.len(),
{
    if specs.len() > 0 {
        lemma_workspace_blocks_len(specs.drop_last());
    }
}

proof fn lemma_workspace_blocks(specs: Seq<NewWorkspaceSpec>, i: nat)
    requires
        i < specs.len(),
    ensures
        crate::formatting::workspace_blocks(specs).len() == 4 * specs.len(),
        crate::formatting::workspace_blocks(specs)[(4 * i + 2) as int]
            == crate::formatting::workspace_block(specs[i as int], i)[2],
        crate::formatting::workspace_blocks(specs)[(4 * i + 3) as int]
            == crate::formatting::workspace_block(specs[i as int], i)[3],
    decreases specs.len(),
{
    let init = specs.drop_last();
    lemma_workspace_blocks_len(specs);
    lemma_workspace_blocks_len(init);
    if i < specs.len() - 1 {
        lemma_workspace_blocks(init, i);
        assert(init[i as int] == specs[i as int]);
    }
}

} // verus!
