//! The text that the command line prints: the dry-run script, the shape of
//! a `cmux new-workspace` call, and the validation message.
use vstd::prelude::*;
use crate::cmux::{
    bool_string, bool_text, join_spec, new_workspace_args_spec, opt_text, NewWorkspaceSpec,
};
use crate::text::to_string;

verus! {

/// The window handle printed by a dry run in place of a real window.
pub const DRY_RUN_WINDOW_HANDLE: &'static str = "<new-window>";

/// A line of the dry-run script: text, or the pretty-printed layout JSON of
/// the workspace spec at this index.
#[derive(Debug)]
pub enum DryRunLine {
    Text(String),
    Layout(usize),
}

/// The mathematical form of a script line.
pub enum ScriptLine {
    Text(Seq<char>),
    Layout(nat),
}

pub open spec fn line_view(l: DryRunLine) -> ScriptLine {
    match l {
        DryRunLine::Text(s) => ScriptLine::Text(s@),
        DryRunLine::Layout(i) => ScriptLine::Layout(i as nat),
    }
}

pub open spec fn lines_view(v: Seq<DryRunLine>) -> Seq<ScriptLine> {
    v.map_values(|l: DryRunLine| line_view(l))
}

pub open spec fn digit_char(d: nat) -> char {
    if d == 0 {
        '0'
    } else if d == 1 {
        '1'
    } else if d == 2 {
        '2'
    } else if d == 3 {
        '3'
    } else if d == 4 {
        '4'
    } else if d == 5 {
        '5'
    } else if d == 6 {
        '6'
    } else if d == 7 {
        '7'
    } else if d == 8 {
        '8'
    } else {
        '9'
    }
}

/// The decimal digits of `n`, most significant first, without leading
/// zeros.
pub open spec fn decimal(n: nat) -> Seq<char>
    decreases n,
{
    if n < 10 {
        seq![digit_char(n)]
    } else {
        decimal(n / 10).push(digit_char(n % 10))
    }
}

fn digit_str(d: usize) -> (r: &'static str)
    requires
        d < 10,
    ensures
        r@ == seq![digit_char(d as nat)],
{
    proof {
        reveal_strlit("0");
        reveal_strlit("1");
        reveal_strlit("2");
        reveal_strlit("3");
        reveal_strlit("4");
        reveal_strlit("5");
        reveal_strlit("6");
        reveal_strlit("7");
        reveal_strlit("8");
        reveal_strlit("9");
    }
    if d == 0 {
        "0"
    } else if d == 1 {
        "1"
    } else if d == 2 {
        "2"
    } else if d == 3 {
        "3"
    } else if d == 4 {
        "4"
    } else if d == 5 {
        "5"
    } else if d == 6 {
        "6"
    } else if d == 7 {
        "7"
    } else if d == 8 {
        "8"
    } else {
        "9"
    }
}

/// `n` in decimal.
pub fn decimal_string(n: usize) -> (r: String)
    ensures
        r@ == decimal(n as nat),
    decreases n,
{
    if n < 10 {
        to_string(digit_str(n))
    } else {
        let mut s = decimal_string(n / 10);
        s.append(digit_str(n % 10));
        s
    }
}

fn decimal_wide(n: u128) -> (r: String)
    ensures
        r@ == decimal(n as nat),
    decreases n,
{
    if n < 10 {
        to_string(digit_str(n as usize))
    } else {
        let mut s = decimal_wide(n / 10);
        s.append(digit_str((n % 10) as usize));
        s
    }
}

/// `n + 1` in decimal: the position, counted from 1, of the item at index
/// `n`.
pub fn ordinal_string(n: usize) -> (r: String)
    ensures
        r@ == decimal(n as nat + 1),
{
    decimal_wide(n as u128 + 1)
}

/// How a dry run shows the `cmux new-workspace` call for a workspace.
pub open spec fn command_shape_spec(
    name: Seq<char>,
    cwd: Option<Seq<char>>,
    window: Seq<char>,
    focus: bool,
) -> Seq<char> {
    let cwd_part = match cwd {
        Some(c) => " --cwd "@ + c,
        None => Seq::<char>::empty(),
    };
    "cmux new-workspace --name "@ + name + cwd_part + " --layout <json> --window "@ + window
        + " --focus "@ + bool_text(focus)
}

/// The `cmux new-workspace` call for `spec`, its layout shown as `<json>`.
pub fn command_shape(spec: &NewWorkspaceSpec, window: &str, focus: bool) -> (r: String)
    ensures
        r@ == command_shape_spec(spec.name@, opt_text(spec.cwd), window@, focus),
{
    let mut out = to_string("cmux new-workspace --name ");
    out.append(spec.name.as_str());
    let ghost after_name = out@;
    if let Some(cwd) = &spec.cwd {
        out.append(" --cwd ");
        out.append(cwd.as_str());
    }
    let ghost after_cwd = out@;
    out.append(" --layout <json> --window ");
    out.append(window);
    out.append(" --focus ");
    let f = bool_string(focus);
    out.append(f.as_str());
    proof {
        let cwd_part = match opt_text(spec.cwd) {
            Some(c) => " --cwd "@ + c,
            None => Seq::<char>::empty(),
        };
        assert(after_cwd =~= after_name + cwd_part);
    }
    assert(out@ =~= command_shape_spec(spec.name@, opt_text(spec.cwd), window@, focus));
    out
}

proof fn lemma_join_push(s: Seq<Seq<char>>, x: Seq<char>, sep: Seq<char>)
    requires
        s.len() >= 1,
    ensures
        join_spec(s.push(x), sep) == join_spec(s, sep) + sep + x,
{
    assert(s.push(x).drop_last() =~= s);
}

proof fn lemma_prefixed_push(p: Seq<char>, s: Seq<Seq<char>>, x: Seq<char>, sep: Seq<char>)
    requires
        s.len() >= 1,
    ensures
        p + join_spec(s.push(x), sep) == p + join_spec(s, sep) + sep + x,
{
    lemma_join_push(s, x, sep);
    assert(p + (join_spec(s, sep) + sep + x) =~= p + join_spec(s, sep) + sep + x);
}

proof fn lemma_shape_literals()
    ensures
        "cmux new-workspace --name "@ == "cmux "@ + "new-workspace"@ + " "@ + "--name"@ + " "@,
        " --layout <json> --window "@ == " "@ + "--layout"@ + " "@ + "<json>"@ + " "@ + "--window"@
            + " "@,
        " --focus "@ == " "@ + "--focus"@ + " "@,
        " --cwd "@ == " "@ + "--cwd"@ + " "@,
{
    assert("cmux new-workspace --name "@ =~= "cmux "@ + "new-workspace"@ + " "@ + "--name"@
        + " "@) by {
        reveal_strlit("cmux new-workspace --name ");
        reveal_strlit("cmux ");
        reveal_strlit("new-workspace");
        reveal_strlit(" ");
        reveal_strlit("--name");
    }
    assert(" --layout <json> --window "@ =~= " "@ + "--layout"@ + " "@ + "<json>"@ + " "@
        + "--window"@ + " "@) by {
        reveal_strlit(" --layout <json> --window ");
        reveal_strlit(" ");
        reveal_strlit("--layout");
        reveal_strlit("<json>");
        reveal_strlit("--window");
    }
    assert(" --focus "@ =~= " "@ + "--focus"@ + " "@) by {
        reveal_strlit(" --focus ");
        reveal_strlit(" ");
        reveal_strlit("--focus");
    }
    assert(" --cwd "@ =~= " "@ + "--cwd"@ + " "@) by {
        reveal_strlit(" --cwd ");
        reveal_strlit(" ");
        reveal_strlit("--cwd");
    }
}

/// Appending a sum is appending its parts in turn.
proof fn lemma_regroup(p: Seq<char>, a: Seq<char>, b: Seq<char>, c: Seq<char>)
    ensures
        p + (a + b + c) == p + a + b + c,
{
    assert(p + (a + b + c) =~= p + a + b + c);
}

/// Appending a sum of seven parts is appending them in turn.
proof fn lemma_regroup7(
    p: Seq<char>,
    a: Seq<char>,
    b: Seq<char>,
    c: Seq<char>,
    d: Seq<char>,
    e: Seq<char>,
    f: Seq<char>,
    g: Seq<char>,
)
    ensures
        p + (a + b + c + d + e + f + g) == p + a + b + c + d + e + f + g,
{
    assert(p + (a + b + c + d + e + f + g) =~= p + a + b + c + d + e + f + g);
}

/// The command that a dry run shows for a workspace is the `cmux` call that
/// `start` makes for it: `cmux` and the words of `new_workspace_args`,
/// joined by spaces, with `<json>` standing for the layout.
pub proof fn lemma_command_shape_is_new_workspace_call(
    name: Seq<char>,
    cwd: Option<Seq<char>>,
    window: Seq<char>,
    focus: bool,
)
    ensures
        command_shape_spec(name, cwd, window, focus) == "cmux "@ + join_spec(
            new_workspace_args_spec(name, cwd, "<json>"@, window, focus),
            " "@,
        ),
{
    lemma_shape_literals();
    let sp = " "@;
    let c0 = "cmux "@;
    let f = bool_text(focus);
    let h0 = seq!["new-workspace"@];
    let h1 = h0.push("--name"@);
    let h2 = h1.push(name);
    lemma_prefixed_push(c0, h0, "--name"@, sp);
    lemma_prefixed_push(c0, h1, name, sp);
    let s2 = c0 + join_spec(h2, sp);
    assert(s2 == "cmux new-workspace --name "@ + name);
    let cwd_part = match cwd {
        Some(c) => " --cwd "@ + c,
        None => Seq::<char>::empty(),
    };
    let words = match cwd {
        Some(c) => h2.push("--cwd"@).push(c),
        None => h2,
    };
    match cwd {
        Some(c) => {
            lemma_prefixed_push(c0, h2, "--cwd"@, sp);
            lemma_prefixed_push(c0, h2.push("--cwd"@), c, sp);
            assert(s2 + (sp + "--cwd"@ + sp + c) =~= s2 + sp + "--cwd"@ + sp + c);
        },
        None => {
            assert(s2 + cwd_part =~= s2);
        },
    }
    let s5 = c0 + join_spec(words, sp);
    assert(s5 == s2 + cwd_part);
    let w1 = words.push("--layout"@);
    let w2 = w1.push("<json>"@);
    let w3 = w2.push("--window"@);
    let w4 = w3.push(window);
    let w5 = w4.push("--focus"@);
    let w6 = w5.push(f);
    lemma_prefixed_push(c0, words, "--layout"@, sp);
    lemma_prefixed_push(c0, w1, "<json>"@, sp);
    lemma_prefixed_push(c0, w2, "--window"@, sp);
    lemma_prefixed_push(c0, w3, window, sp);
    lemma_prefixed_push(c0, w4, "--focus"@, sp);
    lemma_prefixed_push(c0, w5, f, sp);
    lemma_regroup7(s5, sp, "--layout"@, sp, "<json>"@, sp, "--window"@, sp);
    let s9 = c0 + join_spec(w4, sp);
    lemma_regroup(s9, sp, "--focus"@, sp);
    assert(new_workspace_args_spec(name, cwd, "<json>"@, window, focus) =~= w6);
}

pub open spec fn empty_line() -> ScriptLine {
    ScriptLine::Text(Seq::empty())
}

/// The opening lines: how many workspaces, then the window it creates.
pub open spec fn script_head(count: nat) -> Seq<ScriptLine> {
    seq![
        ScriptLine::Text("cmuxinator dry-run: "@ + decimal(count) + " workspace(s)"@),
        empty_line(),
        ScriptLine::Text("# create project window"@),
        ScriptLine::Text("cmux rpc window.create '{}'"@),
        ScriptLine::Text("cmux list-workspaces --window "@ + DRY_RUN_WINDOW_HANDLE@ + " --json"@),
    ]
}

/// The lines for the workspace at `index`: a heading, its call (focused
/// only for the first), and its layout.
pub open spec fn workspace_block(spec: NewWorkspaceSpec, index: nat) -> Seq<ScriptLine> {
    seq![
        empty_line(),
        ScriptLine::Text("# workspace: "@ + spec.name@),
        ScriptLine::Text(
            command_shape_spec(spec.name@, opt_text(spec.cwd), DRY_RUN_WINDOW_HANDLE@, index == 0),
        ),
        ScriptLine::Layout(index),
    ]
}

pub open spec fn workspace_blocks(specs: Seq<NewWorkspaceSpec>) -> Seq<ScriptLine>
    decreases specs.len(),
{
    if specs.len() == 0 {
        Seq::empty()
    } else {
        workspace_blocks(specs.drop_last()) + workspace_block(
            specs.last(),
            (specs.len() - 1) as nat,
        )
    }
}

/// The lines that close the placeholder workspace.
pub open spec fn script_close() -> Seq<ScriptLine> {
    seq![
        empty_line(),
        ScriptLine::Text("# close placeholder workspace(s) created by cmux window.create"@),
        ScriptLine::Text(
            "cmux close-workspace --workspace <placeholder-workspace> --window "@
                + DRY_RUN_WINDOW_HANDLE@,
        ),
    ]
}

/// The lines that group the workspaces.
pub open spec fn script_group(project: Seq<char>) -> Seq<ScriptLine> {
    seq![
        empty_line(),
        ScriptLine::Text("# group project workspaces under a collapsible sidebar header"@),
        ScriptLine::Text(
            "cmux workspace-group create --name "@ + project
                + " --from <created-workspace-refs> --window "@ + DRY_RUN_WINDOW_HANDLE@,
        ),
    ]
}

/// The whole dry-run script; the group lines appear only when grouping is
/// asked for and there are two or more workspaces.
pub open spec fn dry_run_script(
    project: Seq<char>,
    specs: Seq<NewWorkspaceSpec>,
    create_group: bool,
) -> Seq<ScriptLine> {
    script_head(specs.len()) + workspace_blocks(specs) + script_close() + if create_group
        && specs.len() > 1 {
        script_group(project)
    } else {
        Seq::empty()
    }
}

/// Without grouping the script ends with the closing of the placeholder
/// workspaces: no group line. With grouping, the group lines are added
/// after them exactly when there are two or more workspaces.
pub proof fn lemma_dry_run_groups_only_when_asked(
    project: Seq<char>,
    specs: Seq<NewWorkspaceSpec>,
)
    ensures
        dry_run_script(project, specs, false) == script_head(specs.len()) + workspace_blocks(specs)
            + script_close(),
        specs.len() >= 2 ==> dry_run_script(project, specs, true) == dry_run_script(
            project,
            specs,
            false,
        ) + script_group(project),
        specs.len() < 2 ==> dry_run_script(project, specs, true) == dry_run_script(
            project,
            specs,
            false,
        ),
{
    let base = script_head(specs.len()) + workspace_blocks(specs) + script_close();
    assert(dry_run_script(project, specs, false) =~= base);
    if specs.len() < 2 {
        assert(dry_run_script(project, specs, true) =~= base);
    }
}

fn push_line(lines: &mut Vec<DryRunLine>, text: String)
    ensures
        lines_view(final(lines)@) == lines_view(old(lines)@).push(ScriptLine::Text(text@)),
{
    let ghost before = lines@;
    lines.push(DryRunLine::Text(text));
    assert(lines_view(lines@) =~= lines_view(before).push(ScriptLine::Text(text@)));
}

fn push_empty(lines: &mut Vec<DryRunLine>)
    ensures
        lines_view(final(lines)@) == lines_view(old(lines)@).push(empty_line()),
{
    proof {
        reveal_strlit("");
    }
    let e = to_string("");
    assert(e@ =~= Seq::<char>::empty());
    push_line(lines, e);
}

pub fn concat(a: &str, b: &str) -> (r: String)
    ensures
        r@ == a@ + b@,
{
    let mut s = to_string(a);
    s.append(b);
    s
}

/// The lines that a dry run prints for a project.
pub fn dry_run_lines(project_name: &str, specs: &Vec<NewWorkspaceSpec>, create_group: bool) -> (r:
    Vec<DryRunLine>)
    ensures
        lines_view(r@) == dry_run_script(project_name@, specs@, create_group),
{
    let mut lines: Vec<DryRunLine> = Vec::new();
    let count = decimal_string(specs.len());
    let mut head = concat("cmuxinator dry-run: ", count.as_str());
    head.append(" workspace(s)");
    push_line(&mut lines, head);
    push_empty(&mut lines);
    push_line(&mut lines, to_string("# create project window"));
    push_line(&mut lines, to_string("cmux rpc window.create '{}'"));
    let mut list = concat("cmux list-workspaces --window ", DRY_RUN_WINDOW_HANDLE);
    list.append(" --json");
    push_line(&mut lines, list);
    assert(lines_view(lines@) =~= script_head(specs@.len()));
    let mut i: usize = 0;
    while i < specs.len()
        invariant
            i <= specs.len(),
            lines_view(lines@) == script_head(specs@.len()) + workspace_blocks(
                specs@.take(i as int),
            ),
        decreases specs.len() - i,
    {
        let ghost before = lines_view(lines@);
        assert(specs@.take(i + 1).drop_last() =~= specs@.take(i as int));
        push_empty(&mut lines);
        push_line(&mut lines, concat("# workspace: ", specs[i].name.as_str()));
        push_line(&mut lines, command_shape(&specs[i], DRY_RUN_WINDOW_HANDLE, i == 0));
        let ghost mid = lines@;
        lines.push(DryRunLine::Layout(i));
        assert(lines_view(lines@) =~= lines_view(mid).push(ScriptLine::Layout(i as nat)));
        assert(lines_view(lines@) =~= before + workspace_block(specs@[i as int], i as nat));
        i = i + 1;
    }
    assert(specs@.take(specs.len() as int) =~= specs@);
    let ghost after_blocks = lines_view(lines@);
    push_empty(&mut lines);
    push_line(&mut lines, to_string("# close placeholder workspace(s) created by cmux window.create"));
    push_line(
        &mut lines,
        concat(
            "cmux close-workspace --workspace <placeholder-workspace> --window ",
            DRY_RUN_WINDOW_HANDLE,
        ),
    );
    assert(lines_view(lines@) =~= after_blocks + script_close());
    let ghost after_close = lines_view(lines@);
    if create_group && specs.len() > 1 {
        push_empty(&mut lines);
        push_line(
            &mut lines,
            to_string("# group project workspaces under a collapsible sidebar header"),
        );
        let mut group = concat("cmux workspace-group create --name ", project_name);
        group.append(" --from <created-workspace-refs> --window ");
        group.append(DRY_RUN_WINDOW_HANDLE);
        push_line(&mut lines, group);
        assert(lines_view(lines@) =~= after_close + script_group(project_name@));
    } else {
        assert(lines_view(lines@) =~= after_close + Seq::<ScriptLine>::empty());
    }
    lines
}

/// What `validate` prints for a valid project read from `path`.
pub open spec fn validation_message(name: Seq<char>, path: Seq<char>) -> Seq<char> {
    "Project "@ + name + " is valid ("@ + path + ")"@
}

/// The message that reports a valid project.
pub fn validation_success(project_name: &str, path: &str) -> (r: String)
    ensures
        r@ == validation_message(project_name@, path@),
{
    let mut out = concat("Project ", project_name);
    out.append(" is valid (");
    out.append(path);
    out.append(")");
    out
}

} // verus!
