//! What the cmux command line is asked to do: the workspaces to create and
//! the arguments of its commands.
use vstd::prelude::*;
use crate::layout::LayoutNode;
use crate::text::to_string;

verus! {

/// A workspace to create: its name, its expanded working directory, and
/// its layout.
#[derive(Debug)]
pub struct NewWorkspaceSpec {
    pub name: String,
    pub cwd: Option<String>,
    pub layout: LayoutNode,
}

pub open spec fn text_views(v: Seq<String>) -> Seq<Seq<char>> {
    v.map_values(|s: String| s@)
}

pub open spec fn bool_text(b: bool) -> Seq<char> {
    if b {
        seq!['t', 'r', 'u', 'e']
    } else {
        seq!['f', 'a', 'l', 's', 'e']
    }
}

/// `true` or `false`.
pub fn bool_string(b: bool) -> (r: String)
    ensures
        r@ == bool_text(b),
{
    proof {
        reveal_strlit("true");
        reveal_strlit("false");
    }
    if b {
        to_string("true")
    } else {
        to_string("false")
    }
}

/// The arguments of `cmux new-workspace` for a workspace, with its layout
/// already rendered as JSON.
pub open spec fn new_workspace_args_spec(
    name: Seq<char>,
    cwd: Option<Seq<char>>,
    layout_json: Seq<char>,
    window: Seq<char>,
    focus: bool,
) -> Seq<Seq<char>> {
    let head = seq!["new-workspace"@, "--name"@, name];
    let cwd_part = match cwd {
        Some(c) => seq!["--cwd"@, c],
        None => Seq::<Seq<char>>::empty(),
    };
    head + cwd_part + seq![
        "--layout"@,
        layout_json,
        "--window"@,
        window,
        "--focus"@,
        bool_text(focus),
    ]
}

pub open spec fn opt_text(o: Option<String>) -> Option<Seq<char>> {
    match o {
        Some(s) => Some(s@),
        None => None,
    }
}

fn push_text(v: &mut Vec<String>, s: &str)
    ensures
        text_views(final(v)@) == text_views(old(v)@).push(s@),
{
    let ghost before = v@;
    v.push(to_string(s));
    assert(text_views(v@) =~= text_views(before).push(s@));
}

/// The arguments with which `cmux new-workspace` creates `spec` in `window`.
pub fn new_workspace_args(spec: &NewWorkspaceSpec, layout_json: &str, window: &str, focus: bool) -> (r:
    Vec<String>)
    ensures
        text_views(r@) == new_workspace_args_spec(
            spec.name@,
            opt_text(spec.cwd),
            layout_json@,
            window@,
            focus,
        ),
{
    let mut args: Vec<String> = Vec::new();
    push_text(&mut args, "new-workspace");
    push_text(&mut args, "--name");
    push_text(&mut args, spec.name.as_str());
    if let Some(cwd) = &spec.cwd {
        push_text(&mut args, "--cwd");
        push_text(&mut args, cwd.as_str());
    }
    push_text(&mut args, "--layout");
    push_text(&mut args, layout_json);
    push_text(&mut args, "--window");
    push_text(&mut args, window);
    push_text(&mut args, "--focus");
    let f = bool_string(focus);
    push_text(&mut args, f.as_str());
    assert(text_views(args@) =~= new_workspace_args_spec(
        spec.name@,
        opt_text(spec.cwd),
        layout_json@,
        window@,
        focus,
    ));
    args
}

/// The arguments with which `cmux rpc window.create` creates a window.
pub fn window_create_args() -> (r: Vec<String>)
    ensures
        text_views(r@) == seq!["rpc"@, "window.create"@, "{}"@],
{
    let mut args: Vec<String> = Vec::new();
    push_text(&mut args, "rpc");
    push_text(&mut args, "window.create");
    push_text(&mut args, "{}");
    assert(text_views(args@) =~= seq!["rpc"@, "window.create"@, "{}"@]);
    args
}

/// The arguments with which `cmux list-workspaces` lists the workspaces of
/// `window` as JSON.
pub fn list_workspaces_args(window: &str) -> (r: Vec<String>)
    ensures
        text_views(r@) == seq!["list-workspaces"@, "--window"@, window@, "--json"@],
{
    let mut args: Vec<String> = Vec::new();
    push_text(&mut args, "list-workspaces");
    push_text(&mut args, "--window");
    push_text(&mut args, window);
    push_text(&mut args, "--json");
    assert(text_views(args@) =~= seq!["list-workspaces"@, "--window"@, window@, "--json"@]);
    args
}

/// The arguments with which `cmux close-workspace` closes a workspace of
/// `window`.
pub fn close_workspace_args(workspace_ref: &str, window: &str) -> (r: Vec<String>)
    ensures
        text_views(r@) == seq![
            "close-workspace"@,
            "--workspace"@,
            workspace_ref@,
            "--window"@,
            window@,
        ],
{
    let mut args: Vec<String> = Vec::new();
    push_text(&mut args, "close-workspace");
    push_text(&mut args, "--workspace");
    push_text(&mut args, workspace_ref);
    push_text(&mut args, "--window");
    push_text(&mut args, window);
    assert(text_views(args@) =~= seq![
        "close-workspace"@,
        "--workspace"@,
        workspace_ref@,
        "--window"@,
        window@,
    ]);
    args
}

/// The items joined, `sep` between each two.
pub open spec fn join_spec(items: Seq<Seq<char>>, sep: Seq<char>) -> Seq<char>
    decreases items.len(),
{
    if items.len() == 0 {
        Seq::empty()
    } else if items.len() == 1 {
        items[0]
    } else {
        join_spec(items.drop_last(), sep) + sep + items.last()
    }
}

/// The items joined, `sep` between each two.
pub fn join_texts(items: &Vec<String>, sep: &str) -> (r: String)
    ensures
        r@ == join_spec(text_views(items@), sep@),
{
    let mut out = to_string("");
    proof {
        reveal_strlit("");
    }
    let mut i: usize = 0;
    while i < items.len()
        invariant
            i <= items.len(),
            out@ == join_spec(text_views(items@).take(i as int), sep@),
        decreases items.len() - i,
    {
        assert(text_views(items@).take(i + 1).drop_last() =~= text_views(items@).take(i as int));
        if i > 0 {
            out.append(sep);
        }
        out.append(items[i].as_str());
        i = i + 1;
        assert(text_views(items@).take(i as int).last() == items@[i - 1]@);
        proof {
            if i == 1 {
                assert(out@ =~= text_views(items@).take(1)[0]);
            }
        }
    }
    assert(text_views(items@).take(items.len() as int) =~= text_views(items@));
    out
}

/// The arguments of `cmux workspace-group create` for two or more
/// workspaces; with fewer there is no group to create.
pub open spec fn workspace_group_args_spec(
    name: Seq<char>,
    refs: Seq<Seq<char>>,
    window: Seq<char>,
) -> Option<Seq<Seq<char>>> {
    if refs.len() < 2 {
        None
    } else {
        Some(
            seq![
                "workspace-group"@,
                "create"@,
                "--name"@,
                name,
                "--from"@,
                join_spec(refs, ","@),
                "--window"@,
                window,
            ],
        )
    }
}

/// The arguments with which `cmux workspace-group create` groups
/// `workspace_refs` under `name`, if there are two or more of them.
pub fn workspace_group_args(name: &str, workspace_refs: &Vec<String>, window: &str) -> (r: Option<
    Vec<String>,
>)
    ensures
        match r {
            Some(v) => workspace_group_args_spec(name@, text_views(workspace_refs@), window@)
                == Some(text_views(v@)),
            None => workspace_group_args_spec(name@, text_views(workspace_refs@), window@)
                is None,
        },
{
    if workspace_refs.len() < 2 {
        return None;
    }
    let mut args: Vec<String> = Vec::new();
    push_text(&mut args, "workspace-group");
    push_text(&mut args, "create");
    push_text(&mut args, "--name");
    push_text(&mut args, name);
    push_text(&mut args, "--from");
    let joined = join_texts(workspace_refs, ",");
    push_text(&mut args, joined.as_str());
    push_text(&mut args, "--window");
    push_text(&mut args, window);
    assert(text_views(args@) =~= workspace_group_args_spec(
        name@,
        text_views(workspace_refs@),
        window@,
    )->0);
    Some(args)
}

/// JSON as `serde_json` parses it.
#[verifier::external_type_specification]
#[verifier::external_body]
pub struct ExJsonValue(serde_json::Value);

/// A `serde_json` parse error.
#[verifier::external_type_specification]
#[verifier::external_body]
pub struct ExJsonError(serde_json::Error);

/// Why the output of a cmux command cannot be read.
#[derive(Debug)]
pub enum CmuxError {
    /// The output is not JSON.
    Json(serde_json::Error),
    /// The `window.create` reply has no string `window_id`.
    MissingWindowId,
    /// The `list-workspaces` reply has no array `workspaces`.
    MissingWorkspaces,
}

/// A JSON value as the library reads it: numbers kept as the text that
/// `serde_json` writes for them, object members in order.
#[derive(Debug)]
pub enum Json {
    Null,
    Bool(bool),
    Number(String),
    Str(String),
    Array(Vec<Json>),
    Object(Vec<(String, Json)>),
}

/// The mathematical form of a JSON value.
pub enum JsonView {
    Null,
    Bool(bool),
    Number(Seq<char>),
    Str(Seq<char>),
    Array(Seq<JsonView>),
    Object(Seq<(Seq<char>, JsonView)>),
}

pub open spec fn json_view(j: Json) -> JsonView
    decreases j,
{
    match j {
        Json::Null => JsonView::Null,
        Json::Bool(b) => JsonView::Bool(b),
        Json::Number(n) => JsonView::Number(n@),
        Json::Str(s) => JsonView::Str(s@),
        Json::Array(items) => JsonView::Array(
            Seq::new(
                items.len() as nat,
                |i: int|
                    if 0 <= i < items.len() {
                        json_view(items[i])
                    } else {
                        JsonView::Null
                    },
            ),
        ),
        Json::Object(members) => JsonView::Object(
            Seq::new(
                members.len() as nat,
                |i: int|
                    if 0 <= i < members.len() {
                        (members[i].0@, json_view(members[i].1))
                    } else {
                        (Seq::empty(), JsonView::Null)
                    },
            ),
        ),
    }
}

/// The value that `serde_json` reads from the bytes, if it reads one: the
/// bytes are UTF-8 JSON text, nested no deeper than its recursion limit,
/// with nothing but whitespace after it. An object's members come in
/// `serde_json`'s map order, one per name.
pub uninterp spec fn json_parse(bytes: Seq<u8>) -> Option<JsonView>;

/// Parses JSON text.
///
/// Trusted: calls `serde_json::from_slice` into a `serde_json::Value` and
/// converts that value, variant by variant, into `Json`. The contract claims
/// that it succeeds exactly where `json_parse` gives a value, and that the
/// result is that value: a function of the bytes alone.
#[verifier::external_body]
fn parse_json(bytes: &[u8]) -> (r: Result<Json, serde_json::Error>)
    ensures
        r is Ok <==> json_parse(bytes@) is Some,
        r matches Ok(v) ==> json_view(v) == json_parse(bytes@)->0,
{
    match serde_json::from_slice::<serde_json::Value>(bytes) {
        Ok(value) => Ok(json_from_value(&value)),
        Err(e) => Err(e),
    }
}

/// The conversion half of `parse_json`: a `serde_json::Value` as a `Json`,
/// one variant for each of its variants, a number as its text. It states
/// nothing by itself; `parse_json`'s contract covers what it gives.
#[verifier::external_body]
fn json_from_value(value: &serde_json::Value) -> Json {
    match value {
        serde_json::Value::Null => Json::Null,
        serde_json::Value::Bool(b) => Json::Bool(*b),
        serde_json::Value::Number(n) => Json::Number(n.to_string()),
        serde_json::Value::String(s) => Json::Str(s.clone()),
        serde_json::Value::Array(items) => Json::Array(items.iter().map(json_from_value).collect()),
        serde_json::Value::Object(map) => Json::Object(
            map.iter().map(|(k, v)| (k.clone(), json_from_value(v))).collect(),
        ),
    }
}

/// The first member named `key`.
pub open spec fn first_member(members: Seq<(Seq<char>, JsonView)>, key: Seq<char>) -> Option<
    JsonView,
>
    decreases members.len(),
{
    if members.len() == 0 {
        None
    } else if members[0].0 == key {
        Some(members[0].1)
    } else {
        first_member(members.drop_first(), key)
    }
}

/// The member `key` of an object; nothing for any other value.
pub open spec fn member_of(v: JsonView, key: Seq<char>) -> Option<JsonView> {
    match v {
        JsonView::Object(members) => first_member(members, key),
        _ => None,
    }
}

/// The text of the member `key`, where it is a string.
pub open spec fn text_member(v: JsonView, key: Seq<char>) -> Option<Seq<char>> {
    match member_of(v, key) {
        Some(JsonView::Str(s)) => Some(s),
        _ => None,
    }
}

/// The member `key` of a JSON object.
pub fn json_member<'a>(value: &'a Json, key: &str) -> (r: Option<&'a Json>)
    ensures
        match r {
            Some(m) => member_of(json_view(*value), key@) == Some(json_view(*m)),
            None => member_of(json_view(*value), key@) is None,
        },
{
    match value {
        Json::Object(members) => {
            let ghost mv = match json_view(*value) {
                JsonView::Object(m) => m,
                _ => Seq::empty(),
            };
            assert(mv.len() == members.len());
            assert(mv.skip(0) =~= mv);
            let mut i: usize = 0;
            while i < members.len()
                invariant
                    i <= members.len(),
                    mv.len() == members.len(),
                    forall|j: int|
                        0 <= j < members.len() ==> #[trigger] mv[j] == (
                            members@[j].0@,
                            json_view(members@[j].1),
                        ),
                    member_of(json_view(*value), key@) == first_member(mv.skip(i as int), key@),
                decreases members.len() - i,
            {
                assert(mv.skip(i as int)[0] == mv[i as int]);
                assert(mv.skip(i as int).drop_first() =~= mv.skip(i + 1));
                if crate::text::str_equal(members[i].0.as_str(), key) {
                    return Some(&members[i].1);
                }
                i = i + 1;
            }
            None
        },
        _ => None,
    }
}

/// The text of a JSON string.
pub fn json_str(value: &Json) -> (r: Option<&str>)
    ensures
        match r {
            Some(s) => json_view(*value) == JsonView::Str(s@),
            None => !(json_view(*value) is Str),
        },
{
    match value {
        Json::Str(s) => Some(s.as_str()),
        _ => None,
    }
}

/// The window that `cmux rpc window.create` reports: the value of its
/// `window_id` once that member is found as a string.
pub fn window_id_from(window_id: Option<&str>) -> (r: Result<String, CmuxError>)
    ensures
        match window_id {
            Some(id) => r matches Ok(s) && s@ == id@,
            None => r matches Err(CmuxError::MissingWindowId),
        },
{
    match window_id {
        Some(id) => Ok(to_string(id)),
        None => Err(CmuxError::MissingWindowId),
    }
}

pub open spec fn window_id_key() -> Seq<char> {
    seq!['w', 'i', 'n', 'd', 'o', 'w', '_', 'i', 'd']
}

pub open spec fn workspaces_key() -> Seq<char> {
    seq!['w', 'o', 'r', 'k', 's', 'p', 'a', 'c', 'e', 's']
}

pub open spec fn ref_key() -> Seq<char> {
    seq!['r', 'e', 'f']
}

/// The text of a member `key` that is a string, found as `json_member` and
/// `json_str` find it.
fn text_member_of<'a>(value: &'a Json, key: &str) -> (r: Option<&'a str>)
    ensures
        opt_str_text(r) == text_member(json_view(*value), key@),
{
    match json_member(value, key) {
        Some(m) => json_str(m),
        None => None,
    }
}

pub open spec fn opt_str_text(o: Option<&str>) -> Option<Seq<char>> {
    match o {
        Some(s) => Some(s@),
        None => None,
    }
}

/// Reads the window id from the JSON that `cmux rpc window.create` prints:
/// the text of its string member `window_id`.
pub fn parse_window_create_id(output: &[u8]) -> (r: Result<String, CmuxError>)
    ensures
        match json_parse(output@) {
            None => r matches Err(CmuxError::Json(_)),
            Some(v) => match text_member(v, window_id_key()) {
                Some(id) => r matches Ok(s) && s@ == id,
                None => r matches Err(CmuxError::MissingWindowId),
            },
        },
{
    let value = match parse_json(output) {
        Ok(v) => v,
        Err(e) => return Err(CmuxError::Json(e)),
    };
    proof {
        reveal_strlit("window_id");
        assert("window_id"@ =~= window_id_key());
    }
    window_id_from(text_member_of(&value, "window_id"))
}

pub open spec fn present_refs(refs: Seq<Option<String>>) -> Seq<Seq<char>>
    decreases refs.len(),
{
    if refs.len() == 0 {
        Seq::empty()
    } else {
        let r = present_refs(refs.drop_last());
        match refs.last() {
            Some(s) => r.push(s@),
            None => r,
        }
    }
}

/// The references of the workspaces that `cmux list-workspaces` reports:
/// those of the entries that have a string `ref`, in order.
pub fn workspace_refs_from(refs: &Vec<Option<String>>) -> (r: Vec<String>)
    ensures
        text_views(r@) == present_refs(refs@),
{
    let mut out: Vec<String> = Vec::new();
    let mut i: usize = 0;
    while i < refs.len()
        invariant
            i <= refs.len(),
            text_views(out@) == present_refs(refs@.take(i as int)),
        decreases refs.len() - i,
    {
        assert(refs@.take(i + 1).drop_last() =~= refs@.take(i as int));
        if let Some(s) = &refs[i] {
            let ghost before = out@;
            out.push(s.clone());
            assert(text_views(out@) =~= text_views(before).push(s@));
        }
        i = i + 1;
    }
    assert(refs@.take(refs.len() as int) =~= refs@);
    out
}

/// The string `ref`s of the items, in order; items without one are passed
/// over.
pub open spec fn item_refs(items: Seq<JsonView>) -> Seq<Seq<char>>
    decreases items.len(),
{
    if items.len() == 0 {
        Seq::empty()
    } else {
        let r = item_refs(items.drop_last());
        match text_member(items.last(), ref_key()) {
            Some(s) => r.push(s),
            None => r,
        }
    }
}

/// The workspace references of a `list-workspaces` reply: the string
/// `ref`s of the items of its array member `workspaces`.
pub open spec fn listed_refs(v: JsonView) -> Option<Seq<Seq<char>>> {
    match member_of(v, workspaces_key()) {
        Some(JsonView::Array(items)) => Some(item_refs(items)),
        _ => None,
    }
}

pub open spec fn opt_string_text(o: Option<String>) -> Option<Seq<char>> {
    match o {
        Some(s) => Some(s@),
        None => None,
    }
}

/// Reads the workspace references from the JSON that `cmux
/// list-workspaces --json` prints.
pub fn parse_workspace_refs(output: &[u8]) -> (r: Result<Vec<String>, CmuxError>)
    ensures
        match json_parse(output@) {
            None => r matches Err(CmuxError::Json(_)),
            Some(v) => match listed_refs(v) {
                Some(refs) => r matches Ok(got) && text_views(got@) == refs,
                None => r matches Err(CmuxError::MissingWorkspaces),
            },
        },
{
    let value = match parse_json(output) {
        Ok(v) => v,
        Err(e) => return Err(CmuxError::Json(e)),
    };
    proof {
        reveal_strlit("workspaces");
        reveal_strlit("ref");
        assert("workspaces"@ =~= workspaces_key());
        assert("ref"@ =~= ref_key());
    }
    let items = match json_member(&value, "workspaces") {
        Some(Json::Array(items)) => items,
        _ => return Err(CmuxError::MissingWorkspaces),
    };
    let ghost iv = match member_of(json_view(value), workspaces_key()) {
        Some(JsonView::Array(s)) => s,
        _ => Seq::empty(),
    };
    assert(iv.len() == items.len());
    let mut refs: Vec<Option<String>> = Vec::new();
    let mut i: usize = 0;
    while i < items.len()
        invariant
            i <= items.len(),
            iv.len() == items.len(),
            forall|j: int| 0 <= j < items.len() ==> #[trigger] iv[j] == json_view(items@[j]),
            refs@.len() == i,
            present_refs(refs@) == item_refs(iv.take(i as int)),
        decreases items.len() - i,
    {
        let text = text_member_of(&items[i], "ref");
        proof {
            reveal_strlit("ref");
            assert("ref"@ =~= ref_key());
        }
        let entry: Option<String> = match text {
            Some(t) => Some(to_string(t)),
            None => None,
        };
        assert(opt_string_text(entry) == text_member(iv[i as int], ref_key()));
        assert(iv.take(i + 1).drop_last() =~= iv.take(i as int));
        assert(iv.take(i + 1).last() == iv[i as int]);
        let ghost before = refs@;
        refs.push(entry);
        assert(refs@.drop_last() =~= before);
        i = i + 1;
    }
    assert(iv.take(items.len() as int) =~= iv);
    Ok(workspace_refs_from(&refs))
}

} // verus!
