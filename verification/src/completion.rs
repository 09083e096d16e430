//! Shell completion of project and workspace names: which kind of value the
//! word under the cursor takes, and the candidates for it.
use vstd::prelude::*;
use crate::cmux::text_views;
use crate::search::{first_index, lemma_first_index_found, lemma_first_index_none, lemma_first_index_some};
use crate::text::{first_char_is, has_prefix, starts_with, starts_with_char, str_equal};

verus! {

/// What the word under the cursor takes.
#[derive(Clone, Debug, PartialEq, Eq)]
pub enum CompletionSlot {
    /// A project name.
    Project,
    /// A workspace name of this project.
    Workspace(String),
    /// Nothing: the command takes no more values.
    NoValues,
}

/// A value, not an option: not empty and not starting with `-`.
pub open spec fn is_positional(w: Seq<char>) -> bool {
    w.len() > 0 && w[0] != '-'
}

/// A subcommand that takes a project.
pub open spec fn is_project_command(w: Seq<char>) -> bool {
    w == "start"@ || w == "dry-run"@ || w == "validate"@
}

/// A subcommand that takes a project and then workspaces.
pub open spec fn is_workspace_command(w: Seq<char>) -> bool {
    w == "start"@ || w == "dry-run"@
}

pub open spec fn project_command_at(ws: Seq<Seq<char>>) -> spec_fn(int) -> bool {
    |i: int| is_project_command(ws[i])
}

pub open spec fn workspace_command_at(ws: Seq<Seq<char>>) -> spec_fn(int) -> bool {
    |i: int| is_workspace_command(ws[i])
}

/// A value strictly between the subcommand at `c` and the cursor at `cur`.
pub open spec fn positional_between(ws: Seq<Seq<char>>, c: int, cur: int) -> spec_fn(int) -> bool {
    |j: int| c < j && j < cur && is_positional(ws[j])
}

/// The word under the cursor; empty past the end.
pub open spec fn current_word(ws: Seq<Seq<char>>, ci: int) -> Seq<char> {
    if 0 <= ci < ws.len() {
        ws[ci]
    } else {
        Seq::empty()
    }
}

/// The slot of the word at `ci`: none for an option; none before or at the
/// first `start`, `dry-run` or `validate`; after it a project until a value
/// has been given, then workspaces of that project (`start`, `dry-run`) or
/// nothing (`validate`).
pub open spec fn completion_slot_spec(words: Seq<String>, ci: int) -> Option<CompletionSlot> {
    let ws = text_views(words);
    if starts_with_char(current_word(ws, ci), '-') {
        None
    } else {
        match first_index(ws.len(), project_command_at(ws)) {
            None => None,
            Some(c) => if ci <= c {
                None
            } else {
                let p = first_index(ws.len(), positional_between(ws, c, ci));
                if ws[c] == "validate"@ {
                    Some(
                        if p is Some {
                            CompletionSlot::NoValues
                        } else {
                            CompletionSlot::Project
                        },
                    )
                } else {
                    Some(
                        match p {
                            Some(j) => CompletionSlot::Workspace(words[j]),
                            None => CompletionSlot::Project,
                        },
                    )
                }
            },
        }
    }
}

/// The project named after the first `start` or `dry-run`: its first value.
pub open spec fn project_from_words_spec(words: Seq<String>) -> Option<String> {
    let ws = text_views(words);
    match first_index(ws.len(), workspace_command_at(ws)) {
        None => None,
        Some(c) => match first_index(ws.len(), positional_between(ws, c, ws.len() as int)) {
            Some(j) => Some(words[j]),
            None => None,
        },
    }
}

/// The values that start with `current`, in order.
pub open spec fn filtered(values: Seq<Seq<char>>, current: Seq<char>) -> Seq<Seq<char>> {
    values.filter(|v: Seq<char>| has_prefix(v, current))
}

/// A value, not an option.
pub fn is_positional_value(word: &str) -> (r: bool)
    ensures
        r == is_positional(word@),
{
    let n: usize = word.unicode_len();
    n > 0 && !first_char_is(word, '-')
}

/// The index of the first word that satisfies the command test.
fn find_command(words: &Vec<String>, with_validate: bool) -> (r: Option<usize>)
    ensures
        with_validate ==> r == match first_index(
            text_views(words@).len(),
            project_command_at(text_views(words@)),
        ) {
            Some(i) => Some(i as usize),
            None => None::<usize>,
        },
        !with_validate ==> r == match first_index(
            text_views(words@).len(),
            workspace_command_at(text_views(words@)),
        ) {
            Some(i) => Some(i as usize),
            None => None::<usize>,
        },
        r matches Some(i) ==> i < words.len(),
        first_index(text_views(words@).len(), project_command_at(text_views(words@))) matches Some(
            i,
        ) ==> 0 <= i < words.len(),
        first_index(text_views(words@).len(), workspace_command_at(text_views(words@))) matches Some(
            i,
        ) ==> 0 <= i < words.len(),
{
    proof {
        lemma_command_range(text_views(words@));
    }
    let ghost ws = text_views(words@);
    let ghost f = if with_validate {
        project_command_at(ws)
    } else {
        workspace_command_at(ws)
    };
    let mut i: usize = 0;
    while i < words.len()
        invariant
            i <= words.len(),
            ws == text_views(words@),
            f == if with_validate {
                project_command_at(ws)
            } else {
                workspace_command_at(ws)
            },
            forall|j: int| 0 <= j < i ==> !#[trigger] f(j),
        decreases words.len() - i,
    {
        let w = words[i].as_str();
        let hit = str_equal(w, "start") || str_equal(w, "dry-run") || (with_validate && str_equal(
            w,
            "validate",
        ));
        if hit {
            proof {
                lemma_first_index_found(ws.len(), f, i as int);
                lemma_command_range(ws);
            }
            return Some(i);
        }
        i = i + 1;
    }
    proof {
        lemma_first_index_none(ws.len(), f);
    }
    None
}

proof fn lemma_command_range(ws: Seq<Seq<char>>)
    ensures
        first_index(ws.len(), project_command_at(ws)) matches Some(i) ==> 0 <= i < ws.len(),
        first_index(ws.len(), workspace_command_at(ws)) matches Some(i) ==> 0 <= i < ws.len(),
{
    if first_index(ws.len(), project_command_at(ws)) is Some {
        lemma_first_index_some(ws.len(), project_command_at(ws));
    }
    if first_index(ws.len(), workspace_command_at(ws)) is Some {
        lemma_first_index_some(ws.len(), workspace_command_at(ws));
    }
}

/// The first value strictly between the word at `c` and the word at `cur`.
fn find_positional(words: &Vec<String>, c: usize, cur: usize) -> (r: Option<usize>)
    ensures
        r == match first_index(
            text_views(words@).len(),
            positional_between(text_views(words@), c as int, cur as int),
        ) {
            Some(i) => Some(i as usize),
            None => None::<usize>,
        },
        r matches Some(i) ==> i < words.len(),
        first_index(
            text_views(words@).len(),
            positional_between(text_views(words@), c as int, cur as int),
        ) matches Some(i) ==> 0 <= i < words.len(),
{
    proof {
        let ws = text_views(words@);
        if first_index(ws.len(), positional_between(ws, c as int, cur as int)) is Some {
            lemma_first_index_some(ws.len(), positional_between(ws, c as int, cur as int));
        }
    }
    let ghost ws = text_views(words@);
    let ghost f = positional_between(ws, c as int, cur as int);
    let mut i: usize = 0;
    while i < words.len()
        invariant
            i <= words.len(),
            ws == text_views(words@),
            f == positional_between(ws, c as int, cur as int),
            forall|j: int| 0 <= j < i ==> !#[trigger] f(j),
        decreases words.len() - i,
    {
        if c < i && i < cur && is_positional_value(words[i].as_str()) {
            proof {
                lemma_first_index_found(ws.len(), f, i as int);
            }
            return Some(i);
        }
        i = i + 1;
    }
    proof {
        lemma_first_index_none(ws.len(), f);
    }
    None
}

/// What the word at `current_index` takes, or `None` where completion is
/// left to the command-line parser.
pub fn completion_slot(words: &Vec<String>, current_index: usize) -> (r: Option<CompletionSlot>)
    ensures
        r == completion_slot_spec(words@, current_index as int),
{
    let ghost ws = text_views(words@);
    let dash = current_index < words.len() && first_char_is(words[current_index].as_str(), '-');
    if dash {
        return None;
    }
    let command_index = match find_command(words, true) {
        Some(c) => c,
        None => return None,
    };
    if current_index <= command_index {
        return None;
    }
    let project = find_positional(words, command_index, current_index);
    let validate = str_equal(words[command_index].as_str(), "validate");
    if validate {
        Some(
            if project.is_some() {
                CompletionSlot::NoValues
            } else {
                CompletionSlot::Project
            },
        )
    } else {
        match project {
            Some(j) => Some(CompletionSlot::Workspace(words[j].clone())),
            None => Some(CompletionSlot::Project),
        }
    }
}

/// The project named in the words of a `start` or `dry-run` command line.
pub fn project_from_completion_words(words: &Vec<String>) -> (r: Option<String>)
    ensures
        r == project_from_words_spec(words@),
{
    let command_index = match find_command(words, false) {
        Some(c) => c,
        None => return None,
    };
    match find_positional(words, command_index, words.len()) {
        Some(j) => Some(words[j].clone()),
        None => None,
    }
}

/// The values that start with `current`, in order.
pub fn filter_values(current: &str, values: Vec<String>) -> (r: Vec<String>)
    ensures
        text_views(r@) == filtered(text_views(values@), current@),
{
    let ghost vs = text_views(values@);
    let mut out: Vec<String> = Vec::new();
    let mut i: usize = 0;
    while i < values.len()
        invariant
            i <= values.len(),
            vs == text_views(values@),
            text_views(out@) == filtered(vs.take(i as int), current@),
        decreases values.len() - i,
    {
        proof {
            reveal_with_fuel(Seq::filter, 1);
        }
        assert(vs.take(i + 1).drop_last() =~= vs.take(i as int));
        if starts_with(values[i].as_str(), current) {
            let ghost before = out@;
            out.push(values[i].clone());
            assert(text_views(out@) =~= text_views(before).push(values@[i as int]@));
        }
        i = i + 1;
    }
    assert(vs.take(values.len() as int) =~= vs);
    out
}

/// The candidates for the word at `current_index`: the projects or the
/// workspaces that start with it, or none. `projects` are the available
/// projects; `workspaces` the workspaces of the project that
/// `completion_slot` names, where it names one. `None` leaves completion to
/// the command-line parser.
pub fn project_or_workspace_values(
    words: &Vec<String>,
    current_index: usize,
    projects: Vec<String>,
    workspaces: Vec<String>,
) -> (r: Option<Vec<String>>)
    ensures
        ({
            let cur = current_word(text_views(words@), current_index as int);
            match completion_slot_spec(words@, current_index as int) {
                None => r is None,
                Some(CompletionSlot::Project) => r matches Some(v) && text_views(v@) == filtered(
                    text_views(projects@),
                    cur,
                ),
                Some(CompletionSlot::Workspace(_)) => r matches Some(v) && text_views(v@)
                    == filtered(text_views(workspaces@), cur),
                Some(CompletionSlot::NoValues) => r matches Some(v) && v@.len() == 0,
            }
        }),
{
    let current = if current_index < words.len() {
        words[current_index].as_str()
    } else {
        ""
    };
    proof {
        reveal_strlit("");
        assert(current@ == current_word(text_views(words@), current_index as int));
    }
    match completion_slot(words, current_index) {
        None => None,
        Some(CompletionSlot::Project) => Some(filter_values(current, projects)),
        Some(CompletionSlot::Workspace(_)) => Some(filter_values(current, workspaces)),
        Some(CompletionSlot::NoValues) => Some(Vec::new()),
    }
}

/// Completion offers exactly the values that start with the word under the
/// cursor: each offered value is a candidate and starts with the word, and
/// every candidate that starts with it is offered.
pub proof fn lemma_completion_offers_matching_values(values: Seq<Seq<char>>, current: Seq<char>)
    ensures
        forall|i: int|
            0 <= i < filtered(values, current).len() ==> has_prefix(
                #[trigger] filtered(values, current)[i],
                current,
            ) && values.contains(filtered(values, current)[i]),
        forall|v: Seq<char>|
            values.contains(v) && has_prefix(v, current) ==> #[trigger] filtered(
                values,
                current,
            ).contains(v),
{
    let p = |v: Seq<char>| has_prefix(v, current);
    assert forall|i: int| 0 <= i < filtered(values, current).len() implies has_prefix(
        #[trigger] filtered(values, current)[i],
        current,
    ) && values.contains(filtered(values, current)[i]) by {
        values.lemma_filter_pred(p, i);
        assert(values.filter(p).contains(values.filter(p)[i]));
        values.lemma_filter_contains_rev(p, values.filter(p)[i]);
    }
    assert forall|v: Seq<char>| values.contains(v) && has_prefix(v, current) implies #[trigger] filtered(
        values,
        current,
    ).contains(v) by {
        let k = choose|k: int| 0 <= k < values.len() && values[k] == v;
        values.lemma_filter_contains(p, k);
    }
}

/// After `start` or `dry-run` and a project value, a word that is not an
/// option takes a workspace of that project; after `validate` and its
/// project, it takes nothing. `c` is the first of those subcommands and `j`
/// the first value after it.
pub proof fn lemma_workspaces_follow_the_project(words: Seq<String>, c: int, j: int, ci: int)
    requires
        0 <= c < j < ci,
        j < words.len(),
        forall|i: int| 0 <= i < c ==> !is_project_command(#[trigger] words[i]@),
        is_positional(words[j]@),
        forall|k: int| c < k < j ==> !is_positional(#[trigger] words[k]@),
        !starts_with_char(current_word(text_views(words), ci), '-'),
    ensures
        (words[c]@ == "start"@ || words[c]@ == "dry-run"@) ==> completion_slot_spec(words, ci)
            == Some(CompletionSlot::Workspace(words[j])),
        words[c]@ == "validate"@ ==> completion_slot_spec(words, ci) == Some(
            CompletionSlot::NoValues,
        ),
{
    let ws = text_views(words);
    assert forall|i: int| 0 <= i < words.len() implies ws[i] == #[trigger] words[i]@ by {}
    if is_project_command(ws[c]) {
        assert forall|i: int| 0 <= i < c implies !#[trigger] project_command_at(ws)(i) by {
            assert(ws[i] == words[i]@);
        }
        lemma_first_index_found(ws.len(), project_command_at(ws), c);
        assert forall|k: int| 0 <= k < j implies !#[trigger] positional_between(ws, c, ci)(k) by {
            if c < k {
                assert(ws[k] == words[k]@);
            }
        }
        assert(positional_between(ws, c, ci)(j));
        lemma_first_index_found(ws.len(), positional_between(ws, c, ci), j);
    }
    reveal_strlit("start");
    reveal_strlit("dry-run");
    reveal_strlit("validate");
    assert("start"@ != "validate"@) by {
        assert("start"@[0] != "validate"@[0]);
    }
    assert("dry-run"@ != "validate"@) by {
        assert("dry-run"@[0] != "validate"@[0]);
    }
}

/// `names` followed by each name of `more` that is not already there, in
/// the order of `more`.
pub open spec fn with_new_names(names: Seq<Seq<char>>, more: Seq<Seq<char>>) -> Seq<Seq<char>>
    decreases more.len(),
{
    if more.len() == 0 {
        names
    } else {
        let r = with_new_names(names, more.drop_last());
        if r.contains(more.last()) {
            r
        } else {
            r.push(more.last())
        }
    }
}

/// Adds to `names` each name of `more` that it does not hold yet: the
/// workspace names offered for completion, each once, in the order met.
pub fn add_new_names(names: &mut Vec<String>, more: &Vec<String>)
    ensures
        text_views(final(names)@) == with_new_names(text_views(old(names)@), text_views(more@)),
{
    let ghost start = text_views(names@);
    let ghost m = text_views(more@);
    let mut i: usize = 0;
    while i < more.len()
        invariant
            i <= more.len(),
            m == text_views(more@),
            text_views(names@) == with_new_names(start, m.take(i as int)),
        decreases more.len() - i,
    {
        assert(m.take(i + 1).drop_last() =~= m.take(i as int));
        assert(m.take(i + 1).last() == more@[i as int]@);
        if !crate::commands::start::contains_text(names, more[i].as_str()) {
            let ghost before = names@;
            names.push(more[i].clone());
            assert(text_views(names@) =~= text_views(before).push(more@[i as int]@));
        }
        i = i + 1;
    }
    assert(m.take(more.len() as int) =~= m);
}

/// Names already present are not added again: adding a list to the result
/// of adding it changes nothing.
pub proof fn lemma_add_new_names_twice(names: Seq<Seq<char>>, more: Seq<Seq<char>>)
    ensures
        with_new_names(with_new_names(names, more), more) == with_new_names(names, more),
{
    lemma_with_new_names_keeps(names, more);
    lemma_with_new_names_known(with_new_names(names, more), more);
}

proof fn lemma_with_new_names_keeps(names: Seq<Seq<char>>, more: Seq<Seq<char>>)
    ensures
        forall|x: Seq<char>| more.contains(x) ==> #[trigger] with_new_names(names, more).contains(
            x,
        ),
        forall|x: Seq<char>| names.contains(x) ==> #[trigger] with_new_names(names, more).contains(
            x,
        ),
    decreases more.len(),
{
    if more.len() > 0 {
        lemma_with_new_names_keeps(names, more.drop_last());
        let r = with_new_names(names, more.drop_last());
        assert forall|x: Seq<char>| more.contains(x) implies #[trigger] with_new_names(
            names,
            more,
        ).contains(x) by {
            let k = choose|k: int| 0 <= k < more.len() && more[k] == x;
            if k < more.len() - 1 {
                assert(more.drop_last()[k] == x);
                assert(r.contains(x));
            }
            if !r.contains(more.last()) {
                assert(r.push(more.last())[r.len() as int] == more.last());
            }
            if r.contains(x) && !r.contains(more.last()) {
                let j = choose|j: int| 0 <= j < r.len() && r[j] == x;
                assert(r.push(more.last())[j] == x);
            }
        }
        assert forall|x: Seq<char>| names.contains(x) implies #[trigger] with_new_names(
            names,
            more,
        ).contains(x) by {
            assert(r.contains(x));
            if !r.contains(more.last()) {
                let j = choose|j: int| 0 <= j < r.len() && r[j] == x;
                assert(r.push(more.last())[j] == x);
            }
        }
    }
}

proof fn lemma_with_new_names_known(names: Seq<Seq<char>>, more: Seq<Seq<char>>)
    requires
        forall|x: Seq<char>| more.contains(x) ==> names.contains(x),
    ensures
        with_new_names(names, more) == names,
    decreases more.len(),
{
    if more.len() > 0 {
        assert forall|x: Seq<char>| more.drop_last().contains(x) implies names.contains(x) by {
            let k = choose|k: int| 0 <= k < more.len() - 1 && more.drop_last()[k] == x;
            assert(more[k] == x);
        }
        lemma_with_new_names_known(names, more.drop_last());
        assert(more.contains(more.last()));
    }
}

} // verus!
