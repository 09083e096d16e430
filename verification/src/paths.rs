//! Names, project slugs, working directories and the paths of project files.
//!
//! Paths are POSIX paths held as strings: `/` separates components and a
//! path is absolute when it starts with `/`.
use vstd::prelude::*;
use crate::text::{
    contains_char, ends_with, first_char_is, has_suffix, is_blank, is_blank_str, starts_with_char,
    str_equal, to_string,
};

verus! {

/// Why a name is refused.
#[derive(Clone, Copy, Debug, PartialEq, Eq, Structural)]
pub enum NameProblem {
    /// Nothing is left once whitespace is trimmed.
    Empty,
    /// A `\n` or `\r` occurs in it.
    Newline,
    /// A NUL character occurs in it.
    Nul,
}

/// A refused name, with what it names (`project`, `workspace`, `surface`) and
/// the name itself, for the message.
#[derive(Clone, Debug)]
pub struct NameError {
    pub kind: String,
    pub name: String,
    pub problem: NameProblem,
}

/// Why a project slug, a working directory or the configuration directory
/// is refused.
#[derive(Clone, Copy, Debug, PartialEq, Eq, Structural)]
pub enum PathError {
    /// The project name is not a valid name.
    Name(NameProblem),
    /// The project name holds `/` or `\`.
    PathSeparator,
    /// The project name is `.` or `..`.
    DotName,
    /// The project name ends with `.yml` or `.yaml`.
    FileExtension,
    /// The expanded working directory is blank.
    EmptyCwd,
    /// The expanded working directory holds a NUL character.
    NulInCwd,
    /// Neither `XDG_CONFIG_HOME` nor a home directory is known.
    NoHomeDirectory,
}

pub open spec fn yml_ext() -> Seq<char> {
    seq!['.', 'y', 'm', 'l']
}

pub open spec fn yaml_ext() -> Seq<char> {
    seq!['.', 'y', 'a', 'm', 'l']
}

/// The first problem of a name, in the order in which they are checked.
pub open spec fn name_problem(name: Seq<char>) -> Option<NameProblem> {
    if is_blank(name) {
        Some(NameProblem::Empty)
    } else if name.contains('\n') || name.contains('\r') {
        Some(NameProblem::Newline)
    } else if name.contains('\0') {
        Some(NameProblem::Nul)
    } else {
        None
    }
}

/// The first problem of a project slug: a file name under the configuration
/// directory, without extension.
pub open spec fn slug_problem(project: Seq<char>) -> Option<PathError> {
    if name_problem(project) is Some {
        Some(PathError::Name(name_problem(project)->0))
    } else if project.contains('/') || project.contains('\\') {
        Some(PathError::PathSeparator)
    } else if project == seq!['.'] || project == seq!['.', '.'] {
        Some(PathError::DotName)
    } else if has_suffix(project, yml_ext()) || has_suffix(project, yaml_ext()) {
        Some(PathError::FileExtension)
    } else {
        None
    }
}

/// Tilde expansion applies to `~` alone and to `~/...`.
pub open spec fn tilde_applies(input: Seq<char>) -> bool {
    input.len() > 0 && input[0] == '~' && (input.len() == 1 || input[1] == '/')
}

pub open spec fn opt_str_view(o: Option<&str>) -> Option<Seq<char>> {
    match o {
        Some(s) => Some(s@),
        None => None,
    }
}

/// `~` replaced by the home directory where expansion applies and a home
/// directory is known; otherwise the input itself.
pub open spec fn expand_tilde_spec(input: Seq<char>, home: Option<Seq<char>>) -> Seq<char> {
    if tilde_applies(input) && home is Some {
        home->0 + input.skip(1)
    } else {
        input
    }
}

/// The outcome of checking an expanded working directory.
pub open spec fn cwd_check(expanded: Seq<char>) -> Option<PathError> {
    if is_blank(expanded) {
        Some(PathError::EmptyCwd)
    } else if expanded.contains('\0') {
        Some(PathError::NulInCwd)
    } else {
        None
    }
}

/// The file name has the extension `yml` or `yaml`: it ends with `.yml` or
/// `.yaml` and that dot is not its first character.
pub open spec fn has_yaml_extension(name: Seq<char>) -> bool {
    (has_suffix(name, yml_ext()) && name.len() > 4) || (has_suffix(name, yaml_ext())
        && name.len() > 5)
}

/// A project argument that names a file rather than a project.
pub open spec fn looks_like_path_spec(argument: Seq<char>) -> bool {
    starts_with_char(argument, '~') || argument.contains('/') || argument.contains('\\')
        || has_yaml_extension(argument)
}

/// `dir` joined with the relative path `name`, as `PathBuf::join` does.
pub open spec fn join_spec(dir: Seq<char>, name: Seq<char>) -> Seq<char> {
    if dir.len() == 0 {
        name
    } else if dir.last() == '/' {
        dir + name
    } else {
        dir + seq!['/'] + name
    }
}

pub open spec fn app_dir_name() -> Seq<char> {
    seq!['c', 'm', 'u', 'x', 'i', 'n', 'a', 't', 'o', 'r']
}

pub open spec fn dot_config() -> Seq<char> {
    seq!['.', 'c', 'o', 'n', 'f', 'i', 'g']
}

/// `$XDG_CONFIG_HOME/cmuxinator` when that variable is set and not blank,
/// else `~/.config/cmuxinator`.
pub open spec fn config_dir_spec(xdg: Option<Seq<char>>, home: Option<Seq<char>>) -> Option<
    Seq<char>,
> {
    if xdg is Some && !is_blank(xdg->0) {
        Some(join_spec(xdg->0, app_dir_name()))
    } else if home is Some {
        Some(join_spec(join_spec(home->0, dot_config()), app_dir_name()))
    } else {
        None
    }
}

/// The path of the project file `<project><ext>` in `dir`.
pub open spec fn config_file_spec(dir: Seq<char>, project: Seq<char>, ext: Seq<char>) -> Seq<
    char,
> {
    join_spec(dir, project + ext)
}

/// Where a project argument points: the expanded argument where it looks
/// like a path; else `<project>.yml` in the configuration directory, unless
/// only `<project>.yaml` exists there.
pub open spec fn project_path_spec(
    project: Seq<char>,
    home: Option<Seq<char>>,
    dir: Option<Seq<char>>,
    yml_exists: bool,
    yaml_exists: bool,
) -> Result<Seq<char>, PathError> {
    if looks_like_path_spec(project) {
        Ok(expand_tilde_spec(project, home))
    } else if dir is None {
        Err(PathError::NoHomeDirectory)
    } else if !yml_exists && yaml_exists {
        Ok(config_file_spec(dir->0, project, yaml_ext()))
    } else {
        Ok(config_file_spec(dir->0, project, yml_ext()))
    }
}

pub open spec fn result_view(r: Result<String, PathError>) -> Result<Seq<char>, PathError> {
    match r {
        Ok(s) => Ok(s@),
        Err(e) => Err(e),
    }
}

/// Checks a name: it must not be blank and must hold no newline and no NUL.
pub fn validate_name(name: &str, kind: &str) -> (r: Result<(), NameError>)
    ensures
        match r {
            Ok(()) => name_problem(name@) is None,
            Err(e) => name_problem(name@) == Some(e.problem) && e.kind@ == kind@ && e.name@
                == name@,
        },
{
    let problem = if is_blank_str(name) {
        Some(NameProblem::Empty)
    } else if contains_char(name, '\n') || contains_char(name, '\r') {
        Some(NameProblem::Newline)
    } else if contains_char(name, '\0') {
        Some(NameProblem::Nul)
    } else {
        None
    };
    match problem {
        None => Ok(()),
        Some(p) => Err(NameError { kind: to_string(kind), name: to_string(name), problem: p }),
    }
}

/// Checks that a project name can serve as a file name under the
/// configuration directory.
pub fn validate_project_slug(project: &str) -> (r: Result<(), PathError>)
    ensures
        match r {
            Ok(()) => slug_problem(project@) is None,
            Err(e) => slug_problem(project@) == Some(e),
        },
{
    match validate_name(project, "project") {
        Err(e) => return Err(PathError::Name(e.problem)),
        Ok(()) => {},
    }
    if contains_char(project, '/') || contains_char(project, '\\') {
        return Err(PathError::PathSeparator);
    }
    let dot = str_equal(project, ".");
    let dotdot = str_equal(project, "..");
    proof {
        reveal_strlit(".");
        reveal_strlit("..");
        assert("."@ =~= seq!['.']);
        assert(".."@ =~= seq!['.', '.']);
    }
    if dot || dotdot {
        return Err(PathError::DotName);
    }
    let yml = ends_with(project, ".yml");
    let yaml = ends_with(project, ".yaml");
    proof {
        reveal_strlit(".yml");
        reveal_strlit(".yaml");
        assert(".yml"@ =~= yml_ext());
        assert(".yaml"@ =~= yaml_ext());
    }
    if yml || yaml {
        return Err(PathError::FileExtension);
    }
    Ok(())
}

/// Expands a leading `~` to the home directory, as `shellexpand::tilde`
/// does, with the home directory handed in.
///
/// Trusted: calls `shellexpand::tilde_with_context`, whose source replaces
/// the `~` of `~` and `~/...` by the home directory when one is given, and
/// otherwise returns the input unchanged. The contract states this for the
/// POSIX systems this library is built for; on Windows the source also
/// expands `~\...`, which the contract does not cover.
#[verifier::external_body]
pub fn expand_tilde(path: &str, home: Option<&str>) -> (r: String)
    ensures
        r@ == expand_tilde_spec(path@, opt_str_view(home)),
{
    shellexpand::tilde_with_context(path, move || home).into_owned()
}

/// Expands and checks a working directory.
pub fn expand_cwd(cwd: &str, home: Option<&str>) -> (r: Result<String, PathError>)
    ensures
        match r {
            Ok(s) => cwd_check(expand_tilde_spec(cwd@, opt_str_view(home))) is None && s@
                == expand_tilde_spec(cwd@, opt_str_view(home)),
            Err(e) => cwd_check(expand_tilde_spec(cwd@, opt_str_view(home))) == Some(e),
        },
{
    let expanded = expand_tilde(cwd, home);
    if is_blank_str(expanded.as_str()) {
        return Err(PathError::EmptyCwd);
    }
    if contains_char(expanded.as_str(), '\0') {
        return Err(PathError::NulInCwd);
    }
    Ok(expanded)
}

/// Whether a file name has the extension `yml` or `yaml`.
pub fn yaml_extension(name: &str) -> (r: bool)
    ensures
        r == has_yaml_extension(name@),
{
    let n: usize = name.unicode_len();
    let yml = ends_with(name, ".yml");
    let yaml = ends_with(name, ".yaml");
    proof {
        reveal_strlit(".yml");
        reveal_strlit(".yaml");
        assert(".yml"@ =~= yml_ext());
        assert(".yaml"@ =~= yaml_ext());
    }
    (yml && n > 4) || (yaml && n > 5)
}

/// Whether a project argument names a file rather than a project: it starts
/// with `~`, holds a path separator, or has a YAML extension. (An absolute
/// path holds `/`; the expanded argument differs from the argument only
/// where the argument starts with `~`.)
pub fn looks_like_path(argument: &str) -> (r: bool)
    ensures
        r == looks_like_path_spec(argument@),
{
    first_char_is(argument, '~') || contains_char(argument, '/') || contains_char(argument, '\\')
        || yaml_extension(argument)
}

/// `dir` joined with the relative path `name`.
pub fn join_path(dir: &str, name: &str) -> (r: String)
    ensures
        r@ == join_spec(dir@, name@),
{
    let n: usize = dir.unicode_len();
    let mut out = to_string(dir);
    if n > 0 && dir.get_char(n - 1) != '/' {
        out.append("/");
        proof {
            reveal_strlit("/");
            assert("/"@ =~= seq!['/']);
        }
    }
    out.append(name);
    out
}

/// The configuration directory, from `XDG_CONFIG_HOME` and the home
/// directory.
pub fn config_dir(xdg_config_home: Option<&str>, home: Option<&str>) -> (r: Result<
    String,
    PathError,
>)
    ensures
        match r {
            Ok(d) => config_dir_spec(opt_str_view(xdg_config_home), opt_str_view(home)) == Some(
                d@,
            ),
            Err(e) => config_dir_spec(opt_str_view(xdg_config_home), opt_str_view(home)) is None
                && e == PathError::NoHomeDirectory,
        },
{
    proof {
        reveal_strlit("cmuxinator");
        reveal_strlit(".config");
        assert("cmuxinator"@ =~= app_dir_name());
        assert(".config"@ =~= dot_config());
    }
    if let Some(x) = xdg_config_home {
        if !is_blank_str(x) {
            return Ok(join_path(x, "cmuxinator"));
        }
    }
    match home {
        Some(h) => {
            let base = join_path(h, ".config");
            Ok(join_path(base.as_str(), "cmuxinator"))
        },
        None => Err(PathError::NoHomeDirectory),
    }
}

/// The path of `<project><ext>` in `dir`.
pub fn config_file_path(dir: &str, project: &str, ext: &str) -> (r: String)
    ensures
        r@ == config_file_spec(dir@, project@, ext@),
{
    let mut file = to_string(project);
    file.append(ext);
    join_path(dir, file.as_str())
}

/// Resolves a project argument to the path of its file. `yml_exists` and
/// `yaml_exists` tell whether `<project>.yml` and `<project>.yaml` exist in
/// `config_dir` (the configuration directory, where one is known).
pub fn project_path(
    project: &str,
    home: Option<&str>,
    config_dir: Option<&str>,
    yml_exists: bool,
    yaml_exists: bool,
) -> (r: Result<String, PathError>)
    ensures
        result_view(r) == project_path_spec(
            project@,
            opt_str_view(home),
            opt_str_view(config_dir),
            yml_exists,
            yaml_exists,
        ),
{
    if looks_like_path(project) {
        return Ok(expand_tilde(project, home));
    }
    proof {
        reveal_strlit(".yml");
        reveal_strlit(".yaml");
        assert(".yml"@ =~= yml_ext());
        assert(".yaml"@ =~= yaml_ext());
    }
    match config_dir {
        None => Err(PathError::NoHomeDirectory),
        Some(dir) => {
            if !yml_exists && yaml_exists {
                Ok(config_file_path(dir, project, ".yaml"))
            } else {
                Ok(config_file_path(dir, project, ".yml"))
            }
        },
    }
}

/// The path at which `new` creates a project file: `<project>.yml` in the
/// configuration directory, once the name is checked as a slug.
pub fn new_project_path(project: &str, config_dir: Option<&str>) -> (r: Result<String, PathError>)
    ensures
        match r {
            Ok(p) => slug_problem(project@) is None && config_dir is Some && p@
                == config_file_spec(config_dir->0@, project@, yml_ext()),
            Err(e) => if slug_problem(project@) is Some {
                slug_problem(project@) == Some(e)
            } else {
                config_dir is None && e == PathError::NoHomeDirectory
            },
        },
{
    validate_project_slug(project)?;
    proof {
        reveal_strlit(".yml");
        assert(".yml"@ =~= yml_ext());
    }
    match config_dir {
        None => Err(PathError::NoHomeDirectory),
        Some(dir) => Ok(config_file_path(dir, project, ".yml")),
    }
}

/// A project created with `new` is found again by name: for a valid slug
/// that does not start with `~`, once `<project>.yml` exists, the project's
/// path is the path at which `new` created it.
pub proof fn lemma_new_project_is_found(
    project: Seq<char>,
    home: Option<Seq<char>>,
    dir: Seq<char>,
    yaml_exists: bool,
)
    requires
        slug_problem(project) is None,
        !starts_with_char(project, '~'),
    ensures
        project_path_spec(project, home, Some(dir), true, yaml_exists) == Ok::<Seq<char>, PathError>(
            config_file_spec(dir, project, yml_ext()),
        ),
{
    assert(!has_yaml_extension(project));
}

/// Expanding a directory a second time changes nothing, where the home
/// directory does not itself start with `~`.
pub proof fn lemma_expand_tilde_idempotent(input: Seq<char>, home: Option<Seq<char>>)
    requires
        home is Some ==> !starts_with_char(home->0, '~'),
    ensures
        expand_tilde_spec(expand_tilde_spec(input, home), home) == expand_tilde_spec(input, home),
{
    let once = expand_tilde_spec(input, home);
    if tilde_applies(input) && home is Some {
        let h = home->0;
        if h.len() > 0 {
            assert(once[0] == h[0]);
        } else {
            assert(once =~= input.skip(1));
            if once.len() > 0 {
                assert(once[0] == input[1]);
            }
        }
    }
}

} // verus!
