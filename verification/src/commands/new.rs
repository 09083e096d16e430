//! `new`: scaffold a project file.
use vstd::prelude::*;
use crate::paths::{
    config_file_spec, new_project_path, opt_str_view, project_path, project_path_spec,
    slug_problem, validate_project_slug, yml_ext, PathError,
};
use crate::templates::{project_template, project_template_spec};

verus! {

/// Why `new` writes nothing.
#[derive(Debug)]
pub enum NewError {
    /// The project name or the configuration directory is refused.
    Path(PathError),
    /// A project file exists at this path and overwriting was not asked for.
    AlreadyExists { path: String },
}

/// The file that `new` writes.
#[derive(Debug)]
pub struct NewProjectFile {
    pub path: String,
    pub contents: String,
}

/// Where `new` writes for a valid slug: the project's existing file if
/// there is one, else `<project>.yml` in the configuration directory.
pub open spec fn new_target_spec(
    project: Seq<char>,
    home: Option<Seq<char>>,
    dir: Option<Seq<char>>,
    yml_exists: bool,
    yaml_exists: bool,
    existing_exists: bool,
) -> Result<Seq<char>, PathError> {
    match project_path_spec(project, home, dir, yml_exists, yaml_exists) {
        Err(e) => Err(e),
        Ok(existing) => if existing_exists {
            Ok(existing)
        } else if dir is None {
            Err(PathError::NoHomeDirectory)
        } else {
            Ok(config_file_spec(dir->0, project, yml_ext()))
        },
    }
}

/// Decides the file that `new` writes for `project`. `yml_exists` and
/// `yaml_exists` tell whether `<project>.yml` and `<project>.yaml` exist in
/// `config_dir`; `existing_exists` whether a file exists at the path that
/// `project_path` gives; `fresh_exists` whether one exists at the path that
/// `new_project_path` gives.
pub fn run(
    project: &str,
    home: Option<&str>,
    config_dir: Option<&str>,
    yml_exists: bool,
    yaml_exists: bool,
    existing_exists: bool,
    fresh_exists: bool,
    force: bool,
) -> (r: Result<NewProjectFile, NewError>)
    ensures
        match slug_problem(project@) {
            Some(e) => r matches Err(NewError::Path(p)) && p == e,
            None => match new_target_spec(
                project@,
                opt_str_view(home),
                opt_str_view(config_dir),
                yml_exists,
                yaml_exists,
                existing_exists,
            ) {
                Err(e) => r matches Err(NewError::Path(p)) && p == e,
                Ok(target) => if (existing_exists || fresh_exists) && !force {
                    r matches Err(NewError::AlreadyExists { path }) && path@ == target
                } else {
                    r matches Ok(f) && f.path@ == target && f.contents@ == project_template_spec(
                        project@,
                    )
                },
            },
        },
{
    match validate_project_slug(project) {
        Err(e) => return Err(NewError::Path(e)),
        Ok(()) => {},
    }
    let existing = match project_path(project, home, config_dir, yml_exists, yaml_exists) {
        Err(e) => return Err(NewError::Path(e)),
        Ok(p) => p,
    };
    let target = if existing_exists {
        existing
    } else {
        match new_project_path(project, config_dir) {
            Err(e) => return Err(NewError::Path(e)),
            Ok(p) => p,
        }
    };
    if (existing_exists || fresh_exists) && !force {
        return Err(NewError::AlreadyExists { path: target });
    }
    Ok(NewProjectFile { path: target, contents: project_template(project) })
}

} // verus!
