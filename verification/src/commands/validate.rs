//! `validate`: check a project file.
use vstd::prelude::*;
use crate::config::{project_error, ConfigError, Project};
use crate::formatting::{validation_message, validation_success};
use crate::paths::opt_str_view;

verus! {

/// Checks a project read from `path` and gives the message that reports it
/// valid.
pub fn run(project: &Project, path: &str, home: Option<&str>) -> (r: Result<String, ConfigError>)
    ensures
        match r {
            Ok(m) => project_error(*project, opt_str_view(home)) is None && m@
                == validation_message(project.name@, path@),
            Err(e) => project_error(*project, opt_str_view(home)) == Some(e),
        },
{
    project.validate(home)?;
    Ok(validation_success(project.name.as_str(), path))
}

} // verus!
