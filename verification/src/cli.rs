//! The command line, as parsed.
use vstd::prelude::*;

verus! {

/// `cmuxinator <command>`.
#[derive(Debug)]
pub struct Cli {
    pub command: Command,
}

/// The subcommands.
#[derive(Debug)]
pub enum Command {
    /// Create a new cmux window and open all or the selected workspaces.
    Start { project: String, group: bool, no_group: bool, workspaces: Vec<String> },
    /// Print the cmux calls and layouts that `start` would make.
    DryRun { project: String, group: bool, no_group: bool, workspaces: Vec<String> },
    /// List the available projects.
    List,
    /// Scaffold a project file, overwriting one only with `force`.
    New { project: String, force: bool },
    /// Validate a project file.
    Validate { project: String },
}

} // verus!
