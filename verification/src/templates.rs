//! The project file that `new` scaffolds.
use vstd::prelude::*;
use crate::text::to_string;

verus! {

/// Up to the project name in the canonical command.
pub const TEMPLATE_HEAD: &'static str = "# cmuxinator project config\n# Canonical command: cmuxinator start ";

/// From the alias comment up to `name:`.
pub const TEMPLATE_AFTER_COMMAND: &'static str = "\n# Optional shell alias: alias cmx='cmuxinator'\nname: ";

/// From `workspaces:` up to the first workspace's cwd.
pub const TEMPLATE_AFTER_NAME: &'static str = "\nworkspaces:\n  - name: agents\n    cwd: ~/codebase/";

/// The rest of the first workspace, up to the second workspace's cwd.
pub const TEMPLATE_AFTER_AGENTS_CWD: &'static str = "\n    layout: even-horizontal\n    panes:\n      - surfaces:\n          - name: agent\n            command: pi\n            focus: true\n          - name: shell\n      - surfaces:\n          - name: second-agent\n            command: pi\n\n  - name: dev\n    cwd: ~/codebase/";

/// The rest of the second workspace.
pub const TEMPLATE_TAIL: &'static str = "\n    layout: even-vertical\n    panes:\n      - surfaces:\n          - name: app\n            command: npm run dev\n      - surfaces:\n          - type: browser\n            name: preview\n            url: http://localhost:3000\n";

/// The scaffolded file: the project name in the canonical command, as the
/// `name:` and in both workspaces' `cwd: ~/codebase/<project>`.
pub open spec fn project_template_spec(project: Seq<char>) -> Seq<char> {
    TEMPLATE_HEAD@ + project + TEMPLATE_AFTER_COMMAND@ + project + TEMPLATE_AFTER_NAME@ + project
        + TEMPLATE_AFTER_AGENTS_CWD@ + project + TEMPLATE_TAIL@
}

/// The project file that `new` writes for `project`.
pub fn project_template(project: &str) -> (r: String)
    ensures
        r@ == project_template_spec(project@),
{
    let mut out = to_string(TEMPLATE_HEAD);
    out.append(project);
    out.append(TEMPLATE_AFTER_COMMAND);
    out.append(project);
    out.append(TEMPLATE_AFTER_NAME);
    out.append(project);
    out.append(TEMPLATE_AFTER_AGENTS_CWD);
    out.append(project);
    out.append(TEMPLATE_TAIL);
    out
}

} // verus!
