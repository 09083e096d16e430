# cmuxinator

Start cmux projects from tmuxinator-style YAML files. A project is one file
under `~/.config/cmuxinator/` (or `$XDG_CONFIG_HOME/cmuxinator/`) that opens a
new cmux window and creates the project's workspaces in it.

## Layout

- `src/` — the verified library (Verus):
  - `paths` — names, project slugs, tilde expansion, working directories, and
    where project files live;
  - `config` — the project model and its validation;
  - `layout` — the layout tree of a workspace (even, main and tiled presets),
    with proofs that every pane appears once, in order;
  - `cmux` — the arguments of cmux commands and the reading of their JSON output;
  - `commands` — `start` (planning and the step-by-step run against cmux),
    `dry-run`, `list`, `new`, `validate`;
  - `completion` — which value the word under the cursor takes, and its candidates;
  - `formatting`, `templates` — the text the program prints and scaffolds;
  - `messages` — the text of every error the library reports.
- `app/` — the program: command-line parsing, YAML loading, the environment,
  files, running `cmux`, and rendering layouts as JSON.
- `tests/` — tests of the library.
