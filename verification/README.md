# zjctl

A JSON-first command line for controlling Zellij sessions, tabs and panes,
written as a Verus-verified library plus a thin program around it.

- `src/` — the library, verified by Verus:
  - `text` — character-level helpers (number parsing and printing, line
    splitting, trimming, joining) specified over `Seq<char>`;
  - `error` — error kinds, exit codes and the JSON form of an error;
  - `identity` — resolving tab and pane references;
  - `safety` — the self-write guard;
  - `zellij` — the runner interface, the client through which commands
    reach zellij (it keeps a ghost record of every call and its answer,
    so each command's contract says exactly which calls it makes), and
    session-bound argument lists;
  - `commands` — the `sessions`, `tabs` and `panes` verbs and their routing;
  - `models`, `output`, `cli` — the data the commands read and produce.
- `app/` — the executable: command-line parsing (clap), spawning `zellij`,
  decoding its JSON (serde) and printing results.
- `tests/` — tests run against the library with a stand-in runner.
