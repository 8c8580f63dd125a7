# herdr_worktree

An interactive Git worktree picker for the herdr terminal workspace manager,
built on Worktrunk (`wt`). The logic is written in Verus and proved against
its contracts; the terminal, processes and files are handled by a thin
program around it.

## Layout

- `src/` — the verified library
  - `text.rs`: character classes and string helpers
  - `git.rs`: branch-name rules, Jira-style normalisation, porcelain parsing
  - `config.rs`: keybinding grammar and the configuration types
  - `json.rs`: the JSON model read from Worktrunk and herdr
  - `wt.rs`: the `wt list` entries, removal safety, `wt` arguments
  - `picker.rs`: the picker's state machine (keys in, effects out)
  - `screen.rs`: what the picker shows for a state
  - `herdr.rs`: herdr arguments and the replies read back from it
  - `removal.rs`: the removal action and its confirmation dialog
  - `launch.rs`: choosing the plugin environment and the lock file owner
  - `laws.rs`: properties that span several operations
- `app/` — the program: argument handling, process and file I/O, the
  terminal user interface, and the configuration file
- `tests/` — tests of the library on concrete values
