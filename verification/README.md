# omnyssh

The core of an SSH dashboard for the terminal, written in Verus. The
functions in `src/` are verified by Verus against their contracts; the few
that only read the environment (the user's directories) or an opaque
terminal screen state promise nothing of those values.

## Layout

- `src/` — the verified library.
  - `text`, `num`, `order`, `assoc` — text operations as `str` defines them
    (trim, split, replace, join), decimal numbers, lexicographic order and a
    stable index sort, and per-name value lists.
  - `config` — configuration sections and their defaults.
  - `keys`, `keybindings`, `term_input`, `paste`, `scroll` — key events,
    configurable bindings, the bytes a key or a paste sends to a remote shell,
    and mouse-wheel handling.
  - `probe`, `services` — parsing of the server probe output and service
    detection.
  - `form`, `host`, `host_list`, `host_keys`, `host_actions` — the host form,
    the dashboard list (search, tag filter, sort, tags) and what its keys and
    confirmations do.
  - `snippets` — saved commands, their form, list and `{{name}}` parameters.
  - `file_manager`, `path_set`, `file_icons` — the two file panels, marks,
    hidden files, copy planning and icons.
  - `terminal`, `term_keys`, `routing`, `action`, `screen` — terminal tabs
    and split panes, session identifiers, and where a key press goes.
  - `dispatch` — the main loop's decisions: what each action and each
    background event does to the state and views, and the outside work it
    asks for.
  - `update`, `platform`, `cli` — the update check's decisions, checksum
    and binary extraction, file locations, log pruning rules, command-line
    options.
- `app/` — a small library of the input and output the library needs:
  command-line parsing, the configuration file, reading terminal events,
  the update download and install, and log pruning. It has no main loop,
  session or file-transfer code; `dispatch` states what such a loop
  decides.
- `tests/` — tests of the library.
