# broot

The core logic of a file manager showing directories as trees, with its
behaviour stated in contracts and proved.

- `src/command/`: what the user types: the parsing of the input into a
  pattern (a tree of atoms and operators, built with `bet`, whose nodes the
  contracts follow) and a verb invocation, commands,
  sequences of commands, completions, scrolling and moving the selection,
  the input of a panel (keys, escaping, cycling among completions).
- `src/app/`: the panels (their order, ids, which one is active, opening
  and closing them), what the application does to them once a command is
  handled, the generic handling of internals, selections, the standard
  status line, the application context, the decisions of a tree state
  and of the event loop.
- `src/tree_options.rs`: the display options of a tree and how verbs
  change them.
- `src/cli/`, `src/conf.rs`: launch arguments and the configuration: how
  the text of a configuration file (its default flags, values and verbs)
  is read into it; `src/toml_table.rs` is what it needs of the `toml`
  crate.
- `app/`: the program: reading arguments, the environment and the
  configuration files from disk, the clipboard, and the serialized form of
  panel references.
