# knot

The client library and terminal front end of Knot, a local process orchestrator,
written in Verus. Every executable function in `src/` carries a contract, and Verus
proves all of them except a few small trusted wrappers around outside calls (listed
below), whose contracts it takes as given.

## Layout

- `src/terminal/` — progress output: tasks made of stages (`task`), sequences that run
  stages one after another (`sequence`), the engine and builders (`engine`), styles,
  line renderers, and error reports with their wrapped layout (`report`,
  `report_layout`). `task_laws` holds the proved properties of tasks.
- `src/base/` — binary and runtime-directory paths, decimal parsing and printing.
- `src/client/` — the client's decisions around the daemon: reading its runtime
  directory into a connection state (`connect`), cleaning a stale one and launching
  a new daemon (`handles`, `launch`, `launcher`), stopping a hung one (`kill`),
  binding to a process by name (`process`), the handshake (`session`), policies and
  errors.
- `app/` — the `knot` command line: argument parsing, the file system, process
  spawning and signalling, sockets, and drawing tasks with `indicatif`. It performs
  the I/O and hands the results to the library.
- `tests/` — tests of the library on concrete values.

Calls into outside crates sit behind trusted wrappers whose contracts are documented
next to them: `wrap_text` and `terminal_width` (`textwrap`), the `paint_*` functions
(`console`), `project_data_dir` (`directories`), `send_sigkill` (`nix`), and
`join_path` (`std::path::Path::join`). The library builds on Unix only.
