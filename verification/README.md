# logger

A logging subsystem that sends human readable log lines to stdout and stderr or to a named pipe,
and metrics in JSON format to another named pipe.

- `src/` is the library, verified with Verus. It decides what is logged, how a line reads, where it
  goes, and how the one-time initialization proceeds. `src/model.rs` states what each operation
  does; `src/laws.rs` states and proves what holds of the subsystem as a whole.
- `app/` is the subsystem of a running process around it: the global logger behind the macros of the
  `log` crate, the pipes, the clock, and the serialized metrics.
- `tests/` exercises the library.

Three functions of the library rely on other crates and are trusted to do what their contracts say:
`level_name` and `set_max_level` in `src/level.rs` (the `log` crate), and `parse_json` in
`src/options.rs` (the `serde_json` crate).
