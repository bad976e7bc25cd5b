# color_eyre configuration, verified

The configuration of colourful panic and error report hooks, written in
Verus with its contracts proved.

- `src/` is the verified library: text styles and the dark and light
  themes (`style`), frames and how they are classified (`frame`), the
  built-in frame filters (`filter`), the layout of a backtrace with its
  notices of hidden frames (`backtrace`), what frames, source lines and
  panic messages print (`render`), the environment settings of verbosity
  (`verbosity`), the hook builder and the hooks it makes (`hook`), the
  order of the installation steps (`install`), and the assembly of a panic
  report with its backtrace indented as it is printed (`report`). String helpers with their
  specifications are in `text`.
- `app/` performs what the library decides: it prints with `owo_colors`
  (escape codes included),
  captures backtraces and span traces, reads environment variables and
  source files, and keeps the installed configuration in globals.
- `tests/` runs the library on concrete values.
