# portly

A command-line tool for managing local development ports on Windows:
which process listens on each port, which framework and project it
belongs to, and commands to inspect, kill, clean up and watch them.

## Layout

- `src/` — the verified library. Its functions carry contracts that Verus
  proves, except for a few trusted wrappers around outside code, whose
  contracts are believed: `paint` (colored), `humanize_duration`
  (humantime), `terminal_columns` (terminal_size), `display_width` and
  `char_width` (unicode-width), `parse_package_manifest` (serde_json),
  `render_table` (tabled), and `io_error_text`, `push_char` and
  `to_lowercase` (std). What the library computes with them is proved:
  port scanning and framework detection, the Docker container map, the
  in-memory platform used by the tests, the text of tables, details views
  and watch events, the decisions of the `kill`, `clean`, `ps` and `watch`
  commands (target resolution, confirmation and dry run included), and the
  processing of the raw socket and process tables. `src/laws.rs` states
  and proves properties that span several functions. The scanner and the
  framework detector keep a ghost record of every question they put to
  the platform and of its answer, so the contracts say which port,
  process, file or kill was asked for and what each answer led to.
- `app/` — the program around the library: argument parsing (clap), the
  operating-system platform (sysinfo, netstat2), the Docker API (bollard),
  the configuration file (toml, dirs), spinners (indicatif), JSON output
  (serde_json), the CPU column (floating point) and the interactive loops.
- `tests/` — tests of the library on concrete values.
