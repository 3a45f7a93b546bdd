# template_app

The core of a desktop application template, written in Verus.

- `src/level.rs` — log levels: case-insensitive parsing and display names,
  with the round-trip laws.
- `src/logging.rs` — the `log_entries` table: inserting, listing the newest
  entries (optionally of one level), counting and clearing; the logger's
  configuration and starting level.
- `src/settings.rs` — the `sys_config` key-value store: get, set, delete,
  listing by an exact key prefix, and JSON-typed values.
- `src/db.rs` — the stored database path, opening connections, and the
  schema.
- `src/clock.rs` — the current UTC time as RFC 3339 text, read without
  panicking on a clock before 1970.
- `src/sql.rs` — the SQLite connection, statements and rows, behind a few
  trusted calls into `rusqlite`.
- `src/window.rs` — the main window's decisions: the reported and saved
  state, restoring it, toggling maximize, and which events save the state.
- `app/` — the shell: the global database path, the tracing subscriber, the
  frontend commands, file persistence of the window state, and the serde
  copies of the library's types.
