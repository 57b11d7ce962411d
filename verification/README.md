# codex_session_usage

Token usage statistics for Codex sessions. Codex writes each session as a
log of JSON lines; this crate reads those logs into usage events, remembers
how far each log has been imported, and answers the statistics queries from
a SQLite cache.

- `src/` is the library, verified with Verus: JSON field lookup, token
  counters, the parsing of each log line (with `serde_json`), the reading
  of each record kind, the per-file import cursor
  (resuming, restarting on truncation, skipping repeated snapshots), event
  keys (SHA-256 via `sha2`), timestamps (via `chrono`), file name handling,
  paging, and the cache schema checks. `src/laws.rs` states the properties
  that span several calls.
- `app/` is the I/O around it: walking the session directories, reading
  files line by line, the SQLite cache with
  `rusqlite`, pricing (floating point, supplied by the host application) and
  the serialisable result types.
- `tests/` runs the library on concrete sessions.
