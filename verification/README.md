# kx-page-rs

The backend of kx-page: an HTTP API (axum, SQLite) for events and images,
whose decisions are verified with Verus.

- `src/` is the verified library. It decides every request (admin token
  check, which status and message answer a refused or failed request), builds
  the SQL text of event updates and deletions (every value bound as a
  parameter, never written into the text), converts event dates between
  the posted `YYYY/MM/DD`, the stored `YYYY-MM-DD 00:00:00` and the shown
  `YYYY/MM/DD`, resolves the time an event query looks back from, computes the
  image store statistics and reads the settings. Calls into `sha2`, `chrono`,
  `base64` and std stand behind small trusted wrappers whose contracts are
  documented beside them.
- `app/` is the server around it: configuration from the environment, the
  SQLite connection, the file system, the Protocol Buffers encoding of the
  messages (prost) and the axum routes.
- `tests/` exercises the library on concrete values.
