# linkup_cli

The verified core of `linkup`, a command line tool that routes the traffic of
a development session between local services and their remote counterparts,
through a local server, a Cloudflare tunnel and a Cloudflare worker.

- `src/` is the library, verified with Verus: the state file and its
  routing, the `.env` blocks linkup writes and removes, domains and sessions,
  versions and releases, the status and health reports, the start-up of the
  background services as state machines, the Cloudflare deployment and its
  removal as state machines, and the text of everything printed. Calls into
  `url`, `regex` and `rand` stand behind a few trusted wrappers in
  `src/urls.rs`, `src/tunnel.rs` and `src/state.rs`.
- `app/` is the program around it: argument parsing, files, processes,
  HTTP, and the serde copies of the library's types.
- `tests/` runs the library on concrete values.
