# surrealmcp manager

The process manager of the SurrealDB MCP server: the single-instance lock,
probing whether a server answers on an address, stopping a server (waiting
for it to go away, killing what holds its port), reporting its status, and
running the `start`, `stop`, `status` and `restart` commands.

- `src/` is the verified library (Verus). Each command runs as a machine that
  takes the outcome of the last action and gives the next one; the actions
  themselves (sockets, the lock file, child processes, HTTP, sleeping,
  printing) are left to the caller.
  - `commands.rs`: the command line and the server configuration made of it.
  - `session.rs`: the machine that runs one command.
  - `stop.rs`: the machine that stops a server.
  - `manager.rs`: the lock, probes, status, health and the errors.
  - `pids.rs`, `text.rs`, `decimal.rs`: reading process ids out of `lsof`
    output and writing and reading decimal numbers.
- `app/` performs the actions: argument parsing with clap, tokio sockets and
  timers, the lock file, `lsof`/`kill`, reqwest for the health endpoint.
- `tests/` runs the library on concrete values.
