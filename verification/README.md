# nine-router-bootstrap

Keeps the 9Router Node.js server running: starts it, waits for its TCP port
to answer, watches it, and restarts it with exponential backoff within a
restart budget; installs itself as a systemd user service or a launchd agent.

- `src/` is the verified library: the retry policy (`retry`), the readiness
  and liveness machines (`health`), the supervision of the `start` command
  (`supervisor`), the server's command line, `node` discovery and pid
  handling (`process`), service paths and files (`service`), and the text and
  path handling they share (`text`, `paths`).
- `app/main.rs` is the program: command line, sockets, child processes,
  signals, timers and files. It performs what the library's machines ask for
  and reports back what happened.
- `tests/` exercises the library on concrete values.
