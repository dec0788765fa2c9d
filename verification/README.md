# flute-webhooks-mcp

An MCP server on stdio that lets an agent drive the `flute-webhooks` CLI: each
tool call spawns `flute-webhooks --profile <p> --output json …`, and the CLI's
JSON (or its `{kind, message, status?, correlation_id?}` error envelope) comes
back as the tool result.

## Layout

- `src/` — the library, verified with Verus.
  - `config.rs` — profile, binary, timeout and debug switch from the start-up
    environment (`Config::from_env`), with the order in which errors win.
  - `text.rs` — decimal parsing and rendering, joining, blank detection, and
    cutting UTF-8 text to a byte budget on a character boundary.
  - `error.rs` — `FluteError`, the envelope mapping, and the payload each
    error kind reports.
  - `runner.rs` — what a finished child process amounts to
    (`ProcessRunner::finish`), and `MockRunner`, which records argv and
    replays canned results in order.
  - `server.rs` — the eleven tools as `ToolRequest`: the argv each builds and
    the reply each makes of the CLI's result.
- `app/` — the binary: command line, environment, child processes, timeouts
  and the rmcp transport. It hands plain values to the library and turns its
  replies into MCP results.
- `tests/` — tests of the library.
