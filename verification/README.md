# hub_core

A small agent-to-agent task hub for local use. Agents register with the
capabilities they serve; clients create tasks that the hub routes to an agent
(the named one, or the first registered agent that serves the task's intent);
agents poll for their accepted tasks and report a result or an error; agents
that stop polling can be cleaned up.

The library under `src/` is written in Verus and verified:

- `task`, `agent`: the data model and its abstract views.
- `task_store`, `agent_registry`: the in-memory stores, keyed by identifier,
  with the invariant that identifiers are unique.
- `hub`: the hub's operations, each with a contract over the views. Operations
  that need the clock or a fresh identifier come in two forms: one that takes
  them as arguments (`*_at`), verified for every value, and one that obtains
  them and delegates.
- `server`, `client`, `cli`: the decisions of the HTTP API, of its client and of
  the command-line and MCP tool (status codes, capability lists, tool replies).
- `laws`: properties that relate the operations to one another.
- `external`: the calls into `serde_json`, `time` and `uuid`.

`app/` holds the executable around the library: the axum HTTP server, the
reqwest client, the clap command line and the MCP server, with the JSON forms
of the library's types.
