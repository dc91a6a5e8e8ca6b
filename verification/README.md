# podway_daemon

The daemon that serves Podway workspaces: which workspaces are registered, how a worktree is
activated, maintained and reset, how a request is admitted, answered and replayed, and how the
daemon starts, recovers what was left behind, and stops.

- `src/` is the library, proved with Verus. Every decision of the daemon is a function there whose
  contract says what it returns for every input. What goes through Git, the workspace Store or the
  wire protocol comes in as plain values.
- `tests/` runs the library.
- `app/` is the ordinary Rust around it: sockets, files, locks and threads. It performs the step
  that the library asks for and hands back what came of it.

| Module | What it decides |
| --- | --- |
| `registry`, `registry_store` | the registry of workspaces, its document, and how it is published |
| `scheduler` | one scheduler per worktree: creation, progress, retirement |
| `server` | admission, the accept loop, one connection, metadata of responses |
| `runtime` | start, recovery of registered workspaces, end |
| `runtime_workspace` | leases, contexts, activation and reset of a workspace |
| `read_service` | reads that wait: what they observe, read and wait for, in which order |
| `observability` | what is told of all this; each module decides what of its own steps is told |
| `production` | requests and their answers: failures, receipts, terminal responses, previews |
| `json`, `digest`, `text`, `civil_time` | JSON values, digests, texts and timestamps |
| `store`, `worker`, `execution`, `workspace`, `dispatch`, `protocol` | the values that come from outside |

What is believed rather than proved is marked in `json`, `digest`, `text`, `server::metadata` and
`production::clock`: calls of `serde_json`, `sha2`, and the standard library's UTF-8 decoding and
clocks.
