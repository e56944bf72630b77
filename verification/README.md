# pa-daemon

The agent daemon's logic as a verified library: a supervisor that keeps session
workers alive and routes clients to them, the workers' session engines, and the
stdio mode for editors.

- `src/` holds the logic. Every function states what it returns or changes, and
  the `law_*` proof functions state what holds across functions.
- `tests/` runs the library on concrete values.
- `app/` performs what the library decides: files, sockets, clocks and the
  event loops.

## Modules

| Module | What it decides |
| --- | --- |
| `protocol`, `json`, `text`, `paths`, `ids` | the wire protocol and its building blocks |
| `supervisor`, `create_reuse`, `peer_tickets`, `messaging` | workers: launch, restart, reuse, routing, tickets, messages |
| `socket`, `platform`, `lease` | sockets and session leases |
| `engine`, `agent_engine`, `session_commands` | prompts, turns, retries, commands given as prompts |
| `compaction`, `auto_compaction`, `session_window`, `session_usage` | a session's history and its cost |
| `branch_navigation`, `session_navigation` | moving in a session's tree, replacing a session |
| `rlm_children`, `scheduled_jobs`, `mcp_connections` | child sessions, jobs, tool servers |
| `streaming`, `status_line`, `agent_roster`, `roster_activity`, `worker` | what clients are told |
| `acp` | the agent client protocol |

Outside crates are reached through a few wrappers in `src/`: `serde_json` for
parsing, `sha2` for digests, `regex` for the recap's clean-up, `uuid` for fresh
identifiers. A few more reach std: `paths` for parts of file paths, `text` for
letter case. Each says above it what it takes for granted.
