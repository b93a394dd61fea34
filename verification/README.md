# relay_backend

Relay turns Slack mentions into Codex task runs in per-thread workspaces. This crate
is its backend.

- `src/` is the library, written in Verus: every function states what it returns
  in `requires`/`ensures` and is proved to meet it. It holds the decisions of the
  service: policy evaluation, policy and Slack markup parsing, thread
  normalisation, workflow matching and prompt rendering, environment and workspace
  rules, configuration, and the handling of a mention as a sequence of commands
  (`tasks::request_flow`) and of a source-clone sync (`environments::service`).
- `app/` is the program around it: the SQLite database, the Slack Web API and
  Socket Mode, git and Codex processes, terminals and the HTTP API. It carries out
  the commands the library decides on and feeds back their answers.
- `tests/` exercises the library on concrete values.
