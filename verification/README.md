# agent_core

The core of an agent runtime, written in Verus: every operation of the
library carries a contract that Verus proves.

- `store/` — the in-memory store (`StoreState`): sessions and messages,
  runs with their tasks, plans, steps, events, tool invocations and
  artifacts, the catalog (skills, subagents, provider accounts, MCP servers),
  memory documents, the context a run is built from, and the seeded records.
- `tool_loop`, `tool_driver` — reading model replies, the tool-call
  transcript, the step prompt, the step budget, and the tool loop as a
  state machine that says what to do after each outcome.
- `routing` — the models configuration and the choice of provider and model.
- `prompts`, `completion`, `run_flow`, `events` — the local fallback reply,
  completing a run, the decisions between a run's steps, and the numbering
  of run events.
- `tools`, `paths`, `ripgrep` — the tool catalog, tool arguments, todo
  lists, line selection, workspace paths and their resolution, and reading
  ripgrep's JSON output.
- `test_support` — a scripted model transport and the test configurations.
- `table`, `ordering`, `scan`, `text`, `json`, `ids`, `error` — keyed tables,
  sorting, text scanning, and the calls into `serde_json`, `uuid` and
  `chrono`.
- `laws` — properties that span several operations.

`app/` holds what Verus does not see: the async store and run drivers, the
configuration file, environment variables, events, and the file-system
tools.
