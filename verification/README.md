# conduit_ui

The verified core of the Conduit terminal UI, which drives coding agents in
tabs and workspaces. `src/` holds the decisions, text rules and geometry of
the UI with their contracts, proved by Verus; `app/` holds the file and
process I/O, reads the image files and JSON values that the library's JSON
writers take, converts terminal types, and calls the library for every
decision.

Modules of `src/`:

- `agent`: providers, model switching rules, submission planning, resuming.
- `background`: dialogs built from background preflights, project removal,
  work-complete follow-ups.
- `command`: command mode, completion, slash commands.
- `dialogs`: keyboard focus after dialogs, confirmation answers, pickers.
- `events`: how agent events change a session's bookkeeping.
- `image`, `json`: image encoding and JSON/TOML fields (through base64,
  serde_json and toml).
- `jsonl`: the stream-JSON lines written to agents (user prompts with
  images, tool results, control responses, permission answers), with
  strings quoted by serde_json.
- `layout`: hit testing of clicks and tab-bar scrolling.
- `screen`: the screen state the handlers change (input mode, confirmation,
  error and missing-tool dialogs, footer, command line, model picker, tabs)
  and the handlers of finished preflights, clicks and typed commands.
- `session`: the state of one chat session and what submitting a prompt,
  switching its model and draining its queue do to it.
- `mcp`, `mention`, `opening`, `output`, `persistence`, `pr`, `prompt`,
  `queue`, `settings`, `sort`, `status`, `tabs`, `text`, `tracker`, `transcript`,
  `workflow`: the remaining rules, one area each.
