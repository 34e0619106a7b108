# codeloop

A loop-based coding agent powered by DeepSeek: it explores a workspace,
proposes tool calls, waits for the user's approval (unless `--auto`),
runs the tools and feeds the results back to the model.

## Layout

- `src/` — the verified library (Verus).
  - `agent.rs` — the agent loop as a state machine (`AgentSession`), its
    transition function and the laws of the loop (termination, the
    iteration bound, approval before tools run, one answer per tool call,
    reflection after failures), over single steps and whole runs.
  - `plan.rs` — plan state and system prompt.
  - `hitl.rs` — reading the user's answer at the approval prompt.
  - `llm.rs` — messages, tool calls, responses, tool definitions, and
    reading a chat-completion reply.
  - `config.rs` — run settings.
  - `tools/` — the registry, the skip-directory filter and the pure part of
    each built-in tool (argument defaults, output formats, windows of lines,
    search and listing caps, diff summaries, test-command selection).
  - `paths.rs`, `text.rs` — Unix path syntax (including resolving a path
    against the workspace) and text primitives (`lines`, `trim`, decimal
    rendering, joining).
  - `json.rs` — JSON values as a tree of plain values, and the
    `serde_json` calls the library makes (parsing, pretty and compact
    printing).
- `app/` — the command-line program: options, the HTTP client, the terminal
  prompt, file system and process access.
- `tests/` — tests of the library.
