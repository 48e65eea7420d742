# logixa_brain_core

A headless local assistant service ("brain"): any client talks to it over a
JSON HTTP API; it keeps conversations, long-term memories and project state
in SQLite and answers through a local `llama-server`, falling back to a
stand-in answer when the model is unavailable and that is allowed.

## Layout

- `src/` — the verified library (Verus). It holds the decisions of the
  service, each with a contract:
  - `text` — whitespace, trimming, substring search, marker removal, word
    splitting, joining, decimal digits;
  - `brain` — answering modes, keyword routing, answer cleaning, and the
    steps of a chat turn (its opening: validation and conversation scope
    before anything is saved; context usage, stand-in fallback, progress
    events);
  - `context` — which memories a context carries, the model input (system
    message with memories, kept history, user message), the system prompt
    layout, the project-state section;
  - `memory` — records, the full-text query form, memory normalization, the
    search fallback order (full text, then substring, then top memories);
  - `projects` — project upsert and state merge rules;
  - `tools` — the tool registry (`list_files`, `git_status`, `git_diff`,
    each run only after approval), the pending-call approval flow, tool
    input rules;
  - `model` — llama-server URLs, command line, start checks, readiness
    polling, idle shutdown, status labels;
  - `config` — server, paths, context policy and model runtime defaults
    (API on port 8787, llama-server on port 8788);
  - `dto`, `error`, `clock`.
- `app/` — the daemon: configuration file, SQLite store, HTTP routes,
  process management and HTTP client, file and git tool execution. It
  hands the library plain values and follows its decisions.
- `tests/` — tests of the library on concrete values.
