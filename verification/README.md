# apex-code

Apex is an autonomous coding agent for the terminal: it talks to an
OpenAI-compatible gateway (OmniRoute by default), falls back through a pool
of models when one is rate limited, runs tools in the workspace (ripgrep,
file viewing, surgical edits, shell commands, git) and shows its work in a
Swiss-style terminal interface or as a plain stream.

## Layout

- `src/` — the verified library (Verus). Every function carries a
  contract over a mathematical model of its data:
  - `text` — character-level helpers (`trim`, `lines`, `split_whitespace`,
    decimal formatting, substring search).
  - `edit` — the surgical search-and-replace edit and its laws
    (uniqueness, splicing, identity, undo, CRLF round trip).
  - `config` — defaults, precedence of configuration sources, API keys.
  - `provider` — gateway decisions: credentials, request address and
    headers, the order of models and the fallback step machine, reading a
    completion reply.
  - `agent` — the conversation, the system prompt and the agent's step
    machine.
  - `tools` — tool definitions, reading tool calls, file views, command
    reports.
  - `search` — content and name search over the entries of a workspace
    walk.
  - `tui` — the interface state: prompt editor, history, slash commands.
  - `theme`, `skills` — palette, line tones, gauges, built-in playbooks.
- `app/` — the program around it: command line, configuration files, HTTP,
  the file system, processes and drawing.
- `tests/` — tests of the library.
