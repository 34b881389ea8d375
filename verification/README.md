# devnpc

A development agent driven from GitLab: a comment that mentions `@devnpc`
(or a task given on the command line) starts an LLM agent that changes the
code of a repository, opens a draft merge request, follows its CI pipeline,
fixes what fails, and writes an HTML report.

## Layout

- `src/` is the library, verified with Verus. It holds the decisions and the
  text processing of the agent, each function with a contract:
  - `trigger/`: mentions, task kinds, webhook events and tokens;
  - `config/`: the configuration merge (environment over `.devnpc.md` over
    defaults), `.devnpc.md` splitting, skills and their selection;
  - `agent/`: prompts, SOP steps and deviations, the turn decisions of the
    ReAct loop, model routing and the LLM messages;
  - `ci/`: CI log parsing and the CI loop's state machine;
  - `gitlab_api/`: URLs, titles, status errors, pipeline filtering;
  - `memory/`, `adapter/`: repository layout and key files, the memory
    store's SQL and texts, MCP server descriptions, model providers;
  - `tools/`: path checks, command checks, and the syntax-tree tools (outline,
    view, edit, search, replace) over `tree-sitter`;
  - `report/`: the report data and its HTML; `team/`: agent hand-offs and the
    team run's texts; `run.rs`: the decisions of a command-line run.

  Calls into `regex`, `serde_json`, `tree-sitter` and `str::to_lowercase`
  stand behind small trusted wrappers whose contracts state their results
  (JSON string and list encoding, in `json.rs`) or name them. Laws stand as
  public proof functions (`law_*`) or in the contracts of the functions they
  are about (a written hand-off reads back as written: `parse_handoff`,
  with `law_handoff_round_trip_inputs` for the conditions on the inputs).
- `tests/` runs the library on concrete values.
- `app/` is the program: command line, environment and files, the GitLab and
  LLM HTTP clients, SQLite, the webhook server, the team run (`devnpc team`),
  and the loops that wait on the network. It asks the library for every decision.
