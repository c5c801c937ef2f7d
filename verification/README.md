# cascade_agent

The decision-making core of an LLM agent engine, verified with Verus.

## Layout

- `src/` — the verified library.
  - `planning/` — plans and their steps: creation, the step state machine
    (completing the last unfinished step completes the plan), the stored form
    of a plan and its exact read-back, plan file names and listing, and the
    markdown view.
  - `tools/` — tool results, a registry of tools by name, and the logic of
    the four planning tools (argument checking, results, JSON schemas).
  - `agent/` — the agent loop as a state machine (`control::loop_step`: an
    event in, the next state and the actions to perform out), and the
    decisions it is made of: interrupts, orchestrator messages, ask-user
    outcomes, what a model reply asks for, when the loop ends, and which
    search results become knowledge entries.
  - `memory/` — token counting for the context budget.
  - `knowledge/` — embedding model names, embedding inputs and hit metadata.
  - `orchestrator/` — which transport a configuration asks for.
  - `time.rs`, `json.rs`, `text.rs`, `error.rs` — instants (through chrono),
    JSON values, text helpers and the error type.
- `app/` — the command-line program and everything asynchronous, random or
  on disk: the runner that performs the loop's actions, plan files in TOML,
  the clock and random identifiers, loading tokenizers, the `Tool` trait and
  the planning tools behind it, the orchestrator channel and the ask-user
  wait.
- `tests/` — tests of the library.
