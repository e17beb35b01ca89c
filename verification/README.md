# wta

The logic of a terminal pane in which a coding agent works, written and proved in
Verus: what every event does to the pane, how the conversation is drawn, what the
command line prints, how a prompt is handed over to another agent, and what is
shown of an agent's usage.

- `src/app/` holds the state of the pane and what each event makes of it. The pane
  never acts by itself: it asks for effects, in order. A request of the agent waits
  in its tab or is denied by an effect; none is lost (`src/app/requests.rs`).
- `src/chat/` turns a conversation into rows and finds what can be clicked.
- `src/cli/`, `src/hooks.rs`, `src/sessions.rs` build requests and reports of the
  command line.
- `src/delegate.rs` is the step by step handover of a prompt.
- `src/usage/` reads and shows usage.
- `src/text.rs`, `src/bytes.rs`, `src/json.rs`, `src/calendar.rs`, `src/keyed.rs`
  are what the others are built on.

Every executable function that the library implements has a contract over a
mathematical view of its data. Two methods of the trait `ProviderUsageAdapter` are
left open to whoever implements it: which reporters to believe, and what a private
report contributes. Functions whose names begin with `law_` state what holds of
several of them together. What other crates and the standard library do is stated
where they are called, above `external_body` and `assume_specification`.

`app/` is the program around the library: the agent, the terminal, pipes, files and
processes. `tests/` runs the library.
