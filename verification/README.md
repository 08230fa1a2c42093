# context_engine

A context engine for tool-using language-model agents, written in Verus.

- `src/` is the verified library: the message buffer and its operations,
  compaction strategies, budget, telemetry and compaction rules, structured
  output extraction, request builders for cognitive memory, and the decision
  core of the ReAct loop (`react_run.rs`, `react_loop.rs`). Every public
  function carries a contract; the laws the library keeps are public proof
  functions named `law_*`.
- `src/json.rs`, `src/money.rs` and a few small wrappers elsewhere are the
  trusted boundary to `serde_json`, `rust_decimal` and `std`: each states what
  the outside call returns, and nothing else in `src/` is trusted.
- `app/` is the runtime around the library: providers, tool registries, state
  stores, async loops, tracing and serde conversions. It performs the outside
  work and hands each outcome to the verified transitions.
- `tests/` runs the library on concrete values.
