# zeroclaw_composio

The Composio tool integration of the ZeroClaw agent, with its logic proved
correct by Verus.

- `src/` is the verified library: the circuit breaker and retry policy, the
  connection and schema caches, the workbench session manager, cost tracking
  and budgets, structured logs and metrics counters, the OAuth onboarding
  decisions, the interpretation of every MCP reply, the argument-extraction
  heuristics of the natural-language tool, the step-by-step workflows of the
  natural-language and dynamic tools (`nl_workflow`, `meta_workflow`), and
  the assembly of the tool registry. Each public function states its result in `ensures`; the laws
  that span several calls are public proof functions named `law_*`.
- `app/` is the unverified shell around it: MCP and HTTP calls (it runs the
  workflows' actions and hands their outcomes back as events), timers and
  sleeps, the local OAuth callback server, `tracing` output, floating-point
  ratios, and the serde forms of the library's types.
- `tests/` runs the library on concrete values.

Outside crates reach the library only through small trusted wrappers, each
with a doc comment that says what its contract claims of the crate it calls.
