# theatre

The decision logic of the Theatre toolkit for Godot, verified with Verus:
the spectator's wire protocol and connection state, its session
configuration, budgets and clusters, the in-game addon's scene queries and
dashcam recorder, and the director's command line, backend routing,
daemon start-up and diagnostics parsing.

## Layout

- `src/` — the verified library. Each module states its behaviour in
  `requires` / `ensures` contracts over spec functions, and the laws that
  relate several functions are public proof functions (`lemma_*`).
  - `codec`, `handshake`, `connection_state`, `query_dispatch`, `query`,
    `scene_types`: the spectator protocol.
  - `addon_server`, `scene_tree`, `dashcam`, `recordings`,
    `recording_queries`: what the in-game addon decides.
  - `config`, `budget`, `cluster`, `delta`, `static_classes`: the spatial
    session.
  - `cli`, `backend`, `daemon`, `ports`, `resolve`, `oneshot`, `process`,
    `diagnostics`, `editor_run`, `tool_params`, `responses`, `defaults`:
    the director.
  - `text`, `unicode`, `json`: string and JSON helpers. `json` holds the one
    call into `serde_json` that the library makes.
- `tests/` — tests that run the library on concrete values.
- `app/` — the `director` binary around the library: process and network
  I/O, the MCP server, and the spatial math, which works on floating-point
  positions.
