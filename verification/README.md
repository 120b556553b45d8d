# oracle

The truck-side orchestrator of a Hivemind drone swarm: it turns an intent
(regions painted on a 3D scan) into a plan of per-drone sorties, uploads
approved plans to the drones' legion runtimes, and drives every step of
every sortie through a confirmation handshake.

## Layout

- `src/` — the verified library. Plan and sortie vocabularies and
  their stored codecs, the slicer's discrete stages (pre-flight checks,
  contiguous packing of passes into sorties, step layout, radio-loss
  policies, schedule, resources, warning rules, the plan's error and
  warning lists), the step-confirmation
  handshake and the apply supervisor as explicit state machines with their
  laws, the plan approval as a state machine that writes nothing before
  every check has passed, the legion Hello admission rule, API request
  checks and error mapping, configuration defaults, and the live fleet table.
- `tests/` — tests of the library on concrete values.
- `app/` — the `hivemind` binary: HTTP/WebSocket API (axum), the legion TCP
  link (tokio), SQLite persistence (sqlx), configuration loading (figment),
  the floating-point geometry of the slicer, and the drivers that perform
  the actions the state machines ask for.
