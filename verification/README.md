# sigma_racer

Logic of the Sigma Racer motorcycle instrument cluster, verified with Verus.

- `src/` — the verified library:
  - `ui` — the dashboard properties the cluster logic sets and reads;
  - `sigma` — Connectivity menu model, Updates focus and check/install flow,
    OTA status wording, display modes, display presets and window policy,
    camera feed, window table, button names;
  - `testbed` — simulated radios, the testbed's window navigation, and the
    harness strip's turn-signal, hazard and blocked-navigation decisions;
  - `instrumentation` — speed digit cells and the first-generation window policy;
  - `co_pilot`, `wingman` — telemetry connection messages, riding-mode codes,
    the NDJSON envelopes and the subscriber's line handling;
  - `vehicle_service` — which envelope a sample tick sends, and flag settings;
  - `text` — string helpers with exact specifications.
- `app/` — environment settings, sockets, files, HTTP, JSON encoding, and the
  floating-point parts (vehicle state, gauge geometry, theme opacities).
- `tests/` — tests run against the compiled library.
