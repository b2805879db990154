# prodzilla

A synthetic monitoring service: monitors (a single HTTP request, a list of named HTTP
steps, or a Rhai script) are stored in a versioned config store, run on a schedule, and
their results are served over an HTTP API together with a script editor backend.

## Layout

- `src/` — the library, verified with Verus:
  - `model.rs`: monitor configuration, its validation rules, and run results.
  - `results.rs`: the bounded per-monitor result history and the views the API gives of it.
  - `config_store.rs`: store errors and the outcome of each store operation, the
    configuration fingerprint, and seeding.
  - `manager.rs`: the monitor manager's decisions — reconciling running monitors with the
    store, single-monitor reconciles, and the event loop's next step.
  - `scripting.rs`: compiling and validating Rhai scripts (through `rhai`), diagnostics,
    script outcomes and the host functions' checks.
  - `api.rs`: the API's error responses, request checks, completions, and the script
    editor's validation and execution endpoints.
  - `text.rs`, `time.rs`: string helpers and the timestamp type.
- `tests/` — tests of the library.
- `app/` — the service around it: YAML and SQLite I/O, the async monitor loop, the HTTP
  server (axum), the script host functions, and serde copies of the library's types.
