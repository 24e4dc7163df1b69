# cc_switch_web

The web dashboard of `cc-switch`, as a verified library (`src/`) and a thin
program around it (`app/`).

`src/` holds the decisions, each with a contract proved by Verus:

- `web::server` — the `/api/*` session-token gate: the `?token=` query
  parameter, percent-decoding (the inverse of `encodeURIComponent`) and the
  constant-time comparison.
- `web::tunnel` — the `tailscale serve|funnel` exchange as a step function
  from the outcome of one command to the next command, and the teardown.
- `cli::commands::web` — `cc-switch web`: startup checks, the session token,
  the tunnel choice and the printed banner.
- `proxy::providers::modelhub_codex` — the per-request rewrite of ModelHub
  Codex providers.
- `web::dispatch`, `web::handlers::proxy_extra`, `web::error` — command
  routing, the answers that need no service, and the HTTP answer of errors.
- `json`, `text` — a JSON document model and string helpers with exact
  specifications.

`app/` parses the arguments, binds and serves with axum, runs the tailscale
commands, probes proxies, and converts between `serde_json` and the library's
JSON model.
