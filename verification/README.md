# mymonitor

A lightweight system monitor with two modes: a terminal dashboard (`-u`)
and a websocket stream of JSON snapshots (`-s`).

`src/` is the verified library (Verus):

- `cli` — choice of the run mode from the arguments.
- `alerting` — CPU and memory alert hysteresis, with laws on runs of samples.
- `metrics` — thermal-zone choice, per-interval network and disk counters
  over `sysinfo`, counter arithmetic.
- `identity` — device identifier and host name from their sources.
- `stream` — the decisions of one websocket client session.
- `ui::layout` — the dashboard's integer layout.
- `text` — trimming, lower-casing, prefix and substring tests.

`app/` is the program around it: argument reading, the collection loops,
floating-point readings and thresholds, the alert log, the terminal UI and
the websocket server.
