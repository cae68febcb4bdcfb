# clepsydra

A verified library for the hydraulic precision study of the Song-dynasty
water-driven armillary clock and other historical clepsydrae, with the
service around it.

Physical quantities are fixed-point integers in millionths of their unit
(`1_000_000` is one cm, one second, one mL/s, one °C, one percent), rounded
to nearest; a result that leaves the `i64` range is reported as an error.

`src/` (verified with Verus):

- `fixed`, `text` — fixed-point arithmetic, square roots and decimal rendering.
- `models` — the shared data types.
- `catalog` — the built-in historical designs, modern timepieces and the
  default vessels, with their chart colours.
- `cascade_error_analyzer`, `analysis_service` — how timing error travels
  through a cascade of vessels; the service's catalog lookups, comparisons,
  error-transfer analysis and simulated operation.
- `era_precision_comparator`, `chronometry_comparator` — daily errors of
  designs, pairwise comparison, and the cross-era chart.
- `vr_clepsydra` — second-by-second simulated operation of one vessel.
- `dtu_receiver`, `mqtt_receiver`, `hydraulic_simulator`, `alerts`,
  `websocket`, `metrics`, `config_loader` — the pipeline's checks, per-vessel
  bookkeeping, alerts, live-feed clients, counters and settings.

`app/` is the service: configuration and environment, the floating-point
hydraulic model and PID controller, MQTT, ClickHouse, the HTTP and
WebSocket endpoints. It converts between decimal values and the library's
fixed point at its edges.
