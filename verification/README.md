# tracing_otel

Verified decisions for OpenTelemetry-instrumented HTTP services.

`src/` (verified with Verus):

- `level.rs` — span and event levels.
- `text.rs` — white space trimming and ASCII-case comparison of strings.
- `protocol.rs` — parsing OTLP protocol settings, choosing a signal's
  protocol, the exporter transport and its error context.
- `span.rs` — spans and events created at a run-time level, field records
  and lookups, and the laws of recording.
- `request.rs` — the HTTP server request span: header lookup, the shared
  fields, and the customization recorded after them.
- `make_span.rs` — the axum adapter: span name, kind, route and peer.

`app/` (ordinary Rust) reads requests, axum extensions and the environment,
turns the library's span records into `tracing` spans, sets the remote
parent, and holds the `dyn_event!`, `dyn_span!` and `build_exporter!` macros.
