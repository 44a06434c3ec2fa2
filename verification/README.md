# tracing-elastic-apm

A `tracing` layer that reports spans and errors to Elastic APM, with its logic verified by Verus.

- `src/` is the verified library: what is recorded of fields (`visitor`), which of them become tags
  (`tags`), what is kept of a span and what becomes of it (`span`), what the layer reports
  (`layer`), the trace of the active span (`current`), the configuration and the documents
  (`config`, `model`), and what holds of all of it (`laws`).
- `app/` drives the library from a `tracing_subscriber` registry: it reads the clocks, keeps what is
  stored with each span, serializes the documents and sends them.
- `tests/` runs the library, on its own and under a registry.

A span without a parent becomes a transaction. One that records a `trace_id` (a `u128`, see
`current_trace_id`) and a `parent_id` (a `u64` span id) becomes a child transaction: it has its own
id and latency, in the given trace and nested under the given span.

The documents hold the time of a span in microseconds; `app/` writes durations as milliseconds.
