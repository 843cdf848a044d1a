# net_mux

Connection multiplexing: one ordered, connection-oriented byte stream
carries many bidirectional logical streams, each with credit-based flow
control, over a 12-byte-header wire format.

Layout:

- `src/` — the verified library: wire format and codec (`protocol/`), stream
  id allocation (`util/`), flow-control windows (`flow/`), the per-stream state
  machine and inbound buffer (`stream/`), the session's decisions and stream
  registry (`session/`), configuration and errors. `buffers.rs` states what
  the library relies on from the `bytes` crate.
- `app/` — the Tokio runtime around it: `Session` and `Stream` handles, the
  reader, writer, closer and keepalive tasks, and the error type with its
  messages.
- `tests/` — tests of the library on concrete values.
