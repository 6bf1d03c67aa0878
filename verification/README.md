# construct_engine

The decision core of the Construct messenger engine, verified with Verus.

- `src/` is the library. It computes on plain values: gRPC frames, HTTP requests, unary calls and
  the message stream as state machines, what the engine does about each event and reply,
  reconnecting, STUN messages, ICE candidate order, peer-to-peer connections and handoffs.
- `tests/` runs the library on concrete values.
- `app/` drives the library over QUIC, HTTP/3, UDP sockets and timers, and holds the connectivity
  probe. An embedder supplies the protobuf codec and the crypto core.

What the library takes on trust about other crates and the standard library stands in
`src/buffers.rs`, `src/http_types.rs`, `src/clock.rs` and at the top of `src/p2p/quic_p2p.rs`.
