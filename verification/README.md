# http_conn

The state machine of an HTTP/1 connection in a readiness-based event loop,
verified with Verus.

- `src/next.rs`: what a message handler answers, and what the event loop is
  told because of it.
- `src/state.rs`: the state of a connection, and how an answer moves it on.
- `src/message.rs`, `src/handler.rs`: what a kind of message, a handler and a
  factory of handlers supply.
- `src/buffer.rs`: bytes that were read ahead.
- `src/events.rs`: the event sets of `rotor`.
- `src/conn.rs`, `src/conn/turn.rs`: the connection, and one turn of it in the
  event loop.
- `src/laws.rs`: what holds of connections as a whole.
- `app/`: the reads, writes and registrations around a turn.
- `tests/`: the library run on concrete messages.
