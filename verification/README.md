# fibers_http_server

A small HTTP/1.x server whose decisions are verified with Verus.

- `src/` is the verified library. It does no I/O: `Server` and `Connection` are state machines that
  are told what has happened and answer with what is to be done next.
  - `server.rs`: `ServerBuilder`, `Server` and its socket.
  - `connection.rs`: the phases of a connection, from the head of a request to its response.
  - `decoder.rs`, `request.rs`: request heads and their URLs, by way of `httpcodec` and `url`.
  - `dispatcher.rs`: which handler takes a request.
  - `metrics.rs`, `options.rs`, `phase.rs`, `status.rs`: the small types that these share.
  - `laws.rs`: what holds across calls, such as that a request that has failed is answered, and that
    its connection is closed after that.
- `app/` runs the library on tokio's sockets: it polls, reads and writes, makes handlers, and exports
  the metrics.
- `tests/` runs the library with the outside crates linked.
