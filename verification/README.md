# wreq_tls

The decisions of a TLS client connector, verified with Verus.

- `src/` is the library. `context` decides which calls set up a TLS context,
  `connect` which calls set up one connection; both hand the calls out one after
  the other (`queue`). `sessions` states which sessions connections resume.
  `capture` keeps what is wanted of a handshake, `tls_info` reports on a session,
  `stream` on a connection, `error` on a failure. `config`, `options`, `alpn` and
  `host` hold what these are decided from, and `shared` the buffers of the `bytes`
  crate.
- `app/` makes the calls with BoringSSL.
- `tests/` runs the library on concrete values.

Proof functions whose names start with `law_` state what holds of the library as
a whole.
