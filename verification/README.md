# rats_rs: RA-TLS transport over tokio-rustls, verified with Verus

A TLS transport whose certificates carry TEE remote-attestation evidence.

- `src/` is the verified library (Verus): the client and server builders and the
  configuration plan that a build carries out, the life cycle of the negotiated
  stream (`session.rs`, with its laws), and the verdict on a peer's attested
  certificate (`verify.rs`). Outside types (tokio, tokio-rustls, indexmap) are
  declared in `streams.rs` and `claims.rs`.
- `app/` is ordinary async Rust around it: certificate generation and checking
  through the certificate layer (`CertLayer`), the rustls configuration, the
  certificate verifier objects, and the handshakes, sends and receives.
- `tests/` exercise the library from outside.
