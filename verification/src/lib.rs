//! A transport layer for TEE remote attestation over TLS (RA-TLS), built on
//! tokio-rustls.
//!
//! Attestation evidence travels in the TLS certificates and is checked during the
//! handshake. This crate states and proves the logic of the layer:
//!
//! - `client` and `server`: the builders, the configuration plan that a build carries
//!   out, and the client and server that hold the negotiated stream;
//! - `session`: the life cycle of a negotiated stream (held whole, split for
//!   send/receive, or taken out for HTTP/gRPC use) and its laws;
//! - `verify`: the verdict on a peer's attested certificate;
//! - `claims`, `streams`, `errors`: the claims map, the stream types, the error kinds.

pub mod claims;
pub mod client;
pub mod errors;
pub mod server;
pub mod session;
pub mod streams;
pub mod verify;
