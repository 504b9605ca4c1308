use vstd::prelude::*;

verus! {

/// Why a transport operation on an attested TLS session was refused.
#[derive(Debug, Clone, Copy, PartialEq, Eq, Structural)]
pub enum ErrorKind {
    /// The stream has been split into a reader and a writer for `send`/`receive`,
    /// so it can no longer be handed out whole.
    TransportStreamAlreadySplit,
    /// No stream is held: negotiation has not happened, or the stream was taken.
    TransportStreamNotAvailable,
}

} // verus!
