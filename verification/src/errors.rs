//! Error taxonomy for capture sessions.
//!
//! Setup failures (port discovery, connect, handshake, authentication, tunnel
//! open) are surfaced to the caller as typed values and never retried by the
//! core. Within a capture loop, a would-block condition is not an error; any
//! hard transport error stops that loop at once, and the log gathered so far
//! is kept rather than discarded.

use vstd::prelude::*;

verus! {

/// A typed failure of capture setup or of a running capture loop.
#[derive(Clone, Copy, Debug, PartialEq, Eq, Structural)]
pub enum CaptureError {
    /// No port in the scanned range could be bound.
    PortUnavailable,
    /// The transport endpoint could not be reached.
    ConnectError,
    /// Protocol negotiation with the remote side failed.
    HandshakeError,
    /// The remote side rejected the offered credentials.
    AuthError,
    /// The remote side refused to open a forwarding channel.
    TunnelError,
    /// A read or accept on the transport failed with a hard error.
    TransportReadError,
    /// A write or close operation on the transport failed.
    TransportWriteError,
}

} // verus!
