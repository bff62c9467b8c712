//! Client-side protocol for a service-discovery and liveness subsystem.
//!
//! A newly started service instance proves protocol compatibility with a
//! central registry (version negotiation), registers itself to receive an
//! identity, and then periodically reports liveness. The protocol decisions
//! live here as verified logic; the RPC transport that carries them is the
//! caller's concern.

use vstd::prelude::*;

pub mod heartbeat;
pub mod registration;
pub mod version;

verus! {

/// The error taxonomy of the client protocol, one variant per failure class.
#[derive(Clone, Copy, Debug, PartialEq, Eq, Structural)]
pub enum ProtocolError {
    /// Transport-level failure establishing or using the channel.
    Connect,
    /// Local and remote protocol versions differ; terminal and
    /// non-retryable: the two ends can never become compatible without a
    /// redeploy.
    VersionMismatch,
    /// The registry rejected the registration payload.
    Registration,
}

} // verus!
