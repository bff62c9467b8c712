//! Version negotiation: exact-match comparison of protocol version strings.

use vstd::prelude::*;
use crate::ProtocolError;

verus! {

/// The responder half of version negotiation. It holds the local protocol
/// version — an opaque, exact-match comparable string token fixed for the
/// lifetime of the process — and answers peers' validation requests.
pub struct VersionServiceProvider {
    /// The local protocol version, never mutated after construction.
    pub version: String,
}

impl VersionServiceProvider {
    /// Build a responder for the given local protocol version.
    pub fn new(version: String) -> (p: Self)
        ensures
            p.version@ == version@,
    {
        VersionServiceProvider { version }
    }

    /// Compare an incoming version string to the local one by exact
    /// equality. On match, succeed carrying the local version echoed back;
    /// on mismatch, fail with the version-mismatch condition and nothing
    /// else. Stateless and free of side effects.
    pub fn validate(&self, remote: &String) -> (r: Result<String, ProtocolError>)
        ensures
            remote@ == self.version@ ==> (r matches Ok(v) && v@ == self.version@),
            remote@ != self.version@ ==> (r matches Err(e) && e == ProtocolError::VersionMismatch),
    {
        if *remote == self.version {
            Ok(self.version.clone())
        } else {
            Err(ProtocolError::VersionMismatch)
        }
    }
}

} // verus!
