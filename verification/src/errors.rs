//! The protocol's error taxonomy.

use vstd::prelude::*;

verus! {

/// Why a protocol operation failed. Every failure mode of a connection maps
/// to exactly one variant, which in turn selects a close code or a
/// user-facing message.
///
/// - `IoError`: an operating-system or transport I/O failure. The shell that
///   performs the I/O keeps the underlying cause; the protocol core needs
///   only the classification.
/// - `ConnectionError`: a transport-level connect, accept or stream failure
///   not classified as I/O.
/// - `InvalidStream`: a protocol violation — an unknown discriminator, a
///   duplicate stream role, or a broken event-id monotonicity invariant.
/// - `Timeout`: a deadline expired on handshake or channel I/O.
#[derive(Clone, Copy, Debug, PartialEq, Eq, Structural)]
pub enum ProtonError {
    IoError,
    ConnectionError,
    InvalidStream,
    Timeout,
}

impl ProtonError {
    /// The human-readable description of this error.
    pub fn message(&self) -> (r: &'static str)
        ensures
            *self == ProtonError::IoError ==> r@ == "IO error"@,
            *self == ProtonError::ConnectionError ==> r@ == "Connection error"@,
            *self == ProtonError::InvalidStream ==> r@ == "Invalid stream"@,
            *self == ProtonError::Timeout ==> r@ == "Operation timed out"@,
    {
        match self {
            ProtonError::IoError => "IO error",
            ProtonError::ConnectionError => "Connection error",
            ProtonError::InvalidStream => "Invalid stream",
            ProtonError::Timeout => "Operation timed out",
        }
    }
}

} // verus!
