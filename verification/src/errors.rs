//! Error taxonomy of the lending layer.

use vstd::prelude::*;

verus! {

/// Rejection of the pool configuration at construction time; fatal to
/// initialization, the middleware is never reached.
#[derive(Clone, Copy, Debug, PartialEq, Eq, Structural)]
pub enum ConfigError {
    /// The connection URI does not have a recognized scheme followed by an
    /// authority part.
    MalformedUri,
    /// The requested maximum pool size admits no connection at all.
    InvalidPoolSize,
}

/// Failure to check a connection out of the pool: every connection is
/// currently lent out. Never retried internally; retry policy belongs to
/// the caller.
#[derive(Clone, Copy, Debug, PartialEq, Eq, Structural)]
pub enum AcquisitionError {
    Exhausted,
}

/// Failure of a request accessor.
#[derive(Clone, Copy, Debug, PartialEq, Eq, Structural)]
pub enum AccessError {
    /// The accessor ran before the lending middleware attached anything to
    /// the request, or the attachment has the wrong shape for this
    /// accessor. A programming defect: the embedding application should
    /// abort the request rather than recover.
    PreconditionViolation,
    /// The attachment is in place but the pool could not supply a
    /// connection.
    Acquisition(AcquisitionError),
}

} // verus!
