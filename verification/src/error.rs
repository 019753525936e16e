//! Errors of the routing layer.
use vstd::prelude::*;

verus! {

/// What can go wrong while a message is handled.
#[derive(Clone, Copy, Debug, PartialEq, Eq, Structural)]
pub enum RoutingError {
    /// The source or the destination of a message is of the wrong kind.
    BadLocation,
    /// A message came without a connection that it could be answered on.
    InvalidSource,
    /// A signature does not belong to what it is said to sign.
    FailedSignature,
    /// A message is not signed by any key that is trusted.
    UntrustedMessage,
    /// A value could not be encoded or decoded.
    Serialisation,
}

} // verus!
