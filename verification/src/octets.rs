//! Encoded messages, held in shared byte buffers.
use bytes::Bytes;
use vstd::prelude::*;

verus! {

/// `bytes::Bytes`: an immutable buffer that is passed along without being looked into. Two values
/// are the same if they hold the same octets.
#[verifier::external_type_specification]
#[verifier::external_body]
pub struct ExBytes(Bytes);

/// `Clone::clone` of `bytes::Bytes`: a second handle of the same octets, so the copy is the value
/// that was copied.
pub assume_specification[ <Bytes as Clone>::clone ](bytes: &Bytes) -> (copy: Bytes)
    ensures
        copy == *bytes,
;

} // verus!
