//! Orders to move to another section.
use crate::chain::SectionKeyInfo;
use crate::id::{IdSignature, PublicId};
use crate::xor_space::XorName;
use bytes::Bytes;
use vstd::prelude::*;

verus! {

/// Where a node is to be relocated.
#[derive(Clone, Copy, Debug, PartialEq, Eq)]
pub struct RelocateDetails {
    /// Node to relocate.
    pub pub_id: PublicId,
    /// Name that the node is to come close to.
    pub destination: XorName,
    /// Key of the section that holds the destination.
    pub destination_key_info: SectionKeyInfo,
    /// Age of the node after the relocation.
    pub age: u8,
}

/// Details of a relocation with the message of the old section that proves them.
#[derive(Debug, PartialEq, Eq)]
pub struct SignedRelocateDetails {
    pub content: RelocateDetails,
    /// Message that carried the details, encoded.
    pub signed_msg: Bytes,
}

impl SignedRelocateDetails {
    /// Details of the relocation.
    pub fn relocate_details(&self) -> (details: &RelocateDetails)
        ensures
            *details == self.content,
    {
        &self.content
    }

    /// Name that the node is to come close to.
    pub fn destination(&self) -> (destination: &XorName)
        ensures
            *destination == self.content.destination,
    {
        &self.content.destination
    }
}

impl Clone for SignedRelocateDetails {
    fn clone(&self) -> (copy: SignedRelocateDetails)
        ensures
            copy == *self,
    {
        SignedRelocateDetails { content: self.content, signed_msg: self.signed_msg.clone() }
    }
}

/// What a relocated node shows to its new section.
#[derive(Debug, PartialEq, Eq)]
pub struct RelocatePayload {
    pub details: SignedRelocateDetails,
    /// Signature of the new identity of the node, made with its old one.
    pub signature_of_new_id_with_old_id: IdSignature,
}

impl RelocatePayload {
    /// Payload that shows that the node `new_id` is the node `old_id` that was relocated.
    pub fn new(
        details: SignedRelocateDetails,
        new_id: &PublicId,
        old_id: &PublicId,
        signature: IdSignature,
    ) -> (payload: RelocatePayload)
        requires
            signature.is_of(*new_id, *old_id),
        ensures
            payload.details == details,
            payload.signature_of_new_id_with_old_id == signature,
            payload.signature_of_new_id_with_old_id.is_of(*new_id, *old_id),
    {
        RelocatePayload { details, signature_of_new_id_with_old_id: signature }
    }

    /// Details of the relocation.
    pub fn relocate_details(&self) -> (details: &RelocateDetails)
        ensures
            *details == self.details.content,
    {
        self.details.relocate_details()
    }
}

impl Clone for RelocatePayload {
    fn clone(&self) -> (copy: RelocatePayload)
        ensures
            copy == *self,
    {
        RelocatePayload {
            details: self.details.clone(),
            signature_of_new_id_with_old_id: self.signature_of_new_id_with_old_id,
        }
    }
}

} // verus!
