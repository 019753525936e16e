//! Identities of nodes.
use crate::addr::SocketAddr;
use crate::error::RoutingError;
use crate::xor_space::XorName;
use vstd::prelude::*;

verus! {

/// Signature of a node.
#[derive(Clone, Copy, Debug, PartialEq, Eq)]
pub struct Signature(pub [u8; 64]);

/// Public part of a node's identity.
#[derive(Clone, Copy, Debug, PartialEq, Eq)]
pub struct PublicId {
    pub name: XorName,
    pub public_key: [u8; 32],
}

impl PublicId {
    /// Name of the node.
    pub fn name(&self) -> (name: &XorName)
        ensures
            *name == self.name,
    {
        &self.name
    }
}

/// Whole identity of a node, with the key that it signs with.
#[derive(Clone)]
pub struct FullId {
    pub public_id: PublicId,
    pub secret_key: [u8; 32],
}

impl FullId {
    /// Public part of the identity.
    pub fn public_id(&self) -> (public_id: &PublicId)
        ensures
            *public_id == self.public_id,
    {
        &self.public_id
    }
}

/// Node together with the endpoint on which it is reached.
#[derive(Clone, Copy, Debug, PartialEq, Eq)]
pub struct P2pNode {
    pub public_id: PublicId,
    pub peer_addr: SocketAddr,
}

impl P2pNode {
    /// Node with the given identity and endpoint.
    pub fn new(public_id: PublicId, peer_addr: SocketAddr) -> (node: P2pNode)
        ensures
            node.public_id == public_id,
            node.peer_addr == peer_addr,
    {
        P2pNode { public_id, peer_addr }
    }

    /// Endpoint of the node.
    pub fn peer_addr(&self) -> (peer_addr: &SocketAddr)
        ensures
            *peer_addr == self.peer_addr,
    {
        &self.peer_addr
    }
}

/// Signature of the public part of an identity.
#[derive(Clone, Copy, Debug, PartialEq, Eq)]
pub struct IdSignature {
    /// Identity that the signature was made with.
    pub signer: PublicId,
    /// Identity that was signed.
    pub signed: PublicId,
    pub signature: Signature,
}

impl IdSignature {
    /// Whether `new_id` was signed with the identity `old_id`.
    pub open spec fn is_of(self, new_id: PublicId, old_id: PublicId) -> bool {
        self.signed == new_id && self.signer == old_id
    }
}

/// What has to be made with key material before an event can be handled.
#[derive(Clone, Copy, Debug, PartialEq, Eq)]
pub struct Wanted {
    /// Smallest and largest name that a newly generated identity may have, if one is wanted.
    pub id_range: Option<(XorName, XorName)>,
    /// Whether a signature is wanted. [`to_sign`] tells what is to be signed.
    pub signature: bool,
}

/// What was made with key material for the handling of an event.
pub struct Provided {
    /// Newly generated identity.
    pub full_id: Option<FullId>,
    /// Outcome of signing the identity held from now on with the one held before.
    pub signature: Option<Result<IdSignature, RoutingError>>,
}

impl Provided {
    /// Whether everything that is wanted of the holder of `held` was made: an identity, if `id`,
    /// and a signature of the identity that is held from now on, if `signature`.
    pub open spec fn meets(self, held: PublicId, id: bool, signature: bool) -> bool {
        &&& id ==> self.full_id is Some
        &&& signature ==> self.signature is Some
        &&& signature ==> (self.signature->0 matches Ok(made) ==> made.is_of(
            if id {
                self.full_id->0.public_id
            } else {
                held
            },
            held,
        ))
    }

    /// Nothing was made.
    pub fn nothing() -> (provided: Provided)
        ensures
            provided.full_id is None,
            provided.signature is None,
    {
        Provided { full_id: None, signature: None }
    }
}

/// Identity to sign with, and identity to sign: the one that is held so far, and the one that is
/// held from now on, which is the new one if there is one.
pub open spec fn ids_to_sign(held: PublicId, new_id: Option<FullId>) -> (PublicId, PublicId) {
    (
        held,
        match new_id {
            Some(full_id) => full_id.public_id,
            None => held,
        },
    )
}

/// Identity to sign with, and identity to sign, where a signature is wanted. `new_id` is the newly
/// generated identity, if one is wanted.
pub fn to_sign(held: &FullId, new_id: &Option<FullId>) -> (ids: (PublicId, PublicId))
    ensures
        ids == ids_to_sign(held.public_id, *new_id),
{
    let signed: PublicId = match new_id {
        Some(full_id) => *full_id.public_id(),
        None => *held.public_id(),
    };
    (*held.public_id(), signed)
}

} // verus!
