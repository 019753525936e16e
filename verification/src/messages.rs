//! Messages between nodes.
use crate::addr::SocketAddr;
use crate::chain::{EldersInfo, GenesisPfxInfo};
use crate::error::RoutingError;
use crate::id::{P2pNode, PublicId, Signature};
use crate::location::DstLocation;
use crate::relocation::RelocatePayload;
use crate::xor_space::{Prefix, XorName};
use bytes::Bytes;
use vstd::prelude::*;

verus! {

/// Answer to a request to bootstrap.
#[derive(Clone, Debug, PartialEq, Eq)]
pub enum BootstrapResponse {
    /// Join the section of these elders.
    Join(EldersInfo),
    /// Bootstrap again, from these endpoints.
    Rebootstrap(Vec<SocketAddr>),
}

/// Request to join a section.
#[derive(Clone, Debug, PartialEq, Eq)]
pub struct JoinRequest {
    /// Version of the elders that the sender knows.
    pub elders_version: u64,
    /// Proof of the relocation, if the sender is being relocated.
    pub relocate_payload: Option<RelocatePayload>,
}

/// Content of a message. What is not read while joining is kept encoded.
#[derive(Clone, Debug, PartialEq, Eq)]
pub enum Variant {
    /// Elders of a neighbouring section.
    NeighbourInfo(Bytes),
    /// Message of the application.
    UserMessage(Bytes),
    /// Approval of the recipient as a member of the section.
    NodeApproval(Box<GenesisPfxInfo>),
    /// Acknowledgement of a message between sections.
    AckMessage { body: Bytes },
    /// New genesis information for the members of the section.
    GenesisUpdate(Bytes),
    /// Order to relocate.
    Relocate(Bytes),
    /// Share of a section's signature.
    MessageSignature(Bytes),
    /// Request to bootstrap towards the given name.
    BootstrapRequest(XorName),
    /// Answer to a request to bootstrap.
    BootstrapResponse(BootstrapResponse),
    /// Request to join the section.
    JoinRequest(Box<JoinRequest>),
    /// What a member knows of its section.
    MemberKnowledge { body: Bytes },
    /// Request of the consensus protocol, with its version.
    ParsecRequest(u64, Bytes),
    /// Response of the consensus protocol, with its version.
    ParsecResponse(u64, Bytes),
    /// Sign of life.
    Ping,
    /// Message that the sender of the bounce could not handle, encoded, for the recipient to send
    /// again.
    Bounce { elders_version: Option<u64>, message: Bytes },
}

/// Who vouches for a message.
#[derive(Clone, Debug, PartialEq, Eq)]
pub enum SrcAuthority {
    /// A single node.
    Node { public_id: PublicId, signature: Signature },
    /// A section, with the chain of keys that leads to the one that signed.
    Section { prefix: Prefix, proof_chain: Bytes },
}

impl SrcAuthority {
    /// Node that sent the message over the connection `sender`, if there is one.
    pub open spec fn sender_node(self, sender: Option<SocketAddr>) -> Result<
        P2pNode,
        RoutingError,
    > {
        match (self, sender) {
            (SrcAuthority::Section { .. }, _) => Err(RoutingError::BadLocation),
            (SrcAuthority::Node { .. }, None) => Err(RoutingError::InvalidSource),
            (SrcAuthority::Node { public_id, .. }, Some(peer_addr)) => Ok(
                P2pNode { public_id, peer_addr },
            ),
        }
    }

    /// Prefix of the section, if the source is a section.
    pub fn as_section(&self) -> (res: Result<&Prefix, RoutingError>)
        ensures
            res == (match *self {
                SrcAuthority::Section { prefix, .. } => Ok::<&Prefix, RoutingError>(&prefix),
                SrcAuthority::Node { .. } => Err(RoutingError::BadLocation),
            }),
    {
        match self {
            SrcAuthority::Section { prefix, .. } => Ok(prefix),
            SrcAuthority::Node { .. } => Err(RoutingError::BadLocation),
        }
    }

    /// Node that sent the message over the connection `sender`, if there is one.
    pub fn to_sender_node(&self, sender: Option<SocketAddr>) -> (res: Result<P2pNode, RoutingError>)
        ensures
            res == self.sender_node(sender),
    {
        match self {
            SrcAuthority::Section { .. } => Err(RoutingError::BadLocation),
            SrcAuthority::Node { public_id, .. } => match sender {
                None => Err(RoutingError::InvalidSource),
                Some(peer_addr) => Ok(P2pNode::new(*public_id, peer_addr)),
            },
        }
    }
}

/// Message between nodes.
#[derive(Clone, Debug, PartialEq, Eq)]
pub struct Message {
    pub src: SrcAuthority,
    pub dst: DstLocation,
    pub variant: Variant,
}

/// Message in its encoded form.
#[derive(Clone, Debug, PartialEq, Eq)]
pub struct MessageWithBytes {
    pub full_bytes: Bytes,
}

impl MessageWithBytes {
    /// The whole message, encoded.
    pub fn full_bytes(&self) -> (full_bytes: &Bytes)
        ensures
            *full_bytes == self.full_bytes,
    {
        &self.full_bytes
    }
}

/// How far the signatures of a message could be traced.
#[derive(Clone, Copy, Debug, PartialEq, Eq, Structural)]
pub enum VerifyStatus {
    /// To a key that is trusted.
    Full,
    /// To no key that is known.
    Unknown,
}

impl VerifyStatus {
    /// Turns everything short of a trusted key into an error.
    pub fn require_full(self) -> (res: Result<(), RoutingError>)
        ensures
            self == VerifyStatus::Full ==> res == Ok::<(), RoutingError>(()),
            self == VerifyStatus::Unknown ==> res == Err::<(), RoutingError>(
                RoutingError::UntrustedMessage,
            ),
    {
        match self {
            VerifyStatus::Full => Ok(()),
            VerifyStatus::Unknown => Err(RoutingError::UntrustedMessage),
        }
    }
}

} // verus!
