//! States of a node and the moves between them.
use crate::chain::{GenesisPfxInfo, NetworkParams};
use crate::common::{Action, MessageFilter, Timer};
use crate::event::Connected;
use crate::id::{FullId, PublicId};
use crate::joining_peer::JoiningPeer;
use crate::messages::MessageWithBytes;
use bytes::Bytes;
use vstd::prelude::*;

verus! {

/// What becomes of the state of a node after an event was handled.
#[derive(Clone, Debug, PartialEq, Eq)]
pub enum Transition {
    /// It stays as it is.
    Stay,
    /// The node becomes a member of a section.
    Approve { gen_pfx_info: GenesisPfxInfo },
    /// The node stops.
    Terminate,
}

/// What the chain of a new member is made with, besides the state of the section.
pub struct ChainSeed {
    pub network_cfg: NetworkParams,
    pub our_id: PublicId,
    /// Share of the section's secret key.
    pub secret_key_share: Option<[u8; 32]>,
}

/// What a node takes along when it becomes a member of a section. Its chain, made with `chain`, and
/// its consensus protocol, started with `full_id`, both begin with `gen_pfx_info`.
pub struct ElderDetails {
    pub chain: ChainSeed,
    pub full_id: FullId,
    /// State of the section that the node starts from.
    pub gen_pfx_info: GenesisPfxInfo,
    /// Messages that wait to be handled.
    pub msg_queue: Vec<MessageWithBytes>,
    /// Shares of signatures of the section that are not complete yet, encoded.
    pub sig_accumulator: Vec<Bytes>,
    pub msg_filter: MessageFilter,
    pub timer: Timer,
    /// What was asked of the network and of the clock and is not yet carried out.
    pub actions: Vec<Action>,
}

impl ElderDetails {
    /// What the chain is made with.
    pub fn chain_init(&self) -> (args: (
        &NetworkParams,
        &PublicId,
        &GenesisPfxInfo,
        &Option<[u8; 32]>,
    ))
        ensures
            *args.0 == self.chain.network_cfg,
            *args.1 == self.chain.our_id,
            *args.2 == self.gen_pfx_info,
            *args.3 == self.chain.secret_key_share,
    {
        let chain: &ChainSeed = &self.chain;
        (&chain.network_cfg, &chain.our_id, &self.gen_pfx_info, &chain.secret_key_share)
    }

    /// What the consensus protocol is started with.
    pub fn parsec_init(&self) -> (args: (&FullId, &GenesisPfxInfo))
        ensures
            *args.0 == self.full_id,
            *args.1 == self.gen_pfx_info,
    {
        (&self.full_id, &self.gen_pfx_info)
    }
}

/// Node that a section has approved as a member.
pub struct ApprovedPeer {
    pub details: ElderDetails,
    pub connect_type: Connected,
}

/// State of a node.
pub enum State {
    JoiningPeer(JoiningPeer),
    ApprovedPeer(ApprovedPeer),
}

} // verus!
