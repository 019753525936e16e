//! The stage in which a node asks a section to take it in.
use crate::chain::{EldersInfo, SectionKeyInfo};
use crate::common::{Action, Core, CoreState};
use crate::error::RoutingError;
use crate::id::P2pNode;
use crate::messages::{BootstrapResponse, JoinRequest, Message, Variant, VerifyStatus};
use crate::relocation::RelocatePayload;
use crate::xor_space::Prefix;
use vstd::pervasive::unreached;
use vstd::prelude::*;

verus! {

/// Number of seconds after which an attempt at joining a section is cancelled, and possibly
/// retried.
pub const JOIN_TIMEOUT: u64 = 600;

/// Why a node joins a section.
#[derive(Debug)]
pub enum JoinType {
    /// The node joins the network for the first time.
    First { timeout_token: u64 },
    /// The node is being relocated.
    Relocate(RelocatePayload),
}

/// Stage in which a node asks a section to take it in.
#[derive(Debug)]
pub struct JoiningStage {
    /// Elders of the section.
    pub elders_info: EldersInfo,
    pub join_type: JoinType,
}

/// Outcome of a check that a message is signed by a trusted key.
pub open spec fn fully_verified(checked: Result<VerifyStatus, RoutingError>) -> Result<
    bool,
    RoutingError,
> {
    match checked {
        Ok(VerifyStatus::Full) => Ok(true),
        Ok(VerifyStatus::Unknown) => Err(RoutingError::UntrustedMessage),
        Err(error) => Err(error),
    }
}

impl JoiningStage {
    /// Request that the node sends to the elders.
    pub open spec fn join_request(self) -> JoinRequest {
        JoinRequest {
            elders_version: self.elders_info.version,
            relocate_payload: match self.join_type {
                JoinType::First { .. } => None,
                JoinType::Relocate(payload) => Some(payload),
            },
        }
    }

    /// The state after the request was sent to every elder in turn.
    pub open spec fn requests_sent(self, core: CoreState) -> CoreState {
        CoreState {
            actions: core.actions + self.elders_info.members@.map_values(
                |elder: P2pNode|
                    Action::SendDirectMessage {
                        src: core.full_id.public_id,
                        dst: elder.peer_addr,
                        variant: Variant::JoinRequest(Box::new(self.join_request())),
                    },
            ),
            ..core
        }
    }

    /// Whether `token` is the one by which the attempt at joining times out.
    pub open spec fn times_out_by(self, token: u64) -> bool {
        match self.join_type {
            JoinType::First { timeout_token } => timeout_token == token,
            JoinType::Relocate(_) => false,
        }
    }

    /// Whether `response` names later elders than the known ones, of a section that the node's
    /// name lies in.
    pub open spec fn is_superseded_by(self, response: BootstrapResponse, core: CoreState) -> bool {
        match response {
            BootstrapResponse::Join(elders_info) => self.elders_info.version < elders_info.version
                && elders_info.prefix.covers(core.name()),
            BootstrapResponse::Rebootstrap(_) => false,
        }
    }

    /// Whether a message is of a kind that this stage acts on.
    pub open spec fn acts_on(variant: Variant) -> bool {
        match variant {
            Variant::NodeApproval(_) | Variant::Bounce { .. } => true,
            Variant::BootstrapResponse(response) => response is Join,
            _ => false,
        }
    }

    /// Keys that a message is to be checked against, or nothing if it is taken without a check.
    pub open spec fn checking_keys(self, variant: Variant) -> Option<
        Seq<(Prefix, SectionKeyInfo)>,
    > {
        match (variant, self.join_type) {
            (Variant::NodeApproval(_), JoinType::First { .. }) => None,
            (Variant::NodeApproval(_), JoinType::Relocate(payload)) => {
                let key_info = payload.details.content.destination_key_info;
                Some(seq![(key_info.prefix, key_info)])
            },
            _ => Some(Seq::empty()),
        }
    }

    /// Whether `token` is the one by which the attempt at joining times out.
    pub fn is_timeout(&self, token: u64) -> (timeout: bool)
        ensures
            timeout == self.times_out_by(token),
    {
        match self.join_type {
            JoinType::First { timeout_token } => timeout_token == token,
            JoinType::Relocate(_) => false,
        }
    }

    /// Handles a timeout: if it is the one of the attempt at joining, closes the connections to
    /// the elders. Returns whether the joining failed and the node needs to bootstrap again.
    pub fn handle_timeout(&mut self, core: &mut Core, token: u64) -> (failed: bool)
        ensures
            *final(self) == *old(self),
            failed == old(self).times_out_by(token),
            failed ==> final(core)@ == old(core)@.disconnected(
                old(self).elders_info.members@.map_values(|elder: P2pNode| elder.peer_addr),
            ),
            !failed ==> final(core)@ == old(core)@,
    {
        let join_token: u64 = match self.join_type {
            JoinType::First { timeout_token } => timeout_token,
            JoinType::Relocate(_) => return false,
        };
        if join_token == token {
            let members: &Vec<P2pNode> = self.elders_info.member_nodes();
            let ghost addrs = members@.map_values(|elder: P2pNode| elder.peer_addr);
            let mut i: usize = 0;
            assert(core@ =~= old(core)@.disconnected(addrs.take(0)));
            while i < members.len()
                invariant
                    i <= members.len(),
                    addrs == members@.map_values(|elder: P2pNode| elder.peer_addr),
                    core@ == old(core)@.disconnected(addrs.take(i as int)),
                decreases members.len() - i,
            {
                core.disconnect(*members[i].peer_addr());
                assert(addrs.take(i + 1) =~= addrs.take(i as int).push(addrs[i as int]));
                assert(core@ =~= old(core)@.disconnected(addrs.take(i + 1)));
                i = i + 1;
            }
            assert(addrs.take(members.len() as int) =~= addrs);
            true
        } else {
            false
        }
    }

    /// Handles an answer to a request to bootstrap that comes while the node is already joining:
    /// if it names later elders of the section that the node's name lies in, asks these to join.
    pub fn handle_bootstrap_response(
        &mut self,
        core: &mut Core,
        _sender: P2pNode,
        response: BootstrapResponse,
    ) -> (res: Result<(), RoutingError>)
        requires
            response is Join,
        ensures
            res == Ok::<(), RoutingError>(()),
            old(self).is_superseded_by(response, old(core)@) ==> {
                &&& final(self).elders_info == response->Join_0
                &&& final(self).join_type == old(self).join_type
                &&& final(core)@ == final(self).requests_sent(old(core)@)
            },
            !old(self).is_superseded_by(response, old(core)@) ==> *final(self) == *old(self)
                && final(core)@ == old(core)@,
    {
        let new_elders_info: EldersInfo = match response {
            BootstrapResponse::Join(elders_info) => elders_info,
            BootstrapResponse::Rebootstrap(_) => unreached(),
        };
        if new_elders_info.version() <= self.elders_info.version() {
            return Ok(());
        }
        if new_elders_info.prefix().matches(core.name()) {
            self.elders_info = new_elders_info;
            self.send_join_requests(core);
        }
        Ok(())
    }

    /// Asks every elder to let the node join.
    pub fn send_join_requests(&self, core: &mut Core)
        ensures
            final(core)@ == self.requests_sent(old(core)@),
    {
        let members: &Vec<P2pNode> = self.elders_info.member_nodes();
        let ghost requests = members@.map_values(
            |elder: P2pNode|
                Action::SendDirectMessage {
                    src: old(core)@.full_id.public_id,
                    dst: elder.peer_addr,
                    variant: Variant::JoinRequest(Box::new(self.join_request())),
                },
        );
        let mut i: usize = 0;
        while i < members.len()
            invariant
                i <= members.len(),
                *members == self.elders_info.members,
                requests == members@.map_values(
                    |elder: P2pNode|
                        Action::SendDirectMessage {
                            src: old(core)@.full_id.public_id,
                            dst: elder.peer_addr,
                            variant: Variant::JoinRequest(Box::new(self.join_request())),
                        },
                ),
                core@ == (CoreState {
                    actions: old(core)@.actions + requests.take(i as int),
                    ..old(core)@
                }),
            decreases members.len() - i,
        {
            let relocate_payload: Option<RelocatePayload> = match &self.join_type {
                JoinType::First { .. } => None,
                JoinType::Relocate(payload) => Some(payload.clone()),
            };
            let join_request = JoinRequest {
                elders_version: self.elders_info.version(),
                relocate_payload,
            };
            let variant = Variant::JoinRequest(Box::new(join_request));
            core.send_direct_message(members[i].peer_addr(), variant);
            assert(requests.take(i + 1) =~= requests.take(i as int).push(requests[i as int]));
            assert(core@ =~= (CoreState {
                actions: old(core)@.actions + requests.take(i + 1),
                ..old(core)@
            }));
            i = i + 1;
        }
        assert(requests.take(members.len() as int) =~= requests);
    }

    /// Keys that the signatures of a message are to be traced to, or nothing if the message is
    /// taken without a check.
    pub fn keys_to_check(&self, msg: &Message) -> (keys: Option<Vec<(Prefix, SectionKeyInfo)>>)
        ensures
            keys is Some == self.checking_keys(msg.variant) is Some,
            keys is Some ==> keys->0@ == self.checking_keys(msg.variant)->0,
    {
        match (&msg.variant, &self.join_type) {
            (Variant::NodeApproval(_), JoinType::First { .. }) => None,
            (Variant::NodeApproval(_), JoinType::Relocate(payload)) => Some(
                as_iter(Some(&payload.relocate_details().destination_key_info)),
            ),
            _ => Some(as_iter(None)),
        }
    }

    /// Decides whether a message may be handled. `checked` is the outcome of tracing its
    /// signatures to [`JoiningStage::keys_to_check`], where there are such keys.
    ///
    /// A node that joins for the first time has no trusted key to verify its approval with, but
    /// still needs to handle it.
    pub fn verify_message(
        &self,
        msg: &Message,
        checked: Option<Result<VerifyStatus, RoutingError>>,
    ) -> (res: Result<bool, RoutingError>)
        requires
            JoiningStage::acts_on(msg.variant),
            self.checking_keys(msg.variant) is Some ==> checked is Some,
        ensures
            self.checking_keys(msg.variant) is None ==> res == Ok::<bool, RoutingError>(true),
            self.checking_keys(msg.variant) is Some ==> res == fully_verified(checked->0),
    {
        match (&msg.variant, &self.join_type, checked) {
            (Variant::NodeApproval(_), JoinType::First { .. }, _) => Ok(true),
            (_, _, Some(checked)) => verify_message_full(checked),
            (_, _, None) => unreached(),
        }
    }
}

/// The key with its prefix, if there is a key.
pub fn as_iter(key_info: Option<&SectionKeyInfo>) -> (keys: Vec<(Prefix, SectionKeyInfo)>)
    ensures
        keys@ == (match key_info {
            Some(key_info) => seq![(key_info.prefix, *key_info)],
            None => Seq::empty(),
        }),
{
    let mut keys: Vec<(Prefix, SectionKeyInfo)> = Vec::new();
    if let Some(key_info) = key_info {
        keys.push((*key_info.prefix(), *key_info));
    }
    keys
}

/// Accepts a message only if its signatures were traced to a trusted key.
pub fn verify_message_full(checked: Result<VerifyStatus, RoutingError>) -> (res: Result<
    bool,
    RoutingError,
>)
    ensures
        res == fully_verified(checked),
{
    let status: VerifyStatus = match checked {
        Ok(status) => status,
        Err(error) => return Err(error),
    };
    match status.require_full() {
        Ok(()) => Ok(true),
        Err(error) => Err(error),
    }
}

} // verus!
