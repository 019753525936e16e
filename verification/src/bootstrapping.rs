//! The stage in which a node looks for a section to join.
use crate::addr::SocketAddr;
use crate::chain::EldersInfo;
use crate::common::{Action, Core, CoreState};
use crate::error::RoutingError;
use crate::id::{FullId, P2pNode, Provided, PublicId, Wanted};
use crate::joining::{fully_verified, verify_message_full, JoinType, JoiningStage, JOIN_TIMEOUT};
use crate::messages::{BootstrapResponse, Variant, VerifyStatus};
use crate::pending::PendingRequests;
use crate::relocation::{RelocatePayload, SignedRelocateDetails};
use crate::xor_space::{agree, spans, Prefix, XorName};
use std::collections::HashMap;
use vstd::pervasive::unreached;
use vstd::prelude::*;

verus! {

/// Number of seconds after which a bootstrap attempt is cancelled, and possibly retried.
pub const BOOTSTRAP_TIMEOUT: u64 = 20;

/// Number of splits of the section after which the name of a joining node still lies in the same
/// section as its destination.
pub const EXTRA_SPLIT_COUNT: usize = 3;

/// Stage in which a node looks for a section to join.
#[derive(Debug)]
pub struct BootstrappingStage {
    /// Peers that were asked and have not answered yet.
    pub pending_requests: PendingRequests,
    /// Peers by the tokens with which their answers time out.
    pub timeout_tokens: HashMap<u64, SocketAddr>,
    /// Where the node is to be relocated, if it is.
    pub relocate_details: Option<SignedRelocateDetails>,
}

/// Mathematical view of [`BootstrappingStage`].
#[verifier::ext_equal]
pub struct BootstrappingState {
    pub pending: Set<SocketAddr>,
    pub tokens: Map<u64, SocketAddr>,
    pub relocate_details: Option<SignedRelocateDetails>,
}

impl View for BootstrappingStage {
    type V = BootstrappingState;

    open spec fn view(&self) -> BootstrappingState {
        BootstrappingState {
            pending: self.pending_requests@,
            tokens: self.timeout_tokens@,
            relocate_details: self.relocate_details,
        }
    }
}

impl BootstrappingState {
    /// The state at the start: nobody was asked.
    pub open spec fn fresh(relocate_details: Option<SignedRelocateDetails>) -> BootstrappingState {
        BootstrappingState { pending: Set::empty(), tokens: Map::empty(), relocate_details }
    }

    /// Name whose section the node wants to join: the one that it is relocated to, or its own.
    pub open spec fn destination(self, name: XorName) -> XorName {
        match self.relocate_details {
            Some(details) => details.content.destination,
            None => name,
        }
    }

    /// The states after the peer at `dst` was asked. A peer that has yet to answer is not asked
    /// again.
    pub open spec fn requested(self, core: CoreState, dst: SocketAddr) -> (
        BootstrappingState,
        CoreState,
    ) {
        if self.pending.contains(dst) {
            (self, core)
        } else {
            (
                BootstrappingState {
                    pending: self.pending.insert(dst),
                    tokens: self.tokens.insert(core.timer.next_token, dst),
                    ..self
                },
                core.scheduled(BOOTSTRAP_TIMEOUT).sent(
                    dst,
                    Variant::BootstrapRequest(self.destination(core.name())),
                ),
            )
        }
    }

    /// The states after the given peers were asked in turn.
    pub open spec fn all_requested(self, core: CoreState, dsts: Seq<SocketAddr>) -> (
        BootstrappingState,
        CoreState,
    )
        decreases dsts.len(),
    {
        if dsts.len() == 0 {
            (self, core)
        } else {
            let (state, core) = self.all_requested(core, dsts.drop_last());
            state.requested(core, dsts.last())
        }
    }

    /// The states after `token` timed out. If it belongs to a peer that has yet to answer, the
    /// peer is given up, and if it was the last one, the node bootstraps anew.
    pub open spec fn timed_out(self, core: CoreState, token: u64) -> (
        BootstrappingState,
        CoreState,
    ) {
        let addr = self.tokens[token];
        let tokens = self.tokens.remove(token);
        let pending = self.pending.remove(addr);
        if !self.tokens.contains_key(token) {
            (self, core)
        } else if !self.pending.contains(addr) {
            (BootstrappingState { tokens, ..self }, core)
        } else {
            let core = core.asked(Action::Disconnect(addr));
            (
                BootstrappingState { pending, tokens, ..self },
                if pending == Set::<SocketAddr>::empty() {
                    core.asked(Action::Bootstrap)
                } else {
                    core
                },
            )
        }
    }

    /// Whether `next` are the states after the node was referred to the peers `dsts`: the
    /// connections to the peers that have yet to answer were closed in some order, and then the
    /// new ones were asked.
    pub open spec fn redirected(
        self,
        core: CoreState,
        dsts: Seq<SocketAddr>,
        next: (BootstrappingState, CoreState),
    ) -> bool {
        exists|order: Seq<SocketAddr>| #[trigger]
            self.redirected_by(core, order, dsts) == next && order.no_duplicates()
                && order.to_set() == self.pending
    }

    /// The states after the connections in `order` were closed, everything was forgotten that is
    /// known of them, and the peers `dsts` were asked.
    pub open spec fn redirected_by(
        self,
        core: CoreState,
        order: Seq<SocketAddr>,
        dsts: Seq<SocketAddr>,
    ) -> (BootstrappingState, CoreState) {
        BootstrappingState::fresh(self.relocate_details).all_requested(
            core.disconnected(order),
            dsts,
        )
    }

    /// Whether the node's name is too far from its destination to join the section of the given
    /// elders: it has to share with the destination the bits of the section's prefix and a few
    /// more, so that both lie in the same section even after the section has split a few times.
    pub open spec fn needs_new_id(self, core: CoreState, elders_info: EldersInfo) -> bool {
        !agree(
            self.destination(core.name()),
            core.name(),
            elders_info.prefix.bit_count + EXTRA_SPLIT_COUNT,
        )
    }

    /// Whether what was made with key material suffices for joining the section of the given
    /// elders.
    pub open spec fn can_join(
        self,
        core: CoreState,
        elders_info: EldersInfo,
        provided: Provided,
    ) -> bool {
        provided.meets(
            core.full_id.public_id,
            self.needs_new_id(core, elders_info),
            self.relocate_details is Some,
        )
    }

    /// The node as it takes its new identity, if it needs one.
    pub open spec fn identified(
        self,
        core: CoreState,
        elders_info: EldersInfo,
        provided: Provided,
    ) -> CoreState {
        if self.needs_new_id(core, elders_info) {
            CoreState { full_id: provided.full_id->0, ..core }
        } else {
            core
        }
    }

    /// The states after the node decided to join the section of the given elders, with the way in
    /// which it joins. A relocated node has to show a signature of its new identity, while one
    /// that is new to the network gives up after a time.
    pub open spec fn section_joined(
        self,
        core: CoreState,
        elders_info: EldersInfo,
        provided: Provided,
    ) -> (BootstrappingState, CoreState, Result<JoinType, RoutingError>) {
        let state = BootstrappingState { relocate_details: None, ..self };
        let core = self.identified(core, elders_info, provided);
        match self.relocate_details {
            Some(details) => (
                state,
                core,
                match provided.signature->0 {
                    Ok(signature) => Ok(
                        JoinType::Relocate(
                            RelocatePayload {
                                details,
                                signature_of_new_id_with_old_id: signature,
                            },
                        ),
                    ),
                    Err(error) => Err(error),
                },
            ),
            None => (
                state,
                core.scheduled(JOIN_TIMEOUT),
                Ok(JoinType::First { timeout_token: core.timer.next_token }),
            ),
        }
    }

    /// Whether `next` and `res` are what follows from an answer of `sender`. An answer of a peer
    /// that is not awaited only closes the connection to it.
    pub open spec fn answered(
        self,
        core: CoreState,
        sender: P2pNode,
        response: BootstrapResponse,
        provided: Provided,
        next: (BootstrappingState, CoreState),
        res: Result<Option<JoiningStage>, RoutingError>,
    ) -> bool {
        if !self.pending.contains(sender.peer_addr) {
            &&& next == (self, core.asked(Action::Disconnect(sender.peer_addr)))
            &&& res == Ok::<Option<JoiningStage>, RoutingError>(None)
        } else {
            match response {
                BootstrapResponse::Join(elders_info) => {
                    let (state, core, joined) = self.section_joined(core, elders_info, provided);
                    match joined {
                        Ok(join_type) => {
                            let stage = JoiningStage { elders_info, join_type };
                            &&& next == (state, stage.requests_sent(core))
                            &&& res == Ok::<Option<JoiningStage>, RoutingError>(Some(stage))
                        },
                        Err(error) => {
                            &&& next == (state, core)
                            &&& res == Err::<Option<JoiningStage>, RoutingError>(error)
                        },
                    }
                },
                BootstrapResponse::Rebootstrap(new_conn_infos) => {
                    &&& self.redirected(core, new_conn_infos@, next)
                    &&& res == Ok::<Option<JoiningStage>, RoutingError>(None)
                },
            }
        }
    }

    /// Whether what was made with key material suffices for handling an answer of `sender`.
    pub open spec fn can_answer(
        self,
        core: CoreState,
        sender: P2pNode,
        response: BootstrapResponse,
        provided: Provided,
    ) -> bool {
        match response {
            BootstrapResponse::Join(elders_info) => self.pending.contains(sender.peer_addr)
                ==> self.can_join(core, elders_info, provided),
            BootstrapResponse::Rebootstrap(_) => true,
        }
    }

    /// Whether `wanted` is what has to be made with key material before an answer of `sender` can
    /// be handled.
    pub open spec fn wants(
        self,
        core: CoreState,
        sender: P2pNode,
        response: BootstrapResponse,
        wanted: Wanted,
    ) -> bool {
        match response {
            BootstrapResponse::Join(elders_info) if self.pending.contains(sender.peer_addr) => {
                &&& wanted.signature == self.relocate_details is Some
                &&& wanted.id_range is Some == self.needs_new_id(core, elders_info)
                &&& wanted.id_range is Some ==> spans(
                    self.destination(core.name()),
                    elders_info.prefix.bit_count + EXTRA_SPLIT_COUNT,
                    wanted.id_range->0,
                )
            },
            _ => wanted == (Wanted { id_range: None, signature: false }),
        }
    }
}

impl BootstrappingStage {
    /// The stage at its start.
    pub fn new(relocate_details: Option<SignedRelocateDetails>) -> (stage: BootstrappingStage)
        ensures
            stage@ == BootstrappingState::fresh(relocate_details),
    {
        BootstrappingStage {
            pending_requests: PendingRequests::new(),
            timeout_tokens: HashMap::new(),
            relocate_details,
        }
    }

    /// Handles a timeout: a peer that has not answered in time is given up. When nobody is left
    /// to answer, bootstraps anew.
    pub fn handle_timeout(&mut self, core: &mut Core, token: u64)
        ensures
            (final(self)@, final(core)@) == old(self)@.timed_out(old(core)@, token),
    {
        let peer_addr: SocketAddr = match self.timeout_tokens.remove(&token) {
            Some(peer_addr) => peer_addr,
            None => {
                assert(self@ =~= old(self)@);
                return;
            },
        };
        if !self.pending_requests.remove(&peer_addr) {
            assert(self.pending_requests@ =~= old(self)@.pending);
            return;
        }
        core.disconnect(peer_addr);
        if self.pending_requests.is_empty() {
            core.bootstrap();
        }
    }

    /// Name whose section the node wants to join.
    fn destination(&self, core: &Core) -> (destination: XorName)
        ensures
            destination == self@.destination(core@.name()),
    {
        match &self.relocate_details {
            Some(details) => *details.destination(),
            None => *core.name(),
        }
    }

    /// Asks the peer at `dst` for a section to join, unless it was asked already.
    pub fn send_bootstrap_request(&mut self, core: &mut Core, dst: SocketAddr)
        ensures
            (final(self)@, final(core)@) == old(self)@.requested(old(core)@, dst),
    {
        if !self.pending_requests.insert(dst) {
            assert(self@ =~= old(self)@);
            return;
        }
        let token: u64 = core.schedule(BOOTSTRAP_TIMEOUT);
        let _ = self.timeout_tokens.insert(token, dst);
        let destination: XorName = self.destination(core);
        core.send_direct_message(&dst, Variant::BootstrapRequest(destination));
    }

    /// Asks the given peers in turn.
    pub fn send_bootstrap_requests(&mut self, core: &mut Core, dsts: Vec<SocketAddr>)
        ensures
            (final(self)@, final(core)@) == old(self)@.all_requested(old(core)@, dsts@),
    {
        let mut i: usize = 0;
        while i < dsts.len()
            invariant
                i <= dsts.len(),
                (self@, core@) == old(self)@.all_requested(old(core)@, dsts@.take(i as int)),
            decreases dsts.len() - i,
        {
            self.send_bootstrap_request(core, dsts[i]);
            proof {
                assert(dsts@.take(i + 1).drop_last() =~= dsts@.take(i as int));
            }
            i = i + 1;
        }
        assert(dsts@.take(dsts.len() as int) =~= dsts@);
    }

    /// Turns from the peers that have yet to answer to new ones.
    pub fn reconnect_to_new_section(&mut self, core: &mut Core, new_conn_infos: Vec<SocketAddr>)
        ensures
            old(self)@.redirected(old(core)@, new_conn_infos@, (final(self)@, final(core)@)),
    {
        let drained: Vec<SocketAddr> = self.pending_requests.drain();
        let mut i: usize = 0;
        assert(core@ =~= old(core)@.disconnected(drained@.take(0)));
        while i < drained.len()
            invariant
                i <= drained.len(),
                core@ == old(core)@.disconnected(drained@.take(i as int)),
            decreases drained.len() - i,
        {
            core.disconnect(drained[i]);
            assert(drained@.take(i + 1) =~= drained@.take(i as int).push(drained@[i as int]));
            assert(core@ =~= old(core)@.disconnected(drained@.take(i + 1)));
            i = i + 1;
        }
        assert(drained@.take(drained.len() as int) =~= drained@);
        self.timeout_tokens.clear();
        let ghost emptied = self@;
        assert(emptied =~= BootstrappingState::fresh(old(self)@.relocate_details));
        self.send_bootstrap_requests(core, new_conn_infos);
        assert(old(self)@.redirected_by(old(core)@, drained@, new_conn_infos@) == (self@, core@));
    }

    /// Prefix that the name of the node has to have before it joins the section of the given
    /// elders: one that will match the destination even after multiple splits.
    fn name_prefix(&self, core: &Core, elders_info: &EldersInfo) -> (prefix: Prefix)
        ensures
            agree(
                prefix.name,
                self@.destination(core@.name()),
                elders_info.prefix.bit_count + EXTRA_SPLIT_COUNT,
            ),
            prefix.bit_count == (if elders_info.prefix.bit_count + EXTRA_SPLIT_COUNT <= 256 {
                elders_info.prefix.bit_count + EXTRA_SPLIT_COUNT
            } else {
                256
            }),
            prefix.covers(core@.name()) == !self@.needs_new_id(core@, *elders_info),
    {
        let destination: XorName = self.destination(core);
        let prefix = Prefix::new(
            elders_info.prefix().bit_count() + EXTRA_SPLIT_COUNT,
            destination,
        );
        proof {
            let n = elders_info.prefix.bit_count + EXTRA_SPLIT_COUNT;
            let name = core@.name();
            if prefix.covers(name) {
                assert forall|i: int| 0 <= i < n && i < 256 implies #[trigger] destination.bit(i)
                    == name.bit(i) by {
                    assert(prefix.name.bit(i) == destination.bit(i));
                }
            }
            if agree(destination, name, n) {
                assert forall|i: int|
                    0 <= i < prefix.bit_count && i < 256 implies #[trigger] prefix.name.bit(i)
                    == name.bit(i) by {
                    assert(destination.bit(i) == name.bit(i));
                }
            }
        }
        prefix
    }

    /// What has to be made with key material before an answer of `sender` can be handled.
    pub fn wanted(&self, core: &Core, sender: &P2pNode, response: &BootstrapResponse) -> (wanted:
        Wanted)
        ensures
            self@.wants(core@, *sender, *response, wanted),
    {
        let elders_info: &EldersInfo = match response {
            BootstrapResponse::Join(elders_info) => elders_info,
            BootstrapResponse::Rebootstrap(_) => {
                return Wanted { id_range: None, signature: false };
            },
        };
        if !self.pending_requests.contains(sender.peer_addr()) {
            return Wanted { id_range: None, signature: false };
        }
        let name_prefix: Prefix = self.name_prefix(core, elders_info);
        let id_range: Option<(XorName, XorName)> = if name_prefix.matches(core.name()) {
            None
        } else {
            Some(name_prefix.range_inclusive())
        };
        proof {
            if let Some(range) = id_range {
                let destination = self@.destination(core@.name());
                let n = elders_info.prefix.bit_count + EXTRA_SPLIT_COUNT;
                assert forall|i: int| 0 <= i < 256 && i < n implies range.0.bit(i)
                    == destination.bit(i) && range.1.bit(i) == destination.bit(i) by {
                    assert(name_prefix.name.bit(i) == destination.bit(i));
                    assert(range.0.bit(i) == name_prefix.name.bit(i));
                }
                assert(spans(destination, n, range));
            }
        }
        Wanted { id_range, signature: self.relocate_details.is_some() }
    }

    /// Prepares the node for joining the section of the given elders: takes a new identity if the
    /// name is too far from the destination, and settles how the node joins.
    pub fn join_section(
        &mut self,
        core: &mut Core,
        elders_info: &EldersInfo,
        provided: Provided,
    ) -> (res: Result<JoinType, RoutingError>)
        requires
            old(self)@.can_join(old(core)@, *elders_info, provided),
        ensures
            (final(self)@, final(core)@, res) == old(self)@.section_joined(
                old(core)@,
                *elders_info,
                provided,
            ),
            res matches Ok(JoinType::Relocate(payload))
                ==> payload.signature_of_new_id_with_old_id.is_of(
                final(core)@.full_id.public_id,
                old(core)@.full_id.public_id,
            ),
    {
        let old_id: PublicId = *core.full_id.public_id();
        let name_prefix: Prefix = self.name_prefix(core, elders_info);
        let relocate_details: Option<SignedRelocateDetails> = self.relocate_details.take();
        if !name_prefix.matches(core.name()) {
            let new_full_id: FullId = match provided.full_id {
                Some(full_id) => full_id,
                None => unreached(),
            };
            core.full_id = new_full_id;
        }
        match relocate_details {
            Some(details) => match provided.signature {
                Some(Ok(signature)) => Ok(
                    JoinType::Relocate(
                        RelocatePayload::new(
                            details,
                            core.full_id.public_id(),
                            &old_id,
                            signature,
                        ),
                    ),
                ),
                Some(Err(error)) => Err(error),
                None => unreached(),
            },
            None => {
                let timeout_token: u64 = core.schedule(JOIN_TIMEOUT);
                Ok(JoinType::First { timeout_token })
            },
        }
    }

    /// Handles an answer to a request to bootstrap. Returns the stage in which the node joins a
    /// section, if it was told to do so.
    pub fn handle_bootstrap_response(
        &mut self,
        core: &mut Core,
        sender: P2pNode,
        response: BootstrapResponse,
        provided: Provided,
    ) -> (res: Result<Option<JoiningStage>, RoutingError>)
        requires
            old(self)@.can_answer(old(core)@, sender, response, provided),
        ensures
            old(self)@.answered(
                old(core)@,
                sender,
                response,
                provided,
                (final(self)@, final(core)@),
                res,
            ),
    {
        // Ignore messages from peers we didn't send a request to.
        if !self.pending_requests.contains(sender.peer_addr()) {
            core.disconnect(*sender.peer_addr());
            return Ok(None);
        }
        match response {
            BootstrapResponse::Join(elders_info) => {
                let join_type: JoinType = match self.join_section(core, &elders_info, provided) {
                    Ok(join_type) => join_type,
                    Err(error) => return Err(error),
                };
                let stage = JoiningStage { elders_info, join_type };
                stage.send_join_requests(core);
                Ok(Some(stage))
            },
            BootstrapResponse::Rebootstrap(new_conn_infos) => {
                self.reconnect_to_new_section(core, new_conn_infos);
                Ok(None)
            },
        }
    }

    /// Decides whether a message may be handled. `checked` is the outcome of tracing its
    /// signatures without any key of a section being trusted.
    pub fn verify_message(&self, checked: Result<VerifyStatus, RoutingError>) -> (res: Result<
        bool,
        RoutingError,
    >)
        ensures
            res == fully_verified(checked),
    {
        verify_message_full(checked)
    }
}

} // verus!
