//! The state of a node that is not yet a member of a section.
use crate::addr::SocketAddr;
use crate::bootstrapping::{BootstrappingStage, BootstrappingState};
use crate::chain::{GenesisPfxInfo, NetworkParams, SectionKeyInfo};
use crate::common::{Action, Core, CoreState};
use crate::error::RoutingError;
use crate::event::{Connected, Event};
use crate::id::{ids_to_sign, to_sign, FullId, P2pNode, Provided, PublicId, Wanted};
use crate::joining::{as_iter, fully_verified, JoinType, JoiningStage};
use crate::location::{DstLocation, SrcLocation};
use crate::messages::{
    BootstrapResponse, Message, MessageWithBytes, Variant, VerifyStatus,
};
use crate::relocation::SignedRelocateDetails;
use crate::state_machine::{ApprovedPeer, ChainSeed, ElderDetails, State, Transition};
use crate::xor_space::{Prefix, XorName};
use bytes::Bytes;
use vstd::pervasive::unreached;
use vstd::prelude::*;
use vstd::string::StringExecFns;

verus! {

/// Stage of joining the network.
#[derive(Debug)]
pub enum Stage {
    /// Looking for a section to join.
    Bootstrapping(BootstrappingStage),
    /// Asking a section to take the node in.
    Joining(JoiningStage),
}

/// Mathematical view of [`Stage`].
pub enum StageState {
    Bootstrapping(BootstrappingState),
    Joining(JoiningStage),
}

impl View for Stage {
    type V = StageState;

    open spec fn view(&self) -> StageState {
        match *self {
            Stage::Bootstrapping(stage) => StageState::Bootstrapping(stage@),
            Stage::Joining(stage) => StageState::Joining(stage),
        }
    }
}

impl Stage {
    /// The stage that a node starts in.
    pub fn new(relocate_details: Option<SignedRelocateDetails>) -> (stage: Stage)
        ensures
            stage@ == StageState::Bootstrapping(BootstrappingState::fresh(relocate_details)),
    {
        Stage::Bootstrapping(BootstrappingStage::new(relocate_details))
    }

    /// Whether the node looks for a section to join.
    pub fn is_bootstrapping(&self) -> (res: bool)
        ensures
            res == (self@ is Bootstrapping),
    {
        matches!(self, Stage::Bootstrapping(_))
    }

    /// Whether the node asks a section to take it in.
    pub fn is_joining(&self) -> (res: bool)
        ensures
            res == (self@ is Joining),
    {
        matches!(self, Stage::Joining(_))
    }
}

/// State of a node that is not yet a member of a section.
pub struct JoiningPeer {
    pub core: Core,
    pub stage: Stage,
    pub network_cfg: NetworkParams,
}

/// Mathematical view of [`JoiningPeer`].
pub struct PeerState {
    pub core: CoreState,
    pub stage: StageState,
    pub network_cfg: NetworkParams,
}

impl View for JoiningPeer {
    type V = PeerState;

    open spec fn view(&self) -> PeerState {
        PeerState { core: self.core@, stage: self.stage@, network_cfg: self.network_cfg }
    }
}

impl PeerState {
    /// The state of a node that joins the network for the first time.
    pub open spec fn started(core: CoreState, network_cfg: NetworkParams) -> PeerState {
        PeerState {
            core: core.asked(Action::Bootstrap),
            stage: StageState::Bootstrapping(BootstrappingState::fresh(None)),
            network_cfg,
        }
    }

    /// The state of a node that is being relocated and was told of the peers `conn_infos`.
    pub open spec fn relocated(
        core: CoreState,
        network_cfg: NetworkParams,
        conn_infos: Seq<SocketAddr>,
        relocate_details: SignedRelocateDetails,
    ) -> PeerState {
        let (stage, core) = BootstrappingState::fresh(Some(relocate_details)).all_requested(
            core,
            conn_infos,
        );
        PeerState { core, stage: StageState::Bootstrapping(stage), network_cfg }
    }

    /// The state after the node started over under a new identity. A relocation is forgotten.
    pub open spec fn rebootstrapped(self, new_id: FullId) -> PeerState {
        PeerState {
            core: CoreState { full_id: new_id, ..self.core }.asked(Action::Bootstrap),
            stage: StageState::Bootstrapping(BootstrappingState::fresh(None)),
            ..self
        }
    }

    /// Whether `token` makes the attempt at joining a section fail.
    pub open spec fn fails_by(self, token: u64) -> bool {
        match self.stage {
            StageState::Bootstrapping(_) => false,
            StageState::Joining(stage) => stage.times_out_by(token),
        }
    }

    /// The state after `token` timed out. If it makes the attempt at joining fail, the node
    /// leaves the elders alone and starts over with the identity `new_id`.
    pub open spec fn timed_out(self, token: u64, new_id: Option<FullId>) -> PeerState {
        match self.stage {
            StageState::Bootstrapping(stage) => {
                let (stage, core) = stage.timed_out(self.core, token);
                PeerState { core, stage: StageState::Bootstrapping(stage), ..self }
            },
            StageState::Joining(stage) => if stage.times_out_by(token) {
                PeerState {
                    core: self.core.disconnected(
                        stage.elders_info.members@.map_values(|elder: P2pNode| elder.peer_addr),
                    ),
                    ..self
                }.rebootstrapped(new_id->0)
            } else {
                self
            },
        }
    }

    /// The state after a connection to one of the known contacts was made.
    pub open spec fn bootstrapped_to(self, conn_info: SocketAddr) -> PeerState {
        match self.stage {
            StageState::Bootstrapping(stage) => {
                let (stage, core) = stage.requested(self.core, conn_info);
                PeerState { core, stage: StageState::Bootstrapping(stage), ..self }
            },
            StageState::Joining(_) => self,
        }
    }

    /// Whether an answer to a request to bootstrap can be handled: a node that is already joining
    /// is not referred to other peers, and what has to be made with key material was made.
    pub open spec fn can_answer(
        self,
        sender: P2pNode,
        response: BootstrapResponse,
        provided: Provided,
    ) -> bool {
        match self.stage {
            StageState::Bootstrapping(stage) => stage.can_answer(
                self.core,
                sender,
                response,
                provided,
            ),
            StageState::Joining(_) => response is Join,
        }
    }

    /// Whether `next` and `res` are what follows for a node that is left bootstrapping in the state
    /// `left`, or is told to join.
    pub open spec fn moved_on(
        left: BootstrappingState,
        outcome: Result<Option<JoiningStage>, RoutingError>,
        next: StageState,
        res: Result<(), RoutingError>,
    ) -> bool {
        match outcome {
            Ok(Some(new_stage)) => {
                &&& next == StageState::Joining(new_stage)
                &&& res == Ok::<(), RoutingError>(())
            },
            Ok(None) => {
                &&& next == StageState::Bootstrapping(left)
                &&& res == Ok::<(), RoutingError>(())
            },
            Err(error) => {
                &&& next == StageState::Bootstrapping(left)
                &&& res == Err::<(), RoutingError>(error)
            },
        }
    }

    /// Whether `next` and `res` are what follows from an answer to a request to bootstrap.
    pub open spec fn answered(
        self,
        sender: P2pNode,
        response: BootstrapResponse,
        provided: Provided,
        next: PeerState,
        res: Result<(), RoutingError>,
    ) -> bool {
        &&& next.network_cfg == self.network_cfg
        &&& match self.stage {
            StageState::Bootstrapping(stage) => exists|
                left: BootstrappingState,
                outcome: Result<Option<JoiningStage>, RoutingError>,
            | #[trigger]
                stage.answered(
                    self.core,
                    sender,
                    response,
                    provided,
                    (left, next.core),
                    outcome,
                ) && PeerState::moved_on(left, outcome, next.stage, res),
            StageState::Joining(stage) => {
                &&& res == Ok::<(), RoutingError>(())
                &&& if stage.is_superseded_by(response, self.core) {
                    let new_stage = JoiningStage { elders_info: response->Join_0, ..stage };
                    &&& next.stage == StageState::Joining(new_stage)
                    &&& next.core == new_stage.requests_sent(self.core)
                } else {
                    next == self
                }
            },
        }
    }

    /// The state after a bounced message was received: it is sent again after a while.
    pub open spec fn bounced(self, sender: P2pNode, message: Bytes) -> PeerState {
        PeerState {
            core: self.core.asked(
                Action::SendMessageLater {
                    dst: sender.peer_addr,
                    message,
                    secs: self.core.bounce_resend_delay,
                },
            ),
            ..self
        }
    }

    /// The state after a message was sent back to the peer that it came from.
    pub open spec fn sent_back(self, sender: SocketAddr, message: Bytes) -> PeerState {
        PeerState {
            core: self.core.sent(sender, Variant::Bounce { elders_version: None, message }),
            ..self
        }
    }

    /// Whether a message is one that the node handles in its present stage.
    pub open spec fn handles(self, variant: Variant) -> bool {
        match variant {
            Variant::BootstrapResponse(BootstrapResponse::Join(_)) | Variant::Bounce { .. } => true,
            Variant::BootstrapResponse(_) => self.stage is Bootstrapping,
            Variant::NodeApproval(_) => self.stage is Joining,
            _ => false,
        }
    }

    /// Whether a message can be handled: it is of one of the three kinds that matter to a joining
    /// node, and if it is an answer of a peer, the answer can be handled.
    pub open spec fn can_handle(
        self,
        sender: Option<SocketAddr>,
        msg: Message,
        provided: Provided,
    ) -> bool {
        match msg.variant {
            Variant::BootstrapResponse(response) => match msg.src.sender_node(sender) {
                Ok(node) => self.can_answer(node, response, provided),
                Err(_) => true,
            },
            Variant::NodeApproval(_) | Variant::Bounce { .. } => true,
            _ => false,
        }
    }

    /// Whether `next` and `res` are what follows from a message.
    pub open spec fn handled(
        self,
        sender: Option<SocketAddr>,
        msg: Message,
        provided: Provided,
        next: PeerState,
        res: Result<Transition, RoutingError>,
    ) -> bool {
        match msg.variant {
            Variant::BootstrapResponse(response) => match msg.src.sender_node(sender) {
                Ok(node) => match res {
                    Ok(transition) => transition == Transition::Stay && self.answered(
                        node,
                        response,
                        provided,
                        next,
                        Ok(()),
                    ),
                    Err(error) => self.answered(node, response, provided, next, Err(error)),
                },
                Err(error) => next == self && res == Err::<Transition, RoutingError>(error),
            },
            Variant::NodeApproval(gen_pfx_info) => {
                &&& next == self
                &&& res == if msg.src is Section && msg.dst is Node {
                    Ok::<Transition, RoutingError>(
                        Transition::Approve { gen_pfx_info: *gen_pfx_info },
                    )
                } else {
                    Err(RoutingError::BadLocation)
                }
            },
            Variant::Bounce { message, .. } => match msg.src.sender_node(sender) {
                Ok(node) => {
                    &&& next == self.bounced(node, message)
                    &&& res == Ok::<Transition, RoutingError>(Transition::Stay)
                },
                Err(error) => next == self && res == Err::<Transition, RoutingError>(error),
            },
            _ => false,
        }
    }

    /// Keys that a message is to be checked against, or nothing if it is taken without a check.
    pub open spec fn checking_keys(self, variant: Variant) -> Option<
        Seq<(Prefix, SectionKeyInfo)>,
    > {
        match self.stage {
            StageState::Bootstrapping(_) => Some(Seq::empty()),
            StageState::Joining(stage) => stage.checking_keys(variant),
        }
    }

    /// Whether a message can be verified in the present stage.
    pub open spec fn can_verify(self, variant: Variant) -> bool {
        self.stage is Joining ==> JoiningStage::acts_on(variant)
    }
}

/// Whether an unhandled message is dropped without a word instead of being sent back.
pub open spec fn is_dropped(variant: Variant) -> bool {
    match variant {
        Variant::BootstrapResponse(_)
        | Variant::MemberKnowledge { .. }
        | Variant::ParsecRequest(..)
        | Variant::ParsecResponse(..) => true,
        _ => false,
    }
}

impl JoiningPeer {
    /// A node that joins the network for the first time.
    pub fn new(core: Core, network_cfg: NetworkParams) -> (peer: JoiningPeer)
        ensures
            peer@ == PeerState::started(core@, network_cfg),
    {
        let mut core = core;
        core.bootstrap();
        JoiningPeer { core, stage: Stage::new(None), network_cfg }
    }

    /// A node that is being relocated into another section.
    pub fn relocate(
        core: Core,
        network_cfg: NetworkParams,
        conn_infos: Vec<SocketAddr>,
        relocate_details: SignedRelocateDetails,
    ) -> (peer: JoiningPeer)
        ensures
            peer@ == PeerState::relocated(core@, network_cfg, conn_infos@, relocate_details),
    {
        let mut core = core;
        let mut stage = BootstrappingStage::new(Some(relocate_details));
        stage.send_bootstrap_requests(&mut core, conn_infos);
        JoiningPeer { core, stage: Stage::Bootstrapping(stage), network_cfg }
    }

    /// Whether `approved` is the member that the node becomes when it is approved: everything that
    /// it has is taken over, and no message is waiting and no signature begun.
    pub open spec fn becomes(self, gen_pfx_info: GenesisPfxInfo, approved: ApprovedPeer) -> bool {
        let details = approved.details;
        &&& details.chain == (ChainSeed {
            network_cfg: self.network_cfg,
            our_id: self.core.full_id.public_id,
            secret_key_share: None,
        })
        &&& details.full_id == self.core.full_id
        &&& details.gen_pfx_info == gen_pfx_info
        &&& details.msg_queue@ == Seq::<MessageWithBytes>::empty()
        &&& details.sig_accumulator@ == Seq::<Bytes>::empty()
        &&& details.msg_filter == self.core.msg_filter
        &&& details.timer == self.core.timer
        &&& details.actions == self.core.actions
        &&& approved.connect_type == match self.stage->Joining_0.join_type {
            JoinType::First { .. } => Connected::First,
            JoinType::Relocate(_) => Connected::Relocate,
        }
    }

    /// Turns the node into a member of the section that has approved it. What there is to tell the
    /// owner is left to the member, so nothing is added to `outbox`.
    pub fn approve(self, gen_pfx_info: GenesisPfxInfo, outbox: &mut Vec<Event>) -> (res: Result<
        State,
        RoutingError,
    >)
        requires
            self.stage is Joining,
        ensures
            res matches Ok(State::ApprovedPeer(approved)) && self.becomes(gen_pfx_info, approved),
            final(outbox)@ == old(outbox)@,
    {
        let stage: JoiningStage = match self.stage {
            Stage::Bootstrapping(_) => unreached(),
            Stage::Joining(stage) => stage,
        };
        let public_id: PublicId = *self.core.full_id.public_id();
        let details = ElderDetails {
            chain: ChainSeed {
                network_cfg: self.network_cfg,
                our_id: public_id,
                secret_key_share: None,
            },
            full_id: self.core.full_id,
            gen_pfx_info,
            msg_queue: Vec::new(),
            sig_accumulator: Vec::new(),
            msg_filter: self.core.msg_filter,
            timer: self.core.timer,
            actions: self.core.actions,
        };
        let connect_type: Connected = match stage.join_type {
            JoinType::First { .. } => Connected::First,
            JoinType::Relocate(_) => Connected::Relocate,
        };
        Ok(State::ApprovedPeer(ApprovedPeer { details, connect_type }))
    }

    /// Handles an answer to a request to bootstrap.
    pub fn handle_bootstrap_response(
        &mut self,
        sender: P2pNode,
        response: BootstrapResponse,
        provided: Provided,
    ) -> (res: Result<(), RoutingError>)
        requires
            old(self)@.can_answer(sender, response, provided),
        ensures
            old(self)@.answered(sender, response, provided, final(self)@, res),
    {
        match &mut self.stage {
            Stage::Bootstrapping(stage) => {
                let outcome = stage.handle_bootstrap_response(
                    &mut self.core,
                    sender,
                    response,
                    provided,
                );
                let ghost left = stage@;
                let ghost told = outcome;
                let res: Result<(), RoutingError> = match outcome {
                    Ok(Some(new_stage)) => {
                        self.stage = Stage::Joining(new_stage);
                        Ok(())
                    },
                    Ok(None) => Ok(()),
                    Err(error) => Err(error),
                };
                assert(PeerState::moved_on(left, told, self@.stage, res));
                assert(old(self)@.stage->Bootstrapping_0.answered(
                    old(self)@.core,
                    sender,
                    response,
                    provided,
                    (left, self@.core),
                    told,
                ));
                res
            },
            Stage::Joining(stage) => stage.handle_bootstrap_response(
                &mut self.core,
                sender,
                response,
            ),
        }
    }

    /// Handles the approval of the node by a section.
    pub fn handle_node_approval(&mut self, gen_pfx_info: GenesisPfxInfo) -> (transition: Transition)
        ensures
            *final(self) == *old(self),
            transition == (Transition::Approve { gen_pfx_info }),
    {
        Transition::Approve { gen_pfx_info }
    }

    /// Handles the return of a message that its recipient could not handle.
    pub fn handle_bounce(&mut self, sender: P2pNode, message: Bytes)
        ensures
            final(self)@ == old(self)@.bounced(sender, message),
    {
        let secs: u64 = self.core.bounce_resend_delay;
        self.core.send_message_to_target_later(sender.peer_addr(), message, secs);
    }

    /// Starts over under the identity `new_id`.
    pub fn rebootstrap(&mut self, new_id: FullId)
        ensures
            final(self)@ == old(self)@.rebootstrapped(new_id),
    {
        self.stage = Stage::Bootstrapping(BootstrappingStage::new(None));
        self.core.full_id = new_id;
        self.core.bootstrap();
    }

    /// What the node has in common with every other state.
    pub fn core_ref(&self) -> (core: &Core)
        ensures
            *core == self.core,
    {
        &self.core
    }

    /// What the node has in common with every other state.
    pub fn core_mut(&mut self) -> (core: &mut Core)
        ensures
            *core == old(self).core,
            *final(self) == (JoiningPeer { core: *final(core), ..*old(self) }),
    {
        &mut self.core
    }

    /// Name of the node.
    pub fn name(&self) -> (name: &XorName)
        ensures
            *name == self@.core.name(),
    {
        self.core.name()
    }

    /// How the node is called in a log, given the texts of its name and of the prefix of the
    /// section that it joins. The prefix is left out as long as there is no such section.
    pub fn log_ident(&self, name: &str, prefix: &str) -> (ident: String)
        ensures
            ident@ == (match self@.stage {
                StageState::Bootstrapping(_) => "JoiningPeer("@ + name@ + ") "@,
                StageState::Joining(_) => "JoiningPeer("@ + name@ + "("@ + prefix@ + ")"@ + ") "@,
            }),
    {
        let mut ident: String = String::from_str("JoiningPeer(");
        ident.append(name);
        if self.stage.is_joining() {
            ident.append("(");
            ident.append(prefix);
            ident.append(")");
        }
        ident.append(") ");
        ident
    }

    /// Whether a message for `dst` is for this node.
    pub fn in_dst_location(&self, dst: &DstLocation) -> (res: bool)
        ensures
            res == (match *dst {
                DstLocation::Node(name) => name == self@.core.name(),
                DstLocation::Section(_) | DstLocation::Prefix(_) => false,
                DstLocation::Direct => true,
            }),
    {
        match dst {
            DstLocation::Node(name) => *name == *self.name(),
            DstLocation::Section(_) | DstLocation::Prefix(_) => false,
            DstLocation::Direct => true,
        }
    }

    /// Ignores a message that the owner of the node wants to send: the node has not joined yet.
    pub fn handle_send_message(
        &mut self,
        _src: SrcLocation,
        _dst: DstLocation,
        _content: Vec<u8>,
    ) -> (res: Result<(), RoutingError>)
        ensures
            *final(self) == *old(self),
            res == Ok::<(), RoutingError>(()),
    {
        Ok(())
    }

    /// Whether a new identity has to be made before the timeout of `token` can be handled.
    pub fn wants_new_id(&self, token: u64) -> (wanted: bool)
        ensures
            wanted == self@.fails_by(token),
    {
        match &self.stage {
            Stage::Bootstrapping(_) => false,
            Stage::Joining(stage) => stage.is_timeout(token),
        }
    }

    /// Handles a timeout.
    pub fn handle_timeout(&mut self, token: u64, new_id: Option<FullId>) -> (transition: Transition)
        requires
            old(self)@.fails_by(token) ==> new_id is Some,
        ensures
            final(self)@ == old(self)@.timed_out(token, new_id),
            transition == Transition::Stay,
    {
        match &mut self.stage {
            Stage::Bootstrapping(stage) => stage.handle_timeout(&mut self.core, token),
            Stage::Joining(stage) => {
                if stage.handle_timeout(&mut self.core, token) {
                    match new_id {
                        Some(new_id) => self.rebootstrap(new_id),
                        None => unreached(),
                    }
                }
            },
        }
        Transition::Stay
    }

    /// Handles a connection that was made to one of the known contacts.
    pub fn handle_bootstrapped_to(&mut self, conn_info: SocketAddr) -> (transition: Transition)
        ensures
            final(self)@ == old(self)@.bootstrapped_to(conn_info),
            transition == Transition::Stay,
    {
        match &mut self.stage {
            Stage::Bootstrapping(stage) => stage.send_bootstrap_request(&mut self.core, conn_info),
            Stage::Joining(_) => (),
        }
        Transition::Stay
    }

    /// Handles the failure to connect to any of the known contacts: the node stops.
    pub fn handle_bootstrap_failure(&mut self, outbox: &mut Vec<Event>) -> (transition: Transition)
        ensures
            *final(self) == *old(self),
            final(outbox)@ == old(outbox)@.push(Event::Terminated),
            transition == Transition::Terminate,
    {
        outbox.push(Event::Terminated);
        Transition::Terminate
    }

    /// Identity to sign with, and identity to sign, where a signature is wanted. `new_id` is the
    /// newly generated identity, if one is wanted.
    pub fn to_sign(&self, new_id: &Option<FullId>) -> (ids: (PublicId, PublicId))
        ensures
            ids == ids_to_sign(self@.core.full_id.public_id, *new_id),
    {
        to_sign(&self.core.full_id, new_id)
    }

    /// What has to be made with key material before a message can be handled.
    pub fn wanted(&self, sender: Option<SocketAddr>, msg: &Message) -> (wanted: Wanted)
        ensures
            match (msg.variant, self@.stage, msg.src.sender_node(sender)) {
                (
                    Variant::BootstrapResponse(response),
                    StageState::Bootstrapping(stage),
                    Ok(node),
                ) => stage.wants(self@.core, node, response, wanted),
                _ => wanted == (Wanted { id_range: None, signature: false }),
            },
    {
        match (&msg.variant, &self.stage, msg.src.to_sender_node(sender)) {
            (
                Variant::BootstrapResponse(response),
                Stage::Bootstrapping(stage),
                Ok(node),
            ) => stage.wanted(&self.core, &node, response),
            _ => Wanted { id_range: None, signature: false },
        }
    }

    /// Handles a message that is meant for this node and was verified.
    pub fn handle_message(
        &mut self,
        sender: Option<SocketAddr>,
        msg: Message,
        provided: Provided,
    ) -> (res: Result<Transition, RoutingError>)
        requires
            old(self)@.can_handle(sender, msg, provided),
        ensures
            old(self)@.handled(sender, msg, provided, final(self)@, res),
    {
        match msg.variant {
            Variant::BootstrapResponse(response) => {
                let node: P2pNode = match msg.src.to_sender_node(sender) {
                    Ok(node) => node,
                    Err(error) => return Err(error),
                };
                match self.handle_bootstrap_response(node, response, provided) {
                    Ok(()) => Ok(Transition::Stay),
                    Err(error) => Err(error),
                }
            },
            Variant::NodeApproval(gen_info) => {
                // Ensure src and dst are what we expect.
                if let Err(error) = msg.src.as_section() {
                    return Err(error);
                }
                if let Err(error) = msg.dst.as_node() {
                    return Err(error);
                }
                Ok(self.handle_node_approval(*gen_info))
            },
            Variant::Bounce { message, .. } => {
                let node: P2pNode = match msg.src.to_sender_node(sender) {
                    Ok(node) => node,
                    Err(error) => return Err(error),
                };
                self.handle_bounce(node, message);
                Ok(Transition::Stay)
            },
            _ => unreached(),
        }
    }

    /// Sends a message that the node does not handle back to where it came from, for it to be
    /// sent again later. Some messages would be of no use later and are dropped.
    pub fn unhandled_message(
        &mut self,
        sender: Option<SocketAddr>,
        msg: Message,
        msg_bytes: Bytes,
    )
        requires
            !is_dropped(msg.variant) ==> sender is Some,
        ensures
            is_dropped(msg.variant) ==> *final(self) == *old(self),
            !is_dropped(msg.variant) ==> final(self)@ == old(self)@.sent_back(
                sender->0,
                msg_bytes,
            ),
    {
        match msg.variant {
            Variant::BootstrapResponse(_)
            | Variant::MemberKnowledge { .. }
            | Variant::ParsecRequest(..)
            | Variant::ParsecResponse(..) => (),
            _ => {
                let sender: SocketAddr = sender.unwrap();
                let variant = Variant::Bounce { elders_version: None, message: msg_bytes };
                self.core.send_direct_message(&sender, variant)
            },
        }
    }

    /// Whether a message is one that the node handles in its present stage.
    pub fn should_handle_message(&self, msg: &Message) -> (res: bool)
        ensures
            res == self@.handles(msg.variant),
    {
        match &msg.variant {
            Variant::BootstrapResponse(BootstrapResponse::Join(_)) | Variant::Bounce { .. } => true,
            Variant::BootstrapResponse(_) => self.stage.is_bootstrapping(),
            Variant::NodeApproval(_) => self.stage.is_joining(),
            Variant::NeighbourInfo(_)
            | Variant::UserMessage(_)
            | Variant::AckMessage { .. }
            | Variant::GenesisUpdate(_)
            | Variant::Relocate(_)
            | Variant::MessageSignature(_)
            | Variant::BootstrapRequest(_)
            | Variant::JoinRequest(_)
            | Variant::MemberKnowledge { .. }
            | Variant::ParsecRequest(..)
            | Variant::ParsecResponse(..)
            | Variant::Ping => false,
        }
    }

    /// Sends a message that is for somebody else back to where it came from.
    pub fn relay_message(&mut self, sender: Option<SocketAddr>, msg: &MessageWithBytes) -> (res:
        Result<(), RoutingError>)
        requires
            sender is Some,
        ensures
            final(self)@ == old(self)@.sent_back(sender->0, msg.full_bytes),
            res == Ok::<(), RoutingError>(()),
    {
        let sender: SocketAddr = sender.unwrap();
        let variant = Variant::Bounce { elders_version: None, message: msg.full_bytes().clone() };
        self.core.send_direct_message(&sender, variant);
        Ok(())
    }

    /// Keys that the signatures of a message are to be traced to, or nothing if the message is
    /// taken without a check.
    pub fn keys_to_check(&self, msg: &Message) -> (keys: Option<Vec<(Prefix, SectionKeyInfo)>>)
        ensures
            keys is Some == self@.checking_keys(msg.variant) is Some,
            keys is Some ==> keys->0@ == self@.checking_keys(msg.variant)->0,
    {
        match &self.stage {
            Stage::Bootstrapping(_) => Some(as_iter(None)),
            Stage::Joining(stage) => stage.keys_to_check(msg),
        }
    }

    /// Decides whether a message may be handled. `checked` is the outcome of tracing its
    /// signatures to [`JoiningPeer::keys_to_check`], where there are such keys.
    pub fn verify_message(
        &self,
        msg: &Message,
        checked: Option<Result<VerifyStatus, RoutingError>>,
    ) -> (res: Result<bool, RoutingError>)
        requires
            self@.can_verify(msg.variant),
            self@.checking_keys(msg.variant) is Some ==> checked is Some,
        ensures
            self@.checking_keys(msg.variant) is None ==> res == Ok::<bool, RoutingError>(true),
            self@.checking_keys(msg.variant) is Some ==> res == fully_verified(checked->0),
    {
        match (&self.stage, checked) {
            (Stage::Bootstrapping(stage), Some(checked)) => stage.verify_message(checked),
            (Stage::Bootstrapping(_), None) => unreached(),
            (Stage::Joining(stage), checked) => stage.verify_message(msg, checked),
        }
    }
}

} // verus!
