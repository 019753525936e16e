//! What a caller can rely on for each operation of a joining node.
use crate::addr::SocketAddr;
use crate::bootstrapping::{BootstrappingStage, BootstrappingState};
use crate::chain::{EldersInfo, GenesisPfxInfo, NetworkParams, SectionKeyInfo};
use crate::common::{Action, Core, CoreState};
use crate::error::RoutingError;
use crate::event::Event;
use crate::events::{
    attempt_at_joining_fails_by_its_timer, bounce_adds_one_delivery, connected_contact_is_asked,
    elders_are_shown_the_relocation, member_takes_everything_over, messages_are_checked_by_stage,
    messages_of_the_stage_are_handled, new_node_bootstraps, only_trusted_messages_are_accepted,
    other_messages_are_sent_back, redirection_keeps_the_destination, sending_back_adds_one_bounce,
    starting_over_takes_the_new_identity, without_repeats,
};
use crate::id::{FullId, P2pNode, Provided, PublicId, Wanted};
use crate::joining::{JoinType, JoiningStage};
use crate::joining_peer::{JoiningPeer, PeerState, Stage, StageState};
use crate::location::{DstLocation, SrcLocation};
use crate::messages::{
    BootstrapResponse, JoinRequest, Message, MessageWithBytes, Variant, VerifyStatus,
};
use crate::relocation::SignedRelocateDetails;
use crate::state_machine::{State, Transition};
use crate::xor_space::{Prefix, XorName};
use bytes::Bytes;
use vstd::prelude::*;

verus! {

/// A new node asks for a connection to a contact and for nothing else, and is not being relocated.
pub proof fn new_starts_bootstrapping(core: Core, network_cfg: NetworkParams, peer: JoiningPeer)
    requires
        call_ensures(JoiningPeer::new, (core, network_cfg), peer),
    ensures
        peer@.network_cfg == network_cfg,
        peer@.core == (CoreState { actions: core.actions@.push(Action::Bootstrap), ..core@ }),
        peer@.stage == StageState::Bootstrapping(
            BootstrappingState {
                pending: Set::empty(),
                tokens: Map::empty(),
                relocate_details: None,
            },
        ),
{
    new_node_bootstraps(core@, network_cfg);
}

/// A relocated node is in the state of a relocated node that has asked the peers that it was told
/// of.
pub proof fn relocate_starts_the_relocation(
    core: Core,
    network_cfg: NetworkParams,
    conn_infos: Vec<SocketAddr>,
    details: SignedRelocateDetails,
    peer: JoiningPeer,
)
    requires
        call_ensures(JoiningPeer::relocate, (core, network_cfg, conn_infos, details), peer),
    ensures
        peer@ == PeerState::relocated(core@, network_cfg, conn_infos@, details),
{
}

/// A node that joins can be approved. It becomes a member with what it has, and nothing is told to
/// the owner.
pub proof fn approve_makes_a_member(
    peer: JoiningPeer,
    stage: JoiningStage,
    gen_pfx_info: GenesisPfxInfo,
    outbox: &mut Vec<Event>,
    res: Result<State, RoutingError>,
)
    requires
        peer.stage == Stage::Joining(stage),
        call_ensures(JoiningPeer::approve, (peer, gen_pfx_info, outbox), res),
    ensures
        final(outbox)@ == old(outbox)@,
        res matches Ok(State::ApprovedPeer(approved)) && {
            &&& approved.details.full_id == peer.core.full_id
            &&& approved.details.msg_filter == peer.core.msg_filter
            &&& approved.details.timer == peer.core.timer
            &&& approved.details.actions@ == peer.core.actions@
            &&& approved.details.gen_pfx_info == gen_pfx_info
            &&& approved.details.msg_queue@.len() == 0
            &&& approved.details.sig_accumulator@.len() == 0
            &&& approved.details.chain.network_cfg == peer.network_cfg
            &&& approved.details.chain.our_id == peer.core.full_id.public_id
            &&& approved.details.chain.secret_key_share is None
            &&& approved.connect_type is Relocate <==> stage.join_type is Relocate
        },
{
    if let Ok(State::ApprovedPeer(approved)) = res {
        member_takes_everything_over(peer, stage, gen_pfx_info, approved);
    }
}

/// An approval is handed on as it came, and leaves the node as it is.
pub proof fn handle_node_approval_hands_it_on(
    peer: &mut JoiningPeer,
    gen_pfx_info: GenesisPfxInfo,
    res: Transition,
)
    requires
        call_ensures(JoiningPeer::handle_node_approval, (peer, gen_pfx_info), res),
    ensures
        *final(peer) == *old(peer),
        res == (Transition::Approve { gen_pfx_info }),
{
}

/// A bounced message is sent again after the delay for bounces, whatever the stage, and nothing else
/// happens.
pub proof fn handle_bounce_sends_it_again(
    peer: &mut JoiningPeer,
    sender: P2pNode,
    message: Bytes,
)
    requires
        call_ensures(JoiningPeer::handle_bounce, (peer, sender, message), ()),
    ensures
        final(peer)@.stage == old(peer)@.stage,
        final(peer)@.network_cfg == old(peer)@.network_cfg,
        final(peer)@.core == (CoreState {
            actions: old(peer).core.actions@.push(
                Action::SendMessageLater {
                    dst: sender.peer_addr,
                    message,
                    secs: old(peer).core.bounce_resend_delay,
                },
            ),
            ..old(peer)@.core
        }),
{
    bounce_adds_one_delivery(peer@, sender, message);
}

/// A node that starts over takes the new identity and asks for a connection to a contact. A
/// relocation is forgotten.
pub proof fn rebootstrap_starts_over(peer: &mut JoiningPeer, new_id: FullId)
    requires
        call_ensures(JoiningPeer::rebootstrap, (peer, new_id), ()),
    ensures
        final(peer)@.network_cfg == old(peer)@.network_cfg,
        final(peer)@.stage == StageState::Bootstrapping(
            BootstrappingState {
                pending: Set::empty(),
                tokens: Map::empty(),
                relocate_details: None,
            },
        ),
        final(peer)@.core == (CoreState {
            full_id: new_id,
            actions: old(peer).core.actions@.push(Action::Bootstrap),
            ..old(peer)@.core
        }),
{
    starting_over_takes_the_new_identity(peer@, new_id);
}

/// The name of a node is that of its identity.
pub proof fn name_is_that_of_the_identity(peer: &JoiningPeer, name: &XorName)
    requires
        call_ensures(JoiningPeer::name, (peer,), name),
    ensures
        *name == peer.core.full_id.public_id.name,
{
}

/// A message is for the node if it names the node or whoever is at the other end of the connection.
/// While the node joins, nothing for a section is for it.
pub proof fn in_dst_location_goes_by_name(peer: &JoiningPeer, dst: &DstLocation, res: bool)
    requires
        call_ensures(JoiningPeer::in_dst_location, (peer, dst), res),
    ensures
        res <==> *dst is Direct || *dst == DstLocation::Node(peer.core.full_id.public_id.name),
{
}

/// What the owner wants to send is passed over while the node joins.
pub proof fn handle_send_message_does_nothing(
    peer: &mut JoiningPeer,
    src: SrcLocation,
    dst: DstLocation,
    content: Vec<u8>,
    res: Result<(), RoutingError>,
)
    requires
        call_ensures(JoiningPeer::handle_send_message, (peer, src, dst, content), res),
    ensures
        *final(peer) == *old(peer),
        res is Ok,
{
}

/// A new identity is wanted for the timeout of a first attempt at joining and for no other.
pub proof fn wants_new_id_for_failed_attempts(peer: &JoiningPeer, token: u64, res: bool)
    requires
        call_ensures(JoiningPeer::wants_new_id, (peer, token), res),
    ensures
        res <==> (peer.stage matches Stage::Joining(stage) && stage.join_type == (JoinType::First {
            timeout_token: token,
        })),
{
    if let Stage::Joining(stage) = peer.stage {
        attempt_at_joining_fails_by_its_timer(peer@, stage, token, None);
    }
}

/// A timeout has the effect of a timeout, and leaves the node joining. It can be handled if no new
/// identity is wanted or there is one.
pub proof fn handle_timeout_stays(
    peer: &mut JoiningPeer,
    token: u64,
    new_id: Option<FullId>,
    res: Transition,
)
    requires
        call_ensures(JoiningPeer::handle_timeout, (peer, token, new_id), res),
    ensures
        final(peer)@ == old(peer)@.timed_out(token, new_id),
        res == Transition::Stay,
{
}

/// A connected contact is asked while the node bootstraps, unless it was asked already. Otherwise
/// nothing happens.
pub proof fn handle_bootstrapped_to_asks(
    peer: &mut JoiningPeer,
    conn_info: SocketAddr,
    res: Transition,
)
    requires
        call_ensures(JoiningPeer::handle_bootstrapped_to, (peer, conn_info), res),
    ensures
        res == Transition::Stay,
        final(peer)@ == old(peer)@.bootstrapped_to(conn_info),
        final(peer)@.core.full_id == old(peer)@.core.full_id,
        match old(peer)@.stage {
            StageState::Bootstrapping(stage) if !stage.pending.contains(conn_info) => {
                &&& final(peer)@.stage is Bootstrapping
                &&& final(peer)@.stage->Bootstrapping_0.pending == stage.pending.insert(conn_info)
                &&& final(peer)@.core.actions.last() == (Action::SendDirectMessage {
                    src: old(peer)@.core.full_id.public_id,
                    dst: conn_info,
                    variant: Variant::BootstrapRequest(
                        match stage.relocate_details {
                            Some(details) => details.content.destination,
                            None => old(peer)@.core.full_id.public_id.name,
                        },
                    ),
                })
            },
            _ => final(peer)@ == old(peer)@,
        },
{
    connected_contact_is_asked(peer@, conn_info);
}

/// A node that finds no contact tells its owner that it stops, and stops.
pub proof fn handle_bootstrap_failure_terminates(
    peer: &mut JoiningPeer,
    outbox: &mut Vec<Event>,
    res: Transition,
)
    requires
        call_ensures(JoiningPeer::handle_bootstrap_failure, (peer, outbox), res),
    ensures
        *final(peer) == *old(peer),
        final(outbox)@ == old(outbox)@.push(Event::Terminated),
        res == Transition::Terminate,
{
}

/// The identity to sign is the new one, if there is one, and it is signed with the one that the node
/// holds.
pub proof fn to_sign_names_both_identities(
    peer: &JoiningPeer,
    new_id: &Option<FullId>,
    res: (PublicId, PublicId),
)
    requires
        call_ensures(JoiningPeer::to_sign, (peer, new_id), res),
    ensures
        res.0 == peer.core.full_id.public_id,
        *new_id matches Some(full_id) ==> res.1 == full_id.public_id,
        *new_id is None ==> res.1 == peer.core.full_id.public_id,
{
}

/// Key material is wanted only for an answer of a node over a connection, while the node bootstraps.
pub proof fn wanted_only_for_answers(
    peer: &JoiningPeer,
    sender: Option<SocketAddr>,
    msg: &Message,
    res: Wanted,
)
    requires
        call_ensures(JoiningPeer::wanted, (peer, sender, msg), res),
    ensures
        match (msg.variant, peer@.stage, msg.src.sender_node(sender)) {
            (
                Variant::BootstrapResponse(response),
                StageState::Bootstrapping(stage),
                Ok(node),
            ) => stage.wants(peer@.core, node, response, res),
            _ => res.id_range is None && !res.signature,
        },
{
}

/// A message has the effect of a message.
pub proof fn handle_message_handles_it(
    peer: &mut JoiningPeer,
    sender: Option<SocketAddr>,
    msg: Message,
    provided: Provided,
    res: Result<Transition, RoutingError>,
)
    requires
        call_ensures(JoiningPeer::handle_message, (peer, sender, msg, provided), res),
    ensures
        old(peer)@.handled(sender, msg, provided, final(peer)@, res),
{
}

/// A message that is not handled is sent back as it came, to where it came from, unless it is an
/// answer, knowledge of a member or a message of the consensus protocol.
pub proof fn unhandled_message_is_sent_back(
    peer: &mut JoiningPeer,
    sender: SocketAddr,
    msg: Message,
    msg_bytes: Bytes,
)
    requires
        call_ensures(JoiningPeer::unhandled_message, (peer, Some(sender), msg, msg_bytes), ()),
    ensures
        if msg.variant is BootstrapResponse || msg.variant is MemberKnowledge || msg.variant
            is ParsecRequest || msg.variant is ParsecResponse {
            *final(peer) == *old(peer)
        } else {
            &&& final(peer)@.stage == old(peer)@.stage
            &&& final(peer)@.network_cfg == old(peer)@.network_cfg
            &&& final(peer)@.core == (CoreState {
                actions: old(peer).core.actions@.push(
                    Action::SendDirectMessage {
                        src: old(peer).core.full_id.public_id,
                        dst: sender,
                        variant: Variant::Bounce { elders_version: None, message: msg_bytes },
                    },
                ),
                ..old(peer)@.core
            })
        },
{
    other_messages_are_sent_back(msg.variant);
    sending_back_adds_one_bounce(peer@, sender, msg_bytes);
}

/// Approvals are handled by every node that joins, however it joins. Referrals are handled while the
/// node bootstraps, invitations and bounces always, and nothing else is.
pub proof fn should_handle_message_goes_by_stage(peer: &JoiningPeer, msg: &Message, res: bool)
    requires
        call_ensures(JoiningPeer::should_handle_message, (peer, msg), res),
    ensures
        res <==> match msg.variant {
            Variant::NodeApproval(_) => peer.stage is Joining,
            Variant::BootstrapResponse(BootstrapResponse::Join(_)) => true,
            Variant::BootstrapResponse(BootstrapResponse::Rebootstrap(_)) => peer.stage
                is Bootstrapping,
            Variant::Bounce { .. } => true,
            _ => false,
        },
{
    messages_of_the_stage_are_handled(peer@, msg.variant);
}

/// A message for somebody else is sent back as it came, to where it came from.
pub proof fn relay_message_is_sent_back(
    peer: &mut JoiningPeer,
    sender: SocketAddr,
    msg: &MessageWithBytes,
    res: Result<(), RoutingError>,
)
    requires
        call_ensures(JoiningPeer::relay_message, (peer, Some(sender), msg), res),
    ensures
        res is Ok,
        final(peer)@.stage == old(peer)@.stage,
        final(peer)@.network_cfg == old(peer)@.network_cfg,
        final(peer)@.core == (CoreState {
            actions: old(peer).core.actions@.push(
                Action::SendDirectMessage {
                    src: old(peer).core.full_id.public_id,
                    dst: sender,
                    variant: Variant::Bounce { elders_version: None, message: msg.full_bytes },
                },
            ),
            ..old(peer)@.core
        }),
{
    sending_back_adds_one_bounce(peer@, sender, msg.full_bytes);
}

/// A message is traced to the key of the section that the node was relocated to if it is the
/// approval of a relocated node, and to no key otherwise. Only the approval of a node that joins for
/// the first time is not traced.
pub proof fn keys_to_check_go_by_stage(
    peer: &JoiningPeer,
    msg: &Message,
    res: Option<Vec<(Prefix, SectionKeyInfo)>>,
)
    requires
        call_ensures(JoiningPeer::keys_to_check, (peer, msg), res),
    ensures
        match peer.stage {
            Stage::Joining(stage) if msg.variant is NodeApproval => match stage.join_type {
                JoinType::First { .. } => res is None,
                JoinType::Relocate(payload) => {
                    let key_info = payload.details.content.destination_key_info;
                    res is Some && res->0@ == seq![(key_info.prefix, key_info)]
                },
            },
            _ => res is Some && res->0@.len() == 0,
        },
{
    messages_are_checked_by_stage(peer@, msg.variant);
}

/// A message is accepted if its signatures lead to a trusted key, or if it is the approval of a node
/// that joins for the first time. Any other is refused.
pub proof fn verify_message_wants_trust(
    peer: &JoiningPeer,
    msg: &Message,
    checked: Option<Result<VerifyStatus, RoutingError>>,
    res: Result<bool, RoutingError>,
)
    requires
        call_ensures(JoiningPeer::verify_message, (peer, msg, checked), res),
    ensures
        ({
            let unchecked = msg.variant is NodeApproval && (peer.stage matches Stage::Joining(stage)
                && stage.join_type is First);
            if unchecked {
                res == Ok::<bool, RoutingError>(true)
            } else {
                match checked->0 {
                    Ok(VerifyStatus::Full) => res == Ok::<bool, RoutingError>(true),
                    Ok(VerifyStatus::Unknown) => res == Err::<bool, RoutingError>(
                        RoutingError::UntrustedMessage,
                    ),
                    Err(error) => res == Err::<bool, RoutingError>(error),
                }
            }
        }),
{
    messages_are_checked_by_stage(peer@, msg.variant);
    only_trusted_messages_are_accepted(checked->0);
}

/// A node that follows a referral keeps its relocation: every request that it sends names the name
/// that it is relocated to, or else its own.
pub proof fn reconnect_to_new_section_keeps_the_relocation(
    stage: &mut BootstrappingStage,
    core: &mut Core,
    new_conn_infos: Vec<SocketAddr>,
)
    requires
        call_ensures(
            BootstrappingStage::reconnect_to_new_section,
            (stage, core, new_conn_infos),
            (),
        ),
    ensures
        final(stage).relocate_details == old(stage).relocate_details,
        final(stage)@.pending == new_conn_infos@.to_set(),
        final(core).full_id == old(core).full_id,
        ({
            let asked = without_repeats(Set::empty(), new_conn_infos@);
            let actions = final(core).actions@;
            let m = actions.len() - 2 * asked.len();
            &&& old(core).actions@.len() <= m
            &&& forall|i: int|
                0 <= i < asked.len() ==> actions[m + 2 * i + 1] == (Action::SendDirectMessage {
                    src: old(core).full_id.public_id,
                    dst: #[trigger] asked[i],
                    variant: Variant::BootstrapRequest(
                        match old(stage).relocate_details {
                            Some(details) => details.content.destination,
                            None => old(core).full_id.public_id.name,
                        },
                    ),
                })
            &&& forall|i: int|
                old(core).actions@.len() <= i < m ==> (#[trigger] actions[i]) is Disconnect
        }),
{
    redirection_keeps_the_destination(
        stage@,
        core@,
        new_conn_infos@,
        (final(stage)@, final(core)@),
    );
    let asked = without_repeats(Set::empty(), new_conn_infos@);
    let actions = final(core).actions@;
    let n = old(core).actions@.len() as int;
    let m = actions.len() - 2 * asked.len();
    assert forall|i: int| n <= i < m implies (#[trigger] actions[i]) is Disconnect by {
        assert(actions.subrange(n, m)[i - n] == actions[i]);
    }
}

/// A joining node takes any later elders of a section that its name lies in and asks every one of
/// them, and takes no others.
pub proof fn joining_stage_moves_on_to_later_elders(
    stage: &mut JoiningStage,
    core: &mut Core,
    sender: P2pNode,
    elders_info: EldersInfo,
    res: Result<(), RoutingError>,
)
    requires
        call_ensures(
            JoiningStage::handle_bootstrap_response,
            (stage, core, sender, BootstrapResponse::Join(elders_info)),
            res,
        ),
    ensures
        res is Ok,
        final(stage).join_type == old(stage).join_type,
        final(core).full_id == old(core).full_id,
        ({
            let own = old(core).full_id.public_id.name;
            let elders = elders_info.members@;
            let before = old(core).actions@;
            let after = final(core).actions@;
            let ours = forall|i: int|
                0 <= i < elders_info.prefix.bit_count && i < 256
                    ==> #[trigger] elders_info.prefix.name.bit(i) == own.bit(i);
            if elders_info.version > old(stage).elders_info.version && ours {
                &&& final(stage).elders_info == elders_info
                &&& after.len() == before.len() + elders.len()
                &&& forall|i: int|
                    0 <= i < elders.len() ==> after[before.len() + i] == (
                    Action::SendDirectMessage {
                        src: old(core).full_id.public_id,
                        dst: (#[trigger] elders[i]).peer_addr,
                        variant: Variant::JoinRequest(
                            Box::new(
                                JoinRequest {
                                    elders_version: elders_info.version,
                                    relocate_payload: match old(stage).join_type {
                                        JoinType::First { .. } => None,
                                        JoinType::Relocate(payload) => Some(payload),
                                    },
                                },
                            ),
                        ),
                    })
            } else {
                *final(stage) == *old(stage) && final(core)@ == old(core)@
            }
        }),
{
    elders_are_shown_the_relocation(*final(stage), core@);
}

/// Every elder is asked in turn, told the version of the elders that it belongs to, and shown the
/// relocation if and only if the node is being relocated, whatever the section.
pub proof fn send_join_requests_shows_the_relocation(stage: &JoiningStage, core: &mut Core)
    requires
        call_ensures(JoiningStage::send_join_requests, (stage, core), ()),
    ensures
        ({
            let elders = stage.elders_info.members@;
            let before = old(core).actions@;
            let after = final(core).actions@;
            &&& final(core)@ == (CoreState { actions: after, ..old(core)@ })
            &&& before.is_prefix_of(after)
            &&& after.len() == before.len() + elders.len()
            &&& forall|i: int|
                0 <= i < elders.len() ==> after[before.len() + i] == (Action::SendDirectMessage {
                    src: old(core).full_id.public_id,
                    dst: (#[trigger] elders[i]).peer_addr,
                    variant: Variant::JoinRequest(
                        Box::new(
                            JoinRequest {
                                elders_version: stage.elders_info.version,
                                relocate_payload: match stage.join_type {
                                    JoinType::First { .. } => None,
                                    JoinType::Relocate(payload) => Some(payload),
                                },
                            },
                        ),
                    ),
                })
        }),
{
    elders_are_shown_the_relocation(*stage, core@);
}

/// A timeout fails the attempt at joining only if it is that of a first attempt, and then closes the
/// connections to all the elders in turn.
pub proof fn joining_stage_fails_by_its_timer(
    stage: &mut JoiningStage,
    core: &mut Core,
    token: u64,
    res: bool,
)
    requires
        call_ensures(JoiningStage::handle_timeout, (stage, core, token), res),
    ensures
        *final(stage) == *old(stage),
        res <==> old(stage).join_type == (JoinType::First { timeout_token: token }),
        !res ==> final(core)@ == old(core)@,
        res ==> {
            let elders = old(stage).elders_info.members@;
            let before = old(core).actions@;
            let after = final(core).actions@;
            &&& final(core)@ == (CoreState { actions: after, ..old(core)@ })
            &&& before.is_prefix_of(after)
            &&& after.len() == before.len() + elders.len()
            &&& forall|i: int|
                0 <= i < elders.len() ==> after[before.len() + i] == Action::Disconnect(
                    (#[trigger] elders[i]).peer_addr,
                )
        },
{
}

/// When the events of a node can be handled: connections, failures to connect, bounces and messages
/// to send always, timeouts if no new identity is wanted or there is one, a message if there is the
/// key material that it takes, and the return of a message if it is known where it came from.
pub proof fn events_can_be_handled(
    peer: &mut JoiningPeer,
    outbox: &mut Vec<Event>,
    conn_info: SocketAddr,
    token: u64,
    new_id: Option<FullId>,
    sender: Option<SocketAddr>,
    msg: Message,
    raw: MessageWithBytes,
    provided: Provided,
)
    ensures
        call_requires(JoiningPeer::handle_bootstrapped_to, (peer, conn_info)),
        call_requires(JoiningPeer::handle_bootstrap_failure, (peer, outbox)),
        call_requires(JoiningPeer::should_handle_message, (&*old(peer), &msg)),
        call_requires(JoiningPeer::wanted, (&*old(peer), sender, &msg)),
        call_requires(JoiningPeer::keys_to_check, (&*old(peer), &msg)),
        new_id is Some || !(old(peer).stage matches Stage::Joining(stage) && stage.join_type == (
        JoinType::First { timeout_token: token })) ==> call_requires(
            JoiningPeer::handle_timeout,
            (peer, token, new_id),
        ),
        old(peer)@.can_handle(sender, msg, provided) ==> call_requires(
            JoiningPeer::handle_message,
            (peer, sender, msg, provided),
        ),
        sender is Some ==> call_requires(
            JoiningPeer::unhandled_message,
            (peer, sender, msg, raw.full_bytes),
        ),
        sender is Some ==> call_requires(JoiningPeer::relay_message, (peer, sender, &raw)),
{
}

} // verus!
