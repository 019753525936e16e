//! What holds of a joining node across the events that it handles.
use crate::addr::SocketAddr;
use crate::bootstrapping::{BootstrappingState, BOOTSTRAP_TIMEOUT, EXTRA_SPLIT_COUNT};
use crate::chain::{EldersInfo, GenesisPfxInfo, NetworkParams};
use crate::common::{Action, CoreState};
use crate::error::RoutingError;
use crate::id::{ids_to_sign, FullId, P2pNode, Provided, PublicId, Wanted};
use crate::joining::{JoinType, JoiningStage, JOIN_TIMEOUT};
use crate::joining_peer::{PeerState, StageState};
use crate::messages::{BootstrapResponse, Message, Variant};
use crate::relocation::{RelocatePayload, SignedRelocateDetails};
use crate::state_machine::Transition;
use crate::xor_space::{agree, agreement_is_a_range, Prefix};
use vstd::prelude::*;

verus! {

/// Requests and timeouts are in step: every token belongs to a peer that has yet to answer, and
/// every such peer has exactly one token.
pub open spec fn in_step(stage: BootstrappingState) -> bool {
    &&& forall|token: u64| #[trigger]
        stage.tokens.contains_key(token) ==> stage.pending.contains(stage.tokens[token])
    &&& forall|addr: SocketAddr| #[trigger]
        stage.pending.contains(addr) ==> has_token(stage, addr)
    &&& forall|a: u64, b: u64|
        #![trigger stage.tokens[a], stage.tokens[b]]
        stage.tokens.contains_key(a) && stage.tokens.contains_key(b) && stage.tokens[a]
            == stage.tokens[b] ==> a == b
}

/// Whether the answer of the peer at `addr` can time out.
pub open spec fn has_token(stage: BootstrappingState, addr: SocketAddr) -> bool {
    exists|token: u64| #[trigger]
        stage.tokens.contains_key(token) && stage.tokens[token] == addr
}

/// How far `token` comes behind `first` in the order in which tokens are handed out. Tokens start
/// over after the largest one.
pub open spec fn distance(first: u64, token: u64) -> int {
    if first <= token {
        token - first
    } else {
        token - first + u64::MAX + 1
    }
}

/// Every token in use was handed out no earlier than `first` and before the token `next`.
pub open spec fn handed_out(stage: BootstrappingState, first: u64, next: u64) -> bool {
    forall|token: u64| #[trigger]
        stage.tokens.contains_key(token) ==> distance(first, token) < distance(first, next)
}

/// As long as the node bootstraps, requests and timeouts are in step, and every token in use was
/// handed out since `first`.
pub open spec fn consistent(peer: PeerState, first: u64) -> bool {
    match peer.stage {
        StageState::Bootstrapping(stage) => in_step(stage) && handed_out(
            stage,
            first,
            peer.core.timer.next_token,
        ),
        StageState::Joining(_) => true,
    }
}

/// The states after the given tokens timed out in turn.
spec fn all_timed_out(stage: BootstrappingState, core: CoreState, tokens: Seq<u64>) -> (
    BootstrappingState,
    CoreState,
)
    decreases tokens.len(),
{
    if tokens.len() == 0 {
        (stage, core)
    } else {
        let (stage, core) = all_timed_out(stage, core, tokens.drop_last());
        stage.timed_out(core, tokens.last())
    }
}

/// Asking a peer keeps requests and timeouts in step, provided that the token that is next is not
/// in use.
proof fn lemma_request_keeps_step(stage: BootstrappingState, core: CoreState, dst: SocketAddr)
    requires
        in_step(stage),
        stage.pending.contains(dst) || !stage.tokens.contains_key(core.timer.next_token),
    ensures
        in_step(stage.requested(core, dst).0),
{
    if !stage.pending.contains(dst) {
        let token = core.timer.next_token;
        let next = stage.requested(core, dst).0;
        assert forall|t: u64| #[trigger] next.tokens.contains_key(t) implies next.pending.contains(
            next.tokens[t],
        ) by {
            if t != token {
                assert(stage.tokens.contains_key(t));
            }
        }
        assert forall|addr: SocketAddr| #[trigger] next.pending.contains(addr) implies has_token(
            next,
            addr,
        ) by {
            if addr == dst {
                assert(next.tokens.contains_key(token));
            } else {
                assert(stage.pending.contains(addr));
                let t = choose|t: u64| #[trigger]
                    stage.tokens.contains_key(t) && stage.tokens[t] == addr;
                assert(next.tokens.contains_key(t) && next.tokens[t] == addr);
            }
        }
        assert forall|a: u64, b: u64|
            #![trigger next.tokens[a], next.tokens[b]]
            next.tokens.contains_key(a) && next.tokens.contains_key(b) && next.tokens[a]
                == next.tokens[b] implies a == b by {
            if a != token && b != token {
                assert(stage.tokens[a] == stage.tokens[b]);
            } else if a != token {
                assert(stage.tokens.contains_key(a));
            } else if b != token {
                assert(stage.tokens.contains_key(b));
            }
        }
    }
}

/// A timeout keeps requests and timeouts in step.
proof fn lemma_timeout_keeps_step(stage: BootstrappingState, core: CoreState, token: u64)
    requires
        in_step(stage),
    ensures
        in_step(stage.timed_out(core, token).0),
{
    if stage.tokens.contains_key(token) {
        let next = stage.timed_out(core, token).0;
        let gone = stage.tokens[token];
        assert(stage.pending.contains(gone));
        assert forall|t: u64| #[trigger] next.tokens.contains_key(t) implies next.pending.contains(
            next.tokens[t],
        ) by {
            assert(stage.tokens.contains_key(t));
            assert(stage.tokens[t] != stage.tokens[token]);
        }
        assert forall|addr: SocketAddr| #[trigger] next.pending.contains(addr) implies has_token(
            next,
            addr,
        ) by {
            assert(stage.pending.contains(addr));
            let t = choose|t: u64| #[trigger]
                stage.tokens.contains_key(t) && stage.tokens[t] == addr;
            assert(next.tokens.contains_key(t) && next.tokens[t] == addr);
        }
        assert forall|a: u64, b: u64|
            #![trigger next.tokens[a], next.tokens[b]]
            next.tokens.contains_key(a) && next.tokens.contains_key(b) && next.tokens[a]
                == next.tokens[b] implies a == b by {
            assert(stage.tokens[a] == stage.tokens[b]);
        }
    }
}

/// The order in which a redirected node closed the connections to the peers that had yet to
/// answer.
proof fn lemma_closing_order(
    stage: BootstrappingState,
    core: CoreState,
    dsts: Seq<SocketAddr>,
    next: (BootstrappingState, CoreState),
) -> (order: Seq<SocketAddr>)
    requires
        stage.redirected(core, dsts, next),
    ensures
        stage.redirected_by(core, order, dsts) == next,
        order.no_duplicates(),
        order.to_set() == stage.pending,
{
    choose|order: Seq<SocketAddr>| #[trigger]
        stage.redirected_by(core, order, dsts) == next && order.no_duplicates() && order.to_set()
            == stage.pending
}

/// Asking peers anew brings requests and timeouts in step: the tokens start over after the
/// largest one, but there are more of them than peers to ask.
proof fn lemma_requests_from_fresh(
    details: Option<SignedRelocateDetails>,
    core: CoreState,
    dsts: Seq<SocketAddr>,
) -> (count: int)
    requires
        dsts.len() <= u64::MAX,
    ensures
        ({
            let (stage, next) = BootstrappingState::fresh(details).all_requested(core, dsts);
            &&& in_step(stage)
            &&& stage.pending == dsts.to_set()
            &&& 0 <= count <= dsts.len()
            &&& distance(core.timer.next_token, next.timer.next_token) == count
            &&& forall|token: u64| #[trigger]
                stage.tokens.contains_key(token) ==> distance(core.timer.next_token, token) < count
        }),
    decreases dsts.len(),
{
    if dsts.len() == 0 {
        assert(dsts.to_set() =~= Set::<SocketAddr>::empty());
        0
    } else {
        let count = lemma_requests_from_fresh(details, core, dsts.drop_last());
        let (stage, before) = BootstrappingState::fresh(details).all_requested(
            core,
            dsts.drop_last(),
        );
        let dst = dsts.last();
        lemma_request_keeps_step(stage, before, dst);
        let (next_stage, next) = stage.requested(before, dst);
        assert(dsts.to_set() =~= dsts.drop_last().to_set().insert(dst)) by {
            assert(dsts =~= dsts.drop_last().push(dst));
            assert forall|addr: SocketAddr| dsts.contains(addr) == (dsts.drop_last().contains(addr)
                || addr == dst) by {
                if dsts.contains(addr) && addr != dst {
                    let i = choose|i: int| 0 <= i < dsts.len() && dsts[i] == addr;
                    assert(dsts.drop_last()[i] == addr);
                }
                if dsts.drop_last().contains(addr) {
                    let i = choose|i: int|
                        0 <= i < dsts.drop_last().len() && dsts.drop_last()[i] == addr;
                    assert(dsts[i] == addr);
                }
                assert(dsts[dsts.len() - 1] == dst);
            }
        }
        if stage.pending.contains(dst) {
            assert(next_stage.pending =~= stage.pending.insert(dst));
            count
        } else {
            assert forall|token: u64| #[trigger]
                next_stage.tokens.contains_key(token) implies distance(
                core.timer.next_token,
                token,
            ) < count + 1 by {
                if token != before.timer.next_token {
                    assert(stage.tokens.contains_key(token));
                }
            }
            count + 1
        }
    }
}

/// A node starts with requests and timeouts in step.
pub proof fn new_peer_is_consistent(core: CoreState, network_cfg: NetworkParams)
    ensures
        consistent(PeerState::started(core, network_cfg), core.timer.next_token),
{
}

/// A relocated node starts with requests and timeouts in step, and awaits the answers of exactly
/// the peers that it was told of.
pub proof fn relocated_peer_is_consistent(
    core: CoreState,
    network_cfg: NetworkParams,
    conn_infos: Seq<SocketAddr>,
    details: SignedRelocateDetails,
)
    requires
        conn_infos.len() <= u64::MAX,
    ensures
        ({
            let peer = PeerState::relocated(core, network_cfg, conn_infos, details);
            &&& consistent(peer, core.timer.next_token)
            &&& peer.stage->Bootstrapping_0.pending == conn_infos.to_set()
        }),
{
    let _ = lemma_requests_from_fresh(Some(details), core, conn_infos);
}

/// Connecting to a contact keeps requests and timeouts in step: the token that is next is not in
/// use. Only if all the other tokens have been handed out since `first`, so that the tokens come
/// upon `first` anew, is it no longer known that every token in use was handed out since.
pub proof fn connection_keeps_consistency(peer: PeerState, conn_info: SocketAddr, first: u64)
    requires
        consistent(peer, first),
    ensures
        ({
            let next = peer.bootstrapped_to(conn_info);
            &&& next.stage matches StageState::Bootstrapping(stage) ==> in_step(stage)
            &&& distance(first, peer.core.timer.next_token) < u64::MAX || next == peer
                ==> consistent(next, first)
        }),
{
    if let StageState::Bootstrapping(stage) = peer.stage {
        lemma_request_keeps_step(stage, peer.core, conn_info);
        if !stage.pending.contains(conn_info) {
            let token = peer.core.timer.next_token;
            let (next_stage, next) = stage.requested(peer.core, conn_info);
            if distance(first, token) < u64::MAX {
                assert(distance(first, next.timer.next_token) == distance(first, token) + 1);
                assert forall|t: u64| #[trigger] next_stage.tokens.contains_key(t) implies distance(
                    first,
                    t,
                ) < distance(first, next.timer.next_token) by {
                    if t != token {
                        assert(stage.tokens.contains_key(t));
                    }
                }
            }
        }
    }
}

/// A timeout keeps requests and timeouts in step.
pub proof fn timeout_keeps_consistency(
    peer: PeerState,
    token: u64,
    new_id: Option<FullId>,
    first: u64,
)
    requires
        consistent(peer, first),
    ensures
        consistent(peer.timed_out(token, new_id), first),
{
    if let StageState::Bootstrapping(stage) = peer.stage {
        lemma_timeout_keeps_step(stage, peer.core, token);
    }
}

/// A message keeps requests and timeouts in step. If it refers the node to other peers, then every
/// token in use is one that was handed out while it was handled.
pub proof fn message_keeps_consistency(
    peer: PeerState,
    sender: Option<SocketAddr>,
    msg: Message,
    provided: Provided,
    next: PeerState,
    res: Result<Transition, RoutingError>,
    first: u64,
)
    requires
        consistent(peer, first),
        peer.handled(sender, msg, provided, next, res),
        msg.variant matches Variant::BootstrapResponse(BootstrapResponse::Rebootstrap(dsts))
            ==> dsts@.len() <= u64::MAX,
    ensures
        consistent(next, first) || consistent(next, peer.core.timer.next_token),
        !(msg.variant is BootstrapResponse && msg.variant->BootstrapResponse_0 is Rebootstrap)
            ==> consistent(next, first),
{
    if let Variant::BootstrapResponse(response) = msg.variant {
        if let Ok(node) = msg.src.sender_node(sender) {
            if let StageState::Bootstrapping(stage) = peer.stage {
                let r: Result<(), RoutingError> = match res {
                    Ok(_) => Ok(()),
                    Err(error) => Err(error),
                };
                assert(peer.answered(node, response, provided, next, r));
                let (left, outcome) = choose|
                    left: BootstrappingState,
                    outcome: Result<Option<JoiningStage>, RoutingError>,
                | #[trigger]
                    stage.answered(
                        peer.core,
                        node,
                        response,
                        provided,
                        (left, next.core),
                        outcome,
                    ) && PeerState::moved_on(left, outcome, next.stage, r);
                if !(outcome matches Ok(Some(_))) {
                    lemma_answer_keeps_step(
                        stage,
                        peer.core,
                        node,
                        response,
                        provided,
                        (left, next.core),
                        outcome,
                        first,
                    );
                }
            }
        }
    }
}

/// An answer keeps requests and timeouts in step as long as it leaves the node bootstrapping.
proof fn lemma_answer_keeps_step(
    stage: BootstrappingState,
    core: CoreState,
    sender: P2pNode,
    response: BootstrapResponse,
    provided: Provided,
    next: (BootstrappingState, CoreState),
    res: Result<Option<JoiningStage>, RoutingError>,
    first: u64,
)
    requires
        in_step(stage),
        handed_out(stage, first, core.timer.next_token),
        stage.answered(core, sender, response, provided, next, res),
        !(res matches Ok(Some(_))),
        response matches BootstrapResponse::Rebootstrap(dsts) ==> dsts@.len() <= u64::MAX,
    ensures
        in_step(next.0),
        handed_out(next.0, first, next.1.timer.next_token) || response is Rebootstrap && handed_out(
            next.0,
            core.timer.next_token,
            next.1.timer.next_token,
        ),
{
    if stage.pending.contains(sender.peer_addr) {
        match response {
            BootstrapResponse::Join(elders_info) => {
                assert(next.0.pending == stage.pending);
                assert(next.0.tokens == stage.tokens);
                assert forall|addr: SocketAddr| #[trigger]
                    next.0.pending.contains(addr) implies has_token(next.0, addr) by {
                    assert(has_token(stage, addr));
                    let t = choose|t: u64| #[trigger]
                        stage.tokens.contains_key(t) && stage.tokens[t] == addr;
                    assert(next.0.tokens.contains_key(t));
                }
            },
            BootstrapResponse::Rebootstrap(dsts) => {
                let order = lemma_closing_order(stage, core, dsts@, next);
                let _ = lemma_requests_from_fresh(
                    stage.relocate_details,
                    core.disconnected(order),
                    dsts@,
                );
            },
        }
    }
}

/// A redirected node awaits the answers of exactly the peers that it was referred to, requests and
/// timeouts are in step whatever was the case before, and the connections to all the peers that
/// had yet to answer are closed.
pub proof fn redirected_node_awaits_new_peers(
    stage: BootstrappingState,
    core: CoreState,
    dsts: Seq<SocketAddr>,
    next: (BootstrappingState, CoreState),
)
    requires
        stage.redirected(core, dsts, next),
        dsts.len() <= u64::MAX,
    ensures
        in_step(next.0),
        handed_out(next.0, core.timer.next_token, next.1.timer.next_token),
        next.0.pending == dsts.to_set(),
        forall|addr: SocketAddr| #[trigger]
            stage.pending.contains(addr) ==> next.1.actions.contains(Action::Disconnect(addr)),
{
    let order = lemma_closing_order(stage, core, dsts, next);
    let _ = lemma_requests_from_fresh(stage.relocate_details, core.disconnected(order), dsts);
    lemma_requests_only_add(
        BootstrappingState::fresh(stage.relocate_details),
        core.disconnected(order),
        dsts,
    );
    assert forall|addr: SocketAddr| #[trigger]
        stage.pending.contains(addr) implies next.1.actions.contains(
        Action::Disconnect(addr),
    ) by {
        assert(order.to_set().contains(addr));
        let i = choose|i: int| 0 <= i < order.len() && order[i] == addr;
        let k = core.actions.len() + i;
        assert(core.disconnected(order).actions[k] == Action::Disconnect(addr));
        assert(next.1.actions[k] == Action::Disconnect(addr));
    }
}

/// Asking peers adds to what was asked of the network and takes nothing back.
proof fn lemma_requests_only_add(
    stage: BootstrappingState,
    core: CoreState,
    dsts: Seq<SocketAddr>,
)
    ensures
        core.actions.is_prefix_of(stage.all_requested(core, dsts).1.actions),
        stage.all_requested(core, dsts).1.full_id == core.full_id,
        stage.all_requested(core, dsts).0.relocate_details == stage.relocate_details,
    decreases dsts.len(),
{
    if dsts.len() > 0 {
        lemma_requests_only_add(stage, core, dsts.drop_last());
    }
}

/// What is left after the given tokens timed out in turn: the peers whose tokens were not among
/// them. Once nobody is left, the last thing that the node asked for is to bootstrap anew.
proof fn lemma_timeouts(stage: BootstrappingState, core: CoreState, tokens: Seq<u64>)
    requires
        in_step(stage),
        stage.pending != Set::<SocketAddr>::empty(),
    ensures
        ({
            let (next_stage, next) = all_timed_out(stage, core, tokens);
            &&& in_step(next_stage)
            &&& forall|token: u64| #[trigger]
                next_stage.tokens.contains_key(token) <==> stage.tokens.contains_key(token)
                    && !tokens.contains(token)
            &&& core.actions.is_prefix_of(next.actions)
            &&& next.full_id == core.full_id
            &&& next_stage.pending == Set::<SocketAddr>::empty() ==> next.actions.len()
                > core.actions.len() && next.actions.last() == Action::Bootstrap
        }),
    decreases tokens.len(),
{
    if tokens.len() > 0 {
        let before = tokens.drop_last();
        let token = tokens.last();
        lemma_timeouts(stage, core, before);
        let (mid_stage, mid) = all_timed_out(stage, core, before);
        lemma_timeout_keeps_step(mid_stage, mid, token);
        let (next_stage, next) = all_timed_out(stage, core, tokens);
        assert(tokens =~= before.push(token));
        assert forall|t: u64| #[trigger] next_stage.tokens.contains_key(t)
            <==> stage.tokens.contains_key(t) && !tokens.contains(t) by {
            assert(mid_stage.tokens.contains_key(t) <==> stage.tokens.contains_key(t)
                && !before.contains(t));
            assert(tokens.contains(t) <==> before.contains(t) || t == token) by {
                if before.contains(t) {
                    let i = choose|i: int| 0 <= i < before.len() && before[i] == t;
                    assert(tokens[i] == t);
                }
                if tokens.contains(t) && t != token {
                    let i = choose|i: int| 0 <= i < tokens.len() && tokens[i] == t;
                    assert(before[i] == t);
                }
                assert(tokens[tokens.len() - 1] == token);
            }
        }
        if mid_stage.tokens.contains_key(token) {
            assert(mid_stage.pending.contains(mid_stage.tokens[token]));
        }
    }
}

/// The state after the given tokens timed out in turn.
pub open spec fn after_timeouts(peer: PeerState, tokens: Seq<u64>) -> PeerState
    decreases tokens.len(),
{
    if tokens.len() == 0 {
        peer
    } else {
        after_timeouts(peer, tokens.drop_last()).timed_out(tokens.last(), None)
    }
}

/// Timeouts leave a bootstrapping node bootstrapping.
proof fn lemma_after_timeouts(peer: PeerState, tokens: Seq<u64>)
    requires
        peer.stage is Bootstrapping,
    ensures
        ({
            let (stage, core) = all_timed_out(peer.stage->Bootstrapping_0, peer.core, tokens);
            after_timeouts(peer, tokens) == (PeerState {
                core,
                stage: StageState::Bootstrapping(stage),
                ..peer
            })
        }),
    decreases tokens.len(),
{
    if tokens.len() > 0 {
        lemma_after_timeouts(peer, tokens.drop_last());
    }
}

/// A node that bootstraps does not stall: once the answers of all the peers that it has asked have
/// timed out, in whatever order, nobody is left to answer, and the last thing that the node asked
/// for is to bootstrap anew.
pub proof fn silence_leads_to_rebootstrap(peer: PeerState, tokens: Seq<u64>, first: u64)
    requires
        consistent(peer, first),
        peer.stage is Bootstrapping,
        peer.stage->Bootstrapping_0.pending != Set::<SocketAddr>::empty(),
        forall|token: u64| #[trigger]
            peer.stage->Bootstrapping_0.tokens.contains_key(token) ==> tokens.contains(token),
    ensures
        ({
            let next = after_timeouts(peer, tokens);
            &&& next.stage is Bootstrapping
            &&& next.stage->Bootstrapping_0.pending == Set::<SocketAddr>::empty()
            &&& next.stage->Bootstrapping_0.tokens == Map::<u64, SocketAddr>::empty()
            &&& consistent(next, next.core.timer.next_token)
            &&& next.core.full_id == peer.core.full_id
            &&& next.core.actions.len() > peer.core.actions.len()
            &&& next.core.actions.last() == Action::Bootstrap
            &&& peer.core.actions.is_prefix_of(next.core.actions)
        }),
{
    let stage = peer.stage->Bootstrapping_0;
    lemma_after_timeouts(peer, tokens);
    lemma_timeouts(stage, peer.core, tokens);
    let (next_stage, next) = all_timed_out(stage, peer.core, tokens);
    assert(next_stage.tokens =~= Map::<u64, SocketAddr>::empty());
    assert forall|addr: SocketAddr| !next_stage.pending.contains(addr) by {
        if next_stage.pending.contains(addr) {
            assert(has_token(next_stage, addr));
        }
    }
    assert(next_stage.pending =~= Set::<SocketAddr>::empty());
}

/// While a node bootstraps and some peer has yet to answer, there is a timeout to come.
pub proof fn awaited_answers_can_time_out(peer: PeerState, addr: SocketAddr, first: u64)
    requires
        consistent(peer, first),
        peer.stage is Bootstrapping,
        peer.stage->Bootstrapping_0.pending.contains(addr),
    ensures
        has_token(peer.stage->Bootstrapping_0, addr),
{
}

/// Asking a peer that has yet to answer once more changes nothing.
pub proof fn asking_twice_is_asking_once(
    stage: BootstrappingState,
    core: CoreState,
    dst: SocketAddr,
)
    ensures
        ({
            let (next_stage, next) = stage.requested(core, dst);
            next_stage.requested(next, dst) == (next_stage, next)
        }),
{
}

/// A peer is asked under a timer of its own: the token by which its answer times out is the one of
/// a timer that was started for the length of a bootstrap attempt.
pub proof fn request_starts_its_timer(
    stage: BootstrappingState,
    core: CoreState,
    dst: SocketAddr,
)
    requires
        !stage.pending.contains(dst),
    ensures
        ({
            let (next_stage, next) = stage.requested(core, dst);
            let token = core.timer.next_token;
            &&& next_stage.tokens.contains_key(token)
            &&& next_stage.tokens[token] == dst
            &&& next.actions == core.actions.push(
                Action::StartTimer { token, secs: BOOTSTRAP_TIMEOUT },
            ).push(
                Action::SendDirectMessage {
                    src: core.full_id.public_id,
                    dst,
                    variant: Variant::BootstrapRequest(stage.destination(core.name())),
                },
            )
        }),
{
}

/// What is wanted for a message suffices to handle it: a node that made what it was told to make
/// can handle every message that it is supposed to handle, and can verify it before. In
/// particular no such message is of a kind that the node does not expect.
pub proof fn expected_messages_can_be_handled(
    peer: PeerState,
    sender: Option<SocketAddr>,
    msg: Message,
    wanted: Wanted,
    provided: Provided,
)
    requires
        peer.handles(msg.variant),
        match (msg.variant, peer.stage, msg.src.sender_node(sender)) {
            (
                Variant::BootstrapResponse(response),
                StageState::Bootstrapping(stage),
                Ok(node),
            ) => stage.wants(peer.core, node, response, wanted),
            _ => wanted == (Wanted { id_range: None, signature: false }),
        },
        provided.meets(
            peer.core.full_id.public_id,
            wanted.id_range is Some,
            wanted.signature,
        ),
    ensures
        peer.can_verify(msg.variant),
        peer.can_handle(sender, msg, provided),
{
}

/// A node is told to become a member only by an approval that a section has sent to it, and a node
/// that handles no other messages than it is supposed to is then in the stage of joining.
pub proof fn approval_finds_the_node_joining(
    peer: PeerState,
    sender: Option<SocketAddr>,
    msg: Message,
    provided: Provided,
    next: PeerState,
    gen_pfx_info: GenesisPfxInfo,
)
    requires
        peer.handles(msg.variant),
        peer.handled(
            sender,
            msg,
            provided,
            next,
            Ok(Transition::Approve { gen_pfx_info }),
        ),
    ensures
        msg.variant == Variant::NodeApproval(Box::new(gen_pfx_info)),
        msg.src is Section,
        msg.dst is Node,
        next == peer,
        next.stage is Joining,
{
}

/// A joining node has a name close to its destination: if a newly made identity has a name in the
/// wanted range, then the name under which the node joins lies in every section that the
/// destination lies in, up to a few splits from the section that it joins.
pub proof fn joining_name_survives_splits(
    stage: BootstrappingState,
    core: CoreState,
    sender: P2pNode,
    elders_info: EldersInfo,
    wanted: Wanted,
    provided: Provided,
    section: Prefix,
)
    requires
        stage.pending.contains(sender.peer_addr),
        stage.wants(core, sender, BootstrapResponse::Join(elders_info), wanted),
        wanted.id_range matches Some(range) ==> {
            let name = provided.full_id->0.public_id.name;
            range.0.at_most(name) && name.at_most(range.1)
        },
        section.bit_count <= elders_info.prefix.bit_count + EXTRA_SPLIT_COUNT,
        section.covers(stage.destination(core.name())),
    ensures
        section.covers(stage.section_joined(core, elders_info, provided).1.name()),
{
    let destination = stage.destination(core.name());
    let n = elders_info.prefix.bit_count + EXTRA_SPLIT_COUNT;
    let name = stage.section_joined(core, elders_info, provided).1.name();
    assert(name == stage.identified(core, elders_info, provided).name());
    if let Some(range) = wanted.id_range {
        agreement_is_a_range(destination, n, range, name);
    }
    assert(agree(destination, name, n));
    assert forall|i: int| 0 <= i < section.bit_count && i < 256 implies #[trigger] section.name.bit(
        i,
    ) == name.bit(i) by {
        assert(section.name.bit(i) == destination.bit(i));
        assert(destination.bit(i) == name.bit(i));
    }
}

/// A node joins under its own name if that is close enough to the destination: the identity
/// changes only if a new one was wanted.
pub proof fn identity_changes_only_if_wanted(
    stage: BootstrappingState,
    core: CoreState,
    sender: P2pNode,
    response: BootstrapResponse,
    wanted: Wanted,
    provided: Provided,
    next: (BootstrappingState, CoreState),
    res: Result<Option<JoiningStage>, RoutingError>,
)
    requires
        stage.wants(core, sender, response, wanted),
        stage.answered(core, sender, response, provided, next, res),
    ensures
        next.1.full_id == (if wanted.id_range is Some {
            provided.full_id->0
        } else {
            core.full_id
        }),
{
    if stage.pending.contains(sender.peer_addr) {
        if let BootstrapResponse::Rebootstrap(dsts) = response {
            let order = lemma_closing_order(stage, core, dsts@, next);
            lemma_requests_only_add(
                BootstrappingState::fresh(stage.relocate_details),
                core.disconnected(order),
                dsts@,
            );
        }
    }
}

/// A relocated node shows that it is the node that was relocated: what it was told to sign is the
/// public part of the identity under which it joins, what it was told to sign it with is the
/// identity that it held before, and such a signature is what the elders are sent. No timer is
/// started for the attempt.
pub proof fn relocation_is_signed_with_the_old_identity(
    stage: BootstrappingState,
    core: CoreState,
    sender: P2pNode,
    elders_info: EldersInfo,
    wanted: Wanted,
    provided: Provided,
    ids: (PublicId, PublicId),
)
    requires
        stage.pending.contains(sender.peer_addr),
        stage.wants(core, sender, BootstrapResponse::Join(elders_info), wanted),
        wanted.signature,
        provided.full_id is Some == wanted.id_range is Some,
        ids == ids_to_sign(core.full_id.public_id, provided.full_id),
        provided.signature is Some,
        provided.signature->0 matches Ok(made) ==> made.is_of(ids.1, ids.0),
    ensures
        stage.can_join(core, elders_info, provided),
        ({
            let (_, next, res) = stage.section_joined(core, elders_info, provided);
            &&& ids == (core.full_id.public_id, next.full_id.public_id)
            &&& next.timer == core.timer
            &&& next.actions == core.actions
            &&& match provided.signature->0 {
                Ok(made) => res == Ok::<JoinType, RoutingError>(
                    JoinType::Relocate(
                        RelocatePayload {
                            details: stage.relocate_details->0,
                            signature_of_new_id_with_old_id: made,
                        },
                    ),
                ) && made.is_of(next.full_id.public_id, core.full_id.public_id),
                Err(error) => res == Err::<JoinType, RoutingError>(error),
            }
        }),
{
}

/// A peer that was not asked cannot make the node do anything but close the connection to it.
pub proof fn strangers_are_turned_away(
    stage: BootstrappingState,
    core: CoreState,
    sender: P2pNode,
    response: BootstrapResponse,
    provided: Provided,
    next: (BootstrappingState, CoreState),
    res: Result<Option<JoiningStage>, RoutingError>,
)
    requires
        !stage.pending.contains(sender.peer_addr),
        stage.answered(core, sender, response, provided, next, res),
    ensures
        next.0 == stage,
        next.1 == core.asked(Action::Disconnect(sender.peer_addr)),
        res == Ok::<Option<JoiningStage>, RoutingError>(None),
{
}

/// A joining node only ever moves on to later elders, of a section that its name lies in, and
/// keeps its way of joining and its identity.
pub proof fn elders_only_advance(
    peer: PeerState,
    sender: P2pNode,
    response: BootstrapResponse,
    provided: Provided,
    next: PeerState,
    res: Result<(), RoutingError>,
)
    requires
        peer.stage is Joining,
        peer.answered(sender, response, provided, next, res),
    ensures
        next.stage is Joining,
        next.core.full_id == peer.core.full_id,
        next.stage->Joining_0.join_type == peer.stage->Joining_0.join_type,
        next.stage == peer.stage || {
            let elders_info = next.stage->Joining_0.elders_info;
            &&& peer.stage->Joining_0.elders_info.version < elders_info.version
            &&& elders_info.prefix.covers(peer.core.name())
            &&& response == BootstrapResponse::Join(elders_info)
        },
{
}

/// The attempt of a relocated node at joining does not time out.
pub proof fn relocation_has_no_timeout(peer: PeerState, token: u64, new_id: Option<FullId>)
    requires
        peer.stage is Joining,
        peer.stage->Joining_0.join_type is Relocate,
    ensures
        !peer.fails_by(token),
        peer.timed_out(token, new_id) == peer,
{
}

/// A node that joins for the first time starts a timer for the attempt.
pub proof fn first_join_starts_its_timer(
    stage: BootstrappingState,
    core: CoreState,
    elders_info: EldersInfo,
    provided: Provided,
)
    requires
        stage.relocate_details is None,
    ensures
        ({
            let (_, next, res) = stage.section_joined(core, elders_info, provided);
            let token = core.timer.next_token;
            &&& res == Ok::<JoinType, RoutingError>(JoinType::First { timeout_token: token })
            &&& next.actions == core.actions.push(Action::StartTimer { token, secs: JOIN_TIMEOUT })
        }),
{
}

/// When the attempt at joining times out, the node closes the connections to all the elders and
/// starts over: nobody is awaited, the identity is the new one, and the last thing asked for is to
/// bootstrap.
pub proof fn failed_join_starts_over(peer: PeerState, token: u64, new_id: FullId)
    requires
        peer.fails_by(token),
    ensures
        ({
            let next = peer.timed_out(token, Some(new_id));
            let elders = peer.stage->Joining_0.elders_info.members@;
            &&& next.stage == StageState::Bootstrapping(BootstrappingState::fresh(None))
            &&& next.core.full_id == new_id
            &&& next.core.actions.last() == Action::Bootstrap
            &&& forall|i: int|
                0 <= i < elders.len() ==> next.core.actions.contains(
                    Action::Disconnect((#[trigger] elders[i]).peer_addr),
                )
        }),
{
    let next = peer.timed_out(token, Some(new_id));
    let elders = peer.stage->Joining_0.elders_info.members@;
    assert forall|i: int| 0 <= i < elders.len() implies next.core.actions.contains(
        Action::Disconnect((#[trigger] elders[i]).peer_addr),
    ) by {
        let k = peer.core.actions.len() + i;
        assert(next.core.actions[k] == Action::Disconnect(elders[i].peer_addr));
    }
}

/// A node that joins a section has asked every elder of it, under the identity that it joins with.
pub proof fn every_elder_is_asked(stage: JoiningStage, core: CoreState, i: int)
    requires
        0 <= i < stage.elders_info.members@.len(),
    ensures
        stage.requests_sent(core).actions.len() == core.actions.len()
            + stage.elders_info.members@.len(),
        stage.requests_sent(core).actions[core.actions.len() + i] == (Action::SendDirectMessage {
            src: core.full_id.public_id,
            dst: stage.elders_info.members@[i].peer_addr,
            variant: Variant::JoinRequest(Box::new(stage.join_request())),
        }),
{
}

/// What a node has asked of the network and of the clock is never taken back: connections and
/// timeouts only add to it.
pub proof fn timeouts_and_connections_only_add(
    peer: PeerState,
    token: u64,
    new_id: Option<FullId>,
    conn_info: SocketAddr,
)
    ensures
        peer.core.actions.is_prefix_of(peer.timed_out(token, new_id).core.actions),
        peer.core.actions.is_prefix_of(peer.bootstrapped_to(conn_info).core.actions),
{
}

/// What a node has asked of the network and of the clock is never taken back, and its parameters
/// stay the same: messages only add to what was asked.
pub proof fn messages_only_add(
    peer: PeerState,
    sender: Option<SocketAddr>,
    msg: Message,
    provided: Provided,
    next: PeerState,
    res: Result<Transition, RoutingError>,
)
    requires
        peer.handled(sender, msg, provided, next, res),
    ensures
        peer.core.actions.is_prefix_of(next.core.actions),
        next.network_cfg == peer.network_cfg,
{
    if let Variant::BootstrapResponse(BootstrapResponse::Rebootstrap(dsts)) = msg.variant {
        if let Ok(node) = msg.src.sender_node(sender) {
            if let StageState::Bootstrapping(stage) = peer.stage {
                if stage.pending.contains(node.peer_addr) {
                    let left = next.stage->Bootstrapping_0;
                    let order = lemma_closing_order(stage, peer.core, dsts@, (left, next.core));
                    lemma_requests_only_add(
                        BootstrappingState::fresh(stage.relocate_details),
                        peer.core.disconnected(order),
                        dsts@,
                    );
                }
            }
        }
    }
}

/// The only message that a node takes without a check is the approval of a node that joins for the
/// first time, which has no trusted key to verify it with. An approval of a relocated node is
/// checked against the key of the section that it was relocated to.
pub proof fn only_first_approval_is_unchecked(peer: PeerState, variant: Variant)
    ensures
        peer.checking_keys(variant) is None <==> peer.stage is Joining
            && peer.stage->Joining_0.join_type is First && variant is NodeApproval,
        peer.stage is Joining && variant is NodeApproval ==> (
        peer.stage->Joining_0.join_type matches JoinType::Relocate(payload) ==> {
            let key_info = payload.details.content.destination_key_info;
            peer.checking_keys(variant) == Some(seq![(key_info.prefix, key_info)])
        }),
{
}

} // verus!
