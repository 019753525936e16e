//! What each event does to a joining node.
use crate::addr::SocketAddr;
use crate::bootstrapping::BootstrappingState;
use crate::chain::{EldersInfo, GenesisPfxInfo, NetworkParams};
use crate::common::{Action, CoreState, Timer};
use crate::error::RoutingError;
use crate::id::{ids_to_sign, FullId, P2pNode, Provided, PublicId, Wanted};
use crate::joining::{fully_verified, JoinType, JoiningStage};
use crate::joining_peer::{is_dropped, JoiningPeer, PeerState, Stage, StageState};
use crate::messages::{
    BootstrapResponse, JoinRequest, Message, MessageWithBytes, SrcAuthority, Variant, VerifyStatus,
};
use crate::relocation::{RelocatePayload, SignedRelocateDetails};
use crate::state_machine::{ApprovedPeer, Transition};
use crate::xor_space::{agreement_is_a_range, XorName};
use bytes::Bytes;
use vstd::prelude::*;

verus! {

/// The state of a node shows everything that the node holds.
pub proof fn state_shows_the_whole_node(peer: JoiningPeer)
    ensures
        peer@.network_cfg == peer.network_cfg,
        peer@.core.full_id == peer.core.full_id,
        peer@.core.msg_filter == peer.core.msg_filter,
        peer@.core.timer == peer.core.timer,
        peer@.core.bounce_resend_delay == peer.core.bounce_resend_delay,
        peer@.core.actions == peer.core.actions@,
        match peer.stage {
            Stage::Bootstrapping(stage) => peer@.stage == StageState::Bootstrapping(
                BootstrappingState {
                    pending: stage.pending_requests@,
                    tokens: stage.timeout_tokens@,
                    relocate_details: stage.relocate_details,
                },
            ),
            Stage::Joining(stage) => peer@.stage == StageState::Joining(stage),
        },
{
}

/// A node that joins for the first time keeps what it was given, awaits nobody, is not being
/// relocated, and asks for nothing but a connection to a contact.
pub proof fn new_node_bootstraps(core: CoreState, network_cfg: NetworkParams)
    ensures
        PeerState::started(core, network_cfg) == (PeerState {
            core: CoreState { actions: core.actions.push(Action::Bootstrap), ..core },
            stage: StageState::Bootstrapping(
                BootstrappingState {
                    pending: Set::empty(),
                    tokens: Map::empty(),
                    relocate_details: None,
                },
            ),
            network_cfg,
        }),
{
}

/// A node that starts over takes the new identity, awaits nobody, is no longer being relocated, and
/// asks for nothing but a connection to a contact.
pub proof fn starting_over_takes_the_new_identity(peer: PeerState, new_id: FullId)
    ensures
        peer.rebootstrapped(new_id) == (PeerState {
            core: CoreState {
                full_id: new_id,
                actions: peer.core.actions.push(Action::Bootstrap),
                ..peer.core
            },
            stage: StageState::Bootstrapping(
                BootstrappingState {
                    pending: Set::empty(),
                    tokens: Map::empty(),
                    relocate_details: None,
                },
            ),
            network_cfg: peer.network_cfg,
        }),
{
}

/// A contact is asked as soon as it is connected, once, for the section of the name that the node
/// is relocated to or else of its own name, and its answer can time out after 20 seconds. A node
/// that is already joining does not ask.
pub proof fn connected_contact_is_asked(peer: PeerState, conn_info: SocketAddr)
    ensures
        peer.stage is Joining ==> peer.bootstrapped_to(conn_info) == peer,
        peer.stage matches StageState::Bootstrapping(stage) ==> {
            let next = peer.bootstrapped_to(conn_info);
            let token = peer.core.timer.next_token;
            if stage.pending.contains(conn_info) {
                next == peer
            } else {
                &&& next.network_cfg == peer.network_cfg
                &&& next.stage == StageState::Bootstrapping(
                    BootstrappingState {
                        pending: stage.pending.insert(conn_info),
                        tokens: stage.tokens.insert(token, conn_info),
                        relocate_details: stage.relocate_details,
                    },
                )
                &&& next.core == (CoreState {
                    timer: Timer { next_token: ((token + 1) % 0x1_0000_0000_0000_0000) as u64 },
                    actions: peer.core.actions + seq![
                        Action::StartTimer { token, secs: 20 },
                        Action::SendDirectMessage {
                            src: peer.core.full_id.public_id,
                            dst: conn_info,
                            variant: Variant::BootstrapRequest(
                                match stage.relocate_details {
                                    Some(details) => details.content.destination,
                                    None => peer.core.full_id.public_id.name,
                                },
                            ),
                        },
                    ],
                    ..peer.core
                })
            }
        },
{
    if let StageState::Bootstrapping(stage) = peer.stage {
        let next = peer.bootstrapped_to(conn_info);
        if !stage.pending.contains(conn_info) {
            let added = next.core.actions.subrange(
                peer.core.actions.len() as int,
                next.core.actions.len() as int,
            );
            assert(next.core.actions =~= peer.core.actions + added);
            assert(added =~= seq![added[0], added[1]]);
        }
    }
}

/// The addresses in `dsts` that are not among `known`, each in the place where it comes first.
pub open spec fn without_repeats(known: Set<SocketAddr>, dsts: Seq<SocketAddr>) -> Seq<SocketAddr>
    decreases dsts.len(),
{
    if dsts.len() == 0 {
        Seq::empty()
    } else {
        let before = without_repeats(known, dsts.drop_last());
        if known.contains(dsts.last()) || before.contains(dsts.last()) {
            before
        } else {
            before.push(dsts.last())
        }
    }
}

/// Removing repeats loses nobody and names nobody twice.
pub proof fn repeats_are_removed(known: Set<SocketAddr>, dsts: Seq<SocketAddr>)
    ensures
        without_repeats(known, dsts).no_duplicates(),
        without_repeats(known, dsts).len() <= dsts.len(),
        forall|addr: SocketAddr| #[trigger]
            without_repeats(known, dsts).contains(addr) <==> dsts.contains(addr) && !known.contains(
                addr,
            ),
    decreases dsts.len(),
{
    if dsts.len() > 0 {
        let last = dsts.last();
        let front = dsts.drop_last();
        let before = without_repeats(known, front);
        let asked = without_repeats(known, dsts);
        repeats_are_removed(known, front);
        assert forall|addr: SocketAddr| #[trigger]
            asked.contains(addr) <==> dsts.contains(addr) && !known.contains(addr) by {
            assert(before.contains(addr) <==> front.contains(addr) && !known.contains(addr));
            assert(dsts.contains(addr) <==> front.contains(addr) || addr == last) by {
                assert(dsts =~= front.push(last));
                if front.contains(addr) {
                    let i = choose|i: int| 0 <= i < front.len() && front[i] == addr;
                    assert(dsts[i] == addr);
                }
                if dsts.contains(addr) && addr != last {
                    let i = choose|i: int| 0 <= i < dsts.len() && dsts[i] == addr;
                    assert(front[i] == addr);
                }
                assert(dsts[dsts.len() - 1] == last);
            }
            if asked != before {
                if before.contains(addr) {
                    let i = choose|i: int| 0 <= i < before.len() && before[i] == addr;
                    assert(asked[i] == addr);
                }
                if asked.contains(addr) && addr != last {
                    let i = choose|i: int| 0 <= i < asked.len() && asked[i] == addr;
                    assert(before[i] == addr);
                }
                assert(asked[asked.len() - 1] == last);
            }
        }
    } else {
        assert(without_repeats(known, dsts) =~= Seq::empty());
    }
}

/// What a sequence begins with is where it was.
proof fn lemma_prefix(before: Seq<Action>, after: Seq<Action>)
    requires
        before.is_prefix_of(after),
    ensures
        before.len() <= after.len(),
        forall|i: int| 0 <= i < before.len() ==> #[trigger] after[i] == before[i],
{
    assert forall|i: int| 0 <= i < before.len() implies #[trigger] after[i] == before[i] by {
        assert(after.subrange(0, before.len() as int)[i] == after[i]);
    }
}

/// The peer that is asked last is asked if and only if it is neither awaited already nor among those
/// that were asked before.
proof fn lemma_last_request(stage: BootstrappingState, core: CoreState, dsts: Seq<SocketAddr>)
    requires
        dsts.len() > 0,
        stage.all_requested(core, dsts.drop_last()).0.pending == stage.pending.union(
            dsts.drop_last().to_set(),
        ),
    ensures
        ({
            let mid = stage.all_requested(core, dsts.drop_last()).0;
            let before = without_repeats(stage.pending, dsts.drop_last());
            &&& dsts.to_set() == dsts.drop_last().to_set().insert(dsts.last())
            &&& without_repeats(stage.pending, dsts) == if mid.pending.contains(dsts.last()) {
                before
            } else {
                before.push(dsts.last())
            }
        }),
{
    let front = dsts.drop_last();
    let dst = dsts.last();
    repeats_are_removed(stage.pending, front);
    assert(without_repeats(stage.pending, front).contains(dst) <==> front.contains(dst)
        && !stage.pending.contains(dst));
    assert forall|addr: SocketAddr| #[trigger]
        dsts.to_set().contains(addr) <==> front.to_set().contains(addr) || addr == dst by {
        if front.contains(addr) {
            let i = choose|i: int| 0 <= i < front.len() && front[i] == addr;
            assert(dsts[i] == addr);
        }
        if dsts.contains(addr) && addr != dst {
            let i = choose|i: int| 0 <= i < dsts.len() && dsts[i] == addr;
            assert(front[i] == addr);
        }
        assert(dsts[dsts.len() - 1] == dst);
    }
    assert(dsts.to_set() =~= front.to_set().insert(dst));
}

/// Asking peers awaits their answers and uses up tokens, and leaves a relocation, the identity and
/// everything else as it is.
pub proof fn asking_keeps_the_rest(
    stage: BootstrappingState,
    core: CoreState,
    dsts: Seq<SocketAddr>,
)
    ensures
        ({
            let (left, next) = stage.all_requested(core, dsts);
            let asked = without_repeats(stage.pending, dsts);
            &&& left.relocate_details == stage.relocate_details
            &&& left.pending == stage.pending.union(dsts.to_set())
            &&& next == (CoreState { actions: next.actions, timer: next.timer, ..core })
            &&& next.timer.next_token == (core.timer.next_token + asked.len())
                % 0x1_0000_0000_0000_0000
        }),
    decreases dsts.len(),
{
    let (left, next) = stage.all_requested(core, dsts);
    if dsts.len() == 0 {
        assert(left.pending =~= stage.pending.union(dsts.to_set()));
    } else {
        asking_keeps_the_rest(stage, core, dsts.drop_last());
        lemma_last_request(stage, core, dsts);
        assert(left.pending =~= stage.pending.union(dsts.to_set()));
    }
}

/// Each of the given peers that is not yet awaited is asked once, in turn: a timer of 20 seconds is
/// started under the next token, and the request names the name that the node is relocated to or
/// else its own.
pub proof fn peers_are_asked_in_turn(
    stage: BootstrappingState,
    core: CoreState,
    dsts: Seq<SocketAddr>,
)
    ensures
        ({
            let (left, next) = stage.all_requested(core, dsts);
            let asked = without_repeats(stage.pending, dsts);
            let first = core.timer.next_token;
            let n = core.actions.len() as int;
            &&& next.actions.len() == n + 2 * asked.len()
            &&& core.actions.is_prefix_of(next.actions)
            &&& forall|i: int|
                0 <= i < asked.len() ==> {
                    &&& next.actions[n + 2 * i] == (Action::StartTimer {
                        token: ((first + i) % 0x1_0000_0000_0000_0000) as u64,
                        secs: 20,
                    })
                    &&& next.actions[n + 2 * i + 1] == (Action::SendDirectMessage {
                        src: core.full_id.public_id,
                        dst: #[trigger] asked[i],
                        variant: Variant::BootstrapRequest(
                            match stage.relocate_details {
                                Some(details) => details.content.destination,
                                None => core.full_id.public_id.name,
                            },
                        ),
                    })
                }
        }),
    decreases dsts.len(),
{
    let first = core.timer.next_token;
    let n = core.actions.len() as int;
    let (left, next) = stage.all_requested(core, dsts);
    let asked = without_repeats(stage.pending, dsts);
    if dsts.len() > 0 {
        let front = dsts.drop_last();
        let (mid, before) = stage.all_requested(core, front);
        let asked_before = without_repeats(stage.pending, front);
        peers_are_asked_in_turn(stage, core, front);
        asking_keeps_the_rest(stage, core, front);
        lemma_last_request(stage, core, dsts);
        lemma_prefix(core.actions, before.actions);
        if !mid.pending.contains(dsts.last()) {
            let k = asked_before.len() as int;
            assert(core.actions =~= next.actions.subrange(0, n));
            assert forall|i: int| 0 <= i < asked.len() implies {
                &&& next.actions[n + 2 * i] == (Action::StartTimer {
                    token: ((first + i) % 0x1_0000_0000_0000_0000) as u64,
                    secs: 20,
                })
                &&& next.actions[n + 2 * i + 1] == (Action::SendDirectMessage {
                    src: core.full_id.public_id,
                    dst: #[trigger] asked[i],
                    variant: Variant::BootstrapRequest(
                        match stage.relocate_details {
                            Some(details) => details.content.destination,
                            None => core.full_id.public_id.name,
                        },
                    ),
                })
            } by {
                if i < k {
                    assert(asked[i] == asked_before[i]);
                    assert(next.actions[n + 2 * i] == before.actions[n + 2 * i]);
                    assert(next.actions[n + 2 * i + 1] == before.actions[n + 2 * i + 1]);
                }
            }
        }
    }
}

/// The answer of each peer that is asked times out under the token that was next when it was asked,
/// and the tokens of the others stay as they are.
pub proof fn answers_time_out_in_turn(
    stage: BootstrappingState,
    core: CoreState,
    dsts: Seq<SocketAddr>,
    token: u64,
)
    requires
        without_repeats(stage.pending, dsts).len() <= u64::MAX,
    ensures
        ({
            let left = stage.all_requested(core, dsts).0;
            let asked = without_repeats(stage.pending, dsts);
            let i = (token - core.timer.next_token) % 0x1_0000_0000_0000_0000;
            if i < asked.len() {
                left.tokens.contains_key(token) && left.tokens[token] == asked[i]
            } else {
                &&& left.tokens.contains_key(token) == stage.tokens.contains_key(token)
                &&& left.tokens.contains_key(token) ==> left.tokens[token] == stage.tokens[token]
            }
        }),
    decreases dsts.len(),
{
    if dsts.len() > 0 {
        let front = dsts.drop_last();
        asking_keeps_the_rest(stage, core, front);
        lemma_last_request(stage, core, dsts);
        answers_time_out_in_turn(stage, core, front, token);
        let (mid, before) = stage.all_requested(core, front);
        let asked_before = without_repeats(stage.pending, front);
        if !mid.pending.contains(dsts.last()) {
            let i = (token - core.timer.next_token) % 0x1_0000_0000_0000_0000;
            assert(i == asked_before.len() <==> token == before.timer.next_token);
        }
    }
}

/// A relocated node keeps its identity and its relocation, and asks each of the peers that it was
/// told of for the section of the name that it is relocated to.
pub proof fn relocated_node_asks_towards_its_destination(
    core: CoreState,
    network_cfg: NetworkParams,
    conn_infos: Seq<SocketAddr>,
    details: SignedRelocateDetails,
)
    ensures
        ({
            let peer = PeerState::relocated(core, network_cfg, conn_infos, details);
            let asked = without_repeats(Set::empty(), conn_infos);
            let first = core.timer.next_token;
            let n = core.actions.len() as int;
            &&& peer.network_cfg == network_cfg
            &&& peer.core == (CoreState {
                actions: peer.core.actions,
                timer: peer.core.timer,
                ..core
            })
            &&& peer.core.timer.next_token == (first + asked.len()) % 0x1_0000_0000_0000_0000
            &&& peer.core.actions.len() == n + 2 * asked.len()
            &&& core.actions.is_prefix_of(peer.core.actions)
            &&& forall|i: int|
                0 <= i < asked.len() ==> {
                    &&& peer.core.actions[n + 2 * i] == (Action::StartTimer {
                        token: ((first + i) % 0x1_0000_0000_0000_0000) as u64,
                        secs: 20,
                    })
                    &&& peer.core.actions[n + 2 * i + 1] == (Action::SendDirectMessage {
                        src: core.full_id.public_id,
                        dst: #[trigger] asked[i],
                        variant: Variant::BootstrapRequest(details.content.destination),
                    })
                }
            &&& peer.stage is Bootstrapping
            &&& peer.stage->Bootstrapping_0.relocate_details == Some(details)
            &&& peer.stage->Bootstrapping_0.pending == conn_infos.to_set()
            &&& asked.len() <= u64::MAX ==> forall|token: u64|
                #![trigger peer.stage->Bootstrapping_0.tokens.contains_key(token)]
                {
                    let tokens = peer.stage->Bootstrapping_0.tokens;
                    let i = (token - first) % 0x1_0000_0000_0000_0000;
                    &&& tokens.contains_key(token) <==> i < asked.len()
                    &&& i < asked.len() ==> tokens[token] == asked[i]
                }
        }),
{
    let fresh = BootstrappingState {
        pending: Set::empty(),
        tokens: Map::empty(),
        relocate_details: Some(details),
    };
    let asked = without_repeats(Set::empty(), conn_infos);
    let left = fresh.all_requested(core, conn_infos).0;
    peers_are_asked_in_turn(fresh, core, conn_infos);
    asking_keeps_the_rest(fresh, core, conn_infos);
    assert(fresh.pending.union(conn_infos.to_set()) =~= conn_infos.to_set());
    if asked.len() <= u64::MAX {
        assert forall|token: u64|
            #![trigger left.tokens.contains_key(token)]
            {
                let i = (token - core.timer.next_token) % 0x1_0000_0000_0000_0000;
                &&& left.tokens.contains_key(token) <==> i < asked.len()
                &&& i < asked.len() ==> left.tokens[token] == asked[i]
            } by {
            answers_time_out_in_turn(fresh, core, conn_infos, token);
        }
    }
}

/// A redirected node keeps its identity and its relocation: it closes the connection to each peer
/// that had yet to answer, forgets them all, and then asks each of the new peers for the section of
/// the name that it is relocated to or else of its own name.
pub proof fn redirection_keeps_the_destination(
    stage: BootstrappingState,
    core: CoreState,
    dsts: Seq<SocketAddr>,
    next: (BootstrappingState, CoreState),
)
    requires
        stage.redirected(core, dsts, next),
    ensures
        ({
            let (left, after) = next;
            let asked = without_repeats(Set::empty(), dsts);
            let first = core.timer.next_token;
            let n = core.actions.len() as int;
            let m = after.actions.len() - 2 * asked.len();
            let closed = after.actions.subrange(n, m);
            &&& left.relocate_details == stage.relocate_details
            &&& left.pending == dsts.to_set()
            &&& after == (CoreState { actions: after.actions, timer: after.timer, ..core })
            &&& after.timer.next_token == (first + asked.len()) % 0x1_0000_0000_0000_0000
            &&& n <= m
            &&& core.actions.is_prefix_of(after.actions)
            &&& closed.no_duplicates()
            &&& forall|i: int|
                0 <= i < closed.len() ==> (#[trigger] closed[i] matches Action::Disconnect(addr)
                    && stage.pending.contains(addr))
            &&& forall|addr: SocketAddr| #[trigger]
                stage.pending.contains(addr) ==> closed.contains(Action::Disconnect(addr))
            &&& forall|i: int|
                0 <= i < asked.len() ==> {
                    &&& after.actions[m + 2 * i] == (Action::StartTimer {
                        token: ((first + i) % 0x1_0000_0000_0000_0000) as u64,
                        secs: 20,
                    })
                    &&& after.actions[m + 2 * i + 1] == (Action::SendDirectMessage {
                        src: core.full_id.public_id,
                        dst: #[trigger] asked[i],
                        variant: Variant::BootstrapRequest(
                            match stage.relocate_details {
                                Some(details) => details.content.destination,
                                None => core.full_id.public_id.name,
                            },
                        ),
                    })
                }
            &&& asked.len() <= u64::MAX ==> forall|token: u64|
                #![trigger left.tokens.contains_key(token)]
                {
                    let i = (token - first) % 0x1_0000_0000_0000_0000;
                    &&& left.tokens.contains_key(token) <==> i < asked.len()
                    &&& i < asked.len() ==> left.tokens[token] == asked[i]
                }
        }),
{
    let order = choose|order: Seq<SocketAddr>| #[trigger]
        stage.redirected_by(core, order, dsts) == next && order.no_duplicates() && order.to_set()
            == stage.pending;
    let fresh = BootstrappingState {
        pending: Set::empty(),
        tokens: Map::empty(),
        relocate_details: stage.relocate_details,
    };
    let mid = core.disconnected(order);
    peers_are_asked_in_turn(fresh, mid, dsts);
    asking_keeps_the_rest(fresh, mid, dsts);
    assert(fresh.pending.union(dsts.to_set()) =~= dsts.to_set());
    let (left, after) = next;
    let asked = without_repeats(Set::empty(), dsts);
    lemma_prefix(mid.actions, after.actions);
    if asked.len() <= u64::MAX {
        assert forall|token: u64|
            #![trigger left.tokens.contains_key(token)]
            {
                let i = (token - core.timer.next_token) % 0x1_0000_0000_0000_0000;
                &&& left.tokens.contains_key(token) <==> i < asked.len()
                &&& i < asked.len() ==> left.tokens[token] == asked[i]
            } by {
            answers_time_out_in_turn(fresh, mid, dsts, token);
        }
    }
    let n = core.actions.len() as int;
    let m = mid.actions.len() as int;
    let closed = after.actions.subrange(n, m);
    assert(closed =~= order.map_values(|addr: SocketAddr| Action::Disconnect(addr)));
    assert(closed.no_duplicates());
    assert forall|i: int| 0 <= i < closed.len() implies (#[trigger] closed[i] matches Action::Disconnect(
        addr,
    ) && stage.pending.contains(addr)) by {
        assert(order.to_set().contains(order[i]));
    }
    assert forall|addr: SocketAddr| #[trigger] stage.pending.contains(addr) implies closed.contains(
        Action::Disconnect(addr),
    ) by {
        assert(order.to_set().contains(addr));
        let i = choose|i: int| 0 <= i < order.len() && order[i] == addr;
        assert(closed[i] == Action::Disconnect(addr));
    }
    assert forall|i: int| 0 <= i < n implies #[trigger] after.actions[i] == core.actions[i] by {
        assert(mid.actions[i] == core.actions[i]);
    }
}

/// A peer that was asked and refers the node to other peers is followed: the node is redirected to
/// exactly these peers.
pub proof fn referral_is_followed(
    peer: PeerState,
    stage: BootstrappingState,
    addr: SocketAddr,
    msg: Message,
    dsts: Vec<SocketAddr>,
    provided: Provided,
    next: PeerState,
    res: Result<Transition, RoutingError>,
)
    requires
        peer.stage == StageState::Bootstrapping(stage),
        stage.pending.contains(addr),
        msg.src is Node,
        msg.variant == Variant::BootstrapResponse(BootstrapResponse::Rebootstrap(dsts)),
        peer.handled(Some(addr), msg, provided, next, res),
    ensures
        res == Ok::<Transition, RoutingError>(Transition::Stay),
        next.network_cfg == peer.network_cfg,
        next.stage is Bootstrapping,
        stage.redirected(peer.core, dsts@, (next.stage->Bootstrapping_0, next.core)),
        next.stage->Bootstrapping_0.relocate_details == stage.relocate_details,
        next.stage->Bootstrapping_0.pending == dsts@.to_set(),
        next.core.full_id == peer.core.full_id,
{
    redirection_keeps_the_destination(
        stage,
        peer.core,
        dsts@,
        (next.stage->Bootstrapping_0, next.core),
    );
}

/// A peer that has not answered in time is given up: the connection to it is closed, and if nobody
/// else is awaited, the node asks for a connection to a contact. A token that is not in use does
/// nothing.
pub proof fn silent_peer_is_given_up(
    peer: PeerState,
    stage: BootstrappingState,
    token: u64,
    new_id: Option<FullId>,
)
    requires
        peer.stage == StageState::Bootstrapping(stage),
    ensures
        ({
            let next = peer.timed_out(token, new_id);
            let addr = stage.tokens[token];
            if !stage.tokens.contains_key(token) {
                next == peer
            } else {
                &&& next.network_cfg == peer.network_cfg
                &&& next.stage == StageState::Bootstrapping(
                    BootstrappingState {
                        pending: stage.pending.remove(addr),
                        tokens: stage.tokens.remove(token),
                        relocate_details: stage.relocate_details,
                    },
                )
                &&& next.core == (CoreState {
                    actions: peer.core.actions + if !stage.pending.contains(addr) {
                        seq![]
                    } else if forall|other: SocketAddr| #[trigger]
                        stage.pending.contains(other) ==> other == addr {
                        seq![Action::Disconnect(addr), Action::Bootstrap]
                    } else {
                        seq![Action::Disconnect(addr)]
                    },
                    ..peer.core
                })
            }
        }),
{
    let next = peer.timed_out(token, new_id);
    let addr = stage.tokens[token];
    if stage.tokens.contains_key(token) {
        if !stage.pending.contains(addr) {
            assert(stage.pending.remove(addr) =~= stage.pending);
            assert(next.core.actions =~= peer.core.actions + seq![]);
        } else if forall|other: SocketAddr| #[trigger]
            stage.pending.contains(other) ==> other == addr {
            assert(stage.pending.remove(addr) =~= Set::<SocketAddr>::empty());
            assert(next.core.actions =~= peer.core.actions + seq![
                Action::Disconnect(addr),
                Action::Bootstrap,
            ]);
        } else {
            let other = choose|other: SocketAddr|
                !(#[trigger] stage.pending.contains(other) ==> other == addr);
            assert(stage.pending.remove(addr).contains(other));
            assert(next.core.actions =~= peer.core.actions + seq![Action::Disconnect(addr)]);
        }
    }
}

/// The attempt at joining fails by the token of its own timer and by no other, and only if the node
/// joins for the first time. The node then closes the connections to the elders in turn and starts
/// over under the new identity. Every other timeout leaves it as it is.
pub proof fn attempt_at_joining_fails_by_its_timer(
    peer: PeerState,
    stage: JoiningStage,
    token: u64,
    new_id: Option<FullId>,
)
    requires
        peer.stage == StageState::Joining(stage),
    ensures
        ({
            let next = peer.timed_out(token, new_id);
            let elders = stage.elders_info.members@;
            let n = peer.core.actions.len() as int;
            if stage.join_type == (JoinType::First { timeout_token: token }) {
                &&& peer.fails_by(token)
                &&& next.network_cfg == peer.network_cfg
                &&& next.stage == StageState::Bootstrapping(
                    BootstrappingState {
                        pending: Set::empty(),
                        tokens: Map::empty(),
                        relocate_details: None,
                    },
                )
                &&& next.core == (CoreState {
                    full_id: new_id->0,
                    actions: next.core.actions,
                    ..peer.core
                })
                &&& peer.core.actions.is_prefix_of(next.core.actions)
                &&& next.core.actions.len() == n + elders.len() + 1
                &&& next.core.actions.last() == Action::Bootstrap
                &&& forall|i: int|
                    0 <= i < elders.len() ==> next.core.actions[n + i] == Action::Disconnect(
                        (#[trigger] elders[i]).peer_addr,
                    )
            } else {
                !peer.fails_by(token) && next == peer
            }
        }),
{
}

/// While a node bootstraps, no timeout calls for a new identity.
pub proof fn bootstrapping_needs_no_identity(peer: PeerState, token: u64)
    requires
        peer.stage is Bootstrapping,
    ensures
        !peer.fails_by(token),
{
}

/// Which messages are handled: referrals while the node bootstraps, approvals while it joins,
/// however it joins, and invitations to join and bounces at any time. No others are.
pub proof fn messages_of_the_stage_are_handled(peer: PeerState, variant: Variant)
    ensures
        peer.handles(variant) <==> {
            ||| variant is Bounce
            ||| variant is NodeApproval && peer.stage is Joining
            ||| variant matches Variant::BootstrapResponse(response) && (response is Join
                || peer.stage is Bootstrapping)
        },
{
}

/// What handling a message takes: invitations, approvals and bounces can always be handled, and so
/// can referrals while the node bootstraps or if nobody stands behind them. Only an invitation from
/// an awaited peer takes key material: a new identity if the name of the node differs from its
/// destination before the third bit after the section's prefix has ended, and, if the node is being
/// relocated, the outcome of signing the identity that it joins with by the one that it holds.
pub proof fn key_material_is_what_handling_takes(
    peer: PeerState,
    sender: Option<SocketAddr>,
    msg: Message,
    provided: Provided,
)
    ensures
        peer.can_handle(sender, msg, provided) <==> match msg.variant {
            Variant::NodeApproval(_) | Variant::Bounce { .. } => true,
            Variant::BootstrapResponse(BootstrapResponse::Rebootstrap(_)) => peer.stage
                is Bootstrapping || msg.src is Section || sender is None,
            Variant::BootstrapResponse(BootstrapResponse::Join(elders_info)) => match peer.stage {
                StageState::Joining(_) => true,
                StageState::Bootstrapping(stage) => {
                    let held = peer.core.full_id.public_id;
                    let destination = match stage.relocate_details {
                        Some(details) => details.content.destination,
                        None => held.name,
                    };
                    let near = forall|i: int|
                        0 <= i < elders_info.prefix.bit_count + 3 && i < 256
                            ==> destination.bit(i) == #[trigger] held.name.bit(i);
                    msg.src is Node && sender is Some && stage.pending.contains(sender->0) ==> {
                        &&& near || provided.full_id is Some
                        &&& stage.relocate_details is Some ==> match provided.signature {
                            None => false,
                            Some(Err(_)) => true,
                            Some(Ok(made)) => {
                                &&& made.signer == held
                                &&& made.signed == if near {
                                    held
                                } else {
                                    provided.full_id->0.public_id
                                }
                            },
                        }
                    }
                },
            },
            _ => false,
        },
{
}

/// Key material is wanted exactly where it is needed, and an identity is wanted with any name that
/// shares with the destination the bits of the section's prefix and three more.
pub proof fn wanted_is_what_joining_takes(
    stage: BootstrappingState,
    core: CoreState,
    sender: P2pNode,
    response: BootstrapResponse,
    wanted: Wanted,
    name: XorName,
)
    requires
        stage.wants(core, sender, response, wanted),
    ensures
        match response {
            BootstrapResponse::Join(elders_info) if stage.pending.contains(sender.peer_addr) => {
                let destination = match stage.relocate_details {
                    Some(details) => details.content.destination,
                    None => core.full_id.public_id.name,
                };
                let n = elders_info.prefix.bit_count + 3;
                let own = core.full_id.public_id.name;
                &&& wanted.signature <==> stage.relocate_details is Some
                &&& wanted.id_range is None <==> (forall|i: int|
                    0 <= i < n && i < 256 ==> destination.bit(i) == #[trigger] own.bit(i))
                &&& wanted.id_range matches Some(range) ==> (range.0.at_most(name) && name.at_most(
                    range.1,
                ) <==> (forall|i: int|
                    0 <= i < n && i < 256 ==> destination.bit(i) == #[trigger] name.bit(i)))
            },
            _ => wanted.id_range is None && !wanted.signature,
        },
{
    if let BootstrapResponse::Join(elders_info) = response {
        if stage.pending.contains(sender.peer_addr) {
            if let Some(range) = wanted.id_range {
                let destination = match stage.relocate_details {
                    Some(details) => details.content.destination,
                    None => core.full_id.public_id.name,
                };
                agreement_is_a_range(destination, elders_info.prefix.bit_count + 3, range, name);
            }
        }
    }
}

/// The identity that is held so far is the one to sign with. The one to sign is the new one, or the
/// same if there is no new one.
pub proof fn new_identity_is_the_one_to_sign(held: PublicId, new_id: FullId)
    ensures
        ids_to_sign(held, Some(new_id)) == (held, new_id.public_id),
        ids_to_sign(held, None) == (held, held),
{
}

/// An answer or a bounce for which no single node at the other end of a connection stands is
/// refused, and the node stays as it is.
pub proof fn message_without_sender_is_refused(
    peer: PeerState,
    sender: Option<SocketAddr>,
    msg: Message,
    provided: Provided,
    next: PeerState,
    res: Result<Transition, RoutingError>,
)
    requires
        msg.variant is BootstrapResponse || msg.variant is Bounce,
        msg.src is Section || sender is None,
        peer.handled(sender, msg, provided, next, res),
    ensures
        next == peer,
        res == Err::<Transition, RoutingError>(
            if msg.src is Section {
                RoutingError::BadLocation
            } else {
                RoutingError::InvalidSource
            },
        ),
{
}

/// Whatever the stage, a bounced message is sent again, to the connection that it came back over
/// and after the delay for bounces, and nothing else happens.
pub proof fn bounced_message_is_sent_again(
    peer: PeerState,
    addr: SocketAddr,
    msg: Message,
    elders_version: Option<u64>,
    message: Bytes,
    provided: Provided,
    next: PeerState,
    res: Result<Transition, RoutingError>,
)
    requires
        msg.src is Node,
        msg.variant == (Variant::Bounce { elders_version, message }),
        peer.handled(Some(addr), msg, provided, next, res),
    ensures
        res == Ok::<Transition, RoutingError>(Transition::Stay),
        next.stage == peer.stage,
        next.network_cfg == peer.network_cfg,
        next.core == (CoreState {
            actions: peer.core.actions.push(
                Action::SendMessageLater {
                    dst: addr,
                    message,
                    secs: peer.core.bounce_resend_delay,
                },
            ),
            ..peer.core
        }),
{
}

/// The same holds of a bounce that is handled on its own.
pub proof fn bounce_adds_one_delivery(peer: PeerState, sender: P2pNode, message: Bytes)
    ensures
        peer.bounced(sender, message).stage == peer.stage,
        peer.bounced(sender, message).network_cfg == peer.network_cfg,
        peer.bounced(sender, message).core == (CoreState {
            actions: peer.core.actions.push(
                Action::SendMessageLater {
                    dst: sender.peer_addr,
                    message,
                    secs: peer.core.bounce_resend_delay,
                },
            ),
            ..peer.core
        }),
{
}

/// An approval is taken if and only if a section sent it to a single node. It is handed on as it
/// came, and the node stays as it is until it becomes a member.
pub proof fn approval_is_handed_on(
    peer: PeerState,
    sender: Option<SocketAddr>,
    msg: Message,
    gen_pfx_info: Box<GenesisPfxInfo>,
    provided: Provided,
    next: PeerState,
    res: Result<Transition, RoutingError>,
)
    requires
        msg.variant == Variant::NodeApproval(gen_pfx_info),
        peer.handled(sender, msg, provided, next, res),
    ensures
        next == peer,
        msg.src is Section && msg.dst is Node ==> res == Ok::<Transition, RoutingError>(
            Transition::Approve { gen_pfx_info: *gen_pfx_info },
        ),
        msg.src is Node || !(msg.dst is Node) ==> res == Err::<Transition, RoutingError>(
            RoutingError::BadLocation,
        ),
{
}

/// While the node bootstraps, an answer of a peer that is not awaited has no other effect than that
/// the connection to it is closed.
pub proof fn unexpected_answer_closes_the_connection(
    peer: PeerState,
    stage: BootstrappingState,
    addr: SocketAddr,
    msg: Message,
    provided: Provided,
    next: PeerState,
    res: Result<Transition, RoutingError>,
)
    requires
        peer.stage == StageState::Bootstrapping(stage),
        !stage.pending.contains(addr),
        msg.src is Node,
        msg.variant is BootstrapResponse,
        peer.handled(Some(addr), msg, provided, next, res),
    ensures
        res == Ok::<Transition, RoutingError>(Transition::Stay),
        next == (PeerState {
            core: CoreState {
                actions: peer.core.actions.push(Action::Disconnect(addr)),
                ..peer.core
            },
            ..peer
        }),
{
}

/// An awaited peer that names a section makes a node join it for the first time that is not being
/// relocated. The node keeps its identity, starts a timer of 600 seconds, and asks every elder in
/// turn, without any proof of a relocation.
pub proof fn invited_node_joins(
    peer: PeerState,
    stage: BootstrappingState,
    addr: SocketAddr,
    msg: Message,
    elders_info: EldersInfo,
    provided: Provided,
    next: PeerState,
    res: Result<Transition, RoutingError>,
)
    requires
        peer.stage == StageState::Bootstrapping(stage),
        stage.relocate_details is None,
        stage.pending.contains(addr),
        msg.src is Node,
        msg.variant == Variant::BootstrapResponse(BootstrapResponse::Join(elders_info)),
        peer.handled(Some(addr), msg, provided, next, res),
    ensures
        ({
            let token = peer.core.timer.next_token;
            let n = peer.core.actions.len() as int;
            let elders = elders_info.members@;
            &&& res == Ok::<Transition, RoutingError>(Transition::Stay)
            &&& next.network_cfg == peer.network_cfg
            &&& next.stage == StageState::Joining(
                JoiningStage { elders_info, join_type: JoinType::First { timeout_token: token } },
            )
            &&& next.core == (CoreState {
                full_id: peer.core.full_id,
                timer: Timer { next_token: ((token + 1) % 0x1_0000_0000_0000_0000) as u64 },
                actions: next.core.actions,
                ..peer.core
            })
            &&& peer.core.actions.is_prefix_of(next.core.actions)
            &&& next.core.actions.len() == n + 1 + elders.len()
            &&& next.core.actions[n] == (Action::StartTimer { token, secs: 600 })
            &&& forall|i: int|
                0 <= i < elders.len() ==> next.core.actions[n + 1 + i] == (
                Action::SendDirectMessage {
                    src: peer.core.full_id.public_id,
                    dst: (#[trigger] elders[i]).peer_addr,
                    variant: Variant::JoinRequest(
                        Box::new(
                            JoinRequest {
                                elders_version: elders_info.version,
                                relocate_payload: None,
                            },
                        ),
                    ),
                })
        }),
{
}

/// An awaited peer that names a section makes a node join it that is being relocated, whatever the
/// section's prefix. The node keeps its identity if its name shares with the name that it is
/// relocated to the bits of the section's prefix and three more, and else takes the new one. It
/// starts no timer, and shows every elder its relocation with the signature of the identity that it
/// joins with. If that could not be signed, the error is reported, nobody is asked, and the
/// relocation is forgotten.
pub proof fn invited_node_shows_its_relocation(
    peer: PeerState,
    stage: BootstrappingState,
    details: SignedRelocateDetails,
    addr: SocketAddr,
    msg: Message,
    elders_info: EldersInfo,
    provided: Provided,
    next: PeerState,
    res: Result<Transition, RoutingError>,
)
    requires
        peer.stage == StageState::Bootstrapping(stage),
        stage.relocate_details == Some(details),
        stage.pending.contains(addr),
        msg.src is Node,
        msg.variant == Variant::BootstrapResponse(BootstrapResponse::Join(elders_info)),
        provided.signature is Some,
        peer.handled(Some(addr), msg, provided, next, res),
    ensures
        ({
            let n = peer.core.actions.len() as int;
            let elders = elders_info.members@;
            let own = peer.core.full_id.public_id.name;
            let near = forall|i: int|
                0 <= i < elders_info.prefix.bit_count + 3 && i < 256
                    ==> details.content.destination.bit(i) == #[trigger] own.bit(i);
            &&& next.network_cfg == peer.network_cfg
            &&& next.core == (CoreState {
                full_id: if near {
                    peer.core.full_id
                } else {
                    provided.full_id->0
                },
                actions: next.core.actions,
                ..peer.core
            })
            &&& match provided.signature->0 {
                Ok(made) => {
                    let payload = RelocatePayload {
                        details,
                        signature_of_new_id_with_old_id: made,
                    };
                    &&& res == Ok::<Transition, RoutingError>(Transition::Stay)
                    &&& next.stage == StageState::Joining(
                        JoiningStage { elders_info, join_type: JoinType::Relocate(payload) },
                    )
                    &&& peer.core.actions.is_prefix_of(next.core.actions)
                    &&& next.core.actions.len() == n + elders.len()
                    &&& forall|i: int|
                        0 <= i < elders.len() ==> next.core.actions[n + i] == (
                        Action::SendDirectMessage {
                            src: next.core.full_id.public_id,
                            dst: (#[trigger] elders[i]).peer_addr,
                            variant: Variant::JoinRequest(
                                Box::new(
                                    JoinRequest {
                                        elders_version: elders_info.version,
                                        relocate_payload: Some(payload),
                                    },
                                ),
                            ),
                        })
                },
                Err(error) => {
                    &&& res == Err::<Transition, RoutingError>(error)
                    &&& next.core.actions == peer.core.actions
                    &&& next.stage == StageState::Bootstrapping(
                        BootstrappingState {
                            pending: stage.pending,
                            tokens: stage.tokens,
                            relocate_details: None,
                        },
                    )
                },
            }
        }),
{
}

/// What joining a section takes, and what it does: the relocation is used up, the peers that have yet
/// to answer are left as they are, and nobody is asked yet. A node that is not being relocated joins
/// for the first time, under a timer of 600 seconds. One that is being relocated joins with its
/// relocation and the signature that was made, and if none could be made, the error is reported.
pub proof fn joining_uses_up_the_relocation(
    stage: BootstrappingState,
    core: CoreState,
    elders_info: EldersInfo,
    provided: Provided,
)
    ensures
        ({
            let (left, next, res) = stage.section_joined(core, elders_info, provided);
            let held = core.full_id.public_id;
            let token = core.timer.next_token;
            let destination = match stage.relocate_details {
                Some(details) => details.content.destination,
                None => held.name,
            };
            let near = forall|i: int|
                0 <= i < elders_info.prefix.bit_count + 3 && i < 256 ==> destination.bit(i)
                    == #[trigger] held.name.bit(i);
            let full_id = if near {
                core.full_id
            } else {
                provided.full_id->0
            };
            &&& left == (BootstrappingState {
                pending: stage.pending,
                tokens: stage.tokens,
                relocate_details: None,
            })
            &&& match stage.relocate_details {
                None => {
                    &&& stage.can_join(core, elders_info, provided)
                    &&& res == Ok::<JoinType, RoutingError>(
                        JoinType::First { timeout_token: token },
                    )
                    &&& next == (CoreState {
                        timer: Timer { next_token: ((token + 1) % 0x1_0000_0000_0000_0000) as u64 },
                        actions: core.actions.push(Action::StartTimer { token, secs: 600 }),
                        ..core
                    })
                },
                Some(details) => {
                    &&& stage.can_join(core, elders_info, provided) <==> {
                        &&& near || provided.full_id is Some
                        &&& provided.signature is Some
                        &&& provided.signature->0 matches Ok(made) ==> made.signer == held
                            && made.signed == full_id.public_id
                    }
                    &&& next == (CoreState { full_id, ..core })
                    &&& provided.signature matches Some(Ok(made)) ==> res == Ok::<
                        JoinType,
                        RoutingError,
                    >(
                        JoinType::Relocate(
                            RelocatePayload { details, signature_of_new_id_with_old_id: made },
                        ),
                    )
                    &&& provided.signature matches Some(Err(error)) ==> res == Err::<
                        JoinType,
                        RoutingError,
                    >(error)
                },
            }
        }),
{
}

/// What the stage reports of an answer: the stage in which the node joins the section that an
/// awaited peer names, or the error of joining it, and nothing otherwise. Either way of joining
/// leaves the peers that have yet to answer as they are, and uses up the relocation.
pub proof fn answer_is_reported(
    stage: BootstrappingState,
    core: CoreState,
    sender: P2pNode,
    response: BootstrapResponse,
    provided: Provided,
    next: (BootstrappingState, CoreState),
    res: Result<Option<JoiningStage>, RoutingError>,
)
    requires
        stage.answered(core, sender, response, provided, next, res),
    ensures
        if !stage.pending.contains(sender.peer_addr) {
            &&& res == Ok::<Option<JoiningStage>, RoutingError>(None)
            &&& next.0 == stage
            &&& next.1 == (CoreState {
                actions: core.actions.push(Action::Disconnect(sender.peer_addr)),
                ..core
            })
        } else {
            match response {
                BootstrapResponse::Rebootstrap(dsts) => {
                    &&& res == Ok::<Option<JoiningStage>, RoutingError>(None)
                    &&& stage.redirected(core, dsts@, next)
                },
                BootstrapResponse::Join(elders_info) => {
                    &&& next.0 == (BootstrappingState {
                        pending: stage.pending,
                        tokens: stage.tokens,
                        relocate_details: None,
                    })
                    &&& match stage.section_joined(core, elders_info, provided).2 {
                        Ok(join_type) => res == Ok::<Option<JoiningStage>, RoutingError>(
                            Some(JoiningStage { elders_info, join_type }),
                        ),
                        Err(error) => res == Err::<Option<JoiningStage>, RoutingError>(error),
                    }
                },
            }
        },
{
}

/// A joining node moves on to any later elders of a section that its name lies in, whoever names
/// them: it takes them, keeps its way of joining, and asks every one of them in turn, with the proof
/// of its relocation if it is being relocated. Elders that are not later, or of another section,
/// change nothing.
pub proof fn joining_node_moves_on(
    peer: PeerState,
    stage: JoiningStage,
    addr: SocketAddr,
    msg: Message,
    elders_info: EldersInfo,
    provided: Provided,
    next: PeerState,
    res: Result<Transition, RoutingError>,
)
    requires
        peer.stage == StageState::Joining(stage),
        msg.src is Node,
        msg.variant == Variant::BootstrapResponse(BootstrapResponse::Join(elders_info)),
        peer.handled(Some(addr), msg, provided, next, res),
    ensures
        res == Ok::<Transition, RoutingError>(Transition::Stay),
        ({
            let n = peer.core.actions.len() as int;
            let elders = elders_info.members@;
            let own = peer.core.full_id.public_id.name;
            let ours = forall|i: int|
                0 <= i < elders_info.prefix.bit_count && i < 256
                    ==> #[trigger] elders_info.prefix.name.bit(i) == own.bit(i);
            if elders_info.version > stage.elders_info.version && ours {
                &&& next.network_cfg == peer.network_cfg
                &&& next.stage == StageState::Joining(
                    JoiningStage { elders_info, join_type: stage.join_type },
                )
                &&& next.core == (CoreState { actions: next.core.actions, ..peer.core })
                &&& peer.core.actions.is_prefix_of(next.core.actions)
                &&& next.core.actions.len() == n + elders.len()
                &&& forall|i: int|
                    0 <= i < elders.len() ==> next.core.actions[n + i] == (
                    Action::SendDirectMessage {
                        src: peer.core.full_id.public_id,
                        dst: (#[trigger] elders[i]).peer_addr,
                        variant: Variant::JoinRequest(
                            Box::new(
                                JoinRequest {
                                    elders_version: elders_info.version,
                                    relocate_payload: match stage.join_type {
                                        JoinType::First { .. } => None,
                                        JoinType::Relocate(payload) => Some(payload),
                                    },
                                },
                            ),
                        ),
                    })
            } else {
                next == peer
            }
        }),
{
}

/// Every elder that is asked to let the node join is told the version of the elders that it belongs
/// to, and the proof of the relocation if and only if the node is being relocated.
pub proof fn elders_are_shown_the_relocation(stage: JoiningStage, core: CoreState)
    ensures
        ({
            let next = stage.requests_sent(core);
            let elders = stage.elders_info.members@;
            let n = core.actions.len() as int;
            &&& next == (CoreState { actions: next.actions, ..core })
            &&& core.actions.is_prefix_of(next.actions)
            &&& next.actions.len() == n + elders.len()
            &&& forall|i: int|
                0 <= i < elders.len() ==> next.actions[n + i] == (Action::SendDirectMessage {
                    src: core.full_id.public_id,
                    dst: (#[trigger] elders[i]).peer_addr,
                    variant: Variant::JoinRequest(
                        Box::new(
                            JoinRequest {
                                elders_version: stage.elders_info.version,
                                relocate_payload: match stage.join_type {
                                    JoinType::First { .. } => None,
                                    JoinType::Relocate(payload) => Some(payload),
                                },
                            },
                        ),
                    ),
                })
        }),
{
}

/// What a message is checked against: nothing is trusted while the node bootstraps, and the same
/// holds for everything but an approval while it joins. The approval of a relocated node is checked
/// against the key of the section that it was relocated to, and that of a node that joins for the
/// first time is taken without a check.
pub proof fn messages_are_checked_by_stage(peer: PeerState, variant: Variant)
    ensures
        match peer.stage {
            StageState::Joining(stage) if variant is NodeApproval => match stage.join_type {
                JoinType::First { .. } => peer.checking_keys(variant) is None,
                JoinType::Relocate(payload) => {
                    let key_info = payload.details.content.destination_key_info;
                    &&& peer.checking_keys(variant) is Some
                    &&& peer.checking_keys(variant)->0.len() == 1
                    &&& peer.checking_keys(variant)->0[0] == (key_info.prefix, key_info)
                },
            },
            _ => {
                &&& peer.checking_keys(variant) is Some
                &&& peer.checking_keys(variant)->0.len() == 0
            },
        },
        peer.can_verify(variant) <==> {
            ||| peer.stage is Bootstrapping
            ||| variant is NodeApproval
            ||| variant is Bounce
            ||| variant matches Variant::BootstrapResponse(response) && response is Join
        },
{
}

/// A checked message is accepted if and only if its signatures lead to a trusted key. It is never
/// passed over in silence: it is refused for want of trust, or with the error of the check.
pub proof fn only_trusted_messages_are_accepted(checked: Result<VerifyStatus, RoutingError>)
    ensures
        fully_verified(checked) == Ok::<bool, RoutingError>(true) <==> checked == Ok::<
            VerifyStatus,
            RoutingError,
        >(VerifyStatus::Full),
        !(fully_verified(checked) == Ok::<bool, RoutingError>(false)),
        checked == Ok::<VerifyStatus, RoutingError>(VerifyStatus::Unknown) ==> fully_verified(
            checked,
        ) == Err::<bool, RoutingError>(RoutingError::UntrustedMessage),
        checked matches Err(error) ==> fully_verified(checked) == Err::<bool, RoutingError>(error),
{
}

/// The sender of a message is the node that signed it, at the other end of the connection.
pub proof fn sender_is_the_signer(src: SrcAuthority, sender: Option<SocketAddr>)
    ensures
        src.sender_node(sender) is Ok <==> src is Node && sender is Some,
        src matches SrcAuthority::Node { public_id, .. } ==> (sender matches Some(peer_addr)
            ==> src.sender_node(sender) == Ok::<P2pNode, RoutingError>(
            P2pNode { public_id, peer_addr },
        )),
{
}

/// Of the messages that are not handled, only answers, knowledge of members and messages of the
/// consensus protocol are dropped.
pub proof fn other_messages_are_sent_back(variant: Variant)
    ensures
        is_dropped(variant) <==> {
            ||| variant is BootstrapResponse
            ||| variant is MemberKnowledge
            ||| variant is ParsecRequest
            ||| variant is ParsecResponse
        },
{
}

/// A message that is sent back goes to the peer that it came from, as it came and under the present
/// identity, whatever the stage, and nothing else happens.
pub proof fn sending_back_adds_one_bounce(peer: PeerState, sender: SocketAddr, message: Bytes)
    ensures
        peer.sent_back(sender, message).stage == peer.stage,
        peer.sent_back(sender, message).network_cfg == peer.network_cfg,
        peer.sent_back(sender, message).core == (CoreState {
            actions: peer.core.actions.push(
                Action::SendDirectMessage {
                    src: peer.core.full_id.public_id,
                    dst: sender,
                    variant: Variant::Bounce { elders_version: None, message },
                },
            ),
            ..peer.core
        }),
{
}

/// A member takes over the identity, the filter, the timer and what was asked for, starts from the
/// state of the section that approved it with nothing in its queues and no share of the section's
/// key, and knows whether it was relocated.
pub proof fn member_takes_everything_over(
    peer: JoiningPeer,
    stage: JoiningStage,
    gen_pfx_info: GenesisPfxInfo,
    approved: ApprovedPeer,
)
    requires
        peer.stage == Stage::Joining(stage),
        peer.becomes(gen_pfx_info, approved),
    ensures
        approved.details.full_id == peer.core.full_id,
        approved.details.msg_filter == peer.core.msg_filter,
        approved.details.timer == peer.core.timer,
        approved.details.actions@ == peer.core.actions@,
        approved.details.gen_pfx_info == gen_pfx_info,
        approved.details.msg_queue@ == Seq::<MessageWithBytes>::empty(),
        approved.details.sig_accumulator@ == Seq::<Bytes>::empty(),
        approved.details.chain.network_cfg == peer.network_cfg,
        approved.details.chain.our_id == peer.core.full_id.public_id,
        approved.details.chain.secret_key_share is None,
        approved.connect_type is Relocate <==> stage.join_type is Relocate,
        approved.connect_type is First <==> stage.join_type is First,
{
}

} // verus!
