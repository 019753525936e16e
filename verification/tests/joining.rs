use bytes::Bytes;
use joining_peer::addr::SocketAddr;
use joining_peer::bootstrapping::{BootstrappingStage, BOOTSTRAP_TIMEOUT};
use joining_peer::chain::{EldersInfo, GenesisPfxInfo, NetworkParams, SectionKeyInfo};
use joining_peer::common::{Action, Core, MessageFilter, Timer};
use joining_peer::error::RoutingError;
use joining_peer::event::{Connected, Event};
use joining_peer::id::{to_sign, FullId, IdSignature, P2pNode, Provided, PublicId, Signature};
use joining_peer::joining::{as_iter, verify_message_full, JoinType, JoiningStage, JOIN_TIMEOUT};
use joining_peer::joining_peer::{JoiningPeer, Stage};
use joining_peer::location::{DstLocation, SrcLocation};
use joining_peer::messages::{
    BootstrapResponse, JoinRequest, Message, MessageWithBytes, SrcAuthority, Variant, VerifyStatus,
};
use joining_peer::pending::PendingRequests;
use joining_peer::relocation::{RelocateDetails, RelocatePayload, SignedRelocateDetails};
use joining_peer::state_machine::{State, Transition};
use joining_peer::xor_space::{Prefix, XorName};

const BOUNCE_DELAY: u64 = 2;

fn addr(port: u16) -> SocketAddr {
    SocketAddr::new_v4(0x7f00_0001, port)
}

fn name(first: u8) -> XorName {
    let mut bytes = [0u8; 32];
    bytes[0] = first;
    XorName(bytes)
}

fn full_id(first: u8) -> FullId {
    FullId {
        public_id: PublicId {
            name: name(first),
            public_key: [first; 32],
        },
        secret_key: [first; 32],
    }
}

fn node(first: u8, port: u16) -> P2pNode {
    P2pNode::new(full_id(first).public_id, addr(port))
}

fn core_of(first: u8) -> Core {
    Core {
        full_id: full_id(first),
        msg_filter: MessageFilter(Bytes::from_static(b"filter")),
        timer: Timer { next_token: 0 },
        bounce_resend_delay: BOUNCE_DELAY,
        actions: Vec::new(),
    }
}

fn network_cfg() -> NetworkParams {
    NetworkParams {
        elder_size: 7,
        safe_section_size: 30,
    }
}

fn elders(version: u64, prefix: Prefix) -> EldersInfo {
    EldersInfo {
        members: vec![node(0x10, 101), node(0x20, 102)],
        version,
        prefix,
    }
}

fn key_info() -> SectionKeyInfo {
    SectionKeyInfo {
        prefix: Prefix::new(2, name(0b1100_0000)),
        version: 4,
        key: [9; 48],
    }
}

fn relocate_details(destination: u8) -> SignedRelocateDetails {
    SignedRelocateDetails {
        content: RelocateDetails {
            pub_id: full_id(1).public_id,
            destination: name(destination),
            destination_key_info: key_info(),
            age: 5,
        },
        signed_msg: Bytes::from_static(b"relocate"),
    }
}

fn message(src: SrcAuthority, dst: DstLocation, variant: Variant) -> Message {
    Message { src, dst, variant }
}

fn from_node(first: u8, variant: Variant) -> Message {
    message(
        SrcAuthority::Node {
            public_id: full_id(first).public_id,
            signature: Signature([0; 64]),
        },
        DstLocation::Direct,
        variant,
    )
}

fn from_section(variant: Variant) -> Message {
    message(
        SrcAuthority::Section {
            prefix: Prefix::new(0, name(0)),
            proof_chain: Bytes::from_static(b"proof"),
        },
        DstLocation::Node(name(1)),
        variant,
    )
}

fn join(elders_info: EldersInfo) -> Variant {
    Variant::BootstrapResponse(BootstrapResponse::Join(elders_info))
}

fn rebootstrap(ports: &[u16]) -> Variant {
    Variant::BootstrapResponse(BootstrapResponse::Rebootstrap(
        ports.iter().map(|port| addr(*port)).collect(),
    ))
}

fn genesis() -> GenesisPfxInfo {
    GenesisPfxInfo {
        elders_info: elders(3, Prefix::new(0, name(0))),
        rest: Bytes::from_static(b"genesis"),
    }
}

fn direct(first: u8, port: u16, variant: Variant) -> Action {
    Action::SendDirectMessage {
        src: full_id(first).public_id,
        dst: addr(port),
        variant,
    }
}

fn take_actions(peer: &mut JoiningPeer) -> Vec<Action> {
    std::mem::take(&mut peer.core_mut().actions)
}

fn request_actions(token: u64, first: u8, port: u16, destination: u8) -> Vec<Action> {
    vec![
        Action::StartTimer {
            token,
            secs: BOOTSTRAP_TIMEOUT,
        },
        direct(first, port, Variant::BootstrapRequest(name(destination))),
    ]
}

/// A peer with the given name that has asked the peers at the given ports.
fn bootstrapping_peer(first: u8, ports: &[u16]) -> JoiningPeer {
    let mut peer = JoiningPeer::new(core_of(first), network_cfg());
    for port in ports {
        let _ = peer.handle_bootstrapped_to(addr(*port));
    }
    let _ = take_actions(&mut peer);
    peer
}

/// A peer that joins the section of the given elders for the first time, under its own name.
fn joining_first(first: u8, elders_info: EldersInfo) -> JoiningPeer {
    let mut peer = bootstrapping_peer(first, &[1]);
    let msg = from_node(7, join(elders_info));
    let res = peer.handle_message(Some(addr(1)), msg, Provided::nothing());
    assert_eq!(res, Ok(Transition::Stay));
    assert!(peer.stage.is_joining());
    peer
}

/// A signature of the identity `new`, made with the identity `old`.
fn id_signature(new: u8, old: u8) -> IdSignature {
    IdSignature {
        signer: full_id(old).public_id,
        signed: full_id(new).public_id,
        signature: Signature([3; 64]),
    }
}

/// A relocated peer that joins the section of the given elders.
fn joining_relocated(elders_info: EldersInfo) -> JoiningPeer {
    let mut peer = JoiningPeer::relocate(
        core_of(1),
        network_cfg(),
        vec![addr(1)],
        relocate_details(0b1111_0000),
    );
    let res = peer.handle_message(
        Some(addr(1)),
        from_node(7, join(elders_info)),
        Provided {
            full_id: Some(full_id(0b1111_1000)),
            signature: Some(Ok(id_signature(0b1111_1000, 1))),
        },
    );
    assert_eq!(res, Ok(Transition::Stay));
    assert!(peer.stage.is_joining());
    peer
}

/// Tokens of the timers among `actions` that run out within the given number of milliseconds.
fn expired(actions: &[Action], millis: u64) -> Vec<u64> {
    let mut tokens = Vec::new();
    for action in actions {
        if let Action::StartTimer { token, secs } = action {
            if secs * 1000 < millis {
                tokens.push(*token);
            }
        }
    }
    tokens
}

fn bootstrapping(peer: &JoiningPeer) -> &BootstrappingStage {
    match &peer.stage {
        Stage::Bootstrapping(stage) => stage,
        Stage::Joining(_) => panic!("Should be bootstrapping."),
    }
}

fn joining(peer: &JoiningPeer) -> &JoiningStage {
    match &peer.stage {
        Stage::Bootstrapping(_) => panic!("Should be joining."),
        Stage::Joining(stage) => stage,
    }
}

#[test]
// Check that losing our proxy connection while in the bootstrapping stage doesn't stall
// and instead triggers a re-bootstrap attempt..
fn lose_proxy_connection() {
    let network_cfg = NetworkParams {
        elder_size: 7,
        safe_section_size: 30,
    };
    let node_a_endpoint = addr(1000);
    let node_b_full_id = full_id(0xb0);
    let mut node_b_outbox: Vec<Event> = Vec::new();

    // Construct a peer which will start in the bootstrapping stage.
    let mut node_b = JoiningPeer::new(
        Core {
            full_id: node_b_full_id,
            msg_filter: MessageFilter(Bytes::new()),
            timer: Timer { next_token: 0 },
            bounce_resend_delay: BOUNCE_DELAY,
            actions: Vec::new(),
        },
        network_cfg,
    );

    // Check the network is asked to connect to a contact.
    match take_actions(&mut node_b).as_slice() {
        [Action::Bootstrap] => (),
        actions => panic!("Should have received `Bootstrap`, received `{:?}`.", actions),
    }

    // The connection causes the peer to send a `BootstrapRequest` message.
    assert_eq!(
        node_b.handle_bootstrapped_to(node_a_endpoint),
        Transition::Stay
    );
    let actions = take_actions(&mut node_b);
    let mut sent = 0;
    for action in &actions {
        if let Action::SendDirectMessage { src, dst, variant } = action {
            assert_eq!(*src, full_id(0xb0).public_id);
            assert_eq!(*dst, node_a_endpoint);
            match variant {
                Variant::BootstrapRequest(_) => (),
                _ => panic!("Should have received a `BootstrapRequest`."),
            };
            sent += 1;
        }
    }
    assert_eq!(sent, 1);

    // Let some time pass...
    let tokens = expired(&actions, BOOTSTRAP_TIMEOUT * 1000 + 1);
    assert_eq!(tokens.len(), 1);

    // ...which causes the bootstrap request to timeout and the node then attempts to
    // rebootstrap..
    assert!(!node_b.wants_new_id(tokens[0]));
    assert_eq!(node_b.handle_timeout(tokens[0], None), Transition::Stay);
    assert_eq!(
        take_actions(&mut node_b),
        vec![Action::Disconnect(node_a_endpoint), Action::Bootstrap]
    );
    assert!(node_b_outbox.is_empty());

    // ... but there is no one to bootstrap to, so the bootstrap fails which causes the state
    // machine to terminate.
    assert_eq!(
        node_b.handle_bootstrap_failure(&mut node_b_outbox),
        Transition::Terminate
    );
    assert_eq!(node_b_outbox.len(), 1);
    assert_eq!(node_b_outbox[0], Event::Terminated);
}

#[test]
fn bootstrap_request_is_sent_once() {
    let mut peer = JoiningPeer::new(core_of(5), network_cfg());
    let _ = take_actions(&mut peer);
    let _ = peer.handle_bootstrapped_to(addr(1));
    assert_eq!(take_actions(&mut peer), request_actions(0, 5, 1, 5));
    let _ = peer.handle_bootstrapped_to(addr(1));
    assert_eq!(take_actions(&mut peer), vec![]);
    assert_eq!(peer.core_ref().timer.next_token, 1);
}

#[test]
fn timeouts_in_any_order_lead_to_rebootstrap() {
    let mut peer = bootstrapping_peer(5, &[1, 2, 3]);
    let _ = peer.handle_timeout(1, None);
    assert_eq!(take_actions(&mut peer), vec![Action::Disconnect(addr(2))]);
    // A token that is not in use is ignored, and so is one that has timed out before.
    let _ = peer.handle_timeout(77, None);
    let _ = peer.handle_timeout(1, None);
    assert_eq!(take_actions(&mut peer), vec![]);
    let _ = peer.handle_timeout(2, None);
    assert_eq!(take_actions(&mut peer), vec![Action::Disconnect(addr(3))]);
    let _ = peer.handle_timeout(0, None);
    assert_eq!(
        take_actions(&mut peer),
        vec![Action::Disconnect(addr(1)), Action::Bootstrap]
    );
    assert!(bootstrapping(&peer).pending_requests.is_empty());
    assert!(bootstrapping(&peer).timeout_tokens.is_empty());
}

#[test]
fn stale_token_is_forgotten_without_more_ado() {
    let mut stage = BootstrappingStage::new(None);
    let mut core = core_of(5);
    let _ = stage.timeout_tokens.insert(9, addr(1));
    stage.handle_timeout(&mut core, 9);
    assert!(stage.timeout_tokens.is_empty());
    assert_eq!(core.actions, vec![]);
}

#[test]
fn tokens_start_over_after_the_largest() {
    let mut peer = JoiningPeer::new(
        Core {
            timer: Timer {
                next_token: u64::MAX,
            },
            ..core_of(5)
        },
        network_cfg(),
    );
    let _ = take_actions(&mut peer);
    let _ = peer.handle_bootstrapped_to(addr(1));
    let _ = peer.handle_bootstrapped_to(addr(2));
    let mut expected = request_actions(u64::MAX, 5, 1, 5);
    expected.extend(request_actions(0, 5, 2, 5));
    assert_eq!(take_actions(&mut peer), expected);
}

#[test]
fn strangers_are_disconnected() {
    let mut peer = bootstrapping_peer(5, &[1]);
    for variant in vec![join(elders(1, Prefix::new(0, name(0)))), rebootstrap(&[8])] {
        let msg = from_node(7, variant);
        let wanted = peer.wanted(Some(addr(2)), &msg);
        assert_eq!(wanted.id_range, None);
        assert!(!wanted.signature);
        let res = peer.handle_message(Some(addr(2)), msg, Provided::nothing());
        assert_eq!(res, Ok(Transition::Stay));
        assert_eq!(take_actions(&mut peer), vec![Action::Disconnect(addr(2))]);
        assert!(peer.stage.is_bootstrapping());
        assert!(bootstrapping(&peer).pending_requests.contains(&addr(1)));
    }
}

#[test]
fn redirection_turns_to_the_new_peers() {
    let mut peer = bootstrapping_peer(5, &[1, 2]);
    let res = peer.handle_message(
        Some(addr(1)),
        from_node(7, rebootstrap(&[8, 9, 8])),
        Provided::nothing(),
    );
    assert_eq!(res, Ok(Transition::Stay));
    let actions = take_actions(&mut peer);
    let mut closed = actions[..2].to_vec();
    if closed[0] != Action::Disconnect(addr(1)) {
        closed.reverse();
    }
    assert_eq!(
        closed,
        vec![Action::Disconnect(addr(1)), Action::Disconnect(addr(2))]
    );
    let mut expected = request_actions(2, 5, 8, 5);
    expected.extend(request_actions(3, 5, 9, 5));
    assert_eq!(actions[2..].to_vec(), expected);
    let stage = bootstrapping(&peer);
    assert!(!stage.pending_requests.contains(&addr(1)));
    assert!(!stage.pending_requests.contains(&addr(2)));
    assert!(stage.pending_requests.contains(&addr(8)));
    assert!(stage.pending_requests.contains(&addr(9)));
    assert_eq!(stage.timeout_tokens.len(), 2);
    // The old timeouts no longer mean anything.
    let _ = peer.handle_timeout(0, None);
    assert_eq!(take_actions(&mut peer), vec![]);
}

#[test]
fn redirection_to_nobody() {
    let mut peer = bootstrapping_peer(5, &[1]);
    let msg = from_node(7, rebootstrap(&[]));
    let res = peer.handle_message(Some(addr(1)), msg, Provided::nothing());
    assert_eq!(res, Ok(Transition::Stay));
    assert_eq!(take_actions(&mut peer), vec![Action::Disconnect(addr(1))]);
    assert!(bootstrapping(&peer).pending_requests.is_empty());
}

#[test]
fn first_join_keeps_a_matching_name() {
    let mut peer = bootstrapping_peer(0b1010_0000, &[1]);
    // A node that is not relocated always matches its own name.
    let msg = from_node(7, join(elders(3, Prefix::new(1, name(0b1000_0000)))));
    let wanted = peer.wanted(Some(addr(1)), &msg);
    assert_eq!(wanted.id_range, None);
    assert!(!wanted.signature);
    let res = peer.handle_message(Some(addr(1)), msg, Provided::nothing());
    assert_eq!(res, Ok(Transition::Stay));
    let request = Variant::JoinRequest(Box::new(JoinRequest {
        elders_version: 3,
        relocate_payload: None,
    }));
    assert_eq!(
        take_actions(&mut peer),
        vec![
            Action::StartTimer {
                token: 1,
                secs: JOIN_TIMEOUT
            },
            direct(0b1010_0000, 101, request.clone()),
            direct(0b1010_0000, 102, request),
        ]
    );
    assert_eq!(joining(&peer).elders_info.version, 3);
    assert!(matches!(
        joining(&peer).join_type,
        JoinType::First { timeout_token: 1 }
    ));
}

#[test]
fn relocation_asks_towards_the_destination() {
    let mut peer = JoiningPeer::relocate(
        core_of(1),
        network_cfg(),
        vec![addr(1), addr(2), addr(1)],
        relocate_details(0b1111_0000),
    );
    let mut expected = request_actions(0, 1, 1, 0b1111_0000);
    expected.extend(request_actions(1, 1, 2, 0b1111_0000));
    assert_eq!(take_actions(&mut peer), expected);
}

#[test]
fn relocated_join_takes_a_name_near_the_destination() {
    let mut peer = JoiningPeer::relocate(
        core_of(1),
        network_cfg(),
        vec![addr(1)],
        relocate_details(0b1111_0000),
    );
    let _ = take_actions(&mut peer);
    let msg = from_node(7, join(elders(3, Prefix::new(2, name(0b1100_0000)))));
    let wanted = peer.wanted(Some(addr(1)), &msg);
    assert!(wanted.signature);
    let (first, last) = wanted.id_range.unwrap();
    let mut upper = [0xff; 32];
    upper[0] = 0b1111_0111;
    assert_eq!(first, name(0b1111_0000));
    assert_eq!(last, XorName(upper));

    // The new identity is signed with the old one.
    let new_id = Some(full_id(0b1111_0110));
    let (signer, signed) = peer.to_sign(&new_id);
    assert_eq!(signer, full_id(1).public_id);
    assert_eq!(signed, full_id(0b1111_0110).public_id);
    let timer = peer.core_ref().timer.next_token;
    let res = peer.handle_message(
        Some(addr(1)),
        msg,
        Provided {
            full_id: new_id,
            signature: Some(Ok(IdSignature {
                signer,
                signed,
                signature: Signature([3; 64]),
            })),
        },
    );
    assert_eq!(res, Ok(Transition::Stay));
    assert_eq!(*peer.name(), name(0b1111_0110));
    assert!(Prefix::new(5, name(0b1111_0000)).matches(peer.name()));
    // No timer is started.
    assert_eq!(peer.core_ref().timer.next_token, timer);
    let payload = RelocatePayload::new(
        relocate_details(0b1111_0000),
        &full_id(0b1111_0110).public_id,
        &full_id(1).public_id,
        id_signature(0b1111_0110, 1),
    );
    let request = Variant::JoinRequest(Box::new(JoinRequest {
        elders_version: 3,
        relocate_payload: Some(payload),
    }));
    // The requests go out under the new identity.
    assert_eq!(
        take_actions(&mut peer),
        vec![
            direct(0b1111_0110, 101, request.clone()),
            direct(0b1111_0110, 102, request),
        ]
    );
    assert!(matches!(joining(&peer).join_type, JoinType::Relocate(_)));
}

#[test]
fn relocated_join_keeps_a_name_that_is_near_already() {
    let mut peer = JoiningPeer::relocate(
        core_of(0b1111_0001),
        network_cfg(),
        vec![addr(1)],
        relocate_details(0b1111_0000),
    );
    let msg = from_node(7, join(elders(3, Prefix::new(2, name(0b1100_0000)))));
    let wanted = peer.wanted(Some(addr(1)), &msg);
    assert_eq!(wanted.id_range, None);
    assert!(wanted.signature);
    let res = peer.handle_message(
        Some(addr(1)),
        msg,
        Provided {
            full_id: None,
            signature: Some(Ok(id_signature(0b1111_0001, 0b1111_0001))),
        },
    );
    assert_eq!(res, Ok(Transition::Stay));
    assert_eq!(*peer.name(), name(0b1111_0001));
}

#[test]
fn identity_is_signed_with_the_one_held_so_far() {
    let held = full_id(1);
    let same = to_sign(&held, &None);
    assert_eq!(same, (full_id(1).public_id, full_id(1).public_id));
    let other = to_sign(&held, &Some(full_id(2)));
    assert_eq!(other, (full_id(1).public_id, full_id(2).public_id));
}

#[test]
fn failed_signature_leaves_the_node_bootstrapping() {
    let mut peer = JoiningPeer::relocate(
        core_of(1),
        network_cfg(),
        vec![addr(1)],
        relocate_details(0b1111_0000),
    );
    let _ = take_actions(&mut peer);
    let res = peer.handle_message(
        Some(addr(1)),
        from_node(7, join(elders(3, Prefix::new(2, name(0b1100_0000))))),
        Provided {
            full_id: Some(full_id(0b1111_0110)),
            signature: Some(Err(RoutingError::Serialisation)),
        },
    );
    assert_eq!(res, Err(RoutingError::Serialisation));
    // The new identity is kept and the relocation is forgotten.
    assert_eq!(*peer.name(), name(0b1111_0110));
    assert_eq!(bootstrapping(&peer).relocate_details, None);
    assert!(bootstrapping(&peer).pending_requests.contains(&addr(1)));
    assert_eq!(take_actions(&mut peer), vec![]);
}

#[test]
fn join_timeout_starts_over() {
    let mut peer = joining_first(5, elders(3, Prefix::new(0, name(0))));
    let actions = take_actions(&mut peer);
    let tokens = expired(&actions, JOIN_TIMEOUT * 1000 + 1);
    assert_eq!(tokens, vec![1]);
    assert!(!peer.wants_new_id(0));
    assert_eq!(peer.handle_timeout(0, None), Transition::Stay);
    assert!(peer.stage.is_joining());
    assert_eq!(take_actions(&mut peer), vec![]);

    assert!(peer.wants_new_id(1));
    assert_eq!(peer.handle_timeout(1, Some(full_id(6))), Transition::Stay);
    assert_eq!(
        take_actions(&mut peer),
        vec![
            Action::Disconnect(addr(101)),
            Action::Disconnect(addr(102)),
            Action::Bootstrap,
        ]
    );
    assert!(peer.stage.is_bootstrapping());
    assert_eq!(*peer.name(), name(6));
    assert!(bootstrapping(&peer).pending_requests.is_empty());
}

#[test]
fn relocated_join_does_not_time_out() {
    let mut peer = joining_relocated(elders(3, Prefix::new(2, name(0b1100_0000))));
    let _ = take_actions(&mut peer);
    for token in 0..4 {
        assert!(!peer.wants_new_id(token));
        assert_eq!(peer.handle_timeout(token, None), Transition::Stay);
    }
    assert!(peer.stage.is_joining());
    assert_eq!(take_actions(&mut peer), vec![]);
}

#[test]
fn connections_are_ignored_while_joining() {
    let mut peer = joining_first(5, elders(3, Prefix::new(0, name(0))));
    let _ = take_actions(&mut peer);
    assert_eq!(peer.handle_bootstrapped_to(addr(4)), Transition::Stay);
    assert_eq!(take_actions(&mut peer), vec![]);
}

#[test]
fn only_later_elders_are_taken() {
    let everything = Prefix::new(0, name(0));
    let mut peer = joining_first(5, elders(3, everything));
    let _ = take_actions(&mut peer);
    for version in 2..4 {
        let msg = from_node(7, join(elders(version, everything)));
        assert_eq!(
            peer.handle_message(Some(addr(9)), msg, Provided::nothing()),
            Ok(Transition::Stay)
        );
        assert_eq!(take_actions(&mut peer), vec![]);
        assert_eq!(joining(&peer).elders_info.version, 3);
    }
    // Later elders of another section are of no use.
    let msg = from_node(7, join(elders(5, Prefix::new(1, name(0b1000_0000)))));
    assert_eq!(
        peer.handle_message(Some(addr(9)), msg, Provided::nothing()),
        Ok(Transition::Stay)
    );
    assert_eq!(take_actions(&mut peer), vec![]);
    assert_eq!(joining(&peer).elders_info.version, 3);

    let mut newer = elders(4, Prefix::new(1, name(0)));
    newer.members = vec![node(0x30, 103)];
    let msg = from_node(7, join(newer));
    assert_eq!(
        peer.handle_message(Some(addr(9)), msg, Provided::nothing()),
        Ok(Transition::Stay)
    );
    assert_eq!(
        take_actions(&mut peer),
        vec![direct(
            5,
            103,
            Variant::JoinRequest(Box::new(JoinRequest {
                elders_version: 4,
                relocate_payload: None,
            }))
        )]
    );
    assert_eq!(joining(&peer).elders_info.version, 4);
}

#[test]
fn approval_leads_to_membership() {
    let mut peer = joining_first(5, elders(3, Prefix::new(0, name(0))));
    let msg = from_section(Variant::NodeApproval(Box::new(genesis())));
    assert!(peer.should_handle_message(&msg));
    let transition = peer.handle_message(None, msg, Provided::nothing());
    assert_eq!(
        transition,
        Ok(Transition::Approve {
            gen_pfx_info: genesis()
        })
    );
    let actions = peer.core_ref().actions.clone();
    let mut outbox = vec![Event::Terminated];
    match peer.approve(genesis(), &mut outbox) {
        Ok(State::ApprovedPeer(approved)) => {
            let details = &approved.details;
            assert_eq!(approved.connect_type, Connected::First);
            assert_eq!(
                details.chain_init(),
                (&network_cfg(), &full_id(5).public_id, &genesis(), &None)
            );
            let (full_id, gen_pfx_info) = details.parsec_init();
            assert_eq!(full_id.secret_key, [5; 32]);
            assert_eq!(*gen_pfx_info, genesis());
            assert_eq!(details.full_id.secret_key, [5; 32]);
            assert_eq!(details.gen_pfx_info, genesis());
            assert_eq!(details.msg_queue, vec![]);
            assert_eq!(details.sig_accumulator, vec![] as Vec<Bytes>);
            assert_eq!(
                details.msg_filter,
                MessageFilter(Bytes::from_static(b"filter"))
            );
            assert_eq!(details.timer.next_token, 2);
            assert_eq!(details.actions, actions);
        }
        _ => panic!("Should have been approved."),
    }
    assert_eq!(outbox, vec![Event::Terminated]);
}

#[test]
fn approval_of_a_relocated_node() {
    let peer = joining_relocated(elders(3, Prefix::new(2, name(0b1100_0000))));
    match peer.approve(genesis(), &mut Vec::new()) {
        Ok(State::ApprovedPeer(approved)) => {
            assert_eq!(approved.connect_type, Connected::Relocate);
            let our_id = approved.details.chain.our_id;
            assert_eq!(our_id, full_id(0b1111_1000).public_id);
        }
        _ => panic!("Should have been approved."),
    }
}

#[test]
fn approval_must_come_from_a_section_to_a_node() {
    let mut peer = joining_first(5, elders(3, Prefix::new(0, name(0))));
    let approval = Variant::NodeApproval(Box::new(genesis()));
    let mut to_section = from_section(approval.clone());
    to_section.dst = DstLocation::Section(name(1));
    for msg in vec![from_node(7, approval), to_section] {
        assert_eq!(
            peer.handle_message(Some(addr(1)), msg, Provided::nothing()),
            Err(RoutingError::BadLocation)
        );
    }
    assert!(peer.stage.is_joining());
}

#[test]
fn answers_need_a_sender() {
    let mut peer = bootstrapping_peer(5, &[1]);
    let bounce = Variant::Bounce {
        elders_version: None,
        message: Bytes::from_static(b"bounced"),
    };
    for variant in vec![rebootstrap(&[2]), bounce] {
        let msg = from_node(7, variant.clone());
        assert_eq!(
            peer.handle_message(None, msg, Provided::nothing()),
            Err(RoutingError::InvalidSource)
        );
        let msg = from_section(variant);
        assert_eq!(
            peer.handle_message(Some(addr(1)), msg, Provided::nothing()),
            Err(RoutingError::BadLocation)
        );
    }
    assert_eq!(take_actions(&mut peer), vec![]);
}

#[test]
fn bounced_message_is_sent_again_later() {
    let mut peer = bootstrapping_peer(5, &[1]);
    let msg = from_node(
        7,
        Variant::Bounce {
            elders_version: Some(1),
            message: Bytes::from_static(b"bounced"),
        },
    );
    assert!(peer.should_handle_message(&msg));
    assert_eq!(
        peer.handle_message(Some(addr(3)), msg, Provided::nothing()),
        Ok(Transition::Stay)
    );
    assert_eq!(
        take_actions(&mut peer),
        vec![Action::SendMessageLater {
            dst: addr(3),
            message: Bytes::from_static(b"bounced"),
            secs: BOUNCE_DELAY,
        }]
    );
}

#[test]
fn messages_for_others_are_sent_back() {
    let mut peer = bootstrapping_peer(5, &[1]);
    let msg = MessageWithBytes {
        full_bytes: Bytes::from(vec![1, 2, 3]),
    };
    assert_eq!(peer.relay_message(Some(addr(3)), &msg), Ok(()));
    assert_eq!(
        take_actions(&mut peer),
        vec![direct(
            5,
            3,
            Variant::Bounce {
                elders_version: None,
                message: Bytes::from_static(&[1, 2, 3]),
            }
        )]
    );
    assert_eq!(msg.full_bytes, Bytes::from_static(&[1, 2, 3]));
}

#[test]
fn unhandled_messages_are_sent_back_or_dropped() {
    let mut peer = bootstrapping_peer(5, &[1]);
    let body = Bytes::from_static(b"body");
    let dropped = vec![
        rebootstrap(&[2]),
        Variant::MemberKnowledge { body: body.clone() },
        Variant::ParsecRequest(1, body.clone()),
        Variant::ParsecResponse(1, body.clone()),
    ];
    for variant in dropped {
        peer.unhandled_message(None, from_node(7, variant), body.clone());
        assert_eq!(take_actions(&mut peer), vec![]);
    }
    for variant in vec![Variant::Ping, Variant::UserMessage(body.clone())] {
        peer.unhandled_message(Some(addr(3)), from_node(7, variant), body.clone());
        assert_eq!(
            take_actions(&mut peer),
            vec![direct(
                5,
                3,
                Variant::Bounce {
                    elders_version: None,
                    message: body.clone(),
                }
            )]
        );
    }
}

#[test]
fn handled_messages_depend_on_the_stage() {
    let everything = Prefix::new(0, name(0));
    let body = Bytes::from_static(b"body");
    let bootstrapping = bootstrapping_peer(5, &[1]);
    let joining = joining_first(5, elders(3, everything));
    let cases = vec![
        (join(elders(1, everything)), true, true),
        (rebootstrap(&[2]), true, false),
        (
            Variant::Bounce {
                elders_version: None,
                message: body.clone(),
            },
            true,
            true,
        ),
        (Variant::NodeApproval(Box::new(genesis())), false, true),
        (Variant::NeighbourInfo(body.clone()), false, false),
        (Variant::UserMessage(body.clone()), false, false),
        (Variant::AckMessage { body: body.clone() }, false, false),
        (Variant::GenesisUpdate(body.clone()), false, false),
        (Variant::Relocate(body.clone()), false, false),
        (Variant::MessageSignature(body.clone()), false, false),
        (Variant::BootstrapRequest(name(1)), false, false),
        (
            Variant::JoinRequest(Box::new(JoinRequest {
                elders_version: 1,
                relocate_payload: None,
            })),
            false,
            false,
        ),
        (Variant::MemberKnowledge { body: body.clone() }, false, false),
        (Variant::ParsecRequest(1, body.clone()), false, false),
        (Variant::ParsecResponse(1, body), false, false),
        (Variant::Ping, false, false),
    ];
    for (variant, while_bootstrapping, while_joining) in cases {
        let msg = from_node(7, variant);
        assert_eq!(bootstrapping.should_handle_message(&msg), while_bootstrapping);
        assert_eq!(joining.should_handle_message(&msg), while_joining);
    }
}

#[test]
fn verification_while_bootstrapping() {
    let peer = bootstrapping_peer(5, &[1]);
    let msg = from_node(7, rebootstrap(&[2]));
    assert_eq!(peer.keys_to_check(&msg), Some(vec![]));
    assert_eq!(peer.verify_message(&msg, Some(Ok(VerifyStatus::Full))), Ok(true));
    assert_eq!(
        peer.verify_message(&msg, Some(Ok(VerifyStatus::Unknown))),
        Err(RoutingError::UntrustedMessage)
    );
    assert_eq!(
        peer.verify_message(&msg, Some(Err(RoutingError::FailedSignature))),
        Err(RoutingError::FailedSignature)
    );
}

#[test]
fn verification_while_joining() {
    let first = joining_first(5, elders(3, Prefix::new(0, name(0))));
    let relocated = joining_relocated(elders(3, Prefix::new(2, name(0b1100_0000))));
    let approval = from_section(Variant::NodeApproval(Box::new(genesis())));
    // A node that joins for the first time has nothing to check its approval against.
    assert_eq!(first.keys_to_check(&approval), None);
    assert_eq!(first.verify_message(&approval, None), Ok(true));
    // A relocated node knows the key of its new section.
    assert_eq!(
        relocated.keys_to_check(&approval),
        Some(vec![(key_info().prefix, key_info())])
    );
    assert_eq!(
        relocated.verify_message(&approval, Some(Ok(VerifyStatus::Full))),
        Ok(true)
    );
    assert_eq!(
        relocated.verify_message(&approval, Some(Ok(VerifyStatus::Unknown))),
        Err(RoutingError::UntrustedMessage)
    );
    let answer = from_node(7, join(elders(4, Prefix::new(0, name(0)))));
    for peer in vec![&first, &relocated] {
        assert_eq!(peer.keys_to_check(&answer), Some(vec![]));
        assert_eq!(
            peer.verify_message(&answer, Some(Err(RoutingError::FailedSignature))),
            Err(RoutingError::FailedSignature)
        );
    }
}

#[test]
fn keys_and_outcomes_of_checks() {
    assert_eq!(as_iter(None), vec![]);
    assert_eq!(
        as_iter(Some(&key_info())),
        vec![(Prefix::new(2, name(0b1100_0000)), key_info())]
    );
    assert_eq!(verify_message_full(Ok(VerifyStatus::Full)), Ok(true));
    assert_eq!(
        verify_message_full(Ok(VerifyStatus::Unknown)),
        Err(RoutingError::UntrustedMessage)
    );
}

#[test]
fn destinations_of_a_joining_node() {
    let peer = bootstrapping_peer(5, &[1]);
    assert!(peer.in_dst_location(&DstLocation::Node(name(5))));
    assert!(!peer.in_dst_location(&DstLocation::Node(name(6))));
    assert!(!peer.in_dst_location(&DstLocation::Section(name(5))));
    assert!(!peer.in_dst_location(&DstLocation::Prefix(Prefix::new(0, name(0)))));
    assert!(peer.in_dst_location(&DstLocation::Direct));
}

#[test]
fn nothing_can_be_sent_before_joining() {
    let mut peer = bootstrapping_peer(5, &[1]);
    assert_eq!(
        peer.handle_send_message(
            SrcLocation::Node(name(5)),
            DstLocation::Section(name(9)),
            vec![1, 2, 3],
        ),
        Ok(())
    );
    assert_eq!(take_actions(&mut peer), vec![]);
}

#[test]
fn pending_requests_are_a_set() {
    let mut pending = PendingRequests::new();
    assert!(pending.is_empty());
    assert!(pending.insert(addr(1)));
    assert!(!pending.insert(addr(1)));
    let v6 = SocketAddr::new_v6(0x7f00_0001, 1, 0, 0);
    assert!(!pending.contains(&v6));
    assert!(pending.insert(v6));
    assert!(pending.insert(addr(2)));
    assert!(pending.remove(&addr(2)));
    assert!(!pending.remove(&addr(2)));
    let mut drained = pending.drain();
    drained.sort_by_key(|addr| addr.is_v6);
    assert_eq!(drained, vec![addr(1), v6]);
    assert!(pending.is_empty());
}

#[test]
fn nothing_asked_for_is_taken_back() {
    let mut peer = JoiningPeer::new(core_of(5), network_cfg());
    let mut asked = peer.core_ref().actions.clone();
    let _ = peer.handle_bootstrapped_to(addr(1));
    assert!(peer.core_ref().actions.starts_with(&asked));
    asked = peer.core_ref().actions.clone();
    let msg = from_node(7, rebootstrap(&[2, 3]));
    assert_eq!(
        peer.handle_message(Some(addr(1)), msg, Provided::nothing()),
        Ok(Transition::Stay)
    );
    assert!(peer.core_ref().actions.starts_with(&asked));
    asked = peer.core_ref().actions.clone();
    let _ = peer.handle_timeout(1, None);
    assert!(peer.core_ref().actions.starts_with(&asked));
    assert!(peer.core_ref().actions.len() > asked.len());
    assert_eq!(peer.network_cfg, network_cfg());
}

#[test]
fn endpoints_keep_their_address() {
    let v4 = SocketAddr::new_v4(u32::MAX, 7);
    assert_eq!(v4.as_v4(), Some(u32::MAX));
    assert_eq!((v4.is_v6, v4.ip, v4.port), (false, 0xffff_ffff, 7));
    assert_eq!((v4.flowinfo, v4.scope_id), (0, 0));
    let v6 = SocketAddr::new_v6(u128::MAX, 7, 8, 9);
    assert_eq!(v6.as_v4(), None);
    assert_eq!((v6.is_v6, v6.ip, v6.port), (true, u128::MAX, 7));
    assert_eq!((v6.flowinfo, v6.scope_id), (8, 9));
    // No address is cut off.
    let malformed = SocketAddr {
        ip: 1 << 32,
        ..addr(1)
    };
    assert_eq!(malformed.as_v4(), None);
}

#[test]
fn log_ident_names_the_section_once_there_is_one() {
    let peer = JoiningPeer::new(core_of(5), network_cfg());
    assert_eq!(peer.log_ident("050000..", "10"), "JoiningPeer(050000..) ");
    let peer = joining_first(5, elders(3, Prefix::new(0, name(0))));
    assert_eq!(
        peer.log_ident("050000..", "10"),
        "JoiningPeer(050000..(10)) "
    );
}

#[test]
fn tokens_stay_apart_over_many_connections() {
    let mut peer = JoiningPeer::new(
        Core {
            timer: Timer {
                next_token: u64::MAX - 1,
            },
            ..core_of(5)
        },
        network_cfg(),
    );
    for port in 1..=4 {
        let _ = peer.handle_bootstrapped_to(addr(port));
    }
    let tokens = &bootstrapping(&peer).timeout_tokens;
    assert_eq!(tokens.len(), 4);
    assert_eq!(tokens.get(&(u64::MAX - 1)), Some(&addr(1)));
    assert_eq!(tokens.get(&u64::MAX), Some(&addr(2)));
    assert_eq!(tokens.get(&0), Some(&addr(3)));
    assert_eq!(tokens.get(&1), Some(&addr(4)));
}
