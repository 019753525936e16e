//! What every state of a node has: its identity, its timer and its access to the network.
use crate::addr::SocketAddr;
use crate::id::{FullId, PublicId};
use crate::messages::Variant;
use crate::xor_space::XorName;
use bytes::Bytes;
use vstd::prelude::*;

verus! {

/// What a node asks of the network and of the clock, in the order in which it asks.
#[derive(Clone, Debug, PartialEq, Eq)]
pub enum Action {
    /// Connect to any of the known contacts.
    Bootstrap,
    /// Close the connection to a peer.
    Disconnect(SocketAddr),
    /// Report `token` as timed out after the given number of seconds.
    StartTimer { token: u64, secs: u64 },
    /// Sign the content as `src` and send it to the peer at `dst`.
    SendDirectMessage { src: PublicId, dst: SocketAddr, variant: Variant },
    /// Send an encoded message to the peer at `dst` after the given number of seconds.
    SendMessageLater { dst: SocketAddr, message: Bytes, secs: u64 },
}

/// Source of the tokens by which timeouts are told apart.
#[derive(Clone, Copy, Debug, PartialEq, Eq, Structural)]
pub struct Timer {
    /// Token of the next timeout. After the largest one the tokens start over.
    pub next_token: u64,
}

/// Record of the messages that the node has seen, encoded.
#[derive(Clone, Debug, PartialEq, Eq)]
pub struct MessageFilter(pub Bytes);

/// What every state of a node has.
pub struct Core {
    pub full_id: FullId,
    /// Record of the messages that the node has seen. It is not read while the node joins.
    pub msg_filter: MessageFilter,
    pub timer: Timer,
    /// Number of seconds after which a bounced message is sent again.
    pub bounce_resend_delay: u64,
    /// What has been asked of the network and of the clock and is not yet carried out.
    pub actions: Vec<Action>,
}

/// Mathematical view of [`Core`].
#[verifier::ext_equal]
pub struct CoreState {
    pub full_id: FullId,
    pub msg_filter: MessageFilter,
    pub timer: Timer,
    pub bounce_resend_delay: u64,
    pub actions: Seq<Action>,
}

impl CoreState {
    /// Name of the node.
    pub open spec fn name(self) -> XorName {
        self.full_id.public_id.name
    }

    /// The state after one more action was asked for.
    pub open spec fn asked(self, action: Action) -> CoreState {
        CoreState { actions: self.actions.push(action), ..self }
    }

    /// The state after a timeout was scheduled: it has the token that was next.
    pub open spec fn scheduled(self, secs: u64) -> CoreState {
        let token = self.timer.next_token;
        CoreState {
            timer: Timer { next_token: if token == u64::MAX { 0 } else { (token + 1) as u64 } },
            ..self.asked(Action::StartTimer { token, secs })
        }
    }

    /// The state after a message was sent to the peer at `dst`, under the present identity.
    pub open spec fn sent(self, dst: SocketAddr, variant: Variant) -> CoreState {
        self.asked(Action::SendDirectMessage { src: self.full_id.public_id, dst, variant })
    }

    /// The state after the connections to the given peers were closed in turn.
    pub open spec fn disconnected(self, addrs: Seq<SocketAddr>) -> CoreState {
        CoreState {
            actions: self.actions + addrs.map_values(|addr: SocketAddr| Action::Disconnect(addr)),
            ..self
        }
    }
}

impl View for Core {
    type V = CoreState;

    open spec fn view(&self) -> CoreState {
        CoreState {
            full_id: self.full_id,
            msg_filter: self.msg_filter,
            timer: self.timer,
            bounce_resend_delay: self.bounce_resend_delay,
            actions: self.actions@,
        }
    }
}

impl Core {
    /// Name of the node.
    pub fn name(&self) -> (name: &XorName)
        ensures
            *name == self@.name(),
    {
        self.full_id.public_id().name()
    }

    /// Asks for a connection to any of the known contacts.
    pub fn bootstrap(&mut self)
        ensures
            final(self)@ == old(self)@.asked(Action::Bootstrap),
    {
        self.actions.push(Action::Bootstrap);
    }

    /// Asks for the connection to `addr` to be closed.
    pub fn disconnect(&mut self, addr: SocketAddr)
        ensures
            final(self)@ == old(self)@.asked(Action::Disconnect(addr)),
    {
        self.actions.push(Action::Disconnect(addr));
    }

    /// Schedules a timeout and returns the token that it will be reported with.
    pub fn schedule(&mut self, secs: u64) -> (token: u64)
        ensures
            token == old(self)@.timer.next_token,
            final(self)@ == old(self)@.scheduled(secs),
    {
        let token: u64 = self.timer.next_token;
        self.timer = Timer {
            next_token: if token == u64::MAX {
                0
            } else {
                token + 1
            },
        };
        self.actions.push(Action::StartTimer { token, secs });
        token
    }

    /// Sends a message to the peer at `recipient`.
    pub fn send_direct_message(&mut self, recipient: &SocketAddr, variant: Variant)
        ensures
            final(self)@ == old(self)@.sent(*recipient, variant),
    {
        let src: PublicId = *self.full_id.public_id();
        self.actions.push(Action::SendDirectMessage { src, dst: *recipient, variant });
    }

    /// Sends an encoded message to the peer at `dst` after a number of seconds.
    pub fn send_message_to_target_later(&mut self, dst: &SocketAddr, message: Bytes, secs: u64)
        ensures
            final(self)@ == old(self)@.asked(Action::SendMessageLater { dst: *dst, message, secs }),
    {
        self.actions.push(Action::SendMessageLater { dst: *dst, message, secs });
    }
}

} // verus!
