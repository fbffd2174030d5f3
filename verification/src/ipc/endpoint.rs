//! IPC endpoint — a rendezvous point for synchronous message passing.

use vstd::prelude::*;

use crate::capability::cap::CapObject;
use crate::ipc::message::Message;

verus! {

/// The state of an IPC endpoint.
#[derive(Debug, Clone, Copy, PartialEq, Eq, Structural)]
pub enum EndpointState {
    /// No thread is currently waiting.
    Idle,
    /// One or more threads are blocked waiting to *send*.
    SendBlocked,
    /// One or more threads are blocked waiting to *receive*.
    RecvBlocked,
}

/// An IPC endpoint kernel object.
///
/// Endpoints are the sole inter-process communication primitive.  An
/// endpoint is accessed through `Cap<Endpoint>`: a capability with
/// `Rights::WRITE` may send, one with `Rights::READ` may receive.
#[derive(Debug)]
pub struct Endpoint {
    /// Unique kernel-assigned ID.
    pub id: u64,
    /// Current rendezvous state.
    pub state: EndpointState,
    /// Buffered message (set when a sender blocks before a receiver arrives).
    pub pending_message: Option<Message>,
}

impl Endpoint {
    /// The endpoint after `msg` was sent to it: the message is buffered
    /// (replacing any earlier one) and a sender is blocked.
    pub open spec fn after_send(self, msg: Message) -> Endpoint {
        Endpoint { id: self.id, state: EndpointState::SendBlocked, pending_message: Some(msg) }
    }

    /// The endpoint after a receive: a buffered message is taken and the
    /// endpoint becomes idle; without one, a receiver is blocked.
    pub open spec fn after_recv(self) -> Endpoint {
        if self.pending_message is Some {
            Endpoint { id: self.id, state: EndpointState::Idle, pending_message: None }
        } else {
            Endpoint { id: self.id, state: EndpointState::RecvBlocked, pending_message: None }
        }
    }

    /// Create a new idle endpoint.
    pub fn new(id: u64) -> (e: Self)
        ensures
            e == (Endpoint { id, state: EndpointState::Idle, pending_message: None }),
    {
        Endpoint { id, state: EndpointState::Idle, pending_message: None }
    }

    /// Send a message to this endpoint.
    ///
    /// A real kernel would block the caller until a receiver is ready; here
    /// the message is stored.
    pub fn send(&mut self, msg: Message)
        ensures
            *final(self) == old(self).after_send(msg),
            final(self).state == EndpointState::SendBlocked,
            final(self).pending_message == Some(msg),
            final(self).id == old(self).id,
    {
        self.pending_message = Some(msg);
        self.state = EndpointState::SendBlocked;
    }

    /// Receive a message from this endpoint.
    ///
    /// Returns `Some(Message)` if a sender is waiting, `None` otherwise.
    pub fn recv(&mut self) -> (r: Option<Message>)
        ensures
            r == old(self).pending_message,
            *final(self) == old(self).after_recv(),
            final(self).pending_message is None,
            final(self).id == old(self).id,
            old(self).pending_message is Some ==> final(self).state == EndpointState::Idle,
            old(self).pending_message is None ==> final(self).state == EndpointState::RecvBlocked,
    {
        if let Some(msg) = self.pending_message.take() {
            self.state = EndpointState::Idle;
            Some(msg)
        } else {
            self.state = EndpointState::RecvBlocked;
            None
        }
    }
}

impl CapObject for Endpoint {
    /// Revoking an endpoint wakes any blocked sender/receiver with an error:
    /// the endpoint becomes idle and drops its buffered message.
    fn on_revoke(&mut self)
        ensures
            *final(self) == (Endpoint {
                id: old(self).id,
                state: EndpointState::Idle,
                pending_message: None,
            }),
    {
        self.state = EndpointState::Idle;
        self.pending_message = None;
    }
}

/// Whatever state an endpoint is in, a send leaves it holding the message
/// with a blocked sender, under the same ID.
pub proof fn lemma_send_blocks_sender(e: Endpoint, msg: Message)
    ensures
        e.after_send(msg).state == EndpointState::SendBlocked,
        e.after_send(msg).pending_message == Some(msg),
        e.after_send(msg).id == e.id,
{
}

/// A receive empties the endpoint: with a message waiting it becomes idle,
/// without one a receiver is blocked.
pub proof fn lemma_recv_outcome(e: Endpoint)
    ensures
        e.after_recv().pending_message is None,
        e.after_recv().id == e.id,
        e.pending_message is Some ==> e.after_recv().state == EndpointState::Idle,
        e.pending_message is None ==> e.after_recv().state == EndpointState::RecvBlocked,
{
}

/// Read after write: a receive right after a send yields the sent message
/// and leaves the endpoint idle and empty.
pub proof fn lemma_send_then_recv(e: Endpoint, msg: Message)
    ensures
        e.after_send(msg).pending_message == Some(msg),
        e.after_send(msg).after_recv() == (Endpoint {
            id: e.id,
            state: EndpointState::Idle,
            pending_message: None,
        }),
{
}

/// The endpoint buffers one message: a second send replaces the first.
pub proof fn lemma_send_overwrites(e: Endpoint, m1: Message, m2: Message)
    ensures
        e.after_send(m1).after_send(m2) == e.after_send(m2),
{
}

/// A message is received at most once: a second receive finds nothing and
/// blocks the receiver.
pub proof fn lemma_recv_consumes(e: Endpoint)
    ensures
        e.after_recv().pending_message is None,
        e.after_recv().after_recv().state == EndpointState::RecvBlocked,
{
}

/// Sending and receiving never change the endpoint's identity.
pub proof fn lemma_id_preserved(e: Endpoint, msg: Message)
    ensures
        e.after_send(msg).id == e.id,
        e.after_recv().id == e.id,
{
}

} // verus!
