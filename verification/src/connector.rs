//! Decision core of the uplink connector: the connection state machine driven
//! by transport events, and the bounded inbound queue it fills. The transport
//! itself (broker connection, polling, subscribing) is a collaborator that
//! runs the event loop and performs whatever action each step asks for.

use vstd::prelude::*;

use crate::channel::BoundedBuffer;

verus! {

/// Fixed delay before polling again after a transport error, milliseconds.
pub const RETRY_BACKOFF_MS: u64 = 5000;

/// How long the receive loop may wait on a full inbound queue before it drops
/// the message, milliseconds.
pub const INBOUND_SEND_TIMEOUT_MS: u64 = 5000;

/// Bound of the inbound message queue.
pub const INBOUND_CAPACITY: usize = 5;

/// Identity and address the connector presents to the broker, reused verbatim
/// on every reconnect attempt.
#[derive(Debug, Clone)]
pub struct NetConnectorSettings {
    pub id_device: String,
    pub host: String,
    pub port: u16,
    pub username: String,
    pub password: String,
}

impl NetConnectorSettings {
    pub fn new(
        id_device: String,
        host: String,
        port: u16,
        username: String,
        password: String,
    ) -> (settings: NetConnectorSettings)
        ensures
            settings.id_device == id_device,
            settings.host == host,
            settings.port == port,
            settings.username == username,
            settings.password == password,
    {
        NetConnectorSettings { id_device, host, port, username, password }
    }
}

/// Connection state owned by the background receive loop. Transitions are
/// driven only by connect acknowledgements and poll errors.
#[derive(Clone, Copy, Debug, PartialEq, Eq, Structural)]
pub enum ConnectionState {
    /// Initial state, before the event loop starts polling.
    Disconnected,
    /// Polling, with no acknowledged connection.
    Connecting,
    /// Acknowledged connection; `fresh_session` records whether the broker
    /// retained no prior session state.
    Connected { fresh_session: bool },
}

/// One observation of the transport by the background receive loop.
pub enum TransportEvent<M> {
    /// The poll itself failed.
    PollFailed,
    /// The broker acknowledged a connection attempt. `session_present` is the
    /// broker's claim that it retained state from a prior session.
    ConnectionAck { success: bool, session_present: bool },
    /// A message was published to us; `decoded` is `None` when the payload
    /// failed to decode.
    InboundPublish { decoded: Option<M> },
    /// Any other transport notification; none of them concerns this core.
    Other,
}

/// What the event loop must do after a step.
#[derive(Clone, Copy, Debug, PartialEq, Eq, Structural)]
pub enum LoopAction {
    /// Nothing: poll again.
    Idle,
    /// Sleep for the given delay, then poll again.
    Backoff { delay_ms: u64 },
    /// Register the inbound subscriptions, as a separate concurrent task so a
    /// full outbound buffer can never stall the receive loop.
    RegisterSubscriptions,
    /// An inbound message was dropped because the queue stayed full past its
    /// timeout; log a warning and poll again.
    WarnInboundDropped,
}

/// Mathematical state of the connector: connection state plus the inbound
/// queue's contents and bound.
#[verifier::ext_equal]
pub struct ConnectorModel<M> {
    pub state: ConnectionState,
    pub inbound: Seq<M>,
    pub capacity: nat,
}

/// One step of the receive loop: the state after the event and the action the
/// loop must take.
///
/// A poll error backs the loop off and makes it reconnect. A successful
/// acknowledgement connects; only a fresh session (no prior state retained by
/// the broker) triggers subscription registration. A decoded inbound message
/// joins the queue if there is room and is dropped with a warning otherwise;
/// a payload that failed to decode is ignored. No event stops the loop.
pub open spec fn step<M>(model: ConnectorModel<M>, event: TransportEvent<M>) -> (ConnectorModel<
    M,
>, LoopAction) {
    match event {
        TransportEvent::PollFailed => (
            ConnectorModel { state: ConnectionState::Connecting, ..model },
            LoopAction::Backoff { delay_ms: RETRY_BACKOFF_MS },
        ),
        TransportEvent::ConnectionAck { success, session_present } => {
            if success {
                (
                    ConnectorModel {
                        state: ConnectionState::Connected { fresh_session: !session_present },
                        ..model
                    },
                    if !session_present {
                        LoopAction::RegisterSubscriptions
                    } else {
                        LoopAction::Idle
                    },
                )
            } else {
                (ConnectorModel { state: ConnectionState::Connecting, ..model }, LoopAction::Idle)
            }
        },
        TransportEvent::InboundPublish { decoded } => match decoded {
            Option::None => (model, LoopAction::Idle),
            Option::Some(message) => {
                if model.inbound.len() < model.capacity {
                    (
                        ConnectorModel { inbound: model.inbound.push(message), ..model },
                        LoopAction::Idle,
                    )
                } else {
                    (model, LoopAction::WarnInboundDropped)
                }
            },
        },
        TransportEvent::Other => (model, LoopAction::Idle),
    }
}

/// Verified core of the uplink connector: the connection state machine and
/// the bounded inbound queue. The event loop feeds it one `TransportEvent`
/// at a time; the external consumer drains `recv`.
pub struct NetConnector<M> {
    state: ConnectionState,
    inbound: BoundedBuffer<M>,
}

impl<M> NetConnector<M> {
    /// The connector as its mathematical model.
    pub closed spec fn model(self) -> ConnectorModel<M> {
        ConnectorModel {
            state: self.state,
            inbound: self.inbound@,
            capacity: self.inbound.spec_capacity(),
        }
    }

    /// A connector that has not started polling, with an empty inbound queue.
    pub fn new(capacity: usize) -> (connector: NetConnector<M>)
        ensures
            connector.model() == (ConnectorModel::<M> {
                state: ConnectionState::Disconnected,
                inbound: Seq::empty(),
                capacity: capacity as nat,
            }),
    {
        NetConnector { state: ConnectionState::Disconnected, inbound: BoundedBuffer::new(capacity) }
    }

    /// The background loop has started polling: the connector is connecting.
    pub fn begin_polling(&mut self)
        ensures
            final(self).model() == (ConnectorModel {
                state: ConnectionState::Connecting,
                ..old(self).model()
            }),
    {
        self.state = ConnectionState::Connecting;
    }

    /// Feed one transport event to the state machine; returns the action the
    /// event loop must take. Behaves exactly as `step` on the model.
    pub fn on_event(&mut self, event: TransportEvent<M>) -> (action: LoopAction)
        ensures
            final(self).model() == step(old(self).model(), event).0,
            action == step(old(self).model(), event).1,
    {
        match event {
            TransportEvent::PollFailed => {
                self.state = ConnectionState::Connecting;
                LoopAction::Backoff { delay_ms: RETRY_BACKOFF_MS }
            },
            TransportEvent::ConnectionAck { success, session_present } => {
                if success {
                    self.state = ConnectionState::Connected { fresh_session: !session_present };
                    if !session_present {
                        LoopAction::RegisterSubscriptions
                    } else {
                        LoopAction::Idle
                    }
                } else {
                    self.state = ConnectionState::Connecting;
                    LoopAction::Idle
                }
            },
            TransportEvent::InboundPublish { decoded } => match decoded {
                Option::None => LoopAction::Idle,
                Option::Some(message) => match self.inbound.try_send(message) {
                    Result::Ok(()) => LoopAction::Idle,
                    Result::Err(_dropped) => LoopAction::WarnInboundDropped,
                },
            },
            TransportEvent::Other => LoopAction::Idle,
        }
    }

    /// Hand out the oldest inbound message, if any (first in, first out).
    pub fn recv(&mut self) -> (received: Option<M>)
        ensures
            old(self).model().inbound.len() == 0 ==> received is None
                && final(self).model() == old(self).model(),
            old(self).model().inbound.len() > 0 ==> received == Some(old(self).model().inbound[0])
                && final(self).model() == (ConnectorModel {
                    inbound: old(self).model().inbound.drop_first(),
                    ..old(self).model()
                }),
    {
        self.inbound.recv()
    }

    /// How many inbound messages wait undelivered.
    pub fn inbound_len(&self) -> (n: usize)
        ensures
            n == self.model().inbound.len(),
    {
        self.inbound.len()
    }

    /// The inbound queue's bound.
    pub fn inbound_capacity(&self) -> (c: usize)
        ensures
            c == self.model().capacity,
    {
        self.inbound.capacity()
    }
}

/// Law: an inbound payload that fails to decode never reaches the inbound
/// queue, and the loop goes straight back to polling.
pub proof fn lemma_decode_failure_never_queued<M>(model: ConnectorModel<M>)
    ensures
        step(model, TransportEvent::InboundPublish { decoded: None }).0 == model,
        step(model, TransportEvent::InboundPublish { decoded: None }).1 == LoopAction::Idle,
{
    assert(step(model, TransportEvent::InboundPublish { decoded: None }).0 =~= model);
}

/// Law: messages that decode successfully and find room are queued in the
/// order they arrived: two accepted deliveries append the two messages at the
/// back, first one first.
pub proof fn lemma_inbound_fifo_order<M>(model: ConnectorModel<M>, first: M, second: M)
    requires
        model.inbound.len() + 2 <= model.capacity,
    ensures
        ({
            let once = step(model, TransportEvent::InboundPublish { decoded: Some(first) }).0;
            let twice = step(once, TransportEvent::InboundPublish { decoded: Some(second) }).0;
            twice.inbound == model.inbound.push(first).push(second)
        }),
{
}

/// Law: a fresh-session acknowledgement connects and triggers subscription
/// registration; a resumed session connects without one, since the broker is
/// assumed to retain prior subscriptions.
pub proof fn lemma_fresh_session_subscribes<M>(model: ConnectorModel<M>)
    ensures
        step(model, TransportEvent::<M>::ConnectionAck { success: true, session_present: false }).1
            == LoopAction::RegisterSubscriptions,
        step(model, TransportEvent::<M>::ConnectionAck { success: true, session_present: false }).0.state
            == (ConnectionState::Connected { fresh_session: true }),
        step(model, TransportEvent::<M>::ConnectionAck { success: true, session_present: true }).1
            == LoopAction::Idle,
        step(model, TransportEvent::<M>::ConnectionAck { success: true, session_present: true }).0.state
            == (ConnectionState::Connected { fresh_session: false }),
{
}

/// Law: when the inbound queue is full, a decoded message is dropped with a
/// warning — the queue and the connection state are untouched and the loop
/// keeps polling; a slow consumer can never crash or stall the receive loop.
pub proof fn lemma_overflow_drops_message<M>(model: ConnectorModel<M>, message: M)
    requires
        model.inbound.len() >= model.capacity,
    ensures
        step(model, TransportEvent::InboundPublish { decoded: Some(message) }).0 == model,
        step(model, TransportEvent::InboundPublish { decoded: Some(message) }).1
            == LoopAction::WarnInboundDropped,
{
    assert(step(model, TransportEvent::InboundPublish { decoded: Some(message) }).0 =~= model);
}

} // verus!
