//! One-shot delivery of a message to the coordinator.
//!
//! Every message travels on a connection of its own: open it, write the
//! message, close the write half to mark where the message ends, read one
//! chunk of reply, done. An exchange is a state machine: its driver
//! performs the action that is due and hands back what happened. Nothing is
//! retried and no failure is hidden: the first step that fails ends the
//! exchange with the error of that step.

use crate::error::{SerializationError, TransportError};
use crate::identity::{endpoint_text, IdentityModel, NodeIdentity};
use crate::load::LoadState;
use crate::message::{
    ack_of, outcome_model, parse_ack, AckModel, CoordinatorAck, MessageModel, OutboundMessage,
    REGISTER_ADDRESS,
};
use vstd::prelude::*;
use vstd::slice::slice_subrange;

verus! {

/// The most bytes of reply that are read and looked at.
pub const REPLY_LIMIT: usize = 1024;

/// What the driver of an exchange has to do next.
#[derive(Clone, Copy, Debug, PartialEq, Eq, Structural)]
pub enum ExchangeAction {
    /// Open a fresh connection to the exchange's endpoint.
    Connect,
    /// Write the whole payload.
    Write,
    /// Close the write half of the connection.
    Shutdown,
    /// Read once, at most [`REPLY_LIMIT`] bytes.
    Read,
    /// Stop and take the outcome.
    Finish,
}

/// The mathematical content of an [`ExchangeEvent`].
pub enum EventModel {
    Connected,
    Written,
    Closed,
    Received(Seq<u8>),
    Failed,
}

/// What happened to the action an exchange asked for.
#[derive(Debug, PartialEq, Eq)]
pub enum ExchangeEvent {
    /// The connection is open.
    Connected,
    /// The payload was written in full.
    Written,
    /// The write half is closed.
    Closed,
    /// The read returned these bytes; none at all if the coordinator closed
    /// its side without writing.
    Received(Vec<u8>),
    /// The action failed.
    Failed,
}

impl View for ExchangeEvent {
    type V = EventModel;

    open spec fn view(&self) -> EventModel {
        match self {
            ExchangeEvent::Connected => EventModel::Connected,
            ExchangeEvent::Written => EventModel::Written,
            ExchangeEvent::Closed => EventModel::Closed,
            ExchangeEvent::Received(bytes) => EventModel::Received(bytes@),
            ExchangeEvent::Failed => EventModel::Failed,
        }
    }
}

/// Where an exchange stands, mathematically.
pub enum PhaseModel {
    Connecting,
    Writing,
    Closing,
    Reading,
    Done(Result<AckModel, TransportError>),
}

/// The mathematical state of an exchange.
pub struct ExchangeModel {
    pub endpoint: Seq<char>,
    pub payload: Seq<char>,
    pub phase: PhaseModel,
}

/// The part of a reply that is looked at: all of it up to [`REPLY_LIMIT`]
/// bytes, the first [`REPLY_LIMIT`] bytes of a longer one.
pub open spec fn reply_chunk(bytes: Seq<u8>) -> Seq<u8> {
    if bytes.len() <= REPLY_LIMIT {
        bytes
    } else {
        bytes.take(REPLY_LIMIT as int)
    }
}

impl PhaseModel {
    /// How many actions are still due at most before the outcome.
    pub open spec fn remaining(self) -> nat {
        match self {
            PhaseModel::Connecting => 4,
            PhaseModel::Writing => 3,
            PhaseModel::Closing => 2,
            PhaseModel::Reading => 1,
            PhaseModel::Done(_) => 0,
        }
    }
}

impl ExchangeModel {
    /// A fresh exchange: nothing has happened yet.
    pub open spec fn start(endpoint: Seq<char>, payload: Seq<char>) -> ExchangeModel {
        ExchangeModel { endpoint, payload, phase: PhaseModel::Connecting }
    }

    /// The action that is due.
    pub open spec fn action(self) -> ExchangeAction {
        match self.phase {
            PhaseModel::Connecting => ExchangeAction::Connect,
            PhaseModel::Writing => ExchangeAction::Write,
            PhaseModel::Closing => ExchangeAction::Shutdown,
            PhaseModel::Reading => ExchangeAction::Read,
            PhaseModel::Done(_) => ExchangeAction::Finish,
        }
    }

    /// Whether `event` is a possible result of `action`.
    pub open spec fn answers(event: EventModel, action: ExchangeAction) -> bool {
        match (action, event) {
            (ExchangeAction::Connect, EventModel::Connected) => true,
            (ExchangeAction::Write, EventModel::Written) => true,
            (ExchangeAction::Shutdown, EventModel::Closed) => true,
            (ExchangeAction::Read, EventModel::Received(_)) => true,
            (ExchangeAction::Finish, _) => false,
            (_, EventModel::Failed) => true,
            _ => false,
        }
    }

    /// The outcome, once there is one.
    pub open spec fn outcome(self) -> Option<Result<AckModel, TransportError>> {
        match self.phase {
            PhaseModel::Done(outcome) => Some(outcome),
            _ => None,
        }
    }

    /// The state after `event`. Each success leads to the next action in
    /// the order connect, write, close, read; the bytes that were read
    /// decide the outcome; a failure ends the exchange with the error of
    /// the action that failed. An event that does not answer the action
    /// that was due changes nothing, and neither does any event once the
    /// exchange is done.
    pub open spec fn step(self, event: EventModel) -> ExchangeModel {
        let phase = match (self.phase, event) {
            (PhaseModel::Connecting, EventModel::Connected) => PhaseModel::Writing,
            (PhaseModel::Connecting, EventModel::Failed) => PhaseModel::Done(
                Err(TransportError::Connect),
            ),
            (PhaseModel::Writing, EventModel::Written) => PhaseModel::Closing,
            (PhaseModel::Writing, EventModel::Failed) => PhaseModel::Done(
                Err(TransportError::Write),
            ),
            (PhaseModel::Closing, EventModel::Closed) => PhaseModel::Reading,
            (PhaseModel::Closing, EventModel::Failed) => PhaseModel::Done(
                Err(TransportError::Shutdown),
            ),
            (PhaseModel::Reading, EventModel::Received(bytes)) => PhaseModel::Done(
                ack_of(reply_chunk(bytes)),
            ),
            (PhaseModel::Reading, EventModel::Failed) => PhaseModel::Done(
                Err(TransportError::Read),
            ),
            (phase, _) => phase,
        };
        ExchangeModel { phase, ..self }
    }

    /// The fresh exchange that delivers `message` to the coordinator of
    /// `identity`.
    pub open spec fn delivery(identity: IdentityModel, message: MessageModel) -> ExchangeModel {
        ExchangeModel::start(
            endpoint_text(identity.master_address, identity.master_port),
            message.wire_text(),
        )
    }

    /// The state after a run of events.
    pub open spec fn after(self, events: Seq<EventModel>) -> ExchangeModel
        decreases events.len(),
    {
        if events.len() == 0 {
            self
        } else {
            self.after(events.drop_last()).step(events.last())
        }
    }
}

/// Where an exchange stands.
#[derive(Debug, PartialEq, Eq)]
enum Phase {
    Connecting,
    Writing,
    Closing,
    Reading,
    Done(Result<CoordinatorAck, TransportError>),
}

impl View for Phase {
    type V = PhaseModel;

    closed spec fn view(&self) -> PhaseModel {
        match self {
            Phase::Connecting => PhaseModel::Connecting,
            Phase::Writing => PhaseModel::Writing,
            Phase::Closing => PhaseModel::Closing,
            Phase::Reading => PhaseModel::Reading,
            Phase::Done(outcome) => PhaseModel::Done(outcome_model(*outcome)),
        }
    }
}

/// What opening an exchange gave: its state, or `None` for the error.
pub open spec fn opened(r: Result<Exchange, SerializationError>) -> Option<ExchangeModel> {
    match r {
        Ok(exchange) => Some(exchange@),
        Err(_) => None,
    }
}

/// The delivery of one message, in progress or done.
#[derive(Debug, PartialEq, Eq)]
pub struct Exchange {
    endpoint: String,
    payload: String,
    phase: Phase,
}

impl View for Exchange {
    type V = ExchangeModel;

    closed spec fn view(&self) -> ExchangeModel {
        ExchangeModel { endpoint: self.endpoint@, payload: self.payload@, phase: self.phase@ }
    }
}

impl Exchange {
    /// Starts the delivery of `payload` to `endpoint`.
    pub fn start(endpoint: String, payload: String) -> (exchange: Exchange)
        ensures
            exchange@ == ExchangeModel::start(endpoint@, payload@),
    {
        Exchange { endpoint, payload, phase: Phase::Connecting }
    }

    /// Starts the delivery of `message` to the coordinator of `identity`.
    /// Always succeeds.
    pub fn open(identity: &NodeIdentity, message: &OutboundMessage) -> (r: Result<
        Exchange,
        SerializationError,
    >)
        ensures
            opened(r) == Some(ExchangeModel::delivery(identity@, message@)),
    {
        match message.encode() {
            Ok(payload) => Ok(Exchange::start(identity.master_endpoint(), payload)),
            Err(error) => Err(error),
        }
    }

    /// The action the driver has to perform now.
    pub fn action(&self) -> (action: ExchangeAction)
        ensures
            action == self@.action(),
    {
        match self.phase {
            Phase::Connecting => ExchangeAction::Connect,
            Phase::Writing => ExchangeAction::Write,
            Phase::Closing => ExchangeAction::Shutdown,
            Phase::Reading => ExchangeAction::Read,
            Phase::Done(_) => ExchangeAction::Finish,
        }
    }

    /// Where to connect to, as `host:port`.
    pub fn endpoint(&self) -> (endpoint: &str)
        ensures
            endpoint@ == self@.endpoint,
    {
        self.endpoint.as_str()
    }

    /// The text to write.
    pub fn payload(&self) -> (payload: &str)
        ensures
            payload@ == self@.payload,
    {
        self.payload.as_str()
    }

    /// Takes in what happened to the last action.
    pub fn step(self, event: ExchangeEvent) -> (next: Exchange)
        ensures
            next@ == self@.step(event@),
    {
        let Exchange { endpoint, payload, phase } = self;
        let phase = match (phase, event) {
            (Phase::Connecting, ExchangeEvent::Connected) => Phase::Writing,
            (Phase::Connecting, ExchangeEvent::Failed) => Phase::Done(
                Err(TransportError::Connect),
            ),
            (Phase::Writing, ExchangeEvent::Written) => Phase::Closing,
            (Phase::Writing, ExchangeEvent::Failed) => Phase::Done(Err(TransportError::Write)),
            (Phase::Closing, ExchangeEvent::Closed) => Phase::Reading,
            (Phase::Closing, ExchangeEvent::Failed) => Phase::Done(
                Err(TransportError::Shutdown),
            ),
            (Phase::Reading, ExchangeEvent::Received(bytes)) => {
                let chunk = if bytes.len() <= REPLY_LIMIT {
                    bytes.as_slice()
                } else {
                    slice_subrange(bytes.as_slice(), 0, REPLY_LIMIT)
                };
                Phase::Done(parse_ack(chunk))
            },
            (Phase::Reading, ExchangeEvent::Failed) => Phase::Done(Err(TransportError::Read)),
            (phase, _) => phase,
        };
        Exchange { endpoint, payload, phase }
    }

    /// The outcome of the exchange: `None` while it is still running.
    pub fn outcome(self) -> (outcome: Option<Result<CoordinatorAck, TransportError>>)
        ensures
            outcome matches Some(result) ==> self@.outcome() == Some(outcome_model(result)),
            outcome is None ==> self@.outcome() is None,
    {
        match self.phase {
            Phase::Done(outcome) => Some(outcome),
            _ => None,
        }
    }
}

/// Starts the delivery of the registration of `identity` to its
/// coordinator: the node's id, the announce address `0.0.0.0` and the
/// node's port. Always succeeds.
pub fn register_node(identity: &NodeIdentity) -> (r: Result<Exchange, SerializationError>)
    ensures
        opened(r) == Some(
            ExchangeModel::delivery(
                identity@,
                (MessageModel::Register {
                    id: identity@.id,
                    address: REGISTER_ADDRESS@,
                    port: identity@.port,
                }),
            ),
        ),
{
    Exchange::open(identity, &OutboundMessage::registration(identity))
}

/// Starts the delivery of a heartbeat of `identity` to its coordinator.
/// Always succeeds.
pub fn send_heartbeat(identity: &NodeIdentity) -> (r: Result<Exchange, SerializationError>)
    ensures
        opened(r) == Some(
            ExchangeModel::delivery(identity@, (MessageModel::Heartbeat { id: identity@.id })),
        ),
{
    Exchange::open(identity, &OutboundMessage::heartbeat(identity))
}

/// Starts the delivery of a report of the current load of `identity` to
/// its coordinator. Always succeeds.
pub fn send_load_update(identity: &NodeIdentity, state: &LoadState) -> (r: Result<
    Exchange,
    SerializationError,
>)
    ensures
        opened(r) == Some(
            ExchangeModel::delivery(
                identity@,
                (MessageModel::LoadUpdate { id: identity@.id, load: state@ }),
            ),
        ),
{
    Exchange::open(identity, &OutboundMessage::load_update(identity, state.read()))
}

/// Every event that answers the action that was due brings the exchange
/// closer to its outcome, which is there after four such events at the
/// latest: an exchange cannot go on for ever, and never goes back to an
/// earlier action.
pub proof fn lemma_progress(exchange: ExchangeModel, event: EventModel)
    ensures
        ExchangeModel::answers(event, exchange.action()) ==> exchange.step(
            event,
        ).phase.remaining() < exchange.phase.remaining(),
        exchange.step(event).phase.remaining() <= exchange.phase.remaining(),
        exchange.step(event).endpoint == exchange.endpoint,
        exchange.step(event).payload == exchange.payload,
{
}

/// Once an exchange has its outcome no event changes it: nothing is
/// retried.
pub proof fn lemma_done_is_final(exchange: ExchangeModel, event: EventModel)
    requires
        exchange.outcome() is Some,
    ensures
        exchange.step(event) == exchange,
{
}

/// A failure is reported as the error of the action that failed, and
/// ends the exchange there.
pub proof fn lemma_failure_is_reported(exchange: ExchangeModel)
    ensures
        exchange.phase == PhaseModel::Connecting ==> exchange.step(EventModel::Failed).outcome()
            == Some(Err::<AckModel, TransportError>(TransportError::Connect)),
        exchange.phase == PhaseModel::Writing ==> exchange.step(EventModel::Failed).outcome()
            == Some(Err::<AckModel, TransportError>(TransportError::Write)),
        exchange.phase == PhaseModel::Closing ==> exchange.step(EventModel::Failed).outcome()
            == Some(Err::<AckModel, TransportError>(TransportError::Shutdown)),
        exchange.phase == PhaseModel::Reading ==> exchange.step(EventModel::Failed).outcome()
            == Some(Err::<AckModel, TransportError>(TransportError::Read)),
{
}

/// What was read decides the outcome, and nothing else does: an exchange
/// ends with an acknowledgment exactly when its one read returned bytes
/// that amount to one.
pub proof fn lemma_reply_decides(exchange: ExchangeModel, bytes: Seq<u8>)
    requires
        exchange.phase == PhaseModel::Reading,
    ensures
        exchange.step(EventModel::Received(bytes)).outcome() == Some(ack_of(reply_chunk(bytes))),
        bytes.len() <= REPLY_LIMIT ==> exchange.step(EventModel::Received(bytes)).outcome()
            == Some(ack_of(bytes)),
{
}

/// Against a coordinator that accepts the connection and closes it without
/// writing anything, an exchange ends after its four actions with the
/// error for an empty reply.
pub proof fn lemma_silent_coordinator(endpoint: Seq<char>, payload: Seq<char>)
    ensures
        ExchangeModel::start(endpoint, payload).after(
            seq![
                EventModel::Connected,
                EventModel::Written,
                EventModel::Closed,
                EventModel::Received(Seq::<u8>::empty()),
            ],
        ).outcome() == Some(Err::<AckModel, TransportError>(TransportError::EmptyReply)),
{
    let start = ExchangeModel::start(endpoint, payload);
    let events = seq![
        EventModel::Connected,
        EventModel::Written,
        EventModel::Closed,
        EventModel::Received(Seq::<u8>::empty()),
    ];
    let e3 = events.drop_last();
    let e2 = e3.drop_last();
    let e1 = e2.drop_last();
    assert(e1.drop_last().len() == 0);
    assert(start.after(e1.drop_last()) == start);
    assert(start.after(e1) == start.step(EventModel::Connected));
    assert(start.after(e2) == start.after(e1).step(EventModel::Written));
    assert(start.after(e3) == start.after(e2).step(EventModel::Closed));
    assert(start.after(events) == start.after(e3).step(EventModel::Received(Seq::<u8>::empty())));
}

} // verus!
