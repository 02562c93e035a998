//! The wire protocol to the coordinator: one JSON object per connection in
//! each direction.
//!
//! Outbound: `{"type":"register","id":..,"address":..,"port":..}`,
//! `{"type":"heartbeat","id":..}`, `{"type":"load_update","id":..,"load":..}`.
//! Inbound: `{"status":..}`.

use crate::error::{rendered, SerializationError, TransportError};
use crate::identity::NodeIdentity;
use crate::json::{document_members, parse, quote, string_literal, text_member};
use crate::text::{decimal, push_decimal, push_digits};
use vstd::prelude::*;
use vstd::string::StringExecFns;

verus! {

/// The address a node announces when it registers.
pub const REGISTER_ADDRESS: &'static str = "0.0.0.0";

/// The name of the reply member that carries the coordinator's verdict.
pub const STATUS_MEMBER: &'static str = "status";

/// The mathematical content of an [`OutboundMessage`].
pub enum MessageModel {
    Register { id: Seq<char>, address: Seq<char>, port: u16 },
    Heartbeat { id: Seq<char> },
    LoadUpdate { id: Seq<char>, load: i32 },
}

/// How every message starts: the discriminant under `type`, then the
/// sender under `id`. `id_literal` is a JSON string literal.
pub open spec fn opening_text(kind: Seq<char>, id_literal: Seq<char>) -> Seq<char> {
    "{\"type\":\""@ + kind + "\",\"id\":"@ + id_literal
}

/// The text of a registration. `id_literal` and `address_literal` are JSON
/// string literals.
pub open spec fn register_text(
    id_literal: Seq<char>,
    address_literal: Seq<char>,
    port: u16,
) -> Seq<char> {
    opening_text("register"@, id_literal) + ",\"address\":"@ + address_literal + ",\"port\":"@
        + decimal(port as int) + "}"@
}

/// The text of a heartbeat. `id_literal` is a JSON string literal.
pub open spec fn heartbeat_text(id_literal: Seq<char>) -> Seq<char> {
    opening_text("heartbeat"@, id_literal) + "}"@
}

/// The text of a load report. `id_literal` is a JSON string literal.
pub open spec fn load_update_text(id_literal: Seq<char>, load: i32) -> Seq<char> {
    opening_text("load_update"@, id_literal) + ",\"load\":"@ + decimal(load as int) + "}"@
}

impl MessageModel {
    /// The discriminant by which the coordinator tells the messages apart.
    pub open spec fn kind(self) -> Seq<char> {
        match self {
            MessageModel::Register { .. } => "register"@,
            MessageModel::Heartbeat { .. } => "heartbeat"@,
            MessageModel::LoadUpdate { .. } => "load_update"@,
        }
    }

    /// The node the message comes from.
    pub open spec fn sender(self) -> Seq<char> {
        match self {
            MessageModel::Register { id, .. } => id,
            MessageModel::Heartbeat { id } => id,
            MessageModel::LoadUpdate { id, .. } => id,
        }
    }

    /// The text that goes on the wire: the framing of the message's kind
    /// around the JSON string literals of its strings.
    pub open spec fn wire_text(self) -> Seq<char> {
        match self {
            MessageModel::Register { id, address, port } => register_text(
                string_literal(id),
                string_literal(address),
                port,
            ),
            MessageModel::Heartbeat { id } => heartbeat_text(string_literal(id)),
            MessageModel::LoadUpdate { id, load } => load_update_text(string_literal(id), load),
        }
    }
}

/// A message from a node to the coordinator. Built for one send and never
/// changed afterwards.
#[derive(Debug, PartialEq, Eq)]
pub enum OutboundMessage {
    /// Announces the node and where it can be reached.
    Register { id: String, address: String, port: u16 },
    /// Says that the node is alive.
    Heartbeat { id: String },
    /// Reports the node's current load.
    LoadUpdate { id: String, load: i32 },
}

impl View for OutboundMessage {
    type V = MessageModel;

    open spec fn view(&self) -> MessageModel {
        match self {
            OutboundMessage::Register { id, address, port } => MessageModel::Register {
                id: id@,
                address: address@,
                port: *port,
            },
            OutboundMessage::Heartbeat { id } => MessageModel::Heartbeat { id: id@ },
            OutboundMessage::LoadUpdate { id, load } => MessageModel::LoadUpdate {
                id: id@,
                load: *load,
            },
        }
    }
}

impl Clone for OutboundMessage {
    fn clone(&self) -> (copy: OutboundMessage)
        ensures
            copy@ == self@,
    {
        match self {
            OutboundMessage::Register { id, address, port } => OutboundMessage::Register {
                id: id.clone(),
                address: address.clone(),
                port: *port,
            },
            OutboundMessage::Heartbeat { id } => OutboundMessage::Heartbeat { id: id.clone() },
            OutboundMessage::LoadUpdate { id, load } => OutboundMessage::LoadUpdate {
                id: id.clone(),
                load: *load,
            },
        }
    }
}

/// Starts a message of the given kind from the sender whose identifier, as
/// a JSON string literal, is `id_literal`.
fn open_message(kind: &str, id_literal: &str) -> (text: String)
    ensures
        text@ == opening_text(kind@, id_literal@),
{
    let mut text = String::from_str("{\"type\":\"");
    text.append(kind);
    text.append("\",\"id\":");
    text.append(id_literal);
    text
}

/// Puts a registration together from its parts. `id_literal` and
/// `address_literal` are taken as they are: they have to be JSON string
/// literals already.
pub fn frame_register(id_literal: &str, address_literal: &str, port: u16) -> (text: String)
    ensures
        text@ == register_text(id_literal@, address_literal@, port),
{
    let mut text = open_message("register", id_literal);
    text.append(",\"address\":");
    text.append(address_literal);
    text.append(",\"port\":");
    push_digits(&mut text, port as u64);
    text.append("}");
    text
}

/// Puts a heartbeat together. `id_literal` has to be a JSON string literal
/// already.
pub fn frame_heartbeat(id_literal: &str) -> (text: String)
    ensures
        text@ == heartbeat_text(id_literal@),
{
    let mut text = open_message("heartbeat", id_literal);
    text.append("}");
    text
}

/// Puts a load report together. `id_literal` has to be a JSON string
/// literal already.
pub fn frame_load_update(id_literal: &str, load: i32) -> (text: String)
    ensures
        text@ == load_update_text(id_literal@, load),
{
    let mut text = open_message("load_update", id_literal);
    text.append(",\"load\":");
    push_decimal(&mut text, load as i64);
    text.append("}");
    text
}

impl OutboundMessage {
    /// The registration of `identity`: its id, the announce address
    /// `0.0.0.0` and its listening port.
    pub fn registration(identity: &NodeIdentity) -> (message: OutboundMessage)
        ensures
            message@ == (MessageModel::Register {
                id: identity@.id,
                address: REGISTER_ADDRESS@,
                port: identity@.port,
            }),
    {
        OutboundMessage::Register {
            id: String::from_str(identity.id()),
            address: String::from_str(REGISTER_ADDRESS),
            port: identity.port(),
        }
    }

    /// A heartbeat of `identity`.
    pub fn heartbeat(identity: &NodeIdentity) -> (message: OutboundMessage)
        ensures
            message@ == (MessageModel::Heartbeat { id: identity@.id }),
    {
        OutboundMessage::Heartbeat { id: String::from_str(identity.id()) }
    }

    /// A report of `identity` that its load is `load`.
    pub fn load_update(identity: &NodeIdentity, load: i32) -> (message: OutboundMessage)
        ensures
            message@ == (MessageModel::LoadUpdate { id: identity@.id, load }),
    {
        OutboundMessage::LoadUpdate { id: String::from_str(identity.id()), load }
    }

    /// The discriminant of the message.
    pub fn kind(&self) -> (kind: &'static str)
        ensures
            kind@ == self@.kind(),
    {
        match self {
            OutboundMessage::Register { .. } => "register",
            OutboundMessage::Heartbeat { .. } => "heartbeat",
            OutboundMessage::LoadUpdate { .. } => "load_update",
        }
    }

    /// Renders the message as the JSON text that goes on the wire. The
    /// strings are written as JSON string literals by the JSON codec, which
    /// refuses none: rendering always succeeds.
    pub fn encode(&self) -> (r: Result<String, SerializationError>)
        ensures
            rendered(r) == Some(self@.wire_text()),
    {
        match self {
            OutboundMessage::Register { id, address, port } => {
                match (quote(id.as_str()), quote(address.as_str())) {
                    (Ok(id_literal), Ok(address_literal)) => Ok(
                        frame_register(id_literal.as_str(), address_literal.as_str(), *port),
                    ),
                    _ => Err(SerializationError),
                }
            },
            OutboundMessage::Heartbeat { id } => match quote(id.as_str()) {
                Ok(id_literal) => Ok(frame_heartbeat(id_literal.as_str())),
                Err(_) => Err(SerializationError),
            },
            OutboundMessage::LoadUpdate { id, load } => match quote(id.as_str()) {
                Ok(id_literal) => Ok(frame_load_update(id_literal.as_str(), *load)),
                Err(_) => Err(SerializationError),
            },
        }
    }
}

/// The mathematical content of a [`CoordinatorAck`].
pub struct AckModel {
    pub status: Seq<char>,
}

/// The coordinator's reply to one message. The status is carried through
/// as received; no value of it is expected or refused.
#[derive(Debug, PartialEq, Eq)]
pub struct CoordinatorAck {
    pub status: String,
}

impl Clone for CoordinatorAck {
    fn clone(&self) -> (copy: CoordinatorAck)
        ensures
            copy@ == self@,
    {
        CoordinatorAck { status: self.status.clone() }
    }
}

impl View for CoordinatorAck {
    type V = AckModel;

    open spec fn view(&self) -> AckModel {
        AckModel { status: self.status@ }
    }
}

/// The mathematical content of a [`ReplyScan`].
pub enum ScanModel {
    Invalid,
    NoStatus,
    Status(Seq<char>),
}

/// What the JSON codec found in a reply.
#[derive(Debug, PartialEq, Eq)]
pub enum ReplyScan {
    /// The bytes are not one JSON document.
    Invalid,
    /// A JSON document without a string member `status`.
    NoStatus,
    /// A JSON object whose member `status` is this string.
    Status(String),
}

impl View for ReplyScan {
    type V = ScanModel;

    open spec fn view(&self) -> ScanModel {
        match self {
            ReplyScan::Invalid => ScanModel::Invalid,
            ReplyScan::NoStatus => ScanModel::NoStatus,
            ReplyScan::Status(status) => ScanModel::Status(status@),
        }
    }
}

/// What the JSON codec finds in `reply`.
pub open spec fn scan_of(reply: Seq<u8>) -> ScanModel {
    match document_members(reply) {
        None => ScanModel::Invalid,
        Some(members) => if members.contains_key(STATUS_MEMBER@) {
            ScanModel::Status(members[STATUS_MEMBER@])
        } else {
            ScanModel::NoStatus
        },
    }
}

/// The acknowledgment that a reply of `reply_len` bytes amounts to, given
/// what the JSON codec found in it: no byte at all is an empty reply
/// whatever the scan says, a status is an acknowledgment, anything else is
/// malformed.
pub open spec fn ack_of_scan(reply_len: nat, scan: ScanModel) -> Result<AckModel, TransportError> {
    if reply_len == 0 {
        Err(TransportError::EmptyReply)
    } else {
        match scan {
            ScanModel::Status(status) => Ok(AckModel { status }),
            _ => Err(TransportError::MalformedReply),
        }
    }
}

/// The acknowledgment that the bytes of a reply amount to.
pub open spec fn ack_of(reply: Seq<u8>) -> Result<AckModel, TransportError> {
    ack_of_scan(reply.len(), scan_of(reply))
}

/// The mathematical content of the outcome of an exchange.
pub open spec fn outcome_model(outcome: Result<CoordinatorAck, TransportError>) -> Result<
    AckModel,
    TransportError,
> {
    match outcome {
        Ok(ack) => Ok(ack@),
        Err(error) => Err(error),
    }
}

/// Reads `reply` with the JSON codec and looks for the status in it.
pub fn scan_reply(reply: &[u8]) -> (scan: ReplyScan)
    ensures
        scan@ == scan_of(reply@),
{
    match parse(reply) {
        Err(_) => ReplyScan::Invalid,
        Ok(document) => match text_member(&document, STATUS_MEMBER) {
            Some(status) => ReplyScan::Status(status),
            None => ReplyScan::NoStatus,
        },
    }
}

/// Decides what a reply of `reply_len` bytes amounts to, given what the
/// JSON codec found in it.
pub fn ack_from_scan(reply_len: usize, scan: ReplyScan) -> (r: Result<
    CoordinatorAck,
    TransportError,
>)
    ensures
        outcome_model(r) == ack_of_scan(reply_len as nat, scan@),
{
    if reply_len == 0 {
        Err(TransportError::EmptyReply)
    } else {
        match scan {
            ReplyScan::Status(status) => Ok(CoordinatorAck { status }),
            _ => Err(TransportError::MalformedReply),
        }
    }
}

/// Reads the coordinator's reply: an empty reply and a reply that is not a
/// JSON object with a string member `status` are errors; anything else is
/// an acknowledgment with that status.
pub fn parse_ack(reply: &[u8]) -> (r: Result<CoordinatorAck, TransportError>)
    ensures
        outcome_model(r) == ack_of(reply@),
{
    if reply.len() == 0 {
        Err(TransportError::EmptyReply)
    } else {
        ack_from_scan(reply.len(), scan_reply(reply))
    }
}

} // verus!
