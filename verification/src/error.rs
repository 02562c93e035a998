//! The failures a worker node can report.

use vstd::prelude::*;

verus! {

/// The coordinator stayed unreachable through every allowed connection
/// attempt. Fatal to startup.
#[derive(Clone, Copy, Debug, PartialEq, Eq, Structural)]
pub struct ReadinessTimeoutError {
    /// How many connection attempts were made before giving up.
    pub attempts: u32,
}

/// Why a one-shot message exchange with the coordinator failed.
#[derive(Clone, Copy, Debug, PartialEq, Eq, Structural)]
pub enum TransportError {
    /// The connection could not be opened.
    Connect,
    /// The message could not be written in full.
    Write,
    /// The write half could not be closed to mark the end of the message.
    Shutdown,
    /// Reading the reply failed.
    Read,
    /// The coordinator closed the connection without sending anything.
    EmptyReply,
    /// The reply is not a JSON object with a string member `status`.
    MalformedReply,
}

/// A message or a response body could not be rendered as JSON. The
/// renderings of this crate never fail; their signatures keep the error so
/// that a caller handles it in one place should a rendering ever gain a way
/// to fail.
#[derive(Clone, Copy, Debug, PartialEq, Eq, Structural)]
pub struct SerializationError;

/// What a rendering gave: the text, or `None` for the error.
pub open spec fn rendered(r: Result<String, SerializationError>) -> Option<Seq<char>> {
    match r {
        Ok(text) => Some(text@),
        Err(_) => None,
    }
}

impl ReadinessTimeoutError {
    /// A one-line description for logs.
    pub fn describe(&self) -> (text: &'static str)
        ensures
            text@ == "coordinator not ready after all attempts"@,
    {
        "coordinator not ready after all attempts"
    }
}

impl TransportError {
    /// The description of each kind of failure.
    pub open spec fn description(self) -> Seq<char> {
        match self {
            TransportError::Connect => "could not connect to the coordinator"@,
            TransportError::Write => "could not write the message"@,
            TransportError::Shutdown => "could not close the write half"@,
            TransportError::Read => "could not read the reply"@,
            TransportError::EmptyReply => "the coordinator sent no reply"@,
            TransportError::MalformedReply => "the reply is not a valid acknowledgment"@,
        }
    }

    /// A one-line description for logs.
    pub fn describe(&self) -> (text: &'static str)
        ensures
            text@ == self.description(),
    {
        match self {
            TransportError::Connect => "could not connect to the coordinator",
            TransportError::Write => "could not write the message",
            TransportError::Shutdown => "could not close the write half",
            TransportError::Read => "could not read the reply",
            TransportError::EmptyReply => "the coordinator sent no reply",
            TransportError::MalformedReply => "the reply is not a valid acknowledgment",
        }
    }
}

impl SerializationError {
    /// A one-line description for logs.
    pub fn describe(&self) -> (text: &'static str)
        ensures
            text@ == "could not render JSON"@,
    {
        "could not render JSON"
    }
}

} // verus!
