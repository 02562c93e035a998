//! The read-only status endpoints: each response is a snapshot of the
//! node's identity and load, and none changes anything.

use crate::clock::unix_time;
use crate::error::{rendered, SerializationError};
use crate::identity::{IdentityModel, NodeIdentity};
use crate::json::{quote, string_literal};
use crate::load::{load_after_tick, LoadState, CAPACITY};
use crate::text::{decimal, push_decimal, push_digits};
use vstd::prelude::*;
use vstd::string::StringExecFns;

verus! {

/// The path of the root endpoint.
pub const ROOT_PATH: &'static str = "/";

/// The path of the health endpoint.
pub const HEALTH_PATH: &'static str = "/api/health";

/// The path of the info endpoint.
pub const INFO_PATH: &'static str = "/api/info";

/// The path of the status endpoint.
pub const STATUS_PATH: &'static str = "/api/status";

/// The greeting of the root endpoint.
pub const RUNNING_MESSAGE: &'static str = "Worker node is running";

/// The status a node reports of its health.
pub const HEALTHY: &'static str = "healthy";

/// The status a node reports of its activity.
pub const ACTIVE: &'static str = "active";

/// The number of active connections a node reports: a placeholder, not a
/// measurement.
pub const ACTIVE_CONNECTIONS: usize = 0;

/// Whole seconds from `started_at` to `now`; 0 where the clock reads
/// earlier than the start.
pub open spec fn elapsed_secs(started_at: u64, now: u64) -> u64 {
    if now >= started_at {
        (now - started_at) as u64
    } else {
        0
    }
}

/// The mathematical content of a [`RootResponse`].
pub struct RootModel {
    pub message: Seq<char>,
    pub node_id: Seq<char>,
    pub port: u16,
}

/// The mathematical content of a [`HealthResponse`].
pub struct HealthModel {
    pub status: Seq<char>,
    pub node_id: Seq<char>,
    pub load: i32,
    pub uptime: u64,
}

/// The mathematical content of an [`InfoResponse`].
pub struct InfoModel {
    pub node_id: Seq<char>,
    pub port: u16,
    pub load: i32,
    pub capacity: i32,
    pub master_address: Seq<char>,
}

/// The mathematical content of a [`StatusResponse`].
pub struct StatusModel {
    pub status: Seq<char>,
    pub node_id: Seq<char>,
    pub load: i32,
    pub active_connections: usize,
}

/// What `GET /` answers for a node: the greeting, the node's id and its
/// port.
pub open spec fn root_of(identity: IdentityModel) -> RootModel {
    RootModel { message: RUNNING_MESSAGE@, node_id: identity.id, port: identity.port }
}

/// What `GET /api/health` answers for a node with the given load that
/// started at `started_at`, when the clock reads `now`.
pub open spec fn health_of(identity: IdentityModel, load: i32, started_at: u64, now: u64)
    -> HealthModel {
    HealthModel {
        status: HEALTHY@,
        node_id: identity.id,
        load,
        uptime: elapsed_secs(started_at, now),
    }
}

/// What `GET /api/info` answers for a node with the given load.
pub open spec fn info_of(identity: IdentityModel, load: i32) -> InfoModel {
    InfoModel {
        node_id: identity.id,
        port: identity.port,
        load,
        capacity: CAPACITY,
        master_address: identity.master_address,
    }
}

/// What `GET /api/status` answers for a node with the given load.
pub open spec fn status_of(identity: IdentityModel, load: i32) -> StatusModel {
    StatusModel {
        status: ACTIVE@,
        node_id: identity.id,
        load,
        active_connections: ACTIVE_CONNECTIONS,
    }
}

/// The JSON body of a root response. The first two arguments are JSON
/// string literals.
pub open spec fn root_text(
    message_literal: Seq<char>,
    node_id_literal: Seq<char>,
    port: u16,
) -> Seq<char> {
    "{\"message\":"@ + message_literal + ",\"node_id\":"@ + node_id_literal + ",\"port\":"@
        + decimal(port as int) + "}"@
}

/// The JSON body of a health response. The first two arguments are JSON
/// string literals.
pub open spec fn health_text(
    status_literal: Seq<char>,
    node_id_literal: Seq<char>,
    load: i32,
    uptime: u64,
) -> Seq<char> {
    "{\"status\":"@ + status_literal + ",\"node_id\":"@ + node_id_literal + ",\"load\":"@
        + decimal(load as int) + ",\"uptime\":"@ + decimal(uptime as int) + "}"@
}

/// The JSON body of an info response. The first and the last argument are
/// JSON string literals.
pub open spec fn info_text(
    node_id_literal: Seq<char>,
    port: u16,
    load: i32,
    capacity: i32,
    master_address_literal: Seq<char>,
) -> Seq<char> {
    "{\"node_id\":"@ + node_id_literal + ",\"port\":"@ + decimal(port as int) + ",\"load\":"@
        + decimal(load as int) + ",\"capacity\":"@ + decimal(capacity as int)
        + ",\"master_address\":"@ + master_address_literal + "}"@
}

/// The JSON body of a status response. The first two arguments are JSON
/// string literals.
pub open spec fn status_text(
    status_literal: Seq<char>,
    node_id_literal: Seq<char>,
    load: i32,
    active_connections: usize,
) -> Seq<char> {
    "{\"status\":"@ + status_literal + ",\"node_id\":"@ + node_id_literal + ",\"load\":"@
        + decimal(load as int) + ",\"active_connections\":"@ + decimal(active_connections as int)
        + "}"@
}

impl RootModel {
    /// The JSON body: the framing around the JSON string literals of the
    /// strings and the decimal text of the port.
    pub open spec fn body(self) -> Seq<char> {
        root_text(string_literal(self.message), string_literal(self.node_id), self.port)
    }
}

impl HealthModel {
    /// The JSON body: the framing around the JSON string literals of the
    /// strings and the decimal text of the numbers.
    pub open spec fn body(self) -> Seq<char> {
        health_text(
            string_literal(self.status),
            string_literal(self.node_id),
            self.load,
            self.uptime,
        )
    }
}

impl InfoModel {
    /// The JSON body: the framing around the JSON string literals of the
    /// strings and the decimal text of the numbers.
    pub open spec fn body(self) -> Seq<char> {
        info_text(
            string_literal(self.node_id),
            self.port,
            self.load,
            self.capacity,
            string_literal(self.master_address),
        )
    }
}

impl StatusModel {
    /// The JSON body: the framing around the JSON string literals of the
    /// strings and the decimal text of the numbers.
    pub open spec fn body(self) -> Seq<char> {
        status_text(
            string_literal(self.status),
            string_literal(self.node_id),
            self.load,
            self.active_connections,
        )
    }
}

/// The answer of `GET /`.
#[derive(Debug, PartialEq, Eq)]
pub struct RootResponse {
    pub message: String,
    pub node_id: String,
    pub port: u16,
}

/// The answer of `GET /api/health`.
#[derive(Debug, PartialEq, Eq)]
pub struct HealthResponse {
    pub status: String,
    pub node_id: String,
    pub load: i32,
    pub uptime: u64,
}

/// The answer of `GET /api/info`.
#[derive(Debug, PartialEq, Eq)]
pub struct InfoResponse {
    pub node_id: String,
    pub port: u16,
    pub load: i32,
    pub capacity: i32,
    pub master_address: String,
}

/// The answer of `GET /api/status`.
#[derive(Debug, PartialEq, Eq)]
pub struct StatusResponse {
    pub status: String,
    pub node_id: String,
    pub load: i32,
    pub active_connections: usize,
}

impl View for RootResponse {
    type V = RootModel;

    open spec fn view(&self) -> RootModel {
        RootModel { message: self.message@, node_id: self.node_id@, port: self.port }
    }
}

impl View for HealthResponse {
    type V = HealthModel;

    open spec fn view(&self) -> HealthModel {
        HealthModel {
            status: self.status@,
            node_id: self.node_id@,
            load: self.load,
            uptime: self.uptime,
        }
    }
}

impl View for InfoResponse {
    type V = InfoModel;

    open spec fn view(&self) -> InfoModel {
        InfoModel {
            node_id: self.node_id@,
            port: self.port,
            load: self.load,
            capacity: self.capacity,
            master_address: self.master_address@,
        }
    }
}

impl View for StatusResponse {
    type V = StatusModel;

    open spec fn view(&self) -> StatusModel {
        StatusModel {
            status: self.status@,
            node_id: self.node_id@,
            load: self.load,
            active_connections: self.active_connections,
        }
    }
}

/// Puts the body of a root response together. The strings are taken as
/// they are: they have to be JSON string literals already.
pub fn frame_root(message_literal: &str, node_id_literal: &str, port: u16) -> (text: String)
    ensures
        text@ == root_text(message_literal@, node_id_literal@, port),
{
    let mut text = String::from_str("{\"message\":");
    text.append(message_literal);
    text.append(",\"node_id\":");
    text.append(node_id_literal);
    text.append(",\"port\":");
    push_digits(&mut text, port as u64);
    text.append("}");
    text
}

/// Puts the body of a health response together. The strings are taken as
/// they are: they have to be JSON string literals already.
pub fn frame_health(status_literal: &str, node_id_literal: &str, load: i32, uptime: u64) -> (text:
    String)
    ensures
        text@ == health_text(status_literal@, node_id_literal@, load, uptime),
{
    let mut text = String::from_str("{\"status\":");
    text.append(status_literal);
    text.append(",\"node_id\":");
    text.append(node_id_literal);
    text.append(",\"load\":");
    push_decimal(&mut text, load as i64);
    text.append(",\"uptime\":");
    push_digits(&mut text, uptime);
    text.append("}");
    text
}

/// Puts the body of an info response together. The strings are taken as
/// they are: they have to be JSON string literals already.
pub fn frame_info(
    node_id_literal: &str,
    port: u16,
    load: i32,
    capacity: i32,
    master_address_literal: &str,
) -> (text: String)
    ensures
        text@ == info_text(node_id_literal@, port, load, capacity, master_address_literal@),
{
    let mut text = String::from_str("{\"node_id\":");
    text.append(node_id_literal);
    text.append(",\"port\":");
    push_digits(&mut text, port as u64);
    text.append(",\"load\":");
    push_decimal(&mut text, load as i64);
    text.append(",\"capacity\":");
    push_decimal(&mut text, capacity as i64);
    text.append(",\"master_address\":");
    text.append(master_address_literal);
    text.append("}");
    text
}

/// Puts the body of a status response together. The strings are taken as
/// they are: they have to be JSON string literals already.
pub fn frame_status(
    status_literal: &str,
    node_id_literal: &str,
    load: i32,
    active_connections: usize,
) -> (text: String)
    ensures
        text@ == status_text(status_literal@, node_id_literal@, load, active_connections),
{
    let mut text = String::from_str("{\"status\":");
    text.append(status_literal);
    text.append(",\"node_id\":");
    text.append(node_id_literal);
    text.append(",\"load\":");
    push_decimal(&mut text, load as i64);
    text.append(",\"active_connections\":");
    push_digits(&mut text, active_connections as u64);
    text.append("}");
    text
}

impl RootResponse {
    /// Renders the response as its JSON body. The JSON codec refuses no
    /// string: rendering always succeeds.
    pub fn to_json(&self) -> (r: Result<String, SerializationError>)
        ensures
            rendered(r) == Some(self@.body()),
    {
        match (quote(self.message.as_str()), quote(self.node_id.as_str())) {
            (Ok(message), Ok(node_id)) => Ok(
                frame_root(message.as_str(), node_id.as_str(), self.port),
            ),
            _ => Err(SerializationError),
        }
    }
}

impl HealthResponse {
    /// Renders the response as its JSON body. The JSON codec refuses no
    /// string: rendering always succeeds.
    pub fn to_json(&self) -> (r: Result<String, SerializationError>)
        ensures
            rendered(r) == Some(self@.body()),
    {
        match (quote(self.status.as_str()), quote(self.node_id.as_str())) {
            (Ok(status), Ok(node_id)) => Ok(
                frame_health(status.as_str(), node_id.as_str(), self.load, self.uptime),
            ),
            _ => Err(SerializationError),
        }
    }
}

impl InfoResponse {
    /// Renders the response as its JSON body. The JSON codec refuses no
    /// string: rendering always succeeds.
    pub fn to_json(&self) -> (r: Result<String, SerializationError>)
        ensures
            rendered(r) == Some(self@.body()),
    {
        match (quote(self.node_id.as_str()), quote(self.master_address.as_str())) {
            (Ok(node_id), Ok(master_address)) => Ok(
                frame_info(
                    node_id.as_str(),
                    self.port,
                    self.load,
                    self.capacity,
                    master_address.as_str(),
                ),
            ),
            _ => Err(SerializationError),
        }
    }
}

impl StatusResponse {
    /// Renders the response as its JSON body. The JSON codec refuses no
    /// string: rendering always succeeds.
    pub fn to_json(&self) -> (r: Result<String, SerializationError>)
        ensures
            rendered(r) == Some(self@.body()),
    {
        match (quote(self.status.as_str()), quote(self.node_id.as_str())) {
            (Ok(status), Ok(node_id)) => Ok(
                frame_status(
                    status.as_str(),
                    node_id.as_str(),
                    self.load,
                    self.active_connections,
                ),
            ),
            _ => Err(SerializationError),
        }
    }
}

/// Whole seconds from `started_at` to `now`; 0 where the clock reads
/// earlier than the start.
pub fn uptime_between(started_at: u64, now: u64) -> (uptime: u64)
    ensures
        uptime == elapsed_secs(started_at, now),
{
    if now >= started_at {
        now - started_at
    } else {
        0
    }
}

/// Whole seconds since `started_at` by the system clock. What the clock
/// reads is left open: the result is the uptime at some reading.
pub fn get_uptime(started_at: u64) -> (uptime: u64)
    ensures
        exists|now: u64| uptime == #[trigger] elapsed_secs(started_at, now),
{
    let now = unix_time();
    let uptime = uptime_between(started_at, now);
    assert(uptime == elapsed_secs(started_at, now));
    uptime
}

/// Answers `GET /`.
pub fn root_handler(identity: &NodeIdentity) -> (response: RootResponse)
    ensures
        response@ == root_of(identity@),
{
    RootResponse {
        message: String::from_str(RUNNING_MESSAGE),
        node_id: String::from_str(identity.id()),
        port: identity.port(),
    }
}

/// Answers `GET /api/health` at clock reading `now` for a node that
/// started at `started_at`.
pub fn health_at(identity: &NodeIdentity, load: &LoadState, started_at: u64, now: u64) -> (response:
    HealthResponse)
    ensures
        response@ == health_of(identity@, load@, started_at, now),
{
    HealthResponse {
        status: String::from_str(HEALTHY),
        node_id: String::from_str(identity.id()),
        load: load.read(),
        uptime: uptime_between(started_at, now),
    }
}

/// Answers `GET /api/health` by the system clock, for a node that started
/// at `started_at`. What the clock reads is left open: the response is the
/// answer at some reading.
pub fn health_handler(identity: &NodeIdentity, load: &LoadState, started_at: u64) -> (response:
    HealthResponse)
    ensures
        exists|now: u64| response@ == #[trigger] health_of(identity@, load@, started_at, now),
{
    let now = unix_time();
    let response = health_at(identity, load, started_at, now);
    assert(response@ == health_of(identity@, load@, started_at, now));
    response
}

/// Answers `GET /api/info`.
pub fn info_handler(identity: &NodeIdentity, load: &LoadState) -> (response: InfoResponse)
    ensures
        response@ == info_of(identity@, load@),
{
    InfoResponse {
        node_id: String::from_str(identity.id()),
        port: identity.port(),
        load: load.read(),
        capacity: CAPACITY,
        master_address: String::from_str(identity.master_address()),
    }
}

/// Answers `GET /api/status`.
pub fn status_handler(identity: &NodeIdentity, load: &LoadState) -> (response: StatusResponse)
    ensures
        response@ == status_of(identity@, load@),
{
    StatusResponse {
        status: String::from_str(ACTIVE),
        node_id: String::from_str(identity.id()),
        load: load.read(),
        active_connections: ACTIVE_CONNECTIONS,
    }
}

/// What happens to a node between two moments: a tick of the load
/// simulator, or a request to one of the status endpoints.
pub enum NodeEvent {
    Tick { draw: i32 },
    Request,
}

/// The load of a node after a run of events: ticks replace it, requests
/// leave it alone.
pub open spec fn load_through(initial: i32, events: Seq<NodeEvent>) -> i32
    decreases events.len(),
{
    if events.len() == 0 {
        initial
    } else {
        let before = load_through(initial, events.drop_last());
        match events.last() {
            NodeEvent::Tick { draw } => load_after_tick(before, draw),
            NodeEvent::Request => before,
        }
    }
}

/// Requests are idempotent: two requests to `GET /api/info` with no tick
/// of the load simulator between them get the same answer, however many
/// other requests were served in between and whatever the clock reads.
/// Here `first` and `second` are the positions of the two requests in the
/// run of events.
pub proof fn lemma_info_is_repeatable(
    identity: IdentityModel,
    initial: i32,
    events: Seq<NodeEvent>,
    first: int,
    second: int,
)
    requires
        0 <= first <= second <= events.len(),
        forall|k: int| first <= k < second ==> events[k] == NodeEvent::Request,
    ensures
        load_through(initial, events.take(second)) == load_through(initial, events.take(first)),
        info_of(identity, load_through(initial, events.take(second))) == info_of(
            identity,
            load_through(initial, events.take(first)),
        ),
    decreases second - first,
{
    if first < second {
        lemma_info_is_repeatable(identity, initial, events, first, second - 1);
        assert(events.take(second).drop_last() == events.take(second - 1));
        assert(events.take(second).last() == events[second - 1]);
    }
}

/// A node that has not ticked yet reports load 0 and, asked at the moment
/// it started, uptime 0.
pub proof fn lemma_health_at_startup(identity: IdentityModel, started_at: u64)
    ensures
        health_of(identity, load_through(0, Seq::<NodeEvent>::empty()), started_at, started_at)
            == (HealthModel { status: HEALTHY@, node_id: identity.id, load: 0, uptime: 0 }),
{
}

} // verus!
