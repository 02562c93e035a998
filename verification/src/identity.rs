//! The identity of a node: who it is, where it listens, whom it reports to.

use crate::random::{fresh_uuid_text, is_uuid_text};
use crate::text::{decimal, push_digits};
use vstd::prelude::*;
use vstd::string::StringExecFns;

verus! {

/// The port a node listens on.
pub const LISTEN_PORT: u16 = 9000;

/// The host name of the coordinator.
pub const MASTER_ADDRESS: &'static str = "master";

/// The port of the coordinator.
pub const MASTER_PORT: u16 = 8081;

/// The mathematical content of a [`NodeIdentity`].
pub struct IdentityModel {
    pub id: Seq<char>,
    pub port: u16,
    pub master_address: Seq<char>,
    pub master_port: u16,
}

/// The text `address:port` that names a network endpoint.
pub open spec fn endpoint_text(address: Seq<char>, port: u16) -> Seq<char> {
    address + ":"@ + decimal(port as int)
}

/// Renders the endpoint `address:port`, the form in which a connection is
/// opened.
pub fn endpoint(address: &str, port: u16) -> (text: String)
    ensures
        text@ == endpoint_text(address@, port),
{
    let mut text = String::from_str(address);
    text.append(":");
    push_digits(&mut text, port as u64);
    text
}

/// Who a node is. Made once at startup and never changed afterwards.
#[derive(Debug, PartialEq, Eq)]
pub struct NodeIdentity {
    id: String,
    port: u16,
    master_address: String,
    master_port: u16,
}

impl View for NodeIdentity {
    type V = IdentityModel;

    closed spec fn view(&self) -> IdentityModel {
        IdentityModel {
            id: self.id@,
            port: self.port,
            master_address: self.master_address@,
            master_port: self.master_port,
        }
    }
}

impl Clone for NodeIdentity {
    fn clone(&self) -> (copy: NodeIdentity)
        ensures
            copy@ == self@,
    {
        NodeIdentity {
            id: self.id.clone(),
            port: self.port,
            master_address: self.master_address.clone(),
            master_port: self.master_port,
        }
    }
}

impl NodeIdentity {
    /// An identity made of the given parts.
    pub fn new(id: String, port: u16, master_address: String, master_port: u16) -> (identity:
        NodeIdentity)
        ensures
            identity@ == (IdentityModel {
                id: id@,
                port,
                master_address: master_address@,
                master_port,
            }),
    {
        NodeIdentity { id, port, master_address, master_port }
    }

    /// The identity of a node in the fixed deployment, under the given id:
    /// it listens on port 9000 and reports to `master:8081`.
    pub fn with_id(id: String) -> (identity: NodeIdentity)
        ensures
            identity@ == (IdentityModel {
                id: id@,
                port: LISTEN_PORT,
                master_address: MASTER_ADDRESS@,
                master_port: MASTER_PORT,
            }),
    {
        NodeIdentity {
            id,
            port: LISTEN_PORT,
            master_address: String::from_str(MASTER_ADDRESS),
            master_port: MASTER_PORT,
        }
    }

    /// The identity of a new node in the fixed deployment: a fresh random
    /// 128-bit identifier in canonical UUID text form.
    pub fn generate() -> (identity: NodeIdentity)
        ensures
            is_uuid_text(identity@.id),
            identity@.port == LISTEN_PORT,
            identity@.master_address == MASTER_ADDRESS@,
            identity@.master_port == MASTER_PORT,
    {
        NodeIdentity::with_id(fresh_uuid_text())
    }

    /// The node's identifier.
    pub fn id(&self) -> (id: &str)
        ensures
            id@ == self@.id,
    {
        self.id.as_str()
    }

    /// The port the node listens on.
    pub fn port(&self) -> (port: u16)
        ensures
            port == self@.port,
    {
        self.port
    }

    /// The coordinator's host.
    pub fn master_address(&self) -> (address: &str)
        ensures
            address@ == self@.master_address,
    {
        self.master_address.as_str()
    }

    /// The coordinator's port.
    pub fn master_port(&self) -> (port: u16)
        ensures
            port == self@.master_port,
    {
        self.master_port
    }

    /// The coordinator's endpoint as `host:port`, the form in which a
    /// connection is opened.
    pub fn master_endpoint(&self) -> (endpoint: String)
        ensures
            endpoint@ == endpoint_text(self@.master_address, self@.master_port),
    {
        endpoint(self.master_address.as_str(), self.master_port)
    }
}

} // verus!
