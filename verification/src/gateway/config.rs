//! The gateway's configuration.

use crate::gateway::directory::OWNERSHIP_TTL_SECS;
use crate::http::Headers;
use vstd::prelude::*;

verus! {

#[derive(Debug, Clone, PartialEq)]
pub struct Config {
    pub version: String,
    /// Identifies the cluster; shared by all instances of a group.
    pub group_id: String,
    pub server: Server,
    pub redis: Redis,
    pub routes: Routes,
}

#[derive(Debug, Clone, PartialEq)]
pub struct Routes {
    /// The virtual paths that clients may connect on, each beginning with `/`.
    pub endpoints: Vec<String>,
    pub authorizer: Option<Authorizer>,
    pub connect: Option<ConnectRoute>,
    pub disconnect: Option<DisconnectRoute>,
}

#[derive(Debug, Clone, PartialEq)]
pub struct Server {
    pub address: String,
    pub heartbeat_interval_sec: u16,
    pub stats_interval_sec: Option<u16>,
    pub connection_timeout_sec: u16,
    pub max_out_message_size: usize,
    pub comms: CommsMode,
}

/// Whether clients may send, and where their payloads go.
#[derive(Debug, Clone, PartialEq)]
pub enum CommsMode {
    /// Server to client only: client payloads are not forwarded.
    UniServerToClient,
    /// Both ways: client payloads go to this work-queue stream.
    Bidi { stream: Stream },
}

#[derive(Debug, Clone, PartialEq)]
pub struct Authorizer {
    pub endpoint: String,
    pub headers: Headers,
}

/// Where the key-value store and bus are reached.
#[derive(Debug, Clone, PartialEq)]
pub struct Redis {
    pub endpoint: String,
}

/// Where the work queue is reached, and the name of its stream.
#[derive(Debug, Clone, PartialEq)]
pub struct Stream {
    pub endpoint: String,
    pub name: String,
}

#[derive(Debug, Clone, PartialEq)]
pub struct ConnectRoute {
    pub endpoint: String,
    pub headers: Headers,
}

#[derive(Debug, Clone, PartialEq)]
pub struct DisconnectRoute {
    pub endpoint: String,
    pub headers: Headers,
}

impl Server {
    /// The time to live of an ownership entry is at least three heartbeat
    /// intervals, so that one missed ping does not expire ownership.
    pub open spec fn ttl_covers_heartbeats(&self) -> bool {
        3 * self.heartbeat_interval_sec <= OWNERSHIP_TTL_SECS
    }

    /// Whether the heartbeat interval respects the ownership time to live.
    pub fn heartbeat_fits_ttl(&self) -> (r: bool)
        ensures
            r == self.ttl_covers_heartbeats(),
    {
        let interval: u64 = self.heartbeat_interval_sec as u64;
        3 * interval <= OWNERSHIP_TTL_SECS
    }

    /// The heartbeat interval in milliseconds.
    pub fn heartbeat_interval_ms(&self) -> (ms: u64)
        ensures
            ms == self.heartbeat_interval_sec * 1000,
    {
        let sec: u64 = self.heartbeat_interval_sec as u64;
        sec * 1000
    }

    /// The connection timeout in milliseconds.
    pub fn connection_timeout_ms(&self) -> (ms: u64)
        ensures
            ms == self.connection_timeout_sec * 1000,
    {
        let sec: u64 = self.connection_timeout_sec as u64;
        sec * 1000
    }
}

} // verus!
