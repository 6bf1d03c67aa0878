//! Peer-to-peer configuration.

use vstd::prelude::*;

use super::{DEFAULT_STUN_SERVERS, P2P_PORT, P2P_TIMEOUT_SECS};

verus! {

/// Peer-to-peer configuration.
#[derive(Debug, Clone)]
pub struct P2PConfig {
    /// Whether direct connections are made at all.
    pub enable_p2p: bool,
    /// Whether peers are discovered on the local network.
    pub enable_lan_discovery: bool,
    /// STUN servers to ask for the public address.
    pub stun_servers: Vec<String>,
    /// Server latency (ms) below which a direct connection is not worth it.
    pub min_server_latency_ms: u64,
    /// Connection timeout (seconds).
    pub p2p_timeout_secs: u64,
    /// Time to wait after a failure before trying again (seconds).
    pub retry_interval_secs: u64,
    /// Whether direct connection and relay are used together.
    pub enable_bonding: bool,
    /// Peer-to-peer latency (ms) above which the relay is better.
    pub max_p2p_latency_ms: u64,
    /// Listening port.
    pub p2p_port: u16,
    /// Whether desktops prefer direct connections to each other.
    pub prefer_p2p_desktop: bool,
}

impl P2PConfig {
    /// Whether this is the configuration that holds unless another is given.
    pub open spec fn is_default(self) -> bool {
        &&& self.enable_p2p
        &&& self.enable_lan_discovery
        &&& self.stun_servers@.len() == 2
        &&& self.stun_servers@[0]@ == "stun.l.google.com:19302"@
        &&& self.stun_servers@[1]@ == "stun.stunprotocol.org:3478"@
        &&& self.min_server_latency_ms == 50
        &&& self.p2p_timeout_secs == P2P_TIMEOUT_SECS
        &&& self.retry_interval_secs == 300
        &&& !self.enable_bonding
        &&& self.max_p2p_latency_ms == 200
        &&& self.p2p_port == P2P_PORT
        &&& self.prefer_p2p_desktop
    }
}

impl Default for P2PConfig {
    fn default() -> (config: Self)
        ensures
            config.is_default(),
    {
        let mut stun_servers: Vec<String> = Vec::new();
        stun_servers.push(String::from_str(DEFAULT_STUN_SERVERS[0]));
        stun_servers.push(String::from_str(DEFAULT_STUN_SERVERS[1]));
        P2PConfig {
            enable_p2p: true,
            enable_lan_discovery: true,
            stun_servers,
            min_server_latency_ms: 50,
            p2p_timeout_secs: P2P_TIMEOUT_SECS,
            retry_interval_secs: 300,
            enable_bonding: false,
            max_p2p_latency_ms: 200,
            p2p_port: P2P_PORT,
            prefer_p2p_desktop: true,
        }
    }
}

impl P2PConfig {
    /// The default configuration.
    pub fn new() -> (config: Self)
        ensures
            config.is_default(),
    {
        P2PConfig::default()
    }

    /// Whether direct connections are made at all.
    pub fn is_enabled(&self) -> (b: bool)
        ensures
            b == self.enable_p2p,
    {
        self.enable_p2p
    }

    /// Whether peers are discovered on the local network.
    pub fn is_lan_discovery_enabled(&self) -> (b: bool)
        ensures
            b == (self.enable_lan_discovery && self.enable_p2p),
    {
        self.enable_lan_discovery && self.enable_p2p
    }

    /// Whether direct connection and relay are used together.
    pub fn is_bonding_enabled(&self) -> (b: bool)
        ensures
            b == (self.enable_bonding && self.enable_p2p),
    {
        self.enable_bonding && self.enable_p2p
    }
}

} // verus!
