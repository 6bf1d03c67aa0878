//! Peer-to-peer transport: direct connections between peers, set up with the server's help.
//!
//! ```text
//! Tier 1 - Federated servers      (full feature set)
//!     | fallback
//! Tier 2 - Community relay nodes  (store-and-forward only)
//!     | fallback
//! Tier 3 - Full P2P               (direct QUIC/ICE connection)
//! ```

use vstd::prelude::*;

pub mod config;
pub mod ice;
pub mod manager;
pub mod quic_p2p;
pub mod stun;

pub use config::P2PConfig;
pub use ice::{CandidateType, ICECandidate};
pub use manager::{P2PManager, P2PStats, PeerInfo, PeerStatus};
pub use quic_p2p::{ConnectionState, P2PConnection, P2PConnectionBuilder};
pub use stun::{query_stun_servers, StunClient};

verus! {

/// Port that peers connect to.
pub const P2P_PORT: u16 = 8765;

/// Longest time to wait for a peer-to-peer connection, in seconds.
pub const P2P_TIMEOUT_SECS: u64 = 10;

/// The STUN servers that are asked unless others are configured.
pub const DEFAULT_STUN_SERVERS: [&'static str; 2] = [
    "stun.l.google.com:19302",
    "stun.stunprotocol.org:3478",
];

} // verus!
