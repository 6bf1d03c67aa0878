//! Decision core of the Construct messenger engine: gRPC framing, RPC and stream
//! protocols, event handling and peer-to-peer connection logic.
//!
//! Everything here computes on plain values. Sockets, timers and callbacks are driven from
//! outside: a state machine says what to do next and is told how it went.

pub mod buffers;
pub mod clock;
pub mod config;
pub mod core_bridge;
pub mod engine;
pub mod error;
pub mod events;
pub mod http_types;
pub mod laws;
pub mod messages;
pub mod p2p;
pub mod probe;
pub mod text;
pub mod transport;

pub use config::EngineConfig;
pub use engine::{ConstructEngine, EngineCallback};
pub use error::EngineError;
pub use events::{PlatformAction, UiEvent};
pub use p2p::{
    CandidateType, ConnectionState, ICECandidate, P2PConfig, P2PConnection, P2PManager, P2PStats,
    PeerInfo, PeerStatus, StunClient,
};
