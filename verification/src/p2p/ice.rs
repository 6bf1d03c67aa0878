//! ICE candidates: network endpoints at which a peer can be reached.

use vstd::prelude::*;

verus! {

/// A network endpoint at which a peer may be reached.
#[derive(Debug)]
pub struct ICECandidate {
    pub candidate_type: CandidateType,
    /// IP address and port, such as `192.168.1.100:8765`.
    pub address: String,
    /// Priority (lower = higher priority).
    pub priority: u32,
    /// Foundation for ICE pairing.
    pub foundation: Option<String>,
    /// Network interface name, such as `en0`.
    pub interface_name: Option<String>,
    /// Transport protocol, always `udp` for QUIC.
    pub transport: String,
    /// Generation, for ICE restarts.
    pub generation: u32,
}

/// Copies an optional text.
fn clone_opt_text(t: &Option<String>) -> (r: Option<String>)
    ensures
        r == *t,
{
    match t {
        Some(s) => Some(s.clone()),
        None => None,
    }
}

impl Clone for ICECandidate {
    fn clone(&self) -> (c: Self)
        ensures
            c == *self,
    {
        ICECandidate {
            candidate_type: self.candidate_type,
            address: self.address.clone(),
            priority: self.priority,
            foundation: clone_opt_text(&self.foundation),
            interface_name: clone_opt_text(&self.interface_name),
            transport: self.transport.clone(),
            generation: self.generation,
        }
    }
}

impl ICECandidate {
    /// A candidate with the given type, address and priority.
    pub fn new(candidate_type: CandidateType, address: String, priority: u32) -> (c: Self)
        ensures
            c.candidate_type == candidate_type,
            c.address == address,
            c.priority == priority,
            c.foundation is None,
            c.interface_name is None,
            c.transport@ == "udp"@,
            c.generation == 0,
    {
        ICECandidate {
            candidate_type,
            address,
            priority,
            foundation: None,
            interface_name: None,
            transport: String::from_str("udp"),
            generation: 0,
        }
    }

    /// A candidate on the local network.
    pub fn lan(address: String, interface_name: Option<String>) -> (c: Self)
        ensures
            c.candidate_type == CandidateType::LocalLan,
            c.address == address,
            c.priority == CandidateType::LocalLan.priority_of(),
            c.foundation is None,
            c.interface_name == interface_name,
            c.transport@ == "udp"@,
            c.generation == 0,
    {
        ICECandidate {
            candidate_type: CandidateType::LocalLan,
            address,
            priority: CandidateType::LocalLan.default_priority(),
            foundation: None,
            interface_name,
            transport: String::from_str("udp"),
            generation: 0,
        }
    }

    /// A candidate at a public address, found by asking a STUN server.
    pub fn public_ip(address: String) -> (c: Self)
        ensures
            c.candidate_type == CandidateType::PublicIp,
            c.address == address,
            c.priority == CandidateType::PublicIp.priority_of(),
            c.foundation is None,
            c.interface_name is None,
            c.transport@ == "udp"@,
            c.generation == 0,
    {
        ICECandidate {
            candidate_type: CandidateType::PublicIp,
            address,
            priority: CandidateType::PublicIp.default_priority(),
            foundation: None,
            interface_name: None,
            transport: String::from_str("udp"),
            generation: 0,
        }
    }

    /// Whether the candidate is on the local network.
    pub fn is_lan(&self) -> (b: bool)
        ensures
            b == (self.candidate_type == CandidateType::LocalLan || self.candidate_type
                == CandidateType::Ipv6LinkLocal),
    {
        matches!(self.candidate_type, CandidateType::LocalLan | CandidateType::Ipv6LinkLocal)
    }

    /// Whether the candidate is a relay.
    pub fn is_relay(&self) -> (b: bool)
        ensures
            b == (self.candidate_type == CandidateType::Relay),
    {
        self.candidate_type == CandidateType::Relay
    }
}

/// What kind of endpoint a candidate is.
#[derive(Debug, Clone, Copy, PartialEq, Eq, Structural)]
pub enum CandidateType {
    /// Address on the local network (192.168.x.x, 10.x.x.x, 172.16-31.x.x).
    /// Highest priority: fastest, needs no NAT traversal.
    LocalLan,
    /// Public address, found by asking a STUN server.
    /// Medium priority: may need NAT hole punching.
    PublicIp,
    /// Address of a relay node.
    /// Lowest priority: the fallback when a direct connection fails.
    Relay,
    /// IPv6 link-local address (fe80::/10).
    /// High priority on IPv6 networks.
    Ipv6LinkLocal,
    /// IPv6 global unicast address.
    /// Medium priority: depends on IPv6 connectivity.
    Ipv6Global,
}

impl CandidateType {
    /// The number that stands for the type on the wire.
    pub open spec fn wire_number(self) -> i32 {
        match self {
            CandidateType::LocalLan => 0,
            CandidateType::PublicIp => 1,
            CandidateType::Relay => 2,
            CandidateType::Ipv6LinkLocal => 3,
            CandidateType::Ipv6Global => 4,
        }
    }

    /// The type that a number is read as; numbers without a meaning are public addresses.
    pub open spec fn of_number(value: i32) -> CandidateType {
        match value {
            0 => CandidateType::LocalLan,
            1 => CandidateType::PublicIp,
            2 => CandidateType::Relay,
            3 => CandidateType::Ipv6LinkLocal,
            4 => CandidateType::Ipv6Global,
            _ => CandidateType::PublicIp,
        }
    }

    /// The default priority of a type (lower = higher priority).
    pub open spec fn priority_of(self) -> u32 {
        match self {
            CandidateType::LocalLan => 10,
            CandidateType::Ipv6LinkLocal => 20,
            CandidateType::PublicIp => 50,
            CandidateType::Ipv6Global => 55,
            CandidateType::Relay => 100,
        }
    }

    /// The priority that candidates of this type have by default.
    pub fn default_priority(self) -> (priority: u32)
        ensures
            priority == self.priority_of(),
    {
        match self {
            CandidateType::LocalLan => 10,
            CandidateType::Ipv6LinkLocal => 20,
            CandidateType::PublicIp => 50,
            CandidateType::Ipv6Global => 55,
            CandidateType::Relay => 100,
        }
    }
}

impl vstd::std_specs::convert::FromSpecImpl<i32> for CandidateType {
    open spec fn obeys_from_spec() -> bool {
        true
    }

    open spec fn from_spec(value: i32) -> Self {
        CandidateType::of_number(value)
    }
}

impl From<i32> for CandidateType {
    fn from(value: i32) -> (t: Self) {
        match value {
            0 => CandidateType::LocalLan,
            1 => CandidateType::PublicIp,
            2 => CandidateType::Relay,
            3 => CandidateType::Ipv6LinkLocal,
            4 => CandidateType::Ipv6Global,
            _ => CandidateType::PublicIp,
        }
    }
}

impl vstd::std_specs::convert::FromSpecImpl<CandidateType> for i32 {
    open spec fn obeys_from_spec() -> bool {
        true
    }

    open spec fn from_spec(value: CandidateType) -> Self {
        value.wire_number()
    }
}

impl From<CandidateType> for i32 {
    fn from(value: CandidateType) -> (n: Self) {
        match value {
            CandidateType::LocalLan => 0,
            CandidateType::PublicIp => 1,
            CandidateType::Relay => 2,
            CandidateType::Ipv6LinkLocal => 3,
            CandidateType::Ipv6Global => 4,
        }
    }
}

/// A lower number is a higher priority: addresses on the local network come first, then
/// link-local ones, then public and global ones, and relays last.
pub proof fn law_default_priorities()
    ensures
        CandidateType::LocalLan.priority_of() < CandidateType::Ipv6LinkLocal.priority_of(),
        CandidateType::Ipv6LinkLocal.priority_of() < CandidateType::PublicIp.priority_of(),
        CandidateType::Ipv6LinkLocal.priority_of() < CandidateType::Ipv6Global.priority_of(),
        CandidateType::PublicIp.priority_of() < CandidateType::Relay.priority_of(),
        CandidateType::Ipv6Global.priority_of() < CandidateType::Relay.priority_of(),
{
}

/// Reading the number of a candidate type gives the type back.
pub proof fn law_candidate_type_roundtrip(t: CandidateType)
    ensures
        CandidateType::of_number(t.wire_number()) == t,
{
}

} // verus!
