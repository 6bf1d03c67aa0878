//! Peer-to-peer manager: known peers, handoffs and statistics.
//!
//! ```text
//! 1. The server sees both peers online and suggests a direct connection.
//! 2. The peers exchange ICE candidates over the message stream.
//! 3. A direct connection is set up.
//! 4. The server leaves the relay path.
//! ```

use vstd::prelude::*;

use super::config::P2PConfig;
use super::ice::{CandidateType, ICECandidate};
use super::stun::{format_v4, format_v6, query_stun_servers, v4_text, v6_text, ScanView, StunScan};
use super::P2P_PORT;
use crate::events::UiEvent;
use crate::text::same_text;

verus! {

/// How long a connection attempt takes before it is given up, in milliseconds.
pub const ATTEMPT_DURATION_MS: u64 = 100;

/// State of the direct connection to a peer.
#[derive(Debug, Clone, Copy, PartialEq, Eq, Structural)]
pub enum PeerStatus {
    /// Not connected.
    Disconnected,
    /// Exchanging candidates through the server.
    Handshaking,
    /// Trying to connect.
    Connecting,
    /// Connected.
    Connected,
    /// The attempt failed and will be made again.
    Failed,
    /// A direct connection is not possible; the relay is used.
    RelayFallback,
}

/// What is known of a peer.
#[derive(Debug)]
pub struct PeerInfo {
    pub user_id: String,
    pub device_id: String,
    /// Last known candidates.
    pub candidates: Vec<ICECandidate>,
    pub status: PeerStatus,
    /// Last latency measurement (ms).
    pub latency_ms: Option<u64>,
}

/// What is known of a peer, as the contracts see it.
pub struct PeerView {
    pub user_id: Seq<char>,
    pub device_id: Seq<char>,
    pub candidates: Seq<ICECandidate>,
    pub status: PeerStatus,
    pub latency_ms: Option<u64>,
}

impl View for PeerInfo {
    type V = PeerView;

    open spec fn view(&self) -> PeerView {
        PeerView {
            user_id: self.user_id@,
            device_id: self.device_id@,
            candidates: self.candidates@,
            status: self.status,
            latency_ms: self.latency_ms,
        }
    }
}

/// Copies candidates.
fn clone_candidates(candidates: &Vec<ICECandidate>) -> (copy: Vec<ICECandidate>)
    ensures
        copy@ == candidates@,
{
    let mut copy: Vec<ICECandidate> = Vec::new();
    let mut i: usize = 0;
    while i < candidates.len()
        invariant
            0 <= i <= candidates@.len(),
            copy@ == candidates@.take(i as int),
        decreases candidates@.len() - i,
    {
        copy.push(candidates[i].clone());
        i = i + 1;
        assert(candidates@.take(i as int) =~= candidates@.take(i - 1).push(candidates@[i - 1]));
    }
    assert(candidates@.take(i as int) =~= candidates@);
    copy
}

impl Clone for PeerInfo {
    fn clone(&self) -> (p: Self)
        ensures
            p@ == self@,
    {
        PeerInfo {
            user_id: self.user_id.clone(),
            device_id: self.device_id.clone(),
            candidates: clone_candidates(&self.candidates),
            status: self.status,
            latency_ms: self.latency_ms,
        }
    }
}

/// Counters of what the manager has done. The average latency is kept by the caller.
#[derive(Debug, Clone, Copy)]
pub struct P2PStats {
    /// Direct connections established.
    pub connections_established: u64,
    /// Handoffs tried.
    pub handoff_attempts: u64,
    /// Handoffs that succeeded.
    pub handoffs_successful: u64,
    /// Times that the relay had to be used.
    pub fallbacks_to_relay: u64,
    /// Bytes sent directly.
    pub bytes_sent: u64,
    /// Bytes received directly.
    pub bytes_received: u64,
}

impl Default for P2PStats {
    fn default() -> (stats: Self)
        ensures
            stats == (P2PStats {
                connections_established: 0,
                handoff_attempts: 0,
                handoffs_successful: 0,
                fallbacks_to_relay: 0,
                bytes_sent: 0,
                bytes_received: 0,
            }),
    {
        P2PStats {
            connections_established: 0,
            handoff_attempts: 0,
            handoffs_successful: 0,
            fallbacks_to_relay: 0,
            bytes_sent: 0,
            bytes_received: 0,
        }
    }
}

// ---- Local candidates ------------------------------------------------------

/// The address of a network interface.
#[derive(Debug)]
pub enum InterfaceAddress {
    V4([u8; 4]),
    /// An IPv6 address in text form.
    V6(String),
}

/// A network interface of this machine.
#[derive(Debug)]
pub struct LocalInterface {
    pub name: String,
    pub loopback: bool,
    pub address: InterfaceAddress,
}

impl LocalInterface {
    /// The `ip:port` text at which peers reach the interface.
    pub open spec fn endpoint(self) -> Seq<char> {
        match self.address {
            InterfaceAddress::V4(ip) => v4_text(ip@, P2P_PORT),
            InterfaceAddress::V6(text) => v6_text(text@, P2P_PORT),
        }
    }
}

/// The interfaces that peers can reach, in order: all but the loopback ones.
pub open spec fn reachable(interfaces: Seq<LocalInterface>) -> Seq<LocalInterface>
    decreases interfaces.len(),
{
    if interfaces.len() == 0 {
        Seq::empty()
    } else if interfaces.last().loopback {
        reachable(interfaces.drop_last())
    } else {
        reachable(interfaces.drop_last()).push(interfaces.last())
    }
}

/// Whether a candidate stands for an interface.
pub open spec fn is_lan_candidate(c: ICECandidate, interface: LocalInterface) -> bool {
    &&& c.candidate_type == CandidateType::LocalLan
    &&& c.address@ == interface.endpoint()
    &&& c.priority == CandidateType::LocalLan.priority_of()
    &&& c.foundation is None
    &&& c.interface_name matches Some(name) && name@ == interface.name@
    &&& c.transport@ == "udp"@
    &&& c.generation == 0
}

/// Whether a candidate stands for our public address.
pub open spec fn is_public_candidate(c: ICECandidate, address: String) -> bool {
    &&& c.candidate_type == CandidateType::PublicIp
    &&& c.address == address
    &&& c.priority == CandidateType::PublicIp.priority_of()
    &&& c.foundation is None
    &&& c.interface_name is None
    &&& c.transport@ == "udp"@
    &&& c.generation == 0
}

/// The interfaces that could be listed: none when listing them failed.
pub open spec fn listed(interfaces: Result<Vec<LocalInterface>, String>) -> Seq<LocalInterface> {
    match interfaces {
        Ok(list) => list@,
        Err(_) => Seq::empty(),
    }
}

/// Whether `candidates` are our local candidates: one for each reachable interface, in order,
/// and one for the public address if it is known.
pub open spec fn are_local_candidates(
    candidates: Seq<ICECandidate>,
    interfaces: Seq<LocalInterface>,
    public_addr: Option<String>,
) -> bool {
    let n = reachable(interfaces).len();
    &&& candidates.len() == n + if public_addr is Some {
        1nat
    } else {
        0nat
    }
    &&& forall|i: int|
        0 <= i < n ==> is_lan_candidate(#[trigger] candidates[i], reachable(interfaces)[i])
    &&& public_addr matches Some(address) ==> is_public_candidate(candidates[n as int], address)
}

// ---- Peers -----------------------------------------------------------------

/// The key under which a peer is known.
pub open spec fn peer_key(user_id: Seq<char>, device_id: Seq<char>) -> Seq<char> {
    user_id + ":"@ + device_id
}

/// Builds the key under which a peer is known.
fn peer_key_text(user_id: &str, device_id: &str) -> (key: String)
    ensures
        key@ == peer_key(user_id@, device_id@),
{
    String::from_str(user_id).concat(":").concat(device_id)
}

/// The key of a peer.
spec fn key_of(peer: PeerInfo) -> Seq<char> {
    peer_key(peer.user_id@, peer.device_id@)
}

/// Whether the peer at position `i` has the given key.
spec fn has_key_at(peers: Seq<PeerInfo>, i: int, key: Seq<char>) -> bool {
    0 <= i < peers.len() && key_of(peers[i]) == key
}

/// Whether no two peers have the same key.
spec fn distinct_keys(peers: Seq<PeerInfo>) -> bool {
    forall|i: int, j: int|
        0 <= i < peers.len() && 0 <= j < peers.len() && key_of(#[trigger] peers[i]) == key_of(
            #[trigger] peers[j],
        ) ==> i == j
}

/// Peers by their keys.
spec fn peers_map(peers: Seq<PeerInfo>) -> Map<Seq<char>, PeerView> {
    Map::new(
        |key: Seq<char>| exists|i: int| has_key_at(peers, i, key),
        |key: Seq<char>| peers[choose|i: int| has_key_at(peers, i, key)]@,
    )
}

proof fn lemma_peer_at(peers: Seq<PeerInfo>, i: int)
    requires
        distinct_keys(peers),
        0 <= i < peers.len(),
    ensures
        peers_map(peers).dom().contains(key_of(peers[i])),
        peers_map(peers)[key_of(peers[i])] == peers[i]@,
{
    let key = key_of(peers[i]);
    assert(has_key_at(peers, i, key));
    let j = choose|j: int| has_key_at(peers, j, key);
    assert(i == j);
}

proof fn lemma_peer_absent(peers: Seq<PeerInfo>, key: Seq<char>)
    requires
        forall|i: int| 0 <= i < peers.len() ==> key_of(#[trigger] peers[i]) != key,
    ensures
        !peers_map(peers).dom().contains(key),
{
}

proof fn lemma_peer_update(peers: Seq<PeerInfo>, i: int, peer: PeerInfo)
    requires
        distinct_keys(peers),
        0 <= i < peers.len(),
        key_of(peer) == key_of(peers[i]),
    ensures
        distinct_keys(peers.update(i, peer)),
        peers_map(peers.update(i, peer)) == peers_map(peers).insert(key_of(peer), peer@),
{
    let next = peers.update(i, peer);
    assert forall|a: int, b: int|
        0 <= a < next.len() && 0 <= b < next.len() && key_of(#[trigger] next[a]) == key_of(
            #[trigger] next[b],
        ) implies a == b by {
        assert(key_of(peers[a]) == key_of(next[a]));
        assert(key_of(peers[b]) == key_of(next[b]));
    }
    let m1 = peers_map(next);
    let m2 = peers_map(peers).insert(key_of(peer), peer@);
    assert forall|k: Seq<char>| #[trigger] m1.dom().contains(k) implies m2.dom().contains(k)
        && m1[k] == m2[k] by {
        let j = choose|j: int| has_key_at(next, j, k);
        lemma_peer_at(next, j);
        if j != i {
            assert(next[j] == peers[j]);
            lemma_peer_at(peers, j);
        }
    }
    assert forall|k: Seq<char>| #[trigger] m2.dom().contains(k) implies m1.dom().contains(k) by {
        if k == key_of(peer) {
            assert(has_key_at(next, i, k));
        } else {
            let j = choose|j: int| has_key_at(peers, j, k);
            assert(has_key_at(next, j, k));
        }
    }
    assert(m1 =~= m2);
}

proof fn lemma_peer_push(peers: Seq<PeerInfo>, peer: PeerInfo)
    requires
        distinct_keys(peers),
        forall|i: int| 0 <= i < peers.len() ==> key_of(#[trigger] peers[i]) != key_of(peer),
    ensures
        distinct_keys(peers.push(peer)),
        peers_map(peers.push(peer)) == peers_map(peers).insert(key_of(peer), peer@),
{
    let next = peers.push(peer);
    let n = peers.len() as int;
    assert forall|a: int, b: int|
        0 <= a < next.len() && 0 <= b < next.len() && key_of(#[trigger] next[a]) == key_of(
            #[trigger] next[b],
        ) implies a == b by {
        if a < n {
            assert(next[a] == peers[a]);
        }
        if b < n {
            assert(next[b] == peers[b]);
        }
    }
    let m1 = peers_map(next);
    let m2 = peers_map(peers).insert(key_of(peer), peer@);
    assert forall|k: Seq<char>| #[trigger] m1.dom().contains(k) implies m2.dom().contains(k)
        && m1[k] == m2[k] by {
        let j = choose|j: int| has_key_at(next, j, k);
        lemma_peer_at(next, j);
        if j < n {
            assert(next[j] == peers[j]);
            lemma_peer_at(peers, j);
        }
    }
    assert forall|k: Seq<char>| #[trigger] m2.dom().contains(k) implies m1.dom().contains(k) by {
        if k == key_of(peer) {
            assert(has_key_at(next, n, k));
        } else {
            let j = choose|j: int| has_key_at(peers, j, k);
            assert(has_key_at(next, j, k));
        }
    }
    assert(m1 =~= m2);
}

proof fn lemma_peer_remove(peers: Seq<PeerInfo>, i: int)
    requires
        distinct_keys(peers),
        0 <= i < peers.len(),
    ensures
        distinct_keys(peers.remove(i)),
        peers_map(peers.remove(i)) == peers_map(peers).remove(key_of(peers[i])),
{
    let next = peers.remove(i);
    assert forall|a: int, b: int|
        0 <= a < next.len() && 0 <= b < next.len() && key_of(#[trigger] next[a]) == key_of(
            #[trigger] next[b],
        ) implies a == b by {
        let oa = if a < i {
            a
        } else {
            a + 1
        };
        let ob = if b < i {
            b
        } else {
            b + 1
        };
        assert(next[a] == peers[oa] && next[b] == peers[ob]);
    }
    let m1 = peers_map(next);
    let m2 = peers_map(peers).remove(key_of(peers[i]));
    assert forall|k: Seq<char>| #[trigger] m1.dom().contains(k) implies m2.dom().contains(k)
        && m1[k] == m2[k] by {
        let j = choose|j: int| has_key_at(next, j, k);
        lemma_peer_at(next, j);
        let oj = if j < i {
            j
        } else {
            j + 1
        };
        assert(next[j] == peers[oj]);
        lemma_peer_at(peers, oj);
        assert(k != key_of(peers[i]));
    }
    assert forall|k: Seq<char>| #[trigger] m2.dom().contains(k) implies m1.dom().contains(k) by {
        let j = choose|j: int| has_key_at(peers, j, k);
        if j < i {
            assert(next[j] == peers[j]);
            assert(has_key_at(next, j, k));
        } else {
            assert(next[j - 1] == peers[j]);
            assert(has_key_at(next, j - 1, k));
        }
    }
    assert(m1 =~= m2);
}

// ---- The manager -----------------------------------------------------------

/// What an update of a peer's latency means.
pub struct LatencyUpdate {
    /// Number of measurements that the average latency counts, this one included.
    pub samples: u64,
    /// Whether the latency exceeds the limit, so that the relay is used for this peer.
    pub too_high: bool,
}

/// Manages direct connections to peers, with handoffs that the server assists.
#[derive(Debug)]
pub struct P2PManager {
    config: P2PConfig,
    peers: Vec<PeerInfo>,
    stats: P2PStats,
    local_candidates: Vec<ICECandidate>,
}

/// The state of a manager as the contracts see it.
pub struct ManagerView {
    pub config: P2PConfig,
    /// The known peers by their keys.
    pub peers: Map<Seq<char>, PeerView>,
    pub stats: P2PStats,
    /// The candidates that were gathered last.
    pub local_candidates: Seq<ICECandidate>,
}

impl View for P2PManager {
    type V = ManagerView;

    closed spec fn view(&self) -> ManagerView {
        ManagerView {
            config: self.config,
            peers: peers_map(self.peers@),
            stats: self.stats,
            local_candidates: self.local_candidates@,
        }
    }
}

/// Peers after the one under `key` got a new status, if it is known.
pub open spec fn with_status(
    peers: Map<Seq<char>, PeerView>,
    key: Seq<char>,
    status: PeerStatus,
) -> Map<Seq<char>, PeerView> {
    if peers.dom().contains(key) {
        peers.insert(key, PeerView { status, ..peers[key] })
    } else {
        peers
    }
}

/// A peer that was not known before.
pub open spec fn new_peer(
    user_id: Seq<char>,
    device_id: Seq<char>,
    candidates: Seq<ICECandidate>,
    status: PeerStatus,
) -> PeerView {
    PeerView { user_id, device_id, candidates, status, latency_ms: None }
}

/// Whether a list holds every known peer once, each as it is known.
pub open spec fn are_all_peers(peers: Seq<PeerInfo>, known: Map<Seq<char>, PeerView>) -> bool {
    &&& forall|i: int|
        0 <= i < peers.len() ==> {
            let key = peer_key((#[trigger] peers[i]).user_id@, peers[i].device_id@);
            &&& known.dom().contains(key)
            &&& known[key] == peers[i]@
        }
    &&& forall|i: int, j: int|
        0 <= i < j < peers.len() ==> peer_key(
            (#[trigger] peers[i]).user_id@,
            peers[i].device_id@,
        ) != peer_key((#[trigger] peers[j]).user_id@, peers[j].device_id@)
    &&& forall|key: Seq<char>| #[trigger]
        known.dom().contains(key) ==> exists|i: int|
            0 <= i < peers.len() && #[trigger] peers[i]@ == known[key]
}

impl P2PManager {
    /// Whether every peer is listed once.
    pub closed spec fn well_formed(&self) -> bool {
        distinct_keys(self.peers@)
    }

    /// A manager that knows no peers.
    pub fn new(config: P2PConfig) -> (manager: Self)
        ensures
            manager.well_formed(),
            manager@.config == config,
            manager@.peers == Map::<Seq<char>, PeerView>::empty(),
            manager@.stats == (P2PStats {
                connections_established: 0,
                handoff_attempts: 0,
                handoffs_successful: 0,
                fallbacks_to_relay: 0,
                bytes_sent: 0,
                bytes_received: 0,
            }),
            manager@.local_candidates == Seq::<ICECandidate>::empty(),
    {
        let manager = P2PManager {
            config,
            peers: Vec::new(),
            stats: P2PStats::default(),
            local_candidates: Vec::new(),
        };
        assert(peers_map(manager.peers@) =~= Map::empty());
        manager
    }

    /// The configuration.
    pub fn config(&self) -> (config: &P2PConfig)
        ensures
            *config == self@.config,
    {
        &self.config
    }

    /// The statistics.
    pub fn stats(&self) -> (stats: P2PStats)
        ensures
            stats == self@.stats,
    {
        self.stats
    }

    /// Position of the peer with the given key.
    fn find(&self, key: &str) -> (at: Option<usize>)
        requires
            self.well_formed(),
        ensures
            match at {
                Some(i) => {
                    &&& i < self.peers@.len()
                    &&& key_of(self.peers@[i as int]) == key@
                    &&& self@.peers.dom().contains(key@)
                    &&& self@.peers[key@] == self.peers@[i as int]@
                },
                None => {
                    &&& !self@.peers.dom().contains(key@)
                    &&& forall|i: int|
                        0 <= i < self.peers@.len() ==> key_of(#[trigger] self.peers@[i]) != key@
                },
            },
    {
        let mut i: usize = 0;
        while i < self.peers.len()
            invariant
                self.well_formed(),
                0 <= i <= self.peers@.len(),
                forall|j: int| 0 <= j < i ==> key_of(#[trigger] self.peers@[j]) != key@,
            decreases self.peers@.len() - i,
        {
            let peer = &self.peers[i];
            let text = peer_key_text(peer.user_id.as_str(), peer.device_id.as_str());
            if same_text(text.as_str(), key) {
                proof {
                    lemma_peer_at(self.peers@, i as int);
                }
                return Some(i);
            }
            i = i + 1;
        }
        proof {
            lemma_peer_absent(self.peers@, key@);
        }
        None
    }

    /// Replaces the peer at a position by one with the same key.
    fn replace(&mut self, i: usize, peer: PeerInfo)
        requires
            old(self).well_formed(),
            i < old(self).peers@.len(),
            key_of(peer) == key_of(old(self).peers@[i as int]),
        ensures
            final(self).well_formed(),
            final(self)@ == (ManagerView {
                peers: old(self)@.peers.insert(key_of(peer), peer@),
                ..old(self)@
            }),
    {
        proof {
            lemma_peer_update(self.peers@, i as int, peer);
        }
        self.peers.set(i, peer);
    }

    /// Adds a peer whose key is not taken.
    fn add_peer(&mut self, peer: PeerInfo)
        requires
            old(self).well_formed(),
            forall|i: int|
                0 <= i < old(self).peers@.len() ==> key_of(#[trigger] old(self).peers@[i])
                    != key_of(peer),
        ensures
            final(self).well_formed(),
            final(self)@ == (ManagerView {
                peers: old(self)@.peers.insert(key_of(peer), peer@),
                ..old(self)@
            }),
    {
        proof {
            lemma_peer_push(self.peers@, peer);
        }
        self.peers.push(peer);
    }

    /// Gives a peer a new status, if it is known.
    fn set_status(&mut self, key: &str, status: PeerStatus)
        requires
            old(self).well_formed(),
        ensures
            final(self).well_formed(),
            final(self)@ == (ManagerView {
                peers: with_status(old(self)@.peers, key@, status),
                ..old(self)@
            }),
    {
        match self.find(key) {
            Some(i) => {
                let mut peer = self.peers[i].clone();
                peer.status = status;
                self.replace(i, peer);
            },
            None => {},
        }
    }

    /// Starts a scan of the configured STUN servers for our public address.
    pub fn stun_scan(&self) -> (scan: StunScan)
        ensures
            scan.well_formed(),
            scan@ == (ScanView {
                servers: self@.config.stun_servers@,
                asked: 0,
                found: None,
            }),
    {
        query_stun_servers(self.config.stun_servers.as_slice())
    }

    /// Gathers our local candidates from the network interfaces, or none of them when listing
    /// them failed, and the public address that a STUN server reported.
    pub fn gather_local_candidates(
        &mut self,
        interfaces: Result<Vec<LocalInterface>, String>,
        public_addr: Option<String>,
    ) -> (candidates: Vec<ICECandidate>)
        requires
            old(self).well_formed(),
        ensures
            final(self).well_formed(),
            are_local_candidates(candidates@, listed(interfaces), public_addr),
            final(self)@ == (ManagerView { local_candidates: candidates@, ..old(self)@ }),
    {
        let mut candidates: Vec<ICECandidate> = Vec::new();
        match interfaces {
            Ok(list) => {
                let mut i: usize = 0;
                while i < list.len()
                    invariant
                        0 <= i <= list@.len(),
                        are_local_candidates(candidates@, list@.take(i as int), None),
                    decreases list@.len() - i,
                {
                    let interface = &list[i];
                    assert(list@.take(i + 1).drop_last() =~= list@.take(i as int));
                    if !interface.loopback {
                        let address = match &interface.address {
                            InterfaceAddress::V4(ip) => format_v4(ip, P2P_PORT),
                            InterfaceAddress::V6(text) => format_v6(text.as_str(), P2P_PORT),
                        };
                        candidates.push(ICECandidate::lan(address, Some(interface.name.clone())));
                    }
                    i = i + 1;
                }
                assert(list@.take(i as int) =~= list@);
            },
            Err(_) => {},
        }
        match public_addr {
            Some(address) => {
                candidates.push(ICECandidate::public_ip(address));
            },
            None => {},
        }
        self.local_candidates = clone_candidates(&candidates);
        candidates
    }

    /// Starts a handoff with a peer: the event to send, which offers our candidates.
    pub fn initiate_handoff(
        &mut self,
        peer_user_id: &str,
        peer_device_id: &str,
        interfaces: Result<Vec<LocalInterface>, String>,
        public_addr: Option<String>,
    ) -> (event: UiEvent)
        requires
            old(self).well_formed(),
            old(self)@.stats.handoff_attempts < u64::MAX,
        ensures
            final(self).well_formed(),
            are_local_candidates(final(self)@.local_candidates, listed(interfaces), public_addr),
            event matches UiEvent::P2PHandoffInitiate { peer_id, candidates } && peer_id@
                == peer_user_id@ && candidates@ == final(self)@.local_candidates,
            ({
                let key = peer_key(peer_user_id@, peer_device_id@);
                &&& final(self)@.config == old(self)@.config
                &&& final(self)@.stats == (P2PStats {
                    handoff_attempts: (old(self)@.stats.handoff_attempts + 1) as u64,
                    ..old(self)@.stats
                })
                &&& final(self)@.peers == old(self)@.peers.insert(
                    key,
                    if old(self)@.peers.dom().contains(key) {
                        PeerView { status: PeerStatus::Handshaking, ..old(self)@.peers[key] }
                    } else {
                        new_peer(
                            peer_user_id@,
                            peer_device_id@,
                            Seq::empty(),
                            PeerStatus::Handshaking,
                        )
                    },
                )
            }),
    {
        let key = peer_key_text(peer_user_id, peer_device_id);
        match self.find(key.as_str()) {
            Some(i) => {
                let mut peer = self.peers[i].clone();
                peer.status = PeerStatus::Handshaking;
                self.replace(i, peer);
            },
            None => {
                self.add_peer(
                    PeerInfo {
                        user_id: String::from_str(peer_user_id),
                        device_id: String::from_str(peer_device_id),
                        candidates: Vec::new(),
                        status: PeerStatus::Handshaking,
                        latency_ms: None,
                    },
                );
            },
        }
        self.stats.handoff_attempts = self.stats.handoff_attempts + 1;
        let candidates = self.gather_local_candidates(interfaces, public_addr);
        UiEvent::P2PHandoffInitiate { peer_id: String::from_str(peer_user_id), candidates }
    }

    /// Handles a peer's offer of a direct connection: stores its candidates and starts
    /// connecting. Returns the acknowledgement to send and how long the attempt takes.
    pub fn handle_handoff_initiate(
        &mut self,
        peer_user_id: &str,
        peer_device_id: &str,
        candidates: Vec<ICECandidate>,
        interfaces: Result<Vec<LocalInterface>, String>,
        public_addr: Option<String>,
    ) -> (r: (UiEvent, u64))
        requires
            old(self).well_formed(),
        ensures
            final(self).well_formed(),
            are_local_candidates(final(self)@.local_candidates, listed(interfaces), public_addr),
            r.0 matches UiEvent::P2PHandoffAck {
                session_id,
                success,
                candidates: ours,
                measured_latency_ms,
            } && session_id@ == peer_key(peer_user_id@, peer_device_id@) && success && ours@
                == final(self)@.local_candidates && measured_latency_ms is None,
            r.1 == ATTEMPT_DURATION_MS,
            ({
                let key = peer_key(peer_user_id@, peer_device_id@);
                &&& final(self)@.config == old(self)@.config
                &&& final(self)@.stats == old(self)@.stats
                &&& final(self)@.peers == old(self)@.peers.insert(
                    key,
                    if old(self)@.peers.dom().contains(key) {
                        PeerView {
                            candidates: candidates@,
                            status: PeerStatus::Connecting,
                            ..old(self)@.peers[key]
                        }
                    } else {
                        new_peer(
                            peer_user_id@,
                            peer_device_id@,
                            candidates@,
                            PeerStatus::Connecting,
                        )
                    },
                )
            }),
    {
        let key = peer_key_text(peer_user_id, peer_device_id);
        match self.find(key.as_str()) {
            Some(i) => {
                let mut peer = self.peers[i].clone();
                peer.candidates = candidates;
                peer.status = PeerStatus::Handshaking;
                self.replace(i, peer);
            },
            None => {
                self.add_peer(
                    PeerInfo {
                        user_id: String::from_str(peer_user_id),
                        device_id: String::from_str(peer_device_id),
                        candidates,
                        status: PeerStatus::Handshaking,
                        latency_ms: None,
                    },
                );
            },
        }
        let ours = self.gather_local_candidates(interfaces, public_addr);
        let ghost mid = self@.peers;
        let ack = UiEvent::P2PHandoffAck {
            session_id: peer_key_text(peer_user_id, peer_device_id),
            success: true,
            candidates: ours,
            measured_latency_ms: None,
        };
        let duration = self.attempt_connection(peer_user_id, peer_device_id);
        proof {
            let k = key@;
            assert(self@.peers == mid.insert(
                k,
                PeerView { status: PeerStatus::Connecting, ..mid[k] },
            ));
            assert(self@.peers =~= old(self)@.peers.insert(
                k,
                PeerView { status: PeerStatus::Connecting, ..mid[k] },
            ));
        }
        (ack, duration)
    }

    /// Handles a peer's acknowledgement: stores its candidates, if the peer is known, and
    /// starts connecting. Returns how long the attempt takes.
    pub fn handle_handoff_ack(
        &mut self,
        peer_user_id: &str,
        peer_device_id: &str,
        candidates: Vec<ICECandidate>,
    ) -> (duration_ms: u64)
        requires
            old(self).well_formed(),
        ensures
            final(self).well_formed(),
            duration_ms == ATTEMPT_DURATION_MS,
            ({
                let key = peer_key(peer_user_id@, peer_device_id@);
                final(self)@ == (ManagerView {
                    peers: if old(self)@.peers.dom().contains(key) {
                        old(self)@.peers.insert(
                            key,
                            PeerView {
                                candidates: candidates@,
                                status: PeerStatus::Connecting,
                                ..old(self)@.peers[key]
                            },
                        )
                    } else {
                        old(self)@.peers
                    },
                    ..old(self)@
                })
            }),
    {
        let key = peer_key_text(peer_user_id, peer_device_id);
        match self.find(key.as_str()) {
            Some(i) => {
                let mut peer = self.peers[i].clone();
                peer.candidates = candidates;
                self.replace(i, peer);
            },
            None => {},
        }
        let ghost mid = self@.peers;
        let duration = self.attempt_connection(peer_user_id, peer_device_id);
        proof {
            let k = key@;
            if old(self)@.peers.dom().contains(k) {
                assert(self@.peers =~= old(self)@.peers.insert(
                    k,
                    PeerView { status: PeerStatus::Connecting, ..mid[k] },
                ));
            }
        }
        duration
    }

    /// Starts a connection attempt. Returns how long it takes; `attempt_succeeded` or
    /// `attempt_failed` follows.
    fn attempt_connection(&mut self, peer_user_id: &str, peer_device_id: &str) -> (duration_ms: u64)
        requires
            old(self).well_formed(),
        ensures
            final(self).well_formed(),
            duration_ms == ATTEMPT_DURATION_MS,
            final(self)@ == (ManagerView {
                peers: with_status(
                    old(self)@.peers,
                    peer_key(peer_user_id@, peer_device_id@),
                    PeerStatus::Connecting,
                ),
                ..old(self)@
            }),
    {
        let key = peer_key_text(peer_user_id, peer_device_id);
        self.set_status(key.as_str(), PeerStatus::Connecting);
        ATTEMPT_DURATION_MS
    }

    /// Ends a connection attempt that did not succeed: the relay is used meanwhile. Returns the
    /// number of seconds after which to try again.
    pub fn attempt_failed(&mut self, peer_user_id: &str, peer_device_id: &str) -> (retry_secs: u64)
        requires
            old(self).well_formed(),
            old(self)@.stats.fallbacks_to_relay < u64::MAX,
        ensures
            final(self).well_formed(),
            retry_secs == old(self)@.config.retry_interval_secs,
            final(self)@ == (ManagerView {
                peers: with_status(
                    old(self)@.peers,
                    peer_key(peer_user_id@, peer_device_id@),
                    PeerStatus::Failed,
                ),
                stats: P2PStats {
                    fallbacks_to_relay: (old(self)@.stats.fallbacks_to_relay + 1) as u64,
                    ..old(self)@.stats
                },
                ..old(self)@
            }),
    {
        let key = peer_key_text(peer_user_id, peer_device_id);
        self.set_status(key.as_str(), PeerStatus::Failed);
        self.stats.fallbacks_to_relay = self.stats.fallbacks_to_relay + 1;
        self.config.retry_interval_secs
    }

    /// Ends a connection attempt that succeeded: the peer is reached directly from now on.
    pub fn attempt_succeeded(&mut self, peer_user_id: &str, peer_device_id: &str)
        requires
            old(self).well_formed(),
            old(self)@.stats.connections_established < u64::MAX,
            old(self)@.stats.handoffs_successful < u64::MAX,
        ensures
            final(self).well_formed(),
            final(self)@ == (ManagerView {
                peers: with_status(
                    old(self)@.peers,
                    peer_key(peer_user_id@, peer_device_id@),
                    PeerStatus::Connected,
                ),
                stats: P2PStats {
                    connections_established: (old(self)@.stats.connections_established + 1) as u64,
                    handoffs_successful: (old(self)@.stats.handoffs_successful + 1) as u64,
                    ..old(self)@.stats
                },
                ..old(self)@
            }),
    {
        let key = peer_key_text(peer_user_id, peer_device_id);
        self.set_status(key.as_str(), PeerStatus::Connected);
        self.record_connection_success();
    }

    /// The status of a peer, if it is known.
    pub fn get_peer_status(&self, user_id: &str, device_id: &str) -> (status: Option<PeerStatus>)
        requires
            self.well_formed(),
        ensures
            status == if self@.peers.dom().contains(peer_key(user_id@, device_id@)) {
                Some(self@.peers[peer_key(user_id@, device_id@)].status)
            } else {
                None
            },
    {
        let key = peer_key_text(user_id, device_id);
        match self.find(key.as_str()) {
            Some(i) => Some(self.peers[i].status),
            None => None,
        }
    }

    /// All known peers, each once, in no particular order.
    pub fn get_peers(&self) -> (peers: Vec<PeerInfo>)
        requires
            self.well_formed(),
        ensures
            are_all_peers(peers@, self@.peers),
    {
        let mut peers: Vec<PeerInfo> = Vec::new();
        let mut n: usize = 0;
        while n < self.peers.len()
            invariant
                0 <= n <= self.peers@.len(),
                peers@.len() == n,
                forall|i: int| 0 <= i < n ==> #[trigger] peers@[i]@ == self.peers@[i]@,
            decreases self.peers@.len() - n,
        {
            peers.push(self.peers[n].clone());
            n = n + 1;
        }
        proof {
            assert forall|i: int| 0 <= i < peers@.len() implies {
                let key = peer_key((#[trigger] peers@[i]).user_id@, peers@[i].device_id@);
                &&& self@.peers.dom().contains(key)
                &&& self@.peers[key] == peers@[i]@
            } by {
                assert(peers@[i]@ == self.peers@[i]@);
                lemma_peer_at(self.peers@, i);
            }
            assert forall|i: int, j: int| 0 <= i < j < peers@.len() implies peer_key(
                (#[trigger] peers@[i]).user_id@,
                peers@[i].device_id@,
            ) != peer_key((#[trigger] peers@[j]).user_id@, peers@[j].device_id@) by {
                assert(peers@[i]@ == self.peers@[i]@);
                assert(peers@[j]@ == self.peers@[j]@);
            }
            assert forall|key: Seq<char>| #[trigger]
                self@.peers.dom().contains(key) implies exists|i: int|
                0 <= i < peers@.len() && #[trigger] peers@[i]@ == self@.peers[key] by {
                let i = choose|i: int| has_key_at(self.peers@, i, key);
                lemma_peer_at(self.peers@, i);
                assert(peers@[i]@ == self.peers@[i]@);
            }
        }
        peers
    }

    /// Forgets a peer.
    pub fn remove_peer(&mut self, user_id: &str, device_id: &str)
        requires
            old(self).well_formed(),
        ensures
            final(self).well_formed(),
            final(self)@ == (ManagerView {
                peers: old(self)@.peers.remove(peer_key(user_id@, device_id@)),
                ..old(self)@
            }),
    {
        let key = peer_key_text(user_id, device_id);
        match self.find(key.as_str()) {
            Some(i) => {
                proof {
                    lemma_peer_remove(self.peers@, i as int);
                }
                let _ = self.peers.remove(i);
            },
            None => {
                assert(self@.peers =~= self@.peers.remove(key@));
            },
        }
    }

    /// Whether a direct connection to a peer is worth it: it is enabled, the peer is no mobile
    /// device, and the server is slow enough.
    pub fn should_use_p2p(&self, server_latency_ms: u64, is_peer_mobile: bool) -> (b: bool)
        ensures
            b == (self@.config.enable_p2p && !is_peer_mobile && server_latency_ms
                >= self@.config.min_server_latency_ms),
    {
        if !self.config.enable_p2p {
            return false;
        }
        if is_peer_mobile {
            return false;
        }
        server_latency_ms >= self.config.min_server_latency_ms
    }

    /// Records a latency measurement of a peer. When it exceeds the limit, the peer is reached
    /// through the relay from now on.
    pub fn update_peer_latency(&mut self, user_id: &str, device_id: &str, latency_ms: u64) -> (r:
        LatencyUpdate)
        requires
            old(self).well_formed(),
        ensures
            final(self).well_formed(),
            r.samples == if old(self)@.stats.connections_established >= 1 {
                old(self)@.stats.connections_established
            } else {
                1
            },
            ({
                let key = peer_key(user_id@, device_id@);
                if old(self)@.peers.dom().contains(key) {
                    &&& r.too_high == (latency_ms > old(self)@.config.max_p2p_latency_ms)
                    &&& final(self)@ == (ManagerView {
                        peers: old(self)@.peers.insert(
                            key,
                            PeerView {
                                latency_ms: Some(latency_ms),
                                status: if r.too_high {
                                    PeerStatus::RelayFallback
                                } else {
                                    old(self)@.peers[key].status
                                },
                                ..old(self)@.peers[key]
                            },
                        ),
                        ..old(self)@
                    })
                } else {
                    &&& !r.too_high
                    &&& final(self)@ == old(self)@
                }
            }),
    {
        let key = peer_key_text(user_id, device_id);
        let mut too_high = false;
        match self.find(key.as_str()) {
            Some(i) => {
                let mut peer = self.peers[i].clone();
                peer.latency_ms = Some(latency_ms);
                too_high = latency_ms > self.config.max_p2p_latency_ms;
                if too_high {
                    peer.status = PeerStatus::RelayFallback;
                }
                self.replace(i, peer);
            },
            None => {},
        }
        let samples = if self.stats.connections_established >= 1 {
            self.stats.connections_established
        } else {
            1
        };
        LatencyUpdate { samples, too_high }
    }

    /// Counts bytes sent directly.
    pub fn record_bytes_sent(&mut self, bytes: u64)
        requires
            old(self)@.stats.bytes_sent + bytes <= u64::MAX,
        ensures
            old(self).well_formed() ==> final(self).well_formed(),
            final(self)@ == (ManagerView {
                stats: P2PStats {
                    bytes_sent: (old(self)@.stats.bytes_sent + bytes) as u64,
                    ..old(self)@.stats
                },
                ..old(self)@
            }),
    {
        self.stats.bytes_sent = self.stats.bytes_sent + bytes;
    }

    /// Counts bytes received directly.
    pub fn record_bytes_received(&mut self, bytes: u64)
        requires
            old(self)@.stats.bytes_received + bytes <= u64::MAX,
        ensures
            old(self).well_formed() ==> final(self).well_formed(),
            final(self)@ == (ManagerView {
                stats: P2PStats {
                    bytes_received: (old(self)@.stats.bytes_received + bytes) as u64,
                    ..old(self)@.stats
                },
                ..old(self)@
            }),
    {
        self.stats.bytes_received = self.stats.bytes_received + bytes;
    }

    /// Counts a direct connection that was established by a handoff.
    pub fn record_connection_success(&mut self)
        requires
            old(self)@.stats.connections_established < u64::MAX,
            old(self)@.stats.handoffs_successful < u64::MAX,
        ensures
            old(self).well_formed() ==> final(self).well_formed(),
            final(self)@ == (ManagerView {
                stats: P2PStats {
                    connections_established: (old(self)@.stats.connections_established + 1) as u64,
                    handoffs_successful: (old(self)@.stats.handoffs_successful + 1) as u64,
                    ..old(self)@.stats
                },
                ..old(self)@
            }),
    {
        self.stats.connections_established = self.stats.connections_established + 1;
        self.stats.handoffs_successful = self.stats.handoffs_successful + 1;
    }
}

/// Peers are told apart by their keys as long as user ids contain no colon.
pub proof fn law_peer_keys_differ(
    user1: Seq<char>,
    device1: Seq<char>,
    user2: Seq<char>,
    device2: Seq<char>,
)
    requires
        !user1.contains(':'),
        !user2.contains(':'),
        peer_key(user1, device1) == peer_key(user2, device2),
    ensures
        user1 == user2,
        device1 == device2,
{
    reveal_strlit(":");
    let key1 = peer_key(user1, device1);
    let key2 = peer_key(user2, device2);
    let n1 = user1.len() as int;
    let n2 = user2.len() as int;
    assert(key1[n1] == ':');
    assert(key2[n2] == ':');
    if n1 < n2 {
        assert(key2[n1] == user2[n1]);
        assert(user2.contains(':'));
    } else if n2 < n1 {
        assert(key1[n2] == user1[n2]);
        assert(user1.contains(':'));
    } else {
        assert(user1 =~= key1.take(n1));
        assert(user2 =~= key2.take(n2));
        assert(device1 =~= key1.skip(n1 + 1));
        assert(device2 =~= key2.skip(n2 + 1));
    }
}

} // verus!
