//! Laws of peers: local candidates, handoffs, statuses and statistics.

use vstd::prelude::*;

use crate::events::UiEvent;
use crate::p2p::config::P2PConfig;
use crate::p2p::ice::{CandidateType, ICECandidate};
use crate::p2p::manager::{
    are_local_candidates, listed, reachable, InterfaceAddress, LatencyUpdate, LocalInterface,
    P2PManager, P2PStats, PeerInfo, PeerStatus, PeerView,
};
use crate::p2p::stun::{format_v4, format_v6, StunScan};
use crate::text::decimal;

verus! {

// ---- Candidates ------------------------------------------------------------

/// A new candidate has what it was given; the rest is the same for all.
pub proof fn law_new_candidate(
    kind: CandidateType,
    address: String,
    priority: u32,
    interface: Option<String>,
    plain: ICECandidate,
    lan: ICECandidate,
    public: ICECandidate,
)
    requires
        call_ensures(ICECandidate::new, (kind, address, priority), plain),
        call_ensures(ICECandidate::lan, (address, interface), lan),
        call_ensures(ICECandidate::public_ip, (address,), public),
    ensures
        plain.candidate_type == kind && plain.priority == priority && plain.interface_name is None,
        lan.candidate_type is LocalLan && lan.priority == 10 && lan.interface_name == interface,
        public.candidate_type is PublicIp && public.priority == 50 && public.interface_name is None,
        forall|c: ICECandidate|
            #![trigger c.address]
            c == plain || c == lan || c == public ==> c.address == address && c.foundation is None
                && c.transport@ == "udp"@ && c.generation == 0,
{
}

/// Whether a candidate is on the local network or a relay depends on its type alone.
pub proof fn law_candidate_kinds(c: &ICECandidate, lan: bool, relay: bool)
    requires
        call_ensures(ICECandidate::is_lan, (c,), lan),
        call_ensures(ICECandidate::is_relay, (c,), relay),
    ensures
        lan <==> c.candidate_type is LocalLan || c.candidate_type is Ipv6LinkLocal,
        relay <==> c.candidate_type is Relay,
{
}

/// The default priorities put the local network first, then link-local, public and global
/// addresses, and relays last.
pub proof fn law_priorities_in_numbers(kind: CandidateType, priority: u32)
    requires
        call_ensures(CandidateType::default_priority, (kind,), priority),
    ensures
        kind is LocalLan ==> priority == 10,
        kind is Ipv6LinkLocal ==> priority == 20,
        kind is PublicIp ==> priority == 50,
        kind is Ipv6Global ==> priority == 55,
        kind is Relay ==> priority == 100,
{
}

/// The numbers 0 to 4 stand for the types in their order, and every other number for a public
/// address; a type that is turned into its number is read back.
pub proof fn law_type_numbers(n: i32, kind: CandidateType, kind2: CandidateType, n2: i32)
    requires
        call_ensures(<CandidateType as From<i32>>::from, (n,), kind),
        call_ensures(<i32 as From<CandidateType>>::from, (kind2,), n2),
    ensures
        kind is LocalLan <==> n == 0,
        kind is Relay <==> n == 2,
        kind is Ipv6LinkLocal <==> n == 3,
        kind is Ipv6Global <==> n == 4,
        kind is PublicIp <==> n == 1 || n < 0 || n > 4,
        0 <= n2 <= 4,
        n == n2 ==> kind == kind2,
{
}

/// Addresses are written with their port: four decimal numbers with dots between them, or the
/// text of an IPv6 address in brackets.
pub proof fn law_addresses_in_text(ip: &[u8; 4], ip_text: &str, port: u16, v4: String, v6: String)
    requires
        call_ensures(format_v4, (ip, port), v4),
        call_ensures(format_v6, (ip_text, port), v6),
    ensures
        v4@ == decimal(ip@[0] as nat) + "."@ + decimal(ip@[1] as nat) + "."@ + decimal(
            ip@[2] as nat,
        ) + "."@ + decimal(ip@[3] as nat) + ":"@ + decimal(port as nat),
        v6@ == "["@ + ip_text@ + "]:"@ + decimal(port as nat),
{
}

proof fn lemma_reachable(interfaces: Seq<LocalInterface>)
    ensures
        reachable(interfaces) == interfaces.filter(|i: LocalInterface| !i.loopback),
    decreases interfaces.len(),
{
    reveal(Seq::filter);
    if interfaces.len() > 0 {
        lemma_reachable(interfaces.drop_last());
    }
}

/// Peers can reach exactly the interfaces that are no loopback, in the order in which they are
/// listed: each of them is among the reachable ones, as often as it is listed, and no loopback
/// interface is.
pub proof fn law_reachable_are_all_but_loopback(interfaces: Seq<LocalInterface>)
    ensures
        reachable(interfaces) == interfaces.filter(|i: LocalInterface| !i.loopback),
        forall|i: int| #![trigger reachable(interfaces)[i]]
            0 <= i < reachable(interfaces).len() ==> !reachable(interfaces)[i].loopback,
        forall|i: int| #![trigger interfaces[i]]
            0 <= i < interfaces.len() && !interfaces[i].loopback ==> reachable(interfaces).contains(
                interfaces[i],
            ),
        (forall|i: int| #![trigger interfaces[i]]
            0 <= i < interfaces.len() ==> !interfaces[i].loopback) ==> reachable(interfaces)
            == interfaces,
    decreases interfaces.len(),
{
    broadcast use Seq::lemma_filter_pred, Seq::lemma_filter_contains;

    lemma_reachable(interfaces);
    let f = |i: LocalInterface| !i.loopback;
    assert forall|i: int| #![trigger reachable(interfaces)[i]]
        0 <= i < reachable(interfaces).len() implies !reachable(interfaces)[i].loopback by {
        assert(f(interfaces.filter(f)[i]));
    }
    assert forall|i: int| #![trigger interfaces[i]]
        0 <= i < interfaces.len() && !interfaces[i].loopback implies reachable(interfaces).contains(
        interfaces[i],
    ) by {
        assert(f(interfaces[i]));
        assert(interfaces.filter(f).contains(interfaces[i]));
    }
    if interfaces.len() > 0 {
        let shorter = interfaces.drop_last();
        law_reachable_are_all_but_loopback(shorter);
        if forall|i: int| #![trigger interfaces[i]]
            0 <= i < interfaces.len() ==> !interfaces[i].loopback {
            assert forall|i: int| #![trigger shorter[i]]
                0 <= i < shorter.len() implies !shorter[i].loopback by {
                assert(shorter[i] == interfaces[i]);
            }
            assert(!interfaces[interfaces.len() - 1].loopback);
            assert(reachable(interfaces) =~= interfaces);
        }
    }
}

/// Whether a candidate is what a reachable interface is offered as: its own address at the
/// peer-to-peer port, under its own name.
pub open spec fn offers_interface(c: ICECandidate, interface: LocalInterface) -> bool {
    &&& c.candidate_type is LocalLan
    &&& c.priority == 10
    &&& c.foundation is None
    &&& c.transport@ == "udp"@
    &&& c.generation == 0
    &&& c.interface_name matches Some(name) && name@ == interface.name@
    &&& match interface.address {
        InterfaceAddress::V4(ip) => c.address@ == decimal(ip@[0] as nat) + "."@ + decimal(
            ip@[1] as nat,
        ) + "."@ + decimal(ip@[2] as nat) + "."@ + decimal(ip@[3] as nat) + ":"@ + decimal(8765),
        InterfaceAddress::V6(text) => c.address@ == "["@ + text@ + "]:"@ + decimal(8765),
    }
}

/// Whether candidates are those of the given interfaces, one for each that is no loopback, in
/// order, and last the public address, if it is known.
pub open spec fn offers_all(
    candidates: Seq<ICECandidate>,
    interfaces: Seq<LocalInterface>,
    public_addr: Option<String>,
) -> bool {
    let lan = interfaces.filter(|i: LocalInterface| !i.loopback);
    &&& candidates.len() == lan.len() + if public_addr is Some {
        1int
    } else {
        0
    }
    &&& forall|i: int| #![trigger candidates[i]]
        0 <= i < lan.len() ==> offers_interface(candidates[i], lan[i])
    &&& public_addr matches Some(address) ==> {
        let c = candidates.last();
        &&& c.candidate_type is PublicIp
        &&& c.address == address
        &&& c.priority == 50
        &&& c.foundation is None
        &&& c.interface_name is None
        &&& c.transport@ == "udp"@
        &&& c.generation == 0
    }
}

proof fn lemma_offers(
    candidates: Seq<ICECandidate>,
    interfaces: Seq<LocalInterface>,
    public_addr: Option<String>,
)
    requires
        are_local_candidates(candidates, interfaces, public_addr),
    ensures
        offers_all(candidates, interfaces, public_addr),
{
    lemma_reachable(interfaces);
    let lan = interfaces.filter(|i: LocalInterface| !i.loopback);
    assert forall|i: int| #![trigger candidates[i]] 0 <= i < lan.len() implies offers_interface(
        candidates[i],
        lan[i],
    ) by {}
}

/// Gathering offers every interface that is no loopback, in order, two addresses of one interface
/// as two candidates, and last the public address, if it is known. When the interfaces cannot be
/// listed, only the public address is offered. What was gathered is kept; nothing else changes.
pub proof fn law_gathered_candidates(
    m: &mut P2PManager,
    interfaces: Result<Vec<LocalInterface>, String>,
    public_addr: Option<String>,
    candidates: Vec<ICECandidate>,
)
    requires
        call_ensures(
            P2PManager::gather_local_candidates,
            (m, interfaces, public_addr),
            candidates,
        ),
    ensures
        interfaces matches Ok(list) ==> offers_all(candidates@, list@, public_addr),
        interfaces is Err ==> offers_all(candidates@, Seq::empty(), public_addr),
        final(m)@.local_candidates == candidates@,
        final(m)@.config == old(m)@.config,
        final(m)@.peers == old(m)@.peers,
        final(m)@.stats == old(m)@.stats,
{
    lemma_offers(candidates@, listed(interfaces), public_addr);
}

// ---- Peers -----------------------------------------------------------------

/// Whether no peer but the one under `key` differs between two states.
pub open spec fn others_stay(
    pre: Map<Seq<char>, PeerView>,
    post: Map<Seq<char>, PeerView>,
    key: Seq<char>,
) -> bool {
    forall|k: Seq<char>| #![trigger post.dom().contains(k)] #![trigger pre.dom().contains(k)]
        k != key ==> pre.dom().contains(k) == post.dom().contains(k) && (pre.dom().contains(k)
            ==> pre[k] == post[k])
}

/// Whether the statistics differ in what the given numbers say and in nothing else.
pub open spec fn stats_grow(
    pre: P2PStats,
    post: P2PStats,
    connections: int,
    attempts: int,
    handoffs: int,
    fallbacks: int,
    sent: int,
    received: int,
) -> bool {
    &&& post.connections_established == pre.connections_established + connections
    &&& post.handoff_attempts == pre.handoff_attempts + attempts
    &&& post.handoffs_successful == pre.handoffs_successful + handoffs
    &&& post.fallbacks_to_relay == pre.fallbacks_to_relay + fallbacks
    &&& post.bytes_sent == pre.bytes_sent + sent
    &&& post.bytes_received == pre.bytes_received + received
}

/// A new manager knows no peer, has counted nothing and gathered nothing.
pub proof fn law_new_manager_is_empty(
    config: P2PConfig,
    m: P2PManager,
    kept: &P2PConfig,
    stats: P2PStats,
    user: &str,
    device: &str,
    status: Option<PeerStatus>,
    peers: Vec<PeerInfo>,
)
    requires
        call_ensures(P2PManager::new, (config,), m),
        call_ensures(P2PManager::config, (&m,), kept),
        call_ensures(P2PManager::stats, (&m,), stats),
        call_ensures(P2PManager::get_peer_status, (&m, user, device), status),
        call_ensures(P2PManager::get_peers, (&m,), peers),
    ensures
        *kept == config && m@.config == config,
        stats == m@.stats,
        stats.connections_established == 0 && stats.handoff_attempts == 0
            && stats.handoffs_successful == 0 && stats.fallbacks_to_relay == 0 && stats.bytes_sent
            == 0 && stats.bytes_received == 0,
        status is None,
        peers@.len() == 0,
        m@.local_candidates.len() == 0,
{
    if peers@.len() > 0 {
        assert(m@.peers.dom().contains(
            crate::p2p::manager::peer_key(peers@[0].user_id@, peers@[0].device_id@),
        ));
    }
}

/// The status of a peer is the one under its user and device id, joined by a colon, and the list
/// of peers holds every known peer once, each as it is known.
pub proof fn law_peers_are_found_by_their_ids(
    m: &P2PManager,
    user: &str,
    device: &str,
    status: Option<PeerStatus>,
    peers: Vec<PeerInfo>,
)
    requires
        call_ensures(P2PManager::get_peer_status, (m, user, device), status),
        call_ensures(P2PManager::get_peers, (m,), peers),
    ensures
        ({
            let key = user@ + ":"@ + device@;
            &&& status is Some <==> m@.peers.dom().contains(key)
            &&& status matches Some(s) ==> s == m@.peers[key].status
        }),
        forall|i: int| #![trigger peers@[i]]
            0 <= i < peers@.len() ==> m@.peers.dom().contains(
                peers@[i].user_id@ + ":"@ + peers@[i].device_id@,
            ) && m@.peers[peers@[i].user_id@ + ":"@ + peers@[i].device_id@] == peers@[i]@,
        forall|i: int, j: int| #![trigger peers@[i], peers@[j]]
            0 <= i < j < peers@.len() ==> peers@[i].user_id@ + ":"@ + peers@[i].device_id@
                != peers@[j].user_id@ + ":"@ + peers@[j].device_id@,
        forall|key: Seq<char>| #[trigger]
            m@.peers.dom().contains(key) ==> exists|i: int|
                0 <= i < peers@.len() && #[trigger] peers@[i]@ == m@.peers[key],
{
    assert forall|i: int| #![trigger peers@[i]] 0 <= i < peers@.len() implies m@.peers.dom().contains(
        peers@[i].user_id@ + ":"@ + peers@[i].device_id@,
    ) && m@.peers[peers@[i].user_id@ + ":"@ + peers@[i].device_id@] == peers@[i]@ by {
        assert(crate::p2p::manager::peer_key(peers@[i].user_id@, peers@[i].device_id@)
            == peers@[i].user_id@ + ":"@ + peers@[i].device_id@);
    }
    assert forall|i: int, j: int| #![trigger peers@[i], peers@[j]]
        0 <= i < j < peers@.len() implies peers@[i].user_id@ + ":"@ + peers@[i].device_id@
        != peers@[j].user_id@ + ":"@ + peers@[j].device_id@ by {
        assert(crate::p2p::manager::peer_key(peers@[i].user_id@, peers@[i].device_id@)
            != crate::p2p::manager::peer_key(peers@[j].user_id@, peers@[j].device_id@));
    }
}

/// Starting a handoff offers our candidates to the user, counts the attempt, and leaves the peer
/// exchanging candidates; a peer that was not known is known from then on, without candidates of
/// its own. Other peers stay as they were.
pub proof fn law_handoff_is_offered(
    m: &mut P2PManager,
    user: &str,
    device: &str,
    interfaces: Result<Vec<LocalInterface>, String>,
    public_addr: Option<String>,
    event: UiEvent,
)
    requires
        call_ensures(
            P2PManager::initiate_handoff,
            (m, user, device, interfaces, public_addr),
            event,
        ),
        m@.stats.handoff_attempts < u64::MAX,
    ensures
        event matches UiEvent::P2PHandoffInitiate { peer_id, candidates } && peer_id@ == user@
            && candidates@ == final(m)@.local_candidates,
        interfaces matches Ok(list) ==> offers_all(
            final(m)@.local_candidates,
            list@,
            public_addr,
        ),
        interfaces is Err ==> offers_all(final(m)@.local_candidates, Seq::empty(), public_addr),
        final(m)@.config == old(m)@.config,
        stats_grow(old(m)@.stats, final(m)@.stats, 0, 1, 0, 0, 0, 0),
        ({
            let key = user@ + ":"@ + device@;
            let peer = final(m)@.peers[key];
            &&& others_stay(old(m)@.peers, final(m)@.peers, key)
            &&& final(m)@.peers.dom().contains(key)
            &&& peer.status is Handshaking
            &&& old(m)@.peers.dom().contains(key) ==> {
                let known = old(m)@.peers[key];
                &&& peer.user_id == known.user_id && peer.device_id == known.device_id
                &&& peer.candidates == known.candidates && peer.latency_ms == known.latency_ms
            }
            &&& !old(m)@.peers.dom().contains(key) ==> {
                &&& peer.user_id == user@ && peer.device_id == device@
                &&& peer.candidates.len() == 0 && peer.latency_ms is None
            }
        }),
{
    lemma_offers(final(m)@.local_candidates, listed(interfaces), public_addr);
}

/// A peer's offer is accepted with our candidates under the peer's ids joined by a colon; the
/// peer's own candidates are kept and connecting starts. A peer that was not known is known from
/// then on. Other peers and the statistics stay as they were.
pub proof fn law_offer_is_accepted(
    m: &mut P2PManager,
    user: &str,
    device: &str,
    theirs: Vec<ICECandidate>,
    interfaces: Result<Vec<LocalInterface>, String>,
    public_addr: Option<String>,
    r: (UiEvent, u64),
)
    requires
        call_ensures(
            P2PManager::handle_handoff_initiate,
            (m, user, device, theirs, interfaces, public_addr),
            r,
        ),
    ensures
        r.0 matches UiEvent::P2PHandoffAck { session_id, success, candidates, measured_latency_ms }
            && session_id@ == user@ + ":"@ + device@ && success && candidates@
            == final(m)@.local_candidates && measured_latency_ms is None,
        r.1 == 100,
        interfaces matches Ok(list) ==> offers_all(
            final(m)@.local_candidates,
            list@,
            public_addr,
        ),
        interfaces is Err ==> offers_all(final(m)@.local_candidates, Seq::empty(), public_addr),
        final(m)@.config == old(m)@.config,
        final(m)@.stats == old(m)@.stats,
        ({
            let key = user@ + ":"@ + device@;
            let peer = final(m)@.peers[key];
            &&& others_stay(old(m)@.peers, final(m)@.peers, key)
            &&& final(m)@.peers.dom().contains(key)
            &&& peer.status is Connecting
            &&& peer.candidates == theirs@
            &&& old(m)@.peers.dom().contains(key) ==> {
                let known = old(m)@.peers[key];
                &&& peer.user_id == known.user_id && peer.device_id == known.device_id
                &&& peer.latency_ms == known.latency_ms
            }
            &&& !old(m)@.peers.dom().contains(key) ==> {
                &&& peer.user_id == user@ && peer.device_id == device@
                &&& peer.latency_ms is None
            }
        }),
{
    lemma_offers(final(m)@.local_candidates, listed(interfaces), public_addr);
}

/// A peer's acknowledgement gives a known peer its candidates and starts connecting; that of an
/// unknown peer changes nothing.
pub proof fn law_acknowledgement_is_taken(
    m: &mut P2PManager,
    user: &str,
    device: &str,
    theirs: Vec<ICECandidate>,
    duration: u64,
)
    requires
        call_ensures(P2PManager::handle_handoff_ack, (m, user, device, theirs), duration),
    ensures
        duration == 100,
        final(m)@.config == old(m)@.config,
        final(m)@.stats == old(m)@.stats,
        final(m)@.local_candidates == old(m)@.local_candidates,
        ({
            let key = user@ + ":"@ + device@;
            let peer = final(m)@.peers[key];
            let known = old(m)@.peers[key];
            &&& others_stay(old(m)@.peers, final(m)@.peers, key)
            &&& final(m)@.peers.dom().contains(key) == old(m)@.peers.dom().contains(key)
            &&& old(m)@.peers.dom().contains(key) ==> {
                &&& peer.user_id == known.user_id && peer.device_id == known.device_id
                &&& peer.latency_ms == known.latency_ms
                &&& peer.candidates == theirs@ && peer.status is Connecting
            }
        }),
{
}

/// Whether an operation gave a known peer a status and left everything else of all peers alone.
pub open spec fn status_becomes(
    pre: Map<Seq<char>, PeerView>,
    post: Map<Seq<char>, PeerView>,
    key: Seq<char>,
    status: PeerStatus,
) -> bool {
    &&& others_stay(pre, post, key)
    &&& pre.dom().contains(key) == post.dom().contains(key)
    &&& pre.dom().contains(key) ==> {
        &&& post[key].status == status
        &&& post[key].user_id == pre[key].user_id && post[key].device_id == pre[key].device_id
        &&& post[key].candidates == pre[key].candidates
        &&& post[key].latency_ms == pre[key].latency_ms
    }
}

/// A failed attempt leaves a known peer failed and is counted as a use of the relay; it is made
/// again after the configured time. A successful one leaves a known peer connected and is counted
/// as a connection and as a handoff. Nothing else changes.
pub proof fn law_attempts_end(
    m: &mut P2PManager,
    user: &str,
    device: &str,
    retry: u64,
    m2: &mut P2PManager,
)
    requires
        call_ensures(P2PManager::attempt_failed, (m, user, device), retry),
        m@.stats.fallbacks_to_relay < u64::MAX,
        call_ensures(P2PManager::attempt_succeeded, (m2, user, device), ()),
        m2@.stats.connections_established < u64::MAX,
        m2@.stats.handoffs_successful < u64::MAX,
    ensures
        retry == old(m)@.config.retry_interval_secs,
        status_becomes(
            old(m)@.peers,
            final(m)@.peers,
            user@ + ":"@ + device@,
            PeerStatus::Failed,
        ),
        stats_grow(old(m)@.stats, final(m)@.stats, 0, 0, 0, 1, 0, 0),
        final(m)@.config == old(m)@.config,
        final(m)@.local_candidates == old(m)@.local_candidates,
        status_becomes(
            old(m2)@.peers,
            final(m2)@.peers,
            user@ + ":"@ + device@,
            PeerStatus::Connected,
        ),
        stats_grow(old(m2)@.stats, final(m2)@.stats, 1, 0, 1, 0, 0, 0),
        final(m2)@.config == old(m2)@.config,
        final(m2)@.local_candidates == old(m2)@.local_candidates,
{
}

/// A removed peer is no longer known; every other peer is, as before.
pub proof fn law_removed_peer_is_forgotten(
    m: &mut P2PManager,
    user: &str,
    device: &str,
    after: Option<PeerStatus>,
)
    requires
        call_ensures(P2PManager::remove_peer, (m, user, device), ()),
        call_ensures(P2PManager::get_peer_status, (&*final(m), user, device), after),
    ensures
        after is None,
        others_stay(old(m)@.peers, final(m)@.peers, user@ + ":"@ + device@),
        final(m)@.config == old(m)@.config,
        final(m)@.stats == old(m)@.stats,
        final(m)@.local_candidates == old(m)@.local_candidates,
{
}

/// A handoff that is offered, acknowledged and carried out takes a peer from exchanging candidates
/// over connecting to connected, and one that fails to failed.
pub proof fn law_handoff_goes_through(
    m1: &mut P2PManager,
    user: &str,
    device: &str,
    interfaces: Result<Vec<LocalInterface>, String>,
    public_addr: Option<String>,
    event: UiEvent,
    s1: Option<PeerStatus>,
    m2: &mut P2PManager,
    theirs: Vec<ICECandidate>,
    duration: u64,
    s2: Option<PeerStatus>,
    m3: &mut P2PManager,
    s3: Option<PeerStatus>,
    m4: &mut P2PManager,
    retry: u64,
    s4: Option<PeerStatus>,
)
    requires
        call_ensures(
            P2PManager::initiate_handoff,
            (m1, user, device, interfaces, public_addr),
            event,
        ),
        call_ensures(P2PManager::get_peer_status, (&*final(m1), user, device), s1),
        *m2 == *final(m1),
        call_ensures(P2PManager::handle_handoff_ack, (m2, user, device, theirs), duration),
        call_ensures(P2PManager::get_peer_status, (&*final(m2), user, device), s2),
        *m3 == *final(m2),
        call_ensures(P2PManager::attempt_succeeded, (m3, user, device), ()),
        call_ensures(P2PManager::get_peer_status, (&*final(m3), user, device), s3),
        *m4 == *final(m2),
        call_ensures(P2PManager::attempt_failed, (m4, user, device), retry),
        call_ensures(P2PManager::get_peer_status, (&*final(m4), user, device), s4),
    ensures
        s1 == Some(PeerStatus::Handshaking),
        s2 == Some(PeerStatus::Connecting),
        s3 == Some(PeerStatus::Connected),
        s4 == Some(PeerStatus::Failed),
{
}

/// A measured latency is kept for a known peer. Above the configured limit the peer is reached
/// through the relay from then on; up to it the status stays. For an unknown peer nothing changes.
/// The average counts as many measurements as connections, and at least this one.
pub proof fn law_latency_is_kept(
    m: &mut P2PManager,
    user: &str,
    device: &str,
    latency: u64,
    r: LatencyUpdate,
)
    requires
        call_ensures(P2PManager::update_peer_latency, (m, user, device, latency), r),
    ensures
        r.samples >= 1,
        old(m)@.stats.connections_established >= 1 ==> r.samples
            == old(m)@.stats.connections_established,
        old(m)@.stats.connections_established == 0 ==> r.samples == 1,
        final(m)@.config == old(m)@.config,
        final(m)@.stats == old(m)@.stats,
        final(m)@.local_candidates == old(m)@.local_candidates,
        ({
            let key = user@ + ":"@ + device@;
            let known = old(m)@.peers[key];
            let peer = final(m)@.peers[key];
            &&& others_stay(old(m)@.peers, final(m)@.peers, key)
            &&& final(m)@.peers.dom().contains(key) == old(m)@.peers.dom().contains(key)
            &&& r.too_high <==> old(m)@.peers.dom().contains(key) && latency
                > old(m)@.config.max_p2p_latency_ms
            &&& old(m)@.peers.dom().contains(key) ==> {
                &&& peer.latency_ms == Some(latency)
                &&& peer.user_id == known.user_id && peer.device_id == known.device_id
                &&& peer.candidates == known.candidates
                &&& r.too_high ==> peer.status is RelayFallback
                &&& !r.too_high ==> peer.status == known.status
            }
        }),
{
}

/// A direct connection is worth it exactly if it is enabled, the peer is no mobile device and the
/// server is at least as slow as configured.
pub proof fn law_direct_connection_is_worth_it(
    m: &P2PManager,
    latency: u64,
    mobile: bool,
    worth: bool,
)
    requires
        call_ensures(P2PManager::should_use_p2p, (m, latency, mobile), worth),
    ensures
        mobile ==> !worth,
        !m@.config.enable_p2p ==> !worth,
        latency < m@.config.min_server_latency_ms ==> !worth,
        !worth ==> mobile || !m@.config.enable_p2p || latency < m@.config.min_server_latency_ms,
{
}

/// Bytes and connections are counted, each in its own counter, and nothing else changes.
pub proof fn law_counters_count(
    m1: &mut P2PManager,
    sent: u64,
    m2: &mut P2PManager,
    received: u64,
    m3: &mut P2PManager,
)
    requires
        call_ensures(P2PManager::record_bytes_sent, (m1, sent), ()),
        m1@.stats.bytes_sent + sent <= u64::MAX,
        call_ensures(P2PManager::record_bytes_received, (m2, received), ()),
        m2@.stats.bytes_received + received <= u64::MAX,
        call_ensures(P2PManager::record_connection_success, (m3,), ()),
        m3@.stats.connections_established < u64::MAX,
        m3@.stats.handoffs_successful < u64::MAX,
    ensures
        stats_grow(old(m1)@.stats, final(m1)@.stats, 0, 0, 0, 0, sent as int, 0),
        stats_grow(old(m2)@.stats, final(m2)@.stats, 0, 0, 0, 0, 0, received as int),
        stats_grow(old(m3)@.stats, final(m3)@.stats, 1, 0, 1, 0, 0, 0),
        final(m1)@.peers == old(m1)@.peers && final(m1)@.config == old(m1)@.config
            && final(m1)@.local_candidates == old(m1)@.local_candidates,
        final(m2)@.peers == old(m2)@.peers && final(m2)@.config == old(m2)@.config
            && final(m2)@.local_candidates == old(m2)@.local_candidates,
        final(m3)@.peers == old(m3)@.peers && final(m3)@.config == old(m3)@.config
            && final(m3)@.local_candidates == old(m3)@.local_candidates,
{
}

/// The public address is asked of the configured servers, from the first on.
pub proof fn law_configured_servers_are_asked(
    m: &P2PManager,
    scan: StunScan,
    first: Option<&String>,
)
    requires
        call_ensures(P2PManager::stun_scan, (m,), scan),
        call_ensures(StunScan::next_server, (&scan,), first),
    ensures
        scan@.servers == m@.config.stun_servers@,
        m@.config.stun_servers@.len() == 0 ==> first is None,
        m@.config.stun_servers@.len() > 0 ==> (first matches Some(server) && *server
            == m@.config.stun_servers@[0]),
{
}

/// Direct connections, discovery on the local network and the preference of desktops are on by
/// default, bonding is off; two public servers are asked, and the limits are in milliseconds and
/// seconds.
pub proof fn law_default_peer_configuration(a: P2PConfig, b: P2PConfig)
    requires
        call_ensures(<P2PConfig as Default>::default, (), a),
        call_ensures(P2PConfig::new, (), b),
    ensures
        forall|c: P2PConfig|
            #![trigger c.stun_servers]
            c == a || c == b ==> {
                &&& c.enable_p2p && c.enable_lan_discovery && c.prefer_p2p_desktop
                &&& !c.enable_bonding
                &&& c.stun_servers@.len() == 2
                &&& c.stun_servers@[0]@ == "stun.l.google.com:19302"@
                &&& c.stun_servers@[1]@ == "stun.stunprotocol.org:3478"@
                &&& c.min_server_latency_ms == 50 && c.max_p2p_latency_ms == 200
                &&& c.p2p_timeout_secs == 10 && c.retry_interval_secs == 300
                &&& c.p2p_port == 8765
            },
{
}

/// New statistics have counted nothing.
pub proof fn law_new_statistics_are_zero(stats: P2PStats)
    requires
        call_ensures(<P2PStats as Default>::default, (), stats),
    ensures
        stats.connections_established == 0 && stats.handoff_attempts == 0
            && stats.handoffs_successful == 0 && stats.fallbacks_to_relay == 0 && stats.bytes_sent
            == 0 && stats.bytes_received == 0,
{
}

/// A copy of a candidate or of a peer is equal to it in every field.
pub proof fn law_copies_are_equal(
    c: &ICECandidate,
    c2: ICECandidate,
    p: &PeerInfo,
    p2: PeerInfo,
)
    requires
        call_ensures(<ICECandidate as Clone>::clone, (c,), c2),
        call_ensures(<PeerInfo as Clone>::clone, (p,), p2),
    ensures
        c2 == *c,
        p2.user_id@ == p.user_id@,
        p2.device_id@ == p.device_id@,
        p2.candidates@ == p.candidates@,
        p2.status == p.status,
        p2.latency_ms == p.latency_ms,
{
    assert(p2@ == p@);
}

/// Features are on only where direct connections are.
pub proof fn law_features_need_direct_connections(
    c: &P2PConfig,
    enabled: bool,
    lan: bool,
    bonding: bool,
)
    requires
        call_ensures(P2PConfig::is_enabled, (c,), enabled),
        call_ensures(P2PConfig::is_lan_discovery_enabled, (c,), lan),
        call_ensures(P2PConfig::is_bonding_enabled, (c,), bonding),
    ensures
        enabled == c.enable_p2p,
        !enabled ==> !lan && !bonding,
        enabled ==> lan == c.enable_lan_discovery && bonding == c.enable_bonding,
{
}

} // verus!
