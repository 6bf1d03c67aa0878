//! Laws of direct connections: the order of candidates, probing, sending and receiving.

use core::time::Duration;

use vstd::prelude::*;

use crate::p2p::ice::ICECandidate;
use crate::p2p::quic_p2p::{
    duration_of_secs, in_try_order, orders_first, sort_candidates, tried_before, CandidateProbe,
    ConnectAttempt, ConnectionState, Datagram, P2PConnection, P2PConnectionBuilder, ProbeAction,
    ProbeEvent, ProbeStep, ReceiveOutcome, SendOutcome,
};

verus! {

// ---- The order of candidates -----------------------------------------------

/// The candidates of one priority, in order.
pub open spec fn of_priority(candidates: Seq<ICECandidate>, priority: u32) -> Seq<ICECandidate> {
    candidates.filter(|c: ICECandidate| c.priority == priority)
}

/// Whether a list holds the candidates sorted: lower priority numbers first, and for each number
/// the candidates with it in the order in which they came, none lost and none added.
pub open spec fn is_sorted_copy(candidates: Seq<ICECandidate>, list: Seq<ICECandidate>) -> bool {
    &&& list.len() == candidates.len()
    &&& forall|i: int, j: int| #![trigger list[i], list[j]]
        0 <= i < j < list.len() ==> list[i].priority <= list[j].priority
    &&& forall|p: u32| #![trigger of_priority(list, p)]
        of_priority(list, p) == of_priority(candidates, p)
}

proof fn lemma_none_of_priority(list: Seq<ICECandidate>, p: u32)
    requires
        forall|i: int| #![trigger list[i]] 0 <= i < list.len() ==> list[i].priority != p,
    ensures
        of_priority(list, p) == Seq::<ICECandidate>::empty(),
    decreases list.len(),
{
    reveal(Seq::filter);
    if list.len() > 0 {
        let shorter = list.drop_last();
        assert forall|i: int| #![trigger shorter[i]] 0 <= i < shorter.len() implies shorter[i].priority
            != p by {
            assert(shorter[i] == list[i]);
        }
        lemma_none_of_priority(shorter, p);
        assert(list[list.len() - 1].priority != p);
    }
}

proof fn lemma_one_of_priority(c: ICECandidate, p: u32)
    ensures
        of_priority(seq![c], p) == if c.priority == p {
            seq![c]
        } else {
            Seq::empty()
        },
{
    reveal_with_fuel(Seq::filter, 2);
    assert(seq![c].drop_last() =~= Seq::<ICECandidate>::empty());
    assert(Seq::<ICECandidate>::empty().push(c) =~= seq![c]);
}

/// Taking the last candidate out of an order leaves an order of the others.
proof fn lemma_order_without_last(candidates: Seq<ICECandidate>, n: int, order: Seq<int>, at: int)
    requires
        0 < n <= candidates.len(),
        orders_first(candidates, n, order),
        0 <= at < n,
        order[at] == n - 1,
    ensures
        orders_first(candidates, n - 1, order.remove(at)),
{
    let rest = order.remove(at);
    assert forall|i: int| 0 <= i < n - 1 implies 0 <= #[trigger] rest[i] < n - 1 by {
        let oi = if i < at {
            i
        } else {
            i + 1
        };
        assert(rest[i] == order[oi]);
        if oi < at {
            assert(tried_before(candidates, order[oi], order[at]));
        } else {
            assert(tried_before(candidates, order[at], order[oi]));
        }
    }
    assert forall|k: int| 0 <= k < n - 1 implies #[trigger] rest.contains(k) by {
        assert(order.contains(k));
        let i = choose|i: int| 0 <= i < order.len() && order[i] == k;
        if i < at {
            assert(rest[i] == k);
        } else {
            assert(rest[i - 1] == k);
        }
    }
    assert forall|i: int, j: int| 0 <= i < j < n - 1 implies tried_before(
        candidates,
        #[trigger] rest[i],
        #[trigger] rest[j],
    ) by {
        let oi = if i < at {
            i
        } else {
            i + 1
        };
        let oj = if j < at {
            j
        } else {
            j + 1
        };
        assert(rest[i] == order[oi] && rest[j] == order[oj]);
    }
}

proof fn lemma_order_keeps_priorities(
    candidates: Seq<ICECandidate>,
    n: int,
    order: Seq<int>,
    p: u32,
)
    requires
        0 <= n <= candidates.len(),
        orders_first(candidates, n, order),
    ensures
        of_priority(order.map_values(|k: int| candidates[k]), p) == of_priority(
            candidates.take(n),
            p,
        ),
    decreases n,
{
    let list = order.map_values(|k: int| candidates[k]);
    if n == 0 {
        assert(list =~= candidates.take(0));
    } else {
        assert(order.contains(n - 1));
        let at = choose|i: int| 0 <= i < order.len() && order[i] == n - 1;
        let rest = order.remove(at);
        let c = candidates[n - 1];
        lemma_order_without_last(candidates, n, order, at);
        lemma_order_keeps_priorities(candidates, n - 1, rest, p);
        let before = list.take(at);
        let after = list.skip(at + 1);
        assert(list =~= before + seq![c] + after);
        assert(rest.map_values(|k: int| candidates[k]) =~= before + after);
        assert(candidates.take(n) =~= candidates.take(n - 1) + seq![c]);
        let f = |x: ICECandidate| x.priority == p;
        Seq::filter_distributes_over_add(before + seq![c], after, f);
        Seq::filter_distributes_over_add(before, seq![c], f);
        Seq::filter_distributes_over_add(before, after, f);
        Seq::filter_distributes_over_add(candidates.take(n - 1), seq![c], f);
        lemma_one_of_priority(c, p);
        if c.priority == p {
            assert forall|i: int| #![trigger after[i]] 0 <= i < after.len() implies after[i].priority
                != p by {
                assert(after[i] == candidates[order[at + 1 + i]]);
                assert(tried_before(candidates, order[at], order[at + 1 + i]));
                assert(order[at + 1 + i] < n);
            }
            lemma_none_of_priority(after, p);
        }
        assert(of_priority(list, p) =~= of_priority(candidates.take(n), p));
    }
}

proof fn lemma_try_order(candidates: Seq<ICECandidate>, list: Seq<ICECandidate>)
    requires
        in_try_order(candidates, list),
    ensures
        is_sorted_copy(candidates, list),
{
    crate::p2p::quic_p2p::law_try_order_is_sorted(candidates, list);
    let n = candidates.len() as int;
    let order = choose|order: Seq<int>|
        {
            &&& #[trigger] orders_first(candidates, n, order)
            &&& list == order.map_values(|k: int| candidates[k])
        };
    assert(candidates.take(n) =~= candidates);
    assert forall|p: u32| #![trigger of_priority(list, p)] of_priority(list, p) == of_priority(
        candidates,
        p,
    ) by {
        lemma_order_keeps_priorities(candidates, n, order, p);
    }
}

/// Sorting candidates gives all of them, lower priority numbers first, and candidates with the
/// same number in the order in which they came.
pub proof fn law_candidates_are_sorted(candidates: &[ICECandidate], list: Vec<ICECandidate>)
    requires
        call_ensures(sort_candidates, (candidates,), list),
    ensures
        is_sorted_copy(candidates@, list@),
{
    lemma_try_order(candidates@, list@);
}

// ---- Connecting ------------------------------------------------------------

/// Whether nothing of a connection differs but what is excepted.
pub open spec fn link_stays(
    pre: P2PConnection,
    post: P2PConnection,
    but_state: bool,
    but_addr: bool,
    but_sent: bool,
    but_received: bool,
    but_rtt: bool,
) -> bool {
    &&& post@.peer_user_id == pre@.peer_user_id
    &&& post@.peer_device_id == pre@.peer_device_id
    &&& post@.timeout == pre@.timeout
    &&& but_state || post@.state == pre@.state
    &&& but_addr || post@.remote_addr == pre@.remote_addr
    &&& but_sent || post@.bytes_sent == pre@.bytes_sent
    &&& but_received || post@.bytes_received == pre@.bytes_received
    &&& but_rtt || post@.last_rtt_ms == pre@.last_rtt_ms
}

/// Connecting, for the first time or again, tries the candidates in sorted order from the first
/// on; without candidates it fails at once.
pub proof fn law_connecting_tries_in_order(
    c: &mut P2PConnection,
    candidates: &[ICECandidate],
    r: Result<ConnectAttempt, String>,
    first: &ICECandidate,
)
    requires
        call_ensures(P2PConnection::connect, (c, candidates), r) || call_ensures(
            P2PConnection::resume,
            (c, candidates),
            r,
        ),
        r matches Ok(attempt) ==> call_ensures(ConnectAttempt::candidate, (&attempt,), first),
    ensures
        r is Ok <==> candidates@.len() > 0,
        link_stays(*old(c), *final(c), true, false, false, false, false),
        r matches Ok(attempt) ==> {
            &&& final(c)@.state is Connecting
            &&& attempt@.next == 0
            &&& is_sorted_copy(candidates@, attempt@.list)
            &&& *first == attempt@.list[0]
        },
        r matches Err(e) ==> final(c)@.state is Failed && e@ == "All ICE candidates failed"@,
{
    if let Ok(attempt) = r {
        lemma_try_order(candidates@, attempt@.list);
    }
}

/// The first candidate that answers is connected to, at its address. One that does not is
/// followed by the next, and after the last the attempt has failed.
pub proof fn law_first_answering_candidate_connects(
    c: &mut P2PConnection,
    attempt: ConnectAttempt,
    outcome: Result<(), String>,
    r: Result<Option<ConnectAttempt>, String>,
    tried: &ICECandidate,
)
    requires
        call_ensures(P2PConnection::candidate_result, (c, attempt, outcome), r),
        call_ensures(ConnectAttempt::candidate, (&attempt,), tried),
        attempt@.next < attempt@.list.len(),
    ensures
        outcome is Ok ==> {
            &&& r matches Ok(next) && next is None
            &&& final(c)@.state is Connected
            &&& final(c)@.remote_addr == Some(tried.address)
            &&& link_stays(*old(c), *final(c), true, true, false, false, false)
        },
        outcome is Err && attempt@.next + 1 < attempt@.list.len() ==> {
            &&& r matches Ok(Some(next)) && next@.list == attempt@.list && next@.next
                == attempt@.next + 1
            &&& link_stays(*old(c), *final(c), false, false, false, false, false)
        },
        outcome is Err && attempt@.next + 1 == attempt@.list.len() ==> {
            &&& r matches Err(e) && e@ == "All ICE candidates failed"@
            &&& final(c)@.state is Failed
            &&& link_stays(*old(c), *final(c), true, false, false, false, false)
        },
        *tried == attempt@.list[attempt@.next as int],
{
}

/// A new connection, made directly or by its builder, is to the given peer with the given timeout,
/// ten seconds unless another is set, and has not been used.
pub proof fn law_new_connection_is_unused(
    user: &str,
    device: &str,
    timeout: Duration,
    direct: P2PConnection,
    plain: P2PConnectionBuilder,
    made: P2PConnection,
    timed: P2PConnectionBuilder,
    made2: P2PConnection,
)
    requires
        call_ensures(P2PConnection::new, (user, device, timeout), direct),
        call_ensures(P2PConnectionBuilder::new, (user, device), plain),
        call_ensures(P2PConnectionBuilder::build, (plain,), made),
        call_ensures(P2PConnectionBuilder::timeout, (plain, timeout), timed),
        call_ensures(P2PConnectionBuilder::build, (timed,), made2),
    ensures
        direct@.timeout == timeout,
        made@.timeout == duration_of_secs(10),
        made2@.timeout == timeout,
        forall|c: P2PConnection|
            #![trigger c@]
            c == direct || c == made || c == made2 ==> {
                &&& c@.peer_user_id@ == user@
                &&& c@.peer_device_id@ == device@
                &&& c@.state is Disconnected
                &&& c@.remote_addr is None
                &&& c@.bytes_sent == 0 && c@.bytes_received == 0
                &&& c@.last_rtt_ms is None
            },
{
}

/// What a connection answers about itself is its state.
pub proof fn law_connection_answers_its_state(
    c: &P2PConnection,
    state: ConnectionState,
    connected: bool,
    timeout: Duration,
    addr: Option<&String>,
    sent: u64,
    received: u64,
    rtt: Option<u64>,
)
    requires
        call_ensures(P2PConnection::state, (c,), state),
        call_ensures(P2PConnection::is_connected, (c,), connected),
        call_ensures(P2PConnection::timeout, (c,), timeout),
        call_ensures(P2PConnection::remote_addr, (c,), addr),
        call_ensures(P2PConnection::bytes_sent, (c,), sent),
        call_ensures(P2PConnection::bytes_received, (c,), received),
        call_ensures(P2PConnection::last_rtt, (c,), rtt),
    ensures
        state == c@.state,
        connected <==> c@.state is Connected,
        timeout == c@.timeout,
        addr is Some <==> c@.remote_addr is Some,
        addr matches Some(a) ==> c@.remote_addr == Some(*a),
        sent == c@.bytes_sent,
        received == c@.bytes_received,
        rtt == c@.last_rtt_ms,
{
}

/// A closed connection has forgotten the peer's address, and so has one that is about to be
/// opened again after its delay. What was counted stays.
pub proof fn law_closed_connection_has_no_address(
    c1: &mut P2PConnection,
    c2: &mut P2PConnection,
    delay: u64,
    data: &[u8],
    r: Result<Datagram, String>,
)
    requires
        call_ensures(P2PConnection::close, (c1,), ()),
        call_ensures(P2PConnection::reconnect, (c2,), delay),
        call_ensures(P2PConnection::send, (&*final(c1), data), r),
    ensures
        final(c1)@.state is Closed && final(c1)@.remote_addr is None,
        link_stays(*old(c1), *final(c1), true, true, false, false, false),
        final(c2)@.state is Closed && final(c2)@.remote_addr is None,
        link_stays(*old(c2), *final(c2), true, true, false, false, false),
        delay == 100,
        r is Err,
{
}

// ---- Sending and receiving -------------------------------------------------

/// Data, keepalives and pings go to the peer's address; data goes as it is. Without an address
/// nothing can be sent or received, and only a connection that is up is measured.
pub proof fn law_datagrams_go_to_the_peer(
    c: &P2PConnection,
    data: &[u8],
    sent: Result<Datagram, String>,
    keepalive: Result<Datagram, String>,
    ready: Result<(), String>,
    ping: Option<Datagram>,
)
    requires
        call_ensures(P2PConnection::send, (c, data), sent),
        call_ensures(P2PConnection::send_keepalive, (c,), keepalive),
        call_ensures(P2PConnection::receive, (c,), ready),
        call_ensures(P2PConnection::measure_rtt, (c,), ping),
    ensures
        sent is Ok <==> c@.remote_addr is Some,
        keepalive is Ok <==> c@.remote_addr is Some,
        ready is Ok <==> c@.remote_addr is Some,
        ping is Some <==> c@.state is Connected,
        sent matches Ok(d) ==> Some(d.to) == c@.remote_addr && d.payload@ == data@,
        keepalive matches Ok(d) ==> Some(d.to) == c@.remote_addr && d.payload@ == seq![
            80u8,
            79u8,
            78u8,
            71u8,
        ],
        ping matches Some(d) ==> Some(d.to) == c@.remote_addr && d.payload@ == seq![
            80u8,
            73u8,
            78u8,
            71u8,
        ],
        sent matches Err(e) ==> e@ == "Remote address unknown"@,
        keepalive matches Err(e) ==> e@ == "Remote address unknown"@,
        ready matches Err(e) ==> e@ == "Remote address unknown"@,
{
    reveal_strlit("PING");
    reveal_strlit("PONG");
    assert(crate::text::ascii_bytes("PONG"@) =~= seq![80u8, 79u8, 78u8, 71u8]);
    assert(crate::text::ascii_bytes("PING"@) =~= seq![80u8, 73u8, 78u8, 71u8]);
}

/// What was sent is counted, and its length returned; a failure is reported with its cause and
/// counts nothing.
pub proof fn law_sent_bytes_are_counted(
    c: &mut P2PConnection,
    outcome: SendOutcome,
    r: Result<usize, String>,
)
    requires
        call_ensures(P2PConnection::finish_send, (c, outcome), r),
        outcome matches SendOutcome::Sent(len) ==> c@.bytes_sent + len <= u64::MAX,
    ensures
        link_stays(*old(c), *final(c), false, false, true, false, false),
        r is Ok <==> outcome is Sent,
        outcome matches SendOutcome::Sent(len) ==> final(c)@.bytes_sent == old(c)@.bytes_sent + len
            && (r matches Ok(n) && n == len),
        !(outcome is Sent) ==> final(c)@.bytes_sent == old(c)@.bytes_sent,
        outcome matches SendOutcome::BindFailed(cause) ==> (r matches Err(e) && e@
            == "Failed to bind socket: "@ + cause@),
        outcome matches SendOutcome::Failed(cause) ==> (r matches Err(e) && e@ == "Send failed: "@
            + cause@),
{
}

/// What was received is put at the start of the buffer, whose other bytes stay, and is counted;
/// a failure is reported with its cause and changes nothing.
pub proof fn law_received_bytes_are_counted(
    c: &mut P2PConnection,
    buf: &mut [u8],
    outcome: ReceiveOutcome,
    r: Result<usize, String>,
)
    requires
        call_ensures(P2PConnection::finish_receive, (c, buf, outcome), r),
        outcome matches ReceiveOutcome::Received(data) ==> data@.len() <= buf@.len()
            && c@.bytes_received + data@.len() <= u64::MAX,
    ensures
        link_stays(*old(c), *final(c), false, false, false, true, false),
        r is Ok <==> outcome is Received,
        final(buf)@.len() == old(buf)@.len(),
        outcome matches ReceiveOutcome::Received(data) ==> {
            &&& r matches Ok(n) && n == data@.len()
            &&& final(c)@.bytes_received == old(c)@.bytes_received + data@.len()
            &&& forall|i: int| #![trigger final(buf)@[i]]
                0 <= i < data@.len() ==> final(buf)@[i] == data@[i]
            &&& forall|i: int| #![trigger final(buf)@[i]]
                data@.len() <= i < old(buf)@.len() ==> final(buf)@[i] == old(buf)@[i]
        },
        !(outcome is Received) ==> final(buf)@ == old(buf)@ && final(c)@.bytes_received == old(
            c,
        )@.bytes_received,
        outcome matches ReceiveOutcome::BindFailed(cause) ==> (r matches Err(e) && e@
            == "Failed to bind socket: "@ + cause@),
        outcome matches ReceiveOutcome::TimeoutNotSet(cause) ==> (r matches Err(e) && e@
            == "Failed to set timeout: "@ + cause@),
        outcome matches ReceiveOutcome::Failed(cause) ==> (r matches Err(e) && e@
            == "Recv failed: "@ + cause@),
        outcome matches ReceiveOutcome::TaskFailed(cause) ==> (r matches Err(e) && e@
            == "Task join error: "@ + cause@),
{
}

/// A round trip is measured exactly if the peer answered with the four letters of a pong; the
/// elapsed time, in its low 64 bits, is then returned and kept. A failed measurement changes
/// nothing.
pub proof fn law_pong_ends_the_measurement(
    c: &mut P2PConnection,
    reply: Option<&[u8]>,
    elapsed: u128,
    rtt: Option<u64>,
)
    requires
        call_ensures(P2PConnection::finish_rtt, (c, reply, elapsed), rtt),
    ensures
        link_stays(*old(c), *final(c), false, false, false, false, true),
        rtt is Some <==> (reply matches Some(data) && data@ == seq![80u8, 79u8, 78u8, 71u8]),
        rtt matches Some(ms) ==> ms == elapsed % 0x1_0000_0000_0000_0000
            && final(c)@.last_rtt_ms == Some(ms),
        rtt is None ==> final(c)@.last_rtt_ms == old(c)@.last_rtt_ms,
{
    reveal_strlit("PONG");
    assert(crate::text::ascii_bytes("PONG"@) =~= seq![80u8, 79u8, 78u8, 71u8]);
}

// ---- Probing ---------------------------------------------------------------

/// A probe goes step by step, from the address over the socket and its timeouts to the probe text
/// and the answer.
pub proof fn law_probe_goes_step_by_step(
    fresh: CandidateProbe,
    step: ProbeStep,
    p: &mut CandidateProbe,
    action: ProbeAction,
)
    requires
        call_ensures(CandidateProbe::start, (), fresh),
        call_ensures(CandidateProbe::step, (&fresh,), step),
        call_ensures(CandidateProbe::on_event, (p, ProbeEvent::Done), action),
    ensures
        fresh.at() is ParseAddress && step is ParseAddress,
        old(p).at() is ParseAddress ==> action is Bind && final(p).at() is Bind,
        old(p).at() is Bind ==> action is SetReadTimeout && final(p).at() is SetReadTimeout,
        old(p).at() is SetReadTimeout ==> action is SetWriteTimeout && final(p).at()
            is SetWriteTimeout,
        old(p).at() is SetWriteTimeout ==> final(p).at() is Send && (action matches ProbeAction::Send(
            data,
        ) && data@.len() == "P2P_CONNECT_PROBE"@.len() && (forall|i: int| #![trigger data@[i]]
            0 <= i < data@.len() ==> data@[i] as char == "P2P_CONNECT_PROBE"@[i])),
        old(p).at() is Send ==> action is Recv && final(p).at() is Recv,
{
    reveal_strlit("P2P_CONNECT_PROBE");
}

/// A probe succeeds exactly if the peer answers with at least one byte; every other end of it is
/// an error that says what happened.
pub proof fn law_probe_needs_an_answer(p: &mut CandidateProbe, event: ProbeEvent, action: ProbeAction)
    requires
        call_ensures(CandidateProbe::on_event, (p, event), action),
        !(event is Done),
    ensures
        final(p).at() is Returned,
        action is Return,
        action->Return_0 is Ok <==> (event matches ProbeEvent::Received(len) && len > 0),
        action->Return_0 matches Err(e) ==> {
            &&& event is Received ==> e@ == "No response from peer"@
            &&& event matches ProbeEvent::TaskFailed(cause) ==> e@ == "Task join error: "@ + cause@
            &&& event matches ProbeEvent::Failed(cause) ==> {
                &&& old(p).at() is ParseAddress ==> e@ == "Invalid candidate address: "@ + cause@
                &&& old(p).at() is Bind ==> e@ == "Failed to bind UDP socket: "@ + cause@
                &&& old(p).at() is SetReadTimeout ==> e@ == "Failed to set socket timeout: "@ + cause@
                &&& old(p).at() is SetWriteTimeout ==> e@ == "Failed to set write timeout: "@ + cause@
                &&& old(p).at() is Send ==> e@ == "Failed to send probe: "@ + cause@
                &&& old(p).at() is Recv ==> e@ == "Recv error: "@ + cause@
            }
        },
{
}

} // verus!
