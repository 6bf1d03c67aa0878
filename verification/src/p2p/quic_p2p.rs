//! Direct connections between peers, after an ICE handoff.
//!
//! A `P2PConnection` keeps the state of one connection and decides; sockets and timers are
//! driven from outside.

use core::time::Duration;
use vstd::prelude::*;
use vstd::slice::slice_to_vec;
use vstd::string::*;

use super::ice::{CandidateType, ICECandidate};
use crate::text::ascii_bytes;

verus! {

/// How long `reconnect` waits before it connects again, in milliseconds.
pub const RECONNECT_DELAY_MS: u64 = 100;

/// How long one `receive` waits for data, in seconds.
pub const RECEIVE_TIMEOUT_SECS: u64 = 5;

/// How long `measure_rtt` waits for the peer's reply, in seconds.
pub const RTT_TIMEOUT_SECS: u64 = 2;

/// Size of the buffer that the answer to a probe is received into.
pub const PROBE_RESPONSE_MAX: usize = 1500;

/// Size of the buffer that the reply to a ping is received into.
pub const PONG_MAX: usize = 64;

/// The duration of a number of seconds.
pub uninterp spec fn duration_of_secs(secs: u64) -> core::time::Duration;

/// `Duration::from_secs` gives the duration of that many seconds.
pub assume_specification[ core::time::Duration::from_secs ](secs: u64) -> (d: core::time::Duration)
    ensures
        d == duration_of_secs(secs),
;

/// State of a connection.
#[derive(Debug, Clone, Copy, PartialEq, Eq, Structural)]
pub enum ConnectionState {
    /// Not connected.
    Disconnected,
    /// Connecting.
    Connecting,
    /// Connected.
    Connected,
    /// Connection lost, about to connect again.
    Reconnecting,
    /// Shut down.
    Closed,
    /// The last connection attempt failed.
    Failed,
}

// ---- The order in which candidates are tried -------------------------------

/// Whether candidate `a` is tried before candidate `b`: it has the lower priority number, or
/// the same one and comes first in the list.
pub open spec fn tried_before(candidates: Seq<ICECandidate>, a: int, b: int) -> bool {
    candidates[a].priority < candidates[b].priority || (candidates[a].priority
        == candidates[b].priority && a < b)
}

/// Whether `order` lists the positions `0..n` of candidates in the order in which they are
/// tried.
pub open spec fn orders_first(candidates: Seq<ICECandidate>, n: int, order: Seq<int>) -> bool {
    &&& order.len() == n
    &&& forall|i: int| 0 <= i < n ==> 0 <= #[trigger] order[i] < n
    &&& forall|k: int| 0 <= k < n ==> #[trigger] order.contains(k)
    &&& forall|i: int, j: int|
        0 <= i < j < n ==> tried_before(candidates, #[trigger] order[i], #[trigger] order[j])
}

/// Whether `list` holds the candidates in the order in which they are tried.
pub open spec fn in_try_order(candidates: Seq<ICECandidate>, list: Seq<ICECandidate>) -> bool {
    exists|order: Seq<int>|
        {
            &&& #[trigger] orders_first(candidates, candidates.len() as int, order)
            &&& list == order.map_values(|k: int| candidates[k])
        }
}

proof fn lemma_insert_order(candidates: Seq<ICECandidate>, n: int, order: Seq<int>, at: int)
    requires
        0 <= n < candidates.len(),
        orders_first(candidates, n, order),
        0 <= at <= n,
        forall|i: int| 0 <= i < at ==> tried_before(candidates, #[trigger] order[i], n),
        forall|i: int| at <= i < n ==> tried_before(candidates, n, #[trigger] order[i]),
    ensures
        orders_first(candidates, n + 1, order.insert(at, n)),
{
    let next = order.insert(at, n);
    assert forall|k: int| 0 <= k < n + 1 implies #[trigger] next.contains(k) by {
        if k == n {
            assert(next[at] == k);
        } else {
            assert(order.contains(k));
            let i = choose|i: int| 0 <= i < order.len() && order[i] == k;
            if i < at {
                assert(next[i] == k);
            } else {
                assert(next[i + 1] == k);
            }
        }
    }
    assert forall|i: int, j: int| 0 <= i < j < n + 1 implies tried_before(
        candidates,
        #[trigger] next[i],
        #[trigger] next[j],
    ) by {
        let oi = if i < at {
            i
        } else {
            i - 1
        };
        let oj = if j < at {
            j
        } else {
            j - 1
        };
        if i != at {
            assert(next[i] == order[oi]);
        }
        if j != at {
            assert(next[j] == order[oj]);
        }
    }
}

/// Copies candidates into the order in which they are tried.
pub fn sort_candidates(candidates: &[ICECandidate]) -> (list: Vec<ICECandidate>)
    ensures
        in_try_order(candidates@, list@),
{
    let mut list: Vec<ICECandidate> = Vec::new();
    let ghost mut order: Seq<int> = Seq::empty();
    let mut n: usize = 0;
    while n < candidates.len()
        invariant
            n <= candidates@.len(),
            orders_first(candidates@, n as int, order),
            list@ == order.map_values(|k: int| candidates@[k]),
        decreases candidates@.len() - n,
    {
        let priority = candidates[n].priority;
        let mut at: usize = list.len();
        while at > 0 && priority < list[at - 1].priority
            invariant
                n < candidates@.len(),
                at <= n,
                list@.len() == n,
                priority == candidates@[n as int].priority,
                orders_first(candidates@, n as int, order),
                list@ == order.map_values(|k: int| candidates@[k]),
                forall|i: int|
                    at <= i < n ==> tried_before(candidates@, n as int, #[trigger] order[i]),
            decreases at,
        {
            at = at - 1;
            assert(list@[at as int] == candidates@[order[at as int]]);
        }
        proof {
            assert forall|i: int| 0 <= i < at implies tried_before(
                candidates@,
                #[trigger] order[i],
                n as int,
            ) by {
                let last = order[at - 1];
                assert(list@[at - 1] == candidates@[last]);
                assert(candidates@[last].priority <= priority);
                if i < at - 1 {
                    assert(tried_before(candidates@, order[i], last));
                }
            }
            lemma_insert_order(candidates@, n as int, order, at as int);
            order = order.insert(at as int, n as int);
        }
        list.insert(at, candidates[n].clone());
        assert(list@ =~= order.map_values(|k: int| candidates@[k]));
        n = n + 1;
    }
    list
}

proof fn lemma_same_order(
    candidates: Seq<ICECandidate>,
    n: int,
    a: Seq<int>,
    b: Seq<int>,
    upto: int,
)
    requires
        orders_first(candidates, n, a),
        orders_first(candidates, n, b),
        0 <= upto <= n,
    ensures
        forall|i: int| 0 <= i < upto ==> #[trigger] a[i] == b[i],
    decreases upto,
{
    if upto > 0 {
        let last = upto - 1;
        lemma_same_order(candidates, n, a, b, last);
        if a[last] != b[last] {
            assert(b.contains(a[last]));
            let j = choose|j: int| 0 <= j < b.len() && b[j] == a[last];
            assert(a.contains(b[last]));
            let i = choose|i: int| 0 <= i < a.len() && a[i] == b[last];
            if j < last {
                assert(a[j] == b[j]);
                assert(tried_before(candidates, a[j], a[last]));
            } else if i < last {
                assert(a[i] == b[i]);
                assert(tried_before(candidates, b[i], b[last]));
            } else {
                assert(tried_before(candidates, b[last], b[j]));
                assert(tried_before(candidates, a[last], a[i]));
            }
        }
    }
}

/// There is only one order in which candidates are tried.
pub proof fn law_try_order_is_unique(
    candidates: Seq<ICECandidate>,
    list1: Seq<ICECandidate>,
    list2: Seq<ICECandidate>,
)
    requires
        in_try_order(candidates, list1),
        in_try_order(candidates, list2),
    ensures
        list1 == list2,
{
    let n = candidates.len() as int;
    let a = choose|order: Seq<int>|
        {
            &&& #[trigger] orders_first(candidates, n, order)
            &&& list1 == order.map_values(|k: int| candidates[k])
        };
    let b = choose|order: Seq<int>|
        {
            &&& #[trigger] orders_first(candidates, n, order)
            &&& list2 == order.map_values(|k: int| candidates[k])
        };
    lemma_same_order(candidates, n, a, b, n);
    assert(a =~= b);
}

/// Every candidate is tried, and a candidate is never tried after one with a higher priority
/// number.
pub proof fn law_try_order_is_sorted(candidates: Seq<ICECandidate>, list: Seq<ICECandidate>)
    requires
        in_try_order(candidates, list),
    ensures
        list.len() == candidates.len(),
        forall|i: int, j: int|
            0 <= i < j < list.len() ==> (#[trigger] list[i]).priority <= (
            #[trigger] list[j]).priority,
        forall|k: int| 0 <= k < candidates.len() ==> list.contains(#[trigger] candidates[k]),
{
    let n = candidates.len() as int;
    let order = choose|order: Seq<int>|
        {
            &&& #[trigger] orders_first(candidates, n, order)
            &&& list == order.map_values(|k: int| candidates[k])
        };
    assert forall|i: int, j: int| 0 <= i < j < list.len() implies (#[trigger] list[i]).priority <= (
    #[trigger] list[j]).priority by {
        assert(tried_before(candidates, order[i], order[j]));
    }
    assert forall|k: int| 0 <= k < candidates.len() implies list.contains(
        #[trigger] candidates[k],
    ) by {
        assert(order.contains(k));
        let i = choose|i: int| 0 <= i < order.len() && order[i] == k;
        assert(list[i] == candidates[k]);
    }
}

/// Among candidates with their default priorities, those on the local network are tried before
/// all others, and relays after all others.
pub proof fn law_relays_are_tried_last(candidates: Seq<ICECandidate>, list: Seq<ICECandidate>)
    requires
        in_try_order(candidates, list),
        forall|k: int|
            0 <= k < candidates.len() ==> (#[trigger] candidates[k]).priority
                == candidates[k].candidate_type.priority_of(),
    ensures
        forall|i: int, j: int|
            0 <= i < j < list.len() && (#[trigger] list[i]).candidate_type == CandidateType::Relay
                ==> (#[trigger] list[j]).candidate_type == CandidateType::Relay,
        forall|i: int, j: int|
            0 <= i < j < list.len() && (#[trigger] list[j]).candidate_type
                == CandidateType::LocalLan ==> (#[trigger] list[i]).candidate_type
                == CandidateType::LocalLan,
{
    let n = candidates.len() as int;
    let order = choose|order: Seq<int>|
        {
            &&& #[trigger] orders_first(candidates, n, order)
            &&& list == order.map_values(|k: int| candidates[k])
        };
    assert forall|i: int, j: int| 0 <= i < j < list.len() implies (
    #[trigger] list[i]).candidate_type.priority_of() <= (
    #[trigger] list[j]).candidate_type.priority_of() by {
        assert(list[i] == candidates[order[i]]);
        assert(list[j] == candidates[order[j]]);
        assert(tried_before(candidates, order[i], order[j]));
    }
}

// ---- Probing one candidate -------------------------------------------------

/// What a probe is waiting for.
#[derive(Debug, Clone, Copy, PartialEq, Eq, Structural)]
pub enum ProbeStep {
    /// The candidate's address is being parsed.
    ParseAddress,
    /// The socket is being bound.
    Bind,
    /// The socket's receive timeout is being set.
    SetReadTimeout,
    /// The socket's send timeout is being set.
    SetWriteTimeout,
    /// The probe is being sent.
    Send,
    /// The peer's answer is awaited.
    Recv,
    /// The probe has returned.
    Returned,
}

/// What the driver reports to a probe.
pub enum ProbeEvent {
    /// The step succeeded.
    Done,
    /// An answer of this many bytes was received.
    Received(usize),
    /// The step failed, with this description.
    Failed(String),
    /// The task that waited for the answer broke down, with this description.
    TaskFailed(String),
}

/// What the driver of a probe does next.
pub enum ProbeAction {
    /// Bind a UDP socket to any free port.
    Bind,
    /// Set the socket's receive timeout to the connection's timeout.
    SetReadTimeout,
    /// Set the socket's send timeout to the connection's timeout.
    SetWriteTimeout,
    /// Send these bytes to the candidate.
    Send(Vec<u8>),
    /// Receive up to `PROBE_RESPONSE_MAX` bytes.
    Recv,
    /// The probe returned this.
    Return(Result<(), String>),
}

/// An attempt to reach a peer at one candidate.
#[derive(Debug)]
pub struct CandidateProbe {
    step: ProbeStep,
}

/// The error text of a failed step.
pub open spec fn probe_failure_text(step: ProbeStep, cause: Seq<char>) -> Seq<char> {
    match step {
        ProbeStep::ParseAddress => "Invalid candidate address: "@ + cause,
        ProbeStep::Bind => "Failed to bind UDP socket: "@ + cause,
        ProbeStep::SetReadTimeout => "Failed to set socket timeout: "@ + cause,
        ProbeStep::SetWriteTimeout => "Failed to set write timeout: "@ + cause,
        ProbeStep::Send => "Failed to send probe: "@ + cause,
        _ => "Recv error: "@ + cause,
    }
}

/// Whether an event can be the outcome of what a probe is waiting for.
pub open spec fn probe_event_fits(step: ProbeStep, event: ProbeEvent) -> bool {
    match event {
        ProbeEvent::Done => step != ProbeStep::Recv && step != ProbeStep::Returned,
        ProbeEvent::Received(_) | ProbeEvent::TaskFailed(_) => step == ProbeStep::Recv,
        ProbeEvent::Failed(_) => step != ProbeStep::Returned,
    }
}

impl CandidateProbe {
    /// What the probe is waiting for.
    pub closed spec fn at(&self) -> ProbeStep {
        self.step
    }

    /// Starts a probe. The driver first parses the candidate's address.
    pub fn start() -> (probe: Self)
        ensures
            probe.at() == ProbeStep::ParseAddress,
    {
        CandidateProbe { step: ProbeStep::ParseAddress }
    }

    /// What the probe is waiting for.
    pub fn step(&self) -> (step: ProbeStep)
        ensures
            step == self.at(),
    {
        self.step
    }

    /// Moves the probe on: takes the outcome of the last action and says what to do next.
    pub fn on_event(&mut self, event: ProbeEvent) -> (action: ProbeAction)
        requires
            probe_event_fits(old(self).at(), event),
        ensures
            match event {
                ProbeEvent::Done => match old(self).at() {
                    ProbeStep::ParseAddress => action is Bind && final(self).at()
                        == ProbeStep::Bind,
                    ProbeStep::Bind => action is SetReadTimeout && final(self).at()
                        == ProbeStep::SetReadTimeout,
                    ProbeStep::SetReadTimeout => action is SetWriteTimeout && final(self).at()
                        == ProbeStep::SetWriteTimeout,
                    ProbeStep::SetWriteTimeout => {
                        &&& action matches ProbeAction::Send(data) && data@ == ascii_bytes(
                            "P2P_CONNECT_PROBE"@,
                        )
                        &&& final(self).at() == ProbeStep::Send
                    },
                    _ => action is Recv && final(self).at() == ProbeStep::Recv,
                },
                ProbeEvent::Received(len) => {
                    &&& final(self).at() == ProbeStep::Returned
                    &&& action matches ProbeAction::Return(r) && match r {
                        Ok(_) => len > 0,
                        Err(e) => len == 0 && e@ == "No response from peer"@,
                    }
                },
                ProbeEvent::Failed(cause) => {
                    &&& final(self).at() == ProbeStep::Returned
                    &&& action matches ProbeAction::Return(Err(e)) && e@ == probe_failure_text(
                        old(self).at(),
                        cause@,
                    )
                },
                ProbeEvent::TaskFailed(cause) => {
                    &&& final(self).at() == ProbeStep::Returned
                    &&& action matches ProbeAction::Return(Err(e)) && e@ == "Task join error: "@
                        + cause@
                },
            },
    {
        match event {
            ProbeEvent::Done => match self.step {
                ProbeStep::ParseAddress => {
                    self.step = ProbeStep::Bind;
                    ProbeAction::Bind
                },
                ProbeStep::Bind => {
                    self.step = ProbeStep::SetReadTimeout;
                    ProbeAction::SetReadTimeout
                },
                ProbeStep::SetReadTimeout => {
                    self.step = ProbeStep::SetWriteTimeout;
                    ProbeAction::SetWriteTimeout
                },
                ProbeStep::SetWriteTimeout => {
                    self.step = ProbeStep::Send;
                    ProbeAction::Send(probe_bytes())
                },
                _ => {
                    self.step = ProbeStep::Recv;
                    ProbeAction::Recv
                },
            },
            ProbeEvent::Received(len) => {
                self.step = ProbeStep::Returned;
                if len > 0 {
                    ProbeAction::Return(Ok(()))
                } else {
                    ProbeAction::Return(Err(String::from_str("No response from peer")))
                }
            },
            ProbeEvent::Failed(cause) => {
                let prefix = match self.step {
                    ProbeStep::ParseAddress => "Invalid candidate address: ",
                    ProbeStep::Bind => "Failed to bind UDP socket: ",
                    ProbeStep::SetReadTimeout => "Failed to set socket timeout: ",
                    ProbeStep::SetWriteTimeout => "Failed to set write timeout: ",
                    ProbeStep::Send => "Failed to send probe: ",
                    _ => "Recv error: ",
                };
                self.step = ProbeStep::Returned;
                ProbeAction::Return(Err(String::from_str(prefix).concat(cause.as_str())))
            },
            ProbeEvent::TaskFailed(cause) => {
                self.step = ProbeStep::Returned;
                ProbeAction::Return(
                    Err(String::from_str("Task join error: ").concat(cause.as_str())),
                )
            },
        }
    }
}

/// The bytes that a probe sends.
fn probe_bytes() -> (data: Vec<u8>)
    ensures
        data@ == ascii_bytes("P2P_CONNECT_PROBE"@),
{
    let data: Vec<u8> = vec![
        80, 50, 80, 95, 67, 79, 78, 78, 69, 67, 84, 95, 80, 82, 79, 66, 69,
    ];
    proof {
        reveal_strlit("P2P_CONNECT_PROBE");
    }
    assert(data@ =~= ascii_bytes("P2P_CONNECT_PROBE"@));
    data
}

/// The request of an RTT measurement.
fn ping_bytes() -> (data: Vec<u8>)
    ensures
        data@ == ascii_bytes("PING"@),
{
    let data: Vec<u8> = vec![80, 73, 78, 71];
    proof {
        reveal_strlit("PING");
    }
    assert(data@ =~= ascii_bytes("PING"@));
    data
}

/// The reply of an RTT measurement.
fn pong_bytes() -> (data: Vec<u8>)
    ensures
        data@ == ascii_bytes("PONG"@),
{
    let data: Vec<u8> = vec![80, 79, 78, 71];
    proof {
        reveal_strlit("PONG");
    }
    assert(data@ =~= ascii_bytes("PONG"@));
    data
}

/// Whether some bytes are the reply of an RTT measurement.
fn is_pong(data: &[u8]) -> (b: bool)
    ensures
        b == (data@ == ascii_bytes("PONG"@)),
{
    proof {
        reveal_strlit("PONG");
    }
    let ghost pong = ascii_bytes("PONG"@);
    assert(pong =~= seq![80u8, 79u8, 78u8, 71u8]);
    if data.len() == 4 && data[0] == 80 && data[1] == 79 && data[2] == 78 && data[3] == 71 {
        assert(data@ =~= pong);
        true
    } else {
        false
    }
}

// ---- The connection --------------------------------------------------------

/// Candidates that are being tried one after the other.
#[derive(Debug)]
pub struct ConnectAttempt {
    list: Vec<ICECandidate>,
    next: usize,
}

/// The state of an attempt as the contracts see it.
pub struct AttemptView {
    /// The candidates in the order in which they are tried.
    pub list: Seq<ICECandidate>,
    /// The candidate that is being tried.
    pub next: nat,
}

impl View for ConnectAttempt {
    type V = AttemptView;

    closed spec fn view(&self) -> AttemptView {
        AttemptView { list: self.list@, next: self.next as nat }
    }
}

impl ConnectAttempt {
    /// Whether there is a candidate to try.
    pub open spec fn well_formed(&self) -> bool {
        self@.next < self@.list.len()
    }

    /// The candidate to try.
    pub fn candidate(&self) -> (c: &ICECandidate)
        requires
            self.well_formed(),
        ensures
            *c == self@.list[self@.next as int],
    {
        &self.list[self.next]
    }
}

/// A message for a peer.
#[derive(Debug)]
pub struct Datagram {
    pub to: String,
    pub payload: Vec<u8>,
}

/// What became of sending a message.
pub enum SendOutcome {
    /// This many bytes were sent.
    Sent(usize),
    /// No socket could be bound.
    BindFailed(String),
    /// Sending failed.
    Failed(String),
}

/// What became of receiving a message.
pub enum ReceiveOutcome {
    /// These bytes were received.
    Received(Vec<u8>),
    /// No socket could be bound.
    BindFailed(String),
    /// The timeout could not be set.
    TimeoutNotSet(String),
    /// Receiving failed.
    Failed(String),
    /// The task that waited for the message broke down.
    TaskFailed(String),
}

/// A direct connection to a peer.
#[derive(Debug)]
pub struct P2PConnection {
    pub peer_user_id: String,
    pub peer_device_id: String,
    state: ConnectionState,
    remote_addr: Option<String>,
    timeout: Duration,
    bytes_sent: u64,
    bytes_received: u64,
    last_rtt_ms: Option<u64>,
}

/// The state of a connection as the contracts see it.
pub struct ConnectionView {
    pub peer_user_id: String,
    pub peer_device_id: String,
    pub state: ConnectionState,
    pub remote_addr: Option<String>,
    pub timeout: Duration,
    pub bytes_sent: u64,
    pub bytes_received: u64,
    pub last_rtt_ms: Option<u64>,
}

impl View for P2PConnection {
    type V = ConnectionView;

    closed spec fn view(&self) -> ConnectionView {
        ConnectionView {
            peer_user_id: self.peer_user_id,
            peer_device_id: self.peer_device_id,
            state: self.state,
            remote_addr: self.remote_addr,
            timeout: self.timeout,
            bytes_sent: self.bytes_sent,
            bytes_received: self.bytes_received,
            last_rtt_ms: self.last_rtt_ms,
        }
    }
}

/// What one candidate's outcome makes of a connection, and which candidate is tried next.
pub open spec fn after_candidate(
    conn: ConnectionView,
    attempt: AttemptView,
    answered: bool,
) -> (ConnectionView, Option<AttemptView>) {
    if answered {
        (
            ConnectionView {
                state: ConnectionState::Connected,
                remote_addr: Some(attempt.list[attempt.next as int].address),
                ..conn
            },
            None,
        )
    } else if attempt.next + 1 < attempt.list.len() {
        (conn, Some(AttemptView { next: attempt.next + 1, ..attempt }))
    } else {
        (ConnectionView { state: ConnectionState::Failed, ..conn }, None)
    }
}

/// A closed connection.
pub open spec fn after_close(conn: ConnectionView) -> ConnectionView {
    ConnectionView { state: ConnectionState::Closed, remote_addr: None, ..conn }
}

/// How a connection starts to connect.
pub open spec fn is_connect_start(
    pre: ConnectionView,
    candidates: Seq<ICECandidate>,
    post: ConnectionView,
    r: Result<ConnectAttempt, String>,
) -> bool {
    match r {
        Ok(attempt) => {
            &&& candidates.len() > 0
            &&& attempt.well_formed()
            &&& attempt@.next == 0
            &&& in_try_order(candidates, attempt@.list)
            &&& post == (ConnectionView { state: ConnectionState::Connecting, ..pre })
        },
        Err(e) => {
            &&& candidates.len() == 0
            &&& e@ == "All ICE candidates failed"@
            &&& post == (ConnectionView { state: ConnectionState::Failed, ..pre })
        },
    }
}

impl P2PConnection {
    /// Whether the peer's address is known if the connection is up.
    pub open spec fn well_formed(&self) -> bool {
        self@.state == ConnectionState::Connected ==> self@.remote_addr is Some
    }

    /// A connection that is not yet connected.
    pub fn new(peer_user_id: &str, peer_device_id: &str, timeout: Duration) -> (conn: Self)
        ensures
            conn.well_formed(),
            conn@.peer_user_id@ == peer_user_id@,
            conn@.peer_device_id@ == peer_device_id@,
            conn@.state == ConnectionState::Disconnected,
            conn@.remote_addr is None,
            conn@.timeout == timeout,
            conn@.bytes_sent == 0,
            conn@.bytes_received == 0,
            conn@.last_rtt_ms is None,
    {
        P2PConnection {
            peer_user_id: String::from_str(peer_user_id),
            peer_device_id: String::from_str(peer_device_id),
            state: ConnectionState::Disconnected,
            remote_addr: None,
            timeout,
            bytes_sent: 0,
            bytes_received: 0,
            last_rtt_ms: None,
        }
    }

    /// The connection's state.
    pub fn state(&self) -> (state: ConnectionState)
        ensures
            state == self@.state,
    {
        self.state
    }

    /// Whether the connection is up.
    pub fn is_connected(&self) -> (b: bool)
        ensures
            b == (self@.state == ConnectionState::Connected),
    {
        self.state == ConnectionState::Connected
    }

    /// The connection's timeout.
    pub fn timeout(&self) -> (timeout: Duration)
        ensures
            timeout == self@.timeout,
    {
        self.timeout
    }

    /// The peer's address, if it is known.
    pub fn remote_addr(&self) -> (addr: Option<&String>)
        ensures
            match addr {
                Some(a) => self@.remote_addr == Some(*a),
                None => self@.remote_addr is None,
            },
    {
        self.remote_addr.as_ref()
    }

    /// Starts to connect: the candidates to try, in priority order.
    pub fn connect(&mut self, candidates: &[ICECandidate]) -> (r: Result<ConnectAttempt, String>)
        ensures
            final(self).well_formed(),
            is_connect_start(old(self)@, candidates@, final(self)@, r),
    {
        let list = sort_candidates(candidates);
        if list.len() == 0 {
            self.state = ConnectionState::Failed;
            Err(String::from_str("All ICE candidates failed"))
        } else {
            self.state = ConnectionState::Connecting;
            Ok(ConnectAttempt { list, next: 0 })
        }
    }

    /// Takes the outcome of the candidate that was tried: the attempt goes on with the next
    /// candidate, or is over because a peer answered (`Ok(None)`) or all candidates failed.
    pub fn candidate_result(&mut self, attempt: ConnectAttempt, outcome: Result<(), String>) -> (r:
        Result<Option<ConnectAttempt>, String>)
        requires
            old(self)@.state == ConnectionState::Connecting,
            attempt.well_formed(),
        ensures
            final(self).well_formed(),
            ({
                let (conn, next) = after_candidate(old(self)@, attempt@, outcome is Ok);
                &&& final(self)@ == conn
                &&& match r {
                    Ok(Some(a)) => a.well_formed() && next == Some(a@),
                    Ok(None) => next is None && outcome is Ok,
                    Err(e) => next is None && outcome is Err && e@ == "All ICE candidates failed"@,
                }
            }),
    {
        match outcome {
            Ok(_) => {
                self.remote_addr = Some(attempt.list[attempt.next].address.clone());
                self.state = ConnectionState::Connected;
                Ok(None)
            },
            Err(_) => {
                if attempt.next < attempt.list.len() - 1 {
                    Ok(Some(ConnectAttempt { list: attempt.list, next: attempt.next + 1 }))
                } else {
                    self.state = ConnectionState::Failed;
                    Err(String::from_str("All ICE candidates failed"))
                }
            },
        }
    }

    /// Prepares sending data to the peer.
    pub fn send(&self, data: &[u8]) -> (r: Result<Datagram, String>)
        ensures
            match r {
                Ok(d) => self@.remote_addr == Some(d.to) && d.payload@ == data@,
                Err(e) => self@.remote_addr is None && e@ == "Remote address unknown"@,
            },
    {
        match &self.remote_addr {
            Some(addr) => Ok(Datagram { to: addr.clone(), payload: slice_to_vec(data) }),
            None => Err(String::from_str("Remote address unknown")),
        }
    }

    /// Takes the outcome of sending: counts what was sent.
    pub fn finish_send(&mut self, outcome: SendOutcome) -> (r: Result<usize, String>)
        requires
            outcome matches SendOutcome::Sent(len) ==> old(self)@.bytes_sent + len <= u64::MAX,
        ensures
            old(self).well_formed() ==> final(self).well_formed(),
            match outcome {
                SendOutcome::Sent(len) => {
                    &&& r == Ok::<usize, String>(len)
                    &&& final(self)@ == (ConnectionView {
                        bytes_sent: (old(self)@.bytes_sent + len) as u64,
                        ..old(self)@
                    })
                },
                SendOutcome::BindFailed(cause) => {
                    &&& r matches Err(e) && e@ == "Failed to bind socket: "@ + cause@
                    &&& final(self)@ == old(self)@
                },
                SendOutcome::Failed(cause) => {
                    &&& r matches Err(e) && e@ == "Send failed: "@ + cause@
                    &&& final(self)@ == old(self)@
                },
            },
    {
        match outcome {
            SendOutcome::Sent(len) => {
                self.bytes_sent = self.bytes_sent + len as u64;
                Ok(len)
            },
            SendOutcome::BindFailed(cause) => Err(
                String::from_str("Failed to bind socket: ").concat(cause.as_str()),
            ),
            SendOutcome::Failed(cause) => Err(
                String::from_str("Send failed: ").concat(cause.as_str()),
            ),
        }
    }

    /// Prepares receiving data from the peer.
    pub fn receive(&self) -> (r: Result<(), String>)
        ensures
            match r {
                Ok(_) => self@.remote_addr is Some,
                Err(e) => self@.remote_addr is None && e@ == "Remote address unknown"@,
            },
    {
        match &self.remote_addr {
            Some(_) => Ok(()),
            None => Err(String::from_str("Remote address unknown")),
        }
    }

    /// Takes the outcome of receiving: puts the data at the start of `buf` and counts it.
    pub fn finish_receive(&mut self, buf: &mut [u8], outcome: ReceiveOutcome) -> (r: Result<
        usize,
        String,
    >)
        requires
            outcome matches ReceiveOutcome::Received(data) ==> {
                &&& data@.len() <= old(buf)@.len()
                &&& old(self)@.bytes_received + data@.len() <= u64::MAX
            },
        ensures
            old(self).well_formed() ==> final(self).well_formed(),
            match outcome {
                ReceiveOutcome::Received(data) => {
                    &&& r matches Ok(len) && len == data@.len()
                    &&& final(buf)@ == data@ + old(buf)@.skip(data@.len() as int)
                    &&& final(self)@ == (ConnectionView {
                        bytes_received: (old(self)@.bytes_received + data@.len()) as u64,
                        ..old(self)@
                    })
                },
                ReceiveOutcome::BindFailed(cause) => {
                    &&& r matches Err(e) && e@ == "Failed to bind socket: "@ + cause@
                    &&& final(buf)@ == old(buf)@
                    &&& final(self)@ == old(self)@
                },
                ReceiveOutcome::TimeoutNotSet(cause) => {
                    &&& r matches Err(e) && e@ == "Failed to set timeout: "@ + cause@
                    &&& final(buf)@ == old(buf)@
                    &&& final(self)@ == old(self)@
                },
                ReceiveOutcome::Failed(cause) => {
                    &&& r matches Err(e) && e@ == "Recv failed: "@ + cause@
                    &&& final(buf)@ == old(buf)@
                    &&& final(self)@ == old(self)@
                },
                ReceiveOutcome::TaskFailed(cause) => {
                    &&& r matches Err(e) && e@ == "Task join error: "@ + cause@
                    &&& final(buf)@ == old(buf)@
                    &&& final(self)@ == old(self)@
                },
            },
    {
        match outcome {
            ReceiveOutcome::Received(data) => {
                let len = data.len();
                let ghost before = buf@;
                let mut i: usize = 0;
                while i < len
                    invariant
                        0 <= i <= len,
                        len == data@.len(),
                        len <= before.len(),
                        buf@ == data@.take(i as int) + before.skip(i as int),
                    decreases len - i,
                {
                    buf[i] = data[i];
                    i = i + 1;
                    assert(buf@ =~= data@.take(i as int) + before.skip(i as int));
                }
                assert(data@.take(len as int) =~= data@);
                self.bytes_received = self.bytes_received + len as u64;
                Ok(len)
            },
            ReceiveOutcome::BindFailed(cause) => Err(
                String::from_str("Failed to bind socket: ").concat(cause.as_str()),
            ),
            ReceiveOutcome::TimeoutNotSet(cause) => Err(
                String::from_str("Failed to set timeout: ").concat(cause.as_str()),
            ),
            ReceiveOutcome::Failed(cause) => Err(
                String::from_str("Recv failed: ").concat(cause.as_str()),
            ),
            ReceiveOutcome::TaskFailed(cause) => Err(
                String::from_str("Task join error: ").concat(cause.as_str()),
            ),
        }
    }

    /// Starts an RTT measurement: the ping to send, or `None` when the connection is not up.
    pub fn measure_rtt(&self) -> (ping: Option<Datagram>)
        requires
            self.well_formed(),
        ensures
            match ping {
                Some(d) => {
                    &&& self@.state == ConnectionState::Connected
                    &&& self@.remote_addr == Some(d.to)
                    &&& d.payload@ == ascii_bytes("PING"@)
                },
                None => self@.state != ConnectionState::Connected,
            },
    {
        if !self.is_connected() {
            return None;
        }
        match self.send(ping_bytes().as_slice()) {
            Ok(d) => Some(d),
            Err(_) => None,
        }
    }

    /// Ends an RTT measurement: takes what was received in time, if anything, and the elapsed
    /// time in milliseconds.
    pub fn finish_rtt(&mut self, reply: Option<&[u8]>, elapsed_ms: u128) -> (rtt: Option<u64>)
        ensures
            old(self).well_formed() ==> final(self).well_formed(),
            if reply matches Some(data) && data@ == ascii_bytes("PONG"@) {
                &&& rtt == Some((elapsed_ms % 0x1_0000_0000_0000_0000) as u64)
                &&& final(self)@ == (ConnectionView { last_rtt_ms: rtt, ..old(self)@ })
            } else {
                &&& rtt is None
                &&& final(self)@ == old(self)@
            },
    {
        match reply {
            Some(data) => {
                if is_pong(data) {
                    let rtt: u64 = (elapsed_ms % 0x1_0000_0000_0000_0000) as u64;
                    self.last_rtt_ms = Some(rtt);
                    Some(rtt)
                } else {
                    None
                }
            },
            None => None,
        }
    }

    /// Prepares sending a keepalive.
    pub fn send_keepalive(&self) -> (r: Result<Datagram, String>)
        ensures
            match r {
                Ok(d) => self@.remote_addr == Some(d.to) && d.payload@ == ascii_bytes("PONG"@),
                Err(e) => self@.remote_addr is None && e@ == "Remote address unknown"@,
            },
    {
        self.send(pong_bytes().as_slice())
    }

    /// Number of bytes sent.
    pub fn bytes_sent(&self) -> (n: u64)
        ensures
            n == self@.bytes_sent,
    {
        self.bytes_sent
    }

    /// Number of bytes received.
    pub fn bytes_received(&self) -> (n: u64)
        ensures
            n == self@.bytes_received,
    {
        self.bytes_received
    }

    /// The last RTT measurement, in milliseconds.
    pub fn last_rtt(&self) -> (rtt: Option<u64>)
        ensures
            rtt == self@.last_rtt_ms,
    {
        self.last_rtt_ms
    }

    /// Closes the connection.
    pub fn close(&mut self)
        ensures
            final(self).well_formed(),
            final(self)@ == after_close(old(self)@),
    {
        self.state = ConnectionState::Closed;
        self.remote_addr = None;
    }

    /// Closes the connection before it is opened again; `resume` follows after the returned
    /// number of milliseconds.
    pub fn reconnect(&mut self) -> (delay_ms: u64)
        ensures
            final(self).well_formed(),
            final(self)@ == after_close(old(self)@),
            delay_ms == RECONNECT_DELAY_MS,
    {
        self.close();
        RECONNECT_DELAY_MS
    }

    /// Opens a connection again that `reconnect` has closed.
    pub fn resume(&mut self, candidates: &[ICECandidate]) -> (r: Result<ConnectAttempt, String>)
        ensures
            final(self).well_formed(),
            is_connect_start(old(self)@, candidates@, final(self)@, r),
    {
        self.state = ConnectionState::Reconnecting;
        self.connect(candidates)
    }
}

// ---- Builder ---------------------------------------------------------------

/// Builds a connection.
#[derive(Debug)]
pub struct P2PConnectionBuilder {
    peer_user_id: String,
    peer_device_id: String,
    timeout: Duration,
}

impl P2PConnectionBuilder {
    /// The peer's user id.
    pub closed spec fn user(&self) -> Seq<char> {
        self.peer_user_id@
    }

    /// The peer's device id.
    pub closed spec fn device(&self) -> Seq<char> {
        self.peer_device_id@
    }

    /// The timeout of the connection.
    pub closed spec fn timeout_value(&self) -> Duration {
        self.timeout
    }

    /// A builder for a connection to the given peer, with a timeout of ten seconds.
    pub fn new(peer_user_id: &str, peer_device_id: &str) -> (b: Self)
        ensures
            b.user() == peer_user_id@,
            b.device() == peer_device_id@,
            b.timeout_value() == duration_of_secs(10),
    {
        P2PConnectionBuilder {
            peer_user_id: String::from_str(peer_user_id),
            peer_device_id: String::from_str(peer_device_id),
            timeout: Duration::from_secs(10),
        }
    }

    /// Sets the timeout.
    pub fn timeout(self, timeout: Duration) -> (b: Self)
        ensures
            b.user() == self.user(),
            b.device() == self.device(),
            b.timeout_value() == timeout,
    {
        P2PConnectionBuilder {
            peer_user_id: self.peer_user_id,
            peer_device_id: self.peer_device_id,
            timeout,
        }
    }

    /// Builds the connection, which is not yet connected.
    pub fn build(self) -> (conn: P2PConnection)
        ensures
            conn.well_formed(),
            conn@.peer_user_id@ == self.user(),
            conn@.peer_device_id@ == self.device(),
            conn@.state == ConnectionState::Disconnected,
            conn@.remote_addr is None,
            conn@.timeout == self.timeout_value(),
            conn@.bytes_sent == 0,
            conn@.bytes_received == 0,
            conn@.last_rtt_ms is None,
    {
        P2PConnection::new(self.peer_user_id.as_str(), self.peer_device_id.as_str(), self.timeout)
    }
}

// ---- Whole runs ------------------------------------------------------------

/// A connection after the outcomes of several candidates; outcomes that come when the attempt
/// is over do not count.
pub open spec fn after_candidates(
    conn: ConnectionView,
    attempt: AttemptView,
    answered: Seq<bool>,
) -> ConnectionView
    decreases answered.len(),
{
    if answered.len() == 0 {
        conn
    } else {
        let (next_conn, next_attempt) = after_candidate(conn, attempt, answered[0]);
        match next_attempt {
            Some(a) => after_candidates(next_conn, a, answered.skip(1)),
            None => next_conn,
        }
    }
}

/// Position of the first `true`.
pub open spec fn first_true(bits: Seq<bool>) -> Option<int>
    decreases bits.len(),
{
    if bits.len() == 0 {
        None
    } else if bits[0] {
        Some(0)
    } else {
        match first_true(bits.skip(1)) {
            Some(i) => Some(i + 1),
            None => None,
        }
    }
}

proof fn lemma_connect_run(conn: ConnectionView, attempt: AttemptView, answered: Seq<bool>)
    requires
        answered.len() > 0,
        attempt.next + answered.len() == attempt.list.len(),
    ensures
        after_candidates(conn, attempt, answered) == match first_true(answered) {
            Some(k) => ConnectionView {
                state: ConnectionState::Connected,
                remote_addr: Some(attempt.list[attempt.next + k].address),
                ..conn
            },
            None => ConnectionView { state: ConnectionState::Failed, ..conn },
        },
    decreases answered.len(),
{
    if !answered[0] {
        if answered.len() > 1 {
            lemma_connect_run(
                conn,
                AttemptView { next: attempt.next + 1, ..attempt },
                answered.skip(1),
            );
        } else {
            assert(first_true(answered.skip(1)) is None);
        }
    }
}

/// A connection attempt that tries its whole list ends connected to the first candidate that
/// answers, and fails only when none does.
pub proof fn law_first_answer_connects(
    conn: ConnectionView,
    list: Seq<ICECandidate>,
    answered: Seq<bool>,
)
    requires
        list.len() > 0,
        answered.len() == list.len(),
    ensures
        after_candidates(conn, AttemptView { list, next: 0 }, answered) == match first_true(
            answered,
        ) {
            Some(k) => ConnectionView {
                state: ConnectionState::Connected,
                remote_addr: Some(list[k].address),
                ..conn
            },
            None => ConnectionView { state: ConnectionState::Failed, ..conn },
        },
{
    lemma_connect_run(conn, AttemptView { list, next: 0 }, answered);
}

/// While a connection is up, the address to send to is known: sending never fails for want of
/// one.
pub proof fn law_connected_peer_is_reachable(conn: P2PConnection)
    requires
        conn.well_formed(),
        conn@.state == ConnectionState::Connected,
    ensures
        conn@.remote_addr is Some,
{
}

} // verus!
