//! STUN client: asks a server for the public address that our packets come from.

use vstd::prelude::*;
use vstd::string::*;

use crate::clock::unix_nanos;
use crate::text::{clone_texts, decimal, decimal_text, hex_upper, hex_upper_text};

verus! {

/// How long a query waits for its answer, in seconds.
pub const STUN_TIMEOUT_SECS: u64 = 5;

/// Size of the buffer that an answer is received into.
pub const STUN_RESPONSE_MAX: usize = 512;

// ---- Requests --------------------------------------------------------------

/// The magic cookie, most significant byte first.
pub open spec fn magic_cookie() -> Seq<u8> {
    seq![0x21u8, 0x12u8, 0xA4u8, 0x42u8]
}

/// The transaction id made from a timestamp: its eight bytes, most significant first, and its
/// four low bytes, least significant first.
pub open spec fn transaction_id_of(timestamp: u64) -> Seq<u8> {
    seq![
        (timestamp / 0x100_0000_0000_0000) as u8,
        ((timestamp / 0x1_0000_0000_0000) % 256) as u8,
        ((timestamp / 0x100_0000_0000) % 256) as u8,
        ((timestamp / 0x1_0000_0000) % 256) as u8,
        ((timestamp / 0x100_0000) % 256) as u8,
        ((timestamp / 0x1_0000) % 256) as u8,
        ((timestamp / 0x100) % 256) as u8,
        (timestamp % 256) as u8,
        (timestamp % 256) as u8,
        ((timestamp / 0x100) % 256) as u8,
        ((timestamp / 0x1_0000) % 256) as u8,
        ((timestamp / 0x100_0000) % 256) as u8,
    ]
}

/// A binding request: type `0x0001`, no payload, magic cookie, transaction id.
pub open spec fn binding_request(transaction_id: Seq<u8>) -> Seq<u8> {
    seq![0x00u8, 0x01u8, 0x00u8, 0x00u8] + magic_cookie() + transaction_id
}

/// Requests made at different times carry different transaction ids.
pub proof fn law_transaction_ids_differ(t1: u64, t2: u64)
    requires
        t1 != t2,
    ensures
        transaction_id_of(t1) != transaction_id_of(t2),
{
    let a = transaction_id_of(t1);
    let b = transaction_id_of(t2);
    if a == b {
        assert(a[0] == b[0] && a[1] == b[1] && a[2] == b[2] && a[3] == b[3]);
        assert(a[4] == b[4] && a[5] == b[5] && a[6] == b[6] && a[7] == b[7]);
        lemma_timestamp_bytes(t1);
        lemma_timestamp_bytes(t2);
    }
}

/// A timestamp is the number that its eight bytes denote.
pub(crate) proof fn lemma_timestamp_bytes(t: u64)
    ensures
        ({
            let a = transaction_id_of(t);
            t == a[0] * 0x100_0000_0000_0000 + a[1] * 0x1_0000_0000_0000 + a[2] * 0x100_0000_0000
                + a[3] * 0x1_0000_0000 + a[4] * 0x100_0000 + a[5] * 0x1_0000 + a[6] * 0x100 + a[7]
        }),
{
    assert(t == (t / 0x100_0000_0000_0000) * 0x100_0000_0000_0000 + ((t / 0x1_0000_0000_0000) % 256)
        * 0x1_0000_0000_0000 + ((t / 0x100_0000_0000) % 256) * 0x100_0000_0000 + ((t
        / 0x1_0000_0000) % 256) * 0x1_0000_0000 + ((t / 0x100_0000) % 256) * 0x100_0000 + ((t
        / 0x1_0000) % 256) * 0x1_0000 + ((t / 0x100) % 256) * 0x100 + t % 256) by (bit_vector);
    assert(t / 0x100_0000_0000_0000 < 256) by (bit_vector);
}

// ---- Mapped addresses ------------------------------------------------------

/// The public address that a server saw.
#[allow(inconsistent_fields)]
#[derive(Debug, Clone, Copy)]
pub enum MappedAddress {
    V4 { ip: [u8; 4], port: u16 },
    V6 { ip: [u8; 16], port: u16 },
}

/// A mapped address as bytes and a port: four bytes for IPv4, sixteen for IPv6.
pub struct MappedView {
    pub ip: Seq<u8>,
    pub port: u16,
}

impl View for MappedAddress {
    type V = MappedView;

    open spec fn view(&self) -> MappedView {
        match *self {
            MappedAddress::V4 { ip, port } => MappedView { ip: ip@, port },
            MappedAddress::V6 { ip, port } => MappedView { ip: ip@, port },
        }
    }
}

impl MappedAddress {
    /// Whether this is the given address: four bytes for IPv4, sixteen for IPv6.
    pub open spec fn stands_for(self, address: MappedView) -> bool {
        &&& self@ == address
        &&& address.ip.len() == if self is V4 {
            4nat
        } else {
            16nat
        }
    }
}

/// The number that two bytes denote, most significant first.
pub open spec fn be_u16(b0: u8, b1: u8) -> u16 {
    (b0 * 256 + b1) as u16
}

/// The two bytes of `n`, most significant first.
pub open spec fn u16_be_bytes(n: u16) -> Seq<u8> {
    seq![(n / 256) as u8, (n % 256) as u8]
}

/// Why an address attribute cannot be read.
pub open spec fn mapped_fault(data: Seq<u8>) -> Option<Seq<char>> {
    if data.len() < 4 {
        Some("Mapped address too short"@)
    } else if data[1] == 0x01 {
        if data.len() < 8 {
            Some("IPv4 address too short"@)
        } else {
            None
        }
    } else if data[1] == 0x02 {
        if data.len() < 20 {
            Some("IPv6 address too short"@)
        } else {
            None
        }
    } else {
        Some("Unknown address family: 0x"@ + hex_upper(data[1] as nat, 2))
    }
}

/// The address that a readable attribute holds. In the XORed form the port and the first four
/// address bytes are masked with the magic cookie.
pub open spec fn mapped_of(data: Seq<u8>, xored: bool) -> MappedView {
    let n: nat = if data[1] == 0x01 {
        4
    } else {
        16
    };
    MappedView {
        ip: Seq::new(
            n,
            |i: int|
                if xored && i < 4 {
                    data[4 + i] ^ magic_cookie()[i]
                } else {
                    data[4 + i]
                },
        ),
        port: if xored {
            be_u16(data[2], data[3]) ^ 0x2112u16
        } else {
            be_u16(data[2], data[3])
        },
    }
}

/// The `ip:port` text of an IPv4 address.
pub open spec fn v4_text(ip: Seq<u8>, port: u16) -> Seq<char> {
    decimal(ip[0] as nat) + "."@ + decimal(ip[1] as nat) + "."@ + decimal(ip[2] as nat) + "."@
        + decimal(ip[3] as nat) + ":"@ + decimal(port as nat)
}

/// The `[ip]:port` text of an IPv6 address whose own text is `ip_text`.
pub open spec fn v6_text(ip_text: Seq<char>, port: u16) -> Seq<char> {
    "["@ + ip_text + "]:"@ + decimal(port as nat)
}

/// Formats an IPv4 address and port.
pub fn format_v4(ip: &[u8; 4], port: u16) -> (s: String)
    ensures
        s@ == v4_text(ip@, port),
{
    decimal_text(ip[0] as u64).concat(".").concat(decimal_text(ip[1] as u64).as_str()).concat(
        ".",
    ).concat(decimal_text(ip[2] as u64).as_str()).concat(".").concat(
        decimal_text(ip[3] as u64).as_str(),
    ).concat(":").concat(decimal_text(port as u64).as_str())
}

/// Formats an IPv6 address, given as text, and a port.
pub fn format_v6(ip_text: &str, port: u16) -> (s: String)
    ensures
        s@ == v6_text(ip_text@, port),
{
    String::from_str("[").concat(ip_text).concat("]:").concat(decimal_text(port as u64).as_str())
}

/// Reads two bytes as a number.
fn read_u16(data: &[u8], at: usize) -> (n: u16)
    requires
        at + 2 <= data@.len(),
    ensures
        n == be_u16(data@[at as int], data@[at + 1]),
{
    data[at] as u16 * 256 + data[at + 1] as u16
}

// ---- Responses -------------------------------------------------------------

/// Whether an attribute type announces an address: `XOR-MAPPED-ADDRESS` or `MAPPED-ADDRESS`.
pub open spec fn is_address_type(attr_type: u16) -> bool {
    attr_type == 0x0020 || attr_type == 0x0001
}

/// A length rounded up to a multiple of four.
pub open spec fn padded(len: int) -> int {
    (len + 3) / 4 * 4
}

/// The first address attribute between `offset` and `end`, as its type and value. Reading
/// stops where the data ends.
pub open spec fn first_address(data: Seq<u8>, offset: int, end: int) -> Option<(u16, Seq<u8>)>
    decreases
            (if offset < end {
                end - offset
            } else {
                0
            }),
{
    if offset < 0 || offset >= end || offset + 4 > data.len() {
        None
    } else {
        let attr_type = be_u16(data[offset], data[offset + 1]);
        let len = be_u16(data[offset + 2], data[offset + 3]) as int;
        if offset + 4 + len > data.len() {
            None
        } else if is_address_type(attr_type) {
            Some((attr_type, data.subrange(offset + 4, offset + 4 + len)))
        } else {
            first_address(data, offset + 4 + padded(len), end)
        }
    }
}

/// Number of bytes that follow a value of the given length up to a multiple of four.
fn padding_after(len: usize) -> (n: usize)
    ensures
        len + n == padded(len as int),
        n < 4,
{
    (4 - (len % 4)) % 4
}

/// Finds the first address attribute between `offset` and `end`.
fn find_address(data: &[u8], offset: usize, end: usize) -> (found: Option<(u16, &[u8])>)
    requires
        end <= 0x1_0000_0000,
    ensures
        match found {
            Some((attr_type, value)) => first_address(data@, offset as int, end as int) == Some(
                (attr_type, value@),
            ),
            None => first_address(data@, offset as int, end as int) is None,
        },
    decreases
            (if offset < end {
                end - offset
            } else {
                0
            }),
{
    let total = data.len();
    if offset >= end || offset >= total || total - offset < 4 {
        return None;
    }
    let attr_type = read_u16(data, offset);
    let attr_length = read_u16(data, offset + 2) as usize;
    let start = offset + 4;
    if attr_length > total - start {
        return None;
    }
    if attr_type == 0x0020 || attr_type == 0x0001 {
        return Some((attr_type, vstd::slice::slice_subrange(data, start, start + attr_length)));
    }
    let padding = padding_after(attr_length);
    if start >= end || attr_length + padding >= end - start {
        assert(first_address(data@, start + padded(attr_length as int), end as int) is None);
        return None;
    }
    find_address(data, start + attr_length + padding, end)
}

/// What a response says: the address that it reports, or why it is refused.
pub open spec fn response_result(data: Seq<u8>, transaction_id: Seq<u8>) -> Result<
    MappedView,
    Seq<char>,
> {
    if data.len() < 20 {
        Err("STUN response too short"@)
    } else if be_u16(data[0], data[1]) != 0x0101 {
        Err("Unexpected STUN message type: 0x"@ + hex_upper(be_u16(data[0], data[1]) as nat, 4))
    } else if data.subrange(8, 20) != transaction_id {
        Err("Transaction ID mismatch"@)
    } else {
        match first_address(data, 20, 20 + be_u16(data[2], data[3])) {
            None => Err("No mapped address found in STUN response"@),
            Some((attr_type, value)) => match mapped_fault(value) {
                Some(fault) => Err(fault),
                None => Ok(mapped_of(value, attr_type == 0x0020)),
            },
        }
    }
}

/// Whether an exec result is the one that a specification names.
pub open spec fn is_result(r: Result<MappedAddress, String>, spec: Result<MappedView, Seq<char>>) -> bool {
    match (r, spec) {
        (Ok(a), Ok(v)) => a.stands_for(v),
        (Err(e), Err(text)) => e@ == text,
        _ => false,
    }
}

// ---- The client ------------------------------------------------------------

/// What a client is waiting for.
#[derive(Debug, Clone, Copy, PartialEq, Eq, Structural)]
pub enum StunStep {
    /// The server's name or address is being resolved.
    ParseServer,
    /// The socket is being bound.
    Bind,
    /// The socket's timeout is being set.
    Configure,
    /// Nothing; the client can be queried.
    Ready,
    /// The request is being sent.
    Send,
    /// The timeout for the answer is being set.
    SetTimeout,
    /// The answer is awaited.
    Recv,
    /// Nothing; the client is of no more use.
    Failed,
}

/// What the driver reports.
pub enum StunEvent {
    /// The step succeeded.
    Done,
    /// These bytes were received.
    Received(Vec<u8>),
    /// The step failed, with this description.
    Failed(String),
}

/// What the driver does next.
pub enum StunAction {
    /// Bind a UDP socket to any free port.
    Bind,
    /// Set the socket's receive timeout to `STUN_TIMEOUT_SECS`.
    SetTimeout,
    /// Nothing: the client can be queried.
    Ready,
    /// Receive up to `STUN_RESPONSE_MAX` bytes.
    Recv,
    /// The query returned this.
    Return(Result<MappedAddress, String>),
    /// The client could not be set up, or the query could not be carried out.
    Fail(String),
}

/// A client of one STUN server.
#[derive(Debug)]
pub struct StunClient {
    server: String,
    step: StunStep,
    transaction_id: [u8; 12],
}

/// The error text of a failed step.
pub open spec fn stun_failure_text(step: StunStep, cause: Seq<char>) -> Seq<char> {
    match step {
        StunStep::ParseServer => "Invalid STUN server address: "@ + cause,
        StunStep::Bind => "Failed to bind UDP socket: "@ + cause,
        StunStep::Configure => "Failed to set socket timeout: "@ + cause,
        StunStep::Send => "Failed to send STUN request: "@ + cause,
        StunStep::SetTimeout => "Failed to set timeout: "@ + cause,
        _ => "STUN request timed out: "@ + cause,
    }
}

/// Whether an event can be the outcome of what a client is waiting for.
pub open spec fn stun_event_fits(step: StunStep, event: StunEvent) -> bool {
    match event {
        StunEvent::Done => step == StunStep::ParseServer || step == StunStep::Bind || step
            == StunStep::Configure || step == StunStep::Send || step == StunStep::SetTimeout,
        StunEvent::Received(_) => step == StunStep::Recv,
        StunEvent::Failed(_) => step != StunStep::Ready && step != StunStep::Failed,
    }
}

impl StunClient {
    /// The server that the client asks.
    pub closed spec fn server_text(&self) -> Seq<char> {
        self.server@
    }

    /// What the client is waiting for.
    pub closed spec fn at(&self) -> StunStep {
        self.step
    }

    /// The transaction id of the latest query.
    pub closed spec fn tid(&self) -> Seq<u8> {
        self.transaction_id@
    }

    /// A client of the given server. The driver first resolves the server's name or address.
    pub fn new(server: &str) -> (client: Self)
        ensures
            client.server_text() == server@,
            client.at() == StunStep::ParseServer,
    {
        StunClient {
            server: String::from_str(server),
            step: StunStep::ParseServer,
            transaction_id: [0, 0, 0, 0, 0, 0, 0, 0, 0, 0, 0, 0],
        }
    }

    /// The server that the client asks.
    pub fn server(&self) -> (s: &str)
        ensures
            s@ == self.server_text(),
    {
        self.server.as_str()
    }

    /// What the client is waiting for.
    pub fn step(&self) -> (step: StunStep)
        ensures
            step == self.at(),
    {
        self.step
    }

    /// Starts a query under a fresh transaction id: the request to send.
    pub fn query(&mut self) -> (request: Vec<u8>)
        requires
            old(self).at() == StunStep::Ready,
        ensures
            final(self).at() == StunStep::Send,
            final(self).server_text() == old(self).server_text(),
            exists|timestamp: u64|
                final(self).tid() == #[trigger] transaction_id_of(timestamp),
            request@ == binding_request(final(self).tid()),
    {
        self.query_at(unix_nanos())
    }

    /// Starts a query under the transaction id made from a clock reading in nanoseconds: the
    /// request to send.
    pub fn query_at(&mut self, nanos: u128) -> (request: Vec<u8>)
        requires
            old(self).at() == StunStep::Ready,
        ensures
            final(self).at() == StunStep::Send,
            final(self).server_text() == old(self).server_text(),
            final(self).tid() == transaction_id_of((nanos % 0x1_0000_0000_0000_0000) as u64),
            request@ == binding_request(final(self).tid()),
    {
        self.transaction_id = StunClient::transaction_id_at(nanos);
        self.step = StunStep::Send;
        StunClient::build_binding_request(&self.transaction_id)
    }

    /// Moves the client on: takes the outcome of the last action and says what to do next.
    pub fn on_event(&mut self, event: StunEvent) -> (action: StunAction)
        requires
            stun_event_fits(old(self).at(), event),
        ensures
            final(self).server_text() == old(self).server_text(),
            final(self).tid() == old(self).tid(),
            match event {
                StunEvent::Done => match old(self).at() {
                    StunStep::ParseServer => action is Bind && final(self).at() == StunStep::Bind,
                    StunStep::Bind => action is SetTimeout && final(self).at()
                        == StunStep::Configure,
                    StunStep::Configure => action is Ready && final(self).at() == StunStep::Ready,
                    StunStep::Send => action is SetTimeout && final(self).at()
                        == StunStep::SetTimeout,
                    _ => action is Recv && final(self).at() == StunStep::Recv,
                },
                StunEvent::Received(data) => {
                    &&& final(self).at() == StunStep::Ready
                    &&& action matches StunAction::Return(r) && is_result(
                        r,
                        response_result(data@, old(self).tid()),
                    )
                },
                StunEvent::Failed(cause) => {
                    &&& action matches StunAction::Fail(text) && text@ == stun_failure_text(
                        old(self).at(),
                        cause@,
                    )
                    &&& final(self).at() == match old(self).at() {
                        StunStep::ParseServer
                        | StunStep::Bind
                        | StunStep::Configure => StunStep::Failed,
                        _ => StunStep::Ready,
                    }
                },
            },
    {
        match event {
            StunEvent::Done => match self.step {
                StunStep::ParseServer => {
                    self.step = StunStep::Bind;
                    StunAction::Bind
                },
                StunStep::Bind => {
                    self.step = StunStep::Configure;
                    StunAction::SetTimeout
                },
                StunStep::Configure => {
                    self.step = StunStep::Ready;
                    StunAction::Ready
                },
                StunStep::Send => {
                    self.step = StunStep::SetTimeout;
                    StunAction::SetTimeout
                },
                _ => {
                    self.step = StunStep::Recv;
                    StunAction::Recv
                },
            },
            StunEvent::Received(data) => {
                self.step = StunStep::Ready;
                let tid = self.transaction_id;
                StunAction::Return(StunClient::parse_binding_response(data.as_slice(), &tid))
            },
            StunEvent::Failed(cause) => {
                let prefix = match self.step {
                    StunStep::ParseServer => "Invalid STUN server address: ",
                    StunStep::Bind => "Failed to bind UDP socket: ",
                    StunStep::Configure => "Failed to set socket timeout: ",
                    StunStep::Send => "Failed to send STUN request: ",
                    StunStep::SetTimeout => "Failed to set timeout: ",
                    _ => "STUN request timed out: ",
                };
                self.step = match self.step {
                    StunStep::ParseServer
                    | StunStep::Bind
                    | StunStep::Configure => StunStep::Failed,
                    _ => StunStep::Ready,
                };
                StunAction::Fail(String::from_str(prefix).concat(cause.as_str()))
            },
        }
    }

    /// The transaction id made from a clock reading in nanoseconds.
    pub fn transaction_id_at(nanos: u128) -> (id: [u8; 12])
        ensures
            id@ == transaction_id_of((nanos % 0x1_0000_0000_0000_0000) as u64),
    {
        let t: u64 = (nanos % 0x1_0000_0000_0000_0000) as u64;
        let id = [
            (t / 0x100_0000_0000_0000) as u8,
            ((t / 0x1_0000_0000_0000) % 256) as u8,
            ((t / 0x100_0000_0000) % 256) as u8,
            ((t / 0x1_0000_0000) % 256) as u8,
            ((t / 0x100_0000) % 256) as u8,
            ((t / 0x1_0000) % 256) as u8,
            ((t / 0x100) % 256) as u8,
            (t % 256) as u8,
            (t % 256) as u8,
            ((t / 0x100) % 256) as u8,
            ((t / 0x1_0000) % 256) as u8,
            ((t / 0x100_0000) % 256) as u8,
        ];
        assert(id@ =~= transaction_id_of(t));
        id
    }

    /// A transaction id made from the current time.
    pub fn generate_transaction_id() -> (id: [u8; 12])
        ensures
            exists|timestamp: u64| id@ == #[trigger] transaction_id_of(timestamp),
    {
        StunClient::transaction_id_at(unix_nanos())
    }

    /// Builds a binding request.
    pub fn build_binding_request(transaction_id: &[u8; 12]) -> (packet: Vec<u8>)
        ensures
            packet@ == binding_request(transaction_id@),
    {
        let mut packet: Vec<u8> = Vec::with_capacity(20);
        packet.push(0x00);
        packet.push(0x01);
        packet.push(0x00);
        packet.push(0x00);
        packet.push(0x21);
        packet.push(0x12);
        packet.push(0xA4);
        packet.push(0x42);
        let mut i: usize = 0;
        while i < 12
            invariant
                0 <= i <= 12,
                packet@ == binding_request(transaction_id@).take(8 + i),
            decreases 12 - i,
        {
            packet.push(transaction_id[i]);
            i = i + 1;
            assert(packet@ =~= binding_request(transaction_id@).take(8 + i));
        }
        assert(packet@ =~= binding_request(transaction_id@));
        packet
    }

    /// Reads a binding response: the address that it reports.
    pub fn parse_binding_response(response: &[u8], expected_tid: &[u8; 12]) -> (r: Result<
        MappedAddress,
        String,
    >)
        ensures
            is_result(r, response_result(response@, expected_tid@)),
    {
        if response.len() < 20 {
            return Err(String::from_str("STUN response too short"));
        }
        let msg_type = read_u16(response, 0);
        if msg_type != 0x0101 {
            return Err(
                String::from_str("Unexpected STUN message type: 0x").concat(
                    hex_upper_text(msg_type, 4).as_str(),
                ),
            );
        }
        let mut i: usize = 0;
        while i < 12
            invariant
                0 <= i <= 12,
                response@.len() >= 20,
                forall|j: int| 0 <= j < i ==> response@[8 + j] == expected_tid@[j],
                be_u16(response@[0], response@[1]) == 0x0101,
            decreases 12 - i,
        {
            if response[8 + i] != expected_tid[i] {
                assert(response@.subrange(8, 20)[i as int] != expected_tid@[i as int]);
                return Err(String::from_str("Transaction ID mismatch"));
            }
            i = i + 1;
        }
        assert(response@.subrange(8, 20) =~= expected_tid@);
        let end: usize = 20 + read_u16(response, 2) as usize;
        match find_address(response, 20, end) {
            Some((attr_type, value)) => StunClient::parse_mapped_address(
                value,
                attr_type == 0x0020,
            ),
            None => Err(String::from_str("No mapped address found in STUN response")),
        }
    }

    /// Reads an address attribute.
    pub fn parse_mapped_address(data: &[u8], is_xored: bool) -> (r: Result<MappedAddress, String>)
        ensures
            match r {
                Ok(a) => mapped_fault(data@) is None && a.stands_for(mapped_of(data@, is_xored)),
                Err(e) => mapped_fault(data@) == Some(e@),
            },
    {
        if data.len() < 4 {
            return Err(String::from_str("Mapped address too short"));
        }
        let family = data[1];
        let plain_port = read_u16(data, 2);
        let port = if is_xored {
            plain_port ^ 0x2112
        } else {
            plain_port
        };
        if family == 0x01 {
            if data.len() < 8 {
                return Err(String::from_str("IPv4 address too short"));
            }
            let mut ip = [data[4], data[5], data[6], data[7]];
            if is_xored {
                ip = [data[4] ^ 0x21, data[5] ^ 0x12, data[6] ^ 0xA4, data[7] ^ 0x42];
            }
            assert(ip@ =~= mapped_of(data@, is_xored).ip);
            Ok(MappedAddress::V4 { ip, port })
        } else if family == 0x02 {
            if data.len() < 20 {
                return Err(String::from_str("IPv6 address too short"));
            }
            let mut head = [data[4], data[5], data[6], data[7]];
            if is_xored {
                head = [data[4] ^ 0x21, data[5] ^ 0x12, data[6] ^ 0xA4, data[7] ^ 0x42];
            }
            let ip = [
                head[0],
                head[1],
                head[2],
                head[3],
                data[8],
                data[9],
                data[10],
                data[11],
                data[12],
                data[13],
                data[14],
                data[15],
                data[16],
                data[17],
                data[18],
                data[19],
            ];
            assert(ip@ =~= mapped_of(data@, is_xored).ip);
            Ok(MappedAddress::V6 { ip, port })
        } else {
            Err(
                String::from_str("Unknown address family: 0x").concat(
                    hex_upper_text(family as u16, 2).as_str(),
                ),
            )
        }
    }
}

// ---- What a response means -------------------------------------------------

/// The value of an address attribute, in the plain or in the XORed form.
pub open spec fn address_value(address: MappedView, xored: bool) -> Seq<u8> {
    let family: u8 = if address.ip.len() == 4 {
        1
    } else {
        2
    };
    let port = if xored {
        address.port ^ 0x2112u16
    } else {
        address.port
    };
    seq![0u8, family] + u16_be_bytes(port) + Seq::new(
        address.ip.len(),
        |i: int|
            if xored && i < 4 {
                address.ip[i] ^ magic_cookie()[i]
            } else {
                address.ip[i]
            },
    )
}

/// The bytes of one attribute: type, length, value, and zeros up to a multiple of four.
pub open spec fn attribute_bytes(attr: (u16, Seq<u8>)) -> Seq<u8> {
    u16_be_bytes(attr.0) + u16_be_bytes(attr.1.len() as u16) + attr.1 + Seq::new(
        (padded(attr.1.len() as int) - attr.1.len()) as nat,
        |i: int| 0u8,
    )
}

/// The bytes of several attributes.
pub open spec fn attributes_bytes(attrs: Seq<(u16, Seq<u8>)>) -> Seq<u8>
    decreases attrs.len(),
{
    if attrs.len() == 0 {
        Seq::empty()
    } else {
        attribute_bytes(attrs[0]) + attributes_bytes(attrs.skip(1))
    }
}

/// A success response with the given attributes.
pub open spec fn binding_response(transaction_id: Seq<u8>, attrs: Seq<(u16, Seq<u8>)>) -> Seq<u8> {
    seq![0x01u8, 0x01u8] + u16_be_bytes(attributes_bytes(attrs).len() as u16) + magic_cookie()
        + transaction_id + attributes_bytes(attrs)
}

/// The first address attribute of several.
pub open spec fn first_address_of(attrs: Seq<(u16, Seq<u8>)>) -> Option<(u16, Seq<u8>)>
    decreases attrs.len(),
{
    if attrs.len() == 0 {
        None
    } else if is_address_type(attrs[0].0) {
        Some(attrs[0])
    } else {
        first_address_of(attrs.skip(1))
    }
}

/// Whether every value fits the length field.
pub open spec fn values_fit(attrs: Seq<(u16, Seq<u8>)>) -> bool {
    forall|i: int| 0 <= i < attrs.len() ==> (#[trigger] attrs[i]).1.len() < 65536
}

proof fn lemma_u16_bytes(n: u16)
    ensures
        u16_be_bytes(n).len() == 2,
        be_u16(u16_be_bytes(n)[0], u16_be_bytes(n)[1]) == n,
{
}

/// Reading the value of an address attribute gives the address back, in either form.
pub proof fn law_address_roundtrip(address: MappedView, xored: bool)
    requires
        address.ip.len() == 4 || address.ip.len() == 16,
    ensures
        mapped_fault(address_value(address, xored)) is None,
        mapped_of(address_value(address, xored), xored) == address,
{
    let port = if xored {
        address.port ^ 0x2112u16
    } else {
        address.port
    };
    let value = address_value(address, xored);
    let got = mapped_of(value, xored);
    lemma_u16_bytes(port);
    assert(value[1] == if address.ip.len() == 4 {
        1u8
    } else {
        2u8
    });
    assert(value[2] == u16_be_bytes(port)[0] && value[3] == u16_be_bytes(port)[1]);
    let p = address.port;
    assert((p ^ 0x2112u16) ^ 0x2112u16 == p) by (bit_vector);
    assert(got.port == address.port);
    assert forall|i: int| 0 <= i < address.ip.len() implies got.ip[i] == address.ip[i] by {
        let b = address.ip[i];
        if xored && i < 4 {
            let m = magic_cookie()[i];
            assert((b ^ m) ^ m == b) by (bit_vector);
            assert(value[4 + i] == b ^ m);
        } else {
            assert(value[4 + i] == b);
        }
    }
    assert(got.ip =~= address.ip);
}

proof fn lemma_first_address(pre: Seq<u8>, attrs: Seq<(u16, Seq<u8>)>)
    requires
        values_fit(attrs),
    ensures
        first_address(
            pre + attributes_bytes(attrs),
            pre.len() as int,
            (pre.len() + attributes_bytes(attrs).len()) as int,
        ) == first_address_of(attrs),
    decreases attrs.len(),
{
    let bytes = attributes_bytes(attrs);
    let data = pre + bytes;
    let at = pre.len() as int;
    if attrs.len() > 0 {
        let (t, v) = attrs[0];
        let len = v.len() as int;
        let head = attribute_bytes(attrs[0]);
        let rest = attributes_bytes(attrs.skip(1));
        assert(bytes == head + rest);
        assert(attrs[0].1.len() < 65536);
        lemma_u16_bytes(t);
        lemma_u16_bytes(len as u16);
        assert(head.len() == 4 + padded(len));
        assert(data[at] == head[0] && data[at + 1] == head[1]);
        assert(data[at + 2] == head[2] && data[at + 3] == head[3]);
        assert(head[0] == u16_be_bytes(t)[0] && head[1] == u16_be_bytes(t)[1]);
        assert(head[2] == u16_be_bytes(len as u16)[0] && head[3] == u16_be_bytes(len as u16)[1]);
        assert(be_u16(data[at + 2], data[at + 3]) == len);
        assert(data.subrange(at + 4, at + 4 + len) =~= v);
        if !is_address_type(t) {
            let pre2 = pre + head;
            assert(data =~= pre2 + rest);
            assert forall|i: int| 0 <= i < attrs.skip(1).len() implies (#[trigger] attrs.skip(
                1,
            )[i]).1.len() < 65536 by {
                assert(attrs.skip(1)[i] == attrs[i + 1]);
            }
            lemma_first_address(pre2, attrs.skip(1));
            assert(pre2.len() == at + 4 + padded(len));
        }
    }
}

proof fn lemma_first_of_prefix(before: Seq<(u16, Seq<u8>)>, rest: Seq<(u16, Seq<u8>)>)
    requires
        forall|i: int| 0 <= i < before.len() ==> !is_address_type((#[trigger] before[i]).0),
    ensures
        first_address_of(before + rest) == first_address_of(rest),
    decreases before.len(),
{
    if before.len() == 0 {
        assert(before + rest =~= rest);
    } else {
        assert((before + rest)[0] == before[0]);
        assert((before + rest).skip(1) =~= before.skip(1) + rest);
        assert forall|i: int| 0 <= i < before.skip(1).len() implies !is_address_type(
            (#[trigger] before.skip(1)[i]).0,
        ) by {
            assert(before.skip(1)[i] == before[i + 1]);
        }
        lemma_first_of_prefix(before.skip(1), rest);
    }
}

/// A success response to our request reports the address in its first address attribute, in
/// either form, whatever other attributes come before it and whatever comes after it.
pub proof fn law_response_reports_address(
    transaction_id: Seq<u8>,
    before: Seq<(u16, Seq<u8>)>,
    address: MappedView,
    xored: bool,
    after: Seq<(u16, Seq<u8>)>,
)
    requires
        transaction_id.len() == 12,
        address.ip.len() == 4 || address.ip.len() == 16,
        forall|i: int| 0 <= i < before.len() ==> !is_address_type((#[trigger] before[i]).0),
        values_fit(before),
        values_fit(after),
        attributes_bytes(
            before + seq![
                (
                    if xored {
                        0x0020u16
                    } else {
                        0x0001u16
                    },
                    address_value(address, xored),
                ),
            ] + after,
        ).len() < 65536,
    ensures
        response_result(
            binding_response(
                transaction_id,
                before + seq![
                    (
                        if xored {
                            0x0020u16
                        } else {
                            0x0001u16
                        },
                        address_value(address, xored),
                    ),
                ] + after,
            ),
            transaction_id,
        ) == Ok::<MappedView, Seq<char>>(address),
{
    let t: u16 = if xored {
        0x0020
    } else {
        0x0001
    };
    let middle = seq![(t, address_value(address, xored))];
    let attrs = before + middle + after;
    let data = binding_response(transaction_id, attrs);
    let n = attributes_bytes(attrs).len();
    lemma_u16_bytes(n as u16);
    assert(data[0] == 0x01 && data[1] == 0x01);
    assert(data[2] == u16_be_bytes(n as u16)[0] && data[3] == u16_be_bytes(n as u16)[1]);
    assert(data.subrange(8, 20) =~= transaction_id);
    let pre = data.take(20);
    assert(data =~= pre + attributes_bytes(attrs));
    assert forall|i: int| 0 <= i < attrs.len() implies (#[trigger] attrs[i]).1.len() < 65536 by {
        if i < before.len() {
            assert(attrs[i] == before[i]);
        } else if i > before.len() {
            assert(attrs[i] == after[i - before.len() - 1]);
        }
    }
    lemma_first_address(pre, attrs);
    assert(attrs =~= before + (middle + after));
    lemma_first_of_prefix(before, middle + after);
    assert((middle + after)[0] == middle[0]);
    law_address_roundtrip(address, xored);
}

/// A success response to a request made at one time is refused as the answer to a request made
/// at another.
pub proof fn law_foreign_response_is_refused(t1: u64, t2: u64, attrs: Seq<(u16, Seq<u8>)>)
    requires
        t1 != t2,
    ensures
        response_result(binding_response(transaction_id_of(t1), attrs), transaction_id_of(t2))
            == Err::<MappedView, Seq<char>>("Transaction ID mismatch"@),
{
    let data = binding_response(transaction_id_of(t1), attrs);
    assert(data[0] == 0x01 && data[1] == 0x01);
    assert(data.subrange(8, 20) =~= transaction_id_of(t1));
    law_transaction_ids_differ(t1, t2);
}

// ---- Asking several servers ------------------------------------------------

/// A scan over several servers that ends with the first answer.
#[derive(Debug)]
pub struct StunScan {
    servers: Vec<String>,
    next: usize,
    found: Option<String>,
}

/// The state of a scan as the contracts see it.
pub struct ScanView {
    pub servers: Seq<String>,
    /// How many servers were asked.
    pub asked: nat,
    pub found: Option<String>,
}

impl ScanView {
    /// Whether a server is left to ask.
    pub open spec fn is_open(self) -> bool {
        self.found is None && self.asked < self.servers.len()
    }

    /// The scan after one more reply.
    pub open spec fn after(self, reply: Result<String, String>) -> ScanView {
        ScanView {
            asked: self.asked + 1,
            found: match reply {
                Ok(address) => Some(address),
                Err(_) => None,
            },
            ..self
        }
    }
}

impl View for StunScan {
    type V = ScanView;

    closed spec fn view(&self) -> ScanView {
        ScanView { servers: self.servers@, asked: self.next as nat, found: self.found }
    }
}

impl StunScan {
    /// Whether no more servers were asked than there are.
    pub open spec fn well_formed(&self) -> bool {
        self@.asked <= self@.servers.len()
    }

    /// The server to ask next; `None` when the scan is over.
    pub fn next_server(&self) -> (server: Option<&String>)
        requires
            self.well_formed(),
        ensures
            match server {
                Some(s) => self@.is_open() && *s == self@.servers[self@.asked as int],
                None => !self@.is_open(),
            },
    {
        match self.found {
            Some(_) => None,
            None => {
                if self.next < self.servers.len() {
                    Some(&self.servers[self.next])
                } else {
                    None
                }
            },
        }
    }

    /// Takes the reply of the server that was asked.
    pub fn on_reply(&mut self, reply: Result<String, String>)
        requires
            old(self).well_formed(),
            old(self)@.is_open(),
        ensures
            final(self).well_formed(),
            final(self)@ == old(self)@.after(reply),
    {
        assert(self.next < self.servers.len());
        self.next = self.next + 1;
        match reply {
            Ok(address) => {
                self.found = Some(address);
            },
            Err(_) => {},
        }
    }

    /// The address that was found.
    pub fn into_result(self) -> (found: Option<String>)
        ensures
            found == self@.found,
    {
        self.found
    }
}

/// Starts asking STUN servers, one after the other, for the first address that one reports.
pub fn query_stun_servers(servers: &[String]) -> (scan: StunScan)
    ensures
        scan.well_formed(),
        scan@ == (ScanView { servers: servers@, asked: 0, found: None }),
{
    StunScan { servers: clone_texts(servers), next: 0, found: None }
}

/// A scan after several replies; replies that come when it is over do not count.
pub open spec fn scan_after(scan: ScanView, replies: Seq<Result<String, String>>) -> ScanView
    decreases replies.len(),
{
    if replies.len() == 0 || !scan.is_open() {
        scan
    } else {
        scan_after(scan.after(replies[0]), replies.skip(1))
    }
}

/// The address in the first successful reply.
pub open spec fn first_success(replies: Seq<Result<String, String>>) -> Option<String>
    decreases replies.len(),
{
    if replies.len() == 0 {
        None
    } else {
        match replies[0] {
            Ok(address) => Some(address),
            Err(_) => first_success(replies.skip(1)),
        }
    }
}

proof fn lemma_scan(scan: ScanView, replies: Seq<Result<String, String>>)
    requires
        scan.found is None,
        scan.asked + replies.len() == scan.servers.len(),
    ensures
        scan_after(scan, replies).found == first_success(replies),
        !scan_after(scan, replies).is_open(),
    decreases replies.len(),
{
    if replies.len() > 0 {
        match replies[0] {
            Ok(_) => {
                let s = scan.after(replies[0]);
                assert(!s.is_open());
                assert(scan_after(s, replies.skip(1)) == s);
            },
            Err(_) => {
                lemma_scan(scan.after(replies[0]), replies.skip(1));
            },
        }
    }
}

/// Asking a list of servers finds the address that the first server to answer reports, and
/// finds nothing only when every server fails.
pub proof fn law_scan_finds_first_success(
    servers: Seq<String>,
    replies: Seq<Result<String, String>>,
)
    requires
        replies.len() == servers.len(),
    ensures
        scan_after(ScanView { servers, asked: 0, found: None }, replies).found == first_success(
            replies,
        ),
        !scan_after(ScanView { servers, asked: 0, found: None }, replies).is_open(),
{
    lemma_scan(ScanView { servers, asked: 0, found: None }, replies);
}

} // verus!
