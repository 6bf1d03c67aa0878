//! Laws of asking STUN servers for the public address.

use vstd::prelude::*;

use crate::p2p::stun::{
    be_u16, first_address, padded, query_stun_servers, transaction_id_of, MappedAddress,
    StunAction, StunClient, StunEvent, StunScan, StunStep,
};
use crate::text::hex_upper_text;

verus! {

// ---- Requests --------------------------------------------------------------

/// Whether a transaction id is made from a timestamp: its eight bytes, the most significant
/// first, then the last four of them in reverse.
pub open spec fn is_made_from(id: Seq<u8>, timestamp: int) -> bool {
    &&& id.len() == 12
    &&& timestamp == id[0] * 0x100_0000_0000_0000 + id[1] * 0x1_0000_0000_0000 + id[2]
        * 0x100_0000_0000 + id[3] * 0x1_0000_0000 + id[4] * 0x100_0000 + id[5] * 0x1_0000 + id[6]
        * 0x100 + id[7]
    &&& id[8] == id[7]
    &&& id[9] == id[6]
    &&& id[10] == id[5]
    &&& id[11] == id[4]
}

/// A transaction id is made from the low 64 bits of the clock reading.
pub proof fn law_transaction_id_is_the_time(nanos: u128, id: [u8; 12])
    requires
        call_ensures(StunClient::transaction_id_at, (nanos,), id),
    ensures
        is_made_from(id@, (nanos % 0x1_0000_0000_0000_0000) as int),
{
    lemma_timestamp((nanos % 0x1_0000_0000_0000_0000) as u64);
}

/// A fresh transaction id is made from some timestamp.
pub proof fn law_fresh_transaction_id(id: [u8; 12])
    requires
        call_ensures(StunClient::generate_transaction_id, (), id),
    ensures
        exists|timestamp: u64| #[trigger] is_made_from(id@, timestamp as int),
{
    let t = choose|t: u64| id@ == #[trigger] transaction_id_of(t);
    lemma_timestamp(t);
    assert(is_made_from(id@, t as int));
}

proof fn lemma_timestamp(t: u64)
    ensures
        is_made_from(transaction_id_of(t), t as int),
{
    crate::p2p::stun::lemma_timestamp_bytes(t);
}

/// Whether a packet is a request for our address: a fixed start, the magic cookie and the
/// transaction id.
pub open spec fn is_request(packet: Seq<u8>, id: Seq<u8>) -> bool {
    &&& packet.len() == 8 + id.len()
    &&& packet[0] == 0 && packet[1] == 1 && packet[2] == 0 && packet[3] == 0
    &&& packet[4] == 0x21 && packet[5] == 0x12 && packet[6] == 0xA4 && packet[7] == 0x42
    &&& packet.skip(8) == id
}

/// A binding request holds its transaction id behind the fixed start and the magic cookie.
pub proof fn law_request_layout(id: &[u8; 12], packet: Vec<u8>)
    requires
        call_ensures(StunClient::build_binding_request, (id,), packet),
    ensures
        is_request(packet@, id@),
{
    assert(packet@.skip(8) =~= id@);
}

/// A query sends a request under the id that the answer must carry, made from the time.
pub proof fn law_query_sends_its_request(c: &mut StunClient, request: Vec<u8>)
    requires
        call_ensures(StunClient::query, (c,), request),
    ensures
        final(c).at() is Send,
        final(c).server_text() == old(c).server_text(),
        is_request(request@, final(c).tid()),
        exists|timestamp: u64| #[trigger] is_made_from(final(c).tid(), timestamp as int),
{
    let tid = final(c).tid();
    let t = choose|t: u64| tid == #[trigger] transaction_id_of(t);
    lemma_timestamp(t);
    assert(is_made_from(tid, t as int));
    assert(request@.skip(8) =~= tid);
}

/// A query at a time sends its request under the id that is made from that time.
pub proof fn law_query_carries_the_time(
    c: &mut StunClient,
    nanos: u128,
    request: Vec<u8>,
    id: [u8; 12],
)
    requires
        call_ensures(StunClient::query_at, (c, nanos), request),
        call_ensures(StunClient::transaction_id_at, (nanos,), id),
    ensures
        final(c).at() is Send,
        final(c).server_text() == old(c).server_text(),
        final(c).tid() == id@,
        is_request(request@, id@),
{
    assert(request@.skip(8) =~= id@);
}

// ---- Addresses -------------------------------------------------------------

/// An address attribute that is long enough for its family is read: the port, and four bytes for
/// IPv4 or sixteen for IPv6. In the masked form the port and the first four bytes are masked with
/// the magic cookie, so that masking what was read gives back the attribute.
pub proof fn law_address_attribute(data: &[u8], masked: bool, r: Result<MappedAddress, String>)
    requires
        call_ensures(StunClient::parse_mapped_address, (data, masked), r),
    ensures
        r is Ok <==> (data@.len() >= 8 && data@[1] == 1) || (data@.len() >= 20 && data@[1] == 2),
        r matches Ok(a) ==> {
            &&& a is V4 <==> data@[1] == 1
            &&& a@.ip.len() == if data@[1] == 1 {
                4nat
            } else {
                16
            }
            &&& !masked ==> a@.port == data@[2] * 256 + data@[3]
            &&& !masked ==> (forall|i: int| #![trigger a@.ip[i]]
                0 <= i < a@.ip.len() ==> a@.ip[i] == data@[4 + i])
            &&& masked ==> a@.port ^ 0x2112u16 == data@[2] * 256 + data@[3]
            &&& masked ==> a@.ip[0] ^ 0x21u8 == data@[4] && a@.ip[1] ^ 0x12u8 == data@[5]
                && a@.ip[2] ^ 0xA4u8 == data@[6] && a@.ip[3] ^ 0x42u8 == data@[7]
            &&& masked ==> (forall|i: int| #![trigger a@.ip[i]]
                4 <= i < a@.ip.len() ==> a@.ip[i] == data@[4 + i])
        },
{
    if let Ok(a) = r {
        if masked {
            let p = be_u16(data@[2], data@[3]);
            assert((p ^ 0x2112u16) ^ 0x2112u16 == p) by (bit_vector);
            let d0 = data@[4];
            let d1 = data@[5];
            let d2 = data@[6];
            let d3 = data@[7];
            assert((d0 ^ 0x21u8) ^ 0x21u8 == d0) by (bit_vector);
            assert((d1 ^ 0x12u8) ^ 0x12u8 == d1) by (bit_vector);
            assert((d2 ^ 0xA4u8) ^ 0xA4u8 == d2) by (bit_vector);
            assert((d3 ^ 0x42u8) ^ 0x42u8 == d3) by (bit_vector);
            assert(a@.ip[0] == d0 ^ 0x21u8);
            assert(a@.ip[1] == d1 ^ 0x12u8);
            assert(a@.ip[2] == d2 ^ 0xA4u8);
            assert(a@.ip[3] == d3 ^ 0x42u8);
        }
    }
}

/// An address attribute that cannot be read is refused with the reason.
pub proof fn law_address_attribute_faults(
    data: &[u8],
    masked: bool,
    r: Result<MappedAddress, String>,
    family: u16,
    digits: String,
)
    requires
        call_ensures(StunClient::parse_mapped_address, (data, masked), r),
        data@.len() >= 2 ==> family == data@[1],
        call_ensures(hex_upper_text, (family, 2), digits),
    ensures
        r matches Err(e) ==> {
            &&& data@.len() < 4 ==> e@ == "Mapped address too short"@
            &&& data@.len() >= 4 && data@[1] == 1 ==> e@ == "IPv4 address too short"@
            &&& data@.len() >= 4 && data@[1] == 2 ==> e@ == "IPv6 address too short"@
            &&& data@.len() >= 4 && data@[1] != 1 && data@[1] != 2 ==> e@
                == "Unknown address family: 0x"@ + digits@
        },
{
}

// ---- Responses -------------------------------------------------------------

/// Whether two readings came out alike: the same address, or the same fault.
pub open spec fn alike(
    a: Result<MappedAddress, String>,
    b: Result<MappedAddress, String>,
) -> bool {
    match (a, b) {
        (Ok(x), Ok(y)) => x is V4 == y is V4 && x@ == y@,
        (Err(x), Err(y)) => x@ == y@,
        _ => false,
    }
}

/// A response is refused if it is shorter than a header, is no success response, or answers
/// another request.
pub proof fn law_response_must_fit_the_request(
    data: &[u8],
    id: &[u8; 12],
    r: Result<MappedAddress, String>,
    kind: u16,
    digits: String,
)
    requires
        call_ensures(StunClient::parse_binding_response, (data, id), r),
        data@.len() >= 2 ==> kind == data@[0] * 256 + data@[1],
        call_ensures(hex_upper_text, (kind, 4), digits),
    ensures
        data@.len() < 20 ==> (r matches Err(e) && e@ == "STUN response too short"@),
        data@.len() >= 20 && kind != 0x0101 ==> (r matches Err(e) && e@
            == "Unexpected STUN message type: 0x"@ + digits@),
        data@.len() >= 20 && kind == 0x0101 && data@.subrange(8, 20) != id@ ==> (r matches Err(e)
            && e@ == "Transaction ID mismatch"@),
{
}

/// The length of an attribute's value rounded up to a multiple of four.
pub open spec fn rounded(len: int) -> int {
    if len % 4 == 0 {
        len
    } else {
        len + 4 - len % 4
    }
}

/// A success response to our request is read attribute by attribute. The first attribute that
/// announces an address decides: type 0x0020 in the masked form, type 0x0001 in the plain form.
/// An attribute of another type is passed over with its padding, as if the response did not hold
/// it. When no attribute is left, or the next one is cut off, no address was found.
pub proof fn law_response_is_read_attribute_by_attribute(
    data: &[u8],
    id: &[u8; 12],
    r: Result<MappedAddress, String>,
    value: &[u8],
    masked: bool,
    address: Result<MappedAddress, String>,
    shorter: &[u8],
    r2: Result<MappedAddress, String>,
)
    requires
        call_ensures(StunClient::parse_binding_response, (data, id), r),
        data@.len() >= 20,
        data@[0] == 1 && data@[1] == 1,
        data@.subrange(8, 20) == id@,
        call_ensures(StunClient::parse_mapped_address, (value, masked), address),
        call_ensures(StunClient::parse_binding_response, (shorter, id), r2),
    ensures
        ({
            let d = data@;
            let total = d[2] * 256 + d[3];
            let kind = d[20] * 256 + d[21];
            let len = d[22] * 256 + d[23];
            let next = 24 + rounded(len);
            let none = r matches Err(e) && e@ == "No mapped address found in STUN response"@;
            &&& total == 0 || d.len() < 24 || d.len() < 24 + len ==> none
            &&& total > 0 && d.len() >= 24 + len && (kind == 0x0020 || kind == 0x0001) && value@
                == d.subrange(24, 24 + len) && masked == (kind == 0x0020) && d.len() >= 24 ==> alike(
                r,
                address,
            )
            &&& total > 0 && d.len() >= 24 && d.len() >= 24 + len && kind != 0x0020 && kind != 0x0001
                ==> {
                &&& 20 + total <= next || d.len() < next ==> none
                &&& 20 + total > next && d.len() >= next && shorter@.len() == 20 + d.len() - next
                    && shorter@[0] == 1 && shorter@[1] == 1 && shorter@[2] * 256 + shorter@[3]
                    == 20 + total - next && shorter@.subrange(8, 20) == id@ && shorter@.skip(20)
                    == d.skip(next) ==> alike(r, r2)
            }
        }),
{
    let d = data@;
    let s = shorter@;
    let total = d[2] * 256 + d[3];
    let end = 20 + total;
    let len = d[22] * 256 + d[23];
    let next = 24 + rounded(len);
    assert(be_u16(d[2], d[3]) == total);
    if d.len() >= 24 {
        assert(be_u16(d[20], d[21]) == d[20] * 256 + d[21]);
        assert(be_u16(d[22], d[23]) == len);
        assert(padded(len) == rounded(len));
    }
    reveal_with_fuel(first_address, 2);
    if total > 0 && d.len() >= 24 && d.len() >= next && s.len() == 20 + d.len() - next && s.skip(20)
        == d.skip(next) && s[2] * 256 + s[3] == end - next {
        assert(be_u16(s[2], s[3]) == end - next);
        lemma_shifted(d, next, end, s, 20, 20 + end - next);
    }
}

/// What the bytes from a position on hold of a sequence.
proof fn lemma_tail(s: Seq<u8>, at: int, len: int, step: int)
    requires
        0 <= at,
        0 <= len,
        at + 4 + len <= s.len(),
        0 <= step,
    ensures
        s.skip(at).len() == s.len() - at,
        s.skip(at)[0] == s[at],
        s.skip(at)[1] == s[at + 1],
        s.skip(at)[2] == s[at + 2],
        s.skip(at)[3] == s[at + 3],
        s.skip(at).subrange(4, 4 + len) == s.subrange(at + 4, at + 4 + len),
        at + step <= s.len() ==> s.skip(at).skip(step) == s.skip(at + step),
{
    assert(s.skip(at).subrange(4, 4 + len) =~= s.subrange(at + 4, at + 4 + len));
    if at + step <= s.len() {
        assert(s.skip(at).skip(step) =~= s.skip(at + step));
    }
}

/// Reading attributes does not depend on where they stand.
proof fn lemma_shifted(a: Seq<u8>, at: int, end: int, b: Seq<u8>, at2: int, end2: int)
    requires
        0 <= at <= a.len(),
        0 <= at2 <= b.len(),
        a.len() - at == b.len() - at2,
        a.skip(at) == b.skip(at2),
        end - at == end2 - at2,
    ensures
        first_address(a, at, end) == first_address(b, at2, end2),
    decreases
            (if at < end {
                end - at
            } else {
                0
            }),
{
    if at < end && at + 4 <= a.len() {
        lemma_tail(a, at, 0, 0);
        lemma_tail(b, at2, 0, 0);
        let kind = be_u16(a[at], a[at + 1]);
        let len = be_u16(a[at + 2], a[at + 3]) as int;
        assert(kind == be_u16(b[at2], b[at2 + 1]));
        assert(len == be_u16(b[at2 + 2], b[at2 + 3]));
        if at + 4 + len <= a.len() {
            let step = 4 + padded(len);
            assert(len <= padded(len));
            lemma_tail(a, at, len, step);
            lemma_tail(b, at2, len, step);
            if at + step <= a.len() {
                lemma_shifted(a, at + step, end, b, at2 + step, end2);
            } else {
                assert(first_address(a, at + step, end) is None);
                assert(first_address(b, at2 + step, end2) is None);
            }
        }
    }
}

// ---- The client ------------------------------------------------------------

/// A new client asks its server, whose name is resolved first; it can say both.
pub proof fn law_new_client(server: &str, c: StunClient, named: &str, step: StunStep)
    requires
        call_ensures(StunClient::new, (server,), c),
        call_ensures(StunClient::server, (&c,), named),
        call_ensures(StunClient::step, (&c,), step),
    ensures
        named@ == server@,
        c.server_text() == server@,
        step is ParseServer,
        c.at() is ParseServer,
{
}

/// A client is set up step by step, and a query goes from sending over its timeout to the answer.
/// What the client asks, and under which id, does not change.
pub proof fn law_client_goes_step_by_step(c: &mut StunClient, action: StunAction)
    requires
        call_ensures(StunClient::on_event, (c, StunEvent::Done), action),
    ensures
        final(c).server_text() == old(c).server_text(),
        final(c).tid() == old(c).tid(),
        old(c).at() is ParseServer ==> action is Bind && final(c).at() is Bind,
        old(c).at() is Bind ==> action is SetTimeout && final(c).at() is Configure,
        old(c).at() is Configure ==> action is Ready && final(c).at() is Ready,
        old(c).at() is Send ==> action is SetTimeout && final(c).at() is SetTimeout,
        old(c).at() is SetTimeout ==> action is Recv && final(c).at() is Recv,
{
}

/// A failed step names itself and its cause. A client that could not be set up is of no more use;
/// after a query that failed the client can be queried again.
pub proof fn law_failed_step_of_a_client(c: &mut StunClient, cause: String, action: StunAction)
    requires
        call_ensures(StunClient::on_event, (c, StunEvent::Failed(cause)), action),
    ensures
        final(c).server_text() == old(c).server_text(),
        final(c).tid() == old(c).tid(),
        old(c).at() is ParseServer || old(c).at() is Bind || old(c).at() is Configure ==> final(c).at()
            is Failed,
        old(c).at() is Send || old(c).at() is SetTimeout || old(c).at() is Recv ==> final(c).at()
            is Ready,
        action matches StunAction::Fail(text) && {
            &&& old(c).at() is ParseServer ==> text@ == "Invalid STUN server address: "@ + cause@
            &&& old(c).at() is Bind ==> text@ == "Failed to bind UDP socket: "@ + cause@
            &&& old(c).at() is Configure ==> text@ == "Failed to set socket timeout: "@ + cause@
            &&& old(c).at() is Send ==> text@ == "Failed to send STUN request: "@ + cause@
            &&& old(c).at() is SetTimeout ==> text@ == "Failed to set timeout: "@ + cause@
            &&& old(c).at() is Recv ==> text@ == "STUN request timed out: "@ + cause@
        },
{
}

/// What is received is read as the answer to the client's own request, and the query returns
/// that; the client can be queried again.
pub proof fn law_answer_is_returned(
    c: &mut StunClient,
    data: Vec<u8>,
    action: StunAction,
    bytes: &[u8],
    id: &[u8; 12],
    r: Result<MappedAddress, String>,
)
    requires
        call_ensures(StunClient::on_event, (c, StunEvent::Received(data)), action),
        bytes@ == data@,
        id@ == c.tid(),
        call_ensures(StunClient::parse_binding_response, (bytes, id), r),
    ensures
        final(c).server_text() == old(c).server_text(),
        final(c).tid() == old(c).tid(),
        final(c).at() is Ready,
        action matches StunAction::Return(returned) && alike(returned, r),
{
}

// ---- Several servers -------------------------------------------------------

/// Servers are asked in order, each at most once, until one answers; what it answers is the
/// result. Without an answer there is no result.
pub proof fn law_servers_are_asked_in_order(
    servers: &[String],
    fresh: StunScan,
    nothing: Option<String>,
    s: &mut StunScan,
    reply: Result<String, String>,
    before: Option<&String>,
    after: Option<&String>,
    result: Option<String>,
)
    requires
        call_ensures(query_stun_servers, (servers,), fresh),
        call_ensures(StunScan::into_result, (fresh,), nothing),
        call_ensures(StunScan::next_server, (&*s,), before),
        call_ensures(StunScan::on_reply, (s, reply), ()),
        call_ensures(StunScan::next_server, (&*final(s),), after),
        call_ensures(StunScan::into_result, (*final(s),), result),
    ensures
        fresh@.servers == servers@ && fresh@.asked == 0 && nothing is None,
        before matches Some(server) ==> *server == old(s)@.servers[old(s)@.asked as int],
        final(s)@.servers == old(s)@.servers,
        final(s)@.asked == old(s)@.asked + 1,
        reply matches Ok(address) ==> after is None && result == Some(address),
        reply is Err ==> {
            let next = old(s)@.asked as int + 1;
            &&& result is None
            &&& after is Some <==> next < old(s)@.servers.len()
            &&& after matches Some(server) ==> *server == old(s)@.servers[next]
        },
{
}

/// A server is asked next exactly if none has answered and one is left.
pub proof fn law_scan_goes_on_until_an_answer(s: &StunScan, next: Option<&String>)
    requires
        call_ensures(StunScan::next_server, (s,), next),
    ensures
        next is Some <==> s@.found is None && s@.asked < s@.servers.len(),
{
}

} // verus!
