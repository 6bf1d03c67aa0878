//! Laws of gRPC frames, status codes, headers, trailers and requests.

use bytes::Bytes;
use vstd::multiset::Multiset;
use vstd::prelude::*;

use crate::buffers::{buffer_limit, bytes_content, lemma_u32_be_bytes, u32_be_bytes};
use crate::error::EngineError;
use crate::http_types::{is_header_value, parsed_uri, request_parts};
use crate::text::{decimal_text, parse_unsigned};
use crate::transport::grpc::{
    decode_grpc_frame, encode_grpc_frame, first_value, fits_frame, grpc_request_headers,
    header_texts, law_decode_inverts_encode, opt_text, parse_grpc_trailers, request_header_texts,
    GrpcStatus,
};
use crate::transport::request::{build_call_request, lemma_plain_headers};

verus! {

/// The number that four bytes stand for, the most significant first.
pub open spec fn big_endian(bytes: Seq<u8>) -> int {
    ((bytes[0] * 256 + bytes[1]) * 256 + bytes[2]) * 256 + bytes[3]
}

/// A frame is a zero byte, the message's length in four bytes, most significant first, and the
/// message. Every message fits one that leaves room for these five bytes.
pub proof fn law_frame_layout(msg: &[u8], frame: Bytes, fits: bool)
    requires
        call_ensures(encode_grpc_frame, (msg,), frame),
        call_ensures(fits_frame, (msg,), fits),
    ensures
        bytes_content(frame).len() == 5 + msg@.len(),
        bytes_content(frame)[0] == 0,
        big_endian(bytes_content(frame).subrange(1, 5)) == msg@.len() % 0x1_0000_0000,
        bytes_content(frame).skip(5) == msg@,
        fits <==> msg@.len() + 5 <= buffer_limit(),
        buffer_limit() == isize::MAX / 4,
{
    let len = (msg@.len() % 4294967296) as u32;
    lemma_u32_be_bytes(len);
    let f = bytes_content(frame);
    assert(f.subrange(1, 5) =~= u32_be_bytes(len));
    assert(f.skip(5) =~= msg@);
}

/// What was framed is read back: a frame, whatever follows it, decodes to its message and what
/// follows, for every message whose length fits four bytes.
pub proof fn law_framed_message_is_read_back(
    msg: &[u8],
    frame: Bytes,
    data: Bytes,
    rest: Seq<u8>,
    r: Result<(Bytes, Bytes), EngineError>,
)
    requires
        call_ensures(encode_grpc_frame, (msg,), frame),
        msg@.len() < 0x1_0000_0000,
        bytes_content(data) == bytes_content(frame) + rest,
        call_ensures(decode_grpc_frame, (data,), r),
    ensures
        r matches Ok((read, left)) && bytes_content(read) == msg@ && bytes_content(left) == rest,
{
    law_decode_inverts_encode(msg@, rest);
}

/// Decoding succeeds exactly on data that holds a whole uncompressed frame; it gives the message
/// of the announced length behind the five bytes, and all that follows.
pub proof fn law_decoding_takes_whole_frames(data: Bytes, r: Result<(Bytes, Bytes), EngineError>)
    requires
        call_ensures(decode_grpc_frame, (data,), r),
    ensures
        ({
            let d = bytes_content(data);
            let announced = big_endian(d.subrange(1, 5));
            &&& r is Ok <==> d.len() >= 5 && d[0] == 0 && announced <= d.len() - 5
            &&& r matches Ok((msg, rest)) ==> {
                &&& bytes_content(msg).len() == announced
                &&& d.skip(5) == bytes_content(msg) + bytes_content(rest)
            }
        }),
{
    let d = bytes_content(data);
    if let Ok((msg, rest)) = r {
        assert(d.skip(5) =~= bytes_content(msg) + bytes_content(rest));
    }
}

/// Data without a whole uncompressed frame is refused with the reason: too few bytes for the
/// header, a compressed frame, or fewer bytes than announced, with both numbers.
pub proof fn law_decoding_faults(
    data: Bytes,
    r: Result<(Bytes, Bytes), EngineError>,
    length: String,
    announced: String,
    present: String,
)
    requires
        call_ensures(decode_grpc_frame, (data,), r),
        bytes_content(data).len() <= u64::MAX,
        call_ensures(decimal_text, (bytes_content(data).len() as u64,), length),
        bytes_content(data).len() >= 5 ==> call_ensures(
            decimal_text,
            (big_endian(bytes_content(data).subrange(1, 5)) as u64,),
            announced,
        ) && call_ensures(decimal_text, ((bytes_content(data).len() - 5) as u64,), present),
    ensures
        r matches Err(e) ==> (e matches EngineError::Transport { message } && message@ == (if bytes_content(
            data,
        ).len() < 5 {
            "gRPC frame too short: "@ + length@ + " bytes"@
        } else if bytes_content(data)[0] != 0 {
            "compressed gRPC frames not supported"@
        } else {
            "gRPC frame incomplete: need "@ + announced@ + " bytes, have "@ + present@
        })),
{
    let d = bytes_content(data);
    if d.len() >= 5 {
        let part = d.subrange(1, 5);
        assert(part[0] == d[1] && part[1] == d[2] && part[2] == d[3] && part[3] == d[4]);
        assert(big_endian(part) == crate::transport::grpc::announced_len(d));
    }
}

/// A status code is read as the status that has it, or as an unknown one, and exactly the code 0
/// means success, 16 rejected credentials, and 4, 8 and 14 that trying again can help.
pub proof fn law_status_codes(
    code: u32,
    status: GrpcStatus,
    back: u32,
    ok: bool,
    unauthenticated: bool,
    retryable: bool,
)
    requires
        call_ensures(GrpcStatus::from_code, (code,), status),
        call_ensures(GrpcStatus::code, (status,), back),
        call_ensures(GrpcStatus::is_ok, (status,), ok),
        call_ensures(GrpcStatus::is_unauthenticated, (status,), unauthenticated),
        call_ensures(GrpcStatus::is_retryable, (status,), retryable),
    ensures
        back == code || (back == 2 && status is Unknown),
        back != code <==> code == 6 || 9 <= code <= 11 || code == 15 || code > 16,
        ok <==> code == 0,
        unauthenticated <==> code == 16,
        retryable <==> code == 4 || code == 8 || code == 14,
{
}

/// No two statuses have the same code, and the codes are the numbers up to 16.
pub proof fn law_status_codes_differ(a: GrpcStatus, b: GrpcStatus, ca: u32, cb: u32)
    requires
        call_ensures(GrpcStatus::code, (a,), ca),
        call_ensures(GrpcStatus::code, (b,), cb),
    ensures
        ca == cb <==> a == b,
        ca <= 16,
        a is AlreadyExists ==> ca == 6,
        a is FailedPrecondition ==> ca == 9,
        a is Aborted ==> ca == 10,
        a is OutOfRange ==> ca == 11,
        a is DataLoss ==> ca == 15,
{
}

/// The predicates hold of the statuses that they are named after.
pub proof fn law_status_predicates(status: GrpcStatus, ok: bool, unauth: bool, retry: bool)
    requires
        call_ensures(GrpcStatus::is_ok, (status,), ok),
        call_ensures(GrpcStatus::is_unauthenticated, (status,), unauth),
        call_ensures(GrpcStatus::is_retryable, (status,), retry),
    ensures
        ok <==> status is OK,
        unauth <==> status is Unauthenticated,
        retry <==> status is Unavailable || status is DeadlineExceeded || status
            is ResourceExhausted,
{
}

/// The headers of a request come in one order: method, path and scheme first, then those that
/// make it a gRPC request, and last the bearer token, if there is one.
pub proof fn law_request_headers(path: &str, token: Option<&str>, headers: Vec<(String, String)>)
    requires
        call_ensures(grpc_request_headers, (path, token), headers),
    ensures
        headers@.len() == if token is Some {
            8nat
        } else {
            7
        },
        headers@[0].0@ == ":method"@ && headers@[0].1@ == "POST"@,
        headers@[1].0@ == ":path"@ && headers@[1].1@ == path@,
        headers@[2].0@ == ":scheme"@ && headers@[2].1@ == "https"@,
        headers@[3].0@ == "content-type"@ && headers@[3].1@ == "application/grpc+proto"@,
        headers@[4].0@ == "te"@ && headers@[4].1@ == "trailers"@,
        headers@[5].0@ == "grpc-encoding"@ && headers@[5].1@ == "identity"@,
        headers@[6].0@ == "user-agent"@ && headers@[6].1@ == "construct-engine/0.1.0"@,
        token matches Some(t) ==> headers@[7].0@ == "authorization"@ && headers@[7].1@
            == "Bearer "@ + t@,
{
    let texts = header_texts(headers@);
    assert(texts == request_header_texts(path@, opt_text(token)));
    assert forall|i: int| 0 <= i < headers@.len() implies (#[trigger] headers@[i]).0@ == texts[i].0
        && headers@[i].1@ == texts[i].1 by {}
    assert(texts.len() == headers@.len());
}

/// Trailers are read entry by entry: without entries the status is unknown and the message empty.
pub proof fn law_no_trailers_are_an_unknown_status(trailers: &[(String, String)], r: (u32, String))
    requires
        call_ensures(parse_grpc_trailers, (trailers,), r),
        trailers@.len() == 0,
    ensures
        r.0 == 2,
        r.1@.len() == 0,
{
}

/// The first entry of trailers that is named after the status or the message gives it; a status
/// that is no number is unknown. Any other entry changes nothing.
pub proof fn law_first_trailer_counts(
    trailers: &[(String, String)],
    r: (u32, String),
    rest: &[(String, String)],
    r2: (u32, String),
    value: &str,
    number: Option<u32>,
)
    requires
        call_ensures(parse_grpc_trailers, (trailers,), r),
        trailers@.len() > 0,
        rest@ == trailers@.skip(1),
        call_ensures(parse_grpc_trailers, (rest,), r2),
        value@ == trailers@[0].1@,
        call_ensures(parse_unsigned, (value, u32::MAX), number),
    ensures
        trailers@[0].0@ == "grpc-status"@ ==> r.0 == (match number {
            Some(n) => n,
            None => 2,
        }),
        trailers@[0].0@ != "grpc-status"@ ==> r.0 == r2.0,
        trailers@[0].0@ == "grpc-message"@ ==> r.1@ == value@,
        trailers@[0].0@ != "grpc-message"@ ==> r.1@ == r2.1@,
{
    let texts = header_texts(trailers@);
    assert(texts.skip(1) =~= header_texts(rest@));
    assert(texts[0] == (trailers@[0].0@, trailers@[0].1@));
    reveal_with_fuel(first_value, 2);
}

/// A request for a call is a POST to the path at the server, with the headers of a gRPC request
/// and the bearer token, if there is one, each exactly once and no others.
pub proof fn law_call_request(
    authority: &str,
    path: &str,
    token: Option<&str>,
    fault: &str,
    r: Result<http::Request<()>, EngineError>,
)
    requires
        call_ensures(build_call_request, (authority, path, token, fault), r),
    ensures
        r matches Ok(req) ==> {
            let (method, uri, headers) = request_parts(req);
            &&& method == "POST"@
            &&& parsed_uri("https://"@ + authority@ + path@) == Ok::<Seq<char>, Seq<char>>(uri)
            &&& headers == {
                let fixed = Multiset::<(Seq<char>, Seq<char>)>::empty().insert(
                    ("content-type"@, "application/grpc+proto"@),
                ).insert(("te"@, "trailers"@)).insert(("grpc-encoding"@, "identity"@)).insert(
                    ("user-agent"@, "construct-engine/0.1.0"@),
                );
                match token {
                    Some(t) => fixed.insert(("authorization"@, "Bearer "@ + t@)),
                    None => fixed,
                }
            }
        },
{
    lemma_plain_headers(opt_text(token));
}

/// A call can be made a request exactly if the address and path make a URI and the token holds no
/// control characters; otherwise the error starts with the given words and goes on with the HTTP
/// library's.
pub proof fn law_unsendable_call(
    authority: &str,
    path: &str,
    token: Option<&str>,
    fault: &str,
    r: Result<http::Request<()>, EngineError>,
)
    requires
        call_ensures(build_call_request, (authority, path, token, fault), r),
    ensures
        ({
            let uri = parsed_uri("https://"@ + authority@ + path@);
            let plain = token matches Some(t) ==> (forall|i: int|
                0 <= i < t@.len() ==> #[trigger] t@[i] as int == 9 || (t@[i] as int >= 32
                    && t@[i] as int != 127));
            &&& r is Ok <==> uri is Ok && plain
            &&& r matches Err(e) ==> (e matches EngineError::Transport { message } && message@
                == fault@ + (match uri {
                Ok(_) => "failed to parse header value"@,
                Err(why) => why,
            }))
        }),
{
    if let Some(t) = token {
        assert(is_header_value(t@) == (forall|i: int|
            0 <= i < t@.len() ==> #[trigger] t@[i] as int == 9 || (t@[i] as int >= 32 && t@[i] as int
                != 127)));
    }
}

} // verus!
