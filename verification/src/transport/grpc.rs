//! gRPC-over-HTTP/3 framing, status codes, headers and trailers.
//!
//! The wire format of one message is
//!   1 byte  - compression flag (0 = uncompressed)
//!   4 bytes - message length (big-endian)
//!   N bytes - message body

use bytes::{Bytes, BytesMut};
use vstd::prelude::*;
use vstd::string::*;

use crate::buffers::{
    be_u32, buffer_limit, bytes_content, get_u32, get_u8, lemma_u32_be_bytes, put_slice, put_u32,
    put_u8, u32_be_bytes,
};
use crate::error::EngineError;
use crate::text::{decimal, decimal_text, parse_unsigned, same_text, unsigned_number};

verus! {

// ---- Frames ----------------------------------------------------------------

/// Length of a frame header.
pub const FRAME_HEADER_LEN: usize = 5;

/// The frame of a message. The length field holds the length modulo 2^32.
pub open spec fn frame_of(msg: Seq<u8>) -> Seq<u8> {
    seq![0u8] + u32_be_bytes((msg.len() % 4294967296) as u32) + msg
}

/// The length that a frame header announces.
pub open spec fn announced_len(data: Seq<u8>) -> int
    recommends
        data.len() >= 5,
{
    be_u32(data[1], data[2], data[3], data[4])
}

/// Whether `data` starts with a complete uncompressed frame.
pub open spec fn starts_with_frame(data: Seq<u8>) -> bool {
    &&& data.len() >= 5
    &&& data[0] == 0
    &&& data.len() - 5 >= announced_len(data)
}

/// The message of the frame that `data` starts with.
pub open spec fn frame_message(data: Seq<u8>) -> Seq<u8>
    recommends
        starts_with_frame(data),
{
    data.subrange(5, 5 + announced_len(data))
}

/// What follows the frame that `data` starts with.
pub open spec fn frame_rest(data: Seq<u8>) -> Seq<u8>
    recommends
        starts_with_frame(data),
{
    data.skip(5 + announced_len(data))
}

/// Why `data` does not start with a frame.
pub open spec fn frame_fault(data: Seq<u8>) -> Seq<char>
    recommends
        !starts_with_frame(data),
{
    if data.len() < 5 {
        "gRPC frame too short: "@ + decimal(data.len()) + " bytes"@
    } else if data[0] != 0 {
        "compressed gRPC frames not supported"@
    } else {
        "gRPC frame incomplete: need "@ + decimal(announced_len(data) as nat) + " bytes, have "@
            + decimal((data.len() - 5) as nat)
    }
}

/// Whether a message can be framed: it must fit a buffer together with the frame header.
pub fn fits_frame(proto_bytes: &[u8]) -> (b: bool)
    ensures
        b == (proto_bytes@.len() + 5 <= buffer_limit()),
{
    let limit: usize = isize::MAX as usize / 4;
    proto_bytes.len() <= limit - FRAME_HEADER_LEN
}

/// Encodes a protobuf message into a length-prefixed frame.
pub fn encode_grpc_frame(proto_bytes: &[u8]) -> (frame: Bytes)
    requires
        proto_bytes@.len() + 5 <= buffer_limit(),
    ensures
        bytes_content(frame) == frame_of(proto_bytes@),
{
    let len = proto_bytes.len();
    let mut buf = BytesMut::with_capacity(FRAME_HEADER_LEN + len);
    put_u8(&mut buf, 0);
    put_u32(&mut buf, (len as u64 % 4294967296) as u32);
    put_slice(&mut buf, proto_bytes);
    let frame = buf.freeze();
    assert(bytes_content(frame) =~= frame_of(proto_bytes@));
    frame
}

/// Decodes the frame at the start of `data` into its message and the bytes after it.
pub fn decode_grpc_frame(data: Bytes) -> (r: Result<(Bytes, Bytes), EngineError>)
    ensures
        match r {
            Ok((msg, rest)) => {
                &&& starts_with_frame(bytes_content(data))
                &&& bytes_content(msg) == frame_message(bytes_content(data))
                &&& bytes_content(rest) == frame_rest(bytes_content(data))
            },
            Err(e) => {
                &&& !starts_with_frame(bytes_content(data))
                &&& e matches EngineError::Transport { message } && message@ == frame_fault(
                    bytes_content(data),
                )
            },
        },
{
    let ghost whole = bytes_content(data);
    let mut data = data;
    let total = data.len();
    if total < FRAME_HEADER_LEN {
        let text = String::from_str("gRPC frame too short: ").concat(
            decimal_text(total as u64).as_str(),
        ).concat(" bytes");
        return Err(EngineError::transport(text.as_str()));
    }
    let compressed = get_u8(&mut data);
    if compressed != 0 {
        return Err(EngineError::transport("compressed gRPC frames not supported"));
    }
    assert(bytes_content(data) =~= whole.skip(1));
    let msg_len = get_u32(&mut data) as usize;
    assert(bytes_content(data) =~= whole.skip(5));
    if data.len() < msg_len {
        let text = String::from_str("gRPC frame incomplete: need ").concat(
            decimal_text(msg_len as u64).as_str(),
        ).concat(" bytes, have ").concat(decimal_text(data.len() as u64).as_str());
        return Err(EngineError::transport(text.as_str()));
    }
    let msg = data.split_to(msg_len);
    assert(bytes_content(msg) =~= frame_message(whole));
    assert(bytes_content(data) =~= frame_rest(whole));
    Ok((msg, data))
}

/// Decoding gives back what was encoded: a frame followed by any bytes decodes to its message
/// and those bytes, for every message shorter than 2^32 bytes.
pub proof fn law_decode_inverts_encode(msg: Seq<u8>, rest: Seq<u8>)
    requires
        msg.len() < 4294967296,
    ensures
        starts_with_frame(frame_of(msg) + rest),
        frame_message(frame_of(msg) + rest) == msg,
        frame_rest(frame_of(msg) + rest) == rest,
{
    let data = frame_of(msg) + rest;
    let len = (msg.len() % 4294967296) as u32;
    lemma_u32_be_bytes(len);
    assert(data[1] == u32_be_bytes(len)[0]);
    assert(data[2] == u32_be_bytes(len)[1]);
    assert(data[3] == u32_be_bytes(len)[2]);
    assert(data[4] == u32_be_bytes(len)[3]);
    assert(frame_message(data) =~= msg);
    assert(frame_rest(data) =~= rest);
}

/// A decoded frame is the header, the message and the rest of the input, in that order.
pub proof fn law_decode_loses_nothing(data: Seq<u8>)
    requires
        starts_with_frame(data),
    ensures
        data == data.take(5) + frame_message(data) + frame_rest(data),
        frame_message(data).len() == announced_len(data),
{
    assert(data =~= data.take(5) + frame_message(data) + frame_rest(data));
}

// ---- Status codes ----------------------------------------------------------

/// gRPC status codes.
#[derive(Debug, Clone, Copy, PartialEq, Eq, Structural)]
pub enum GrpcStatus {
    OK,
    Cancelled,
    Unknown,
    InvalidArgument,
    DeadlineExceeded,
    NotFound,
    AlreadyExists,
    PermissionDenied,
    ResourceExhausted,
    FailedPrecondition,
    Aborted,
    OutOfRange,
    Unimplemented,
    Internal,
    Unavailable,
    DataLoss,
    Unauthenticated,
}

impl GrpcStatus {
    /// The number that stands for the status on the wire.
    pub open spec fn wire_code(self) -> u32 {
        match self {
            GrpcStatus::OK => 0,
            GrpcStatus::Cancelled => 1,
            GrpcStatus::Unknown => 2,
            GrpcStatus::InvalidArgument => 3,
            GrpcStatus::DeadlineExceeded => 4,
            GrpcStatus::NotFound => 5,
            GrpcStatus::AlreadyExists => 6,
            GrpcStatus::PermissionDenied => 7,
            GrpcStatus::ResourceExhausted => 8,
            GrpcStatus::FailedPrecondition => 9,
            GrpcStatus::Aborted => 10,
            GrpcStatus::OutOfRange => 11,
            GrpcStatus::Unimplemented => 12,
            GrpcStatus::Internal => 13,
            GrpcStatus::Unavailable => 14,
            GrpcStatus::DataLoss => 15,
            GrpcStatus::Unauthenticated => 16,
        }
    }

    /// Whether the engine tells this status apart from `Unknown` when it reads a code.
    pub open spec fn is_recognised(self) -> bool {
        match self {
            GrpcStatus::AlreadyExists
            | GrpcStatus::FailedPrecondition
            | GrpcStatus::Aborted
            | GrpcStatus::OutOfRange
            | GrpcStatus::DataLoss => false,
            _ => true,
        }
    }

    /// The number that stands for the status on the wire.
    pub fn code(self) -> (code: u32)
        ensures
            code == self.wire_code(),
    {
        match self {
            GrpcStatus::OK => 0,
            GrpcStatus::Cancelled => 1,
            GrpcStatus::Unknown => 2,
            GrpcStatus::InvalidArgument => 3,
            GrpcStatus::DeadlineExceeded => 4,
            GrpcStatus::NotFound => 5,
            GrpcStatus::AlreadyExists => 6,
            GrpcStatus::PermissionDenied => 7,
            GrpcStatus::ResourceExhausted => 8,
            GrpcStatus::FailedPrecondition => 9,
            GrpcStatus::Aborted => 10,
            GrpcStatus::OutOfRange => 11,
            GrpcStatus::Unimplemented => 12,
            GrpcStatus::Internal => 13,
            GrpcStatus::Unavailable => 14,
            GrpcStatus::DataLoss => 15,
            GrpcStatus::Unauthenticated => 16,
        }
    }

    /// The status that a code is read as: codes that the engine does not tell apart are
    /// `Unknown`.
    pub open spec fn of_code(code: u32) -> GrpcStatus {
        match code {
            0 => GrpcStatus::OK,
            1 => GrpcStatus::Cancelled,
            3 => GrpcStatus::InvalidArgument,
            4 => GrpcStatus::DeadlineExceeded,
            5 => GrpcStatus::NotFound,
            7 => GrpcStatus::PermissionDenied,
            8 => GrpcStatus::ResourceExhausted,
            12 => GrpcStatus::Unimplemented,
            13 => GrpcStatus::Internal,
            14 => GrpcStatus::Unavailable,
            16 => GrpcStatus::Unauthenticated,
            _ => GrpcStatus::Unknown,
        }
    }

    /// Reads a status code.
    pub fn from_code(code: u32) -> (status: Self)
        ensures
            status == GrpcStatus::of_code(code),
    {
        match code {
            0 => GrpcStatus::OK,
            1 => GrpcStatus::Cancelled,
            3 => GrpcStatus::InvalidArgument,
            4 => GrpcStatus::DeadlineExceeded,
            5 => GrpcStatus::NotFound,
            7 => GrpcStatus::PermissionDenied,
            8 => GrpcStatus::ResourceExhausted,
            12 => GrpcStatus::Unimplemented,
            13 => GrpcStatus::Internal,
            14 => GrpcStatus::Unavailable,
            16 => GrpcStatus::Unauthenticated,
            _ => GrpcStatus::Unknown,
        }
    }

    /// Whether the call succeeded.
    pub fn is_ok(self) -> (b: bool)
        ensures
            b == (self == GrpcStatus::OK),
    {
        self == GrpcStatus::OK
    }

    /// Whether the caller's credentials were rejected.
    pub fn is_unauthenticated(self) -> (b: bool)
        ensures
            b == (self == GrpcStatus::Unauthenticated),
    {
        self == GrpcStatus::Unauthenticated
    }

    /// Whether trying again later can help.
    pub fn is_retryable(self) -> (b: bool)
        ensures
            b == (self == GrpcStatus::Unavailable || self == GrpcStatus::DeadlineExceeded || self
                == GrpcStatus::ResourceExhausted),
    {
        matches!(
            self,
            GrpcStatus::Unavailable | GrpcStatus::DeadlineExceeded | GrpcStatus::ResourceExhausted
        )
    }
}

/// Reading the code of a recognised status gives that status back.
pub proof fn law_status_code_roundtrip(status: GrpcStatus)
    requires
        status.is_recognised(),
    ensures
        GrpcStatus::of_code(status.wire_code()) == status,
{
}

/// A code is read as the status that it stands for, or as `Unknown`; every status that a code
/// is read as is a recognised one.
pub proof fn law_status_of_code(code: u32)
    ensures
        GrpcStatus::of_code(code).is_recognised(),
        GrpcStatus::of_code(code).wire_code() == code || GrpcStatus::of_code(code)
            == GrpcStatus::Unknown,
{
}

// ---- Headers ---------------------------------------------------------------

/// Header names and values as text.
pub open spec fn header_texts(headers: Seq<(String, String)>) -> Seq<(Seq<char>, Seq<char>)> {
    headers.map_values(|h: (String, String)| (h.0@, h.1@))
}

/// The headers of a gRPC request that follow the pseudo-headers.
pub open spec fn plain_header_texts(auth_token: Option<Seq<char>>) -> Seq<(Seq<char>, Seq<char>)> {
    let fixed = seq![
        ("content-type"@, "application/grpc+proto"@),
        ("te"@, "trailers"@),
        ("grpc-encoding"@, "identity"@),
        ("user-agent"@, "construct-engine/0.1.0"@),
    ];
    match auth_token {
        Some(token) => fixed.push(("authorization"@, "Bearer "@ + token)),
        None => fixed,
    }
}

/// All headers of a gRPC request, pseudo-headers first.
pub open spec fn request_header_texts(
    service_path: Seq<char>,
    auth_token: Option<Seq<char>>,
) -> Seq<(Seq<char>, Seq<char>)> {
    seq![(":method"@, "POST"@), (":path"@, service_path), (":scheme"@, "https"@)]
        + plain_header_texts(auth_token)
}

/// The text of an optional string slice.
pub open spec fn opt_text(s: Option<&str>) -> Option<Seq<char>> {
    match s {
        Some(t) => Some(t@),
        None => None,
    }
}

fn header(name: &str, value: &str) -> (h: (String, String))
    ensures
        h.0@ == name@,
        h.1@ == value@,
{
    (String::from_str(name), String::from_str(value))
}

/// Builds the HTTP/3 pseudo-headers and gRPC headers of a request.
pub fn grpc_request_headers(service_path: &str, auth_token: Option<&str>) -> (headers: Vec<
    (String, String),
>)
    ensures
        header_texts(headers@) == request_header_texts(service_path@, opt_text(auth_token)),
{
    let mut headers = Vec::new();
    headers.push(header(":method", "POST"));
    headers.push(header(":path", service_path));
    headers.push(header(":scheme", "https"));
    headers.push(header("content-type", "application/grpc+proto"));
    headers.push(header("te", "trailers"));
    headers.push(header("grpc-encoding", "identity"));
    headers.push(header("user-agent", "construct-engine/0.1.0"));
    if let Some(token) = auth_token {
        let bearer = String::from_str("Bearer ").concat(token);
        headers.push((String::from_str("authorization"), bearer));
    }
    assert(header_texts(headers@) =~= request_header_texts(service_path@, opt_text(auth_token)));
    headers
}

// ---- Trailers --------------------------------------------------------------

/// The value of the first entry with the given name.
pub open spec fn first_value(
    entries: Seq<(Seq<char>, Seq<char>)>,
    name: Seq<char>,
) -> Option<Seq<char>>
    decreases entries.len(),
{
    if entries.len() == 0 {
        None
    } else if entries[0].0 == name {
        Some(entries[0].1)
    } else {
        first_value(entries.skip(1), name)
    }
}

/// The status code that a `grpc-status` value stands for: 2 (Unknown) when it is missing or no
/// number.
pub open spec fn status_code_of(value: Option<Seq<char>>) -> nat {
    match value {
        Some(v) => match unsigned_number(v, u32::MAX as nat) {
            Some(n) => n,
            None => 2,
        },
        None => 2,
    }
}

/// The text of a `grpc-message` value, empty when it is missing.
pub open spec fn status_message_of(value: Option<Seq<char>>) -> Seq<char> {
    match value {
        Some(v) => v,
        None => Seq::empty(),
    }
}

fn find_value<'a>(entries: &'a [(String, String)], name: &str) -> (value: Option<&'a String>)
    ensures
        match value {
            Some(v) => first_value(header_texts(entries@), name@) == Some(v@),
            None => first_value(header_texts(entries@), name@) is None,
        },
{
    let mut i: usize = 0;
    assert(header_texts(entries@).skip(0) =~= header_texts(entries@));
    while i < entries.len()
        invariant
            i <= entries@.len(),
            first_value(header_texts(entries@), name@) == first_value(
                header_texts(entries@).skip(i as int),
                name@,
            ),
        decreases entries@.len() - i,
    {
        let ghost tail = header_texts(entries@).skip(i as int);
        assert(tail[0] == (entries@[i as int].0@, entries@[i as int].1@));
        if same_text(entries[i].0.as_str(), name) {
            return Some(&entries[i].1);
        }
        assert(tail.skip(1) =~= header_texts(entries@).skip(i + 1));
        i = i + 1;
    }
    None
}

/// Reads the status code and message of gRPC trailers.
pub fn parse_grpc_trailers(trailers: &[(String, String)]) -> (r: (u32, String))
    ensures
        r.0 == status_code_of(first_value(header_texts(trailers@), "grpc-status"@)),
        r.1@ == status_message_of(first_value(header_texts(trailers@), "grpc-message"@)),
{
    let code = match find_value(trailers, "grpc-status") {
        Some(v) => match parse_unsigned(v.as_str(), u32::MAX) {
            Some(n) => n,
            None => 2,
        },
        None => 2,
    };
    let message = match find_value(trailers, "grpc-message") {
        Some(v) => v.clone(),
        None => String::new(),
    };
    (code, message)
}

} // verus!
