//! Byte buffers of the `bytes` crate: what their methods do to the bytes they hold.
//!
//! The contracts in this file are taken on trust. They describe `bytes::Bytes` and
//! `bytes::BytesMut` as byte sequences.

use bytes::{Buf, BufMut, Bytes, BytesMut};
use vstd::prelude::*;

verus! {

#[verifier::external_type_specification]
#[verifier::external_body]
pub struct ExBytes(bytes::Bytes);

#[verifier::external_type_specification]
#[verifier::external_body]
pub struct ExBytesMut(bytes::BytesMut);

/// The bytes that a `Bytes` has left to read.
pub uninterp spec fn bytes_content(data: bytes::Bytes) -> Seq<u8>;

/// The bytes that a `BytesMut` holds.
pub uninterp spec fn buffer_content(buf: bytes::BytesMut) -> Seq<u8>;

/// The largest content for which `BytesMut` can always find room: growing may first double the
/// allocation and may keep bytes already split off, and no allocation exceeds `isize::MAX`.
pub open spec fn buffer_limit() -> int {
    isize::MAX / 4
}

/// The number that four bytes denote, most significant first.
pub open spec fn be_u32(b0: u8, b1: u8, b2: u8, b3: u8) -> int {
    b0 * 16777216 + b1 * 65536 + b2 * 256 + b3
}

/// The four bytes of `n`, most significant first.
pub open spec fn u32_be_bytes(n: u32) -> Seq<u8> {
    seq![
        (n / 16777216) as u8,
        ((n / 65536) % 256) as u8,
        ((n / 256) % 256) as u8,
        (n % 256) as u8,
    ]
}

/// `Bytes::len` is the number of bytes left to read.
pub assume_specification[ bytes::Bytes::len ](data: &bytes::Bytes) -> (n: usize)
    ensures
        n == bytes_content(*data).len(),
;

/// `Bytes::split_to` cuts the first `at` bytes off, leaves the rest in place and panics when
/// there are fewer.
pub assume_specification[ bytes::Bytes::split_to ](data: &mut bytes::Bytes, at: usize) -> (head:
    bytes::Bytes)
    requires
        at <= bytes_content(*old(data)).len(),
    ensures
        bytes_content(head) == bytes_content(*old(data)).take(at as int),
        bytes_content(*final(data)) == bytes_content(*old(data)).skip(at as int),
;

/// `BytesMut::new` is empty.
pub assume_specification[ bytes::BytesMut::new ]() -> (buf: bytes::BytesMut)
    ensures
        buffer_content(buf) == Seq::<u8>::empty(),
;

/// `BytesMut::with_capacity` is empty; it panics when the capacity exceeds `isize::MAX`.
pub assume_specification[ bytes::BytesMut::with_capacity ](capacity: usize) -> (buf:
    bytes::BytesMut)
    requires
        capacity <= buffer_limit(),
    ensures
        buffer_content(buf) == Seq::<u8>::empty(),
;

/// `BytesMut::len` is the number of bytes held.
pub assume_specification[ bytes::BytesMut::len ](buf: &bytes::BytesMut) -> (n: usize)
    ensures
        n == buffer_content(*buf).len(),
;

/// `BytesMut::extend_from_slice` appends; it panics when no allocation can hold the result.
pub assume_specification[ bytes::BytesMut::extend_from_slice ](
    buf: &mut bytes::BytesMut,
    extend: &[u8],
)
    requires
        buffer_content(*old(buf)).len() + extend@.len() <= buffer_limit(),
    ensures
        buffer_content(*final(buf)) == buffer_content(*old(buf)) + extend@,
;

/// `BytesMut::split_to` cuts the first `at` bytes off, leaves the rest in place and panics when
/// there are fewer.
pub assume_specification[ bytes::BytesMut::split_to ](buf: &mut bytes::BytesMut, at: usize) -> (head:
    bytes::BytesMut)
    requires
        at <= buffer_content(*old(buf)).len(),
    ensures
        buffer_content(head) == buffer_content(*old(buf)).take(at as int),
        buffer_content(*final(buf)) == buffer_content(*old(buf)).skip(at as int),
;

/// `BytesMut::freeze` keeps the bytes.
pub assume_specification[ bytes::BytesMut::freeze ](buf: bytes::BytesMut) -> (data: bytes::Bytes)
    ensures
        bytes_content(data) == buffer_content(buf),
;

/// `Buf::get_u8` on `Bytes` takes the first byte off and panics when there is none.
#[verifier::external_body]
pub(crate) fn get_u8(data: &mut Bytes) -> (b: u8)
    requires
        bytes_content(*old(data)).len() >= 1,
    ensures
        b == bytes_content(*old(data))[0],
        bytes_content(*final(data)) == bytes_content(*old(data)).skip(1),
{
    data.get_u8()
}

/// `Buf::get_u32` on `Bytes` takes four bytes off as a big-endian number and panics when there
/// are fewer.
#[verifier::external_body]
pub(crate) fn get_u32(data: &mut Bytes) -> (n: u32)
    requires
        bytes_content(*old(data)).len() >= 4,
    ensures
        n == be_u32(
            bytes_content(*old(data))[0],
            bytes_content(*old(data))[1],
            bytes_content(*old(data))[2],
            bytes_content(*old(data))[3],
        ),
        bytes_content(*final(data)) == bytes_content(*old(data)).skip(4),
{
    data.get_u32()
}

/// The slice behind a `Bytes`, reached by `Deref`, holds the bytes left to read.
#[verifier::external_body]
pub(crate) fn as_slice(data: &Bytes) -> (s: &[u8])
    ensures
        s@ == bytes_content(*data),
{
    data
}

/// The slice behind a `BytesMut`, reached by `Deref`, holds its bytes.
#[verifier::external_body]
pub(crate) fn buffer_slice(buf: &BytesMut) -> (s: &[u8])
    ensures
        s@ == buffer_content(*buf),
{
    buf
}

/// `BufMut::put_u8` on `BytesMut` appends one byte; it panics when no allocation can hold the
/// result.
#[verifier::external_body]
pub(crate) fn put_u8(buf: &mut BytesMut, b: u8)
    requires
        buffer_content(*old(buf)).len() + 1 <= buffer_limit(),
    ensures
        buffer_content(*final(buf)) == buffer_content(*old(buf)).push(b),
{
    buf.put_u8(b)
}

/// `BufMut::put_u32` on `BytesMut` appends a number as four bytes, most significant first; it
/// panics when no allocation can hold the result.
#[verifier::external_body]
pub(crate) fn put_u32(buf: &mut BytesMut, n: u32)
    requires
        buffer_content(*old(buf)).len() + 4 <= buffer_limit(),
    ensures
        buffer_content(*final(buf)) == buffer_content(*old(buf)) + u32_be_bytes(n),
{
    buf.put_u32(n)
}

/// `BufMut::put_slice` on `BytesMut` appends a slice; it panics when no allocation can hold the
/// result.
#[verifier::external_body]
pub(crate) fn put_slice(buf: &mut BytesMut, s: &[u8])
    requires
        buffer_content(*old(buf)).len() + s@.len() <= buffer_limit(),
    ensures
        buffer_content(*final(buf)) == buffer_content(*old(buf)) + s@,
{
    buf.put_slice(s)
}

/// The four big-endian bytes of a number denote that number.
pub proof fn lemma_u32_be_bytes(n: u32)
    ensures
        u32_be_bytes(n).len() == 4,
        be_u32(
            u32_be_bytes(n)[0],
            u32_be_bytes(n)[1],
            u32_be_bytes(n)[2],
            u32_be_bytes(n)[3],
        ) == n,
{
    let s = u32_be_bytes(n);
    assert(s[0] as int == n / 16777216);
    assert(s[1] as int == (n / 65536) % 256);
    assert(s[2] as int == (n / 256) % 256);
    assert(s[3] as int == n % 256);
}

} // verus!
