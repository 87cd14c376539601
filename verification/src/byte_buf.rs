//! The byte buffers of the `bytes` crate.

use vstd::prelude::*;

use crate::be_bytes::be_bytes;

verus! {

#[verifier::external_type_specification]
#[verifier::external_body]
pub struct ExBytes(bytes::Bytes);

#[verifier::external_type_specification]
#[verifier::external_body]
pub struct ExBytesMut(bytes::BytesMut);

/// The bytes that a `Bytes` holds.
pub uninterp spec fn bytes_contents(b: bytes::Bytes) -> Seq<u8>;

/// The bytes that a `BytesMut` holds.
pub uninterp spec fn buffer_contents(b: bytes::BytesMut) -> Seq<u8>;

/// A length up to which a buffer can grow. What was taken from its front may still
/// take up as much space again, and the space may be doubled when it grows: with this
/// length that stays within the largest allocation.
pub open spec fn buffer_limit() -> int {
    isize::MAX as int / 4
}

/// `Bytes` as a slice (`AsRef<[u8]>`): all of its bytes, in order.
#[verifier::external_body]
pub(crate) fn bytes_slice(b: &bytes::Bytes) -> (r: &[u8])
    ensures
        r@ == bytes_contents(*b),
{
    b.as_ref()
}

/// `BytesMut` as a slice (`AsRef<[u8]>`): all of its unread bytes, in order.
#[verifier::external_body]
pub(crate) fn buffer_slice(b: &bytes::BytesMut) -> (r: &[u8])
    ensures
        r@ == buffer_contents(*b),
{
    b.as_ref()
}

/// `BytesMut::with_capacity`: an empty buffer. A capacity beyond the largest
/// allocation makes it panic.
#[verifier::external_body]
pub(crate) fn buffer_with_capacity(capacity: usize) -> (r: bytes::BytesMut)
    requires
        capacity <= isize::MAX,
    ensures
        buffer_contents(r) == Seq::<u8>::empty(),
{
    bytes::BytesMut::with_capacity(capacity)
}

/// `BytesMut::new`: an empty buffer.
#[verifier::external_body]
pub(crate) fn buffer_new() -> (r: bytes::BytesMut)
    ensures
        buffer_contents(r) == Seq::<u8>::empty(),
{
    bytes::BytesMut::new()
}

/// `BufMut::put_u8`: appends one byte.
#[verifier::external_body]
pub(crate) fn buffer_put_u8(buf: &mut bytes::BytesMut, n: u8)
    requires
        buffer_contents(*old(buf)).len() + 1 <= buffer_limit(),
    ensures
        buffer_contents(*final(buf)) == buffer_contents(*old(buf)).push(n),
{
    bytes::BufMut::put_u8(buf, n)
}

/// `BufMut::put_u32`: appends four bytes, most significant first.
#[verifier::external_body]
pub(crate) fn buffer_put_u32(buf: &mut bytes::BytesMut, n: u32)
    requires
        buffer_contents(*old(buf)).len() + 4 <= buffer_limit(),
    ensures
        buffer_contents(*final(buf)) == buffer_contents(*old(buf)) + be_bytes(n as nat, 4),
{
    bytes::BufMut::put_u32(buf, n)
}

/// `BufMut::put_u64`: appends eight bytes, most significant first.
#[verifier::external_body]
pub(crate) fn buffer_put_u64(buf: &mut bytes::BytesMut, n: u64)
    requires
        buffer_contents(*old(buf)).len() + 8 <= buffer_limit(),
    ensures
        buffer_contents(*final(buf)) == buffer_contents(*old(buf)) + be_bytes(n as nat, 8),
{
    bytes::BufMut::put_u64(buf, n)
}

/// `BufMut::put_slice`: appends the bytes of a slice.
#[verifier::external_body]
pub(crate) fn buffer_put_slice(buf: &mut bytes::BytesMut, src: &[u8])
    requires
        buffer_contents(*old(buf)).len() + src@.len() <= buffer_limit(),
    ensures
        buffer_contents(*final(buf)) == buffer_contents(*old(buf)) + src@,
{
    bytes::BufMut::put_slice(buf, src)
}

/// `BytesMut::extend_from_slice`: appends the bytes of a slice.
#[verifier::external_body]
pub(crate) fn buffer_extend_from_slice(buf: &mut bytes::BytesMut, extend: &[u8])
    requires
        buffer_contents(*old(buf)).len() + extend@.len() <= buffer_limit(),
    ensures
        buffer_contents(*final(buf)) == buffer_contents(*old(buf)) + extend@,
{
    buf.extend_from_slice(extend)
}

/// `BytesMut::freeze`: the same bytes, immutable.
#[verifier::external_body]
pub(crate) fn buffer_freeze(buf: bytes::BytesMut) -> (r: bytes::Bytes)
    ensures
        bytes_contents(r) == buffer_contents(buf),
{
    buf.freeze()
}

/// `Buf::advance` on a `BytesMut`: drops the first `count` bytes. It panics where
/// the buffer holds fewer.
#[verifier::external_body]
pub(crate) fn buffer_advance(buf: &mut bytes::BytesMut, count: usize)
    requires
        count <= buffer_contents(*old(buf)).len(),
    ensures
        buffer_contents(*final(buf)) == buffer_contents(*old(buf)).skip(count as int),
{
    bytes::Buf::advance(buf, count)
}

/// `Buf::copy_to_bytes` on a `BytesMut`: takes the first `len` bytes out of the
/// buffer. It panics where the buffer holds fewer.
#[verifier::external_body]
pub(crate) fn buffer_copy_to_bytes(buf: &mut bytes::BytesMut, len: usize) -> (r: bytes::Bytes)
    requires
        len <= buffer_contents(*old(buf)).len(),
    ensures
        bytes_contents(r) == buffer_contents(*old(buf)).take(len as int),
        buffer_contents(*final(buf)) == buffer_contents(*old(buf)).skip(len as int),
{
    bytes::Buf::copy_to_bytes(buf, len)
}

/// `Buf::advance` on a slice: drops its first `count` bytes. It panics where the
/// slice is shorter.
#[verifier::external_body]
pub(crate) fn slice_advance(buf: &mut &[u8], count: usize)
    requires
        count <= old(buf)@.len(),
    ensures
        final(buf)@ == old(buf)@.skip(count as int),
{
    bytes::Buf::advance(buf, count)
}

/// `Buf::get_u8` on a slice: takes its first byte. It panics on an empty slice.
#[verifier::external_body]
pub(crate) fn slice_get_u8(buf: &mut &[u8]) -> (r: u8)
    requires
        old(buf)@.len() >= 1,
    ensures
        r == old(buf)@[0],
        final(buf)@ == old(buf)@.skip(1),
{
    bytes::Buf::get_u8(buf)
}

/// `Bytes::from(Vec<u8>)`: the bytes of the vector.
#[verifier::external_body]
pub(crate) fn bytes_from_vec(v: Vec<u8>) -> (r: bytes::Bytes)
    ensures
        bytes_contents(r) == v@,
{
    bytes::Bytes::from(v)
}

/// `Bytes::copy_from_slice`: a copy of the bytes of the slice.
#[verifier::external_body]
pub(crate) fn bytes_copy_from_slice(data: &[u8]) -> (r: bytes::Bytes)
    ensures
        bytes_contents(r) == data@,
{
    bytes::Bytes::copy_from_slice(data)
}

/// `Bytes::clone`: the same bytes.
pub assume_specification[ <bytes::Bytes as Clone>::clone ](b: &bytes::Bytes) -> (r: bytes::Bytes)
    ensures
        bytes_contents(r) == bytes_contents(*b),
;

} // verus!
