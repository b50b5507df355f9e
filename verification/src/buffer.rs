//! The byte buffers of the `bytes` crate, as the encoder uses them.
//!
//! `BytesMut` and `Bytes` are opaque here. What a buffer holds has a name,
//! [`buf_bytes`] or [`frozen_bytes`], and each method that the encoder calls has
//! a wrapper whose contract says, over those names, what the method does. The
//! contracts are taken from the documentation and the source of `bytes`; they
//! are believed, not proved.
//!
//! A `BytesMut` accepts `isize::MAX - len` more bytes (`remaining_mut`), so
//! every wrapper that appends asks that the new length stays within
//! `isize::MAX`.

use vstd::prelude::*;
use bytes::{BufMut, Bytes, BytesMut};

verus! {

/// `bytes::BytesMut`: a growable buffer of bytes that is written at its end.
#[verifier::external_type_specification]
#[verifier::external_body]
pub struct ExBytesMut(bytes::BytesMut);

/// `bytes::Bytes`: a buffer of bytes that is no longer written.
#[verifier::external_type_specification]
#[verifier::external_body]
pub struct ExBytes(bytes::Bytes);

/// The bytes that a `BytesMut` holds, first to last: what `as_ref` returns.
pub uninterp spec fn buf_bytes(buf: BytesMut) -> Seq<u8>;

/// The bytes that a `Bytes` holds, first to last: what `as_ref` returns.
pub uninterp spec fn frozen_bytes(buf: Bytes) -> Seq<u8>;

/// `BytesMut::len`: the number of bytes that the buffer holds.
#[verifier::external_body]
pub(crate) fn buf_len(buf: &BytesMut) -> (len: usize)
    ensures
        len == buf_bytes(*buf).len(),
{
    buf.len()
}

/// `BytesMut::reserve`: makes room for `additional` more bytes. The bytes that
/// the buffer holds stay as they are.
#[verifier::external_body]
pub(crate) fn buf_reserve(buf: &mut BytesMut, additional: usize)
    requires
        buf_bytes(*old(buf)).len() + additional <= isize::MAX,
    ensures
        buf_bytes(*final(buf)) == buf_bytes(*old(buf)),
{
    buf.reserve(additional)
}

/// `BytesMut::split_off`, called with `at` no greater than the length: the
/// buffer keeps its first `at` bytes, and the bytes from `at` on are returned
/// in a buffer of their own.
#[verifier::external_body]
pub(crate) fn buf_split_off(buf: &mut BytesMut, at: usize) -> (tail: BytesMut)
    requires
        at <= buf_bytes(*old(buf)).len(),
    ensures
        buf_bytes(*final(buf)) == buf_bytes(*old(buf)).subrange(0, at as int),
        buf_bytes(tail) == buf_bytes(*old(buf)).subrange(
            at as int,
            buf_bytes(*old(buf)).len() as int,
        ),
{
    buf.split_off(at)
}

/// `BytesMut::unsplit`: the bytes of `other` are put behind those of the
/// buffer, whether `other` was split off from it (then nothing is copied) or
/// not (then they are appended).
#[verifier::external_body]
pub(crate) fn buf_unsplit(buf: &mut BytesMut, other: BytesMut)
    requires
        buf_bytes(*old(buf)).len() + buf_bytes(other).len() <= isize::MAX,
    ensures
        buf_bytes(*final(buf)) == buf_bytes(*old(buf)) + buf_bytes(other),
{
    buf.unsplit(other)
}

/// `BytesMut::truncate`: the buffer keeps its first `len` bytes; a `len`
/// greater than its length changes nothing.
#[verifier::external_body]
pub(crate) fn buf_truncate(buf: &mut BytesMut, len: usize)
    ensures
        len <= buf_bytes(*old(buf)).len() ==> buf_bytes(*final(buf)) == buf_bytes(
            *old(buf),
        ).subrange(0, len as int),
        len > buf_bytes(*old(buf)).len() ==> buf_bytes(*final(buf)) == buf_bytes(*old(buf)),
{
    buf.truncate(len)
}

/// `BytesMut::extend_from_slice`: appends the bytes of `extend`.
#[verifier::external_body]
pub(crate) fn buf_extend_from_slice(buf: &mut BytesMut, extend: &[u8])
    requires
        buf_bytes(*old(buf)).len() + extend@.len() <= isize::MAX,
    ensures
        buf_bytes(*final(buf)) == buf_bytes(*old(buf)) + extend@,
{
    buf.extend_from_slice(extend)
}

/// `BufMut::put_bytes` on a `BytesMut`: appends `cnt` bytes, each of them
/// `val`.
#[verifier::external_body]
pub(crate) fn buf_put_bytes(buf: &mut BytesMut, val: u8, cnt: usize)
    requires
        buf_bytes(*old(buf)).len() + cnt <= isize::MAX,
    ensures
        buf_bytes(*final(buf)) == buf_bytes(*old(buf)) + Seq::new(cnt as nat, |i: int| val),
{
    buf.put_bytes(val, cnt)
}

/// `BufMut::put_u8` on a `BytesMut`: appends the byte `n`.
#[verifier::external_body]
pub(crate) fn buf_put_u8(buf: &mut BytesMut, n: u8)
    requires
        buf_bytes(*old(buf)).len() + 1 <= isize::MAX,
    ensures
        buf_bytes(*final(buf)) == buf_bytes(*old(buf)).push(n),
{
    buf.put_u8(n)
}

/// `BufMut::put_u16` on a `BytesMut`: appends the two bytes of `n`, the most
/// significant first.
#[verifier::external_body]
pub(crate) fn buf_put_u16(buf: &mut BytesMut, n: u16)
    requires
        buf_bytes(*old(buf)).len() + 2 <= isize::MAX,
    ensures
        buf_bytes(*final(buf)) == buf_bytes(*old(buf)) + crate::utils::u16_be_bytes(n),
{
    buf.put_u16(n)
}

/// `BufMut::put_u32` on a `BytesMut`: appends the four bytes of `n`, the most
/// significant first.
#[verifier::external_body]
pub(crate) fn buf_put_u32(buf: &mut BytesMut, n: u32)
    requires
        buf_bytes(*old(buf)).len() + 4 <= isize::MAX,
    ensures
        buf_bytes(*final(buf)) == buf_bytes(*old(buf)) + crate::utils::u32_be_bytes(n),
{
    buf.put_u32(n)
}

/// `BytesMut::freeze`: the same bytes, in a buffer that is no longer written.
#[verifier::external_body]
pub(crate) fn buf_freeze(buf: BytesMut) -> (frozen: Bytes)
    ensures
        frozen_bytes(frozen) == buf_bytes(buf),
{
    buf.freeze()
}

} // verus!
