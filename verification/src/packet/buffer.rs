//! What the codec takes from other crates: the byte buffers of `bytes`, and
//! the number conversion of `num_traits`.
//!
//! Nothing here is proved: each contract restates what the crate documents.
//! A buffer that cannot get the memory it asks for ends the process; no
//! contract speaks of that.

use bytes::{Buf, BufMut, Bytes, BytesMut};
use vstd::prelude::*;

use crate::packet::wire::{i32_from_le_bytes, i32_le_bytes};

verus! {

/// `bytes::BytesMut`, a buffer that is read at the front and written at the
/// back. What it holds is `held`.
#[verifier::external_type_specification]
#[verifier::external_body]
pub struct ExBytesMut(BytesMut);

/// `bytes::Bytes`, a buffer that is no longer written. What it holds is
/// `frozen`.
#[verifier::external_type_specification]
#[verifier::external_body]
pub struct ExBytes(Bytes);

/// The bytes that a `BytesMut` holds, the next one to be read first.
pub uninterp spec fn held(buf: BytesMut) -> Seq<u8>;

/// The bytes that a `Bytes` holds.
pub uninterp spec fn frozen(buf: Bytes) -> Seq<u8>;

/// `BytesMut::with_capacity` returns a buffer that holds nothing. It allocates
/// with `Vec::with_capacity`, which panics above `isize::MAX`.
pub assume_specification[ BytesMut::with_capacity ](capacity: usize) -> (buf: BytesMut)
    requires
        capacity <= isize::MAX,
    ensures
        held(buf) == Seq::<u8>::empty(),
;

/// `BytesMut::len` is the number of bytes held.
pub assume_specification[ BytesMut::len ](buf: &BytesMut) -> (n: usize)
    ensures
        n == held(*buf).len(),
;

/// `BytesMut::split_to` hands out the first `at` bytes and keeps the rest. It
/// panics where `at` exceeds the length.
pub assume_specification[ BytesMut::split_to ](buf: &mut BytesMut, at: usize) -> (front: BytesMut)
    requires
        at <= held(*old(buf)).len(),
    ensures
        held(front) == held(*old(buf)).subrange(0, at as int),
        held(*final(buf)) == held(*old(buf)).subrange(at as int, held(*old(buf)).len() as int),
;

/// `BytesMut::freeze` keeps the bytes and gives up the right to change them.
pub assume_specification[ BytesMut::freeze ](buf: BytesMut) -> (out: Bytes)
    ensures
        frozen(out) == held(buf),
;

/// `Buf::get_i32_le` reads four bytes from the front as a little-endian
/// number and advances past them. It panics where fewer than four remain.
#[verifier::external_body]
pub(crate) fn get_i32_le(buf: &mut BytesMut) -> (n: i32)
    requires
        held(*old(buf)).len() >= 4,
    ensures
        n == i32_from_le_bytes(held(*old(buf))),
        held(*final(buf)) == held(*old(buf)).subrange(4, held(*old(buf)).len() as int),
{
    buf.get_i32_le()
}

/// `BufMut::put_i32_le` appends the four bytes of `n`, least significant
/// first. A `BytesMut` grows to take them; no buffer grows beyond
/// `isize::MAX` bytes.
#[verifier::external_body]
pub(crate) fn put_i32_le(buf: &mut BytesMut, n: i32)
    requires
        held(*old(buf)).len() + 4 <= isize::MAX,
    ensures
        held(*final(buf)) == held(*old(buf)) + i32_le_bytes(n),
{
    buf.put_i32_le(n)
}

/// `BufMut::put_slice` appends the bytes of `src`. A `BytesMut` grows to take
/// them; no buffer grows beyond `isize::MAX` bytes.
#[verifier::external_body]
pub(crate) fn put_slice(buf: &mut BytesMut, src: &[u8])
    requires
        held(*old(buf)).len() + src@.len() <= isize::MAX,
    ensures
        held(*final(buf)) == held(*old(buf)) + src@,
{
    buf.put_slice(src)
}

/// `Vec::<u8>::from` on a `BytesMut` moves the bytes held into a vector.
#[verifier::external_body]
pub(crate) fn into_vec(buf: BytesMut) -> (bytes: Vec<u8>)
    ensures
        bytes@ == held(buf),
{
    Vec::from(buf)
}

/// `BytesMut::from` on a slice copies the slice into a new buffer.
#[verifier::external_body]
pub(crate) fn from_slice(src: &[u8]) -> (buf: BytesMut)
    ensures
        held(buf) == src@,
{
    BytesMut::from(src)
}

/// `Deref::deref` on a `Bytes` is the slice of the bytes it holds.
#[verifier::external_body]
pub(crate) fn as_slice(buf: &Bytes) -> (bytes: &[u8])
    ensures
        bytes@ == frozen(*buf),
{
    std::ops::Deref::deref(buf)
}

/// `ToPrimitive::to_i32` on an `i32` is the number itself: a conversion between
/// equal types keeps every value.
#[verifier::external_body]
pub(crate) fn to_i32(n: i32) -> (out: Option<i32>)
    ensures
        out == Some(n),
{
    num_traits::ToPrimitive::to_i32(&n)
}

} // verus!
