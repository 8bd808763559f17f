//! The `bytes` crate's growable and frozen byte buffers, as the packet
//! encoder and the broadcast hub use them. Each call into the crate is a
//! small trusted wrapper whose contract states what the crate's source
//! shows about the buffer's contents.
use vstd::prelude::*;
use bytes::{BufMut, Bytes, BytesMut};

verus! {

#[verifier::external_type_specification]
#[verifier::external_body]
pub struct ExBytesMut(bytes::BytesMut);

#[verifier::external_type_specification]
#[verifier::external_body]
pub struct ExBytes(bytes::Bytes);

/// The bytes held by a `BytesMut`, first to last.
pub uninterp spec fn bytes_mut_contents(b: BytesMut) -> Seq<u8>;

/// The bytes held by a `Bytes`, first to last.
pub uninterp spec fn bytes_contents(b: Bytes) -> Seq<u8>;

/// Largest byte count a buffer may reach: a `Vec` allocation is limited to
/// `isize::MAX` bytes.
pub open spec fn buffer_limit() -> int {
    isize::MAX as int
}

/// `BytesMut::with_capacity`: an empty buffer with room reserved for
/// `capacity` bytes (the crate builds it from `Vec::with_capacity`, which
/// panics beyond `isize::MAX` bytes).
#[verifier::external_body]
pub(crate) fn bytes_mut_with_capacity(capacity: usize) -> (b: BytesMut)
    requires
        capacity <= buffer_limit(),
    ensures
        bytes_mut_contents(b) == Seq::<u8>::empty(),
{
    BytesMut::with_capacity(capacity)
}

/// `BytesMut::put_slice` (through `extend_from_slice`): appends `src`.
/// It reserves more room first, which panics when the length would
/// overflow, so the total stays within the allocation limit.
#[verifier::external_body]
pub(crate) fn bytes_mut_put_slice(dst: &mut BytesMut, src: &[u8])
    requires
        bytes_mut_contents(*old(dst)).len() + src@.len() <= buffer_limit(),
    ensures
        bytes_mut_contents(*final(dst)) == bytes_mut_contents(*old(dst)) + src@,
{
    dst.put_slice(src)
}

/// `BufMut::put_u16_le`: appends `n` as two little-endian bytes, low byte
/// first (it calls `put_slice(&n.to_le_bytes())`).
#[verifier::external_body]
pub(crate) fn bytes_mut_put_u16_le(dst: &mut BytesMut, n: u16)
    requires
        bytes_mut_contents(*old(dst)).len() + 2 <= buffer_limit(),
    ensures
        bytes_mut_contents(*final(dst)) == bytes_mut_contents(*old(dst)) + seq![(n % 256) as u8, (n / 256) as u8],
{
    dst.put_u16_le(n)
}

/// `BytesMut::clear`: removes every byte, keeping the capacity.
#[verifier::external_body]
pub(crate) fn bytes_mut_clear(dst: &mut BytesMut)
    ensures
        bytes_mut_contents(*final(dst)) == Seq::<u8>::empty(),
{
    dst.clear()
}

/// `<BytesMut as Clone>::clone`: a new buffer built from a copy of the bytes.
#[verifier::external_body]
pub(crate) fn bytes_mut_clone(b: &BytesMut) -> (c: BytesMut)
    ensures
        bytes_mut_contents(c) == bytes_mut_contents(*b),
{
    b.clone()
}

/// `BytesMut::freeze`: turns the buffer into an immutable `Bytes` holding
/// the same bytes.
#[verifier::external_body]
pub(crate) fn bytes_mut_freeze(b: BytesMut) -> (f: Bytes)
    ensures
        bytes_contents(f) == bytes_mut_contents(b),
{
    b.freeze()
}

/// `<Bytes as Clone>::clone`: another handle on the same bytes.
#[verifier::external_body]
pub(crate) fn bytes_clone(b: &Bytes) -> (c: Bytes)
    ensures
        bytes_contents(c) == bytes_contents(*b),
{
    b.clone()
}

} // verus!
