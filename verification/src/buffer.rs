//! The byte cursor that every message is read from and written to.
//!
//! The codec keeps its bytes in `bytes::BytesMut`, the growable byte buffer of
//! the `bytes` crate. The buffer itself is opaque to the verifier; the spec
//! function [`bytes_view`] names the bytes it currently holds, and each method
//! the codec calls is wrapped in a trusted function whose contract states, over
//! that view, what the crate's source shows the method does.

use bytes::Buf;
use bytes::BufMut;
use vstd::prelude::*;

verus! {

/// The `bytes` crate's mutable byte buffer, declared so that verified code can
/// hold and pass `BytesMut` values.
#[verifier::external_type_specification]
#[verifier::external_body]
pub struct ExBytesMut(bytes::BytesMut);

/// The bytes a `BytesMut` currently holds, front to back.
pub uninterp spec fn bytes_view(b: bytes::BytesMut) -> Seq<u8>;

/// The big-endian byte layout of a 32-bit value: most significant byte first.
pub open spec fn u32_be(x: u32) -> Seq<u8> {
    seq![(x >> 24) as u8, (x >> 16) as u8, (x >> 8) as u8, x as u8]
}

/// The 32-bit value that four bytes hold in big-endian order.
pub open spec fn be_to_u32(s: Seq<u8>) -> u32
    recommends
        s.len() == 4,
{
    (s[0] as u32) << 24 | (s[1] as u32) << 16 | (s[2] as u32) << 8 | (s[3] as u32)
}

/// The signed 32-bit value that four bytes hold in big-endian order
/// (two's complement, as `i32::from_be_bytes` reads it).
pub open spec fn be_to_i32(s: Seq<u8>) -> i32
    recommends
        s.len() == 4,
{
    be_to_u32(s) as i32
}

/// Reading back the big-endian bytes of a 32-bit value yields the value.
pub proof fn lemma_u32_be_round_trip(x: u32)
    ensures
        be_to_u32(u32_be(x)) == x,
{
    assert(((x >> 24) as u8 as u32) << 24 | ((x >> 16) as u8 as u32) << 16 | ((x >> 8) as u8
        as u32) << 8 | (x as u8 as u32) == x) by (bit_vector);
}

/// Reading back the big-endian bytes of a signed 32-bit value yields the value.
pub proof fn lemma_i32_be_round_trip(x: i32)
    ensures
        be_to_i32(u32_be(x as u32)) == x,
{
    lemma_u32_be_round_trip(x as u32);
    assert((x as u32) as i32 == x) by (bit_vector);
}

/// Concatenation of byte sequences is associative.
pub proof fn lemma_concat_assoc(a: Seq<u8>, b: Seq<u8>, c: Seq<u8>)
    ensures
        (a + b) + c == a + (b + c),
{
    assert((a + b) + c =~= a + (b + c));
}

/// Splitting a concatenation at its seam yields the two parts again.
pub proof fn lemma_concat_parts(a: Seq<u8>, b: Seq<u8>)
    ensures
        (a + b).take(a.len() as int) == a,
        (a + b).skip(a.len() as int) == b,
{
    assert((a + b).take(a.len() as int) =~= a);
    assert((a + b).skip(a.len() as int) =~= b);
}

/// Relies on `BytesMut::with_capacity`: the new buffer holds no bytes.
#[verifier::external_body]
pub(crate) fn buf_with_capacity(capacity: usize) -> (b: bytes::BytesMut)
    ensures
        bytes_view(b) == Seq::<u8>::empty(),
{
    bytes::BytesMut::with_capacity(capacity)
}

/// Relies on `BytesMut::len`: the number of bytes the buffer holds.
#[verifier::external_body]
pub(crate) fn buf_len(b: &bytes::BytesMut) -> (n: usize)
    ensures
        n == bytes_view(*b).len(),
{
    b.len()
}

/// Relies on `BytesMut`'s `Deref` to a byte slice: the byte at a position,
/// which is left in place.
#[verifier::external_body]
pub(crate) fn buf_byte_at(b: &bytes::BytesMut, i: usize) -> (x: u8)
    requires
        i < bytes_view(*b).len(),
    ensures
        x == bytes_view(*b)[i as int],
{
    b[i]
}

/// Relies on the `Clone` impl of `BytesMut`: the copy holds the same bytes.
#[verifier::external_body]
pub(crate) fn buf_clone(b: &bytes::BytesMut) -> (r: bytes::BytesMut)
    ensures
        bytes_view(r) == bytes_view(*b),
{
    b.clone()
}

/// Relies on `BufMut::put_u8`: appends the one byte.
#[verifier::external_body]
pub(crate) fn buf_put_u8(b: &mut bytes::BytesMut, v: u8)
    ensures
        bytes_view(*final(b)) == bytes_view(*old(b)).push(v),
{
    b.put_u8(v)
}

/// Relies on `BufMut::put_u32`: appends the value's four bytes in big-endian
/// order.
#[verifier::external_body]
pub(crate) fn buf_put_u32(b: &mut bytes::BytesMut, v: u32)
    ensures
        bytes_view(*final(b)) == bytes_view(*old(b)) + u32_be(v),
{
    b.put_u32(v)
}

/// Relies on `BufMut::put_i32`: appends the value's four bytes in big-endian
/// order (its two's-complement bit pattern).
#[verifier::external_body]
pub(crate) fn buf_put_i32(b: &mut bytes::BytesMut, v: i32)
    ensures
        bytes_view(*final(b)) == bytes_view(*old(b)) + u32_be(v as u32),
{
    b.put_i32(v)
}

/// Relies on `BufMut::put_slice`: appends the slice's bytes.
#[verifier::external_body]
pub(crate) fn buf_put_slice(b: &mut bytes::BytesMut, s: &[u8])
    ensures
        bytes_view(*final(b)) == bytes_view(*old(b)) + s@,
{
    b.put_slice(s)
}

/// Relies on `Buf::get_i32`: removes the front four bytes and returns the
/// signed value they hold in big-endian order. It panics on a shorter buffer,
/// so four bytes are required.
#[verifier::external_body]
pub(crate) fn buf_get_i32(b: &mut bytes::BytesMut) -> (x: i32)
    requires
        bytes_view(*old(b)).len() >= 4,
    ensures
        x == be_to_i32(bytes_view(*old(b)).take(4)),
        bytes_view(*final(b)) == bytes_view(*old(b)).skip(4),
{
    b.get_i32()
}

/// Relies on `BytesMut::split_to`: the first bytes leave the buffer and come
/// back as a buffer of their own. It panics past the length, so the index must
/// be in range.
#[verifier::external_body]
pub(crate) fn buf_split_to(b: &mut bytes::BytesMut, at: usize) -> (front: bytes::BytesMut)
    requires
        at <= bytes_view(*old(b)).len(),
    ensures
        bytes_view(front) == bytes_view(*old(b)).take(at as int),
        bytes_view(*final(b)) == bytes_view(*old(b)).skip(at as int),
{
    b.split_to(at)
}

} // verus!
