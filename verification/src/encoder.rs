//! The two capabilities every message record implements: serialize to wire
//! bytes, and deserialize from a byte cursor.
//!
//! Both directions are tied to the same abstract description of the record:
//! [`Encoder::wire`] gives the exact byte sequence a record stands for, and
//! [`Decoder::spec_decode`] gives the record a byte sequence holds. The
//! per-record round-trip lemmas relate the two.

use crate::buffer::{buf_put_slice, bytes_view};
use vstd::prelude::*;
use vstd::utf8::encode_utf8;

verus! {

/// Why a decode call failed. Errors are reported to the caller; no decode
/// panics or fabricates a default.
#[derive(Debug, PartialEq, Eq, Structural)]
pub enum DecodeError {
    /// The buffer ended before a field could be read.
    TruncatedInput,
    /// A parsed string's bytes are not valid UTF-8.
    InvalidTextEncoding,
    /// A flag byte held a value other than 0 or 1.
    OutOfRangeBooleanByte,
}

/// Serialization: a record becomes its wire bytes.
pub trait Encoder {
    /// When the record can stand on the wire: no string field may hold a NUL,
    /// since NUL terminates the field, and a character identifier must fit in
    /// its single wire byte.
    spec fn enc_valid(&self) -> bool;

    /// The record's exact wire bytes: every field at its fixed width, in
    /// declaration order, strings NUL-terminated, with no padding between.
    spec fn wire(&self) -> Seq<u8>;

    /// Serialize the record into a fresh buffer, field by field in wire order.
    fn encode(&self) -> (r: bytes::BytesMut)
        requires
            self.enc_valid(),
        ensures
            bytes_view(r) == self.wire(),
    ;
}

/// Deserialization: one record is consumed from the front of a byte cursor.
pub trait Decoder: Sized + View {
    /// The record (as its abstract value) that the bytes hold, or the error
    /// the bytes force. Exactly the successful inputs decode to `Ok`.
    spec fn spec_decode(s: Seq<u8>) -> Result<Self::V, DecodeError>;

    /// The bytes that a successful decode leaves in the buffer.
    spec fn spec_remainder(s: Seq<u8>) -> Seq<u8>;

    /// Deserialize one record from the front of the buffer, reading the same
    /// fields at the same widths as [`Encoder::encode`] writes, in the same
    /// order. On success the consumed bytes leave the buffer; on an error the
    /// buffer is left unchanged.
    fn decode(encoded_bytes: &mut bytes::BytesMut) -> (r: Result<Self, DecodeError>)
        ensures
            match r {
                Ok(rec) => Self::spec_decode(bytes_view(*old(encoded_bytes))) == Ok::<
                    Self::V,
                    DecodeError,
                >(rec@) && bytes_view(*final(encoded_bytes)) == Self::spec_remainder(
                    bytes_view(*old(encoded_bytes)),
                ),
                Err(e) => Self::spec_decode(bytes_view(*old(encoded_bytes))) == Err::<
                    Self::V,
                    DecodeError,
                >(e) && bytes_view(*final(encoded_bytes)) == bytes_view(*old(encoded_bytes)),
            },
    ;
}

/// Whether a string's UTF-8 bytes hold a zero byte, which would end the
/// field early on the wire. Callers use this to reject a record before
/// encoding instead of corrupting the wire format.
pub fn str_has_nul(s: &str) -> (b: bool)
    ensures
        b == encode_utf8(s@).contains(0u8),
{
    let raw = s.as_bytes();
    let n = raw.len();
    let mut i: usize = 0;
    let mut found = false;
    while i < n
        invariant
            n == raw@.len(),
            raw@ == encode_utf8(s@),
            0 <= i <= n,
            found == exists|j: int| 0 <= j < i && raw@[j] == 0u8,
        decreases n - i,
    {
        if raw[i] == 0 {
            found = true;
            proof {
                assert(raw@[i as int] == 0u8);
            }
        }
        i += 1;
    }
    found
}

/// Append a string field's raw UTF-8 bytes, without a terminator.
pub(crate) fn put_str(b: &mut bytes::BytesMut, s: &str)
    ensures
        bytes_view(*final(b)) == bytes_view(*old(b)) + encode_utf8(s@),
{
    let raw = s.as_bytes();
    buf_put_slice(b, raw);
}

} // verus!
