//! The null-terminated string parser shared by every decoder.
//!
//! [`parse_string`] consumes one string from the front of a byte cursor. Its
//! behaviour, including the deliberate asymmetry when no terminator is
//! present, is captured exactly by [`spec_parse_outcome`] and
//! [`spec_parse_rest`].

use crate::buffer::{buf_byte_at, buf_len, buf_split_to, bytes_view};
use crate::encoder::DecodeError;
use vstd::prelude::*;
use vstd::utf8::{decode_utf8, encode_utf8, valid_utf8};

verus! {

/// The position of the first zero byte, or the sequence's length when no byte
/// is zero.
pub open spec fn find_zero(s: Seq<u8>) -> int
    decreases s.len(),
{
    if s.len() == 0 {
        0
    } else if s[0] == 0 {
        0
    } else {
        1 + find_zero(s.skip(1))
    }
}

/// `find_zero` points at the first zero byte: everything before it is
/// non-zero, and it is in range exactly when a zero byte exists.
pub proof fn lemma_find_zero(s: Seq<u8>)
    ensures
        0 <= find_zero(s) <= s.len(),
        find_zero(s) < s.len() ==> s[find_zero(s)] == 0,
        forall|j: int| 0 <= j < find_zero(s) ==> s[j] != 0,
    decreases s.len(),
{
    if s.len() == 0 {
    } else if s[0] == 0 {
    } else {
        lemma_find_zero(s.skip(1));
        assert forall|j: int| 0 <= j < find_zero(s) implies s[j] != 0 by {
            if j > 0 {
                assert(s.skip(1)[j - 1] == s[j]);
            }
        }
    }
}

/// A sequence whose first zero byte stands at `i` has `find_zero` equal to
/// `i`; one with no zero byte at all has `find_zero` equal to its length.
pub proof fn lemma_find_zero_at(s: Seq<u8>, i: int)
    requires
        0 <= i <= s.len(),
        forall|j: int| 0 <= j < i ==> s[j] != 0,
        i < s.len() ==> s[i] == 0,
    ensures
        find_zero(s) == i,
{
    lemma_find_zero(s);
}

/// When a string field can stand on the wire: its UTF-8 bytes hold no zero
/// byte, so the field's own bytes cannot end it early.
pub open spec fn nul_free(s: Seq<char>) -> bool {
    !encode_utf8(s).contains(0u8)
}

/// What parsing the front of a buffer yields: no value on an empty buffer,
/// the empty string when no terminator exists, the decoded characters before
/// the first terminator otherwise — unless they are not valid UTF-8.
pub open spec fn spec_parse_outcome(s: Seq<u8>) -> Result<Option<Seq<char>>, DecodeError> {
    if s.len() == 0 {
        Ok(None)
    } else if find_zero(s) == s.len() {
        Ok(Some(Seq::<char>::empty()))
    } else if valid_utf8(s.take(find_zero(s))) {
        Ok(Some(decode_utf8(s.take(find_zero(s)))))
    } else {
        Err(DecodeError::InvalidTextEncoding)
    }
}

/// What parsing leaves in the buffer: everything past the terminator when one
/// was consumed, and the buffer unchanged in every other case — in particular
/// when no terminator exists, the documented asymmetry of this parser.
pub open spec fn spec_parse_rest(s: Seq<u8>) -> Seq<u8> {
    if 0 < s.len() && find_zero(s) < s.len() && valid_utf8(s.take(find_zero(s))) {
        s.skip(find_zero(s) + 1)
    } else {
        s
    }
}

/// Relies on `String::from_utf8`: it succeeds exactly on valid UTF-8 and
/// returns the string of the decoded characters.
#[verifier::external_body]
fn utf8_to_string(v: Vec<u8>) -> (r: Option<String>)
    ensures
        match r {
            Some(s) => valid_utf8(v@) && s@ == decode_utf8(v@),
            None => !valid_utf8(v@),
        },
{
    String::from_utf8(v).ok()
}

/// Consume one null-terminated string from the front of the buffer.
///
/// An empty buffer yields no value. When the buffer holds a zero byte, the
/// bytes before the first one are the string and the buffer is advanced past
/// the terminator; bytes that are not valid UTF-8 are a decode error and the
/// buffer is left unchanged. When the buffer is non-empty but holds no zero
/// byte, the value is the empty string and nothing is consumed.
pub fn parse_string(b: &mut bytes::BytesMut) -> (r: Result<Option<String>, DecodeError>)
    ensures
        bytes_view(*final(b)) == spec_parse_rest(bytes_view(*old(b))),
        match r {
            Ok(None) => spec_parse_outcome(bytes_view(*old(b))) == Ok::<
                Option<Seq<char>>,
                DecodeError,
            >(None),
            Ok(Some(st)) => spec_parse_outcome(bytes_view(*old(b))) == Ok::<
                Option<Seq<char>>,
                DecodeError,
            >(Some(st@)),
            Err(e) => spec_parse_outcome(bytes_view(*old(b))) == Err::<
                Option<Seq<char>>,
                DecodeError,
            >(e),
        },
{
    let ghost s0 = bytes_view(*b);
    let n = buf_len(b);
    if n == 0 {
        return Ok(None);
    }
    let mut i: usize = 0;
    while i < n && buf_byte_at(b, i) != 0
        invariant
            bytes_view(*b) == s0,
            n == s0.len(),
            0 <= i <= n,
            forall|j: int| 0 <= j < i ==> s0[j] != 0,
        decreases n - i,
    {
        i += 1;
    }
    proof {
        lemma_find_zero_at(s0, i as int);
    }
    if i == n {
        return Ok(Some(String::new()));
    }
    let mut prefix: Vec<u8> = Vec::new();
    let mut j: usize = 0;
    while j < i
        invariant
            bytes_view(*b) == s0,
            n == s0.len(),
            0 <= j <= i < n,
            prefix@ == s0.take(j as int),
        decreases i - j,
    {
        let x = buf_byte_at(b, j);
        prefix.push(x);
        proof {
            assert(prefix@ =~= s0.take(j as int + 1));
        }
        j += 1;
    }
    match utf8_to_string(prefix) {
        Some(st) => {
            let _front = buf_split_to(b, i + 1);
            Ok(Some(st))
        },
        None => Err(DecodeError::InvalidTextEncoding),
    }
}

/// Parsing a NUL-free encoded string followed by its terminator yields
/// exactly that string and leaves exactly what followed the terminator.
pub proof fn lemma_parse_encoded(v: Seq<char>, rest: Seq<u8>)
    requires
        nul_free(v),
    ensures
        spec_parse_outcome(encode_utf8(v) + seq![0u8] + rest) == Ok::<
            Option<Seq<char>>,
            DecodeError,
        >(Some(v)),
        spec_parse_rest(encode_utf8(v) + seq![0u8] + rest) == rest,
{
    broadcast use vstd::utf8::encode_utf8_valid_utf8, vstd::utf8::encode_utf8_decode_utf8;

    let e = encode_utf8(v);
    let s = e + seq![0u8] + rest;
    assert forall|j: int| 0 <= j < e.len() implies s[j] != 0 by {
        assert(s[j] == e[j]);
        assert(e[j] != 0) by {
            assert(!e.contains(0u8));
        }
    }
    assert(s[e.len() as int] == 0);
    lemma_find_zero_at(s, e.len() as int);
    assert(s.take(e.len() as int) =~= e);
    assert(s.skip(e.len() as int + 1) =~= rest);
}

} // verus!
