//! The two session-opening records: the fixed-size Handshake Request and the
//! variable-size, string-carrying Handshake Response.

use crate::buffer::{
    be_to_i32, buf_clone, buf_get_i32, buf_len, buf_put_i32, buf_put_u8, buf_with_capacity,
    bytes_view, lemma_i32_be_round_trip, u32_be,
};
use crate::encoder::{put_str, str_has_nul, DecodeError, Decoder, Encoder};
use crate::parser::{nul_free, parse_string, spec_parse_outcome, spec_parse_rest};
use vstd::prelude::*;
use vstd::utf8::encode_utf8;

verus! {

/// A client's request to open a session: three integers, twelve wire bytes.
#[derive(Debug, PartialEq)]
pub struct Handshaker {
    pub identifier: i32,
    pub version: i32,
    pub operation_id: i32,
}

impl View for Handshaker {
    type V = Handshaker;

    open spec fn view(&self) -> Handshaker {
        *self
    }
}

impl Encoder for Handshaker {
    open spec fn enc_valid(&self) -> bool {
        true
    }

    open spec fn wire(&self) -> Seq<u8> {
        u32_be(self.identifier as u32) + u32_be(self.version as u32) + u32_be(
            self.operation_id as u32,
        )
    }

    fn encode(&self) -> (r: bytes::BytesMut) {
        let mut r = buf_with_capacity(12);
        buf_put_i32(&mut r, self.identifier);
        buf_put_i32(&mut r, self.version);
        buf_put_i32(&mut r, self.operation_id);
        proof {
            assert(bytes_view(r) =~= self.wire());
        }
        r
    }
}

impl Decoder for Handshaker {
    open spec fn spec_decode(s: Seq<u8>) -> Result<Handshaker, DecodeError> {
        if s.len() < 12 {
            Err(DecodeError::TruncatedInput)
        } else {
            Ok(
                Handshaker {
                    identifier: be_to_i32(s.take(4)),
                    version: be_to_i32(s.skip(4).take(4)),
                    operation_id: be_to_i32(s.skip(8).take(4)),
                },
            )
        }
    }

    open spec fn spec_remainder(s: Seq<u8>) -> Seq<u8> {
        s.skip(12)
    }

    fn decode(encoded_bytes: &mut bytes::BytesMut) -> (r: Result<Self, DecodeError>) {
        let ghost s0 = bytes_view(*encoded_bytes);
        if buf_len(encoded_bytes) < 12 {
            return Err(DecodeError::TruncatedInput);
        }
        let identifier = buf_get_i32(encoded_bytes);
        let version = buf_get_i32(encoded_bytes);
        let operation_id = buf_get_i32(encoded_bytes);
        proof {
            assert(s0.skip(4).skip(4) =~= s0.skip(8));
            assert(s0.skip(8).skip(4) =~= s0.skip(12));
        }
        Ok(Handshaker { identifier, version, operation_id })
    }
}

/// Decoding what a Handshake Request encodes yields the request again and
/// consumes exactly its twelve bytes, whatever follows them.
pub proof fn lemma_handshaker_round_trip(r: Handshaker, rest: Seq<u8>)
    ensures
        Handshaker::spec_decode(r.wire() + rest) == Ok::<Handshaker, DecodeError>(r),
        Handshaker::spec_remainder(r.wire() + rest) == rest,
{
    let s = r.wire() + rest;
    lemma_i32_be_round_trip(r.identifier);
    lemma_i32_be_round_trip(r.version);
    lemma_i32_be_round_trip(r.operation_id);
    assert(s.take(4) =~= u32_be(r.identifier as u32));
    assert(s.skip(4).take(4) =~= u32_be(r.version as u32));
    assert(s.skip(8).take(4) =~= u32_be(r.operation_id as u32));
    assert(s.skip(12) =~= rest);
}

/// A server's answer to the request: four strings and two integers, in the
/// fixed wire order car name, driver name, identifier, version, track name,
/// track configuration.
#[derive(Debug, PartialEq)]
pub struct HandshakerResponse {
    pub car_name: String,
    pub driver_name: String,
    pub identifier: i32,
    pub version: i32,
    pub track_name: String,
    pub track_config: String,
}

/// The abstract value of a Handshake Response: each string as its characters.
#[verifier::ext_equal]
pub struct HandshakerResponseV {
    pub car_name: Seq<char>,
    pub driver_name: Seq<char>,
    pub identifier: i32,
    pub version: i32,
    pub track_name: Seq<char>,
    pub track_config: Seq<char>,
}

impl View for HandshakerResponse {
    type V = HandshakerResponseV;

    open spec fn view(&self) -> HandshakerResponseV {
        HandshakerResponseV {
            car_name: self.car_name@,
            driver_name: self.driver_name@,
            identifier: self.identifier,
            version: self.version,
            track_name: self.track_name@,
            track_config: self.track_config@,
        }
    }
}

/// When a Handshake Response can stand on the wire: no string holds a NUL.
pub open spec fn response_valid(v: HandshakerResponseV) -> bool {
    nul_free(v.car_name) && nul_free(v.driver_name) && nul_free(v.track_name) && nul_free(
        v.track_config,
    )
}

/// The wire bytes of a Handshake Response: each string's UTF-8 bytes followed
/// by one zero byte, the two integers big-endian, in wire order.
pub open spec fn response_wire(v: HandshakerResponseV) -> Seq<u8> {
    encode_utf8(v.car_name) + seq![0u8] + encode_utf8(v.driver_name) + seq![0u8] + u32_be(
        v.identifier as u32,
    ) + u32_be(v.version as u32) + encode_utf8(v.track_name) + seq![0u8] + encode_utf8(
        v.track_config,
    ) + seq![0u8]
}

impl HandshakerResponse {
    /// Check the string fields and encode: a record whose strings hold a NUL
    /// is rejected before encoding, never silently corrupted on the wire.
    pub fn try_encode(&self) -> (r: Option<bytes::BytesMut>)
        ensures
            match r {
                Some(encoded) => self.enc_valid() && bytes_view(encoded) == self.wire(),
                None => !self.enc_valid(),
            },
    {
        if str_has_nul(self.car_name.as_str()) || str_has_nul(self.driver_name.as_str())
            || str_has_nul(self.track_name.as_str()) || str_has_nul(self.track_config.as_str()) {
            None
        } else {
            Some(self.encode())
        }
    }
}

impl Encoder for HandshakerResponse {
    open spec fn enc_valid(&self) -> bool {
        response_valid(self@)
    }

    open spec fn wire(&self) -> Seq<u8> {
        response_wire(self@)
    }

    fn encode(&self) -> (r: bytes::BytesMut) {
        let mut r = buf_with_capacity(100);
        put_str(&mut r, self.car_name.as_str());
        buf_put_u8(&mut r, 0);
        put_str(&mut r, self.driver_name.as_str());
        buf_put_u8(&mut r, 0);
        buf_put_i32(&mut r, self.identifier);
        buf_put_i32(&mut r, self.version);
        put_str(&mut r, self.track_name.as_str());
        buf_put_u8(&mut r, 0);
        put_str(&mut r, self.track_config.as_str());
        buf_put_u8(&mut r, 0);
        proof {
            assert(bytes_view(r) =~= self.wire());
        }
        r
    }
}

impl Decoder for HandshakerResponse {
    open spec fn spec_decode(s: Seq<u8>) -> Result<HandshakerResponseV, DecodeError> {
        match spec_parse_outcome(s) {
            Err(e) => Err(e),
            Ok(None) => Err(DecodeError::TruncatedInput),
            Ok(Some(car_name)) => {
                let s1 = spec_parse_rest(s);
                match spec_parse_outcome(s1) {
                    Err(e) => Err(e),
                    Ok(None) => Err(DecodeError::TruncatedInput),
                    Ok(Some(driver_name)) => {
                        let s2 = spec_parse_rest(s1);
                        if s2.len() < 8 {
                            Err(DecodeError::TruncatedInput)
                        } else {
                            let s3 = s2.skip(8);
                            match spec_parse_outcome(s3) {
                                Err(e) => Err(e),
                                Ok(None) => Err(DecodeError::TruncatedInput),
                                Ok(Some(track_name)) => {
                                    let s4 = spec_parse_rest(s3);
                                    match spec_parse_outcome(s4) {
                                        Err(e) => Err(e),
                                        Ok(None) => Err(DecodeError::TruncatedInput),
                                        Ok(Some(track_config)) => Ok(
                                            HandshakerResponseV {
                                                car_name,
                                                driver_name,
                                                identifier: be_to_i32(s2.take(4)),
                                                version: be_to_i32(s2.skip(4).take(4)),
                                                track_name,
                                                track_config,
                                            },
                                        ),
                                    }
                                },
                            }
                        }
                    },
                }
            },
        }
    }

    open spec fn spec_remainder(s: Seq<u8>) -> Seq<u8> {
        let s1 = spec_parse_rest(s);
        let s2 = spec_parse_rest(s1);
        let s3 = s2.skip(8);
        let s4 = spec_parse_rest(s3);
        spec_parse_rest(s4)
    }

    fn decode(encoded_bytes: &mut bytes::BytesMut) -> (r: Result<Self, DecodeError>) {
        let mut tmp = buf_clone(encoded_bytes);
        let car_name = match parse_string(&mut tmp) {
            Err(e) => { return Err(e) },
            Ok(None) => { return Err(DecodeError::TruncatedInput) },
            Ok(Some(s)) => s,
        };
        let driver_name = match parse_string(&mut tmp) {
            Err(e) => { return Err(e) },
            Ok(None) => { return Err(DecodeError::TruncatedInput) },
            Ok(Some(s)) => s,
        };
        let ghost s2 = bytes_view(tmp);
        if buf_len(&tmp) < 8 {
            return Err(DecodeError::TruncatedInput);
        }
        let identifier = buf_get_i32(&mut tmp);
        let version = buf_get_i32(&mut tmp);
        proof {
            assert(s2.skip(4).skip(4) =~= s2.skip(8));
        }
        let track_name = match parse_string(&mut tmp) {
            Err(e) => { return Err(e) },
            Ok(None) => { return Err(DecodeError::TruncatedInput) },
            Ok(Some(s)) => s,
        };
        let track_config = match parse_string(&mut tmp) {
            Err(e) => { return Err(e) },
            Ok(None) => { return Err(DecodeError::TruncatedInput) },
            Ok(Some(s)) => s,
        };
        *encoded_bytes = tmp;
        Ok(
            HandshakerResponse {
                car_name,
                driver_name,
                identifier,
                version,
                track_name,
                track_config,
            },
        )
    }
}

/// Decoding what a valid Handshake Response encodes yields the response again
/// and consumes exactly its wire bytes, whatever follows them.
pub proof fn lemma_response_round_trip(v: HandshakerResponseV, rest: Seq<u8>)
    requires
        response_valid(v),
    ensures
        HandshakerResponse::spec_decode(response_wire(v) + rest) == Ok::<
            HandshakerResponseV,
            DecodeError,
        >(v),
        HandshakerResponse::spec_remainder(response_wire(v) + rest) == rest,
{
    let s = response_wire(v) + rest;
    let mid = u32_be(v.identifier as u32) + u32_be(v.version as u32);
    let t4 = encode_utf8(v.track_config) + seq![0u8] + rest;
    let t3 = encode_utf8(v.track_name) + seq![0u8] + t4;
    let t2 = mid + t3;
    let t1 = encode_utf8(v.driver_name) + seq![0u8] + t2;
    assert(s =~= encode_utf8(v.car_name) + seq![0u8] + t1);
    crate::parser::lemma_parse_encoded(v.car_name, t1);
    crate::parser::lemma_parse_encoded(v.driver_name, t2);
    lemma_i32_be_round_trip(v.identifier);
    lemma_i32_be_round_trip(v.version);
    assert(t2.take(4) =~= u32_be(v.identifier as u32));
    assert(t2.skip(4).take(4) =~= u32_be(v.version as u32));
    assert(t2.skip(8) =~= t3);
    crate::parser::lemma_parse_encoded(v.track_name, t4);
    crate::parser::lemma_parse_encoded(v.track_config, rest);
}

} // verus!
