//! The Lap Record: two integers, two strings, one trailing integer.

use crate::buffer::{
    be_to_i32, buf_clone, buf_get_i32, buf_len, buf_put_i32, buf_put_u8, buf_with_capacity,
    bytes_view, lemma_i32_be_round_trip, u32_be,
};
use crate::encoder::{put_str, str_has_nul, DecodeError, Decoder, Encoder};
use crate::parser::{nul_free, parse_string, spec_parse_outcome, spec_parse_rest};
use vstd::prelude::*;
use vstd::utf8::encode_utf8;

verus! {

/// One completed lap: car number, lap number, the two names, and the elapsed
/// lap time in milliseconds.
#[derive(Debug, PartialEq)]
pub struct RTLap {
    pub car_identifier_number: i32,
    pub lap: i32,
    pub driver_name: String,
    pub car_name: String,
    pub time: i32,
}

/// The abstract value of a Lap Record: each string as its characters.
#[verifier::ext_equal]
pub struct RTLapV {
    pub car_identifier_number: i32,
    pub lap: i32,
    pub driver_name: Seq<char>,
    pub car_name: Seq<char>,
    pub time: i32,
}

impl View for RTLap {
    type V = RTLapV;

    open spec fn view(&self) -> RTLapV {
        RTLapV {
            car_identifier_number: self.car_identifier_number,
            lap: self.lap,
            driver_name: self.driver_name@,
            car_name: self.car_name@,
            time: self.time,
        }
    }
}

/// When a Lap Record can stand on the wire: neither string holds a NUL.
pub open spec fn lap_valid(v: RTLapV) -> bool {
    nul_free(v.driver_name) && nul_free(v.car_name)
}

/// The wire bytes of a Lap Record: two big-endian integers, the two strings
/// NUL-terminated, and the big-endian lap time.
pub open spec fn lap_wire(v: RTLapV) -> Seq<u8> {
    u32_be(v.car_identifier_number as u32) + u32_be(v.lap as u32) + encode_utf8(v.driver_name)
        + seq![0u8] + encode_utf8(v.car_name) + seq![0u8] + u32_be(v.time as u32)
}

impl RTLap {
    /// Check the string fields and encode: a record whose strings hold a NUL
    /// is rejected before encoding, never silently corrupted on the wire.
    pub fn try_encode(&self) -> (r: Option<bytes::BytesMut>)
        ensures
            match r {
                Some(encoded) => self.enc_valid() && bytes_view(encoded) == self.wire(),
                None => !self.enc_valid(),
            },
    {
        if str_has_nul(self.driver_name.as_str()) || str_has_nul(self.car_name.as_str()) {
            None
        } else {
            Some(self.encode())
        }
    }
}

impl Encoder for RTLap {
    open spec fn enc_valid(&self) -> bool {
        lap_valid(self@)
    }

    open spec fn wire(&self) -> Seq<u8> {
        lap_wire(self@)
    }

    fn encode(&self) -> (r: bytes::BytesMut) {
        let mut r = buf_with_capacity(100);
        buf_put_i32(&mut r, self.car_identifier_number);
        buf_put_i32(&mut r, self.lap);
        put_str(&mut r, self.driver_name.as_str());
        buf_put_u8(&mut r, 0);
        put_str(&mut r, self.car_name.as_str());
        buf_put_u8(&mut r, 0);
        buf_put_i32(&mut r, self.time);
        proof {
            assert(bytes_view(r) =~= self.wire());
        }
        r
    }
}

impl Decoder for RTLap {
    open spec fn spec_decode(s: Seq<u8>) -> Result<RTLapV, DecodeError> {
        if s.len() < 8 {
            Err(DecodeError::TruncatedInput)
        } else {
            let s1 = s.skip(8);
            match spec_parse_outcome(s1) {
                Err(e) => Err(e),
                Ok(None) => Err(DecodeError::TruncatedInput),
                Ok(Some(driver_name)) => {
                    let s2 = spec_parse_rest(s1);
                    match spec_parse_outcome(s2) {
                        Err(e) => Err(e),
                        Ok(None) => Err(DecodeError::TruncatedInput),
                        Ok(Some(car_name)) => {
                            let s3 = spec_parse_rest(s2);
                            if s3.len() < 4 {
                                Err(DecodeError::TruncatedInput)
                            } else {
                                Ok(
                                    RTLapV {
                                        car_identifier_number: be_to_i32(s.take(4)),
                                        lap: be_to_i32(s.skip(4).take(4)),
                                        driver_name,
                                        car_name,
                                        time: be_to_i32(s3.take(4)),
                                    },
                                )
                            }
                        },
                    }
                },
            }
        }
    }

    open spec fn spec_remainder(s: Seq<u8>) -> Seq<u8> {
        let s1 = s.skip(8);
        let s2 = spec_parse_rest(s1);
        let s3 = spec_parse_rest(s2);
        s3.skip(4)
    }

    fn decode(encoded_bytes: &mut bytes::BytesMut) -> (r: Result<Self, DecodeError>) {
        let ghost s0 = bytes_view(*encoded_bytes);
        let mut tmp = buf_clone(encoded_bytes);
        if buf_len(&tmp) < 8 {
            return Err(DecodeError::TruncatedInput);
        }
        let car_identifier_number = buf_get_i32(&mut tmp);
        let lap = buf_get_i32(&mut tmp);
        proof {
            assert(s0.skip(4).skip(4) =~= s0.skip(8));
        }
        let driver_name = match parse_string(&mut tmp) {
            Err(e) => { return Err(e) },
            Ok(None) => { return Err(DecodeError::TruncatedInput) },
            Ok(Some(s)) => s,
        };
        let car_name = match parse_string(&mut tmp) {
            Err(e) => { return Err(e) },
            Ok(None) => { return Err(DecodeError::TruncatedInput) },
            Ok(Some(s)) => s,
        };
        if buf_len(&tmp) < 4 {
            return Err(DecodeError::TruncatedInput);
        }
        let time = buf_get_i32(&mut tmp);
        *encoded_bytes = tmp;
        Ok(RTLap { car_identifier_number, lap, driver_name, car_name, time })
    }
}

/// Decoding what a valid Lap Record encodes yields the record again and
/// consumes exactly its wire bytes, whatever follows them.
pub proof fn lemma_lap_round_trip(v: RTLapV, rest: Seq<u8>)
    requires
        lap_valid(v),
    ensures
        RTLap::spec_decode(lap_wire(v) + rest) == Ok::<RTLapV, DecodeError>(v),
        RTLap::spec_remainder(lap_wire(v) + rest) == rest,
{
    let s = lap_wire(v) + rest;
    let t3 = u32_be(v.time as u32) + rest;
    let t2 = encode_utf8(v.car_name) + seq![0u8] + t3;
    let t1 = encode_utf8(v.driver_name) + seq![0u8] + t2;
    lemma_i32_be_round_trip(v.car_identifier_number);
    lemma_i32_be_round_trip(v.lap);
    lemma_i32_be_round_trip(v.time);
    assert(s.take(4) =~= u32_be(v.car_identifier_number as u32));
    assert(s.skip(4).take(4) =~= u32_be(v.lap as u32));
    assert(s.skip(8) =~= t1);
    crate::parser::lemma_parse_encoded(v.driver_name, t2);
    crate::parser::lemma_parse_encoded(v.car_name, t3);
    assert(t3.take(4) =~= u32_be(v.time as u32));
    assert(t3.skip(4) =~= rest);
}

} // verus!
