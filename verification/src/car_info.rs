//! The Car Telemetry Frame: the densest record, one fixed 351-byte block of
//! scalar channels, six flag bytes, and seventeen per-wheel quadruples.
//!
//! The simulator's scalar channels are single-precision values on the wire;
//! the codec never interprets them numerically, so each such field is carried
//! here as the raw 32-bit big-endian payload of its four wire bytes.

use crate::buffer::{
    be_to_i32, be_to_u32, buf_byte_at, buf_len, buf_put_i32, buf_put_u32, buf_put_u8,
    buf_split_to, buf_with_capacity, bytes_view, lemma_concat_assoc, lemma_concat_parts,
    lemma_i32_be_round_trip,
    lemma_u32_be_round_trip, u32_be,
};
use crate::encoder::{DecodeError, Decoder, Encoder};
use vstd::prelude::*;

verus! {

/// The fixed wire size of a Car Telemetry Frame.
pub const RT_CAR_WIRE_LEN: usize = 351;

/// The single wire byte of the frame's character identifier.
pub open spec fn char_byte(c: char) -> u8 {
    (c as u32) as u8
}

/// The single wire byte of a flag: 1 for true, 0 for false.
pub open spec fn bool_byte(b: bool) -> u8 {
    if b { 1 } else { 0 }
}

/// When a flag byte is well-formed on the wire.
pub open spec fn flag_byte_ok(b: u8) -> bool {
    b == 0 || b == 1
}

/// The big-endian wire bytes of one four-element quadruple.
pub open spec fn quad_be(q: Seq<u32>) -> Seq<u8>
    recommends
        q.len() == 4,
{
    u32_be(q[0]) + u32_be(q[1]) + u32_be(q[2]) + u32_be(q[3])
}

/// The four values a sixteen-byte big-endian block holds, in index order.
pub open spec fn quad_vals(s: Seq<u8>) -> Seq<u32>
    recommends
        s.len() == 16,
{
    seq![
        be_to_u32(s.subrange(0, 4)),
        be_to_u32(s.subrange(4, 8)),
        be_to_u32(s.subrange(8, 12)),
        be_to_u32(s.subrange(12, 16)),
    ]
}

/// The values of a quadruple's own wire bytes are the quadruple again.
proof fn lemma_quad_vals_be(q: Seq<u32>)
    requires
        q.len() == 4,
    ensures
        quad_vals(quad_be(q)) == q,
{
    let s = quad_be(q);
    lemma_u32_be_round_trip(q[0]);
    lemma_u32_be_round_trip(q[1]);
    lemma_u32_be_round_trip(q[2]);
    lemma_u32_be_round_trip(q[3]);
    assert(s.subrange(0, 4) =~= u32_be(q[0]));
    assert(s.subrange(4, 8) =~= u32_be(q[1]));
    assert(s.subrange(8, 12) =~= u32_be(q[2]));
    assert(s.subrange(12, 16) =~= u32_be(q[3]));
    assert(quad_vals(s) =~= q);
}

/// Append one quadruple, element by element in index order.
fn put_quad(b: &mut bytes::BytesMut, q: &[u32; 4])
    ensures
        bytes_view(*final(b)) == bytes_view(*old(b)) + quad_be(q@),
{
    buf_put_u32(b, q[0]);
    buf_put_u32(b, q[1]);
    buf_put_u32(b, q[2]);
    buf_put_u32(b, q[3]);
    proof {
        assert(bytes_view(*b) =~= bytes_view(*old(b)) + quad_be(q@));
    }
}

/// The big-endian 32-bit value at a byte position, read without consuming.
fn u32_at(b: &bytes::BytesMut, off: usize) -> (x: u32)
    requires
        off + 4 <= bytes_view(*b).len(),
    ensures
        x == be_to_u32(bytes_view(*b).subrange(off as int, off as int + 4)),
{
    let _n = buf_len(b);
    let b0 = buf_byte_at(b, off);
    let b1 = buf_byte_at(b, off + 1);
    let b2 = buf_byte_at(b, off + 2);
    let b3 = buf_byte_at(b, off + 3);
    let x: u32 = ((b0 as u32) << 24) | ((b1 as u32) << 16) | ((b2 as u32) << 8) | (b3 as u32);
    proof {
        let t = bytes_view(*b).subrange(off as int, off as int + 4);
        assert(t[0] == b0 && t[1] == b1 && t[2] == b2 && t[3] == b3);
    }
    x
}

/// The big-endian signed 32-bit value at a byte position, read without
/// consuming.
fn i32_at(b: &bytes::BytesMut, off: usize) -> (x: i32)
    requires
        off + 4 <= bytes_view(*b).len(),
    ensures
        x == be_to_i32(bytes_view(*b).subrange(off as int, off as int + 4)),
{
    let u = u32_at(b, off);
    u as i32
}

/// The quadruple whose sixteen bytes stand at a byte position, read without
/// consuming.
fn quad_at(b: &bytes::BytesMut, off: usize) -> (r: [u32; 4])
    requires
        off + 16 <= bytes_view(*b).len(),
    ensures
        r@ == quad_vals(bytes_view(*b).subrange(off as int, off as int + 16)),
{
    let _n = buf_len(b);
    let x0 = u32_at(b, off);
    let x1 = u32_at(b, off + 4);
    let x2 = u32_at(b, off + 8);
    let x3 = u32_at(b, off + 12);
    let r = [x0, x1, x2, x3];
    proof {
        let s = bytes_view(*b);
        let t = s.subrange(off as int, off as int + 16);
        assert(t.subrange(0, 4) =~= s.subrange(off as int, off as int + 4));
        assert(t.subrange(4, 8) =~= s.subrange(off as int + 4, off as int + 8));
        assert(t.subrange(8, 12) =~= s.subrange(off as int + 8, off as int + 12));
        assert(t.subrange(12, 16) =~= s.subrange(off as int + 12, off as int + 16));
        assert(r@ =~= quad_vals(t));
    }
    r
}

/// One telemetry frame of the simulated car, in its exact wire order.
#[derive(Debug, PartialEq)]
pub struct RTCarInfo {
    pub identifier: char,
    pub size: i32,
    pub speed_kmh: u32,
    pub speed_mph: u32,
    pub speed_ms: u32,
    pub is_abs_enabled: bool,
    pub is_abs_in_action: bool,
    pub is_tc_in_action: bool,
    pub is_tc_enabled: bool,
    pub is_in_pit: bool,
    pub is_engine_limiter_on: bool,
    pub accg_vertical: u32,
    pub accg_horizontal: u32,
    pub accg_frontal: u32,
    pub lap_time: i32,
    pub last_lap: i32,
    pub best_lap: i32,
    pub lap_count: i32,
    pub gas: u32,
    pub brake: u32,
    pub clutch: u32,
    pub engine_rpm: u32,
    pub steer: u32,
    pub gear: i32,
    pub cg_height: u32,
    pub wheel_angular_speed: [u32; 4],
    pub slip_angle: [u32; 4],
    pub slip_angle_contact_patch: [u32; 4],
    pub slip_ratio: [u32; 4],
    pub tyre_slip: [u32; 4],
    pub nd_slip: [u32; 4],
    pub load: [u32; 4],
    pub dy: [u32; 4],
    pub mz: [u32; 4],
    pub tyre_dirty_level: [u32; 4],
    pub camber_rad: [u32; 4],
    pub tyre_radius: [u32; 4],
    pub tyre_loaded_radius: [u32; 4],
    pub suspension_height: [u32; 4],
    pub car_position_normalizes: [u32; 4],
    pub car_slope: [u32; 4],
    pub car_coordinates: [u32; 4],
}

/// The abstract value of a Car Telemetry Frame: quadruples as sequences.
pub struct RTCarInfoV {
    pub identifier: char,
    pub size: i32,
    pub speed_kmh: u32,
    pub speed_mph: u32,
    pub speed_ms: u32,
    pub is_abs_enabled: bool,
    pub is_abs_in_action: bool,
    pub is_tc_in_action: bool,
    pub is_tc_enabled: bool,
    pub is_in_pit: bool,
    pub is_engine_limiter_on: bool,
    pub accg_vertical: u32,
    pub accg_horizontal: u32,
    pub accg_frontal: u32,
    pub lap_time: i32,
    pub last_lap: i32,
    pub best_lap: i32,
    pub lap_count: i32,
    pub gas: u32,
    pub brake: u32,
    pub clutch: u32,
    pub engine_rpm: u32,
    pub steer: u32,
    pub gear: i32,
    pub cg_height: u32,
    pub wheel_angular_speed: Seq<u32>,
    pub slip_angle: Seq<u32>,
    pub slip_angle_contact_patch: Seq<u32>,
    pub slip_ratio: Seq<u32>,
    pub tyre_slip: Seq<u32>,
    pub nd_slip: Seq<u32>,
    pub load: Seq<u32>,
    pub dy: Seq<u32>,
    pub mz: Seq<u32>,
    pub tyre_dirty_level: Seq<u32>,
    pub camber_rad: Seq<u32>,
    pub tyre_radius: Seq<u32>,
    pub tyre_loaded_radius: Seq<u32>,
    pub suspension_height: Seq<u32>,
    pub car_position_normalizes: Seq<u32>,
    pub car_slope: Seq<u32>,
    pub car_coordinates: Seq<u32>,
}

impl View for RTCarInfo {
    type V = RTCarInfoV;

    open spec fn view(&self) -> RTCarInfoV {
        RTCarInfoV {
            identifier: self.identifier,
            size: self.size,
            speed_kmh: self.speed_kmh,
            speed_mph: self.speed_mph,
            speed_ms: self.speed_ms,
            is_abs_enabled: self.is_abs_enabled,
            is_abs_in_action: self.is_abs_in_action,
            is_tc_in_action: self.is_tc_in_action,
            is_tc_enabled: self.is_tc_enabled,
            is_in_pit: self.is_in_pit,
            is_engine_limiter_on: self.is_engine_limiter_on,
            accg_vertical: self.accg_vertical,
            accg_horizontal: self.accg_horizontal,
            accg_frontal: self.accg_frontal,
            lap_time: self.lap_time,
            last_lap: self.last_lap,
            best_lap: self.best_lap,
            lap_count: self.lap_count,
            gas: self.gas,
            brake: self.brake,
            clutch: self.clutch,
            engine_rpm: self.engine_rpm,
            steer: self.steer,
            gear: self.gear,
            cg_height: self.cg_height,
            wheel_angular_speed: self.wheel_angular_speed@,
            slip_angle: self.slip_angle@,
            slip_angle_contact_patch: self.slip_angle_contact_patch@,
            slip_ratio: self.slip_ratio@,
            tyre_slip: self.tyre_slip@,
            nd_slip: self.nd_slip@,
            load: self.load@,
            dy: self.dy@,
            mz: self.mz@,
            tyre_dirty_level: self.tyre_dirty_level@,
            camber_rad: self.camber_rad@,
            tyre_radius: self.tyre_radius@,
            tyre_loaded_radius: self.tyre_loaded_radius@,
            suspension_height: self.suspension_height@,
            car_position_normalizes: self.car_position_normalizes@,
            car_slope: self.car_slope@,
            car_coordinates: self.car_coordinates@,
        }
    }
}

/// When a Car Telemetry Frame value can stand on the wire: the identifier
/// fits in its single byte, and every quadruple has its four elements.
pub open spec fn car_v_valid(v: RTCarInfoV) -> bool {
    &&& v.identifier as u32 <= 255
    &&& v.wheel_angular_speed.len() == 4
    &&& v.slip_angle.len() == 4
    &&& v.slip_angle_contact_patch.len() == 4
    &&& v.slip_ratio.len() == 4
    &&& v.tyre_slip.len() == 4
    &&& v.nd_slip.len() == 4
    &&& v.load.len() == 4
    &&& v.dy.len() == 4
    &&& v.mz.len() == 4
    &&& v.tyre_dirty_level.len() == 4
    &&& v.camber_rad.len() == 4
    &&& v.tyre_radius.len() == 4
    &&& v.tyre_loaded_radius.len() == 4
    &&& v.suspension_height.len() == 4
    &&& v.car_position_normalizes.len() == 4
    &&& v.car_slope.len() == 4
    &&& v.car_coordinates.len() == 4
}

/// A block of the frame's wire bytes: the identifier byte, the size, and the three speeds.
#[verifier::opaque]
pub open spec fn car_head_bytes(v: RTCarInfoV) -> Seq<u8> {
    seq![char_byte(v.identifier)] + u32_be(v.size as u32) + u32_be(v.speed_kmh) + u32_be(v.speed_mph) + u32_be(v.speed_ms)
}

/// A block of the frame's wire bytes: the three accelerations and the four lap-timing integers.
#[verifier::opaque]
pub open spec fn car_mid_a_bytes(v: RTCarInfoV) -> Seq<u8> {
    u32_be(v.accg_vertical) + u32_be(v.accg_horizontal) + u32_be(v.accg_frontal) + u32_be(v.lap_time as u32) + u32_be(v.last_lap as u32) + u32_be(v.best_lap as u32) + u32_be(v.lap_count as u32)
}

/// A block of the frame's wire bytes: the five control inputs, the gear, and the centre-of-gravity height.
#[verifier::opaque]
pub open spec fn car_mid_b_bytes(v: RTCarInfoV) -> Seq<u8> {
    u32_be(v.gas) + u32_be(v.brake) + u32_be(v.clutch) + u32_be(v.engine_rpm) + u32_be(v.steer) + u32_be(v.gear as u32) + u32_be(v.cg_height)
}

/// A block of the frame's wire bytes: the first six per-wheel quadruples.
#[verifier::opaque]
pub open spec fn car_quad_a_bytes(v: RTCarInfoV) -> Seq<u8> {
    quad_be(v.wheel_angular_speed) + quad_be(v.slip_angle) + quad_be(v.slip_angle_contact_patch) + quad_be(v.slip_ratio) + quad_be(v.tyre_slip) + quad_be(v.nd_slip)
}

/// A block of the frame's wire bytes: the next six per-wheel quadruples.
#[verifier::opaque]
pub open spec fn car_quad_b_bytes(v: RTCarInfoV) -> Seq<u8> {
    quad_be(v.load) + quad_be(v.dy) + quad_be(v.mz) + quad_be(v.tyre_dirty_level) + quad_be(v.camber_rad) + quad_be(v.tyre_radius)
}

/// A block of the frame's wire bytes: the last five per-wheel quadruples.
#[verifier::opaque]
pub open spec fn car_quad_c_bytes(v: RTCarInfoV) -> Seq<u8> {
    quad_be(v.tyre_loaded_radius) + quad_be(v.suspension_height) + quad_be(v.car_position_normalizes) + quad_be(v.car_slope) + quad_be(v.car_coordinates)
}

/// The six flag bytes, in declaration order.
#[verifier::opaque]
pub open spec fn car_flag_bytes(v: RTCarInfoV) -> Seq<u8> {
    seq![bool_byte(v.is_abs_enabled), bool_byte(v.is_abs_in_action), bool_byte(v.is_tc_in_action), bool_byte(v.is_tc_enabled), bool_byte(v.is_in_pit), bool_byte(v.is_engine_limiter_on)]
}

/// The wire bytes of a Car Telemetry Frame: every field at its fixed width,
/// big-endian, in declaration order.
pub open spec fn car_wire(v: RTCarInfoV) -> Seq<u8> {
    car_head_bytes(v) + car_flag_bytes(v) + car_mid_a_bytes(v) + car_mid_b_bytes(v)
        + car_quad_a_bytes(v) + car_quad_b_bytes(v) + car_quad_c_bytes(v)
}

/// Append the leading block of the frame.
fn append_head(b: &mut bytes::BytesMut, c: &RTCarInfo)
    requires
        c.identifier as u32 <= 255,
    ensures
        bytes_view(*final(b)) == bytes_view(*old(b)) + car_head_bytes(c@),
{
    buf_put_u8(b, (c.identifier as u32) as u8);
    buf_put_i32(b, c.size);
    buf_put_u32(b, c.speed_kmh);
    buf_put_u32(b, c.speed_mph);
    buf_put_u32(b, c.speed_ms);
    proof {
        reveal(car_head_bytes);
        assert(bytes_view(*b) =~= bytes_view(*old(b)) + car_head_bytes(c@));
    }
}

/// Append the six flag bytes of the frame.
fn append_flags(b: &mut bytes::BytesMut, c: &RTCarInfo)
    ensures
        bytes_view(*final(b)) == bytes_view(*old(b)) + car_flag_bytes(c@),
{
    buf_put_u8(b, if c.is_abs_enabled { 1 } else { 0 });
    buf_put_u8(b, if c.is_abs_in_action { 1 } else { 0 });
    buf_put_u8(b, if c.is_tc_in_action { 1 } else { 0 });
    buf_put_u8(b, if c.is_tc_enabled { 1 } else { 0 });
    buf_put_u8(b, if c.is_in_pit { 1 } else { 0 });
    buf_put_u8(b, if c.is_engine_limiter_on { 1 } else { 0 });
    proof {
        reveal(car_flag_bytes);
        assert(bytes_view(*b) =~= bytes_view(*old(b)) + car_flag_bytes(c@));
    }
}

/// Append one scalar block of the frame.
fn append_mid_a(b: &mut bytes::BytesMut, c: &RTCarInfo)
    ensures
        bytes_view(*final(b)) == bytes_view(*old(b)) + car_mid_a_bytes(c@),
{
    buf_put_u32(b, c.accg_vertical);
    buf_put_u32(b, c.accg_horizontal);
    buf_put_u32(b, c.accg_frontal);
    buf_put_i32(b, c.lap_time);
    buf_put_i32(b, c.last_lap);
    buf_put_i32(b, c.best_lap);
    buf_put_i32(b, c.lap_count);
    proof {
        reveal(car_mid_a_bytes);
        assert(bytes_view(*b) =~= bytes_view(*old(b)) + car_mid_a_bytes(c@));
    }
}

/// Append one scalar block of the frame.
fn append_mid_b(b: &mut bytes::BytesMut, c: &RTCarInfo)
    ensures
        bytes_view(*final(b)) == bytes_view(*old(b)) + car_mid_b_bytes(c@),
{
    buf_put_u32(b, c.gas);
    buf_put_u32(b, c.brake);
    buf_put_u32(b, c.clutch);
    buf_put_u32(b, c.engine_rpm);
    buf_put_u32(b, c.steer);
    buf_put_i32(b, c.gear);
    buf_put_u32(b, c.cg_height);
    proof {
        reveal(car_mid_b_bytes);
        assert(bytes_view(*b) =~= bytes_view(*old(b)) + car_mid_b_bytes(c@));
    }
}

/// Append one run of per-wheel quadruples of the frame.
fn append_quads_a(b: &mut bytes::BytesMut, c: &RTCarInfo)
    ensures
        bytes_view(*final(b)) == bytes_view(*old(b)) + car_quad_a_bytes(c@),
{
    put_quad(b, &c.wheel_angular_speed);
    put_quad(b, &c.slip_angle);
    put_quad(b, &c.slip_angle_contact_patch);
    put_quad(b, &c.slip_ratio);
    put_quad(b, &c.tyre_slip);
    put_quad(b, &c.nd_slip);
    proof {
        reveal(car_quad_a_bytes);
        assert(bytes_view(*b) =~= bytes_view(*old(b)) + car_quad_a_bytes(c@));
    }
}

/// Append one run of per-wheel quadruples of the frame.
fn append_quads_b(b: &mut bytes::BytesMut, c: &RTCarInfo)
    ensures
        bytes_view(*final(b)) == bytes_view(*old(b)) + car_quad_b_bytes(c@),
{
    put_quad(b, &c.load);
    put_quad(b, &c.dy);
    put_quad(b, &c.mz);
    put_quad(b, &c.tyre_dirty_level);
    put_quad(b, &c.camber_rad);
    put_quad(b, &c.tyre_radius);
    proof {
        reveal(car_quad_b_bytes);
        assert(bytes_view(*b) =~= bytes_view(*old(b)) + car_quad_b_bytes(c@));
    }
}

/// Append one run of per-wheel quadruples of the frame.
fn append_quads_c(b: &mut bytes::BytesMut, c: &RTCarInfo)
    ensures
        bytes_view(*final(b)) == bytes_view(*old(b)) + car_quad_c_bytes(c@),
{
    put_quad(b, &c.tyre_loaded_radius);
    put_quad(b, &c.suspension_height);
    put_quad(b, &c.car_position_normalizes);
    put_quad(b, &c.car_slope);
    put_quad(b, &c.car_coordinates);
    proof {
        reveal(car_quad_c_bytes);
        assert(bytes_view(*b) =~= bytes_view(*old(b)) + car_quad_c_bytes(c@));
    }
}

impl Encoder for RTCarInfo {
    open spec fn enc_valid(&self) -> bool {
        self.identifier as u32 <= 255
    }

    open spec fn wire(&self) -> Seq<u8> {
        car_wire(self@)
    }

    fn encode(&self) -> (r: bytes::BytesMut) {
        let mut r = buf_with_capacity(RT_CAR_WIRE_LEN);
        append_head(&mut r, self);
        append_flags(&mut r, self);
        append_mid_a(&mut r, self);
        append_mid_b(&mut r, self);
        append_quads_a(&mut r, self);
        append_quads_b(&mut r, self);
        append_quads_c(&mut r, self);
        proof {
            assert(bytes_view(r) =~= self.wire());
        }
        r
    }
}

impl Decoder for RTCarInfo {
    open spec fn spec_decode(s: Seq<u8>) -> Result<RTCarInfoV, DecodeError> {
        if s.len() < RT_CAR_WIRE_LEN {
            Err(DecodeError::TruncatedInput)
        } else if !(flag_byte_ok(s[17]) && flag_byte_ok(s[18]) && flag_byte_ok(s[19]) && flag_byte_ok(s[20]) && flag_byte_ok(s[21]) && flag_byte_ok(s[22])) {
            Err(DecodeError::OutOfRangeBooleanByte)
        } else {
            Ok(
                RTCarInfoV {
                    identifier: s[0] as char,
                    size: be_to_i32(s.subrange(1, 5)),
                    speed_kmh: be_to_u32(s.subrange(5, 9)),
                    speed_mph: be_to_u32(s.subrange(9, 13)),
                    speed_ms: be_to_u32(s.subrange(13, 17)),
                    is_abs_enabled: s[17] == 1,
                    is_abs_in_action: s[18] == 1,
                    is_tc_in_action: s[19] == 1,
                    is_tc_enabled: s[20] == 1,
                    is_in_pit: s[21] == 1,
                    is_engine_limiter_on: s[22] == 1,
                    accg_vertical: be_to_u32(s.subrange(23, 27)),
                    accg_horizontal: be_to_u32(s.subrange(27, 31)),
                    accg_frontal: be_to_u32(s.subrange(31, 35)),
                    lap_time: be_to_i32(s.subrange(35, 39)),
                    last_lap: be_to_i32(s.subrange(39, 43)),
                    best_lap: be_to_i32(s.subrange(43, 47)),
                    lap_count: be_to_i32(s.subrange(47, 51)),
                    gas: be_to_u32(s.subrange(51, 55)),
                    brake: be_to_u32(s.subrange(55, 59)),
                    clutch: be_to_u32(s.subrange(59, 63)),
                    engine_rpm: be_to_u32(s.subrange(63, 67)),
                    steer: be_to_u32(s.subrange(67, 71)),
                    gear: be_to_i32(s.subrange(71, 75)),
                    cg_height: be_to_u32(s.subrange(75, 79)),
                    wheel_angular_speed: quad_vals(s.subrange(79, 95)),
                    slip_angle: quad_vals(s.subrange(95, 111)),
                    slip_angle_contact_patch: quad_vals(s.subrange(111, 127)),
                    slip_ratio: quad_vals(s.subrange(127, 143)),
                    tyre_slip: quad_vals(s.subrange(143, 159)),
                    nd_slip: quad_vals(s.subrange(159, 175)),
                    load: quad_vals(s.subrange(175, 191)),
                    dy: quad_vals(s.subrange(191, 207)),
                    mz: quad_vals(s.subrange(207, 223)),
                    tyre_dirty_level: quad_vals(s.subrange(223, 239)),
                    camber_rad: quad_vals(s.subrange(239, 255)),
                    tyre_radius: quad_vals(s.subrange(255, 271)),
                    tyre_loaded_radius: quad_vals(s.subrange(271, 287)),
                    suspension_height: quad_vals(s.subrange(287, 303)),
                    car_position_normalizes: quad_vals(s.subrange(303, 319)),
                    car_slope: quad_vals(s.subrange(319, 335)),
                    car_coordinates: quad_vals(s.subrange(335, 351)),
                },
            )
        }
    }

    open spec fn spec_remainder(s: Seq<u8>) -> Seq<u8> {
        s.skip(RT_CAR_WIRE_LEN as int)
    }

    fn decode(encoded_bytes: &mut bytes::BytesMut) -> (r: Result<Self, DecodeError>) {
        if buf_len(encoded_bytes) < RT_CAR_WIRE_LEN {
            return Err(DecodeError::TruncatedInput);
        }
        let fb0 = buf_byte_at(encoded_bytes, 17);
        let fb1 = buf_byte_at(encoded_bytes, 18);
        let fb2 = buf_byte_at(encoded_bytes, 19);
        let fb3 = buf_byte_at(encoded_bytes, 20);
        let fb4 = buf_byte_at(encoded_bytes, 21);
        let fb5 = buf_byte_at(encoded_bytes, 22);
        if !((fb0 == 0 || fb0 == 1) && (fb1 == 0 || fb1 == 1) && (fb2 == 0 || fb2 == 1) && (fb3 == 0 || fb3 == 1) && (fb4 == 0 || fb4 == 1) && (fb5 == 0 || fb5 == 1)) {
            return Err(DecodeError::OutOfRangeBooleanByte);
        }
        let idb = buf_byte_at(encoded_bytes, 0);
        let identifier = idb as char;
        let size = i32_at(encoded_bytes, 1);
        let speed_kmh = u32_at(encoded_bytes, 5);
        let speed_mph = u32_at(encoded_bytes, 9);
        let speed_ms = u32_at(encoded_bytes, 13);
        let is_abs_enabled_b = buf_byte_at(encoded_bytes, 17);
        let is_abs_enabled = is_abs_enabled_b == 1;
        let is_abs_in_action_b = buf_byte_at(encoded_bytes, 18);
        let is_abs_in_action = is_abs_in_action_b == 1;
        let is_tc_in_action_b = buf_byte_at(encoded_bytes, 19);
        let is_tc_in_action = is_tc_in_action_b == 1;
        let is_tc_enabled_b = buf_byte_at(encoded_bytes, 20);
        let is_tc_enabled = is_tc_enabled_b == 1;
        let is_in_pit_b = buf_byte_at(encoded_bytes, 21);
        let is_in_pit = is_in_pit_b == 1;
        let is_engine_limiter_on_b = buf_byte_at(encoded_bytes, 22);
        let is_engine_limiter_on = is_engine_limiter_on_b == 1;
        let accg_vertical = u32_at(encoded_bytes, 23);
        let accg_horizontal = u32_at(encoded_bytes, 27);
        let accg_frontal = u32_at(encoded_bytes, 31);
        let lap_time = i32_at(encoded_bytes, 35);
        let last_lap = i32_at(encoded_bytes, 39);
        let best_lap = i32_at(encoded_bytes, 43);
        let lap_count = i32_at(encoded_bytes, 47);
        let gas = u32_at(encoded_bytes, 51);
        let brake = u32_at(encoded_bytes, 55);
        let clutch = u32_at(encoded_bytes, 59);
        let engine_rpm = u32_at(encoded_bytes, 63);
        let steer = u32_at(encoded_bytes, 67);
        let gear = i32_at(encoded_bytes, 71);
        let cg_height = u32_at(encoded_bytes, 75);
        let wheel_angular_speed = quad_at(encoded_bytes, 79);
        let slip_angle = quad_at(encoded_bytes, 95);
        let slip_angle_contact_patch = quad_at(encoded_bytes, 111);
        let slip_ratio = quad_at(encoded_bytes, 127);
        let tyre_slip = quad_at(encoded_bytes, 143);
        let nd_slip = quad_at(encoded_bytes, 159);
        let load = quad_at(encoded_bytes, 175);
        let dy = quad_at(encoded_bytes, 191);
        let mz = quad_at(encoded_bytes, 207);
        let tyre_dirty_level = quad_at(encoded_bytes, 223);
        let camber_rad = quad_at(encoded_bytes, 239);
        let tyre_radius = quad_at(encoded_bytes, 255);
        let tyre_loaded_radius = quad_at(encoded_bytes, 271);
        let suspension_height = quad_at(encoded_bytes, 287);
        let car_position_normalizes = quad_at(encoded_bytes, 303);
        let car_slope = quad_at(encoded_bytes, 319);
        let car_coordinates = quad_at(encoded_bytes, 335);
        let _front = buf_split_to(encoded_bytes, RT_CAR_WIRE_LEN);
        Ok(
            RTCarInfo {
                identifier,
                size,
                speed_kmh,
                speed_mph,
                speed_ms,
                is_abs_enabled,
                is_abs_in_action,
                is_tc_in_action,
                is_tc_enabled,
                is_in_pit,
                is_engine_limiter_on,
                accg_vertical,
                accg_horizontal,
                accg_frontal,
                lap_time,
                last_lap,
                best_lap,
                lap_count,
                gas,
                brake,
                clutch,
                engine_rpm,
                steer,
                gear,
                cg_height,
                wheel_angular_speed,
                slip_angle,
                slip_angle_contact_patch,
                slip_ratio,
                tyre_slip,
                nd_slip,
                load,
                dy,
                mz,
                tyre_dirty_level,
                camber_rad,
                tyre_radius,
                tyre_loaded_radius,
                suspension_height,
                car_position_normalizes,
                car_slope,
                car_coordinates,
            },
        )
    }
}

/// The leading block's wire bytes hold its fields at their offsets.
#[verifier::rlimit(100)]
#[verifier::spinoff_prover]
proof fn lemma_head_at(v: RTCarInfoV, s: Seq<u8>, t: Seq<u8>)
    requires
        v.identifier as u32 <= 255,
        s.len() >= 17,
        s == car_head_bytes(v) + t,
    ensures
        s[0] as char == v.identifier,
        be_to_i32(s.subrange(1, 5)) == v.size,
        be_to_u32(s.subrange(5, 9)) == v.speed_kmh,
        be_to_u32(s.subrange(9, 13)) == v.speed_mph,
        be_to_u32(s.subrange(13, 17)) == v.speed_ms,
        s.skip(17) == t,
{
    reveal(car_head_bytes);
        vstd::utf8::char_u32_cast(v.identifier, v.identifier as u32);
    let m = s;
    assert(m[0] == char_byte(v.identifier));
    assert(m.subrange(1, 5) =~= u32_be(v.size as u32));
    lemma_i32_be_round_trip(v.size);
    assert(m.subrange(5, 9) =~= u32_be(v.speed_kmh));
    lemma_u32_be_round_trip(v.speed_kmh);
    assert(m.subrange(9, 13) =~= u32_be(v.speed_mph));
    lemma_u32_be_round_trip(v.speed_mph);
    assert(m.subrange(13, 17) =~= u32_be(v.speed_ms));
    lemma_u32_be_round_trip(v.speed_ms);
    lemma_concat_parts(car_head_bytes(v), t);
    assert(s.skip(17) =~= m.skip(17));
}

/// The six flag bytes hold each flag's byte at its offset.
#[verifier::rlimit(100)]
#[verifier::spinoff_prover]
proof fn lemma_flags_at(v: RTCarInfoV, s: Seq<u8>, t: Seq<u8>)
    requires
        s.len() >= 23,
        s.skip(17) == car_flag_bytes(v) + t,
    ensures
        s[17] == bool_byte(v.is_abs_enabled),
        s[18] == bool_byte(v.is_abs_in_action),
        s[19] == bool_byte(v.is_tc_in_action),
        s[20] == bool_byte(v.is_tc_enabled),
        s[21] == bool_byte(v.is_in_pit),
        s[22] == bool_byte(v.is_engine_limiter_on),
        s.skip(23) == t,
{
    reveal(car_flag_bytes);
    let m = s.skip(17);
    assert(m[0] == bool_byte(v.is_abs_enabled));
    assert(s[17] == m[0]);
    assert(m[1] == bool_byte(v.is_abs_in_action));
    assert(s[18] == m[1]);
    assert(m[2] == bool_byte(v.is_tc_in_action));
    assert(s[19] == m[2]);
    assert(m[3] == bool_byte(v.is_tc_enabled));
    assert(s[20] == m[3]);
    assert(m[4] == bool_byte(v.is_in_pit));
    assert(s[21] == m[4]);
    assert(m[5] == bool_byte(v.is_engine_limiter_on));
    assert(s[22] == m[5]);
    lemma_concat_parts(car_flag_bytes(v), t);
    assert(s.skip(23) =~= m.skip(6));
}

/// The acceleration and lap-timing block holds its fields at their offsets.
#[verifier::rlimit(100)]
#[verifier::spinoff_prover]
proof fn lemma_mid_a_at(v: RTCarInfoV, s: Seq<u8>, t: Seq<u8>)
    requires
        s.len() >= 51,
        s.skip(23) == car_mid_a_bytes(v) + t,
    ensures
        be_to_u32(s.subrange(23, 27)) == v.accg_vertical,
        be_to_u32(s.subrange(27, 31)) == v.accg_horizontal,
        be_to_u32(s.subrange(31, 35)) == v.accg_frontal,
        be_to_i32(s.subrange(35, 39)) == v.lap_time,
        be_to_i32(s.subrange(39, 43)) == v.last_lap,
        be_to_i32(s.subrange(43, 47)) == v.best_lap,
        be_to_i32(s.subrange(47, 51)) == v.lap_count,
        s.skip(51) == t,
{
    reveal(car_mid_a_bytes);
    let m = s.skip(23);
    assert(m.subrange(0, 4) =~= u32_be(v.accg_vertical));
    assert(s.subrange(23, 27) =~= m.subrange(0, 4));
    lemma_u32_be_round_trip(v.accg_vertical);
    assert(m.subrange(4, 8) =~= u32_be(v.accg_horizontal));
    assert(s.subrange(27, 31) =~= m.subrange(4, 8));
    lemma_u32_be_round_trip(v.accg_horizontal);
    assert(m.subrange(8, 12) =~= u32_be(v.accg_frontal));
    assert(s.subrange(31, 35) =~= m.subrange(8, 12));
    lemma_u32_be_round_trip(v.accg_frontal);
    assert(m.subrange(12, 16) =~= u32_be(v.lap_time as u32));
    assert(s.subrange(35, 39) =~= m.subrange(12, 16));
    lemma_i32_be_round_trip(v.lap_time);
    assert(m.subrange(16, 20) =~= u32_be(v.last_lap as u32));
    assert(s.subrange(39, 43) =~= m.subrange(16, 20));
    lemma_i32_be_round_trip(v.last_lap);
    assert(m.subrange(20, 24) =~= u32_be(v.best_lap as u32));
    assert(s.subrange(43, 47) =~= m.subrange(20, 24));
    lemma_i32_be_round_trip(v.best_lap);
    assert(m.subrange(24, 28) =~= u32_be(v.lap_count as u32));
    assert(s.subrange(47, 51) =~= m.subrange(24, 28));
    lemma_i32_be_round_trip(v.lap_count);
    lemma_concat_parts(car_mid_a_bytes(v), t);
    assert(s.skip(51) =~= m.skip(28));
}

/// The control block holds its fields at their offsets.
#[verifier::rlimit(100)]
#[verifier::spinoff_prover]
proof fn lemma_mid_b_at(v: RTCarInfoV, s: Seq<u8>, t: Seq<u8>)
    requires
        s.len() >= 79,
        s.skip(51) == car_mid_b_bytes(v) + t,
    ensures
        be_to_u32(s.subrange(51, 55)) == v.gas,
        be_to_u32(s.subrange(55, 59)) == v.brake,
        be_to_u32(s.subrange(59, 63)) == v.clutch,
        be_to_u32(s.subrange(63, 67)) == v.engine_rpm,
        be_to_u32(s.subrange(67, 71)) == v.steer,
        be_to_i32(s.subrange(71, 75)) == v.gear,
        be_to_u32(s.subrange(75, 79)) == v.cg_height,
        s.skip(79) == t,
{
    reveal(car_mid_b_bytes);
    let m = s.skip(51);
    assert(m.subrange(0, 4) =~= u32_be(v.gas));
    assert(s.subrange(51, 55) =~= m.subrange(0, 4));
    lemma_u32_be_round_trip(v.gas);
    assert(m.subrange(4, 8) =~= u32_be(v.brake));
    assert(s.subrange(55, 59) =~= m.subrange(4, 8));
    lemma_u32_be_round_trip(v.brake);
    assert(m.subrange(8, 12) =~= u32_be(v.clutch));
    assert(s.subrange(59, 63) =~= m.subrange(8, 12));
    lemma_u32_be_round_trip(v.clutch);
    assert(m.subrange(12, 16) =~= u32_be(v.engine_rpm));
    assert(s.subrange(63, 67) =~= m.subrange(12, 16));
    lemma_u32_be_round_trip(v.engine_rpm);
    assert(m.subrange(16, 20) =~= u32_be(v.steer));
    assert(s.subrange(67, 71) =~= m.subrange(16, 20));
    lemma_u32_be_round_trip(v.steer);
    assert(m.subrange(20, 24) =~= u32_be(v.gear as u32));
    assert(s.subrange(71, 75) =~= m.subrange(20, 24));
    lemma_i32_be_round_trip(v.gear);
    assert(m.subrange(24, 28) =~= u32_be(v.cg_height));
    assert(s.subrange(75, 79) =~= m.subrange(24, 28));
    lemma_u32_be_round_trip(v.cg_height);
    lemma_concat_parts(car_mid_b_bytes(v), t);
    assert(s.skip(79) =~= m.skip(28));
}

/// The first run of quadruples holds each one at its offset.
#[verifier::rlimit(100)]
#[verifier::spinoff_prover]
proof fn lemma_quad_a_at(v: RTCarInfoV, s: Seq<u8>, t: Seq<u8>)
    requires
        v.wheel_angular_speed.len() == 4,
        v.slip_angle.len() == 4,
        v.slip_angle_contact_patch.len() == 4,
        v.slip_ratio.len() == 4,
        v.tyre_slip.len() == 4,
        v.nd_slip.len() == 4,
        s.len() >= 175,
        s.skip(79) == car_quad_a_bytes(v) + t,
    ensures
        quad_vals(s.subrange(79, 95)) == v.wheel_angular_speed,
        quad_vals(s.subrange(95, 111)) == v.slip_angle,
        quad_vals(s.subrange(111, 127)) == v.slip_angle_contact_patch,
        quad_vals(s.subrange(127, 143)) == v.slip_ratio,
        quad_vals(s.subrange(143, 159)) == v.tyre_slip,
        quad_vals(s.subrange(159, 175)) == v.nd_slip,
        s.skip(175) == t,
{
    reveal(car_quad_a_bytes);
    let m = s.skip(79);
    assert(m.subrange(0, 16) =~= quad_be(v.wheel_angular_speed));
    assert(s.subrange(79, 95) =~= m.subrange(0, 16));
    lemma_quad_vals_be(v.wheel_angular_speed);
    assert(m.subrange(16, 32) =~= quad_be(v.slip_angle));
    assert(s.subrange(95, 111) =~= m.subrange(16, 32));
    lemma_quad_vals_be(v.slip_angle);
    assert(m.subrange(32, 48) =~= quad_be(v.slip_angle_contact_patch));
    assert(s.subrange(111, 127) =~= m.subrange(32, 48));
    lemma_quad_vals_be(v.slip_angle_contact_patch);
    assert(m.subrange(48, 64) =~= quad_be(v.slip_ratio));
    assert(s.subrange(127, 143) =~= m.subrange(48, 64));
    lemma_quad_vals_be(v.slip_ratio);
    assert(m.subrange(64, 80) =~= quad_be(v.tyre_slip));
    assert(s.subrange(143, 159) =~= m.subrange(64, 80));
    lemma_quad_vals_be(v.tyre_slip);
    assert(m.subrange(80, 96) =~= quad_be(v.nd_slip));
    assert(s.subrange(159, 175) =~= m.subrange(80, 96));
    lemma_quad_vals_be(v.nd_slip);
    lemma_concat_parts(car_quad_a_bytes(v), t);
    assert(s.skip(175) =~= m.skip(96));
}

/// The second run of quadruples holds each one at its offset.
#[verifier::rlimit(100)]
#[verifier::spinoff_prover]
proof fn lemma_quad_b_at(v: RTCarInfoV, s: Seq<u8>, t: Seq<u8>)
    requires
        v.load.len() == 4,
        v.dy.len() == 4,
        v.mz.len() == 4,
        v.tyre_dirty_level.len() == 4,
        v.camber_rad.len() == 4,
        v.tyre_radius.len() == 4,
        s.len() >= 271,
        s.skip(175) == car_quad_b_bytes(v) + t,
    ensures
        quad_vals(s.subrange(175, 191)) == v.load,
        quad_vals(s.subrange(191, 207)) == v.dy,
        quad_vals(s.subrange(207, 223)) == v.mz,
        quad_vals(s.subrange(223, 239)) == v.tyre_dirty_level,
        quad_vals(s.subrange(239, 255)) == v.camber_rad,
        quad_vals(s.subrange(255, 271)) == v.tyre_radius,
        s.skip(271) == t,
{
    reveal(car_quad_b_bytes);
    let m = s.skip(175);
    assert(m.subrange(0, 16) =~= quad_be(v.load));
    assert(s.subrange(175, 191) =~= m.subrange(0, 16));
    lemma_quad_vals_be(v.load);
    assert(m.subrange(16, 32) =~= quad_be(v.dy));
    assert(s.subrange(191, 207) =~= m.subrange(16, 32));
    lemma_quad_vals_be(v.dy);
    assert(m.subrange(32, 48) =~= quad_be(v.mz));
    assert(s.subrange(207, 223) =~= m.subrange(32, 48));
    lemma_quad_vals_be(v.mz);
    assert(m.subrange(48, 64) =~= quad_be(v.tyre_dirty_level));
    assert(s.subrange(223, 239) =~= m.subrange(48, 64));
    lemma_quad_vals_be(v.tyre_dirty_level);
    assert(m.subrange(64, 80) =~= quad_be(v.camber_rad));
    assert(s.subrange(239, 255) =~= m.subrange(64, 80));
    lemma_quad_vals_be(v.camber_rad);
    assert(m.subrange(80, 96) =~= quad_be(v.tyre_radius));
    assert(s.subrange(255, 271) =~= m.subrange(80, 96));
    lemma_quad_vals_be(v.tyre_radius);
    lemma_concat_parts(car_quad_b_bytes(v), t);
    assert(s.skip(271) =~= m.skip(96));
}

/// The last run of quadruples holds each one at its offset.
#[verifier::rlimit(100)]
#[verifier::spinoff_prover]
proof fn lemma_quad_c_at(v: RTCarInfoV, s: Seq<u8>, t: Seq<u8>)
    requires
        v.tyre_loaded_radius.len() == 4,
        v.suspension_height.len() == 4,
        v.car_position_normalizes.len() == 4,
        v.car_slope.len() == 4,
        v.car_coordinates.len() == 4,
        s.len() >= 351,
        s.skip(271) == car_quad_c_bytes(v) + t,
    ensures
        quad_vals(s.subrange(271, 287)) == v.tyre_loaded_radius,
        quad_vals(s.subrange(287, 303)) == v.suspension_height,
        quad_vals(s.subrange(303, 319)) == v.car_position_normalizes,
        quad_vals(s.subrange(319, 335)) == v.car_slope,
        quad_vals(s.subrange(335, 351)) == v.car_coordinates,
        s.skip(351) == t,
{
    reveal(car_quad_c_bytes);
    let m = s.skip(271);
    assert(m.subrange(0, 16) =~= quad_be(v.tyre_loaded_radius));
    assert(s.subrange(271, 287) =~= m.subrange(0, 16));
    lemma_quad_vals_be(v.tyre_loaded_radius);
    assert(m.subrange(16, 32) =~= quad_be(v.suspension_height));
    assert(s.subrange(287, 303) =~= m.subrange(16, 32));
    lemma_quad_vals_be(v.suspension_height);
    assert(m.subrange(32, 48) =~= quad_be(v.car_position_normalizes));
    assert(s.subrange(303, 319) =~= m.subrange(32, 48));
    lemma_quad_vals_be(v.car_position_normalizes);
    assert(m.subrange(48, 64) =~= quad_be(v.car_slope));
    assert(s.subrange(319, 335) =~= m.subrange(48, 64));
    lemma_quad_vals_be(v.car_slope);
    assert(m.subrange(64, 80) =~= quad_be(v.car_coordinates));
    assert(s.subrange(335, 351) =~= m.subrange(64, 80));
    lemma_quad_vals_be(v.car_coordinates);
    lemma_concat_parts(car_quad_c_bytes(v), t);
    assert(s.skip(351) =~= m.skip(80));
}

/// The byte length of each block of the frame's wire bytes.
proof fn lemma_section_lens(v: RTCarInfoV)
    ensures
        car_head_bytes(v).len() == 17,
        car_flag_bytes(v).len() == 6,
        car_mid_a_bytes(v).len() == 28,
        car_mid_b_bytes(v).len() == 28,
        car_quad_a_bytes(v).len() == 96,
        car_quad_b_bytes(v).len() == 96,
        car_quad_c_bytes(v).len() == 80,
{
    reveal(car_head_bytes);
    reveal(car_flag_bytes);
    reveal(car_mid_a_bytes);
    reveal(car_mid_b_bytes);
    reveal(car_quad_a_bytes);
    reveal(car_quad_b_bytes);
    reveal(car_quad_c_bytes);
}

/// One block of a valid frame holds its fields at their wire offsets.
#[verifier::rlimit(100)]
#[verifier::spinoff_prover]
proof fn lemma_car_fields_head(v: RTCarInfoV, rest: Seq<u8>)
    requires
        car_v_valid(v),
    ensures
        ({
            let s = car_wire(v) + rest;
            &&& s[0] as char == v.identifier
            &&& be_to_i32(s.subrange(1, 5)) == v.size
            &&& be_to_u32(s.subrange(5, 9)) == v.speed_kmh
            &&& be_to_u32(s.subrange(9, 13)) == v.speed_mph
            &&& be_to_u32(s.subrange(13, 17)) == v.speed_ms
            &&& s.len() == 351 + rest.len()
            &&& s.skip(351) == rest
        }),
{
    let s = car_wire(v) + rest;
    let t6 = car_quad_c_bytes(v) + rest;
    let t5 = car_quad_b_bytes(v) + t6;
    let t4 = car_quad_a_bytes(v) + t5;
    let t3 = car_mid_b_bytes(v) + t4;
    let t2 = car_mid_a_bytes(v) + t3;
    let t1 = car_flag_bytes(v) + t2;
    let p1 = car_head_bytes(v);
    let p2 = p1 + car_flag_bytes(v);
    let p3 = p2 + car_mid_a_bytes(v);
    let p4 = p3 + car_mid_b_bytes(v);
    let p5 = p4 + car_quad_a_bytes(v);
    let p6 = p5 + car_quad_b_bytes(v);
    lemma_concat_assoc(p6, car_quad_c_bytes(v), rest);
    lemma_concat_assoc(p5, car_quad_b_bytes(v), t6);
    lemma_concat_assoc(p4, car_quad_a_bytes(v), t5);
    lemma_concat_assoc(p3, car_mid_b_bytes(v), t4);
    lemma_concat_assoc(p2, car_mid_a_bytes(v), t3);
    lemma_concat_assoc(p1, car_flag_bytes(v), t2);
    lemma_section_lens(v);
    assert(s == car_head_bytes(v) + t1);
    lemma_head_at(v, s, t1);
    lemma_concat_parts(p6 + car_quad_c_bytes(v), rest);
    assert(s.skip(351) == rest);
}

/// One block of a valid frame holds its fields at their wire offsets.
#[verifier::rlimit(100)]
#[verifier::spinoff_prover]
proof fn lemma_car_fields_flags(v: RTCarInfoV, rest: Seq<u8>)
    requires
        car_v_valid(v),
    ensures
        ({
            let s = car_wire(v) + rest;
            &&& s[17] == bool_byte(v.is_abs_enabled)
            &&& s[18] == bool_byte(v.is_abs_in_action)
            &&& s[19] == bool_byte(v.is_tc_in_action)
            &&& s[20] == bool_byte(v.is_tc_enabled)
            &&& s[21] == bool_byte(v.is_in_pit)
            &&& s[22] == bool_byte(v.is_engine_limiter_on)
            &&& s.len() == 351 + rest.len()
            &&& s.skip(351) == rest
        }),
{
    let s = car_wire(v) + rest;
    let t6 = car_quad_c_bytes(v) + rest;
    let t5 = car_quad_b_bytes(v) + t6;
    let t4 = car_quad_a_bytes(v) + t5;
    let t3 = car_mid_b_bytes(v) + t4;
    let t2 = car_mid_a_bytes(v) + t3;
    let t1 = car_flag_bytes(v) + t2;
    let p1 = car_head_bytes(v);
    let p2 = p1 + car_flag_bytes(v);
    let p3 = p2 + car_mid_a_bytes(v);
    let p4 = p3 + car_mid_b_bytes(v);
    let p5 = p4 + car_quad_a_bytes(v);
    let p6 = p5 + car_quad_b_bytes(v);
    lemma_concat_assoc(p6, car_quad_c_bytes(v), rest);
    lemma_concat_assoc(p5, car_quad_b_bytes(v), t6);
    lemma_concat_assoc(p4, car_quad_a_bytes(v), t5);
    lemma_concat_assoc(p3, car_mid_b_bytes(v), t4);
    lemma_concat_assoc(p2, car_mid_a_bytes(v), t3);
    lemma_concat_assoc(p1, car_flag_bytes(v), t2);
    lemma_section_lens(v);
    lemma_concat_parts(p1, t1);
    lemma_flags_at(v, s, t2);
    lemma_concat_parts(p6 + car_quad_c_bytes(v), rest);
    assert(s.skip(351) == rest);
}

/// One block of a valid frame holds its fields at their wire offsets.
#[verifier::rlimit(100)]
#[verifier::spinoff_prover]
proof fn lemma_car_fields_mid_a(v: RTCarInfoV, rest: Seq<u8>)
    requires
        car_v_valid(v),
    ensures
        ({
            let s = car_wire(v) + rest;
            &&& be_to_u32(s.subrange(23, 27)) == v.accg_vertical
            &&& be_to_u32(s.subrange(27, 31)) == v.accg_horizontal
            &&& be_to_u32(s.subrange(31, 35)) == v.accg_frontal
            &&& be_to_i32(s.subrange(35, 39)) == v.lap_time
            &&& be_to_i32(s.subrange(39, 43)) == v.last_lap
            &&& be_to_i32(s.subrange(43, 47)) == v.best_lap
            &&& be_to_i32(s.subrange(47, 51)) == v.lap_count
            &&& s.len() == 351 + rest.len()
            &&& s.skip(351) == rest
        }),
{
    let s = car_wire(v) + rest;
    let t6 = car_quad_c_bytes(v) + rest;
    let t5 = car_quad_b_bytes(v) + t6;
    let t4 = car_quad_a_bytes(v) + t5;
    let t3 = car_mid_b_bytes(v) + t4;
    let t2 = car_mid_a_bytes(v) + t3;
    let t1 = car_flag_bytes(v) + t2;
    let p1 = car_head_bytes(v);
    let p2 = p1 + car_flag_bytes(v);
    let p3 = p2 + car_mid_a_bytes(v);
    let p4 = p3 + car_mid_b_bytes(v);
    let p5 = p4 + car_quad_a_bytes(v);
    let p6 = p5 + car_quad_b_bytes(v);
    lemma_concat_assoc(p6, car_quad_c_bytes(v), rest);
    lemma_concat_assoc(p5, car_quad_b_bytes(v), t6);
    lemma_concat_assoc(p4, car_quad_a_bytes(v), t5);
    lemma_concat_assoc(p3, car_mid_b_bytes(v), t4);
    lemma_concat_assoc(p2, car_mid_a_bytes(v), t3);
    lemma_concat_assoc(p1, car_flag_bytes(v), t2);
    lemma_section_lens(v);
    lemma_concat_parts(p2, t2);
    lemma_mid_a_at(v, s, t3);
    lemma_concat_parts(p6 + car_quad_c_bytes(v), rest);
    assert(s.skip(351) == rest);
}

/// One block of a valid frame holds its fields at their wire offsets.
#[verifier::rlimit(100)]
#[verifier::spinoff_prover]
proof fn lemma_car_fields_mid_b(v: RTCarInfoV, rest: Seq<u8>)
    requires
        car_v_valid(v),
    ensures
        ({
            let s = car_wire(v) + rest;
            &&& be_to_u32(s.subrange(51, 55)) == v.gas
            &&& be_to_u32(s.subrange(55, 59)) == v.brake
            &&& be_to_u32(s.subrange(59, 63)) == v.clutch
            &&& be_to_u32(s.subrange(63, 67)) == v.engine_rpm
            &&& be_to_u32(s.subrange(67, 71)) == v.steer
            &&& be_to_i32(s.subrange(71, 75)) == v.gear
            &&& be_to_u32(s.subrange(75, 79)) == v.cg_height
            &&& s.len() == 351 + rest.len()
            &&& s.skip(351) == rest
        }),
{
    let s = car_wire(v) + rest;
    let t6 = car_quad_c_bytes(v) + rest;
    let t5 = car_quad_b_bytes(v) + t6;
    let t4 = car_quad_a_bytes(v) + t5;
    let t3 = car_mid_b_bytes(v) + t4;
    let t2 = car_mid_a_bytes(v) + t3;
    let t1 = car_flag_bytes(v) + t2;
    let p1 = car_head_bytes(v);
    let p2 = p1 + car_flag_bytes(v);
    let p3 = p2 + car_mid_a_bytes(v);
    let p4 = p3 + car_mid_b_bytes(v);
    let p5 = p4 + car_quad_a_bytes(v);
    let p6 = p5 + car_quad_b_bytes(v);
    lemma_concat_assoc(p6, car_quad_c_bytes(v), rest);
    lemma_concat_assoc(p5, car_quad_b_bytes(v), t6);
    lemma_concat_assoc(p4, car_quad_a_bytes(v), t5);
    lemma_concat_assoc(p3, car_mid_b_bytes(v), t4);
    lemma_concat_assoc(p2, car_mid_a_bytes(v), t3);
    lemma_concat_assoc(p1, car_flag_bytes(v), t2);
    lemma_section_lens(v);
    lemma_concat_parts(p3, t3);
    lemma_mid_b_at(v, s, t4);
    lemma_concat_parts(p6 + car_quad_c_bytes(v), rest);
    assert(s.skip(351) == rest);
}

/// One block of a valid frame holds its fields at their wire offsets.
#[verifier::rlimit(100)]
#[verifier::spinoff_prover]
proof fn lemma_car_fields_quad_a(v: RTCarInfoV, rest: Seq<u8>)
    requires
        car_v_valid(v),
    ensures
        ({
            let s = car_wire(v) + rest;
            &&& quad_vals(s.subrange(79, 95)) == v.wheel_angular_speed
            &&& quad_vals(s.subrange(95, 111)) == v.slip_angle
            &&& quad_vals(s.subrange(111, 127)) == v.slip_angle_contact_patch
            &&& quad_vals(s.subrange(127, 143)) == v.slip_ratio
            &&& quad_vals(s.subrange(143, 159)) == v.tyre_slip
            &&& quad_vals(s.subrange(159, 175)) == v.nd_slip
            &&& s.len() == 351 + rest.len()
            &&& s.skip(351) == rest
        }),
{
    let s = car_wire(v) + rest;
    let t6 = car_quad_c_bytes(v) + rest;
    let t5 = car_quad_b_bytes(v) + t6;
    let t4 = car_quad_a_bytes(v) + t5;
    let t3 = car_mid_b_bytes(v) + t4;
    let t2 = car_mid_a_bytes(v) + t3;
    let t1 = car_flag_bytes(v) + t2;
    let p1 = car_head_bytes(v);
    let p2 = p1 + car_flag_bytes(v);
    let p3 = p2 + car_mid_a_bytes(v);
    let p4 = p3 + car_mid_b_bytes(v);
    let p5 = p4 + car_quad_a_bytes(v);
    let p6 = p5 + car_quad_b_bytes(v);
    lemma_concat_assoc(p6, car_quad_c_bytes(v), rest);
    lemma_concat_assoc(p5, car_quad_b_bytes(v), t6);
    lemma_concat_assoc(p4, car_quad_a_bytes(v), t5);
    lemma_concat_assoc(p3, car_mid_b_bytes(v), t4);
    lemma_concat_assoc(p2, car_mid_a_bytes(v), t3);
    lemma_concat_assoc(p1, car_flag_bytes(v), t2);
    lemma_section_lens(v);
    lemma_concat_parts(p4, t4);
    lemma_quad_a_at(v, s, t5);
    lemma_concat_parts(p6 + car_quad_c_bytes(v), rest);
    assert(s.skip(351) == rest);
}

/// One block of a valid frame holds its fields at their wire offsets.
#[verifier::rlimit(100)]
#[verifier::spinoff_prover]
proof fn lemma_car_fields_quad_b(v: RTCarInfoV, rest: Seq<u8>)
    requires
        car_v_valid(v),
    ensures
        ({
            let s = car_wire(v) + rest;
            &&& quad_vals(s.subrange(175, 191)) == v.load
            &&& quad_vals(s.subrange(191, 207)) == v.dy
            &&& quad_vals(s.subrange(207, 223)) == v.mz
            &&& quad_vals(s.subrange(223, 239)) == v.tyre_dirty_level
            &&& quad_vals(s.subrange(239, 255)) == v.camber_rad
            &&& quad_vals(s.subrange(255, 271)) == v.tyre_radius
            &&& s.len() == 351 + rest.len()
            &&& s.skip(351) == rest
        }),
{
    let s = car_wire(v) + rest;
    let t6 = car_quad_c_bytes(v) + rest;
    let t5 = car_quad_b_bytes(v) + t6;
    let t4 = car_quad_a_bytes(v) + t5;
    let t3 = car_mid_b_bytes(v) + t4;
    let t2 = car_mid_a_bytes(v) + t3;
    let t1 = car_flag_bytes(v) + t2;
    let p1 = car_head_bytes(v);
    let p2 = p1 + car_flag_bytes(v);
    let p3 = p2 + car_mid_a_bytes(v);
    let p4 = p3 + car_mid_b_bytes(v);
    let p5 = p4 + car_quad_a_bytes(v);
    let p6 = p5 + car_quad_b_bytes(v);
    lemma_concat_assoc(p6, car_quad_c_bytes(v), rest);
    lemma_concat_assoc(p5, car_quad_b_bytes(v), t6);
    lemma_concat_assoc(p4, car_quad_a_bytes(v), t5);
    lemma_concat_assoc(p3, car_mid_b_bytes(v), t4);
    lemma_concat_assoc(p2, car_mid_a_bytes(v), t3);
    lemma_concat_assoc(p1, car_flag_bytes(v), t2);
    lemma_section_lens(v);
    lemma_concat_parts(p5, t5);
    lemma_quad_b_at(v, s, t6);
    lemma_concat_parts(p6 + car_quad_c_bytes(v), rest);
    assert(s.skip(351) == rest);
}

/// One block of a valid frame holds its fields at their wire offsets.
#[verifier::rlimit(100)]
#[verifier::spinoff_prover]
proof fn lemma_car_fields_quad_c(v: RTCarInfoV, rest: Seq<u8>)
    requires
        car_v_valid(v),
    ensures
        ({
            let s = car_wire(v) + rest;
            &&& quad_vals(s.subrange(271, 287)) == v.tyre_loaded_radius
            &&& quad_vals(s.subrange(287, 303)) == v.suspension_height
            &&& quad_vals(s.subrange(303, 319)) == v.car_position_normalizes
            &&& quad_vals(s.subrange(319, 335)) == v.car_slope
            &&& quad_vals(s.subrange(335, 351)) == v.car_coordinates
            &&& s.len() == 351 + rest.len()
            &&& s.skip(351) == rest
        }),
{
    let s = car_wire(v) + rest;
    let t6 = car_quad_c_bytes(v) + rest;
    let t5 = car_quad_b_bytes(v) + t6;
    let t4 = car_quad_a_bytes(v) + t5;
    let t3 = car_mid_b_bytes(v) + t4;
    let t2 = car_mid_a_bytes(v) + t3;
    let t1 = car_flag_bytes(v) + t2;
    let p1 = car_head_bytes(v);
    let p2 = p1 + car_flag_bytes(v);
    let p3 = p2 + car_mid_a_bytes(v);
    let p4 = p3 + car_mid_b_bytes(v);
    let p5 = p4 + car_quad_a_bytes(v);
    let p6 = p5 + car_quad_b_bytes(v);
    lemma_concat_assoc(p6, car_quad_c_bytes(v), rest);
    lemma_concat_assoc(p5, car_quad_b_bytes(v), t6);
    lemma_concat_assoc(p4, car_quad_a_bytes(v), t5);
    lemma_concat_assoc(p3, car_mid_b_bytes(v), t4);
    lemma_concat_assoc(p2, car_mid_a_bytes(v), t3);
    lemma_concat_assoc(p1, car_flag_bytes(v), t2);
    lemma_section_lens(v);
    lemma_concat_parts(p6, t6);
    lemma_quad_c_at(v, s, rest);
    lemma_concat_parts(p6 + car_quad_c_bytes(v), rest);
    assert(s.skip(351) == rest);
}

/// Decoding what a valid Car Telemetry Frame encodes yields the frame again
/// and consumes exactly its 351 bytes, whatever follows them.
#[verifier::rlimit(100)]
#[verifier::spinoff_prover]
pub proof fn lemma_car_round_trip(v: RTCarInfoV, rest: Seq<u8>)
    requires
        car_v_valid(v),
    ensures
        RTCarInfo::spec_decode(car_wire(v) + rest) == Ok::<RTCarInfoV, DecodeError>(v),
        RTCarInfo::spec_remainder(car_wire(v) + rest) == rest,
{
    lemma_car_fields_head(v, rest);
    lemma_car_fields_flags(v, rest);
    lemma_car_fields_mid_a(v, rest);
    lemma_car_fields_mid_b(v, rest);
    lemma_car_fields_quad_a(v, rest);
    lemma_car_fields_quad_b(v, rest);
    lemma_car_fields_quad_c(v, rest);
}

} // verus!
