use bytes::{Buf, BufMut, BytesMut};
use telemetry_collector::car_info::RTCarInfo;
use telemetry_collector::encoder::{DecodeError, Decoder, Encoder};
use telemetry_collector::handshake::{Handshaker, HandshakerResponse};
use telemetry_collector::lap::RTLap;
use telemetry_collector::parser::parse_string;

#[test]
fn parse_string_found_terminator() {
    let mut buf = BytesMut::with_capacity(16);
    buf.put(&b"Hello World\x00"[..]);
    let parsed = parse_string(&mut buf).unwrap();
    assert_eq!(parsed.unwrap(), "Hello World");
    assert_eq!(buf.len(), 0);
}

#[test]
fn parse_string_empty_buffer() {
    let mut buf = BytesMut::new();
    let parsed = parse_string(&mut buf).unwrap();
    assert_eq!(parsed, None);
    assert_eq!(buf.len(), 0);
}

#[test]
fn parse_string_invalid_utf8_is_error() {
    let mut buf = BytesMut::with_capacity(4);
    buf.put(&[0xffu8, 0xfe, 0x00, 0x31][..]);
    let parsed = parse_string(&mut buf);
    assert_eq!(parsed, Err(DecodeError::InvalidTextEncoding));
    // nothing is consumed on the error
    assert_eq!(buf.len(), 4);
}

#[test]
fn handshaker_encodes_big_endian_bytes() {
    let handshaker = Handshaker { identifier: 1, version: 23, operation_id: 4 };
    let encoded = handshaker.encode();
    let expected: &[u8] = &[0, 0, 0, 1, 0, 0, 0, 23, 0, 0, 0, 4];
    assert_eq!(&encoded[..], expected);
}

#[test]
fn handshaker_round_trip() {
    let handshaker = Handshaker { identifier: -7, version: 23, operation_id: 4 };
    let mut encoded = handshaker.encode();
    let decoded = Handshaker::decode(&mut encoded).unwrap();
    assert_eq!(handshaker, decoded);
    assert_eq!(encoded.len(), 0);
}

#[test]
fn handshaker_truncated_buffer_is_error() {
    let mut buf = BytesMut::with_capacity(8);
    buf.put_i32(1);
    buf.put_i32(23);
    let decoded = Handshaker::decode(&mut buf);
    assert_eq!(decoded, Err(DecodeError::TruncatedInput));
    assert_eq!(buf.len(), 8);
}

#[test]
fn handshaker_response_round_trip() {
    let response = HandshakerResponse {
        car_name: "jabbarcar".to_string(),
        driver_name: "jabbarazam,".to_string(),
        identifier: 99,
        version: 123,
        track_name: "the track".to_string(),
        track_config: "very fast".to_string(),
    };
    let mut encoded = response.encode();
    let decoded = HandshakerResponse::decode(&mut encoded).unwrap();
    assert_eq!(response, decoded);
    assert_eq!(encoded.len(), 0);
}

#[test]
fn handshaker_response_empty_strings_round_trip() {
    let response = HandshakerResponse {
        car_name: String::new(),
        driver_name: String::new(),
        identifier: 0,
        version: -1,
        track_name: String::new(),
        track_config: String::new(),
    };
    let mut encoded = response.encode();
    assert_eq!(encoded.len(), 12);
    let decoded = HandshakerResponse::decode(&mut encoded).unwrap();
    assert_eq!(response, decoded);
}

#[test]
fn handshaker_response_truncated_buffer_is_error() {
    let mut buf = BytesMut::with_capacity(8);
    buf.put(&b"car\x00driver\x00"[..]);
    let before = buf.len();
    let decoded = HandshakerResponse::decode(&mut buf);
    assert_eq!(decoded, Err(DecodeError::TruncatedInput));
    assert_eq!(buf.len(), before);
}

#[test]
fn rt_car_info_round_trip() {
    let frame = RTCarInfo {
        identifier: 'a',
        size: 328,
        speed_kmh: 250.5f32.to_bits(),
        speed_mph: 155.0f32.to_bits(),
        speed_ms: 69.5f32.to_bits(),
        is_abs_enabled: true,
        is_abs_in_action: false,
        is_tc_in_action: true,
        is_tc_enabled: false,
        is_in_pit: true,
        is_engine_limiter_on: false,
        accg_vertical: 1.5f32.to_bits(),
        accg_horizontal: (-0.25f32).to_bits(),
        accg_frontal: 0.0f32.to_bits(),
        lap_time: 90123,
        last_lap: 91500,
        best_lap: 89000,
        lap_count: 12,
        gas: 0.75f32.to_bits(),
        brake: 0.0f32.to_bits(),
        clutch: 1.0f32.to_bits(),
        engine_rpm: 7200.0f32.to_bits(),
        steer: (-3.5f32).to_bits(),
        gear: 4,
        cg_height: 0.31f32.to_bits(),
        wheel_angular_speed: [1, 2, 3, 4],
        slip_angle: [5, 6, 7, 8],
        slip_angle_contact_patch: [9, 10, 11, 12],
        slip_ratio: [13, 14, 15, 16],
        tyre_slip: [17, 18, 19, 20],
        nd_slip: [21, 22, 23, 24],
        load: [25, 26, 27, 28],
        dy: [29, 30, 31, 32],
        mz: [33, 34, 35, 36],
        tyre_dirty_level: [37, 38, 39, 40],
        camber_rad: [41, 42, 43, 44],
        tyre_radius: [45, 46, 47, 48],
        tyre_loaded_radius: [49, 50, 51, 52],
        suspension_height: [53, 54, 55, 56],
        car_position_normalizes: [57, 58, 59, 60],
        car_slope: [61, 62, 63, 64],
        car_coordinates: [65, 66, 67, 68],
    };
    let mut encoded = frame.encode();
    assert_eq!(encoded.len(), 351);
    let decoded = RTCarInfo::decode(&mut encoded).unwrap();
    assert_eq!(frame, decoded);
    assert_eq!(encoded.len(), 0);
}

#[test]
fn rt_car_info_bad_flag_byte_is_error() {
    let mut buf = BytesMut::with_capacity(351);
    buf.put_u8(b'a');
    buf.put_i32(0);
    buf.put_u32(0);
    buf.put_u32(0);
    buf.put_u32(0);
    buf.put_u8(0);
    buf.put_u8(2); // a flag byte outside {0, 1}
    buf.put_u8(0);
    buf.put_u8(1);
    buf.put_u8(0);
    buf.put_u8(1);
    while buf.len() < 351 {
        buf.put_u8(0);
    }
    let decoded = RTCarInfo::decode(&mut buf);
    assert_eq!(decoded, Err(DecodeError::OutOfRangeBooleanByte));
    assert_eq!(buf.len(), 351);
}

#[test]
fn rt_car_info_truncated_buffer_is_error() {
    let mut buf = BytesMut::with_capacity(350);
    while buf.len() < 350 {
        buf.put_u8(1);
    }
    let decoded = RTCarInfo::decode(&mut buf);
    assert_eq!(decoded, Err(DecodeError::TruncatedInput));
    assert_eq!(buf.len(), 350);
}

#[test]
fn rt_lap_round_trip() {
    let lap = RTLap {
        car_identifier_number: 7,
        lap: 3,
        driver_name: "a driver".to_string(),
        car_name: "a car".to_string(),
        time: 65000,
    };
    let mut encoded = lap.encode();
    let decoded = RTLap::decode(&mut encoded).unwrap();
    assert_eq!(lap, decoded);
    assert_eq!(encoded.len(), 0);
}

#[test]
fn rt_lap_truncated_buffer_is_error() {
    let mut buf = BytesMut::with_capacity(12);
    buf.put_i32(7);
    buf.put_i32(3);
    buf.put(&b"driver\x00car\x00"[..]);
    // the trailing lap time integer is missing
    let before = buf.len();
    let decoded = RTLap::decode(&mut buf);
    assert_eq!(decoded, Err(DecodeError::TruncatedInput));
    assert_eq!(buf.len(), before);
}

#[test]
fn decode_leaves_trailing_bytes() {
    let handshaker = Handshaker { identifier: 5, version: 6, operation_id: 7 };
    let mut encoded = handshaker.encode();
    encoded.put_u8(42);
    let decoded = Handshaker::decode(&mut encoded).unwrap();
    assert_eq!(handshaker, decoded);
    assert_eq!(encoded.len(), 1);
    assert_eq!(encoded.get_u8(), 42);
}

#[test]
fn try_encode_rejects_embedded_nul() {
    let lap = RTLap {
        car_identifier_number: 1,
        lap: 1,
        driver_name: "bad\0name".to_string(),
        car_name: "car".to_string(),
        time: 1,
    };
    assert!(lap.try_encode().is_none());
}

#[test]
fn try_encode_matches_encode_on_clean_strings() {
    let response = HandshakerResponse {
        car_name: "car".to_string(),
        driver_name: "driver".to_string(),
        identifier: 1,
        version: 2,
        track_name: "track".to_string(),
        track_config: "config".to_string(),
    };
    let via_try = response.try_encode().unwrap();
    let direct = response.encode();
    assert_eq!(via_try, direct);
}
