use bytes::{BufMut, BytesMut};
use telemetry_collector::car_info::RTCarInfo;
use telemetry_collector::encoder::{Decoder, Encoder};
use telemetry_collector::handshake::{Handshaker, HandshakerResponse};
use telemetry_collector::lap::RTLap;
use telemetry_collector::parser::parse_string;
use telemetry_collector::show_hello_world;

fn bits(x: f32) -> u32 {
    x.to_bits()
}

fn quad(a: f32, b: f32, c: f32, d: f32) -> [u32; 4] {
    [a.to_bits(), b.to_bits(), c.to_bits(), d.to_bits()]
}

#[test]
fn test_hello_world_text() {
    assert_eq!(show_hello_world(), "Hello World");
}

#[test]
fn test_hello_world_with_null_byte_parsed_correctly_for_text() {
    let mut hello_world_bytes = BytesMut::with_capacity(64);
    hello_world_bytes.put(&b"Hello World\x001"[..]);
    let str = parse_string(&mut hello_world_bytes).unwrap();
    assert_eq!(str.unwrap(), "Hello World");
}

#[test]
fn test_hello_world_with_null_byte_parsed_correctly_for_len() {
    let mut hello_world_bytes = BytesMut::with_capacity(64);
    hello_world_bytes.put(&b"Hello World\x001"[..]);
    let _str = parse_string(&mut hello_world_bytes).unwrap();
    assert_eq!(hello_world_bytes.len(), 1);
}

#[test]
fn test_hello_world_without_zero_terminated_string_parsed_correctly() {
    let mut hello_world_bytes = BytesMut::with_capacity(64);
    hello_world_bytes.put(&b"Hello World"[..]);
    let str = parse_string(&mut hello_world_bytes).unwrap();
    assert_eq!(str.unwrap(), "");
    assert_eq!(hello_world_bytes.len(), 11);
}

#[test]
fn test_encode_handshaker_packet() {
    let handshaker = Handshaker { identifier: 1, version: 23, operation_id: 4 };

    let mut expected_bytes = BytesMut::with_capacity(12);
    expected_bytes.put_i32(handshaker.identifier);
    expected_bytes.put_i32(handshaker.version);
    expected_bytes.put_i32(handshaker.operation_id);

    let actual_encoded = handshaker.encode();

    assert_eq!(expected_bytes, actual_encoded);
}

fn jabbar_response() -> HandshakerResponse {
    HandshakerResponse {
        car_name: "jabbarcar".to_string(),
        driver_name: "jabbarazam,".to_string(),
        identifier: 99,
        version: 123,
        track_name: "the track".to_string(),
        track_config: "very fast".to_string(),
    }
}

fn put_response(buf: &mut BytesMut, r: &HandshakerResponse) {
    buf.put(r.car_name.as_bytes());
    buf.put_u8(0);
    buf.put(r.driver_name.as_bytes());
    buf.put_u8(0);
    buf.put_i32(r.identifier);
    buf.put_i32(r.version);
    buf.put(r.track_name.as_bytes());
    buf.put_u8(0);
    buf.put(r.track_config.as_bytes());
    buf.put_u8(0);
}

#[test]
fn test_encode_handshakerresponse_packet() {
    let handshaker_response = jabbar_response();

    let mut expected_bytes = BytesMut::with_capacity(100);
    put_response(&mut expected_bytes, &handshaker_response);

    let actual_encoded = handshaker_response.encode();

    assert_eq!(expected_bytes, actual_encoded);
}

#[test]
fn test_decode_handshakerresponse_packet() {
    let handshaker_response = jabbar_response();

    let mut encoded_bytes: BytesMut = BytesMut::with_capacity(100);
    put_response(&mut encoded_bytes, &handshaker_response);

    let decoded_response = HandshakerResponse::decode(&mut encoded_bytes).unwrap();

    assert_eq!(handshaker_response, decoded_response);
}

fn sample_rt_car_info() -> RTCarInfo {
    RTCarInfo {
        identifier: 'i',
        size: 0,
        speed_kmh: bits(1.0),
        speed_mph: bits(2.0),
        speed_ms: bits(3.0),
        is_abs_enabled: false,
        is_abs_in_action: true,
        is_tc_in_action: false,
        is_tc_enabled: true,
        is_in_pit: false,
        is_engine_limiter_on: true,
        accg_vertical: bits(4.0),
        accg_horizontal: bits(5.0),
        accg_frontal: bits(6.0),
        lap_time: 7,
        last_lap: 8,
        best_lap: 9,
        lap_count: 10,
        gas: bits(11.0),
        brake: bits(12.0),
        clutch: bits(13.0),
        engine_rpm: bits(14.0),
        steer: bits(15.0),
        gear: 16,
        cg_height: bits(17.0),
        wheel_angular_speed: quad(18.0, 19.0, 20.0, 21.0),
        slip_angle: quad(22.0, 23.0, 24.0, 25.0),
        slip_angle_contact_patch: quad(26.0, 27.0, 28.0, 29.0),
        slip_ratio: quad(30.0, 31.0, 32.0, 33.0),
        tyre_slip: quad(34.0, 35.0, 36.0, 37.0),
        nd_slip: quad(38.0, 39.0, 40.0, 41.0),
        load: quad(42.0, 43.0, 44.0, 45.0),
        dy: quad(46.0, 47.0, 48.0, 49.0),
        mz: quad(50.0, 51.0, 52.0, 53.0),
        tyre_dirty_level: quad(54.0, 55.0, 56.0, 57.0),
        camber_rad: quad(58.0, 59.0, 60.0, 61.0),
        tyre_radius: quad(62.0, 63.0, 64.0, 65.0),
        tyre_loaded_radius: quad(66.0, 67.0, 68.0, 69.0),
        suspension_height: quad(70.0, 71.0, 72.0, 73.0),
        car_position_normalizes: quad(74.0, 75.0, 76.0, 77.0),
        car_slope: quad(78.0, 79.0, 80.0, 81.0),
        car_coordinates: quad(82.0, 83.0, 84.0, 85.0),
    }
}

fn sample_rt_car_buffer() -> BytesMut {
    let mut encoded = BytesMut::with_capacity(351);
    encoded.put_u8(b'i');
    encoded.put_i32(0);
    encoded.put_f32(1.0);
    encoded.put_f32(2.0);
    encoded.put_f32(3.0);
    encoded.put_u8(0);
    encoded.put_u8(1);
    encoded.put_u8(0);
    encoded.put_u8(1);
    encoded.put_u8(0);
    encoded.put_u8(1);
    encoded.put_f32(4.0);
    encoded.put_f32(5.0);
    encoded.put_f32(6.0);
    encoded.put_i32(7);
    encoded.put_i32(8);
    encoded.put_i32(9);
    encoded.put_i32(10);
    for value in 11u8..=15 {
        encoded.put_f32(1.0 * f32::from(value));
    }
    encoded.put_i32(16);
    for value in 17u8..=85 {
        encoded.put_f32(1.0 * f32::from(value));
    }
    encoded
}

#[test]
fn test_decode_rtcar_info_packet() {
    let expected_rt_car_info_response = sample_rt_car_info();
    let mut encoded_rt_car_info_response = sample_rt_car_buffer();

    let decoded_packet = RTCarInfo::decode(&mut encoded_rt_car_info_response).unwrap();

    assert_eq!(decoded_packet, expected_rt_car_info_response);
}

#[test]
fn test_decode_rtlap_packet() {
    let expected_response = RTLap {
        car_identifier_number: 1,
        lap: 2,
        driver_name: "jabbar azam".to_string(),
        car_name: "jabbars car".to_string(),
        time: 3,
    };

    let mut encoded_packet = BytesMut::with_capacity(100);
    encoded_packet.put_i32(1);
    encoded_packet.put_i32(2);
    encoded_packet.put(&b"jabbar azam\x00"[..]);
    encoded_packet.put(&b"jabbars car\x00"[..]);
    encoded_packet.put_i32(3);

    let decoded_packet = RTLap::decode(&mut encoded_packet).unwrap();

    assert_eq!(expected_response, decoded_packet);
}

