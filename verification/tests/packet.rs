use vx220::racebox::encode::encode_packet;
use vx220::racebox::parser::{
    parse_packet, RaceBoxData, CENTI, DEGREES_E5, DEGREES_E7, MILLI, PACKET_LEN,
};

/// A payload of exactly eighty bytes with the preamble and nothing else.
fn blank_payload() -> Vec<u8> {
    let mut payload = vec![0u8; 80];
    payload[0] = 0xB5;
    payload[1] = 0x62;
    payload[2] = 0xFF;
    payload[3] = 0x01;
    payload
}

fn sample() -> RaceBoxData {
    RaceBoxData {
        timestamp_ms: 123_456_789,
        year: 2024,
        month: 6,
        day: 1,
        hour: 12,
        minute: 34,
        second: 56,
        valid_time: true,
        valid_date: false,
        fix_status: 3,
        fix_ok: true,
        num_sv: 12,
        latitude_e7: 481_234_560,
        longitude_e7: -116_543_210,
        wgs_alt_mm: 500_000,
        msl_alt_mm: -12_345,
        horiz_acc_mm: 1000,
        vert_acc_mm: u32::MAX,
        speed_mmps: 22_222,
        heading_e5: 35_999_999,
        speed_acc_mmps: 200,
        heading_acc_e5: 50_000,
        pdop_centi: 120,
        g_force_x_milli: -1200,
        g_force_y_milli: 1000,
        g_force_z_milli: i16::MIN,
        rot_rate_x_centi: i16::MAX,
        rot_rate_y_centi: -1,
        rot_rate_z_centi: 0,
    }
}

#[test]
fn latitude_and_speed_of_an_eighty_byte_payload() {
    let mut payload = blank_payload();
    payload[28..32].copy_from_slice(&481_234_560i32.to_le_bytes());
    payload[48..52].copy_from_slice(&1000i32.to_le_bytes());
    assert_eq!(payload.len(), 80);
    let data = parse_packet(&payload).unwrap();
    assert_eq!(data.latitude_e7, 481_234_560);
    assert_eq!(data.speed_mmps, 1000);
    // 48.123456 degrees.
    let latitude = data.latitude_e7 as f64 / DEGREES_E7 as f64;
    assert!((latitude - 48.123456).abs() < 1e-9);
    // 3.6 km/h, exactly 36000 ten-thousandths.
    assert_eq!(data.speed_kph_e4(), 36_000);
    let speed = data.speed_kph_e4() as f64 / 10_000.0;
    assert!((speed - 3.6).abs() < 1e-9);
    let speed = data.speed_mmps as f32 * 3.6 / 1000.0;
    assert!((speed - 3.6).abs() < 1e-6);
}

#[test]
fn every_field_is_read_at_its_offset() {
    let mut payload = blank_payload();
    payload[6..10].copy_from_slice(&123_456_789u32.to_le_bytes());
    payload[10..12].copy_from_slice(&2024u16.to_le_bytes());
    payload[12] = 6;
    payload[13] = 1;
    payload[14] = 12;
    payload[15] = 34;
    payload[16] = 56;
    payload[17] = 0b0000_0010;
    payload[20] = 3;
    payload[21] = 0b0000_0001;
    payload[23] = 12;
    payload[24..28].copy_from_slice(&(-116_543_210i32).to_le_bytes());
    payload[28..32].copy_from_slice(&481_234_560i32.to_le_bytes());
    payload[32..36].copy_from_slice(&500_000i32.to_le_bytes());
    payload[36..40].copy_from_slice(&(-12_345i32).to_le_bytes());
    payload[40..44].copy_from_slice(&1000u32.to_le_bytes());
    payload[44..48].copy_from_slice(&u32::MAX.to_le_bytes());
    payload[48..52].copy_from_slice(&22_222i32.to_le_bytes());
    payload[52..56].copy_from_slice(&35_999_999i32.to_le_bytes());
    payload[56..60].copy_from_slice(&200u32.to_le_bytes());
    payload[60..64].copy_from_slice(&50_000u32.to_le_bytes());
    payload[64..66].copy_from_slice(&120u16.to_le_bytes());
    payload[68..70].copy_from_slice(&(-1200i16).to_le_bytes());
    payload[70..72].copy_from_slice(&1000i16.to_le_bytes());
    payload[72..74].copy_from_slice(&i16::MIN.to_le_bytes());
    payload[74..76].copy_from_slice(&i16::MAX.to_le_bytes());
    payload[76..78].copy_from_slice(&(-1i16).to_le_bytes());
    payload[78..80].copy_from_slice(&0i16.to_le_bytes());
    assert_eq!(parse_packet(&payload), Some(sample()));
}

#[test]
fn unit_conversions_of_a_sample() {
    let data = sample();
    assert!((data.longitude_e7 as f64 / DEGREES_E7 as f64 - (-11.654321)).abs() < 1e-9);
    assert!((data.wgs_alt_mm as f64 / MILLI as f64 - 500.0).abs() < 1e-9);
    assert!((data.msl_alt_mm as f64 / MILLI as f64 - (-12.345)).abs() < 1e-9);
    assert!((data.heading_e5 as f32 / DEGREES_E5 as f32 - 359.99999).abs() < 1e-3);
    assert!((data.speed_acc_mmps as f32 / MILLI as f32 - 0.2).abs() < 1e-6);
    assert!((data.heading_acc_e5 as f32 / DEGREES_E5 as f32 - 0.5).abs() < 1e-6);
    assert!((data.pdop_centi as f32 / CENTI as f32 - 1.2).abs() < 1e-6);
    assert!((data.g_force_x_milli as f32 / MILLI as f32 - (-1.2)).abs() < 1e-6);
    assert!((data.rot_rate_y_centi as f32 / CENTI as f32 - (-0.01)).abs() < 1e-6);
    assert_eq!(data.speed_kph_e4(), 22_222 * 36);
}

#[test]
fn speed_conversion_at_the_limits() {
    let fastest = RaceBoxData { speed_mmps: i32::MAX, ..sample() };
    assert_eq!(fastest.speed_kph_e4(), i32::MAX as i64 * 36);
    let backwards = RaceBoxData { speed_mmps: i32::MIN, ..sample() };
    assert_eq!(backwards.speed_kph_e4(), i32::MIN as i64 * 36);
}

#[test]
fn validity_flags_are_single_bits() {
    let mut payload = blank_payload();
    payload[17] = 0b0000_0001;
    let data = parse_packet(&payload).unwrap();
    assert!(data.valid_date && !data.valid_time);
    payload[17] = 0b0000_0010;
    let data = parse_packet(&payload).unwrap();
    assert!(!data.valid_date && data.valid_time);
    payload[17] = 0b1111_1100;
    let data = parse_packet(&payload).unwrap();
    assert!(!data.valid_date && !data.valid_time);
    payload[21] = 0b1111_1110;
    assert!(!parse_packet(&payload).unwrap().fix_ok);
    payload[21] = 0b0000_0001;
    assert!(parse_packet(&payload).unwrap().fix_ok);
}

#[test]
fn short_payload_is_rejected() {
    let payload = blank_payload();
    assert_eq!(parse_packet(&payload[..79]), None);
    assert_eq!(parse_packet(&payload[..4]), None);
    assert_eq!(parse_packet(&[]), None);
}

#[test]
fn wrong_preamble_is_rejected() {
    for at in 0..4 {
        let mut payload = blank_payload();
        payload[at] ^= 0x01;
        assert_eq!(parse_packet(&payload), None);
    }
}

#[test]
fn longer_payload_is_read_like_an_eighty_byte_one() {
    let mut payload = encode_packet(&sample());
    payload.extend_from_slice(&[0xDE, 0xAD, 0xBE, 0xEF, 0x01, 0x02, 0x03, 0x04]);
    assert_eq!(parse_packet(&payload), Some(sample()));
}

#[test]
fn bytes_without_a_field_are_not_read() {
    let mut payload = encode_packet(&sample());
    for at in [4usize, 5, 18, 19, 22, 66, 67] {
        payload[at] = 0xFF;
    }
    assert_eq!(parse_packet(&payload), Some(sample()));
}

#[test]
fn encoded_packet_has_the_documented_layout() {
    let packet = encode_packet(&sample());
    assert_eq!(packet.len(), PACKET_LEN);
    assert_eq!(&packet[..6], &[0xB5, 0x62, 0xFF, 0x01, 0, 0]);
    assert_eq!(&packet[6..10], &123_456_789u32.to_le_bytes());
    assert_eq!(&packet[10..12], &2024u16.to_le_bytes());
    assert_eq!(&packet[12..17], &[6, 1, 12, 34, 56]);
    assert_eq!(packet[17], 0x02);
    assert_eq!(&packet[18..24], &[0, 0, 3, 1, 0, 12]);
    assert_eq!(&packet[24..28], &(-116_543_210i32).to_le_bytes());
    assert_eq!(&packet[28..32], &481_234_560i32.to_le_bytes());
    assert_eq!(&packet[44..48], &u32::MAX.to_le_bytes());
    assert_eq!(&packet[64..68], &[120, 0, 0, 0]);
    assert_eq!(&packet[72..74], &i16::MIN.to_le_bytes());
    assert_eq!(&packet[78..80], &[0, 0]);
}

#[test]
fn packet_round_trip() {
    let samples = [
        sample(),
        RaceBoxData { valid_date: true, valid_time: true, fix_ok: false, ..sample() },
        RaceBoxData { valid_date: true, valid_time: false, ..sample() },
        RaceBoxData { valid_date: false, valid_time: false, ..sample() },
        RaceBoxData {
            latitude_e7: i32::MIN,
            longitude_e7: i32::MAX,
            timestamp_ms: u32::MAX,
            year: u16::MAX,
            pdop_centi: u16::MAX,
            ..sample()
        },
        RaceBoxData { latitude_e7: -1, longitude_e7: 0, heading_e5: -1, ..sample() },
    ];
    for data in samples {
        assert_eq!(parse_packet(&encode_packet(&data)), Some(data));
    }
}
