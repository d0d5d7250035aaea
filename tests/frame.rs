use lan_mouse::frame::{decode_frame, encode_frame, join_micros, motion_frame, wire_time_of, FRAME_LEN};

#[test]
fn motion_frame_of_five_seconds() {
    let f = motion_frame(0, 5_000_000, 1.5f64.to_bits(), (-2.25f64).to_bits());
    assert_eq!(f.len(), 20);
    assert_eq!(&f[0..4], &5000u32.to_le_bytes());
    assert_eq!(&f[4..12], &1.5f64.to_le_bytes());
    assert_eq!(&f[12..20], &(-2.25f64).to_le_bytes());
}

#[test]
fn frame_round_trip_exact() {
    let cases: [(u32, f64, f64); 5] = [
        (0, 0.0, -0.0),
        (u32::MAX, f64::MAX, f64::MIN_POSITIVE),
        (123_456, 0.1, -1e300),
        (1, f64::INFINITY, f64::NEG_INFINITY),
        (7, f64::NAN, 3.0),
    ];
    for (t, dx, dy) in cases {
        let f = encode_frame(t, dx.to_bits(), dy.to_bits());
        assert_eq!(f.len(), FRAME_LEN);
        let (t2, dx2, dy2) = decode_frame(&f).unwrap();
        assert_eq!(t2, t);
        assert_eq!(dx2, dx.to_bits());
        assert_eq!(dy2, dy.to_bits());
    }
}

#[test]
fn frame_size_with_nan_and_infinity() {
    let f = encode_frame(9, f64::NAN.to_bits(), f64::INFINITY.to_bits());
    assert_eq!(f.len(), 20);
    assert!(f64::from_bits(decode_frame(&f).unwrap().1).is_nan());
}

#[test]
fn frame_layout_is_little_endian() {
    let f = encode_frame(0x0403_0201, 0x0c0b_0a09_0807_0605, 0x1413_1211_100f_0e0d);
    let expected: Vec<u8> = (1u8..=20).collect();
    assert_eq!(f, expected);
}

#[test]
fn decode_rejects_wrong_length() {
    assert_eq!(decode_frame(&[0u8; 19]), None);
    assert_eq!(decode_frame(&[0u8; 21]), None);
    assert_eq!(decode_frame(&[]), None);
    assert_eq!(decode_frame(&[0u8; 20]), Some((0, 0, 0)));
}

#[test]
fn timestamp_halves_join() {
    assert_eq!(join_micros(0, 5_000_000), 5_000_000);
    assert_eq!(join_micros(1, 0), 1u64 << 32);
    assert_eq!(join_micros(u32::MAX, u32::MAX), u64::MAX);
}

#[test]
fn wire_time_truncates_to_32_bits() {
    assert_eq!(wire_time_of(5_000_000), 5000);
    assert_eq!(wire_time_of(999), 0);
    let micros: u64 = (1u64 << 32) * 1000 + 7_000;
    assert_eq!(wire_time_of(micros), 7);
    assert_eq!(wire_time_of(u64::MAX), ((u64::MAX / 1000) % (1u64 << 32)) as u32);
}

#[test]
fn motion_frame_time_wraps() {
    let micros: u64 = ((1u64 << 32) + 42) * 1000;
    let f = motion_frame((micros >> 32) as u32, micros as u32, 0, 0);
    assert_eq!(&f[0..4], &42u32.to_le_bytes());
}
