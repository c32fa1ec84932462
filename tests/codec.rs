use stereo_audio::codec::{decode_level, encode_level, MAX_LEVEL, MIN_LEVEL};

fn to_sample(level: i32) -> f32 {
    level as f32 / 8_388_608.0
}

fn scaled(x: f32) -> i64 {
    (x * 8_388_607.0) as i64
}

#[test]
fn zero_word_decodes_to_zero() {
    assert_eq!(decode_level(0), 0);
    assert_eq!(to_sample(decode_level(0)), 0.0);
}

#[test]
fn decode_reads_low_bits_as_signed() {
    assert_eq!(decode_level(0x0080_0000), -8_388_608);
    assert_eq!(to_sample(decode_level(0x0080_0000)), -1.0);
    assert_eq!(decode_level(0x00FF_FFFF), -1);
    assert_eq!(decode_level(0x0000_0001), 1);
    assert_eq!(decode_level(0x007F_FFFF), 8_388_607);
}

#[test]
fn decode_wraps_and_ignores_high_byte() {
    assert_eq!(decode_level(0xFF00_0000), 0);
    assert_eq!(decode_level(0xAB80_0000), -8_388_608);
    assert_eq!(decode_level(0xFFFF_FFFF), -1);
    assert_eq!(decode_level(0xFF80_0001), -8_388_607);
}

#[test]
fn encode_in_range_is_twos_complement() {
    assert_eq!(encode_level(0), 0);
    assert_eq!(encode_level(1), 1);
    assert_eq!(encode_level(-1), 0xFFFF_FFFF);
    assert_eq!(encode_level(-8_388_607), 0xFF80_0001);
    assert_eq!(encode_level(8_388_606), 0x007F_FFFE);
}

#[test]
fn encode_saturates_both_ways() {
    assert_eq!(encode_level(MAX_LEVEL), 0x007F_FFFF);
    assert_eq!(encode_level(MAX_LEVEL + 1), 0x007F_FFFF);
    assert_eq!(encode_level(i64::MAX), 0x007F_FFFF);
    assert_eq!(encode_level(MIN_LEVEL), 0xFF80_0000);
    assert_eq!(encode_level(MIN_LEVEL - 1), 0xFF80_0000);
    assert_eq!(encode_level(i64::MIN), 0xFF80_0000);
}

#[test]
fn encode_of_two_saturates_to_largest_code() {
    assert_eq!(scaled(2.0), 16_777_214);
    assert_eq!(encode_level(scaled(2.0)), 0x007F_FFFF);
    assert_eq!(encode_level(scaled(2.0)), encode_level(scaled(1.0)));
}

#[test]
fn encode_of_minus_two_is_smallest_code() {
    assert_eq!(encode_level(scaled(-2.0)), 0xFF80_0000);
    assert_eq!(encode_level(scaled(-2.0)), encode_level(MIN_LEVEL));
}

#[test]
fn encode_of_zero_and_minus_one() {
    assert_eq!(encode_level(scaled(0.0)), 0);
    assert_eq!(encode_level(scaled(-1.0)), 0xFF80_0001);
}

#[test]
fn zero_round_trips_to_zero() {
    assert_eq!(to_sample(decode_level(encode_level(scaled(0.0)))), 0.0);
}

#[test]
fn round_trip_within_one_step() {
    let step = 1.0 / 8_388_608.0;
    for &x in &[0.5f32, -0.5, 0.25, -0.75, 0.125, 1.0e-6, -1.0e-6, -1.0] {
        let back = to_sample(decode_level(encode_level(scaled(x))));
        assert!((back - x).abs() <= step, "{} came back as {}", x, back);
    }
}

#[test]
fn every_level_in_range_round_trips_exactly() {
    for &v in &[MIN_LEVEL, MIN_LEVEL + 1, -1, 0, 1, 12_345, MAX_LEVEL - 1, MAX_LEVEL] {
        assert_eq!(decode_level(encode_level(v)) as i64, v);
    }
    assert_eq!(decode_level(encode_level(MAX_LEVEL + 10)) as i64, MAX_LEVEL);
    assert_eq!(decode_level(encode_level(MIN_LEVEL - 10)) as i64, MIN_LEVEL);
}
