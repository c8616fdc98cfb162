use wav_tone::le::{decode_i16, decode_i32, encode_i16, encode_i32, put_i16, put_i32};

const SAMPLES_16: [i16; 12] =
    [0, 1, -1, 2, -2, 255, 256, -256, 30000, -30000, i16::MAX, i16::MIN];

const SAMPLES_32: [i32; 14] = [
    0,
    1,
    -1,
    -2,
    255,
    256,
    65535,
    65536,
    16777216,
    -16777216,
    32044,
    0x12345678,
    i32::MAX,
    i32::MIN,
];

#[test]
fn encode_i16_known_values() {
    assert_eq!(encode_i16(0), [0x00, 0x00]);
    assert_eq!(encode_i16(1), [0x01, 0x00]);
    assert_eq!(encode_i16(30000), [0x30, 0x75]);
    assert_eq!(encode_i16(-1), [0xff, 0xff]);
    assert_eq!(encode_i16(-2), [0xfe, 0xff]);
    assert_eq!(encode_i16(i16::MIN), [0x00, 0x80]);
    assert_eq!(encode_i16(i16::MAX), [0xff, 0x7f]);
}

#[test]
fn encode_i32_known_values() {
    assert_eq!(encode_i32(0), [0, 0, 0, 0]);
    assert_eq!(encode_i32(32044), [0x2c, 0x7d, 0x00, 0x00]);
    assert_eq!(encode_i32(0x12345678), [0x78, 0x56, 0x34, 0x12]);
    assert_eq!(encode_i32(-1), [0xff, 0xff, 0xff, 0xff]);
    assert_eq!(encode_i32(-2), [0xfe, 0xff, 0xff, 0xff]);
    assert_eq!(encode_i32(i32::MIN), [0x00, 0x00, 0x00, 0x80]);
    assert_eq!(encode_i32(i32::MAX), [0xff, 0xff, 0xff, 0x7f]);
}

#[test]
fn encode_i16_is_little_endian_twos_complement() {
    for v in SAMPLES_16 {
        assert_eq!(encode_i16(v), v.to_le_bytes());
    }
}

#[test]
fn encode_i32_is_little_endian_twos_complement() {
    for v in SAMPLES_32 {
        assert_eq!(encode_i32(v), v.to_le_bytes());
    }
}

#[test]
fn every_i16_survives_encoding_and_decoding() {
    for v in i16::MIN..=i16::MAX {
        let bytes = encode_i16(v);
        assert_eq!(bytes, v.to_le_bytes());
        assert_eq!(decode_i16(bytes), v);
    }
}

#[test]
fn decode_i32_undoes_encode_i32() {
    for v in SAMPLES_32 {
        assert_eq!(decode_i32(encode_i32(v)), v);
    }
}

#[test]
fn decode_known_values() {
    assert_eq!(decode_i16([0x30, 0x75]), 30000);
    assert_eq!(decode_i16([0xff, 0xff]), -1);
    assert_eq!(decode_i16([0x00, 0x80]), i16::MIN);
    assert_eq!(decode_i16([0xff, 0x7f]), i16::MAX);
    assert_eq!(decode_i32([0x2c, 0x7d, 0x00, 0x00]), 32044);
    assert_eq!(decode_i32([0xfe, 0xff, 0xff, 0xff]), -2);
    assert_eq!(decode_i32([0x00, 0x00, 0x00, 0x80]), i32::MIN);
    assert_eq!(decode_i32([0xff, 0xff, 0xff, 0x7f]), i32::MAX);
    assert_eq!(decode_i32([0xff, 0xff, 0xff, 0xbb]), i32::from_le_bytes([0xff, 0xff, 0xff, 0xbb]));
}

#[test]
fn put_appends_after_what_is_there() {
    let mut out = vec![9u8];
    put_i16(&mut out, 258);
    put_i32(&mut out, -2);
    put_i16(&mut out, -32768);
    assert_eq!(out, vec![9, 0x02, 0x01, 0xfe, 0xff, 0xff, 0xff, 0x00, 0x80]);
}
