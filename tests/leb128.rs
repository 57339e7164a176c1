use water::emitter::{Emittable2, Emitter};
use water::leb128::{SignedLeb128, UnsignedLeb128};

fn decode_signed(bytes: &[u8]) -> i64 {
    let mut result: i128 = 0;
    let mut shift = 0;
    for &byte in bytes {
        result |= ((byte & 0x7f) as i128) << shift;
        shift += 7;
        if byte & 0x80 == 0 {
            if byte & 0x40 != 0 && shift < 128 {
                result |= -1i128 << shift;
            }
            break;
        }
    }
    result as i64
}

fn decode_unsigned(bytes: &[u8]) -> u64 {
    let mut result: u128 = 0;
    let mut shift = 0;
    for &byte in bytes {
        result |= ((byte & 0x7f) as u128) << shift;
        shift += 7;
        if byte & 0x80 == 0 {
            break;
        }
    }
    result as u64
}

fn signed(v: i64) -> Vec<u8> {
    let mut emitter = Emitter::new(Vec::new());
    emitter.emit_element(SignedLeb128::from(v));
    emitter.into_inner()
}

fn unsigned(v: u64) -> Vec<u8> {
    let mut emitter = Emitter::new(Vec::new());
    emitter.emit_element(UnsignedLeb128::from(v));
    emitter.into_inner()
}

#[test]
fn encodes_signed_leb_128() {
    let to_encode = [
        i64::MIN,
        0,
        36,
        128,
        156,
        256,
        512,
        50603,
        -85092,
        -9999999,
        -20312391039,
        i64::MAX,
    ];

    let expected_encoding: &[&[u8]] = &[
        &[128, 128, 128, 128, 128, 128, 128, 128, 128, 127],
        &[0],
        &[36],
        &[128, 1],
        &[156, 1],
        &[128, 2],
        &[128, 4],
        &[171, 139, 3],
        &[156, 231, 122],
        &[129, 211, 157, 123],
        &[129, 133, 166, 170, 180, 127],
        &[255, 255, 255, 255, 255, 255, 255, 255, 255, 0],
    ];

    for (value_to_encode, expected) in to_encode.into_iter().zip(expected_encoding) {
        let encoder = SignedLeb128::from(value_to_encode);
        let mut emitter = Emitter::new(Vec::new());

        emitter.emit_element(encoder);
        assert_eq!(emitter.into_inner(), *expected);
    }
}

#[test]
fn encodes_unsigned_leb_128() {
    let to_encode = [0_u64, 15, 97, 128, 225, 256, 512, 900, 9203, 242962, u64::MAX];

    let expected_encoding: &[&[u8]] = &[
        &[0],
        &[15],
        &[97],
        &[128, 1],
        &[225, 1],
        &[128, 2],
        &[128, 4],
        &[132, 7],
        &[243, 71],
        &[146, 234, 14],
        &[255, 255, 255, 255, 255, 255, 255, 255, 255, 1],
    ];

    for (value_to_encode, expected) in to_encode.into_iter().zip(expected_encoding) {
        let encoder = UnsignedLeb128::from(value_to_encode);
        let mut emitter = Emitter::new(Vec::new());

        emitter.emit_element(encoder);
        assert_eq!(emitter.into_inner(), *expected);
    }
}

#[test]
fn literal_vectors() {
    assert_eq!(signed(128), vec![0x80, 0x01]);
    assert_eq!(signed(-85092), vec![0x9C, 0xE7, 0x7A]);
    let mut min = vec![0x80; 9];
    min.push(0x7F);
    assert_eq!(signed(i64::MIN), min);
    assert_eq!(unsigned(0), vec![0x00]);
    let mut max = vec![0xFF; 9];
    max.push(0x01);
    assert_eq!(unsigned(u64::MAX), max);
}

#[test]
fn signed_round_trip() {
    for v in [i64::MIN, -1, 0, 1, i64::MAX, 63, 64, -64, -65, 1 << 40, -(1 << 40), 123456789] {
        assert_eq!(decode_signed(&signed(v)), v);
    }
}

#[test]
fn unsigned_round_trip() {
    for v in [0, 1, 127, 128, 16383, 16384, 1 << 35, u64::MAX - 1, u64::MAX] {
        assert_eq!(decode_unsigned(&unsigned(v)), v);
    }
}

#[test]
fn emit_element_reports_length() {
    let mut emitter = Emitter::new(Vec::new());
    assert_eq!(emitter.emit_element(SignedLeb128::from(i64::MIN)), 10);
    assert_eq!(emitter.emit_element(UnsignedLeb128::from(5)), 1);
    assert_eq!(emitter.into_inner().len(), 11);
}
