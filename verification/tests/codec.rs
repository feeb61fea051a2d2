use op_net::rlp::{decode_string, encode_string};
use op_net::varint::{decode_varint, encode_varint, MAX_VARINT_LEN};

fn varint(value: u64) -> Vec<u8> {
    let mut out = Vec::new();
    encode_varint(value, &mut out);
    out
}

fn framed(payload: &[u8]) -> Vec<u8> {
    let mut out = Vec::new();
    encode_string(payload, &mut out);
    out
}

#[test]
fn varint_small_values_take_one_byte() {
    assert_eq!(varint(0), vec![0x00]);
    assert_eq!(varint(1), vec![0x01]);
    assert_eq!(varint(10), vec![0x0a]);
    assert_eq!(varint(127), vec![0x7f]);
}

#[test]
fn varint_larger_values_exact_bytes() {
    assert_eq!(varint(128), vec![0x80, 0x01]);
    assert_eq!(varint(300), vec![0xac, 0x02]);
    assert_eq!(varint(901), vec![0x85, 0x07]);
    assert_eq!(varint(16384), vec![0x80, 0x80, 0x01]);
    assert_eq!(
        varint(u64::MAX),
        vec![0xff, 0xff, 0xff, 0xff, 0xff, 0xff, 0xff, 0xff, 0xff, 0x01]
    );
    assert_eq!(varint(u64::MAX).len(), MAX_VARINT_LEN);
}

#[test]
fn varint_appends_to_what_is_there() {
    let mut out = vec![0xaa, 0xbb];
    encode_varint(300, &mut out);
    assert_eq!(out, vec![0xaa, 0xbb, 0xac, 0x02]);
}

#[test]
fn varint_agrees_with_reference_encoder() {
    let samples: [u64; 12] = [
        0,
        1,
        127,
        128,
        255,
        256,
        16383,
        16384,
        901,
        11155420,
        1 << 63,
        u64::MAX,
    ];
    for value in samples {
        let mut buffer = unsigned_varint::encode::u64_buffer();
        let expected = unsigned_varint::encode::u64(value, &mut buffer).to_vec();
        assert_eq!(varint(value), expected);
    }
}

#[test]
fn varint_round_trip() {
    let samples: [u64; 9] = [0, 1, 127, 128, 300, 1 << 32, (1 << 63) - 1, 1 << 63, u64::MAX];
    for value in samples {
        let bytes = varint(value);
        assert_eq!(decode_varint(&bytes), Some((value, bytes.len())));
    }
}

#[test]
fn varint_decode_leaves_the_rest() {
    assert_eq!(decode_varint(&[0x0a, 0x00, 0xff]), Some((10, 1)));
    assert_eq!(decode_varint(&[0xac, 0x02, 0x80]), Some((300, 2)));
}

#[test]
fn varint_decode_rejects_truncated_input() {
    assert_eq!(decode_varint(&[]), None);
    assert_eq!(decode_varint(&[0x80]), None);
    assert_eq!(decode_varint(&[0xff, 0xff]), None);
}

#[test]
fn varint_decode_rejects_needless_zero_group() {
    assert_eq!(decode_varint(&[0x80, 0x00]), None);
    assert_eq!(decode_varint(&[0x81, 0x80, 0x00]), None);
    assert_eq!(decode_varint(&[0x00]), Some((0, 1)));
}

#[test]
fn varint_decode_rejects_values_beyond_64_bits() {
    let mut too_big = vec![0xff; 9];
    too_big.push(0x02);
    assert_eq!(decode_varint(&too_big), None);
    let mut too_long = vec![0x80; 10];
    too_long.push(0x01);
    assert_eq!(decode_varint(&too_long), None);
    let mut top_bit = vec![0x80; 9];
    top_bit.push(0x01);
    assert_eq!(decode_varint(&top_bit), Some((1 << 63, 10)));
}

#[test]
fn varint_decode_agrees_with_reference_on_encodings() {
    let samples: [u64; 6] = [0, 5, 129, 70000, 1 << 40, u64::MAX];
    for value in samples {
        let mut bytes = varint(value);
        bytes.push(0x55);
        let (expected, rest) = unsigned_varint::decode::u64(&bytes).unwrap();
        assert_eq!(decode_varint(&bytes), Some((expected, bytes.len() - rest.len())));
    }
}

#[test]
fn string_single_low_byte_stands_for_itself() {
    assert_eq!(framed(&[0x00]), vec![0x00]);
    assert_eq!(framed(&[0x7f]), vec![0x7f]);
    assert_eq!(framed(&[0x80]), vec![0x81, 0x80]);
}

#[test]
fn string_short_form_exact_bytes() {
    assert_eq!(framed(&[]), vec![0x80]);
    assert_eq!(framed(&[0x0a, 0x00]), vec![0x82, 0x0a, 0x00]);
    let payload = vec![0x11; 55];
    let bytes = framed(&payload);
    assert_eq!(bytes[0], 0xb7);
    assert_eq!(&bytes[1..], &payload[..]);
}

#[test]
fn string_long_form_exact_bytes() {
    let payload = vec![0x22; 56];
    let bytes = framed(&payload);
    assert_eq!(&bytes[..2], &[0xb8, 56]);
    assert_eq!(&bytes[2..], &payload[..]);
    let payload = vec![0x33; 300];
    let bytes = framed(&payload);
    assert_eq!(&bytes[..3], &[0xb9, 0x01, 0x2c]);
    assert_eq!(&bytes[3..], &payload[..]);
}

#[test]
fn string_agrees_with_reference_encoder() {
    let lengths: [usize; 8] = [0, 1, 2, 20, 55, 56, 255, 256];
    for len in lengths {
        let payload = vec![0x9c; len];
        assert_eq!(framed(&payload), alloy_rlp::encode(&payload[..]));
    }
    assert_eq!(framed(&[0x05]), alloy_rlp::encode(&[0x05u8][..]));
}

#[test]
fn string_round_trip_with_trailing_bytes() {
    let lengths: [usize; 6] = [0, 1, 2, 55, 56, 1000];
    for len in lengths {
        let payload = vec![0xe1; len];
        let mut bytes = framed(&payload);
        bytes.extend_from_slice(&[0xde, 0xad]);
        assert_eq!(decode_string(&bytes), Some(&payload[..]));
    }
    assert_eq!(decode_string(&[0x41, 0xff]), Some(&[0x41u8][..]));
}

#[test]
fn string_decode_rejects_lists_and_empty_input() {
    assert_eq!(decode_string(&[]), None);
    assert_eq!(decode_string(&[0xc0]), None);
    assert_eq!(decode_string(&[0xc2, 0x01, 0x02]), None);
    assert_eq!(decode_string(&[0xf8, 0x38]), None);
}

#[test]
fn string_decode_rejects_truncated_input() {
    assert_eq!(decode_string(&[0x82, 0x0a]), None);
    assert_eq!(decode_string(&[0x81]), None);
    assert_eq!(decode_string(&[0xb8]), None);
    assert_eq!(decode_string(&[0xb8, 56, 0x00]), None);
    assert_eq!(decode_string(&[0xbf, 0xff, 0xff, 0xff, 0xff, 0xff, 0xff, 0xff, 0xff]), None);
}

#[test]
fn string_decode_rejects_longer_forms_than_needed() {
    assert_eq!(decode_string(&[0x81, 0x05]), None);
    let mut short_as_long = vec![0xb8, 0x02];
    short_as_long.extend_from_slice(&[0x0a, 0x00]);
    assert_eq!(decode_string(&short_as_long), None);
    let mut leading_zero = vec![0xb9, 0x00, 0x38];
    leading_zero.extend_from_slice(&[0x00; 56]);
    assert_eq!(decode_string(&leading_zero), None);
}

#[test]
fn string_decode_agrees_with_reference_decoder() {
    let inputs: Vec<Vec<u8>> = vec![
        vec![0x82, 0x0a, 0x00],
        vec![0x81, 0x05],
        vec![0x81, 0x80],
        vec![0x05],
        vec![0xc1, 0x05],
        vec![0xb8, 0x02, 0x0a, 0x00],
        vec![0x83, 0x01],
        vec![0x80],
    ];
    for input in inputs {
        let mut buffer = &input[..];
        let expected = alloy_rlp::Header::decode_bytes(&mut buffer, false).ok();
        assert_eq!(decode_string(&input), expected);
    }
}
