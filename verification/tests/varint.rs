use quic_codec::error::ErrorKind;
use quic_codec::protocol::varint::{MAX_INT_1, MAX_INT_2, MAX_INT_4, MAX_INT_8};
use quic_codec::protocol::{Decoder, Encoder, VarInt};
use std::io::Cursor;

fn decode_var_int(input: Vec<u8>) -> VarInt {
    let mut v = VarInt::default();
    v.decode(&mut Cursor::new(input)).unwrap();
    v
}

#[test]
fn decode_var_int1_test() {
    assert_eq!(decode_var_int(vec![0b00000011]), VarInt(3));
}

#[test]
fn decode_var_int2_test() {
    assert_eq!(decode_var_int(vec![0b01000001, 0b00000001]), VarInt(257));
}

#[test]
fn decode_var_int4_test() {
    assert_eq!(
        decode_var_int(vec![0b10000001, 0b00000001, 0b00000001, 0b0000000]),
        VarInt(16843008)
    );
}

#[test]
fn decode_var_int8_test() {
    assert_eq!(
        decode_var_int(vec![
            0b11000001, 0b00000001, 0b00000001, 0b00000001, 0b00000001, 0b00000001, 0b00000001,
            0b00000001,
        ]),
        VarInt(72340172838076673u64)
    );
}

fn encode_var_int(input: VarInt) -> Vec<u8> {
    let mut dst = vec![];
    input.encode(&mut dst).unwrap();
    dst
}

#[test]
fn encode_var_int1_test() {
    assert_eq!(encode_var_int(3.into()), vec![0b00000011]);
}

#[test]
fn encode_var_int2_test() {
    assert_eq!(encode_var_int(257.into()), vec![0b01000001, 0b00000001]);
}

#[test]
fn encode_var_int4_test() {
    assert_eq!(
        encode_var_int(16843009.into()),
        vec![0b10000001, 0b00000001, 0b00000001, 0b0000001],
    );
}

#[test]
fn encode_var_int8_test() {
    assert_eq!(
        encode_var_int(72340172838076673u64.into()),
        vec![
            0b11000001, 0b00000001, 0b00000001, 0b00000001, 0b00000001, 0b00000001, 0b00000001,
            0b00000001,
        ],
    );
}

fn var_int_round_trip(v: u64, expected_len: usize) {
    let mut dst = vec![0xaa];
    assert_eq!(VarInt(v).encode(&mut dst).unwrap(), expected_len);
    assert_eq!(dst.len(), 1 + expected_len);
    assert_eq!(dst[0], 0xaa);
    dst.push(0x55);
    let mut src = Cursor::new(dst);
    src.set_position(1);
    let mut back = VarInt::default();
    assert_eq!(back.decode(&mut src).unwrap(), expected_len);
    assert_eq!(back, VarInt(v));
    assert_eq!(src.position(), 1 + expected_len as u64);
}

#[test]
fn var_int_class_boundaries_round_trip() {
    var_int_round_trip(0, 1);
    var_int_round_trip(63, 1);
    var_int_round_trip(64, 2);
    var_int_round_trip(16383, 2);
    var_int_round_trip(16384, 4);
    var_int_round_trip((1 << 30) - 1, 4);
    var_int_round_trip(1 << 30, 8);
    var_int_round_trip((1 << 62) - 1, 8);
}

#[test]
fn var_int_class_maxima() {
    assert_eq!(MAX_INT_1, (1 << 6) - 1);
    assert_eq!(MAX_INT_2, (1 << 14) - 1);
    assert_eq!(MAX_INT_4, (1 << 30) - 1);
    assert_eq!(MAX_INT_8, (1 << 62) - 1);
}

#[test]
fn var_int_exact_bytes_at_boundaries() {
    assert_eq!(encode_var_int(VarInt(63)), vec![0x3f]);
    assert_eq!(encode_var_int(VarInt(64)), vec![0x40, 0x40]);
    assert_eq!(encode_var_int(VarInt(16383)), vec![0x7f, 0xff]);
    assert_eq!(encode_var_int(VarInt(16384)), vec![0x80, 0x00, 0x40, 0x00]);
    assert_eq!(encode_var_int(VarInt((1 << 30) - 1)), vec![0xbf, 0xff, 0xff, 0xff]);
    assert_eq!(
        encode_var_int(VarInt(1 << 30)),
        vec![0xc0, 0x00, 0x00, 0x00, 0x40, 0x00, 0x00, 0x00]
    );
    assert_eq!(
        encode_var_int(VarInt((1 << 62) - 1)),
        vec![0xff, 0xff, 0xff, 0xff, 0xff, 0xff, 0xff, 0xff]
    );
}

#[test]
fn var_int_overflow_is_an_error() {
    for v in [1u64 << 62, (1u64 << 62) + 1, u64::MAX] {
        let mut dst = vec![1, 2, 3];
        let err = VarInt(v).encode(&mut dst).unwrap_err();
        assert_eq!(err.kind(), ErrorKind::Overflow);
        assert_eq!(dst, vec![1, 2, 3]);
    }
}

#[test]
fn var_int_decode_of_empty_source_is_io() {
    let mut src = Cursor::new(vec![]);
    let mut v = VarInt(7);
    assert_eq!(v.decode(&mut src).unwrap_err().kind(), ErrorKind::Io);
    assert_eq!(v, VarInt(7));
    assert_eq!(src.position(), 0);
}

#[test]
fn var_int_decode_of_short_source_is_io() {
    for input in [vec![0x40u8], vec![0x80, 1, 2], vec![0xc0, 1, 2, 3, 4, 5, 6]] {
        let mut src = Cursor::new(input);
        let mut v = VarInt(7);
        assert_eq!(v.decode(&mut src).unwrap_err().kind(), ErrorKind::Io);
        assert_eq!(v, VarInt(7));
        assert_eq!(src.position(), 1);
    }
}

#[test]
fn var_int_decode_takes_one_value_only() {
    let mut src = Cursor::new(vec![0x41, 0x01, 0x03, 0x80, 0x00, 0x40, 0x00]);
    let mut v = VarInt::default();
    assert_eq!(v.decode(&mut src).unwrap(), 2);
    assert_eq!(v, VarInt(257));
    assert_eq!(v.decode(&mut src).unwrap(), 1);
    assert_eq!(v, VarInt(3));
    assert_eq!(v.decode(&mut src).unwrap(), 4);
    assert_eq!(v, VarInt(16384));
    assert_eq!(v.decode(&mut src).unwrap_err().kind(), ErrorKind::Io);
}

#[test]
fn var_int_default_is_zero() {
    assert_eq!(VarInt::default(), VarInt(0));
    assert_eq!(VarInt::from(9), VarInt(9));
}

#[test]
fn protocol_version() {
    assert_eq!(quic_codec::protocol::VERSION, 0xff00000C);
}
