use quic_codec::error::ErrorKind;
use quic_codec::protocol::cid::{DEFAULT_CID_LENGTH, MAX_CID_LENGTH, MIN_CID_LENGTH};
use quic_codec::protocol::{ConnectionID, Decoder, Encoder};
use std::io::Cursor;

const CID_LENGTH_RANGE: std::ops::RangeInclusive<usize> = MIN_CID_LENGTH..=MAX_CID_LENGTH;

#[test]
fn rand_test() {
    let cid = ConnectionID::generate();
    println!("{:?}", cid);
}

#[test]
fn range_test() {
    assert_eq!(CID_LENGTH_RANGE.contains(&MIN_CID_LENGTH), true);
    assert_eq!(CID_LENGTH_RANGE.contains(&8), true);
    assert_eq!(CID_LENGTH_RANGE.contains(&MAX_CID_LENGTH), true);

    assert_eq!(CID_LENGTH_RANGE.contains(&0), false);
    assert_eq!(CID_LENGTH_RANGE.contains(&20), false);

    assert_eq!(ConnectionID::new(MIN_CID_LENGTH).is_ok(), true);
    assert_eq!(ConnectionID::new(8).is_ok(), true);
    assert_eq!(ConnectionID::new(MAX_CID_LENGTH).is_ok(), true);

    assert_eq!(ConnectionID::new(0).is_ok(), false);
    assert_eq!(ConnectionID::new(20).is_ok(), false);
}

#[test]
fn decode_test() {
    let mut cid = ConnectionID::new(8).unwrap();
    let input = vec![
        0b11111111, 0b11111111, 0b11111111, 0b11111111, 0b11111111, 0b11111111, 0b11111111,
        0b11111111,
    ];
    cid.decode(&mut Cursor::new(input.clone())).unwrap();
    assert_eq!(&*cid, input.as_slice());
}

#[test]
fn encode_test() {
    let mut cid = ConnectionID::new(8).unwrap();
    cid.clone_from_slice(
        vec![
            0b11111111, 0b11111111, 0b11111111, 0b11111111, 0b11111111, 0b11111111, 0b11111111,
            0b11111111,
        ]
        .as_slice(),
    );
    let mut input = vec![];
    cid.encode(&mut input).unwrap();
    assert_eq!(&*cid, input.as_slice());
}

#[test]
fn cid_lengths_in_range_are_accepted() {
    assert_eq!(MIN_CID_LENGTH, 4);
    assert_eq!(MAX_CID_LENGTH, 18);
    for len in 4..=18usize {
        let cid = ConnectionID::new(len).unwrap();
        assert_eq!(cid.as_slice(), vec![0u8; len].as_slice());
        assert_eq!(cid.len(), len - 3);
    }
}

#[test]
fn cid_lengths_out_of_range_are_refused() {
    for len in [0usize, 1, 3, 19, 20, 255, usize::MAX] {
        let err = ConnectionID::new(len).unwrap_err();
        assert_eq!(err.kind(), ErrorKind::InvalidLength);
    }
}

#[test]
fn generated_cid_has_the_default_length() {
    assert_eq!(DEFAULT_CID_LENGTH, 8);
    for _ in 0..32 {
        let cid = ConnectionID::generate();
        assert_eq!(cid.as_slice().len(), 8);
        assert_eq!(cid.len(), 5);
        let mut dst = vec![];
        assert_eq!(cid.encode(&mut dst).unwrap(), 8);
        assert_eq!(dst.len(), 8);
    }
}

#[test]
fn cid_round_trips_through_a_fresh_buffer() {
    for len in 4..=18usize {
        let mut cid = ConnectionID::new(len).unwrap();
        for (i, b) in cid.iter_mut().enumerate() {
            *b = 0xa0 + i as u8;
        }
        let mut dst = vec![];
        assert_eq!(cid.encode(&mut dst).unwrap(), len);
        let expected: Vec<u8> = (0..len).map(|i| 0xa0 + i as u8).collect();
        assert_eq!(dst, expected);

        dst.push(0x77);
        let mut src = Cursor::new(dst);
        let mut back = ConnectionID::new(len).unwrap();
        assert_eq!(back.decode(&mut src).unwrap(), len);
        assert_eq!(back, cid);
        assert_eq!(back.as_slice(), expected.as_slice());
        assert_eq!(src.position(), len as u64);
    }
}

#[test]
fn cid_encode_appends() {
    let mut cid = ConnectionID::new(4).unwrap();
    cid.copy_from_slice(&[1, 2, 3, 4]);
    let mut dst = vec![9, 9];
    assert_eq!(cid.encode(&mut dst).unwrap(), 4);
    assert_eq!(dst, vec![9, 9, 1, 2, 3, 4]);
}

#[test]
fn cid_decode_of_short_source_is_io() {
    let mut cid = ConnectionID::new(5).unwrap();
    cid.copy_from_slice(&[1, 2, 3, 4, 5]);
    let mut src = Cursor::new(vec![7, 7, 7, 7]);
    assert_eq!(cid.decode(&mut src).unwrap_err().kind(), ErrorKind::Io);
    assert_eq!(cid.as_slice(), &[1, 2, 3, 4, 5]);
    assert_eq!(src.position(), 0);
}

#[test]
fn cid_decode_starts_at_the_cursor() {
    let mut cid = ConnectionID::new(4).unwrap();
    let mut src = Cursor::new(vec![0, 1, 2, 3, 4, 5, 6]);
    src.set_position(2);
    assert_eq!(cid.decode(&mut src).unwrap(), 4);
    assert_eq!(cid.as_slice(), &[2, 3, 4, 5]);
    assert_eq!(src.position(), 6);
}

#[test]
fn cid_equality_is_by_bytes_and_length() {
    let mut a = ConnectionID::new(4).unwrap();
    let mut b = ConnectionID::new(4).unwrap();
    assert_eq!(a, b);
    a.copy_from_slice(&[1, 2, 3, 4]);
    assert_ne!(a, b);
    b.copy_from_slice(&[1, 2, 3, 4]);
    assert_eq!(a, b);
    b[3] = 5;
    assert_ne!(a, b);
    assert_ne!(ConnectionID::new(4).unwrap(), ConnectionID::new(5).unwrap());
}

#[test]
fn cid_decode_into_a_longer_receiver_keeps_its_length() {
    let mut long = ConnectionID::new(18).unwrap();
    long.decode(&mut Cursor::new(vec![0xff; 18])).unwrap();
    let mut short = ConnectionID::new(4).unwrap();
    short.decode(&mut Cursor::new(vec![0xff; 18])).unwrap();
    assert_eq!(long.as_slice(), vec![0xffu8; 18].as_slice());
    assert_eq!(short.as_slice(), &[0xff, 0xff, 0xff, 0xff]);
}
