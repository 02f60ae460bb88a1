use darkfi_net::frame::{
    encode_frame, read_block, read_command, read_frame, read_string_region, write_block,
    MAGIC_BYTES,
};
use darkfi_net::varint::VarInt;
use darkfi_net::wire::Read;

fn encoded(x: u64) -> Vec<u8> {
    let mut out = Vec::new();
    let n = VarInt(x).encode(&mut out);
    assert_eq!(n, out.len());
    out
}

#[test]
fn varint_exact_encodings() {
    assert_eq!(encoded(0), vec![0x00]);
    assert_eq!(encoded(0xFC), vec![0xFC]);
    assert_eq!(encoded(0xFD), vec![0xFD, 0xFD, 0x00]);
    assert_eq!(encoded(0xFFFF), vec![0xFD, 0xFF, 0xFF]);
    assert_eq!(encoded(0x1_0000), vec![0xFE, 0x00, 0x00, 0x01, 0x00]);
    assert_eq!(encoded(0xFFFF_FFFF), vec![0xFE, 0xFF, 0xFF, 0xFF, 0xFF]);
    assert_eq!(
        encoded(0x1_0000_0000),
        vec![0xFF, 0x00, 0x00, 0x00, 0x00, 0x01, 0x00, 0x00, 0x00]
    );
    assert_eq!(
        encoded(0x0102_0304_0506_0708),
        vec![0xFF, 0x08, 0x07, 0x06, 0x05, 0x04, 0x03, 0x02, 0x01]
    );
}

#[test]
fn varint_encode_appends() {
    let mut out = vec![7u8, 7];
    let n = VarInt(300).encode(&mut out);
    assert_eq!(n, 3);
    assert_eq!(out, vec![7, 7, 0xFD, 0x2C, 0x01]);
}

#[test]
fn varint_roundtrip_on_boundaries() {
    let values: [u64; 10] = [
        0,
        1,
        0xFC,
        0xFD,
        0xFFFF,
        0x1_0000,
        0xFFFF_FFFF,
        0x1_0000_0000,
        u64::MAX - 1,
        u64::MAX,
    ];
    for v in values {
        let mut bytes = encoded(v);
        let len = bytes.len();
        bytes.extend_from_slice(&[0xAB, 0xCD]);
        match VarInt::decode(&bytes) {
            Read::Done { value, consumed } => {
                assert_eq!(value, v);
                assert_eq!(consumed, len);
            }
            other => panic!("{:?}", other),
        }
    }
}

#[test]
fn varint_rejects_longer_than_needed() {
    assert!(matches!(VarInt::decode(&[0xFD, 0xFC, 0x00]), Read::Malformed));
    assert!(matches!(VarInt::decode(&[0xFE, 0xFF, 0xFF, 0x00, 0x00]), Read::Malformed));
    assert!(matches!(
        VarInt::decode(&[0xFF, 0xFF, 0xFF, 0xFF, 0xFF, 0x00, 0x00, 0x00, 0x00]),
        Read::Malformed
    ));
    assert!(matches!(VarInt::decode(&[0xFD, 0xFD, 0x00]), Read::Done { value: 0xFD, consumed: 3 }));
}

#[test]
fn varint_asks_for_the_missing_bytes() {
    assert!(matches!(VarInt::decode(&[]), Read::Incomplete { needed: 1 }));
    assert!(matches!(VarInt::decode(&[0xFD]), Read::Incomplete { needed: 2 }));
    assert!(matches!(VarInt::decode(&[0xFD, 0x01]), Read::Incomplete { needed: 1 }));
    assert!(matches!(VarInt::decode(&[0xFE, 0x01]), Read::Incomplete { needed: 3 }));
    assert!(matches!(VarInt::decode(&[0xFF]), Read::Incomplete { needed: 8 }));
}

#[test]
fn magic_bytes_value() {
    assert_eq!(MAGIC_BYTES, [0xd9, 0xef, 0xb6, 0x7d]);
}

#[test]
fn frame_exact_bytes() {
    let frame = encode_frame("ping", &[1, 2, 3]);
    assert_eq!(
        frame,
        vec![0xd9, 0xef, 0xb6, 0x7d, 5, 4, b'p', b'i', b'n', b'g', 3, 1, 2, 3]
    );
    let empty = encode_frame("verack", &[]);
    assert_eq!(
        empty,
        vec![0xd9, 0xef, 0xb6, 0x7d, 7, 6, b'v', b'e', b'r', b'a', b'c', b'k', 0]
    );
}

#[test]
fn frame_roundtrip_is_byte_identical() {
    let long_name: String = "x".repeat(300);
    let big_payload: Vec<u8> = (0..70_000u32).map(|i| (i % 251) as u8).collect();
    let cases: Vec<(&str, Vec<u8>)> = vec![
        ("ping", vec![]),
        ("version", vec![0xFF; 10]),
        ("\u{fc}n\u{ef}c\u{f6}d\u{e9}-\u{547d}\u{4ee4}", vec![0, 1, 2]),
        (long_name.as_str(), vec![9; 253]),
        ("addr", big_payload),
    ];
    for (command, payload) in cases {
        let mut stream = encode_frame(command, &payload);
        let frame_len = stream.len();
        stream.extend_from_slice(&[0xEE; 7]);
        match read_frame(&stream) {
            Read::Done { value: (c, p), consumed } => {
                assert_eq!(c, command);
                assert_eq!(p, payload);
                assert_eq!(consumed, frame_len);
            }
            other => panic!("{:?}", other),
        }
        let head = match read_command(&stream) {
            Read::Done { value, consumed } => {
                assert_eq!(value, command);
                consumed
            }
            other => panic!("{:?}", other),
        };
        match read_block(&stream[head..]) {
            Read::Done { value, consumed } => {
                assert_eq!(value, payload);
                assert_eq!(head + consumed, frame_len);
            }
            other => panic!("{:?}", other),
        }
    }
}

#[test]
fn whole_frames() {
    let frame = encode_frame("pong", &[7, 8]);
    assert!(matches!(read_frame(&frame[..3]), Read::Incomplete { needed: 1 }));
    assert!(matches!(read_frame(&frame[..10]), Read::Incomplete { needed: 1 }));
    assert!(matches!(read_frame(&frame[..11]), Read::Incomplete { needed: 2 }));
    assert!(matches!(read_frame(&frame[..12]), Read::Incomplete { needed: 1 }));
    assert!(matches!(read_frame(&frame), Read::Done { consumed: 13, .. }));
    let mut bad = frame.clone();
    bad[1] = 0;
    assert!(matches!(read_frame(&bad), Read::Malformed));
    // a payload length that is not written in its shortest form
    let mut long = frame[..10].to_vec();
    long.extend_from_slice(&[0xFD, 2, 0, 7, 8]);
    assert!(matches!(read_frame(&long), Read::Malformed));
}

#[test]
fn magic_mismatch_is_malformed() {
    let mut frame = encode_frame("ping", &[]);
    frame[3] ^= 1;
    assert!(matches!(read_command(&frame), Read::Malformed));
    assert!(matches!(read_command(&[0, 0, 0, 0]), Read::Malformed));
}

#[test]
fn command_reader_asks_for_exact_amounts() {
    let frame = encode_frame("ping", &[1, 2, 3]);
    assert!(matches!(read_command(&frame[..0]), Read::Incomplete { needed: 4 }));
    assert!(matches!(read_command(&frame[..1]), Read::Incomplete { needed: 3 }));
    assert!(matches!(read_command(&frame[..4]), Read::Incomplete { needed: 1 }));
    assert!(matches!(read_command(&frame[..5]), Read::Incomplete { needed: 5 }));
    assert!(matches!(read_command(&frame[..7]), Read::Incomplete { needed: 3 }));
    assert!(matches!(read_command(&frame[..10]), Read::Done { consumed: 10, .. }));
}

#[test]
fn a_claimed_length_bounds_the_read() {
    // The peer claims a name region of u64::MAX bytes: the reader asks for
    // them and reads nothing beyond what is there.
    let mut stream = vec![0xd9, 0xef, 0xb6, 0x7d, 0xFF];
    stream.extend_from_slice(&[0xFF; 8]);
    stream.extend_from_slice(&[1, 2, 3]);
    match read_command(&stream) {
        Read::Incomplete { needed } => assert_eq!(needed, u64::MAX - 3),
        other => panic!("{:?}", other),
    }
}

#[test]
fn name_region_must_hold_exactly_one_string() {
    // region of 6 bytes, string of 4: two bytes left over
    let stream = [0xd9, 0xef, 0xb6, 0x7d, 6, 4, b'p', b'i', b'n', b'g', 0, 0];
    assert!(matches!(read_command(&stream), Read::Malformed));
    // region of 4 bytes, string claims 4 bytes but only 3 fit
    let stream = [0xd9, 0xef, 0xb6, 0x7d, 4, 4, b'p', b'i', b'n', b'g'];
    assert!(matches!(read_command(&stream), Read::Malformed));
    // empty region
    let stream = [0xd9, 0xef, 0xb6, 0x7d, 0];
    assert!(matches!(read_command(&stream), Read::Malformed));
    // the empty name is a name
    let stream = [0xd9, 0xef, 0xb6, 0x7d, 1, 0];
    match read_command(&stream) {
        Read::Done { value, consumed } => {
            assert_eq!(value, "");
            assert_eq!(consumed, 6);
        }
        other => panic!("{:?}", other),
    }
}

#[test]
fn name_must_be_utf8() {
    let stream = [0xd9, 0xef, 0xb6, 0x7d, 3, 2, 0xC3, 0x28];
    assert!(matches!(read_command(&stream), Read::Malformed));
    let stream = [0xd9, 0xef, 0xb6, 0x7d, 3, 2, 0xC3, 0xA9];
    match read_command(&stream) {
        Read::Done { value, .. } => assert_eq!(value, "\u{e9}"),
        other => panic!("{:?}", other),
    }
    assert_eq!(read_string_region(&[2, 0xC3, 0xA9]), Some("\u{e9}".to_string()));
    assert_eq!(read_string_region(&[2, 0xFF, 0xFE]), None);
    assert_eq!(read_string_region(&[1, b'a', b'b']), None);
}

#[test]
fn non_minimal_length_is_malformed() {
    let stream = [0xd9, 0xef, 0xb6, 0x7d, 0xFD, 5, 0, 4, b'p', b'i', b'n', b'g'];
    assert!(matches!(read_command(&stream), Read::Malformed));
}

#[test]
fn blocks() {
    let mut out = vec![0xAA];
    write_block(&mut out, &[5, 6]);
    assert_eq!(out, vec![0xAA, 2, 5, 6]);
    assert!(matches!(read_block(&[2, 5]), Read::Incomplete { needed: 1 }));
    match read_block(&[2, 5, 6, 7]) {
        Read::Done { value, consumed } => {
            assert_eq!(value, vec![5, 6]);
            assert_eq!(consumed, 3);
        }
        other => panic!("{:?}", other),
    }
    let content = vec![3u8; 253];
    let mut out = Vec::new();
    write_block(&mut out, &content);
    assert_eq!(&out[..3], &[0xFD, 253, 0]);
    assert_eq!(&out[3..], &content[..]);
}
