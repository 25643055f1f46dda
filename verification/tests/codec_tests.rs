use pipo::codec::{encode_frame, read_be_u16, read_be_u32, Reassembler};
use pipo::proto::{emit_varint, read_varint, parse_fields, FieldValue};

#[test]
fn big_endian_readers_match_byte_arithmetic() {
    assert_eq!(read_be_u16(&[0x12, 0x34]), 0x1234);
    assert_eq!(read_be_u16(&[0x00, 0x0b, 0xff]), 11);
    assert_eq!(read_be_u32(&[0x01, 0x02, 0x03, 0x04]), 0x01020304);
    assert_eq!(read_be_u32(&[0xff, 0xff, 0xff, 0xff]), u32::MAX);
}

#[test]
fn frames_encode_with_a_six_byte_header() {
    let frame = encode_frame(11, &[0xde, 0xad]);
    assert_eq!(frame, vec![0x00, 0x0b, 0x00, 0x00, 0x00, 0x02, 0xde, 0xad]);
}

#[test]
fn a_whole_frame_round_trips_through_the_reassembler() {
    let payload: Vec<u8> = (0u8..37).collect();
    let encoded = encode_frame(9, &payload);
    let mut buf = Reassembler::new();
    buf.push_bytes(&encoded);
    let frame = buf.next_frame().unwrap().expect("one whole frame");
    assert_eq!(frame.type_tag, 9);
    assert_eq!(frame.payload, payload);
    assert!(buf.next_frame().unwrap().is_none());
}

#[test]
fn split_frames_reassemble_at_every_boundary() {
    let payload: Vec<u8> = vec![1, 2, 3, 4, 5, 6, 7, 8, 9];
    let encoded = encode_frame(7, &payload);
    for cut in 0..=encoded.len() {
        let mut buf = Reassembler::new();
        buf.push_bytes(&encoded[..cut]);
        if cut < encoded.len() {
            assert!(buf.next_frame().unwrap().is_none(), "cut at {}", cut);
        }
        buf.push_bytes(&encoded[cut..]);
        let frame = buf.next_frame().unwrap().expect("frame after second half");
        assert_eq!(frame.type_tag, 7);
        assert_eq!(frame.payload, payload);
    }
}

#[test]
fn two_frames_in_one_read_come_out_in_order() {
    let a = encode_frame(3, &[]);
    let b = encode_frame(11, &[0x2a]);
    let mut both = a.clone();
    both.extend_from_slice(&b);
    let mut buf = Reassembler::new();
    buf.push_bytes(&both);
    assert_eq!(buf.next_frame().unwrap().unwrap().type_tag, 3);
    let second = buf.next_frame().unwrap().unwrap();
    assert_eq!(second.type_tag, 11);
    assert_eq!(second.payload, vec![0x2a]);
}

#[test]
fn an_oversized_header_is_a_fatal_error() {
    let mut buf = Reassembler::new();
    // Tag 1, announced length one past the 8 MiB payload cap.
    buf.push_bytes(&[0x00, 0x01, 0x00, 0x80, 0x00, 0x09]);
    assert!(buf.next_frame().is_err());
}

#[test]
fn varints_round_trip() {
    for v in [0u64, 1, 127, 128, 300, 65535, u64::MAX] {
        let mut out = Vec::new();
        emit_varint(&mut out, v);
        let (back, used) = read_varint(&out, 0).unwrap();
        assert_eq!(back, v);
        assert_eq!(used, out.len());
    }
}

#[test]
fn field_streams_parse_by_wire_type() {
    // Field 1 varint 150, field 2 length-delimited "hi".
    let bytes = vec![0x08, 0x96, 0x01, 0x12, 0x02, b'h', b'i'];
    let fields = parse_fields(&bytes).unwrap();
    assert_eq!(fields.len(), 2);
    assert_eq!(fields[0].number, 1);
    assert!(matches!(fields[0].value, FieldValue::Varint(150)));
    assert_eq!(fields[1].number, 2);
    match &fields[1].value {
        FieldValue::Bytes(b) => assert_eq!(b.as_slice(), b"hi"),
        other => panic!("expected bytes, got {:?}", other),
    }
}

#[test]
fn a_truncated_field_is_a_parse_error() {
    // Field 1, length-delimited, announces 5 bytes but carries 2.
    assert!(parse_fields(&[0x0a, 0x05, 1, 2]).is_err());
}

#[test]
fn headers_decode_to_tag_and_length() {
    let frame = pipo::codec::encode_frame(11, &[1, 2, 3]);
    let (tag, length) = pipo::codec::decode_header(&frame);
    assert_eq!(tag, 11);
    assert_eq!(length, 3);
}
