use chch_daemon::codec::{
    decode_text, read_frame, u32_from_be_bytes, u32_to_be_bytes, write_frame,
};

#[test]
fn u32_to_be_bytes_is_big_endian() {
    assert_eq!(u32_to_be_bytes(0x0102_0304), vec![1u8, 2, 3, 4]);
    assert_eq!(u32_to_be_bytes(0), vec![0u8, 0, 0, 0]);
    assert_eq!(u32_to_be_bytes(u32::MAX), vec![255u8, 255, 255, 255]);
}

#[test]
fn u32_from_be_bytes_reads_big_endian() {
    assert_eq!(u32_from_be_bytes(&[1u8, 2, 3, 4]), 0x0102_0304);
    assert_eq!(u32_from_be_bytes(&[0u8, 0, 0, 7]), 7);
    assert_eq!(u32_from_be_bytes(&[255u8, 255, 255, 255]), u32::MAX);
}

#[test]
fn write_frame_prefixes_the_length() {
    let frame = write_frame(b"ping");
    assert_eq!(frame, vec![0u8, 0, 0, 4, b'p', b'i', b'n', b'g']);
}

#[test]
fn write_frame_of_empty_payload_is_the_zero_prefix() {
    assert_eq!(write_frame(b""), vec![0u8, 0, 0, 0]);
}

#[test]
fn read_frame_round_trips_write_frame() {
    let payload = b"hello world";
    let frame = write_frame(payload);
    let back = read_frame(&frame).expect("a whole frame must parse");
    assert_eq!(back, &payload[..]);
}

#[test]
fn read_frame_round_trips_empty_payload() {
    let frame = write_frame(b"");
    assert_eq!(read_frame(&frame), Some(&b""[..]));
}

#[test]
fn read_frame_rejects_short_prefix() {
    assert_eq!(read_frame(&[0u8, 0, 1]), None);
    assert_eq!(read_frame(&[]), None);
}

#[test]
fn read_frame_rejects_truncated_payload() {
    // the prefix announces five bytes, only three follow
    assert_eq!(read_frame(&[0u8, 0, 0, 5, b'a', b'b', b'c']), None);
}

#[test]
fn read_frame_ignores_trailing_bytes() {
    let mut frame = write_frame(b"ok");
    frame.extend_from_slice(b"rest of the stream");
    assert_eq!(read_frame(&frame), Some(&b"ok"[..]));
}

#[test]
fn decode_text_keeps_ascii() {
    assert_eq!(decode_text(b"ping"), "ping");
    assert_eq!(decode_text(b""), "");
}

#[test]
fn decode_text_replaces_invalid_sequences() {
    let decoded = decode_text(&[b'a', 0xff, b'b']);
    assert_eq!(decoded, "a\u{fffd}b");
}
