use jsh_sandbox::inputproto::{
    decode_header, encode_data_frame, read, u32_from_be, u32_to_be, Decoded, FrameHeader,
    InputEvent, InvalidMessage, ReadError,
};

#[test]
fn data_message_delivers_announced_bytes() {
    let input = [0u8, 0, 0, 0, 3, 10, 20, 30, 40];
    let res = read(&input);
    assert_eq!(res, Ok(Decoded { event: InputEvent::Data(vec![10, 20, 30]), consumed: 8 }));
}

#[test]
fn data_message_stops_at_end_of_stream() {
    let input = [0u8, 0, 0, 1, 0, 7, 8];
    let res = read(&input);
    assert_eq!(res, Ok(Decoded { event: InputEvent::Data(vec![7, 8]), consumed: 7 }));
}

#[test]
fn empty_data_message() {
    let input = [0u8, 0, 0, 0, 0, 99];
    let res = read(&input);
    assert_eq!(res, Ok(Decoded { event: InputEvent::Data(vec![]), consumed: 5 }));
}

#[test]
fn big_endian_length() {
    let mut input = vec![0u8, 0, 0, 1, 2];
    input.extend(std::iter::repeat(5u8).take(300));
    let res = read(&input).unwrap();
    assert_eq!(res.consumed, 5 + 258);
    match res.event {
        InputEvent::Data(bytes) => assert_eq!(bytes.len(), 258),
        other => panic!("unexpected {:?}", other),
    }
}

#[test]
fn resize_message() {
    let input = [1u8, 0, 80, 0, 24, 0xff];
    let res = read(&input);
    assert_eq!(res, Ok(Decoded { event: InputEvent::Resize { width: 80, height: 24 }, consumed: 5 }));
    let input = [1u8, 1, 2, 3, 4];
    let res = read(&input);
    assert_eq!(res, Ok(Decoded { event: InputEvent::Resize { width: 258, height: 772 }, consumed: 5 }));
}

#[test]
fn unknown_kind_is_invalid() {
    let input = [2u8, 0, 0, 0, 0];
    assert_eq!(read(&input), Err(ReadError::Invalid(InvalidMessage)));
    let input = [0xffu8, 1, 2, 3, 4, 5, 6];
    assert_eq!(read(&input), Err(ReadError::Invalid(InvalidMessage)));
}

#[test]
fn short_header_is_truncated() {
    assert_eq!(read(&[]), Err(ReadError::Truncated));
    assert_eq!(read(&[0u8, 0, 0, 0]), Err(ReadError::Truncated));
    assert_eq!(read(&[7u8]), Err(ReadError::Truncated));
}

#[test]
fn decode_header_kinds() {
    assert_eq!(decode_header(&[0, 0x12, 0x34, 0x56, 0x78]), Ok(FrameHeader::Data { len: 0x12345678 }));
    assert_eq!(decode_header(&[1, 0x01, 0x00, 0x00, 0x30]), Ok(FrameHeader::Resize { width: 256, height: 48 }));
    assert_eq!(decode_header(&[9, 0, 0, 0, 0]), Err(InvalidMessage));
}

#[test]
fn invalid_message_text() {
    assert_eq!(InvalidMessage.message(), "Invalid message.");
}

#[test]
fn be_conversions() {
    assert_eq!(u32_from_be(0xde, 0xad, 0xbe, 0xef), 0xdeadbeef);
    assert_eq!(u32_to_be(0xdeadbeef), [0xde, 0xad, 0xbe, 0xef]);
    assert_eq!(u32_to_be(0), [0, 0, 0, 0]);
    assert_eq!(u32_to_be(u32::MAX), [0xff; 4]);
}

#[test]
fn encode_data_frame_layout() {
    assert_eq!(encode_data_frame(b"hi"), vec![0, 0, 0, 0, 2, b'h', b'i']);
    assert_eq!(encode_data_frame(b""), vec![0, 0, 0, 0, 0]);
}

#[test]
fn data_frame_roundtrip_with_following_message() {
    let payload: Vec<u8> = (0..=255u8).collect();
    let mut stream = encode_data_frame(&payload);
    let first_len = stream.len();
    stream.extend_from_slice(&[1, 0, 100, 0, 40]);
    let first = read(&stream).unwrap();
    assert_eq!(first, Decoded { event: InputEvent::Data(payload.clone()), consumed: first_len });
    let second = read(&stream[first.consumed..]).unwrap();
    assert_eq!(second, Decoded { event: InputEvent::Resize { width: 100, height: 40 }, consumed: 5 });
}
