use doq_stream::framing::{
    decode_message, frame_length, frame_message, read_frame, DoqStreamError, DOQ_ALPN,
    MAX_MESSAGE_LEN,
};
use doq_stream::message::Message;

fn header(id: u16) -> Vec<u8> {
    let mut bytes = vec![0u8; 12];
    bytes[0] = (id >> 8) as u8;
    bytes[1] = id as u8;
    bytes
}

#[test]
fn alpn_token_is_doq() {
    assert_eq!(&DOQ_ALPN[..], b"doq");
}

#[test]
fn receives_header_only_query() {
    let inbound = [0x00, 0x0c, 0x00, 0x00, 0x01, 0x00, 0, 0, 0, 0, 0, 0, 0, 0];
    let (message, used) = read_frame(&inbound).unwrap();
    assert_eq!(used, 14);
    assert_eq!(message.id(), 0);
    assert_eq!(message.len(), 12);
    assert_eq!(message.to_vec(), inbound[2..].to_vec());
}

#[test]
fn refuses_nonzero_id() {
    let inbound = [0x00, 0x0c, 0xbe, 0xef, 0, 0, 0, 0, 0, 0, 0, 0, 0, 0];
    assert_eq!(read_frame(&inbound).err(), Some(DoqStreamError::QuicMessageIdNot0(0xbeef)));
}

#[test]
fn short_payload_is_eof() {
    assert_eq!(read_frame(&[0x00, 0x02, 0x12]).err(), Some(DoqStreamError::UnexpectedEof));
}

#[test]
fn empty_stream_is_eof() {
    assert_eq!(read_frame(&[]).err(), Some(DoqStreamError::UnexpectedEof));
    assert_eq!(read_frame(&[0x00]).err(), Some(DoqStreamError::UnexpectedEof));
}

#[test]
fn five_byte_frame_with_three_bytes_is_eof() {
    assert_eq!(
        read_frame(&[0x00, 0x05, 0xaa, 0xbb, 0xcc]).err(),
        Some(DoqStreamError::UnexpectedEof)
    );
}

#[test]
fn zero_length_frame_is_serialization_error() {
    assert_eq!(read_frame(&[0x00, 0x00]).err(), Some(DoqStreamError::Serialization));
}

#[test]
fn payload_shorter_than_header_is_serialization_error() {
    assert_eq!(decode_message(&[0, 0, 1]).err(), Some(DoqStreamError::Serialization));
    assert_eq!(Message::from_vec(&[0; 11]).err(), Some(DoqStreamError::Serialization));
}

#[test]
fn send_zeroes_the_id() {
    let message = Message::from_vec(&header(0x1234)).unwrap();
    let frame = frame_message(message).unwrap();
    let mut expected = vec![0x00, 0x0c];
    expected.extend_from_slice(&[0u8; 12]);
    assert_eq!(frame, expected);
}

#[test]
fn send_keeps_the_rest_of_the_message() {
    let mut bytes = header(0xffff);
    bytes[2] = 0x81;
    bytes[11] = 0x07;
    let frame = frame_message(Message::from_vec(&bytes).unwrap()).unwrap();
    assert_eq!(&frame[..4], &[0x00, 0x0c, 0x00, 0x00]);
    assert_eq!(&frame[4..], &bytes[2..]);
}

#[test]
fn oversized_message_is_refused() {
    let message = Message::from_vec(&vec![0u8; 65536]).unwrap();
    assert_eq!(frame_message(message).err(), Some(DoqStreamError::MessageTooLarge));
}

#[test]
fn largest_message_is_framed() {
    let message = Message::from_vec(&vec![7u8; MAX_MESSAGE_LEN]).unwrap();
    let frame = frame_message(message).unwrap();
    assert_eq!(frame.len(), 65537);
    assert_eq!(&frame[..4], &[0xff, 0xff, 0x00, 0x00]);
    assert_eq!(frame[4], 7);
}

#[test]
fn length_prefix_is_big_endian() {
    assert_eq!(frame_length(&[0x01, 0x02]), 258);
    assert_eq!(frame_length(&[0x00, 0x0c]), 12);
    assert_eq!(frame_length(&[0xff, 0xff]), 65535);
    let message = Message::from_vec(&vec![0u8; 300]).unwrap();
    let frame = frame_message(message).unwrap();
    assert_eq!(&frame[..2], &[0x01, 0x2c]);
}

#[test]
fn framed_message_reads_back_with_zero_id() {
    let mut bytes = header(0x4242);
    bytes.extend_from_slice(&[1, 2, 3, 4, 5]);
    let frame = frame_message(Message::from_vec(&bytes).unwrap()).unwrap();
    let (message, used) = read_frame(&frame).unwrap();
    assert_eq!(used, frame.len());
    let mut expected = bytes.clone();
    expected[0] = 0;
    expected[1] = 0;
    assert_eq!(message.to_vec(), expected);
}

#[test]
fn two_frames_read_in_turn() {
    let mut inbound = frame_message(Message::from_vec(&header(1)).unwrap()).unwrap();
    let mut second = header(0);
    second[3] = 9;
    inbound.extend(frame_message(Message::from_vec(&second).unwrap()).unwrap());
    let (first, used) = read_frame(&inbound).unwrap();
    assert_eq!(first.to_vec(), header(0));
    let (next, rest) = read_frame(&inbound[used..]).unwrap();
    assert_eq!(next.to_vec(), second);
    assert_eq!(used + rest, inbound.len());
}

#[test]
fn set_id_changes_only_the_id() {
    let mut message = Message::from_vec(&header(0)).unwrap();
    message.set_id(0xbeef);
    assert_eq!(message.id(), 0xbeef);
    let mut expected = header(0);
    expected[0] = 0xbe;
    expected[1] = 0xef;
    assert_eq!(message.into_vec(), expected);
}
