use ipc_util::{decode_frame, decode_len, encode_frame, IpcStreamReadError};

use byteorder::{LittleEndian, WriteBytesExt};

#[test]
fn encode_frame_exact_bytes() {
    let payload: Vec<u8> = vec![1, 2, 3];
    let frame = encode_frame(&payload);
    assert_eq!(frame, vec![3, 0, 0, 0, 1, 2, 3]);
}

#[test]
fn encode_frame_empty_payload() {
    let payload: Vec<u8> = vec![];
    let frame = encode_frame(&payload);
    assert_eq!(frame, vec![0, 0, 0, 0]);
}

#[test]
fn encode_frame_multibyte_length() {
    let payload: Vec<u8> = vec![7; 0x0102];
    let frame = encode_frame(&payload);
    assert_eq!(&frame[..4], &[0x02, 0x01, 0, 0]);
    assert_eq!(frame.len(), 4 + 0x0102);
}

#[test]
fn length_prefix_matches_byteorder() {
    // The length field decodes exactly as byteorder encodes it.
    for n in [0u32, 1, 255, 256, 0x0102_0304, u32::MAX] {
        let mut reference: Vec<u8> = Vec::new();
        reference.write_u32::<LittleEndian>(n).unwrap();
        let header = [reference[0], reference[1], reference[2], reference[3]];
        assert_eq!(decode_len(&header), n);
    }
    // The frame's length field is written exactly as byteorder writes it.
    for len in [0usize, 1, 255, 256, 70000] {
        let payload: Vec<u8> = vec![0x5a; len];
        let mut reference: Vec<u8> = Vec::new();
        reference.write_u32::<LittleEndian>(len as u32).unwrap();
        assert_eq!(&encode_frame(&payload)[..4], &reference[..]);
    }
}

#[test]
fn decode_len_exact_value() {
    assert_eq!(decode_len(&[0x78, 0x56, 0x34, 0x12]), 0x1234_5678);
    assert_eq!(decode_len(&[5, 0, 0, 0]), 5);
}

#[test]
fn frame_round_trip() {
    let payload: Vec<u8> = vec![10, 20, 30, 40, 50];
    let frame = encode_frame(&payload);
    let (decoded, consumed) = decode_frame(&frame).unwrap();
    assert_eq!(decoded, payload);
    assert_eq!(consumed, frame.len());
}

#[test]
fn decode_never_reads_ahead() {
    let payload: Vec<u8> = vec![9, 8, 7];
    let mut buf = encode_frame(&payload);
    let frame_len = buf.len();
    buf.extend_from_slice(&[0xaa, 0xbb, 0xcc]);
    let (decoded, consumed) = decode_frame(&buf).unwrap();
    assert_eq!(decoded, payload);
    assert_eq!(consumed, frame_len);
}

#[test]
fn truncated_payload_is_read_error() {
    let payload: Vec<u8> = vec![1, 2, 3, 4];
    let mut buf = encode_frame(&payload);
    buf.pop();
    assert_eq!(decode_frame(&buf), Err(IpcStreamReadError::ReadError));
}

#[test]
fn truncated_prefix_is_read_error() {
    let buf: Vec<u8> = vec![3, 0];
    assert_eq!(decode_frame(&buf), Err(IpcStreamReadError::ReadError));
    let empty: Vec<u8> = vec![];
    assert_eq!(decode_frame(&empty), Err(IpcStreamReadError::ReadError));
}

#[test]
fn zero_length_frame_decodes_empty() {
    let buf: Vec<u8> = vec![0, 0, 0, 0, 0xff];
    let (decoded, consumed) = decode_frame(&buf).unwrap();
    assert_eq!(decoded, Vec::<u8>::new());
    assert_eq!(consumed, 4);
}

#[test]
fn encoded_value_round_trips_through_frame() {
    let message = String::from("hello");
    let payload = bincode::serialize(&message).unwrap();
    let frame = encode_frame(&payload);
    let (decoded_payload, _) = decode_frame(&frame).unwrap();
    let decoded: String = bincode::deserialize(&decoded_payload).unwrap();
    assert_eq!(decoded, message);
}
