use std::io::Cursor;

use theatre::codec::{frame_payload, read_exact, read_frame, read_payload, CodecError, FrameRead, MAX_MESSAGE_SIZE};

fn encode(value: &serde_json::Value) -> Vec<u8> {
    let json = serde_json::to_vec(value).unwrap();
    match frame_payload(&json) {
        Ok(bytes) => bytes,
        Err(e) => panic!("framing failed: {e:?}"),
    }
}

fn read_value(cursor: &mut Cursor<Vec<u8>>) -> serde_json::Value {
    let payload = read_payload(cursor).unwrap();
    serde_json::from_slice(&payload).unwrap()
}

#[test]
fn encode_produces_length_prefixed_json() {
    let mut msg = serde_json::Map::new();
    msg.insert("hello".into(), serde_json::Value::String("world".into()));
    let bytes = encode(&serde_json::Value::Object(msg));
    let len = u32::from_be_bytes([bytes[0], bytes[1], bytes[2], bytes[3]]);
    let json: serde_json::Value = serde_json::from_slice(&bytes[4..]).unwrap();
    assert_eq!(len as usize, bytes.len() - 4);
    assert_eq!(json["hello"], "world");
}

#[test]
fn write_read_round_trip() {
    let sent: serde_json::Value =
        serde_json::from_str(r#"{"test": 42, "nested": {"a": true}}"#).unwrap();
    let buf = encode(&sent);
    let mut cursor = Cursor::new(buf);
    let decoded = read_value(&mut cursor);
    assert_eq!(sent, decoded);
}

#[test]
fn rejects_oversized_message() {
    // Create a length prefix claiming 17 MiB
    let mut buf = Vec::new();
    let bad_len: u32 = 17 * 1024 * 1024;
    buf.extend_from_slice(&bad_len.to_be_bytes());
    buf.extend_from_slice(b"{}"); // tiny payload, but prefix says huge
    let mut cursor = Cursor::new(buf);
    let result = read_payload(&mut cursor);
    assert!(matches!(result, Err(CodecError::MessageTooLarge(_))));
}

#[test]
fn multiple_messages_in_stream() {
    let msg1: serde_json::Value = serde_json::from_str(r#"{"seq": 1}"#).unwrap();
    let msg2: serde_json::Value = serde_json::from_str(r#"{"seq": 2}"#).unwrap();
    let mut buf = encode(&msg1);
    buf.extend_from_slice(&encode(&msg2));
    let mut cursor = Cursor::new(buf);
    let d1 = read_value(&mut cursor);
    let d2 = read_value(&mut cursor);
    assert_eq!(d1["seq"], 1);
    assert_eq!(d2["seq"], 2);
}

#[test]
fn frame_reader_sees_whole_and_partial_frames() {
    let framed = match frame_payload(b"{}") {
        Ok(b) => b,
        Err(e) => panic!("{e:?}"),
    };
    assert_eq!(framed, vec![0, 0, 0, 2, b'{', b'}']);
    assert_eq!(read_frame(&framed), FrameRead::Complete { len: 2 });
    assert_eq!(read_frame(&framed[..5]), FrameRead::Incomplete);
    assert_eq!(read_frame(&framed[..3]), FrameRead::Incomplete);
    let huge = (MAX_MESSAGE_SIZE + 1).to_be_bytes();
    assert_eq!(read_frame(&huge), FrameRead::TooLarge(MAX_MESSAGE_SIZE + 1));
}

#[test]
fn oversized_payload_is_refused_when_framing() {
    let big = vec![b' '; (MAX_MESSAGE_SIZE as usize) + 1];
    assert!(matches!(frame_payload(&big), Err(CodecError::MessageTooLarge(n)) if n == MAX_MESSAGE_SIZE + 1));
}

#[test]
fn short_reader_is_an_io_error() {
    let mut cursor = Cursor::new(vec![1u8, 2]);
    assert!(matches!(read_exact(&mut cursor, 4), Err(CodecError::Io(_))));
}
