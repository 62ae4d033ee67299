use chat_core::codec::{BytesCodecExt, ChatMessage};

fn encode_to_vec(m: ChatMessage) -> Vec<u8> {
    let mut codec = BytesCodecExt::new();
    let mut buf: Vec<u8> = Vec::new();
    codec.encode(m, &mut buf);
    buf
}

fn decode_vec(mut buf: Vec<u8>) -> Option<ChatMessage> {
    let mut codec = BytesCodecExt::new();
    let r = codec.decode(&mut buf);
    assert!(buf.is_empty(), "decode must consume the whole buffer");
    r
}

#[test]
fn message_round_trip() {
    let payload = b"hello world".to_vec();
    let wire = encode_to_vec(ChatMessage::Message(payload.clone()));
    assert_eq!(wire[0], 0x0B);
    assert_eq!(&wire[1..], &payload[..]);
    match decode_vec(wire) {
        Some(ChatMessage::Message(p)) => assert_eq!(p, payload),
        _ => panic!("expected a message frame"),
    }
}

#[test]
fn message_round_trip_empty_payload() {
    let wire = encode_to_vec(ChatMessage::Message(Vec::new()));
    assert_eq!(wire, vec![0x0B]);
    match decode_vec(wire) {
        Some(ChatMessage::Message(p)) => assert!(p.is_empty()),
        _ => panic!("expected a message frame"),
    }
}

#[test]
fn ack_is_one_byte_and_round_trips() {
    let wire = encode_to_vec(ChatMessage::ACK);
    assert_eq!(wire, vec![0x0A]);
    assert!(matches!(decode_vec(wire), Some(ChatMessage::ACK)));
}

#[test]
fn disconnect_is_one_byte_and_round_trips() {
    let wire = encode_to_vec(ChatMessage::Disconnected);
    assert_eq!(wire, vec![0x0C]);
    assert!(matches!(decode_vec(wire), Some(ChatMessage::Disconnected)));
}

#[test]
fn unknown_tags_decode_as_message() {
    for tag in [0x00u8, 0x0B, 0x0D, 0x42, 0xFF] {
        let mut wire = vec![tag];
        wire.extend_from_slice(b"payload");
        match decode_vec(wire) {
            Some(ChatMessage::Message(p)) => assert_eq!(p, b"payload".to_vec()),
            _ => panic!("tag {tag:#04x} should decode as a message"),
        }
    }
}

#[test]
fn unknown_tag_with_empty_payload_decodes_as_empty_message() {
    match decode_vec(vec![0x42]) {
        Some(ChatMessage::Message(p)) => assert!(p.is_empty()),
        _ => panic!("expected an empty message frame"),
    }
}

#[test]
fn empty_buffer_decodes_to_nothing() {
    assert!(decode_vec(Vec::new()).is_none());
}

#[test]
fn encode_appends_to_existing_buffer() {
    let mut codec = BytesCodecExt::new();
    let mut buf = vec![0x99u8];
    codec.encode(ChatMessage::Message(b"ab".to_vec()), &mut buf);
    assert_eq!(buf, vec![0x99, 0x0B, b'a', b'b']);
}
