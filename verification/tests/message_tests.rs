use thepalace::messages::{Message, MessageId};

#[test]
fn test_message_new() {
    let msg = Message::new(MessageId::Ping, 123, vec![1, 2, 3, 4]);
    assert_eq!(msg.msg_id, MessageId::Ping);
    assert_eq!(msg.ref_num, 123);
    assert_eq!(msg.payload, vec![1, 2, 3, 4]);
    assert_eq!(msg.payload_size(), 4);
    assert_eq!(msg.total_size(), 16); // 12 header + 4 payload
}
#[test]
fn test_message_empty() {
    let msg = Message::new_empty(MessageId::Pong, 456);
    assert_eq!(msg.msg_id, MessageId::Pong);
    assert_eq!(msg.ref_num, 456);
    assert_eq!(msg.payload.len(), 0);
    assert_eq!(msg.total_size(), 12); // Just header
}
#[test]
fn test_message_roundtrip() {
    let original = Message::new(MessageId::Talk, 789, vec![0xDE, 0xAD, 0xBE, 0xEF]);

    // Serialize
    let bytes = original.to_bytes();
    assert_eq!(bytes.len(), 16); // 12 + 4

    // Parse
    let buf = bytes;
    let parsed = Message::parse(&buf).unwrap();

    assert_eq!(parsed.msg_id, original.msg_id);
    assert_eq!(parsed.ref_num, original.ref_num);
    assert_eq!(parsed.payload, original.payload);
}
#[test]
fn test_message_parse_insufficient_header() {
    let bytes = vec![0u8; 8]; // Only 8 bytes, need 12
    let buf = bytes;
    let result = Message::parse(&buf);
    assert!(result.is_err());
}
#[test]
fn test_message_parse_insufficient_payload() {
    let mut buf = Vec::<u8>::new();
    buf.extend_from_slice(&MessageId::Ping.as_u32().to_be_bytes());
    buf.extend_from_slice(&100u32.to_be_bytes()); // Claims 100 bytes payload
    buf.extend_from_slice(&0i32.to_be_bytes());
    buf.extend_from_slice(&[1, 2, 3]); // Only 3 bytes

    let reader = buf;
    let result = Message::parse(&reader);
    assert!(result.is_err());
}
#[test]
fn test_message_serialize() {
    let msg = Message::new(MessageId::Whisper, 42, vec![0xAA, 0xBB]);

    let mut buf = Vec::<u8>::new();
    msg.serialize(&mut buf);

    let bytes = buf;
    assert_eq!(bytes.len(), 14); // 12 header + 2 payload

    // Verify header
    assert_eq!(&bytes[0..4], &MessageId::Whisper.as_u32().to_be_bytes());
    assert_eq!(&bytes[4..8], &2u32.to_be_bytes()); // payload length
    assert_eq!(&bytes[8..12], &42i32.to_be_bytes()); // ref_num
    assert_eq!(&bytes[12..14], &[0xAA, 0xBB]); // payload
}