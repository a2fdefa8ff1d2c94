use thepalace::messages::message::MessagePayload;
use thepalace::messages::{KillUserMsg, Message, MessageId, TiyidMsg};

#[test]
fn payload_roundtrip_through_message() {
    let m = Message::from_payload(&KillUserMsg { target_id: 7 }, 3);
    assert_eq!(m.msg_id, MessageId::KillUser);
    assert_eq!(m.ref_num, 3);
    assert_eq!(m.payload, vec![0, 0, 0, 7]);
    let k: KillUserMsg = m.parse_payload().unwrap();
    assert_eq!(k.target_id, 7);
    assert_eq!(<KillUserMsg as MessagePayload>::message_id(), MessageId::KillUser);
}

#[test]
fn empty_payload_message() {
    let m = Message::from_payload(&TiyidMsg, 0);
    assert_eq!(m.msg_id, MessageId::Tiyid);
    assert!(m.payload.is_empty());
    let short = Message::new(MessageId::KillUser, 0, vec![1, 2]);
    assert!(short.parse_payload::<KillUserMsg>().is_err());
}
