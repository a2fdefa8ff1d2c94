use thepalace::messages::{GmsgMsg, RmsgMsg, SmsgMsg, TalkMsg, WhisperMsg, XTalkMsg, XWhisperMsg};

#[test]
fn test_talk_msg_roundtrip() {
    let msg = TalkMsg {
        text: "Hello, Palace!".to_string(),
    };

    let mut buf = Vec::<u8>::new();
    msg.to_bytes(&mut buf);

    let reader = buf;
    let parsed = TalkMsg::from_bytes(&reader).unwrap();

    assert_eq!(parsed, msg);
}
#[test]
fn test_xtalk_msg_roundtrip() {
    let msg = XTalkMsg {
        text: vec![0x48, 0x65, 0x6c, 0x6c, 0x6f], // "Hello"
    };

    let mut buf = Vec::<u8>::new();
    msg.to_bytes(&mut buf);

    assert_eq!(buf.len(), 2 + 5); // i16 length + 5 bytes

    let reader = buf;
    let parsed = XTalkMsg::from_bytes(&reader).unwrap();

    assert_eq!(parsed, msg);
}
#[test]
fn test_xtalk_encrypt() {
    let encrypted = XTalkMsg::encrypt("Test");
    assert_eq!(encrypted.text, b"Test"); // Currently just passes through

    let decrypted = encrypted.decrypt();
    assert_eq!(decrypted, "Test");
}
#[test]
fn test_whisper_msg_roundtrip() {
    let msg = WhisperMsg {
        target: 12345,
        text: "Secret message".to_string(),
    };

    let mut buf = Vec::<u8>::new();
    msg.to_bytes(&mut buf);

    let reader = buf;
    let parsed = WhisperMsg::from_bytes(&reader).unwrap();

    assert_eq!(parsed, msg);
}
#[test]
fn test_xwhisper_msg_roundtrip() {
    let msg = XWhisperMsg {
        target: 54321,
        text: vec![0x53, 0x65, 0x63, 0x72, 0x65, 0x74], // "Secret"
    };

    let mut buf = Vec::<u8>::new();
    msg.to_bytes(&mut buf);

    assert_eq!(buf.len(), 4 + 2 + 6); // UserID + i16 length + 6 bytes

    let reader = buf;
    let parsed = XWhisperMsg::from_bytes(&reader).unwrap();

    assert_eq!(parsed, msg);
}
#[test]
fn test_gmsg_msg_roundtrip() {
    let msg = GmsgMsg {
        text: "Server announcement".to_string(),
    };

    let mut buf = Vec::<u8>::new();
    msg.to_bytes(&mut buf);

    let reader = buf;
    let parsed = GmsgMsg::from_bytes(&reader).unwrap();

    assert_eq!(parsed, msg);
}
#[test]
fn test_rmsg_msg_roundtrip() {
    let msg = RmsgMsg {
        text: "Room announcement".to_string(),
    };

    let mut buf = Vec::<u8>::new();
    msg.to_bytes(&mut buf);

    let reader = buf;
    let parsed = RmsgMsg::from_bytes(&reader).unwrap();

    assert_eq!(parsed, msg);
}
#[test]
fn test_smsg_msg_roundtrip() {
    let msg = SmsgMsg {
        text: "Wizard only message".to_string(),
    };

    let mut buf = Vec::<u8>::new();
    msg.to_bytes(&mut buf);

    let reader = buf;
    let parsed = SmsgMsg::from_bytes(&reader).unwrap();

    assert_eq!(parsed, msg);
}