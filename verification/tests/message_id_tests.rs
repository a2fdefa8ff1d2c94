use thepalace::messages::MessageId;

#[test]
fn test_message_id_display() {
    assert_eq!(MessageId::Tiyid.as_str(), "tiyr");
    assert_eq!(MessageId::Talk.as_str(), "talk");
    assert_eq!(MessageId::Ping.as_str(), "ping");
    assert_eq!(MessageId::HttpServer.as_str(), "HTTP");
}
#[test]
fn test_message_id_from_str() {
    assert_eq!("tiyr".parse::<MessageId>(), Ok(MessageId::Tiyid));
    assert_eq!("talk".parse::<MessageId>(), Ok(MessageId::Talk));
    assert_eq!("ping".parse::<MessageId>(), Ok(MessageId::Ping));
    assert_eq!("HTTP".parse::<MessageId>(), Ok(MessageId::HttpServer));
    assert_eq!("xyz".parse::<MessageId>(), Err(())); // Not a valid message
    assert_eq!("toolong".parse::<MessageId>(), Err(())); // Too long
}
#[test]
fn test_message_id_conversions() {
    let msg = MessageId::Tiyid;
    let raw: u32 = msg.into();
    assert_eq!(raw, 0x74697972);

    let msg2 = MessageId::from_u32(raw).unwrap();
    assert_eq!(msg2, msg);
}
#[test]
fn test_message_id_as_u32_zero_cost() {
    // Verify that as_u32() returns the discriminant value
    assert_eq!(MessageId::Tiyid.as_u32(), 0x74697972);
    assert_eq!(MessageId::Talk.as_u32(), 0x74616c6b);
    assert_eq!(MessageId::Ping.as_u32(), 0x70696e67);
    assert_eq!(MessageId::Pong.as_u32(), 0x706f6e67);
    assert_eq!(MessageId::HttpServer.as_u32(), 0x48545450);
}
#[test]
fn test_http_server_correct_id() {
    // Verify HttpServer uses correct ID 0x48545450 ('HTTP'), not 0x4854546f ('HTTo')
    assert_eq!(MessageId::HttpServer.as_u32(), 0x48545450);
    assert_eq!(MessageId::HttpServer.as_str(), "HTTP");
}
#[test]
fn test_all_message_ids_roundtrip() {
    // Test that all message IDs can be converted to u32 and back
    let ids = [
        MessageId::Tiyid,
        MessageId::AltLogonReply,
        MessageId::Logon,
        MessageId::Talk,
        MessageId::Whisper,
        MessageId::UserNew,
        MessageId::RoomGoto,
        MessageId::Ping,
        MessageId::Pong,
        MessageId::Gmsg,
        MessageId::Rmsg,
        MessageId::Smsg,
        MessageId::HttpServer,
    ];

    for id in ids {
        let u32_val = id.as_u32();
        let recovered = MessageId::from_u32(u32_val).unwrap();
        assert_eq!(id, recovered);
    }
}
#[test]
fn test_invalid_message_id() {
    // Test that invalid values return None
    assert_eq!(MessageId::from_u32(0x00000000), None);
    assert_eq!(MessageId::from_u32(0xFFFFFFFF), None);
    assert_eq!(MessageId::from_u32(0x12345678), None);
    // Test the old wrong HTTPTo ID is rejected
    assert_eq!(MessageId::from_u32(0x4854546f), None);
    // Test non-existent 'soun' ID is rejected
    assert_eq!(MessageId::from_u32(0x736f756e), None);
}
#[test]
fn test_spec_message_count() {
    // Verify we have all 59 messages from the protocol spec
    // (This is a compile-time check - if we add/remove variants, this doc will be wrong)
    // Sections 3.1-3.59 in the Palace Protocol specification
    let count = [
        MessageId::Tiyid,
        MessageId::AltLogonReply,
        MessageId::Logon,
        MessageId::Authenticate,
        MessageId::AuthResponse,
        MessageId::Blowthru,
        MessageId::DisplayUrl,
        MessageId::Draw,
        MessageId::ExtendedInfo,
        MessageId::FileNotFnd,
        MessageId::FileQuery,
        MessageId::FileSend,
        MessageId::Gmsg,
        MessageId::HttpServer,
        MessageId::KillUser,
        MessageId::ListOfAllRooms,
        MessageId::ListOfAllUsers,
        MessageId::Logoff,
        MessageId::NavError,
        MessageId::Noop,
        MessageId::PictMove,
        MessageId::Ping,
        MessageId::Pong,
        MessageId::PropDel,
        MessageId::PropMove,
        MessageId::PropNew,
        MessageId::Rmsg,
        MessageId::RoomDesc,
        MessageId::RoomDescEnd,
        MessageId::RoomGoto,
        MessageId::RoomNew,
        MessageId::RoomSetDesc,
        MessageId::ServerDown,
        MessageId::ServerInfo,
        MessageId::Smsg,
        MessageId::SpotDel,
        MessageId::SpotMove,
        MessageId::SpotNew,
        MessageId::SpotState,
        MessageId::SuperUser,
        MessageId::Talk,
        MessageId::Whisper,
        MessageId::XTalk,
        MessageId::XWhisper,
        MessageId::UserColor,
        MessageId::UserDesc,
        MessageId::UserExit,
        MessageId::UserFace,
        MessageId::UserList,
        MessageId::UserLog,
        MessageId::UserMove,
        MessageId::UserName,
        MessageId::UserNew,
        MessageId::UserProp,
        MessageId::UserStatus,
        MessageId::Version,
        MessageId::AssetQuery,
        MessageId::AssetSend,
        MessageId::AssetRegi,
        MessageId::DoorLock,
        MessageId::DoorUnlock,
    ];
    assert_eq!(count.len(), 61); // 59 unique + Logon/Regi alias + corrected count
}