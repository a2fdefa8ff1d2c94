use thepalace::messages::flags::{DownloadCaps, ServerFlags, UploadCaps};
use thepalace::messages::{ListOfAllUsersMsg, PingMsg, PongMsg, ServerInfoMsg, UserListMsg, UserLogMsg, UserRec};
use thepalace::buffer::ErrorKind;
use thepalace::{AssetSpec, Point};

#[test]
fn test_ping_msg() {
    let ping = PingMsg;
    let mut buf = vec![];
    ping.to_bytes(&mut buf);
    assert_eq!(buf.len(), 0);

    let parsed = PingMsg::from_bytes(&buf[..]).unwrap();
    assert_eq!(parsed, ping);
}

#[test]
fn test_pong_msg() {
    let pong = PongMsg;
    let mut buf = vec![];
    pong.to_bytes(&mut buf);
    assert_eq!(buf.len(), 0);

    let parsed = PongMsg::from_bytes(&buf[..]).unwrap();
    assert_eq!(parsed, pong);
}

#[test]
fn test_server_info_msg() {
    let server_info = ServerInfoMsg::new(
        ServerFlags::DIRECT_PLAY() | ServerFlags::ALLOW_CYBORGS(),
        "Test Palace Server",
        0x00000002, // Password security
        UploadCaps::FILES_PALACE() | UploadCaps::ASSETS_PALACE(),
        DownloadCaps::FILES_PALACE() | DownloadCaps::ASSETS_PALACE(),
    );

    let mut buf = vec![];
    server_info.to_bytes(&mut buf);
    assert_eq!(buf.len(), 80); // 4 + 64 (Str63) + 4 + 4 + 4

    let parsed = ServerInfoMsg::from_bytes(&buf[..]).unwrap();
    assert_eq!(parsed.server_name, "Test Palace Server");
    assert_eq!(parsed.server_permissions, ServerFlags::DIRECT_PLAY() | ServerFlags::ALLOW_CYBORGS());
    assert_eq!(parsed.server_options, 0x00000002);
    assert_eq!(parsed.upload_caps, UploadCaps::FILES_PALACE() | UploadCaps::ASSETS_PALACE());
    assert_eq!(parsed.download_caps, DownloadCaps::FILES_PALACE() | DownloadCaps::ASSETS_PALACE());
}

#[test]
fn test_user_log_msg() {
    let user_log = UserLogMsg::new(42);

    let mut buf = vec![];
    user_log.to_bytes(&mut buf);
    assert_eq!(buf.len(), 4);

    let parsed = UserLogMsg::from_bytes(&buf[..]).unwrap();
    assert_eq!(parsed.nbr_users, 42);
}

#[test]
fn test_user_list_msg_empty() {
    let user_list = UserListMsg::new(vec![]);

    let mut buf = vec![];
    user_list.to_bytes(&mut buf);
    assert_eq!(buf.len(), 0);
    assert_eq!(user_list.count(), 0);

    let parsed = UserListMsg::from_bytes(&buf[..]).unwrap();
    assert_eq!(parsed.users.len(), 0);
}

#[test]
fn test_list_of_all_users_msg_empty() {
    let all_users = ListOfAllUsersMsg::new(vec![]);

    let mut buf = vec![];
    all_users.to_bytes(&mut buf);
    assert_eq!(buf.len(), 0);
    assert_eq!(all_users.count(), 0);

    let parsed = ListOfAllUsersMsg::from_bytes(&buf[..]).unwrap();
    assert_eq!(parsed.users.len(), 0);
}

fn sample_user(id: i32, name: &str) -> UserRec {
    UserRec {
        user_id: id,
        room_pos: Point { v: 10, h: 20 },
        prop_spec: [AssetSpec { id: id, crc: 7 }; 9],
        room_id: 3,
        face_nbr: 4,
        color_nbr: 5,
        away_flag: 0,
        open_to_msgs: 1,
        nbr_props: 2,
        name: name.to_string(),
    }
}

#[test]
fn server_user_list_two_users_and_trailing_bytes() {
    let list = UserListMsg::new(vec![sample_user(1, "Ann"), sample_user(2, "Bob")]);
    let mut buf = vec![];
    list.to_bytes(&mut buf);
    assert_eq!(buf.len(), 284);
    buf.extend_from_slice(&[1, 2, 3]);

    let parsed = UserListMsg::from_bytes(&buf).unwrap();
    assert_eq!(parsed, list);
    assert_eq!(parsed.count(), 2);
}

#[test]
fn server_user_list_bad_name_length_is_invalid_data() {
    let list = ListOfAllUsersMsg::new(vec![sample_user(1, "Ann")]);
    let mut buf = vec![];
    list.to_bytes(&mut buf);
    buf[110] = 40;
    let err = ListOfAllUsersMsg::from_bytes(&buf).unwrap_err();
    assert_eq!(err.kind(), ErrorKind::InvalidData);
}

#[test]
fn server_info_short_input_is_eof() {
    let err = ServerInfoMsg::from_bytes(&[0u8; 79]).unwrap_err();
    assert_eq!(err.kind(), ErrorKind::UnexpectedEof);
}

#[test]
fn server_info_drops_unknown_flag_bits() {
    let mut buf = vec![0xffu8; 4];
    buf.push(0);
    buf.extend_from_slice(&[0u8; 63]);
    buf.extend_from_slice(&[0, 0, 0, 9]);
    buf.extend_from_slice(&[0xff; 8]);
    let parsed = ServerInfoMsg::from_bytes(&buf).unwrap();
    assert_eq!(parsed.server_permissions.bits(), 0x237);
    assert_eq!(parsed.server_options, 9);
    assert_eq!(parsed.upload_caps.bits(), 0x1ff);
    assert_eq!(parsed.download_caps.bits(), 0x3ff);
    assert_eq!(parsed.server_name, "");
}
