use thepalace::messages::{NavErrorCode, NavErrorMsg, UserStatusMsg, VersionMsg};

#[test]
fn test_version_msg() {
    let msg = VersionMsg;

    let mut buf = vec![];
    msg.to_bytes(&mut buf);
    assert_eq!(buf.len(), 0); // Empty payload

    let parsed = VersionMsg::from_bytes(&buf[..]).unwrap();
    assert_eq!(parsed, msg);
}
#[test]
fn test_user_status_msg() {
    let msg = UserStatusMsg::new(0x0001); // Some flag value

    let mut buf = vec![];
    msg.to_bytes(&mut buf);
    assert_eq!(buf.len(), 2);

    let parsed = UserStatusMsg::from_bytes(&buf[..]).unwrap();
    assert_eq!(parsed.flags, 0x0001);
}
#[test]
fn test_nav_error_msg() {
    let msg = NavErrorMsg;

    let mut buf = vec![];
    msg.to_bytes(&mut buf);
    assert_eq!(buf.len(), 0); // Empty payload

    let parsed = NavErrorMsg::from_bytes(&buf[..]).unwrap();
    assert_eq!(parsed, msg);
}
#[test]
fn test_nav_error_code_conversion() {
    assert_eq!(NavErrorCode::from_i32(0), Some(NavErrorCode::InternalError));
    assert_eq!(NavErrorCode::from_i32(1), Some(NavErrorCode::RoomUnknown));
    assert_eq!(NavErrorCode::from_i32(2), Some(NavErrorCode::RoomFull));
    assert_eq!(NavErrorCode::from_i32(3), Some(NavErrorCode::RoomClosed));
    assert_eq!(NavErrorCode::from_i32(4), Some(NavErrorCode::CantAuthor));
    assert_eq!(NavErrorCode::from_i32(5), Some(NavErrorCode::PalaceFull));
    assert_eq!(NavErrorCode::from_i32(99), None);

    assert_eq!(NavErrorCode::InternalError.to_i32(), 0);
    assert_eq!(NavErrorCode::RoomUnknown.to_i32(), 1);
    assert_eq!(NavErrorCode::RoomFull.to_i32(), 2);
    assert_eq!(NavErrorCode::RoomClosed.to_i32(), 3);
    assert_eq!(NavErrorCode::CantAuthor.to_i32(), 4);
    assert_eq!(NavErrorCode::PalaceFull.to_i32(), 5);
}