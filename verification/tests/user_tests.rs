use thepalace::buffer::ErrorKind;
use thepalace::messages::{
    MessageId, UserColorMsg, UserDescMsg, UserExitMsg, UserFaceMsg, UserMoveMsg, UserNameMsg, UserNewMsg,
    UserPropMsg, UserRec,
};
use thepalace::{AssetSpec, Point};

fn test_user() -> UserRec {
    UserRec {
        user_id: 12345,
        room_pos: Point { v: 100, h: 200 },
        prop_spec: [AssetSpec::default(); 9],
        room_id: 42,
        face_nbr: 3,
        color_nbr: 7,
        away_flag: 0,
        open_to_msgs: 1,
        nbr_props: 0,
        name: "TestUser".to_string(),
    }
}

#[test]
fn user_test_user_rec_roundtrip() {
    let user = test_user();

    let mut buf = Vec::<u8>::new();
    user.to_bytes(&mut buf);

    assert_eq!(buf.len(), UserRec::size());

    let parsed = UserRec::from_bytes(&buf).unwrap();

    assert_eq!(parsed, user);
}

#[test]
fn records_test_user_rec_roundtrip() {
    let user = test_user();

    let mut buf = Vec::<u8>::new();
    user.to_bytes(&mut buf);

    assert_eq!(buf.len(), UserRec::size());

    let parsed = UserRec::from_bytes(&buf).unwrap();

    assert_eq!(parsed, user);
}

fn new_user_msg() -> UserNewMsg {
    UserNewMsg {
        new_user: UserRec {
            user_id: 999,
            room_pos: Point { v: 50, h: 75 },
            prop_spec: [AssetSpec::default(); 9],
            room_id: 10,
            face_nbr: 1,
            color_nbr: 2,
            away_flag: 0,
            open_to_msgs: 1,
            nbr_props: 0,
            name: "NewUser".to_string(),
        },
    }
}

#[test]
fn test_user_new_msg_roundtrip() {
    let msg = new_user_msg();

    let mut buf = Vec::<u8>::new();
    msg.to_bytes(&mut buf);

    let parsed = UserNewMsg::from_bytes(&buf).unwrap();

    assert_eq!(parsed, msg);
}

#[test]
fn test_user_new_msg_payload_trait() {
    let msg = new_user_msg();

    let message = msg.to_message(0);
    assert_eq!(message.msg_id, MessageId::UserNew);
    assert_eq!(message.ref_num, 0);

    let parsed = UserNewMsg::from_bytes(&message.payload).unwrap();
    assert_eq!(parsed.new_user, msg.new_user);
}

#[test]
fn test_user_exit_msg() {
    let msg = UserExitMsg;

    let mut buf = Vec::<u8>::new();
    msg.to_bytes(&mut buf);

    assert_eq!(buf.len(), 0); // Empty payload

    let parsed = UserExitMsg::from_bytes(&buf).unwrap();

    assert_eq!(parsed, msg);
}

#[test]
fn test_user_move_msg_roundtrip() {
    let msg = UserMoveMsg { pos: Point { v: 123, h: 456 } };

    let mut buf = Vec::<u8>::new();
    msg.to_bytes(&mut buf);

    assert_eq!(buf.len(), 4); // 2 x i16

    let parsed = UserMoveMsg::from_bytes(&buf).unwrap();

    assert_eq!(parsed, msg);
}

#[test]
fn test_user_name_msg_roundtrip() {
    let msg = UserNameMsg { name: "Alice".to_string() };

    let mut buf = Vec::<u8>::new();
    msg.to_bytes(&mut buf);

    let parsed = UserNameMsg::from_bytes(&buf).unwrap();

    assert_eq!(parsed, msg);
}

#[test]
fn test_user_color_msg_roundtrip() {
    let msg = UserColorMsg { color_nbr: 5 };

    let mut buf = Vec::<u8>::new();
    msg.to_bytes(&mut buf);

    assert_eq!(buf.len(), 2);

    let parsed = UserColorMsg::from_bytes(&buf).unwrap();

    assert_eq!(parsed, msg);
}

#[test]
fn test_user_face_msg_roundtrip() {
    let msg = UserFaceMsg { face_nbr: 12 };

    let mut buf = Vec::<u8>::new();
    msg.to_bytes(&mut buf);

    assert_eq!(buf.len(), 2);

    let parsed = UserFaceMsg::from_bytes(&buf).unwrap();

    assert_eq!(parsed, msg);
}

#[test]
fn test_user_prop_msg_roundtrip() {
    let msg = UserPropMsg {
        props: vec![AssetSpec { id: 100, crc: 0x12345678 }, AssetSpec { id: 200, crc: 0x87654321 }],
    };

    let mut buf = Vec::<u8>::new();
    msg.to_bytes(&mut buf);

    let parsed = UserPropMsg::from_bytes(&buf).unwrap();

    assert_eq!(parsed, msg);
}

#[test]
fn test_user_desc_msg_roundtrip() {
    let msg = UserDescMsg { face_nbr: 8, color_nbr: 4, props: vec![AssetSpec { id: 300, crc: 0xABCDEF00 }] };

    let mut buf = Vec::<u8>::new();
    msg.to_bytes(&mut buf);

    let parsed = UserDescMsg::from_bytes(&buf).unwrap();

    assert_eq!(parsed, msg);
}

#[test]
fn user_rec_layout() {
    let mut user = test_user();
    user.prop_spec[8] = AssetSpec { id: 0x01020304, crc: 0x0a0b0c0d };
    let mut buf = Vec::<u8>::new();
    user.to_bytes(&mut buf);
    assert_eq!(&buf[0..4], &[0, 0, 0x30, 0x39]);
    assert_eq!(&buf[4..8], &[0, 100, 0, 200]);
    assert_eq!(&buf[88..98], &[1, 2, 3, 4, 0x0a, 0x0b, 0x0c, 0x0d, 0, 0]);
    assert_eq!(&buf[98..100], &[0, 42]);
    assert_eq!(buf[110], 8);
    assert_eq!(&buf[111..119], b"TestUser");
    assert!(buf[119..142].iter().all(|b| *b == 0));
}

#[test]
fn user_rec_short_input_is_eof() {
    let err = UserRec::from_bytes(&[0u8; 141]).unwrap_err();
    assert_eq!(err.kind(), ErrorKind::UnexpectedEof);
}

#[test]
fn user_prop_msg_count_beyond_data_is_eof() {
    let data = vec![0u8, 0, 0, 2, 0, 0, 0, 1, 0, 0, 0, 0, 0, 0];
    let err = UserPropMsg::from_bytes(&data).unwrap_err();
    assert_eq!(err.kind(), ErrorKind::UnexpectedEof);
}

#[test]
fn user_desc_msg_layout() {
    let msg = UserDescMsg { face_nbr: -1, color_nbr: 2, props: vec![] };
    let mut buf = Vec::<u8>::new();
    msg.to_bytes(&mut buf);
    assert_eq!(buf, vec![0xff, 0xff, 0, 2, 0, 0, 0, 0]);
}
