use thepalace::messages::flags::RoomFlags;
use thepalace::messages::{RoomDescEndMsg, RoomDescMsg, RoomGotoMsg, RoomRec};
use thepalace::messages::MessageId;

#[test]
fn room_test_room_goto_msg_roundtrip() {
    let msg = RoomGotoMsg { dest: 42 };

    let mut buf = Vec::<u8>::new();
    msg.to_bytes(&mut buf);

    assert_eq!(buf.len(), 2); // i16

    let parsed = RoomGotoMsg::from_bytes(&buf).unwrap();

    assert_eq!(parsed, msg);
}

#[test]
fn room_test_room_goto_msg_payload_trait() {
    let msg = RoomGotoMsg { dest: 42 };

    let message = msg.to_message(0);
    assert_eq!(message.msg_id, MessageId::RoomGoto);
    assert_eq!(message.ref_num, 0);

    let parsed = RoomGotoMsg::from_bytes(&message.payload).unwrap();
    assert_eq!(parsed.dest, msg.dest);
}

#[test]
fn room_test_room_desc_end_msg() {
    let msg = RoomDescEndMsg;

    let mut buf = Vec::<u8>::new();
    msg.to_bytes(&mut buf);

    assert_eq!(buf.len(), 0); // Empty payload

    let parsed = RoomDescEndMsg::from_bytes(&buf).unwrap();

    assert_eq!(parsed, msg);
}

#[test]
fn room_test_room_desc_end_msg_payload_trait() {
    let msg = RoomDescEndMsg;

    let message = msg.to_message(0);
    assert_eq!(message.msg_id, MessageId::RoomDescEnd);
    assert_eq!(message.ref_num, 0);

    let parsed = RoomDescEndMsg::from_bytes(&message.payload).unwrap();
    assert_eq!(parsed, msg);
}

#[test]
fn room_test_room_desc_msg_payload_trait() {
    let room = RoomRec {
        room_flags: RoomFlags::empty(),
        faces_id: 0,
        room_id: 1,
        room_name_ofst: -1,
        pict_name_ofst: -1,
        artist_name_ofst: -1,
        password_ofst: -1,
        nbr_hotspots: 0,
        hotspot_ofst: 0,
        nbr_pictures: 0,
        picture_ofst: 0,
        nbr_draw_cmds: 0,
        first_draw_cmd: 0,
        nbr_people: 0,
        nbr_lprops: 0,
        first_lprop: 0,
        len_vars: 0,
        var_buf: Vec::new(),
    };

    let msg = RoomDescMsg { room };

    let message = msg.to_message(0);
    assert_eq!(message.msg_id, MessageId::RoomDesc);
    assert_eq!(message.ref_num, 0);

    let parsed = RoomDescMsg::from_bytes(&message.payload).unwrap();
    assert_eq!(parsed.room.room_id, msg.room.room_id);
}

#[test]
fn room_ops_test_room_goto_msg_roundtrip() {
    let msg = RoomGotoMsg { dest: 42 };

    let mut buf = Vec::<u8>::new();
    msg.to_bytes(&mut buf);

    assert_eq!(buf.len(), 2); // i16

    let parsed = RoomGotoMsg::from_bytes(&buf).unwrap();

    assert_eq!(parsed, msg);
}

#[test]
fn room_ops_test_room_goto_msg_payload_trait() {
    let msg = RoomGotoMsg { dest: 42 };

    let message = msg.to_message(0);
    assert_eq!(message.msg_id, MessageId::RoomGoto);
    assert_eq!(message.ref_num, 0);

    let parsed = RoomGotoMsg::from_bytes(&message.payload).unwrap();
    assert_eq!(parsed.dest, msg.dest);
}

#[test]
fn room_ops_test_room_desc_end_msg() {
    let msg = RoomDescEndMsg;

    let mut buf = Vec::<u8>::new();
    msg.to_bytes(&mut buf);

    assert_eq!(buf.len(), 0); // Empty payload

    let parsed = RoomDescEndMsg::from_bytes(&buf).unwrap();

    assert_eq!(parsed, msg);
}

#[test]
fn room_ops_test_room_desc_end_msg_payload_trait() {
    let msg = RoomDescEndMsg;

    let message = msg.to_message(0);
    assert_eq!(message.msg_id, MessageId::RoomDescEnd);
    assert_eq!(message.ref_num, 0);

    let parsed = RoomDescEndMsg::from_bytes(&message.payload).unwrap();
    assert_eq!(parsed, msg);
}

#[test]
fn room_ops_test_room_desc_msg_payload_trait() {
    let room = RoomRec {
        room_flags: RoomFlags::empty(),
        faces_id: 0,
        room_id: 1,
        room_name_ofst: -1,
        pict_name_ofst: -1,
        artist_name_ofst: -1,
        password_ofst: -1,
        nbr_hotspots: 0,
        hotspot_ofst: 0,
        nbr_pictures: 0,
        picture_ofst: 0,
        nbr_draw_cmds: 0,
        first_draw_cmd: 0,
        nbr_people: 0,
        nbr_lprops: 0,
        first_lprop: 0,
        len_vars: 0,
        var_buf: Vec::new(),
    };

    let msg = RoomDescMsg { room };

    let message = msg.to_message(0);
    assert_eq!(message.msg_id, MessageId::RoomDesc);
    assert_eq!(message.ref_num, 0);

    let parsed = RoomDescMsg::from_bytes(&message.payload).unwrap();
    assert_eq!(parsed.room.room_id, msg.room.room_id);
}
