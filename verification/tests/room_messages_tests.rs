use thepalace::messages::flags::RoomFlags;
use thepalace::messages::{Hotspot, ListOfAllRoomsMsg, LPropRec, PictureRec, PropDelMsg, PropMoveMsg, PropNewMsg, RoomListRec, RoomRec};
use thepalace::room::{HotspotState, HotspotType};
use thepalace::{AssetSpec, Point};

#[test]
fn room_test_lprop_rec_roundtrip() {
    let rec = LPropRec {
        prop_spec: AssetSpec {
            id: 12345,
            crc: 0xABCDEF01,
        },
        flags: 0x00100000, // 20-bit format
        ref_con: 42,
        loc: Point { v: 100, h: 200 },
    };

    let mut buf = Vec::<u8>::new();
    rec.to_bytes(&mut buf);

    assert_eq!(buf.len(), 26); // 4 padding + 10 (AssetSpec with padding) + 4 + 4 + 4

    let reader = buf;
    let parsed = LPropRec::from_bytes(&reader).unwrap();

    assert_eq!(parsed, rec);
}
#[test]
fn room_test_picture_rec_roundtrip() {
    let rec = PictureRec {
        ref_con: 0,
        pic_id: 100,
        pic_name_ofst: 10,
        trans_color: -1, // 0xFFFF as i16 = -1
    };

    let mut buf = Vec::<u8>::new();
    rec.to_bytes(&mut buf);

    assert_eq!(buf.len(), 12);

    let reader = buf;
    let parsed = PictureRec::from_bytes(&reader).unwrap();

    assert_eq!(parsed, rec);
}
#[test]
fn room_test_hotspot_roundtrip() {
    let hotspot = Hotspot {
        script_event_mask: 0x0007, // SELECT | ENTER | LEAVE
        flags: 0,
        secure_info: 0,
        ref_con: 0,
        loc: Point { v: 100, h: 200 },
        id: 1,
        dest: 10,
        nbr_pts: 4,
        pts_ofst: 0,
        hotspot_type: HotspotType::Door,
        group_id: 0,
        nbr_scripts: 1,
        script_rec_ofst: 100,
        state: HotspotState::Unlocked,
        nbr_states: 0,
        state_rec_ofst: 0,
        name_ofst: 50,
        script_text_ofst: 150,
    };

    let mut buf = Vec::<u8>::new();
    hotspot.to_bytes(&mut buf);

    assert_eq!(buf.len(), 48);

    let reader = buf;
    let parsed = Hotspot::from_bytes(&reader).unwrap();

    assert_eq!(parsed, hotspot);
}
#[test]
fn room_test_room_rec_roundtrip() {
    // Create a simple room with a name in varBuf
    let room_name = "Test Room";
    let mut var_buf = Vec::<u8>::new();
    var_buf.push(room_name.len() as u8); // PString length
    var_buf.extend_from_slice(room_name.as_bytes()); // PString data

    let room = RoomRec {
        room_flags: RoomFlags::NO_PAINTING() | RoomFlags::DROP_ZONE(),
        faces_id: 0,
        room_id: 42,
        room_name_ofst: 0, // Points to start of varBuf
        pict_name_ofst: -1,
        artist_name_ofst: -1,
        password_ofst: -1,
        nbr_hotspots: 0,
        hotspot_ofst: 0,
        nbr_pictures: 0,
        picture_ofst: 0,
        nbr_draw_cmds: 0,
        first_draw_cmd: 0,
        nbr_people: 0,
        nbr_lprops: 0,
        first_lprop: 0,
        len_vars: var_buf.len() as i16,
        var_buf,
    };

    let mut buf = Vec::<u8>::new();
    room.to_bytes(&mut buf);

    // Fixed part size calculation:
    // 4 (room_flags i32) + 4 (faces_id) + 2×16 (sixteen i16 fields) = 8 + 32 = 40 bytes
    // Variable part: room.len_vars
    let expected_size = 40 + room.len_vars as usize;
    assert_eq!(buf.len(), expected_size);

    let reader = buf;
    let parsed = RoomRec::from_bytes(&reader).unwrap();

    assert_eq!(parsed, room);
    assert_eq!(parsed.room_name().unwrap(), room_name);
}
#[test]
fn room_test_room_list_rec() {
    let rec = RoomListRec {
        room_id: 42,
        flags: RoomFlags::PRIVATE() | RoomFlags::NO_PAINTING(),
        nbr_users: 5,
        name: "Test Room".to_string(),
    };

    let mut buf = vec![];
    rec.to_bytes(&mut buf);

    let parsed = RoomListRec::from_bytes(&buf[..]).unwrap();
    assert_eq!(parsed.room_id, 42);
    assert_eq!(parsed.flags, RoomFlags::PRIVATE() | RoomFlags::NO_PAINTING());
    assert_eq!(parsed.nbr_users, 5);
    assert_eq!(parsed.name, "Test Room");
}
#[test]
fn room_test_list_of_all_rooms_request() {
    let msg = ListOfAllRoomsMsg::request();
    assert!(msg.is_request());
    assert_eq!(msg.count(), 0);

    let mut buf = vec![];
    msg.to_bytes(&mut buf);
    assert_eq!(buf.len(), 0);

    let parsed = ListOfAllRoomsMsg::from_bytes(&buf[..]).unwrap();
    assert!(parsed.is_request());
}
#[test]
fn room_test_prop_del_msg() {
    let msg = PropDelMsg::new(5);

    let mut buf = vec![];
    msg.to_bytes(&mut buf);
    assert_eq!(buf.len(), 4);

    let parsed = PropDelMsg::from_bytes(&buf[..]).unwrap();
    assert_eq!(parsed.prop_num, 5);
}
#[test]
fn room_test_prop_del_all() {
    let msg = PropDelMsg::delete_all();
    assert_eq!(msg.prop_num, -1);
}
#[test]
fn room_test_prop_move_msg() {
    let msg = PropMoveMsg::new(3, Point { h: 100, v: 200 });

    let mut buf = vec![];
    msg.to_bytes(&mut buf);
    assert_eq!(buf.len(), 8); // 4 + 4

    let parsed = PropMoveMsg::from_bytes(&buf[..]).unwrap();
    assert_eq!(parsed.prop_num, 3);
    assert_eq!(parsed.pos.h, 100);
    assert_eq!(parsed.pos.v, 200);
}
#[test]
fn room_test_prop_new_msg() {
    let msg = PropNewMsg::new(AssetSpec { id: 42, crc: 12345 }, Point { h: 150, v: 250 });

    let mut buf = vec![];
    msg.to_bytes(&mut buf);
    assert_eq!(buf.len(), 14); // 10 (AssetSpec with padding) + 4 (Point)

    let parsed = PropNewMsg::from_bytes(&buf[..]).unwrap();
    assert_eq!(parsed.prop_spec.id, 42);
    assert_eq!(parsed.prop_spec.crc, 12345);
    assert_eq!(parsed.pos.h, 150);
    assert_eq!(parsed.pos.v, 250);
}

#[test]
fn records_test_lprop_rec_roundtrip() {
    let rec = LPropRec {
        prop_spec: AssetSpec {
            id: 12345,
            crc: 0xABCDEF01,
        },
        flags: 0x00100000, // 20-bit format
        ref_con: 42,
        loc: Point { v: 100, h: 200 },
    };

    let mut buf = Vec::<u8>::new();
    rec.to_bytes(&mut buf);

    assert_eq!(buf.len(), 26); // 4 padding + 10 (AssetSpec with padding) + 4 + 4 + 4

    let reader = buf;
    let parsed = LPropRec::from_bytes(&reader).unwrap();

    assert_eq!(parsed, rec);
}

#[test]
fn records_test_picture_rec_roundtrip() {
    let rec = PictureRec {
        ref_con: 0,
        pic_id: 100,
        pic_name_ofst: 10,
        trans_color: -1, // 0xFFFF as i16 = -1
    };

    let mut buf = Vec::<u8>::new();
    rec.to_bytes(&mut buf);

    assert_eq!(buf.len(), 12);

    let reader = buf;
    let parsed = PictureRec::from_bytes(&reader).unwrap();

    assert_eq!(parsed, rec);
}

#[test]
fn records_test_hotspot_roundtrip() {
    let hotspot = Hotspot {
        script_event_mask: 0x0007, // SELECT | ENTER | LEAVE
        flags: 0,
        secure_info: 0,
        ref_con: 0,
        loc: Point { v: 100, h: 200 },
        id: 1,
        dest: 10,
        nbr_pts: 4,
        pts_ofst: 0,
        hotspot_type: HotspotType::Door,
        group_id: 0,
        nbr_scripts: 1,
        script_rec_ofst: 100,
        state: HotspotState::Unlocked,
        nbr_states: 0,
        state_rec_ofst: 0,
        name_ofst: 50,
        script_text_ofst: 150,
    };

    let mut buf = Vec::<u8>::new();
    hotspot.to_bytes(&mut buf);

    assert_eq!(buf.len(), 48);

    let reader = buf;
    let parsed = Hotspot::from_bytes(&reader).unwrap();

    assert_eq!(parsed, hotspot);
}

#[test]
fn records_test_room_rec_roundtrip() {
    // Create a simple room with a name in varBuf
    let room_name = "Test Room";
    let mut var_buf = Vec::<u8>::new();
    var_buf.push(room_name.len() as u8); // PString length
    var_buf.extend_from_slice(room_name.as_bytes()); // PString data

    let room = RoomRec {
        room_flags: RoomFlags::NO_PAINTING() | RoomFlags::DROP_ZONE(),
        faces_id: 0,
        room_id: 42,
        room_name_ofst: 0, // Points to start of varBuf
        pict_name_ofst: -1,
        artist_name_ofst: -1,
        password_ofst: -1,
        nbr_hotspots: 0,
        hotspot_ofst: 0,
        nbr_pictures: 0,
        picture_ofst: 0,
        nbr_draw_cmds: 0,
        first_draw_cmd: 0,
        nbr_people: 0,
        nbr_lprops: 0,
        first_lprop: 0,
        len_vars: var_buf.len() as i16,
        var_buf,
    };

    let mut buf = Vec::<u8>::new();
    room.to_bytes(&mut buf);

    // Fixed part size calculation:
    // 4 (room_flags i32) + 4 (faces_id) + 2×16 (sixteen i16 fields) = 8 + 32 = 40 bytes
    // Variable part: room.len_vars
    let expected_size = 40 + room.len_vars as usize;
    assert_eq!(buf.len(), expected_size);

    let reader = buf;
    let parsed = RoomRec::from_bytes(&reader).unwrap();

    assert_eq!(parsed, room);
    assert_eq!(parsed.room_name().unwrap(), room_name);
}
