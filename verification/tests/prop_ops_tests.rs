use thepalace::messages::flags::RoomFlags;
use thepalace::messages::{Hotspot, ListOfAllRoomsMsg, LPropRec, PictureRec, PropDelMsg, PropMoveMsg, PropNewMsg, RoomListRec, RoomRec};
use thepalace::room::{HotspotState, HotspotType};
use thepalace::{AssetSpec, Point};

#[test]
fn prop_ops_test_room_list_rec() {
    let rec = RoomListRec {
        room_id: 42,
        flags: RoomFlags::PRIVATE() | RoomFlags::NO_PAINTING(),
        nbr_users: 5,
        name: "Test Room".to_string(),
    };

    let mut buf = vec![];
    rec.to_bytes(&mut buf);

    let parsed = RoomListRec::from_bytes(&buf[..]).unwrap();
    assert_eq!(parsed.room_id, 42);
    assert_eq!(parsed.flags, RoomFlags::PRIVATE() | RoomFlags::NO_PAINTING());
    assert_eq!(parsed.nbr_users, 5);
    assert_eq!(parsed.name, "Test Room");
}
#[test]
fn prop_ops_test_list_of_all_rooms_request() {
    let msg = ListOfAllRoomsMsg::request();
    assert!(msg.is_request());
    assert_eq!(msg.count(), 0);

    let mut buf = vec![];
    msg.to_bytes(&mut buf);
    assert_eq!(buf.len(), 0);

    let parsed = ListOfAllRoomsMsg::from_bytes(&buf[..]).unwrap();
    assert!(parsed.is_request());
}
#[test]
fn prop_ops_test_prop_del_msg() {
    let msg = PropDelMsg::new(5);

    let mut buf = vec![];
    msg.to_bytes(&mut buf);
    assert_eq!(buf.len(), 4);

    let parsed = PropDelMsg::from_bytes(&buf[..]).unwrap();
    assert_eq!(parsed.prop_num, 5);
}
#[test]
fn prop_ops_test_prop_del_all() {
    let msg = PropDelMsg::delete_all();
    assert_eq!(msg.prop_num, -1);
}
#[test]
fn prop_ops_test_prop_move_msg() {
    let msg = PropMoveMsg::new(3, Point { h: 100, v: 200 });

    let mut buf = vec![];
    msg.to_bytes(&mut buf);
    assert_eq!(buf.len(), 8); // 4 + 4

    let parsed = PropMoveMsg::from_bytes(&buf[..]).unwrap();
    assert_eq!(parsed.prop_num, 3);
    assert_eq!(parsed.pos.h, 100);
    assert_eq!(parsed.pos.v, 200);
}
#[test]
fn prop_ops_test_prop_new_msg() {
    let msg = PropNewMsg::new(AssetSpec { id: 42, crc: 12345 }, Point { h: 150, v: 250 });

    let mut buf = vec![];
    msg.to_bytes(&mut buf);
    assert_eq!(buf.len(), 14); // 10 (AssetSpec with padding) + 4 (Point)

    let parsed = PropNewMsg::from_bytes(&buf[..]).unwrap();
    assert_eq!(parsed.prop_spec.id, 42);
    assert_eq!(parsed.prop_spec.crc, 12345);
    assert_eq!(parsed.pos.h, 150);
    assert_eq!(parsed.pos.v, 250);
}
#[test]
fn prop_ops_test_list_of_all_rooms_two_entries() {
    let a = RoomListRec { room_id: 1, flags: RoomFlags::PRIVATE(), nbr_users: 2, name: "One".to_string() };
    let b = RoomListRec { room_id: 3, flags: RoomFlags::HIDDEN(), nbr_users: 0, name: "Two".to_string() };
    let msg = ListOfAllRoomsMsg::response(vec![a, b]);
    let mut buf = vec![];
    msg.to_bytes(&mut buf);
    let parsed = ListOfAllRoomsMsg::from_bytes(&buf[..]).unwrap();
    assert_eq!(parsed.count(), 2);
    assert_eq!(parsed.rooms[0].room_id, 1);
    assert_eq!(parsed.rooms[0].name, "One");
    assert_eq!(parsed.rooms[1].room_id, 3);
    assert_eq!(parsed.rooms[1].nbr_users, 0);
    assert_eq!(parsed.rooms[1].name, "Two");
}

#[test]
fn prop_ops_test_list_of_all_rooms_truncated_entry() {
    let a = RoomListRec { room_id: 1, flags: RoomFlags::PRIVATE(), nbr_users: 2, name: "One".to_string() };
    let msg = ListOfAllRoomsMsg::response(vec![a]);
    let mut buf = vec![];
    msg.to_bytes(&mut buf);
    buf.extend_from_slice(&[0, 0, 0, 9, 0]);
    assert!(ListOfAllRoomsMsg::from_bytes(&buf[..]).is_err());
}
