use thepalace::messages::{DoorLockMsg, DoorUnlockMsg, PictMoveMsg, SpotDelMsg, SpotMoveMsg, SpotNewMsg, SpotStateMsg};
use thepalace::Point;

#[test]
fn room_test_door_lock_msg() {
    let msg = DoorLockMsg::new(10, 42);

    let mut buf = vec![];
    msg.to_bytes(&mut buf);
    assert_eq!(buf.len(), 6); // 2 + 4

    let parsed = DoorLockMsg::from_bytes(&buf[..]).unwrap();
    assert_eq!(parsed.room_id, 10);
    assert_eq!(parsed.door_id, 42);
}

#[test]
fn room_test_door_unlock_msg() {
    let msg = DoorUnlockMsg::new(15, 88);

    let mut buf = vec![];
    msg.to_bytes(&mut buf);
    assert_eq!(buf.len(), 6); // 2 + 4

    let parsed = DoorUnlockMsg::from_bytes(&buf[..]).unwrap();
    assert_eq!(parsed.room_id, 15);
    assert_eq!(parsed.door_id, 88);
}

#[test]
fn room_test_pict_move_msg() {
    let msg = PictMoveMsg::new(20, 100, Point { h: 300, v: 400 });

    let mut buf = vec![];
    msg.to_bytes(&mut buf);
    assert_eq!(buf.len(), 10); // 2 + 4 + 4

    let parsed = PictMoveMsg::from_bytes(&buf[..]).unwrap();
    assert_eq!(parsed.room_id, 20);
    assert_eq!(parsed.spot_id, 100);
    assert_eq!(parsed.pos.h, 300);
    assert_eq!(parsed.pos.v, 400);
}

#[test]
fn room_test_spot_del_msg() {
    let msg = SpotDelMsg::new(42);

    let mut buf = vec![];
    msg.to_bytes(&mut buf);
    assert_eq!(buf.len(), 4);

    let parsed = SpotDelMsg::from_bytes(&buf[..]).unwrap();
    assert_eq!(parsed.spot_id, 42);
}

#[test]
fn room_test_spot_move_msg() {
    let msg = SpotMoveMsg::new(5, 10, Point { h: 100, v: 200 });

    let mut buf = vec![];
    msg.to_bytes(&mut buf);
    assert_eq!(buf.len(), 10); // 2 + 4 + 4

    let parsed = SpotMoveMsg::from_bytes(&buf[..]).unwrap();
    assert_eq!(parsed.room_id, 5);
    assert_eq!(parsed.spot_id, 10);
    assert_eq!(parsed.pos.h, 100);
    assert_eq!(parsed.pos.v, 200);
}

#[test]
fn room_test_spot_new_msg() {
    let msg = SpotNewMsg;

    let mut buf = vec![];
    msg.to_bytes(&mut buf);
    assert_eq!(buf.len(), 0);

    let parsed = SpotNewMsg::from_bytes(&buf[..]).unwrap();
    assert_eq!(parsed, msg);
}

#[test]
fn room_test_spot_state_msg() {
    let msg = SpotStateMsg::new(7, 15, 3);

    let mut buf = vec![];
    msg.to_bytes(&mut buf);
    assert_eq!(buf.len(), 8); // 2 + 4 + 2

    let parsed = SpotStateMsg::from_bytes(&buf[..]).unwrap();
    assert_eq!(parsed.room_id, 7);
    assert_eq!(parsed.spot_id, 15);
    assert_eq!(parsed.state, 3);
}

#[test]
fn door_ops_test_door_lock_msg() {
    let msg = DoorLockMsg::new(10, 42);

    let mut buf = vec![];
    msg.to_bytes(&mut buf);
    assert_eq!(buf.len(), 6); // 2 + 4

    let parsed = DoorLockMsg::from_bytes(&buf[..]).unwrap();
    assert_eq!(parsed.room_id, 10);
    assert_eq!(parsed.door_id, 42);
}

#[test]
fn door_ops_test_door_unlock_msg() {
    let msg = DoorUnlockMsg::new(15, 88);

    let mut buf = vec![];
    msg.to_bytes(&mut buf);
    assert_eq!(buf.len(), 6); // 2 + 4

    let parsed = DoorUnlockMsg::from_bytes(&buf[..]).unwrap();
    assert_eq!(parsed.room_id, 15);
    assert_eq!(parsed.door_id, 88);
}

#[test]
fn picture_ops_test_pict_move_msg() {
    let msg = PictMoveMsg::new(20, 100, Point { h: 300, v: 400 });

    let mut buf = vec![];
    msg.to_bytes(&mut buf);
    assert_eq!(buf.len(), 10); // 2 + 4 + 4

    let parsed = PictMoveMsg::from_bytes(&buf[..]).unwrap();
    assert_eq!(parsed.room_id, 20);
    assert_eq!(parsed.spot_id, 100);
    assert_eq!(parsed.pos.h, 300);
    assert_eq!(parsed.pos.v, 400);
}

#[test]
fn hotspot_ops_test_spot_del_msg() {
    let msg = SpotDelMsg::new(42);

    let mut buf = vec![];
    msg.to_bytes(&mut buf);
    assert_eq!(buf.len(), 4);

    let parsed = SpotDelMsg::from_bytes(&buf[..]).unwrap();
    assert_eq!(parsed.spot_id, 42);
}

#[test]
fn hotspot_ops_test_spot_move_msg() {
    let msg = SpotMoveMsg::new(5, 10, Point { h: 100, v: 200 });

    let mut buf = vec![];
    msg.to_bytes(&mut buf);
    assert_eq!(buf.len(), 10); // 2 + 4 + 4

    let parsed = SpotMoveMsg::from_bytes(&buf[..]).unwrap();
    assert_eq!(parsed.room_id, 5);
    assert_eq!(parsed.spot_id, 10);
    assert_eq!(parsed.pos.h, 100);
    assert_eq!(parsed.pos.v, 200);
}

#[test]
fn hotspot_ops_test_spot_new_msg() {
    let msg = SpotNewMsg;

    let mut buf = vec![];
    msg.to_bytes(&mut buf);
    assert_eq!(buf.len(), 0);

    let parsed = SpotNewMsg::from_bytes(&buf[..]).unwrap();
    assert_eq!(parsed, msg);
}

#[test]
fn hotspot_ops_test_spot_state_msg() {
    let msg = SpotStateMsg::new(7, 15, 3);

    let mut buf = vec![];
    msg.to_bytes(&mut buf);
    assert_eq!(buf.len(), 8); // 2 + 4 + 2

    let parsed = SpotStateMsg::from_bytes(&buf[..]).unwrap();
    assert_eq!(parsed.room_id, 7);
    assert_eq!(parsed.spot_id, 15);
    assert_eq!(parsed.state, 3);
}
