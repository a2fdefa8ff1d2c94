use thepalace::iptscrae::{DoorDecl, PictureDecl, RoomDecl, RoomFlags, SpotDecl, StateDecl};
use thepalace::Point;

#[test]
fn test_room_decl_creation() {
    let room = RoomDecl {
        id: 100,
        name: Some("Test Room".to_string()),
        pict: Some("test.gif".to_string()),
        artist: Some("Test Artist".to_string()),
        password: None,
        flags: RoomFlags::default(),
        pictures: vec![],
        doors: vec![],
        spots: vec![],
    };

    assert_eq!(room.id, 100);
    assert_eq!(room.name, Some("Test Room".to_string()));
}
#[test]
fn room_script_test_room_flags() {
    let flags = RoomFlags {
        private: true,
        no_painting: true,
        no_cyborgs: false,
        hidden: false,
        no_guests: false,
    };

    assert!(flags.private);
    assert!(flags.no_painting);
    assert!(!flags.no_cyborgs);
}
#[test]
fn test_door_decl_creation() {
    let door = DoorDecl {
        id: 1,
        dest: 200,
        name: Some("Exit".to_string()),
        outline: vec![
            Point { h: 10, v: 10 },
            Point { h: 50, v: 10 },
            Point { h: 50, v: 200 },
            Point { h: 10, v: 200 },
        ],
        picts: vec![],
        script: None,
    };

    assert_eq!(door.id, 1);
    assert_eq!(door.dest, 200);
    assert_eq!(door.outline.len(), 4);
}
#[test]
fn test_spot_decl_creation() {
    let spot = SpotDecl {
        id: 2,
        name: Some("Button".to_string()),
        outline: vec![
            Point { h: 100, v: 100 },
            Point { h: 200, v: 100 },
            Point { h: 200, v: 200 },
            Point { h: 100, v: 200 },
        ],
        picts: vec![],
        script: None,
    };

    assert_eq!(spot.id, 2);
    assert_eq!(spot.name, Some("Button".to_string()));
    assert_eq!(spot.outline.len(), 4);
}
#[test]
fn test_state_decl() {
    let state = StateDecl {
        pic_id: 100,
        x_offset: 10,
        y_offset: -5,
    };

    assert_eq!(state.pic_id, 100);
    assert_eq!(state.x_offset, 10);
    assert_eq!(state.y_offset, -5);
}
#[test]
fn test_picture_decl() {
    let pic = PictureDecl {
        id: 42,
        name: "overlay.gif".to_string(),
        trans_color: Some(255),
    };

    assert_eq!(pic.id, 42);
    assert_eq!(pic.name, "overlay.gif");
    assert_eq!(pic.trans_color, Some(255));
}