use thepalace::iptscrae::room_script_converter::{convert_flags, convert_room, extract_event_mask, ConversionError, VarBufBuilder};
use thepalace::iptscrae::RoomFlags as AstRoomFlags;
use thepalace::iptscrae::{Block, DoorDecl, EventHandler, EventMask, EventType, PictureDecl, RoomDecl, Script, SourcePos, SpotDecl, StateDecl};
use thepalace::messages::flags::RoomFlags;
use thepalace::Point;

#[test]
fn test_convert_flags() {
    let flags = AstRoomFlags {
        private: true,
        no_painting: true,
        no_cyborgs: false,
        hidden: false,
        no_guests: false,
    };

    let result = convert_flags(&flags);

    assert!(result.contains(RoomFlags::PRIVATE()));
    assert!(result.contains(RoomFlags::NO_PAINTING()));
    assert!(!result.contains(RoomFlags::CYBORG_FREE_ZONE()));
    assert!(!result.contains(RoomFlags::HIDDEN()));
    assert!(!result.contains(RoomFlags::NO_GUESTS()));
}
#[test]
fn test_var_buf_builder_pstring() {
    let mut builder = VarBufBuilder::new();

    let offset1 = builder.write_pstring("Hello").unwrap();
    assert_eq!(offset1, 0);
    assert_eq!(builder.offset(), 6); // 1 byte length + 5 bytes data

    let offset2 = builder.write_pstring("World").unwrap();
    assert_eq!(offset2, 6);
    assert_eq!(builder.offset(), 12);

    let bytes = builder.finish();
    assert_eq!(bytes.len(), 12);
    assert_eq!(bytes[0], 5); // "Hello" length
    assert_eq!(&bytes[1..6], b"Hello");
    assert_eq!(bytes[6], 5); // "World" length
    assert_eq!(&bytes[7..12], b"World");
}
#[test]
fn test_var_buf_builder_optional_pstring() {
    let mut builder = VarBufBuilder::new();

    let offset1 = builder.write_optional_pstring(Some("Test")).unwrap();
    assert_eq!(offset1, 0);

    let offset2 = builder.write_optional_pstring(None).unwrap();
    assert_eq!(offset2, -1);

    assert_eq!(builder.offset(), 5); // Only "Test" was written
}
#[test]
fn test_var_buf_builder_alignment() {
    let mut builder = VarBufBuilder::new();

    builder.write_pstring("Hi").unwrap(); // 3 bytes: length + 2 chars
    assert_eq!(builder.offset(), 3);

    builder.align_to_4();
    assert_eq!(builder.offset(), 4); // Padded to 4-byte boundary

    builder.write_pstring("Test").unwrap(); // 5 bytes
    assert_eq!(builder.offset(), 9);

    builder.align_to_4();
    assert_eq!(builder.offset(), 12); // Padded to next 4-byte boundary
}
#[test]
fn test_var_buf_builder_points() {
    let mut builder = VarBufBuilder::new();

    let points = vec![
        Point { h: 10, v: 20 },
        Point { h: 30, v: 40 },
        Point { h: 50, v: 60 },
    ];

    let offset = builder.write_points(&points).unwrap();
    assert_eq!(offset, 0); // Aligned to start

    let bytes = builder.finish();
    assert_eq!(bytes.len(), 12); // 3 points × 4 bytes
}
#[test]
fn test_var_buf_builder_states() {
    let mut builder = VarBufBuilder::new();

    let states = vec![
        StateDecl {
            pic_id: 100,
            x_offset: 10,
            y_offset: -5,
        },
        StateDecl {
            pic_id: 101,
            x_offset: 0,
            y_offset: 0,
        },
    ];

    let offset = builder.write_states(&states).unwrap();
    assert_eq!(offset, 0);

    let bytes = builder.finish();
    assert_eq!(bytes.len(), 12); // 2 states × 6 bytes
}
#[test]
fn test_string_too_long() {
    let mut builder = VarBufBuilder::new();
    let long_string = "a".repeat(256);

    let result = builder.write_pstring(&long_string);
    assert!(matches!(result, Err(ConversionError::StringTooLong { .. })));
}
#[test]
fn test_convert_simple_room() {

    let room = RoomDecl {
        id: 100,
        name: Some("Test Room".to_string()),
        pict: Some("background.gif".to_string()),
        artist: Some("Artist Name".to_string()),
        password: None,
        flags: AstRoomFlags {
            private: true,
            no_painting: false,
            no_cyborgs: false,
            hidden: false,
            no_guests: false,
        },
        pictures: vec![],
        doors: vec![],
        spots: vec![],
    };

    let result = convert_room(&room).unwrap();

    assert_eq!(result.room_id, 100);
    assert_eq!(result.nbr_hotspots, 0);
    assert_eq!(result.nbr_pictures, 0);
    assert_eq!(result.nbr_people, 0); // Runtime field
    assert_eq!(result.nbr_lprops, 0); // Runtime field
    assert_eq!(result.nbr_draw_cmds, 0); // Runtime field

    assert!(result.room_flags.contains(RoomFlags::PRIVATE()));

    // Verify strings in varBuf
    assert_eq!(result.room_name().unwrap(), "Test Room");
    assert_eq!(result.pict_name().unwrap(), "background.gif");
    assert_eq!(result.artist_name().unwrap(), "Artist Name");
}
#[test]
fn test_convert_room_with_door() {

    let door = DoorDecl {
        id: 1,
        dest: 200,
        name: Some("Exit".to_string()),
        outline: vec![
            Point { h: 10, v: 10 },
            Point { h: 50, v: 10 },
            Point { h: 50, v: 100 },
            Point { h: 10, v: 100 },
        ],
        picts: vec![],
        script: None,
    };

    let room = RoomDecl {
        id: 100,
        name: Some("Room with Door".to_string()),
        pict: None,
        artist: None,
        password: None,
        flags: AstRoomFlags::default(),
        pictures: vec![],
        doors: vec![door],
        spots: vec![],
    };

    let result = convert_room(&room).unwrap();

    assert_eq!(result.room_id, 100);
    assert_eq!(result.nbr_hotspots, 1);

    // The hotspot should be a door
    // We can't easily verify hotspot details without parsing varBuf
    // but we can check that it was created
    assert!(result.hotspot_ofst > 0);
}
#[test]
fn test_convert_room_with_pictures() {

    let pictures = vec![
        PictureDecl {
            id: 1,
            name: "overlay1.gif".to_string(),
            trans_color: Some(255),
        },
        PictureDecl {
            id: 2,
            name: "overlay2.gif".to_string(),
            trans_color: None,
        },
    ];

    let room = RoomDecl {
        id: 100,
        name: Some("Room with Pictures".to_string()),
        pict: None,
        artist: None,
        password: None,
        flags: AstRoomFlags::default(),
        pictures,
        doors: vec![],
        spots: vec![],
    };

    let result = convert_room(&room).unwrap();

    assert_eq!(result.room_id, 100);
    assert_eq!(result.nbr_pictures, 2);
    assert!(result.picture_ofst > 0);
}
#[test]
fn test_convert_room_with_spot() {

    let spot = SpotDecl {
        id: 2,
        name: Some("Button".to_string()),
        outline: vec![
            Point { h: 100, v: 100 },
            Point { h: 200, v: 100 },
            Point { h: 200, v: 200 },
            Point { h: 100, v: 200 },
        ],
        picts: vec![],
        script: None,
    };

    let room = RoomDecl {
        id: 100,
        name: Some("Room with Spot".to_string()),
        pict: None,
        artist: None,
        password: None,
        flags: AstRoomFlags::default(),
        pictures: vec![],
        doors: vec![],
        spots: vec![spot],
    };

    let result = convert_room(&room).unwrap();

    assert_eq!(result.room_id, 100);
    assert_eq!(result.nbr_hotspots, 1);
    assert!(result.hotspot_ofst > 0);
}
#[test]
fn test_convert_room_all_features() {

    let room = RoomDecl {
        id: 42,
        name: Some("Complete Room".to_string()),
        pict: Some("bg.gif".to_string()),
        artist: Some("Test Artist".to_string()),
        password: Some("secret".to_string()),
        flags: AstRoomFlags {
            private: true,
            no_painting: true,
            no_cyborgs: true,
            hidden: true,
            no_guests: true,
        },
        pictures: vec![PictureDecl {
            id: 10,
            name: "layer.gif".to_string(),
            trans_color: Some(255),
        }],
        doors: vec![DoorDecl {
            id: 1,
            dest: 100,
            name: Some("Door".to_string()),
            outline: vec![Point { h: 0, v: 0 }, Point { h: 10, v: 10 }],
            picts: vec![StateDecl {
                pic_id: 50,
                x_offset: 5,
                y_offset: -3,
            }],
            script: None,
        }],
        spots: vec![SpotDecl {
            id: 2,
            name: Some("Spot".to_string()),
            outline: vec![Point { h: 20, v: 20 }, Point { h: 30, v: 30 }],
            picts: vec![],
            script: None,
        }],
    };

    let result = convert_room(&room).unwrap();

    assert_eq!(result.room_id, 42);
    assert_eq!(result.nbr_hotspots, 2); // 1 door + 1 spot
    assert_eq!(result.nbr_pictures, 1);

    assert!(result.room_flags.contains(RoomFlags::PRIVATE()));
    assert!(result.room_flags.contains(RoomFlags::NO_PAINTING()));
    assert!(result.room_flags.contains(RoomFlags::CYBORG_FREE_ZONE()));
    assert!(result.room_flags.contains(RoomFlags::HIDDEN()));
    assert!(result.room_flags.contains(RoomFlags::NO_GUESTS()));

    assert_eq!(result.room_name().unwrap(), "Complete Room");
    assert_eq!(result.pict_name().unwrap(), "bg.gif");
    assert_eq!(result.artist_name().unwrap(), "Test Artist");
    assert_eq!(result.password().unwrap(), "secret");
}
#[test]
fn test_extract_event_mask_empty() {
    let script = Script { handlers: vec![] };
    let mask = extract_event_mask(&script);
    assert_eq!(mask, EventMask::empty());
}
#[test]
fn test_extract_event_mask_multiple() {

    let script = Script {
        handlers: vec![
            EventHandler {
                event: EventType::Select,
                body: Block { statements: vec![] },
                pos: SourcePos { line: 1, column: 1 },
            },
            EventHandler {
                event: EventType::Enter,
                body: Block { statements: vec![] },
                pos: SourcePos { line: 2, column: 1 },
            },
            EventHandler {
                event: EventType::Leave,
                body: Block { statements: vec![] },
                pos: SourcePos { line: 3, column: 1 },
            },
        ],
    };

    let mask = extract_event_mask(&script);
    assert!(mask.contains(EventMask::SELECT()));
    assert!(mask.contains(EventMask::ENTER()));
    assert!(mask.contains(EventMask::LEAVE()));
    assert!(!mask.contains(EventMask::LOCK()));
}
fn bare_room(name: Option<String>, pictures: Vec<PictureDecl>) -> RoomDecl {
    RoomDecl {
        id: 7,
        name,
        pict: None,
        artist: None,
        password: None,
        flags: AstRoomFlags { private: false, no_painting: false, no_cyborgs: false, hidden: false, no_guests: false },
        pictures,
        doors: vec![],
        spots: vec![],
    }
}

#[test]
fn test_convert_room_name_too_long() {
    let room = bare_room(Some("x".repeat(256)), vec![]);
    match convert_room(&room) {
        Err(ConversionError::StringTooLong { field, length }) => {
            assert_eq!(length, 256);
            assert_eq!(field.len(), 256);
        }
        other => panic!("unexpected result: {:?}", other),
    }
}

#[test]
fn test_convert_room_var_buf_too_large() {
    // 200 picture names of 200 bytes pass the 32767-byte offset limit.
    let pictures: Vec<PictureDecl> = (0..200)
        .map(|i| PictureDecl { id: i as i16, name: "p".repeat(200), trans_color: None })
        .collect();
    let room = bare_room(None, pictures);
    assert!(matches!(convert_room(&room), Err(ConversionError::VarBufTooLarge { .. })));
}

#[test]
fn test_convert_room_too_many_pictures() {
    let pictures: Vec<PictureDecl> = (0..32768)
        .map(|_| PictureDecl { id: 1, name: String::new(), trans_color: None })
        .collect();
    let room = bare_room(None, pictures);
    assert!(matches!(convert_room(&room), Err(ConversionError::TooManyPictures { count: 32768 })));
}

#[test]
fn test_convert_empty_room_has_empty_var_buf() {
    let room = bare_room(None, vec![]);
    let rec = convert_room(&room).unwrap();
    assert_eq!(rec.len_vars, 0);
    assert_eq!(rec.room_name_ofst, -1);
    assert!(rec.var_buf.is_empty());
}
