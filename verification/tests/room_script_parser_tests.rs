use thepalace::iptscrae::RoomScriptParser;
use thepalace::Point;

#[test]
fn test_parse_simple_room() {
    let source = r#"
ROOM
  ID 100
  NAME "Test Room"
  PICT "background.gif"
ENDROOM
"#;

    let mut parser = RoomScriptParser::new(source).unwrap();
    let rooms = parser.parse().unwrap();

    assert_eq!(rooms.len(), 1);
    assert_eq!(rooms[0].id, 100);
    assert_eq!(rooms[0].name, Some("Test Room".to_string()));
    assert_eq!(rooms[0].pict, Some("background.gif".to_string()));
}
#[test]
fn test_parse_room_with_flags() {
    let source = r#"
ROOM
  ID 200
  NAME "Private Room"
  PRIVATE
  NOPAINTING
  HIDDEN
ENDROOM
"#;

    let mut parser = RoomScriptParser::new(source).unwrap();
    let rooms = parser.parse().unwrap();

    assert_eq!(rooms.len(), 1);
    assert!(rooms[0].flags.private);
    assert!(rooms[0].flags.no_painting);
    assert!(rooms[0].flags.hidden);
    assert!(!rooms[0].flags.no_cyborgs);
}
#[test]
fn test_parse_door() {
    let source = r#"
ROOM
  ID 100
  DOOR
ID 1
DEST 200
OUTLINE 10,10 50,10 50,200 10,200
  ENDDOOR
ENDROOM
"#;

    let mut parser = RoomScriptParser::new(source).unwrap();
    let rooms = parser.parse().unwrap();

    assert_eq!(rooms.len(), 1);
    assert_eq!(rooms[0].doors.len(), 1);
    assert_eq!(rooms[0].doors[0].id, 1);
    assert_eq!(rooms[0].doors[0].dest, 200);
    assert_eq!(rooms[0].doors[0].outline.len(), 4);
    assert_eq!(rooms[0].doors[0].outline[0], Point { h: 10, v: 10 });
}
#[test]
fn test_parse_spot_with_outline() {
    let source = r#"
ROOM
  ID 100
  SPOT
ID 2
NAME "Button"
OUTLINE 100,100 200,100 200,200 100,200
  ENDSPOT
ENDROOM
"#;

    let mut parser = RoomScriptParser::new(source).unwrap();
    let rooms = parser.parse().unwrap();

    assert_eq!(rooms.len(), 1);
    assert_eq!(rooms[0].spots.len(), 1);
    assert_eq!(rooms[0].spots[0].id, 2);
    assert_eq!(rooms[0].spots[0].name, Some("Button".to_string()));
    assert_eq!(rooms[0].spots[0].outline.len(), 4);
}
#[test]
fn test_parse_picts() {
    let source = r#"
ROOM
  ID 100
  SPOT
ID 2
PICTS
  100,0,0
  101,10,-5
ENDPICTS
  ENDSPOT
ENDROOM
"#;

    let mut parser = RoomScriptParser::new(source).unwrap();
    let rooms = parser.parse().unwrap();

    assert_eq!(rooms.len(), 1);
    assert_eq!(rooms[0].spots.len(), 1);
    assert_eq!(rooms[0].spots[0].picts.len(), 2);
    assert_eq!(rooms[0].spots[0].picts[0].pic_id, 100);
    assert_eq!(rooms[0].spots[0].picts[0].x_offset, 0);
    assert_eq!(rooms[0].spots[0].picts[0].y_offset, 0);
    assert_eq!(rooms[0].spots[0].picts[1].pic_id, 101);
    assert_eq!(rooms[0].spots[0].picts[1].x_offset, 10);
    assert_eq!(rooms[0].spots[0].picts[1].y_offset, -5);
}
#[test]
fn test_parse_multiple_rooms() {
    let source = r#"
ROOM
  ID 100
  NAME "Room 1"
ENDROOM

ROOM
  ID 200
  NAME "Room 2"
ENDROOM
"#;

    let mut parser = RoomScriptParser::new(source).unwrap();
    let rooms = parser.parse().unwrap();

    assert_eq!(rooms.len(), 2);
    assert_eq!(rooms[0].id, 100);
    assert_eq!(rooms[1].id, 200);
}
#[test]
fn test_parse_picture_decl() {
    let source = r#"
ROOM
  ID 100
  PICTURE
ID 1
NAME "overlay.gif"
TRANSCOLOR 255
  ENDPICTURE
ENDROOM
"#;

    let mut parser = RoomScriptParser::new(source).unwrap();
    let rooms = parser.parse().unwrap();

    assert_eq!(rooms.len(), 1);
    assert_eq!(rooms[0].pictures.len(), 1);
    assert_eq!(rooms[0].pictures[0].id, 1);
    assert_eq!(rooms[0].pictures[0].name, "overlay.gif");
    assert_eq!(rooms[0].pictures[0].trans_color, Some(255));
}
#[test]
fn test_parse_spot_with_script() {
    let source = r#"
ROOM
  ID 100
  SPOT
ID 2
SCRIPT
  ON SELECT {
    "You clicked!" SAY
  }
ENDSCRIPT
  ENDSPOT
ENDROOM
"#;

    let mut parser = RoomScriptParser::new(source).unwrap();
    let rooms = parser.parse().unwrap();

    assert_eq!(rooms.len(), 1);
    assert_eq!(rooms[0].spots.len(), 1);
    assert!(rooms[0].spots[0].script.is_some());
    let script = rooms[0].spots[0].script.as_ref().unwrap();
    assert_eq!(script.handlers.len(), 1);
}
#[test]
fn test_parse_negative_coordinates() {
    let source = r#"
ROOM
  ID 100
  SPOT
ID 2
OUTLINE -10,20 30,-40
  ENDSPOT
ENDROOM
"#;

    let mut parser = RoomScriptParser::new(source).unwrap();
    let rooms = parser.parse().unwrap();

    assert_eq!(rooms.len(), 1);
    assert_eq!(rooms[0].spots[0].outline.len(), 2);
    assert_eq!(rooms[0].spots[0].outline[0], Point { h: -10, v: 20 });
    assert_eq!(rooms[0].spots[0].outline[1], Point { h: 30, v: -40 });
}