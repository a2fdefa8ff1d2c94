use thepalace::iptscrae::{ParseError, RoomScriptParser};

fn missing_message(src: &str) -> String {
    let mut p = RoomScriptParser::new(src).unwrap();
    match p.parse() {
        Err(ParseError::UnexpectedToken { expected, .. }) => expected,
        Err(other) => panic!("unexpected error: {:?}", other),
        Ok(_) => panic!("parsed"),
    }
}

#[test]
fn room_without_id_names_the_missing_field() {
    assert_eq!(missing_message("ROOM\n  NAME \"x\"\nENDROOM\n"), "Room must have an ID");
}

#[test]
fn door_without_dest_names_the_missing_field() {
    let src = "ROOM\n  ID 1\n  DOOR\n    ID 2\n  ENDDOOR\nENDROOM\n";
    assert_eq!(missing_message(src), "DOOR must have a DEST");
}

#[test]
fn picture_without_name_names_the_missing_field() {
    let src = "ROOM\n  ID 1\n  PICTURE\n    ID 2\n  ENDPICTURE\nENDROOM\n";
    assert_eq!(missing_message(src), "PICTURE must have a NAME");
}
