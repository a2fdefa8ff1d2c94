use thepalace::iptscrae::{EventType, Lexer, Parser, ScriptContext, SecurityLevel, TokenKind, Value, Vm};

#[test]
fn room_words_are_identifiers_in_scripts() {
    assert_eq!(TokenKind::from_ident("DEST"), TokenKind::Ident("DEST".to_string()));
    assert_eq!(TokenKind::from_ident("id"), TokenKind::Ident("id".to_string()));
    assert_eq!(TokenKind::from_ident("Room"), TokenKind::Ident("Room".to_string()));
    assert_eq!(TokenKind::from_ident("while"), TokenKind::While);
}

#[test]
fn room_words_are_keywords_in_room_files() {
    assert_eq!(TokenKind::room_keyword("dest"), Some(TokenKind::Dest));
    assert_eq!(TokenKind::room_keyword("ENDROOM"), Some(TokenKind::EndRoom));
    assert_eq!(TokenKind::room_keyword("SAY"), None);
}

#[test]
fn scripts_can_call_id_and_dest() {
    let source = "ON ENTER { ID 7 DEST }";
    let tokens = Lexer::new(source).tokenize().unwrap();
    let script = Parser::new(tokens).parse().unwrap();
    let mut vm = Vm::new();
    let mut actions = ();
    let mut ctx = ScriptContext::new(SecurityLevel::Server, &mut actions);
    ctx.user_id = 42;
    vm.execute_handler(&script, EventType::Enter, &mut ctx).unwrap();
    assert_eq!(vm.stack().to_vec().len(), 2);
    assert_eq!(vm.stack()[0], Value::Integer(42));
    assert_eq!(vm.stack()[1], Value::Integer(0));
}

#[test]
fn event_masks_are_disjoint_single_bits() {
    let all = [EventType::Select, EventType::Enter, EventType::Leave, EventType::Macro9];
    for a in all {
        let m = a.to_mask().bits();
        assert_eq!(m.count_ones(), 1);
        for b in all {
            if a != b {
                assert_eq!(m & b.to_mask().bits(), 0);
            }
        }
    }
    assert_eq!(EventType::from_name("select"), Some(EventType::Select));
    assert_eq!(EventType::from_name(EventType::Macro5.name()), Some(EventType::Macro5));
    assert_eq!(EventType::from_name("invalid"), None);
}

#[test]
fn builtin_names_ignore_case() {
    let mut vm = Vm::new();
    vm.push(Value::Integer(42));
    vm.execute_builtin("dup").unwrap();
    assert_eq!(vm.stack().len(), 2);
    assert_eq!(vm.stack()[1], Value::Integer(42));
}
