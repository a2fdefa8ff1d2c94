use thepalace::iptscrae::{EventType, Expr, Lexer, ParseError, Parser, Script, Statement, Value};

fn parse_source(source: &str) -> Result<Script, ParseError> {
    let mut lexer = Lexer::new(source);
    let tokens = lexer.tokenize().unwrap();
    let mut parser = Parser::new(tokens);
    parser.parse()
}

#[test]
fn test_parse_simple_handler() {
    let source = r#"
        ON ENTER {
            "Hello" SAY
        }
    "#;
    let script = parse_source(source).unwrap();
    assert_eq!(script.handlers.len(), 1);
    assert_eq!(script.handlers[0].event, EventType::Enter);
}
#[test]
fn test_parse_multiple_handlers() {
    let source = r#"
        ON ENTER {
            "Entering" SAY
        }
        ON LEAVE {
            "Leaving" SAY
        }
    "#;
    let script = parse_source(source).unwrap();
    assert_eq!(script.handlers.len(), 2);
    assert_eq!(script.handlers[0].event, EventType::Enter);
    assert_eq!(script.handlers[1].event, EventType::Leave);
}
#[test]
fn test_parse_literals() {
    let source = r#"
        ON SELECT {
            42
            "test"
        }
    "#;
    let script = parse_source(source).unwrap();
    assert_eq!(script.handlers.len(), 1);

    let statements = &script.handlers[0].body.statements;
    assert_eq!(statements.len(), 2);

    if let Statement::Expr(Expr::Literal {
        value: Value::Integer(n),
        ..
    }) = &statements[0]
    {
        assert_eq!(*n, 42);
    } else {
        panic!("Expected integer literal");
    }

    if let Statement::Expr(Expr::Literal {
        value: Value::String(s),
        ..
    }) = &statements[1]
    {
        assert_eq!(s, "test");
    } else {
        panic!("Expected string literal");
    }
}
#[test]
fn test_parse_function_calls() {
    let source = r#"
        ON ENTER {
            WHONAME SAY
        }
    "#;
    let script = parse_source(source).unwrap();
    let statements = &script.handlers[0].body.statements;
    assert_eq!(statements.len(), 2);

    assert!(
        matches!(&statements[0], Statement::Expr(Expr::Call { name, .. }) if name == "WHONAME")
    );
    assert!(
        matches!(&statements[1], Statement::Expr(Expr::Call { name, .. }) if name == "SAY")
    );
}
#[test]
fn test_parse_if_statement() {
    let source = r#"
        ON SELECT {
            count 10 < IF {
                "Less than 10" SAY
            }
        }
    "#;
    let script = parse_source(source).unwrap();
    let statements = &script.handlers[0].body.statements;

    // Should have: count, 10, <, IF
    assert!(statements.len() >= 4);
    assert!(matches!(&statements[3], Statement::If { .. }));
}
#[test]
fn test_parse_while_statement() {
    let source = r#"
        ON STARTUP {
            { count 10 < } WHILE {
                count 1 + count =
            }
        }
    "#;
    let script = parse_source(source).unwrap();
    let statements = &script.handlers[0].body.statements;

    // Should have: block, WHILE
    assert!(statements.len() >= 2);
}
#[test]
fn test_parse_invalid_event() {
    let source = r#"
        ON INVALIDEVENT {
            "test" SAY
        }
    "#;
    let result = parse_source(source);
    assert!(matches!(result, Err(ParseError::InvalidEventName { .. })));
}
#[test]
fn test_parse_unterminated_block() {
    let source = r#"
        ON ENTER {
            "test" SAY
    "#;
    let result = parse_source(source);
    assert!(result.is_err());
}
