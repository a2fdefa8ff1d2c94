use thepalace::iptscrae::{LexError, Lexer, TokenKind};

#[test]
fn test_lex_integers() {
    let mut lexer = Lexer::new("42 -17 0");
    let tokens = lexer.tokenize().unwrap();

    assert_eq!(tokens[0].kind, TokenKind::Integer(42));
    assert_eq!(tokens[1].kind, TokenKind::Integer(-17));
    assert_eq!(tokens[2].kind, TokenKind::Integer(0));
}
#[test]
fn test_lex_strings() {
    let mut lexer = Lexer::new(r#""hello" "world" "test\"quote""#);
    let tokens = lexer.tokenize().unwrap();

    assert_eq!(tokens[0].kind, TokenKind::String("hello".to_string()));
    assert_eq!(tokens[1].kind, TokenKind::String("world".to_string()));
    assert_eq!(tokens[2].kind, TokenKind::String("test\"quote".to_string()));
}
#[test]
fn test_lex_identifiers() {
    let mut lexer = Lexer::new("foo bar_baz test123");
    let tokens = lexer.tokenize().unwrap();

    assert_eq!(tokens[0].kind, TokenKind::Ident("foo".to_string()));
    assert_eq!(tokens[1].kind, TokenKind::Ident("bar_baz".to_string()));
    assert_eq!(tokens[2].kind, TokenKind::Ident("test123".to_string()));
}
#[test]
fn test_lex_keywords() {
    let mut lexer = Lexer::new("ON IF ELSE WHILE DO BREAK");
    let tokens = lexer.tokenize().unwrap();

    assert_eq!(tokens[0].kind, TokenKind::On);
    assert_eq!(tokens[1].kind, TokenKind::If);
    assert_eq!(tokens[2].kind, TokenKind::Else);
    assert_eq!(tokens[3].kind, TokenKind::While);
    assert_eq!(tokens[4].kind, TokenKind::Do);
    assert_eq!(tokens[5].kind, TokenKind::Break);
}
#[test]
fn test_lex_operators() {
    let mut lexer = Lexer::new("+ - * / % & = != < > <= >=");
    let tokens = lexer.tokenize().unwrap();

    assert_eq!(tokens[0].kind, TokenKind::Plus);
    assert_eq!(tokens[1].kind, TokenKind::Minus);
    assert_eq!(tokens[2].kind, TokenKind::Star);
    assert_eq!(tokens[3].kind, TokenKind::Slash);
    assert_eq!(tokens[4].kind, TokenKind::Percent);
    assert_eq!(tokens[5].kind, TokenKind::Ampersand);
    assert_eq!(tokens[6].kind, TokenKind::Equals);
    assert_eq!(tokens[7].kind, TokenKind::NotEquals);
    assert_eq!(tokens[8].kind, TokenKind::Less);
    assert_eq!(tokens[9].kind, TokenKind::Greater);
    assert_eq!(tokens[10].kind, TokenKind::LessEq);
    assert_eq!(tokens[11].kind, TokenKind::GreaterEq);
}
#[test]
fn test_lex_delimiters() {
    let mut lexer = Lexer::new("{ } ( )");
    let tokens = lexer.tokenize().unwrap();

    assert_eq!(tokens[0].kind, TokenKind::LeftBrace);
    assert_eq!(tokens[1].kind, TokenKind::RightBrace);
    assert_eq!(tokens[2].kind, TokenKind::LeftParen);
    assert_eq!(tokens[3].kind, TokenKind::RightParen);
}
#[test]
fn test_lex_comments() {
    let mut lexer = Lexer::new("# This is a comment\n42");
    let tokens = lexer.tokenize().unwrap();

    assert!(matches!(tokens[0].kind, TokenKind::Comment(_)));
    assert_eq!(tokens[1].kind, TokenKind::Newline);
    assert_eq!(tokens[2].kind, TokenKind::Integer(42));
}
#[test]
fn test_lex_script_example() {
    let source = r#"
        ON ENTER {
            "Welcome!" SAY
        }
    "#;
    let mut lexer = Lexer::new(source);
    let tokens = lexer.tokenize().unwrap();

    // Should contain ON, ENTER, {, String, Ident(SAY), }, EOF
    let kinds: Vec<_> = tokens
        .iter()
        .filter(|t| !matches!(t.kind, TokenKind::Newline))
        .map(|t| &t.kind)
        .collect();

    assert!(matches!(kinds[0], TokenKind::On));
    assert!(matches!(kinds[1], TokenKind::Ident(_)));
    assert!(matches!(kinds[2], TokenKind::LeftBrace));
    assert!(matches!(kinds[3], TokenKind::String(_)));
    assert!(matches!(kinds[4], TokenKind::Ident(_)));
    assert!(matches!(kinds[5], TokenKind::RightBrace));
    assert!(matches!(kinds[6], TokenKind::Eof));
}
#[test]
fn test_unterminated_string() {
    let mut lexer = Lexer::new(r#""unterminated"#);
    let result = lexer.tokenize();
    assert!(matches!(result, Err(LexError::UnterminatedString { .. })));
}
#[test]
fn test_invalid_character() {
    let mut lexer = Lexer::new("@invalid");
    let result = lexer.tokenize();
    assert!(matches!(result, Err(LexError::InvalidCharacter { .. })));
}