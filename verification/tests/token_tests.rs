use thepalace::iptscrae::{SourcePos, Token, TokenKind};

#[test]
fn test_keyword_detection() {
    assert!(TokenKind::On.is_keyword());
    assert!(TokenKind::If.is_keyword());
    assert!(!TokenKind::Ident("test".to_string()).is_keyword());
}
#[test]
fn test_from_ident() {
    assert_eq!(TokenKind::from_ident("ON"), TokenKind::On);
    assert_eq!(TokenKind::from_ident("on"), TokenKind::On);
    assert_eq!(TokenKind::from_ident("IF"), TokenKind::If);
    assert_eq!(
        TokenKind::from_ident("test"),
        TokenKind::Ident("test".to_string())
    );
}
#[test]
fn test_source_pos() {
    let pos = SourcePos::new(1, 5);
    assert_eq!(pos.line, 1);
    assert_eq!(pos.column, 5);
}