use thepalace::iptscrae::{BinOp, Block, EventHandler, EventType, Expr, Script, SourcePos, Value};

#[test]
fn test_script_creation() {
    let handler = EventHandler::new(EventType::Enter, Block::new(vec![]), SourcePos::new(1, 1));
    let script = Script::new(vec![handler.clone()]);
    assert_eq!(script.handlers.len(), 1);
    assert_eq!(script.handlers[0], handler);
}
#[test]
fn test_binop_precedence() {
    assert!(BinOp::Mul.precedence() > BinOp::Add.precedence());
    assert!(BinOp::Add.precedence() > BinOp::Eq.precedence());
    assert!(BinOp::Eq.precedence() > BinOp::And.precedence());
    assert!(BinOp::And.precedence() > BinOp::Or.precedence());
}
#[test]
fn test_expr_types() {
    let lit = Expr::Literal {
        value: Value::Integer(42),
        pos: SourcePos::new(1, 1),
    };
    assert!(matches!(lit, Expr::Literal { .. }));

    let var = Expr::Variable {
        name: "test".to_string(),
        pos: SourcePos::new(1, 1),
    };
    assert!(matches!(var, Expr::Variable { .. }));
}