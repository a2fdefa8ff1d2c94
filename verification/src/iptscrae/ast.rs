//! The syntax tree of a parsed Iptscrae script.
use vstd::prelude::*;
use crate::iptscrae::events::EventType;
use crate::iptscrae::token::SourcePos;
use crate::iptscrae::value::Value;
use crate::text::copy_string;

verus! {

broadcast use vstd::std_specs::vec::axiom_vec_index_decreases;

/// Top-level script containing event handlers.
#[derive(Debug, Clone, PartialEq)]
pub struct Script {
    pub handlers: Vec<EventHandler>,
}

impl Script {
    /// A script with the given handlers.
    pub fn new(handlers: Vec<EventHandler>) -> (s: Script)
        ensures
            s.handlers == handlers,
    {
        Script { handlers }
    }
}

/// Event handler: `ON eventname { statements }`.
#[derive(Debug, Clone, PartialEq)]
pub struct EventHandler {
    pub event: EventType,
    pub body: Block,
    pub pos: SourcePos,
}

impl EventHandler {
    /// A handler for `event` running `body`, written at `pos`.
    pub fn new(event: EventType, body: Block, pos: SourcePos) -> (h: EventHandler)
        ensures
            h.event == event && h.body == body && h.pos == pos,
    {
        EventHandler { event, body, pos }
    }
}

/// Block of statements.
#[derive(Debug, PartialEq)]
pub struct Block {
    pub statements: Vec<Statement>,
}

/// Whether two blocks are the same tree: statement by statement the same.
pub open spec fn same_block(a: Block, b: Block) -> bool
    decreases a,
{
    &&& a.statements.len() == b.statements.len()
    &&& forall|i: int| 0 <= i < a.statements.len() ==> same_stmt(#[trigger] a.statements[i], b.statements[i])
}

/// Whether two optional blocks are both absent or the same tree.
pub open spec fn same_opt_block(a: Option<Block>, b: Option<Block>) -> bool
    decreases a,
{
    match a {
        Some(x) => b matches Some(y) && same_block(x, y),
        None => b is None,
    }
}

/// Whether two statements are the same tree: the same kind, names,
/// positions and parts.
pub open spec fn same_stmt(a: Statement, b: Statement) -> bool
    decreases a,
{
    match a {
        Statement::Expr(x) => b matches Statement::Expr(y) && same_expr(x, y),
        Statement::Assign { name, pos } => b matches Statement::Assign { name: n2, pos: p2 } && name@ == n2@ && pos == p2,
        Statement::If { condition, then_block, else_block, pos } => b matches Statement::If {
            condition: c2,
            then_block: t2,
            else_block: e2,
            pos: p2,
        } && same_block(condition, c2) && same_block(then_block, t2) && same_opt_block(else_block, e2) && pos == p2,
        Statement::While { condition, body, pos } => b matches Statement::While { condition: c2, body: b2, pos: p2 }
            && same_block(condition, c2) && same_block(body, b2) && pos == p2,
        Statement::Break { pos } => b == Statement::Break { pos },
    }
}

/// Whether two expressions are the same tree: the same kind, names,
/// operators, positions, values (by model) and blocks.
pub open spec fn same_expr(a: Expr, b: Expr) -> bool
    decreases a,
{
    match a {
        Expr::Literal { value, pos } => b matches Expr::Literal { value: v2, pos: p2 } && value.model() == v2.model()
            && pos == p2,
        Expr::Variable { name, pos } => b matches Expr::Variable { name: n2, pos: p2 } && name@ == n2@ && pos == p2,
        Expr::Call { name, pos } => b matches Expr::Call { name: n2, pos: p2 } && name@ == n2@ && pos == p2,
        Expr::BinOp { op, pos } => b == Expr::BinOp { op, pos },
        Expr::UnaryOp { op, pos } => b == Expr::UnaryOp { op, pos },
        Expr::Block(x) => b matches Expr::Block(y) && same_block(x, y),
    }
}

impl Block {
    /// A block of the given statements.
    pub fn new(statements: Vec<Statement>) -> (b: Block)
        ensures
            b.statements == statements,
    {
        Block { statements }
    }

    /// A copy of this block.
    fn duplicate(&self) -> (b: Block)
        ensures
            same_block(*self, b),
        decreases self,
    {
        let mut out: Vec<Statement> = Vec::new();
        let mut i: usize = 0;
        while i < self.statements.len()
            invariant
                i <= self.statements.len(),
                out.len() == i,
                forall|j: int| 0 <= j < i ==> same_stmt(#[trigger] self.statements[j], out[j]),
            decreases self.statements@.len() - i,
        {
            proof {
                assert(decreases_to!(self.statements => self.statements[i as int]));
            }
            out.push(self.statements[i].duplicate());
            i = i + 1;
        }
        Block { statements: out }
    }
}

/// Statement.
#[derive(Debug, PartialEq)]
pub enum Statement {
    /// Expression statement (push values, call functions).
    Expr(Expr),
    /// Variable assignment (`value name =`).
    Assign { name: String, pos: SourcePos },
    /// If statement (condition on the stack, `IF { then } [ELSE { else }]`).
    If { condition: Block, then_block: Block, else_block: Option<Block>, pos: SourcePos },
    /// While loop (condition on the stack, `WHILE { body }`).
    While { condition: Block, body: Block, pos: SourcePos },
    /// Break from loop.
    Break { pos: SourcePos },
}

impl Statement {
    /// A copy of this statement.
    fn duplicate(&self) -> (s: Statement)
        ensures
            same_stmt(*self, s),
        decreases self,
    {
        match self {
            Statement::Expr(e) => Statement::Expr(e.duplicate()),
            Statement::Assign { name, pos } => Statement::Assign { name: copy_string(name), pos: *pos },
            Statement::If { condition, then_block, else_block, pos } => {
                let eb = match else_block {
                    Some(b) => Some(b.duplicate()),
                    None => None,
                };
                Statement::If {
                    condition: condition.duplicate(),
                    then_block: then_block.duplicate(),
                    else_block: eb,
                    pos: *pos,
                }
            },
            Statement::While { condition, body, pos } => Statement::While {
                condition: condition.duplicate(),
                body: body.duplicate(),
                pos: *pos,
            },
            Statement::Break { pos } => Statement::Break { pos: *pos },
        }
    }
}

/// Expression.
#[derive(Debug, PartialEq)]
pub enum Expr {
    /// Literal value.
    Literal { value: Value, pos: SourcePos },
    /// Variable reference (pushes the variable's value).
    Variable { name: String, pos: SourcePos },
    /// Call of a built-in function.
    Call { name: String, pos: SourcePos },
    /// Binary operation.
    BinOp { op: BinOp, pos: SourcePos },
    /// Unary operation.
    UnaryOp { op: UnaryOp, pos: SourcePos },
    /// Block expression.
    Block(Block),
}

impl Expr {
    /// A copy of this expression.
    fn duplicate(&self) -> (e: Expr)
        ensures
            same_expr(*self, e),
        decreases self,
    {
        match self {
            Expr::Literal { value, pos } => Expr::Literal { value: value.duplicate(), pos: *pos },
            Expr::Variable { name, pos } => Expr::Variable { name: copy_string(name), pos: *pos },
            Expr::Call { name, pos } => Expr::Call { name: copy_string(name), pos: *pos },
            Expr::BinOp { op, pos } => Expr::BinOp { op: *op, pos: *pos },
            Expr::UnaryOp { op, pos } => Expr::UnaryOp { op: *op, pos: *pos },
            Expr::Block(b) => Expr::Block(b.duplicate()),
        }
    }
}

impl Clone for Block {
    fn clone(&self) -> (c: Block)
        ensures
            same_block(*self, c),
    {
        self.duplicate()
    }
}

impl Clone for Statement {
    fn clone(&self) -> (c: Statement)
        ensures
            same_stmt(*self, c),
    {
        self.duplicate()
    }
}

impl Clone for Expr {
    fn clone(&self) -> (c: Expr)
        ensures
            same_expr(*self, c),
    {
        self.duplicate()
    }
}

/// Binary operators.
#[derive(Debug, Clone, Copy, PartialEq, Eq)]
pub enum BinOp {
    Add,
    Sub,
    Mul,
    Div,
    Mod,
    Eq,
    NotEq,
    Less,
    Greater,
    LessEq,
    GreaterEq,
    And,
    Or,
    Xor,
    Concat,
}

/// Unary operators.
#[derive(Debug, Clone, Copy, PartialEq, Eq)]
pub enum UnaryOp {
    Neg,
    Not,
}

/// How an operator is written in a script.
pub open spec fn binop_symbol(op: BinOp) -> Seq<char> {
    match op {
        BinOp::Add => "+"@,
        BinOp::Sub => "-"@,
        BinOp::Mul => "*"@,
        BinOp::Div => "/"@,
        BinOp::Mod => "%"@,
        BinOp::Eq => "=="@,
        BinOp::NotEq => "!="@,
        BinOp::Less => "<"@,
        BinOp::Greater => ">"@,
        BinOp::LessEq => "<="@,
        BinOp::GreaterEq => ">="@,
        BinOp::And => "AND"@,
        BinOp::Or => "OR"@,
        BinOp::Xor => "XOR"@,
        BinOp::Concat => "&"@,
    }
}

/// The binding strength of an operator: 1 for OR and XOR, 2 for AND, 3 for
/// equality, 4 for ordering, 5 for addition, subtraction and concatenation,
/// 6 for multiplication, division and remainder.
pub open spec fn spec_precedence(op: BinOp) -> u8 {
    match op {
        BinOp::Or | BinOp::Xor => 1,
        BinOp::And => 2,
        BinOp::Eq | BinOp::NotEq => 3,
        BinOp::Less | BinOp::Greater | BinOp::LessEq | BinOp::GreaterEq => 4,
        BinOp::Add | BinOp::Sub | BinOp::Concat => 5,
        BinOp::Mul | BinOp::Div | BinOp::Mod => 6,
    }
}

impl BinOp {
    /// Precedence level (higher binds tighter).
    pub fn precedence(self) -> (p: u8)
        ensures
            p == spec_precedence(self),
    {
        match self {
            BinOp::Or | BinOp::Xor => 1,
            BinOp::And => 2,
            BinOp::Eq | BinOp::NotEq => 3,
            BinOp::Less | BinOp::Greater | BinOp::LessEq | BinOp::GreaterEq => 4,
            BinOp::Add | BinOp::Sub | BinOp::Concat => 5,
            BinOp::Mul | BinOp::Div | BinOp::Mod => 6,
        }
    }
}

} // verus!
