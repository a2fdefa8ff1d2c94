//! The Iptscrae parser: tokens to a syntax tree.
//!
//! Iptscrae is stack based: most expressions push values, and operations
//! consume them. A script is a sequence of `ON event { ... }` handlers;
//! `IF` and `WHILE` take their condition from the stack.
use vstd::prelude::*;
use crate::iptscrae::ast::{binop_symbol, BinOp, Block, EventHandler, Expr, Script, Statement};
use crate::iptscrae::events::{event_of_upper, EventType};
use crate::iptscrae::lexer::operator_at;
use crate::iptscrae::token::{kind_tag, SourcePos, Token, TokenKind};
use crate::iptscrae::value::Value;
use crate::text::{
    copy_string, decimal, i32_chars, is_numeric, is_uppercase, numeric_char, push_char, push_str, str_chars,
    string_from, upper_text, uppercase_char,
};

verus! {

broadcast use vstd::seq_lib::group_seq_properties;

/// Parser error types.
#[derive(Debug, Clone, PartialEq, Eq)]
pub enum ParseError {
    UnexpectedToken { expected: String, found: String, pos: SourcePos },
    UnexpectedEof { expected: String },
    InvalidEventName { name: String, pos: SourcePos },
}

/// Whether an identifier names a built-in call rather than a variable: all
/// its characters are uppercase, `_` or numeric.
pub open spec fn is_call_name(s: Seq<char>) -> bool {
    forall|i: int| 0 <= i < s.len() ==> uppercase_char(#[trigger] s[i]) || s[i] == '_' || numeric_char(s[i])
}

/// The binary operator that a token stands for in an expression.
pub open spec fn token_binop(k: TokenKind) -> Option<BinOp> {
    match k {
        TokenKind::Plus => Some(BinOp::Add),
        TokenKind::Minus => Some(BinOp::Sub),
        TokenKind::Star => Some(BinOp::Mul),
        TokenKind::Slash => Some(BinOp::Div),
        TokenKind::Percent => Some(BinOp::Mod),
        TokenKind::Ampersand => Some(BinOp::Concat),
        TokenKind::NotEquals => Some(BinOp::NotEq),
        TokenKind::Less => Some(BinOp::Less),
        TokenKind::Greater => Some(BinOp::Greater),
        TokenKind::LessEq => Some(BinOp::LessEq),
        TokenKind::GreaterEq => Some(BinOp::GreaterEq),
        _ => None,
    }
}

/// Each operator token stands for the operator written the same way:
/// `+`, `-`, `*`, `/`, `%`, `&`, `!=`, `<`, `>`, `<=` and `>=` give the
/// operators with those symbols, and no other token gives an operator.
pub proof fn lemma_operator_tokens(k: TokenKind)
    ensures
        token_binop(k) matches Some(op) ==> token_text(k) == binop_symbol(op),
        (k is Plus || k is Minus || k is Star || k is Slash || k is Percent || k is Ampersand || k is NotEquals
            || k is Less || k is Greater || k is LessEq || k is GreaterEq) <==> token_binop(k) is Some,
{
}

/// The operator or delimiter token with the given kind number.
pub open spec fn operator_kind(tag: int) -> TokenKind {
    if tag == 33 { TokenKind::Plus }
    else if tag == 34 { TokenKind::Minus }
    else if tag == 35 { TokenKind::Star }
    else if tag == 36 { TokenKind::Slash }
    else if tag == 37 { TokenKind::Percent }
    else if tag == 38 { TokenKind::Ampersand }
    else if tag == 39 { TokenKind::Equals }
    else if tag == 40 { TokenKind::NotEquals }
    else if tag == 41 { TokenKind::Less }
    else if tag == 42 { TokenKind::Greater }
    else if tag == 43 { TokenKind::LessEq }
    else if tag == 44 { TokenKind::GreaterEq }
    else if tag == 45 { TokenKind::LeftBrace }
    else if tag == 46 { TokenKind::RightBrace }
    else if tag == 47 { TokenKind::LeftParen }
    else if tag == 48 { TokenKind::RightParen }
    else if tag == 49 { TokenKind::Comma }
    else { TokenKind::Eof }
}

/// The lexer reads an operator or delimiter as the token written with
/// exactly the characters it covers: `>=` is `GreaterEq`, `>` alone is
/// `Greater`, and so on.
pub proof fn lemma_operator_lexing(s: Seq<char>, p: int)
    requires
        0 <= p < s.len(),
    ensures
        operator_at(s, p) matches Some((tag, n)) ==> kind_tag(operator_kind(tag)) == tag && p + n <= s.len()
            && s.subrange(p, p + n) == token_text(operator_kind(tag)),
{
    reveal_strlit("+");
    reveal_strlit("-");
    reveal_strlit("*");
    reveal_strlit("/");
    reveal_strlit("%");
    reveal_strlit("&");
    reveal_strlit("=");
    reveal_strlit("!=");
    reveal_strlit("<");
    reveal_strlit(">");
    reveal_strlit("<=");
    reveal_strlit(">=");
    reveal_strlit("{");
    reveal_strlit("}");
    reveal_strlit("(");
    reveal_strlit(")");
    reveal_strlit(",");
    if let Some((tag, n)) = operator_at(s, p) {
        assert(s.subrange(p, p + n) =~= token_text(operator_kind(tag)));
    }
}

/// Whether a token sequence can be parsed without reading past its end:
/// it is empty or ends with the end marker.
pub open spec fn tokens_ok(ts: Seq<Token>) -> bool {
    ts.len() == 0 || ts.last().kind is Eof
}

/// How an error message describes a token.
pub open spec fn token_text(k: TokenKind) -> Seq<char> {
    match k {
        TokenKind::Integer(n) => "integer "@ + decimal(n as int),
        TokenKind::String(t) => "string \""@ + t@ + seq!['"'],
        TokenKind::Ident(t) => "identifier '"@ + t@ + seq!['\''],
        TokenKind::On => "ON"@,
        TokenKind::If => "IF"@,
        TokenKind::Else => "ELSE"@,
        TokenKind::While => "WHILE"@,
        TokenKind::Do => "DO"@,
        TokenKind::Break => "BREAK"@,
        TokenKind::Room => "ROOM"@,
        TokenKind::EndRoom => "ENDROOM"@,
        TokenKind::Door => "DOOR"@,
        TokenKind::EndDoor => "ENDDOOR"@,
        TokenKind::Spot => "SPOT"@,
        TokenKind::EndSpot => "ENDSPOT"@,
        TokenKind::Script => "SCRIPT"@,
        TokenKind::EndScript => "ENDSCRIPT"@,
        TokenKind::Id => "ID"@,
        TokenKind::Name => "NAME"@,
        TokenKind::Pict => "PICT"@,
        TokenKind::Artist => "ARTIST"@,
        TokenKind::Dest => "DEST"@,
        TokenKind::Outline => "OUTLINE"@,
        TokenKind::Picts => "PICTS"@,
        TokenKind::EndPicts => "ENDPICTS"@,
        TokenKind::Picture => "PICTURE"@,
        TokenKind::EndPicture => "ENDPICTURE"@,
        TokenKind::TransColor => "TRANSCOLOR"@,
        TokenKind::Private => "PRIVATE"@,
        TokenKind::NoPainting => "NOPAINTING"@,
        TokenKind::NoCyborgs => "NOCYBORGS"@,
        TokenKind::Hidden => "HIDDEN"@,
        TokenKind::NoGuests => "NOGUESTS"@,
        TokenKind::Plus => "+"@,
        TokenKind::Minus => "-"@,
        TokenKind::Star => "*"@,
        TokenKind::Slash => "/"@,
        TokenKind::Percent => "%"@,
        TokenKind::Ampersand => "&"@,
        TokenKind::Equals => "="@,
        TokenKind::NotEquals => "!="@,
        TokenKind::Less => "<"@,
        TokenKind::Greater => ">"@,
        TokenKind::LessEq => "<="@,
        TokenKind::GreaterEq => ">="@,
        TokenKind::LeftBrace => "{"@,
        TokenKind::RightBrace => "}"@,
        TokenKind::LeftParen => "("@,
        TokenKind::RightParen => ")"@,
        TokenKind::Comma => ","@,
        TokenKind::Comment(_) => "comment"@,
        TokenKind::Newline => "newline"@,
        TokenKind::Eof => "end of file"@,
    }
}

// ---------------------------------------------------------------------------
// What the parser does, by token index
// ---------------------------------------------------------------------------

/// Why parsing stops: a token that was not expected (what was expected,
/// and the token's index), the end of the tokens (what was expected), or
/// an event name that names no event (the index of its `ON`).
pub enum ParseFail {
    Token(Seq<char>, int),
    End(Seq<char>),
    Event(int),
}

/// Whether a parse error is the given failure.
pub open spec fn fail_is(e: ParseError, f: ParseFail, ts: Seq<Token>) -> bool {
    match f {
        ParseFail::Token(x, at) => e matches ParseError::UnexpectedToken { expected, found, pos } && expected@ == x
            && 0 <= at < ts.len() && pos == ts[at].pos && found@ == token_text(ts[at].kind),
        ParseFail::End(x) => e matches ParseError::UnexpectedEof { expected } && expected@ == x,
        ParseFail::Event(at) => e matches ParseError::InvalidEventName { name, pos } && 0 <= at && at + 1 < ts.len()
            && pos == ts[at].pos && match ts[at + 1].kind {
            TokenKind::Ident(s) => name@ == s@,
            _ => false,
        },
    }
}

/// Whether index `i` is at the end: past the tokens or on the end marker.
pub open spec fn at_end(ts: Seq<Token>, i: int) -> bool {
    !(0 <= i < ts.len()) || ts[i].kind is Eof
}

/// Whether the token at `i` is one of the kind with the given tag, short
/// of the end.
pub open spec fn at_kind(ts: Seq<Token>, i: int, tag: int) -> bool {
    !at_end(ts, i) && kind_tag(ts[i].kind) == tag
}

/// The index of the first token at or after `i` that is not a newline.
pub open spec fn skip_nl(ts: Seq<Token>, i: int) -> int
    decreases ts.len() - i,
{
    if 0 <= i < ts.len() && ts[i].kind is Newline {
        skip_nl(ts, i + 1)
    } else {
        i
    }
}

/// The index of the first token at or after `i` that is neither a newline
/// nor a comment.
pub open spec fn skip_ign(ts: Seq<Token>, i: int) -> int
    decreases ts.len() - i,
{
    if 0 <= i < ts.len() && (ts[i].kind is Newline || ts[i].kind is Comment) {
        skip_ign(ts, i + 1)
    } else {
        i
    }
}

/// Skipping newlines moves forward, not past the tokens.
pub proof fn lemma_skip_nl(ts: Seq<Token>, i: int)
    requires
        0 <= i <= ts.len(),
    ensures
        i <= skip_nl(ts, i) <= ts.len(),
        tokens_ok(ts) && i < ts.len() ==> skip_nl(ts, i) < ts.len(),
    decreases ts.len() - i,
{
    if 0 <= i < ts.len() && ts[i].kind is Newline {
        if tokens_ok(ts) && i + 1 == ts.len() {
            assert(ts[i] == ts.last());
        }
        lemma_skip_nl(ts, i + 1);
    }
}

/// Skipping newlines and comments moves forward, not past the tokens.
pub proof fn lemma_skip_ign(ts: Seq<Token>, i: int)
    requires
        0 <= i <= ts.len(),
    ensures
        i <= skip_ign(ts, i) <= ts.len(),
        tokens_ok(ts) && i < ts.len() ==> skip_ign(ts, i) < ts.len(),
    decreases ts.len() - i,
{
    if 0 <= i < ts.len() && (ts[i].kind is Newline || ts[i].kind is Comment) {
        if tokens_ok(ts) && i + 1 == ts.len() {
            assert(ts[i] == ts.last());
        }
        lemma_skip_ign(ts, i + 1);
    }
}

/// Consuming a token of the kind with the given tag at `i`: the index after
/// it, or what was expected.
pub open spec fn consume_at(ts: Seq<Token>, i: int, tag: int, expected: Seq<char>) -> Result<int, ParseFail> {
    if at_kind(ts, i, tag) {
        Ok(i + 1)
    } else if at_end(ts, i) {
        Err(ParseFail::End(expected))
    } else {
        Err(ParseFail::Token(expected, i))
    }
}

/// Where a primary expression starting at `i` ends, or why it fails: a
/// literal, an identifier or an operator is one token; `{` starts a block.
pub open spec fn expr_end(ts: Seq<Token>, i: int) -> Result<int, ParseFail>
    decreases ts.len() - i, 1int,
{
    if !(0 <= i < ts.len()) {
        Err(ParseFail::End(Seq::empty()))
    } else {
        match ts[i].kind {
            TokenKind::Integer(_) => Ok(i + 1),
            TokenKind::String(_) => Ok(i + 1),
            TokenKind::Ident(_) => Ok(i + 1),
            TokenKind::LeftBrace => block_end(ts, i),
            _ => if token_binop(ts[i].kind) is Some {
                Ok(i + 1)
            } else {
                Err(ParseFail::Token("expression"@, i))
            },
        }
    }
}

/// Where a block `{ ... }` starting at `i` ends, or why it fails.
pub open spec fn block_end(ts: Seq<Token>, i: int) -> Result<int, ParseFail>
    decreases ts.len() - i, 0int,
{
    match consume_at(ts, i, 45, "{"@) {
        Err(f) => Err(f),
        Ok(j) => {
            proof {
                lemma_skip_nl(ts, j);
            }
            match stmts_end(ts, skip_nl(ts, j)) {
                Err(f) => Err(f),
                Ok(k) => consume_at(ts, k, 46, "}"@),
            }
        },
    }
}

/// Where the statements of a block end (at its `}` or the end), starting
/// at `p`, or why one fails. A statement ends past `p` and within the
/// tokens.
pub open spec fn stmts_end(ts: Seq<Token>, p: int) -> Result<int, ParseFail>
    decreases ts.len() - p, 3int,
{
    if at_end(ts, p) || at_kind(ts, p, 46) {
        Ok(p)
    } else {
        proof {
            lemma_skip_ign(ts, p);
        }
        let q = skip_ign(ts, p);
        if at_kind(ts, q, 46) {
            Ok(q)
        } else {
            match stmt_end(ts, q) {
                Err(f) => Err(f),
                Ok(r) => if p < r <= ts.len() {
                    proof {
                        lemma_skip_nl(ts, r);
                    }
                    stmts_end(ts, skip_nl(ts, r))
                } else {
                    Err(ParseFail::End(Seq::empty()))
                },
            }
        }
    }
}

/// Where a statement starting at `q` ends, or why it fails: `IF`,
/// `WHILE`, `BREAK`, or an expression, possibly followed by `=`.
pub open spec fn stmt_end(ts: Seq<Token>, q: int) -> Result<int, ParseFail>
    decreases ts.len() - q, 2int,
{
    if !(0 <= q < ts.len()) {
        Err(ParseFail::End(Seq::empty()))
    } else if at_kind(ts, q, 4) {
        if_end(ts, q)
    } else if at_kind(ts, q, 6) {
        while_end(ts, q)
    } else if at_kind(ts, q, 8) {
        Ok(q + 1)
    } else {
        match expr_end(ts, q) {
            Err(f) => Err(f),
            Ok(r) => if at_kind(ts, r, 39) { Ok(r + 1) } else { Ok(r) },
        }
    }
}

/// Where `IF { ... }`, with an optional `ELSE { ... }`, starting at `q`
/// ends (past the newlines after the first block), or why it fails.
pub open spec fn if_end(ts: Seq<Token>, q: int) -> Result<int, ParseFail>
    decreases ts.len() - q, 1int,
{
    match consume_at(ts, q, 4, "IF"@) {
        Err(f) => Err(f),
        Ok(j) => {
            proof {
                lemma_skip_nl(ts, j);
            }
            match block_end(ts, skip_nl(ts, j)) {
                Err(f) => Err(f),
                Ok(r1) => if q < r1 <= ts.len() {
                    proof {
                        lemma_skip_nl(ts, r1);
                    }
                    let r2 = skip_nl(ts, r1);
                    if at_kind(ts, r2, 5) {
                        proof {
                            lemma_skip_nl(ts, r2 + 1);
                        }
                        block_end(ts, skip_nl(ts, r2 + 1))
                    } else {
                        Ok(r2)
                    }
                } else {
                    Err(ParseFail::End(Seq::empty()))
                },
            }
        },
    }
}

/// Where `WHILE { ... }` starting at `q` ends, or why it fails.
pub open spec fn while_end(ts: Seq<Token>, q: int) -> Result<int, ParseFail>
    decreases ts.len() - q, 1int,
{
    match consume_at(ts, q, 6, "WHILE"@) {
        Err(f) => Err(f),
        Ok(j) => {
            proof {
                lemma_skip_nl(ts, j);
            }
            block_end(ts, skip_nl(ts, j))
        },
    }
}

/// Whether `e` is the primary expression parsed at `i`.
pub open spec fn expr_tree(ts: Seq<Token>, i: int, e: Expr) -> bool
    decreases ts.len() - i, 1int,
{
    &&& 0 <= i < ts.len()
    &&& match ts[i].kind {
        TokenKind::Integer(n) => e == Expr::Literal { value: Value::Integer(n), pos: ts[i].pos },
        TokenKind::String(t) => e matches Expr::Literal { value: Value::String(v), pos } && v@ == t@ && pos
            == ts[i].pos,
        TokenKind::Ident(t) => if is_call_name(t@) {
            e matches Expr::Call { name, pos } && name@ == t@ && pos == ts[i].pos
        } else {
            e matches Expr::Variable { name, pos } && name@ == t@ && pos == ts[i].pos
        },
        TokenKind::LeftBrace => e matches Expr::Block(b) && block_tree(ts, i, b),
        _ => token_binop(ts[i].kind) matches Some(op) && e == Expr::BinOp { op, pos: ts[i].pos },
    }
}

/// Whether `b` is the block parsed at `i`.
pub open spec fn block_tree(ts: Seq<Token>, i: int, b: Block) -> bool
    decreases ts.len() - i, 0int,
{
    &&& at_kind(ts, i, 45)
    &&& {
        proof {
            lemma_skip_nl(ts, i + 1);
        }
        stmts_tree(ts, skip_nl(ts, i + 1), b.statements@)
    }
}

/// Whether `ss` are the statements of a block parsed from `p` on.
pub open spec fn stmts_tree(ts: Seq<Token>, p: int, ss: Seq<Statement>) -> bool
    decreases ts.len() - p, 3int,
{
    if at_end(ts, p) || at_kind(ts, p, 46) {
        ss.len() == 0
    } else {
        proof {
            lemma_skip_ign(ts, p);
        }
        let q = skip_ign(ts, p);
        if at_kind(ts, q, 46) {
            ss.len() == 0
        } else {
            &&& ss.len() > 0
            &&& stmt_tree(ts, q, ss[0])
            &&& match stmt_end(ts, q) {
                Ok(r) => p < r <= ts.len() && {
                    proof {
                        lemma_skip_nl(ts, r);
                    }
                    stmts_tree(ts, skip_nl(ts, r), ss.drop_first())
                },
                Err(_) => false,
            }
        }
    }
}

/// Whether `st` is the statement parsed at `q`. An expression that is a
/// variable followed by `=` is an assignment to it; `IF` and `WHILE` take
/// their condition from the stack, so their condition blocks are empty.
pub open spec fn stmt_tree(ts: Seq<Token>, q: int, st: Statement) -> bool
    decreases ts.len() - q, 2int,
{
    &&& 0 <= q < ts.len()
    &&& if at_kind(ts, q, 4) {
        st matches Statement::If { condition, then_block, else_block, pos } && condition.statements@.len() == 0
            && pos == ts[q].pos && if_tree(ts, q, then_block, else_block)
    } else if at_kind(ts, q, 6) {
        st matches Statement::While { condition, body, pos } && condition.statements@.len() == 0 && pos
            == ts[q].pos && {
            proof {
                lemma_skip_nl(ts, q + 1);
            }
            block_tree(ts, skip_nl(ts, q + 1), body)
        }
    } else if at_kind(ts, q, 8) {
        st == Statement::Break { pos: ts[q].pos }
    } else {
        match expr_end(ts, q) {
            Ok(r) => {
                let assigns = at_kind(ts, r, 39) && match ts[q].kind {
                    TokenKind::Ident(t) => !is_call_name(t@),
                    _ => false,
                };
                if assigns {
                    st matches Statement::Assign { name, pos } && pos == ts[q].pos && match ts[q].kind {
                        TokenKind::Ident(t) => name@ == t@,
                        _ => false,
                    }
                } else {
                    st matches Statement::Expr(e) && expr_tree(ts, q, e)
                }
            },
            Err(_) => false,
        }
    }
}

/// Whether `then_block` and `else_block` are the blocks of the `IF` at `q`.
pub open spec fn if_tree(ts: Seq<Token>, q: int, then_block: Block, else_block: Option<Block>) -> bool
    decreases ts.len() - q, 1int,
{
    &&& 0 <= q < ts.len()
    &&& {
        proof {
            lemma_skip_nl(ts, q + 1);
        }
        let a = skip_nl(ts, q + 1);
        &&& block_tree(ts, a, then_block)
        &&& match block_end(ts, a) {
            Ok(r1) => q < r1 <= ts.len() && {
                proof {
                    lemma_skip_nl(ts, r1);
                }
                let r2 = skip_nl(ts, r1);
                if at_kind(ts, r2, 5) {
                    else_block matches Some(eb) && {
                        proof {
                            lemma_skip_nl(ts, r2 + 1);
                        }
                        block_tree(ts, skip_nl(ts, r2 + 1), eb)
                    }
                } else {
                    else_block is None
                }
            },
            Err(_) => false,
        }
    }
}

/// Where an event handler `ON name { ... }` starting at `i` ends, or why it
/// fails.
pub open spec fn handler_end(ts: Seq<Token>, i: int) -> Result<int, ParseFail> {
    match consume_at(ts, i, 3, "ON"@) {
        Err(f) => Err(f),
        Ok(j) => if !(j < ts.len()) {
            Err(ParseFail::End(Seq::empty()))
        } else {
            match ts[j].kind {
                TokenKind::Ident(name) => if event_of_upper(upper_text(name@)) is None {
                    Err(ParseFail::Event(i))
                } else {
                    block_end(ts, skip_nl(ts, j + 1))
                },
                _ => Err(ParseFail::Token("event name"@, j)),
            }
        },
    }
}

/// Whether `h` is the event handler parsed at `i`.
pub open spec fn handler_tree(ts: Seq<Token>, i: int, h: EventHandler) -> bool {
    &&& 0 <= i && i + 1 < ts.len()
    &&& ts[i].kind is On
    &&& h.pos == ts[i].pos
    &&& ts[i + 1].kind matches TokenKind::Ident(name) && event_of_upper(upper_text(name@)) == Some(h.event)
    &&& block_tree(ts, skip_nl(ts, i + 2), h.body)
}

/// Whether the handlers from `p` on parse, or why they fail: at `p` the
/// end, newlines or comments, or a handler.
pub open spec fn script_end(ts: Seq<Token>, p: int) -> Result<(), ParseFail>
    decreases ts.len() - p,
{
    if at_end(ts, p) {
        Ok(())
    } else {
        proof {
            lemma_skip_ign(ts, p);
        }
        let q = skip_ign(ts, p);
        if q > p {
            script_end(ts, q)
        } else if at_kind(ts, p, 3) {
            match handler_end(ts, p) {
                Err(f) => Err(f),
                Ok(r) => if p < r <= ts.len() {
                    proof {
                        lemma_skip_nl(ts, r);
                    }
                    script_end(ts, skip_nl(ts, r))
                } else {
                    Err(ParseFail::End(Seq::empty()))
                },
            }
        } else {
            Err(ParseFail::Token("ON or end of file"@, p))
        }
    }
}

/// Whether `hs` are the handlers parsed from `p` on.
pub open spec fn script_tree(ts: Seq<Token>, p: int, hs: Seq<EventHandler>) -> bool
    decreases ts.len() - p,
{
    if at_end(ts, p) {
        hs.len() == 0
    } else {
        proof {
            lemma_skip_ign(ts, p);
        }
        let q = skip_ign(ts, p);
        if q > p {
            script_tree(ts, q, hs)
        } else {
            &&& hs.len() > 0
            &&& handler_tree(ts, p, hs[0])
            &&& match handler_end(ts, p) {
                Ok(r) => p < r <= ts.len() && {
                    proof {
                        lemma_skip_nl(ts, r);
                    }
                    script_tree(ts, skip_nl(ts, r), hs.drop_first())
                },
                Err(_) => false,
            }
        }
    }
}

/// Parser for Iptscrae source code.
pub struct Parser {
    tokens: Vec<Token>,
    position: usize,
}

impl Parser {
    /// The tokens being parsed.
    pub closed spec fn tokens(&self) -> Seq<Token> {
        self.tokens@
    }

    /// The index of the next token.
    pub closed spec fn pos(&self) -> int {
        self.position as int
    }

    /// The parser's invariant: with any tokens, it stands on one of them,
    /// and the last token is the end marker.
    pub closed spec fn wf(&self) -> bool {
        tokens_ok(self.tokens@) && (self.tokens.len() == 0 || self.position < self.tokens.len())
    }

    /// A parser at the first of the given tokens.
    pub fn new(tokens: Vec<Token>) -> (p: Parser)
        ensures
            p.tokens() == tokens@,
            p.pos() == 0,
            tokens_ok(tokens@) ==> p.wf(),
    {
        Parser { tokens, position: 0 }
    }

    fn is_at_end(&self) -> (b: bool)
        requires
            self.wf(),
        ensures
            b == (self.tokens@.len() == 0 || self.tokens@[self.position as int].kind is Eof),
    {
        if self.position >= self.tokens.len() {
            return true;
        }
        match self.tokens[self.position].kind {
            TokenKind::Eof => true,
            _ => false,
        }
    }

    fn current(&self) -> (t: &Token)
        requires
            self.wf(),
            self.tokens@.len() > 0,
        ensures
            *t == self.tokens@[self.position as int],
    {
        &self.tokens[self.position]
    }

    fn advance(&mut self)
        requires
            old(self).wf(),
        ensures
            final(self).wf(),
            final(self).tokens == old(self).tokens,
            final(self).position == (if old(self).tokens@.len() == 0
                || old(self).tokens@[old(self).position as int].kind is Eof {
                old(self).position
            } else {
                (old(self).position + 1) as usize
            }),
    {
        if !self.is_at_end() {
            assert(self.position + 1 < self.tokens@.len()) by {
                if self.position + 1 >= self.tokens@.len() {
                    assert(self.tokens@[self.position as int] == self.tokens@.last());
                }
            }
            self.position = self.position + 1;
        }
    }

    fn check(&self, kind: &TokenKind) -> (b: bool)
        requires
            self.wf(),
        ensures
            b == (self.tokens@.len() > 0 && !(self.tokens@[self.position as int].kind is Eof)
                && kind_tag(self.tokens@[self.position as int].kind) == kind_tag(*kind)),
    {
        if self.is_at_end() {
            return false;
        }
        self.current().kind.same_kind(kind)
    }

    fn at_newline(&self) -> (b: bool)
        requires
            self.wf(),
        ensures
            b == (self.tokens@.len() > 0 && self.tokens@[self.position as int].kind is Newline),
    {
        if self.is_at_end() {
            return false;
        }
        match self.current().kind {
            TokenKind::Newline => true,
            _ => false,
        }
    }

    fn at_ignorable(&self) -> (b: bool)
        requires
            self.wf(),
        ensures
            b == (self.tokens@.len() > 0 && (self.tokens@[self.position as int].kind is Newline
                || self.tokens@[self.position as int].kind is Comment)),
    {
        if self.is_at_end() {
            return false;
        }
        match self.current().kind {
            TokenKind::Newline | TokenKind::Comment(_) => true,
            _ => false,
        }
    }

    fn skip_newlines(&mut self)
        requires
            old(self).wf(),
        ensures
            final(self).wf(),
            final(self).tokens == old(self).tokens,
            old(self).position <= final(self).position,
            final(self).tokens@.len() > 0 ==> !(final(self).tokens@[final(self).position as int].kind is Newline),
            final(self).position == skip_nl(old(self).tokens@, old(self).position as int),
    {
        while self.at_newline()
            invariant
                self.wf(),
                self.tokens == old(self).tokens,
                old(self).position <= self.position,
                skip_nl(self.tokens@, self.position as int) == skip_nl(
                    old(self).tokens@,
                    old(self).position as int,
                ),
            decreases self.tokens@.len() - self.position,
        {
            self.advance();
        }
    }

    fn skip_ignorable(&mut self) -> (skipped: bool)
        requires
            old(self).wf(),
        ensures
            final(self).wf(),
            final(self).tokens == old(self).tokens,
            old(self).position <= final(self).position,
            skipped == (old(self).position < final(self).position),
            final(self).position == skip_ign(old(self).tokens@, old(self).position as int),
    {
        let mut skipped = false;
        while self.at_ignorable()
            invariant
                self.wf(),
                self.tokens == old(self).tokens,
                old(self).position <= self.position,
                skipped == (old(self).position < self.position),
                skip_ign(self.tokens@, self.position as int) == skip_ign(
                    old(self).tokens@,
                    old(self).position as int,
                ),
            decreases self.tokens@.len() - self.position,
        {
            self.advance();
            skipped = true;
        }
        skipped
    }

    /// A description of a token for error messages.
    pub(crate) fn token_description(kind: &TokenKind) -> (s: String)
        ensures
            s@ == token_text(*kind),
    {
        let mut s = String::new();
        match kind {
            TokenKind::Integer(n) => {
                push_str(&mut s, "integer ");
                let cs = i32_chars(*n);
                let ghost head = s@;
                let mut i: usize = 0;
                while i < cs.len()
                    invariant
                        i <= cs@.len(),
                        s@ == head + cs@.subrange(0, i as int),
                    decreases cs@.len() - i,
                {
                    push_char(&mut s, cs[i]);
                    i = i + 1;
                    assert(s@ =~= head + cs@.subrange(0, i as int));
                }
                assert(cs@.subrange(0, cs@.len() as int) =~= cs@);
            },
            TokenKind::String(t) => {
                push_str(&mut s, "string \"");
                push_str(&mut s, t.as_str());
                push_char(&mut s, '"');
            },
            TokenKind::Ident(t) => {
                push_str(&mut s, "identifier '");
                push_str(&mut s, t.as_str());
                push_char(&mut s, '\'');
            },
            TokenKind::On => push_str(&mut s, "ON"),
            TokenKind::If => push_str(&mut s, "IF"),
            TokenKind::Else => push_str(&mut s, "ELSE"),
            TokenKind::While => push_str(&mut s, "WHILE"),
            TokenKind::Do => push_str(&mut s, "DO"),
            TokenKind::Break => push_str(&mut s, "BREAK"),
            TokenKind::Room => push_str(&mut s, "ROOM"),
            TokenKind::EndRoom => push_str(&mut s, "ENDROOM"),
            TokenKind::Door => push_str(&mut s, "DOOR"),
            TokenKind::EndDoor => push_str(&mut s, "ENDDOOR"),
            TokenKind::Spot => push_str(&mut s, "SPOT"),
            TokenKind::EndSpot => push_str(&mut s, "ENDSPOT"),
            TokenKind::Script => push_str(&mut s, "SCRIPT"),
            TokenKind::EndScript => push_str(&mut s, "ENDSCRIPT"),
            TokenKind::Id => push_str(&mut s, "ID"),
            TokenKind::Name => push_str(&mut s, "NAME"),
            TokenKind::Pict => push_str(&mut s, "PICT"),
            TokenKind::Artist => push_str(&mut s, "ARTIST"),
            TokenKind::Dest => push_str(&mut s, "DEST"),
            TokenKind::Outline => push_str(&mut s, "OUTLINE"),
            TokenKind::Picts => push_str(&mut s, "PICTS"),
            TokenKind::EndPicts => push_str(&mut s, "ENDPICTS"),
            TokenKind::Picture => push_str(&mut s, "PICTURE"),
            TokenKind::EndPicture => push_str(&mut s, "ENDPICTURE"),
            TokenKind::TransColor => push_str(&mut s, "TRANSCOLOR"),
            TokenKind::Private => push_str(&mut s, "PRIVATE"),
            TokenKind::NoPainting => push_str(&mut s, "NOPAINTING"),
            TokenKind::NoCyborgs => push_str(&mut s, "NOCYBORGS"),
            TokenKind::Hidden => push_str(&mut s, "HIDDEN"),
            TokenKind::NoGuests => push_str(&mut s, "NOGUESTS"),
            TokenKind::Plus => push_str(&mut s, "+"),
            TokenKind::Minus => push_str(&mut s, "-"),
            TokenKind::Star => push_str(&mut s, "*"),
            TokenKind::Slash => push_str(&mut s, "/"),
            TokenKind::Percent => push_str(&mut s, "%"),
            TokenKind::Ampersand => push_str(&mut s, "&"),
            TokenKind::Equals => push_str(&mut s, "="),
            TokenKind::NotEquals => push_str(&mut s, "!="),
            TokenKind::Less => push_str(&mut s, "<"),
            TokenKind::Greater => push_str(&mut s, ">"),
            TokenKind::LessEq => push_str(&mut s, "<="),
            TokenKind::GreaterEq => push_str(&mut s, ">="),
            TokenKind::LeftBrace => push_str(&mut s, "{"),
            TokenKind::RightBrace => push_str(&mut s, "}"),
            TokenKind::LeftParen => push_str(&mut s, "("),
            TokenKind::RightParen => push_str(&mut s, ")"),
            TokenKind::Comma => push_str(&mut s, ","),
            TokenKind::Comment(_) => push_str(&mut s, "comment"),
            TokenKind::Newline => push_str(&mut s, "newline"),
            TokenKind::Eof => push_str(&mut s, "end of file"),
        }
        s
    }

    fn unexpected(&self, expected: &str) -> (e: ParseError)
        requires
            self.wf(),
            self.tokens@.len() > 0,
        ensures
            e matches ParseError::UnexpectedToken { expected: x, found, pos }
                && x@ == expected@ && pos == self.tokens@[self.position as int].pos
                && found@ == token_text(self.tokens@[self.position as int].kind),
    {
        let tok = self.current();
        ParseError::UnexpectedToken {
            expected: string_from(expected),
            found: Self::token_description(&tok.kind),
            pos: tok.pos,
        }
    }

    fn consume(&mut self, kind: &TokenKind, expected: &str) -> (r: Result<(), ParseError>)
        requires
            old(self).wf(),
        ensures
            final(self).wf(),
            final(self).tokens == old(self).tokens,
            old(self).position <= final(self).position,
            (r is Ok) == (old(self).tokens@.len() > 0
                && !(old(self).tokens@[old(self).position as int].kind is Eof)
                && kind_tag(old(self).tokens@[old(self).position as int].kind) == kind_tag(*kind)),
            r is Ok ==> final(self).position == old(self).position + 1,
            match consume_at(old(self).tokens@, old(self).position as int, kind_tag(*kind), expected@) {
                Ok(j) => r is Ok && final(self).position == j,
                Err(f) => r matches Err(e) && fail_is(e, f, old(self).tokens@),
            },
    {
        if self.check(kind) {
            self.advance();
            Ok(())
        } else if self.is_at_end() {
            Err(ParseError::UnexpectedEof { expected: string_from(expected) })
        } else {
            Err(self.unexpected(expected))
        }
    }

    /// Parses the tokens into a script: a sequence of event handlers,
    /// with newlines and comments between them (see `script_end` and
    /// `script_tree`).
    pub fn parse(&mut self) -> (r: Result<Script, ParseError>)
        requires
            old(self).wf(),
        ensures
            final(self).wf(),
            final(self).tokens() == old(self).tokens(),
            match script_end(old(self).tokens(), skip_nl(old(self).tokens(), old(self).pos())) {
                Ok(_) => r matches Ok(script) && script_tree(
                    old(self).tokens(),
                    skip_nl(old(self).tokens(), old(self).pos()),
                    script.handlers@,
                ),
                Err(f) => r matches Err(e) && fail_is(e, f, old(self).tokens()),
            },
    {
        let ghost ts = self.tokens@;
        let mut handlers: Vec<EventHandler> = Vec::new();
        self.skip_newlines();
        let ghost p0 = self.position as int;
        while !self.is_at_end()
            invariant
                self.wf(),
                self.tokens == old(self).tokens,
                ts == self.tokens@,
                p0 == skip_nl(ts, old(self).position as int),
                script_end(ts, p0) == script_end(ts, self.position as int),
                forall|hs2: Seq<EventHandler>| #[trigger] script_tree(ts, self.position as int, hs2) ==> script_tree(
                    ts,
                    p0,
                    handlers@ + hs2,
                ),
            ensures
                self.wf(),
                self.tokens == old(self).tokens,
                script_end(ts, p0) == Ok::<(), ParseFail>(()),
                script_tree(ts, self.position as int, Seq::<EventHandler>::empty()),
                forall|hs2: Seq<EventHandler>| #[trigger] script_tree(ts, self.position as int, hs2) ==> script_tree(
                    ts,
                    p0,
                    handlers@ + hs2,
                ),
            decreases self.tokens@.len() - self.position,
        {
            let ghost p = self.position as int;
            if self.skip_ignorable() {
                proof {
                    let q = self.position as int;
                    assert forall|hs2: Seq<EventHandler>| #[trigger] script_tree(ts, q, hs2) implies script_tree(
                        ts,
                        p0,
                        handlers@ + hs2,
                    ) by {
                        assert(script_tree(ts, p, hs2));
                    }
                }
                continue;
            }
            if self.check(&TokenKind::On) {
                let h = match self.parse_event_handler() {
                    Ok(h) => h,
                    Err(e) => {
                        proof {
                            assert(script_end(ts, p) == script_end(ts, p0));
                            assert(handler_end(ts, p) is Err);
                            assert(script_end(ts, p) == Err::<(), ParseFail>(handler_end(ts, p)->Err_0));
                        }
                        return Err(e);
                    },
                };
                let ghost old_handlers = handlers@;
                handlers.push(h);
                self.skip_newlines();
                proof {
                    let r = handler_end(ts, p)->Ok_0;
                    let np = self.position as int;
                    lemma_skip_nl(ts, r);
                    assert forall|hs2: Seq<EventHandler>| #[trigger] script_tree(ts, np, hs2) implies script_tree(
                        ts,
                        p0,
                        handlers@ + hs2,
                    ) by {
                        assert(seq![h] + hs2 =~= (seq![h] + hs2));
                        assert((seq![h] + hs2).drop_first() =~= hs2);
                        assert(script_tree(ts, p, seq![h] + hs2));
                        assert(old_handlers + (seq![h] + hs2) =~= handlers@ + hs2);
                    }
                }
            } else if self.is_at_end() {
                break;
            } else {
                proof {
                    assert(script_end(ts, p) == script_end(ts, p0));
                    assert(script_end(ts, p) == Err::<(), ParseFail>(ParseFail::Token("ON or end of file"@, p)));
                }
                return Err(self.unexpected("ON or end of file"));
            }
        }
        proof {
            assert(handlers@ + Seq::<EventHandler>::empty() =~= handlers@);
        }
        Ok(Script::new(handlers))
    }

    fn parse_event_handler(&mut self) -> (r: Result<EventHandler, ParseError>)
        requires
            old(self).wf(),
            old(self).tokens@.len() > 0,
            old(self).tokens@[old(self).position as int].kind is On,
        ensures
            final(self).wf(),
            final(self).tokens == old(self).tokens,
            old(self).position < final(self).position,
            match handler_end(old(self).tokens@, old(self).position as int) {
                Ok(end) => r matches Ok(h) && handler_tree(old(self).tokens@, old(self).position as int, h)
                    && final(self).position == end,
                Err(f) => r matches Err(e) && fail_is(e, f, old(self).tokens@),
            },
        decreases old(self).tokens@.len() - old(self).position, 3int,
    {
        let pos = self.current().pos;
        self.consume(&TokenKind::On, "ON")?;
        let name = match &self.current().kind {
            TokenKind::Ident(name) => copy_string(name),
            _ => {
                return Err(self.unexpected("event name"));
            },
        };
        self.advance();
        let event = match EventType::from_name(name.as_str()) {
            Some(e) => e,
            None => {
                return Err(ParseError::InvalidEventName { name, pos });
            },
        };
        self.skip_newlines();
        let body = self.parse_block()?;
        Ok(EventHandler::new(event, body, pos))
    }

    fn parse_block(&mut self) -> (r: Result<Block, ParseError>)
        requires
            old(self).wf(),
            old(self).tokens@.len() > 0,
        ensures
            final(self).wf(),
            final(self).tokens == old(self).tokens,
            old(self).position <= final(self).position,
            r is Ok ==> old(self).position < final(self).position,
            match block_end(old(self).tokens@, old(self).position as int) {
                Ok(end) => r matches Ok(b) && block_tree(old(self).tokens@, old(self).position as int, b)
                    && final(self).position == end,
                Err(f) => r matches Err(e) && fail_is(e, f, old(self).tokens@),
            },
        decreases old(self).tokens@.len() - old(self).position, 0int,
    {
        let ghost ts = self.tokens@;
        self.consume(&TokenKind::LeftBrace, "{")?;
        self.skip_newlines();
        let ghost p0 = self.position as int;
        let mut statements: Vec<Statement> = Vec::new();
        while !self.check(&TokenKind::RightBrace) && !self.is_at_end()
            invariant
                self.wf(),
                self.tokens == old(self).tokens,
                ts == self.tokens@,
                self.tokens@.len() > 0,
                old(self).position < self.position,
                at_kind(ts, old(self).position as int, 45),
                p0 == skip_nl(ts, old(self).position + 1),
                stmts_end(ts, p0) == stmts_end(ts, self.position as int),
                forall|ss2: Seq<Statement>| #[trigger] stmts_tree(ts, self.position as int, ss2) ==> stmts_tree(
                    ts,
                    p0,
                    statements@ + ss2,
                ),
            ensures
                self.wf(),
                self.tokens == old(self).tokens,
                old(self).position < self.position,
                stmts_end(ts, p0) == Ok::<int, ParseFail>(self.position as int),
                stmts_tree(ts, self.position as int, Seq::<Statement>::empty()),
                forall|ss2: Seq<Statement>| #[trigger] stmts_tree(ts, self.position as int, ss2) ==> stmts_tree(
                    ts,
                    p0,
                    statements@ + ss2,
                ),
            decreases self.tokens@.len() - self.position,
        {
            let ghost p = self.position as int;
            self.skip_ignorable();
            if self.check(&TokenKind::RightBrace) {
                proof {
                    assert(stmts_tree(ts, p, Seq::empty()));
                }
                break;
            }
            let st = match self.parse_statement() {
                Ok(st) => st,
                Err(e) => {
                    proof {
                        assert(stmts_end(ts, p) == stmts_end(ts, p0));
                        assert(stmts_end(ts, p) == Err::<int, ParseFail>(stmt_end(ts, skip_ign(ts, p))->Err_0));
                    }
                    return Err(e);
                },
            };
            let ghost q = skip_ign(ts, p);
            let ghost old_statements = statements@;
            statements.push(st);
            self.skip_newlines();
            proof {
                let r = stmt_end(ts, q)->Ok_0;
                let np = self.position as int;
                lemma_skip_nl(ts, r);
                assert forall|ss2: Seq<Statement>| #[trigger] stmts_tree(ts, np, ss2) implies stmts_tree(
                    ts,
                    p0,
                    statements@ + ss2,
                ) by {
                    assert((seq![st] + ss2).drop_first() =~= ss2);
                    assert(stmts_tree(ts, p, seq![st] + ss2));
                    assert(old_statements + (seq![st] + ss2) =~= statements@ + ss2);
                }
            }
        }
        proof {
            assert(statements@ + Seq::<Statement>::empty() =~= statements@);
        }
        self.consume(&TokenKind::RightBrace, "}")?;
        Ok(Block::new(statements))
    }

    fn parse_statement(&mut self) -> (r: Result<Statement, ParseError>)
        requires
            old(self).wf(),
            old(self).tokens@.len() > 0,
        ensures
            final(self).wf(),
            final(self).tokens == old(self).tokens,
            old(self).position <= final(self).position,
            r is Ok ==> old(self).position < final(self).position,
            match stmt_end(old(self).tokens@, old(self).position as int) {
                Ok(end) => r matches Ok(st) && stmt_tree(old(self).tokens@, old(self).position as int, st)
                    && final(self).position == end,
                Err(f) => r matches Err(e) && fail_is(e, f, old(self).tokens@),
            },
        decreases old(self).tokens@.len() - old(self).position, 2int,
    {
        let pos = self.current().pos;
        if self.check(&TokenKind::If) {
            return self.parse_if_statement();
        }
        if self.check(&TokenKind::While) {
            return self.parse_while_statement();
        }
        if self.check(&TokenKind::Break) {
            self.advance();
            return Ok(Statement::Break { pos });
        }
        let expr = self.parse_primary()?;
        if self.check(&TokenKind::Equals) {
            self.advance();
            match expr {
                Expr::Variable { name, .. } => {
                    return Ok(Statement::Assign { name, pos });
                },
                _ => {
                    return Ok(Statement::Expr(expr));
                },
            }
        }
        Ok(Statement::Expr(expr))
    }

    fn parse_if_statement(&mut self) -> (r: Result<Statement, ParseError>)
        requires
            old(self).wf(),
            old(self).tokens@.len() > 0,
            old(self).tokens@[old(self).position as int].kind is If,
        ensures
            final(self).wf(),
            final(self).tokens == old(self).tokens,
            old(self).position < final(self).position,
            match if_end(old(self).tokens@, old(self).position as int) {
                Ok(end) => r matches Ok(st) && st matches Statement::If { condition, then_block, else_block, pos }
                    && condition.statements@.len() == 0 && pos == old(self).tokens@[old(self).position as int].pos
                    && if_tree(old(self).tokens@, old(self).position as int, then_block, else_block)
                    && final(self).position == end,
                Err(f) => r matches Err(e) && fail_is(e, f, old(self).tokens@),
            },
        decreases old(self).tokens@.len() - old(self).position, 1int,
    {
        let pos = self.current().pos;
        self.consume(&TokenKind::If, "IF")?;
        self.skip_newlines();
        let then_block = self.parse_block()?;
        self.skip_newlines();
        let else_block = if self.check(&TokenKind::Else) {
            self.advance();
            self.skip_newlines();
            Some(self.parse_block()?)
        } else {
            None
        };
        let condition = Block::new(Vec::new());
        Ok(Statement::If { condition, then_block, else_block, pos })
    }

    fn parse_while_statement(&mut self) -> (r: Result<Statement, ParseError>)
        requires
            old(self).wf(),
            old(self).tokens@.len() > 0,
            old(self).tokens@[old(self).position as int].kind is While,
        ensures
            final(self).wf(),
            final(self).tokens == old(self).tokens,
            old(self).position < final(self).position,
            match while_end(old(self).tokens@, old(self).position as int) {
                Ok(end) => r matches Ok(st) && st matches Statement::While { condition, body, pos }
                    && condition.statements@.len() == 0 && pos == old(self).tokens@[old(self).position as int].pos
                    && block_tree(old(self).tokens@, skip_nl(old(self).tokens@, old(self).position + 1), body)
                    && final(self).position == end,
                Err(f) => r matches Err(e) && fail_is(e, f, old(self).tokens@),
            },
        decreases old(self).tokens@.len() - old(self).position, 1int,
    {
        let pos = self.current().pos;
        self.consume(&TokenKind::While, "WHILE")?;
        self.skip_newlines();
        let body = self.parse_block()?;
        let condition = Block::new(Vec::new());
        Ok(Statement::While { condition, body, pos })
    }

    fn is_call_identifier(name: &String) -> (b: bool)
        ensures
            b == is_call_name(name@),
    {
        let cs = str_chars(name.as_str());
        let mut i: usize = 0;
        while i < cs.len()
            invariant
                cs@ == name@,
                i <= cs@.len(),
                forall|j: int| 0 <= j < i ==> uppercase_char(#[trigger] cs@[j]) || cs@[j] == '_' || numeric_char(cs@[j]),
            decreases cs@.len() - i,
        {
            let c = cs[i];
            if !(is_uppercase(c) || c == '_' || is_numeric(c)) {
                return false;
            }
            i = i + 1;
        }
        true
    }

    fn binop(&mut self, op: BinOp, pos: SourcePos) -> (r: Result<Expr, ParseError>)
        requires
            old(self).wf(),
            old(self).tokens@.len() > 0,
            !(old(self).tokens@[old(self).position as int].kind is Eof),
        ensures
            final(self).wf(),
            final(self).tokens == old(self).tokens,
            final(self).position == old(self).position + 1,
            r == Ok::<Expr, ParseError>(Expr::BinOp { op, pos }),
    {
        self.advance();
        Ok(Expr::BinOp { op, pos })
    }

    /// Parses one primary expression: a literal, an identifier, an
    /// operator or a block.
    fn parse_primary(&mut self) -> (r: Result<Expr, ParseError>)
        requires
            old(self).wf(),
            old(self).tokens@.len() > 0,
        ensures
            final(self).wf(),
            final(self).tokens == old(self).tokens,
            old(self).position <= final(self).position,
            r is Ok ==> old(self).position < final(self).position,
            match expr_end(old(self).tokens@, old(self).position as int) {
                Ok(end) => r matches Ok(e) && expr_tree(old(self).tokens@, old(self).position as int, e)
                    && final(self).position == end,
                Err(f) => r matches Err(e) && fail_is(e, f, old(self).tokens@),
            },
        decreases old(self).tokens@.len() - old(self).position, 1int,
    {
        let pos = self.current().pos;
        match &self.current().kind {
            TokenKind::Integer(n) => {
                let value = *n;
                self.advance();
                Ok(Expr::Literal { value: Value::Integer(value), pos })
            },
            TokenKind::String(s) => {
                let value = copy_string(s);
                self.advance();
                Ok(Expr::Literal { value: Value::String(value), pos })
            },
            TokenKind::Ident(name) => {
                let name = copy_string(name);
                self.advance();
                if Self::is_call_identifier(&name) {
                    Ok(Expr::Call { name, pos })
                } else {
                    Ok(Expr::Variable { name, pos })
                }
            },
            TokenKind::Plus => self.binop(BinOp::Add, pos),
            TokenKind::Minus => self.binop(BinOp::Sub, pos),
            TokenKind::Star => self.binop(BinOp::Mul, pos),
            TokenKind::Slash => self.binop(BinOp::Div, pos),
            TokenKind::Percent => self.binop(BinOp::Mod, pos),
            TokenKind::Ampersand => self.binop(BinOp::Concat, pos),
            TokenKind::NotEquals => self.binop(BinOp::NotEq, pos),
            TokenKind::Less => self.binop(BinOp::Less, pos),
            TokenKind::Greater => self.binop(BinOp::Greater, pos),
            TokenKind::LessEq => self.binop(BinOp::LessEq, pos),
            TokenKind::GreaterEq => self.binop(BinOp::GreaterEq, pos),
            TokenKind::LeftBrace => {
                let block = self.parse_block()?;
                Ok(Expr::Block(block))
            },
            _ => Err(self.unexpected("expression")),
        }
    }
}

} // verus!
