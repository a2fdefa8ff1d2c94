//! The Iptscrae lexer: source text to tokens.
//!
//! It handles comments (`#` to the end of the line), string literals with
//! escapes, integer literals, identifiers and keywords, operators and
//! delimiters. Lines and columns count from 1.
use vstd::prelude::*;
use crate::iptscrae::token::{keyword_of, kind_tag, KindModel, SourcePos, Token, TokenKind};
use crate::text::{
    alphabetic, alphanumeric, decimal, is_alphabetic, is_alphanumeric, is_digit, lemma_nat_digits_shape,
    lemma_parse_decimal, nat_digits, parse_i32, parse_i32_chars,
    push_char, str_chars, string_of, upper_text,
};

verus! {

broadcast use vstd::seq_lib::group_seq_properties;

/// Lexer error types.
#[derive(Debug, Clone, PartialEq, Eq)]
pub enum LexError {
    UnterminatedString { line: usize, column: usize },
    InvalidCharacter { ch: char, line: usize, column: usize },
    InvalidNumber { text: String, line: usize, column: usize },
}

// ---------------------------------------------------------------------------
// The token language
// ---------------------------------------------------------------------------

/// The index after the spaces and tabs that start at `i`.
pub open spec fn skip_blanks(s: Seq<char>, i: int) -> int
    decreases s.len() - i,
{
    if 0 <= i < s.len() && (s[i] == ' ' || s[i] == '\t') {
        skip_blanks(s, i + 1)
    } else {
        i
    }
}

/// The index of the first line break (`\n` or `\r`) at or after `i`, or the end.
pub open spec fn line_end(s: Seq<char>, i: int) -> int
    decreases s.len() - i,
{
    if 0 <= i < s.len() && s[i] != '\n' && s[i] != '\r' {
        line_end(s, i + 1)
    } else {
        i
    }
}

/// The index after the ASCII digits that start at `i`.
pub open spec fn digits_end(s: Seq<char>, i: int) -> int
    decreases s.len() - i,
{
    if 0 <= i < s.len() && is_digit(s[i]) {
        digits_end(s, i + 1)
    } else {
        i
    }
}

/// The index after the identifier characters (alphanumeric or `_`) that start at `i`.
pub open spec fn word_end(s: Seq<char>, i: int) -> int
    decreases s.len() - i,
{
    if 0 <= i < s.len() && (alphanumeric(s[i]) || s[i] == '_') {
        word_end(s, i + 1)
    } else {
        i
    }
}

/// The character an escape `\c` stands for.
pub open spec fn unescape(c: char) -> char {
    if c == 'n' {
        '\n'
    } else if c == 'r' {
        '\r'
    } else if c == 't' {
        '\t'
    } else {
        c
    }
}

/// Escapes in a string literal: a backslash followed by `n`, `r` or `t`
/// stands for the line feed (code 10), carriage return (13) or tab (9);
/// followed by any other character (a quote, a backslash, ...) it stands
/// for that character. The rest of the text is read after the escape.
pub proof fn lemma_string_escapes(s: Seq<char>, i: int)
    requires
        0 <= i,
        i + 1 < s.len(),
        s[i] == '\\',
        scan_string(s, i) is Some,
    ensures
        ({
            let found = scan_string(s, i)->Some_0;
            let t = found.0;
            let c = s[i + 1];
            &&& t.len() >= 1
            &&& c == 'n' ==> t[0] as u32 == 10
            &&& c == 'r' ==> t[0] as u32 == 13
            &&& c == 't' ==> t[0] as u32 == 9
            &&& (c != 'n' && c != 'r' && c != 't') ==> t[0] == c
            &&& scan_string(s, i + 2) matches Some((rest, e)) && t.drop_first() == rest
                && found.1 == e
        }),
{
    let found = scan_string(s, i)->Some_0;
    let after = scan_string(s, i + 2)->Some_0;
    assert(found.0.drop_first() =~= after.0);
}

/// Characters of a string literal other than a quote or a backslash stand
/// for themselves, and a quote ends the literal.
pub proof fn lemma_string_plain(s: Seq<char>, i: int)
    requires
        0 <= i < s.len(),
        s[i] != '\\',
    ensures
        s[i] == '"' ==> scan_string(s, i) == Some((Seq::<char>::empty(), i + 1)),
        s[i] != '"' ==> match scan_string(s, i + 1) {
            Some((rest, e)) => scan_string(s, i) == Some((seq![s[i]] + rest, e)),
            None => scan_string(s, i) is None,
        },
{
}

/// The text of a string literal whose body starts at `i`, and the index after
/// its closing quote; `None` when the input ends first.
pub open spec fn scan_string(s: Seq<char>, i: int) -> Option<(Seq<char>, int)>
    decreases s.len() - i,
{
    if i < 0 || i >= s.len() {
        None
    } else if s[i] == '"' {
        Some((Seq::empty(), i + 1))
    } else if s[i] == '\\' {
        if i + 1 >= s.len() {
            None
        } else {
            match scan_string(s, i + 2) {
                Some((t, e)) => Some((seq![unescape(s[i + 1])] + t, e)),
                None => None,
            }
        }
    } else {
        match scan_string(s, i + 1) {
            Some((t, e)) => Some((seq![s[i]] + t, e)),
            None => None,
        }
    }
}

/// What the lexer reads at `p`, after the blanks.
pub enum Lexed {
    /// A token, and the index after it.
    Token(KindModel, int),
    Unterminated,
    InvalidChar(char),
    InvalidNumber(Seq<char>),
}

/// The token kind of an identifier's text: a keyword, or the identifier.
pub open spec fn word_kind(text: Seq<char>) -> KindModel {
    match keyword_of(upper_text(text)) {
        Some(k) => k.model(),
        None => KindModel::Ident(text),
    }
}

/// The token of an operator or delimiter at `p`, with its length.
pub open spec fn operator_at(s: Seq<char>, p: int) -> Option<(int, int)> {
    let c = s[p];
    let eq_next = p + 1 < s.len() && s[p + 1] == '=';
    if c == '+' { Some((33, 1)) }
    else if c == '-' { Some((34, 1)) }
    else if c == '*' { Some((35, 1)) }
    else if c == '/' { Some((36, 1)) }
    else if c == '%' { Some((37, 1)) }
    else if c == '&' { Some((38, 1)) }
    else if c == '=' { Some((39, 1)) }
    else if c == '!' { if eq_next { Some((40, 2)) } else { None } }
    else if c == '<' { if eq_next { Some((43, 2)) } else { Some((41, 1)) } }
    else if c == '>' { if eq_next { Some((44, 2)) } else { Some((42, 1)) } }
    else if c == '{' { Some((45, 1)) }
    else if c == '}' { Some((46, 1)) }
    else if c == '(' { Some((47, 1)) }
    else if c == ')' { Some((48, 1)) }
    else if c == ',' { Some((49, 1)) }
    else { None }
}

/// What starts at `p` (just after the blanks).
pub open spec fn lex_at(s: Seq<char>, p: int) -> Lexed {
    if p < 0 || p >= s.len() {
        Lexed::Token(KindModel::Other(52), p)
    } else {
        let c = s[p];
        if c == '#' {
            Lexed::Token(KindModel::Comment(s.subrange(p + 1, line_end(s, p + 1))), line_end(s, p + 1))
        } else if c == '\n' {
            Lexed::Token(KindModel::Other(51), p + 1)
        } else if c == '\r' {
            Lexed::Token(KindModel::Other(51), if p + 1 < s.len() && s[p + 1] == '\n' { p + 2 } else { p + 1 })
        } else if c == '"' {
            match scan_string(s, p + 1) {
                Some((t, e)) => Lexed::Token(KindModel::Str(t), e),
                None => Lexed::Unterminated,
            }
        } else if is_digit(c) || (c == '-' && p + 1 < s.len() && is_digit(s[p + 1])) {
            let q = digits_end(s, if c == '-' { p + 1 } else { p });
            let text = s.subrange(p, q);
            match parse_i32(text) {
                Some(n) => Lexed::Token(KindModel::Integer(n), q),
                None => Lexed::InvalidNumber(text),
            }
        } else if alphabetic(c) || c == '_' {
            let q = word_end(s, p);
            Lexed::Token(word_kind(s.subrange(p, q)), q)
        } else {
            match operator_at(s, p) {
                Some((tag, len)) => Lexed::Token(KindModel::Other(tag), p + len),
                None => Lexed::InvalidChar(if c == '!' { '!' } else { c }),
            }
        }
    }
}

proof fn lemma_digits_run(s: Seq<char>, i: int, e: int)
    requires
        0 <= i <= e <= s.len(),
        forall|j: int| i <= j < e ==> is_digit(#[trigger] s[j]),
        e == s.len() || !is_digit(s[e]),
    ensures
        digits_end(s, i) == e,
    decreases e - i,
{
    if i < e {
        lemma_digits_run(s, i + 1, e);
    }
}

/// An integer literal reads as the integer it writes: the decimal text of
/// any `i32` (with its minus sign when negative), followed by anything but
/// another digit, lexes to an integer token of that value that ends just
/// after the text.
pub proof fn lemma_integer_literal(n: i32, rest: Seq<char>)
    requires
        rest.len() == 0 || !is_digit(rest[0]),
    ensures
        lex_at(decimal(n as int) + rest, 0) == Lexed::Token(KindModel::Integer(n), decimal(n as int).len() as int),
{
    let t = decimal(n as int);
    let s = t + rest;
    lemma_parse_decimal(n);
    let m: nat = if n < 0 { (-(n as int)) as nat } else { n as nat };
    lemma_nat_digits_shape(m);
    let start: int = if n < 0 { 1 } else { 0 };
    assert forall|j: int| start <= j < t.len() implies is_digit(#[trigger] s[j]) by {
        assert(s[j] == t[j]);
        assert(t[j] == nat_digits(m)[j - start]);
    }
    assert(s[start] == nat_digits(m)[0]);
    lemma_digits_run(s, start, t.len() as int);
    assert(s.subrange(0, t.len() as int) =~= t);
}

/// `a + k`, held to the range of `usize`.
pub open spec fn sat_add(a: int, k: int) -> int {
    if a + k > usize::MAX {
        usize::MAX as int
    } else {
        a + k
    }
}

pub proof fn lemma_skip_blanks(s: Seq<char>, i: int)
    requires
        0 <= i <= s.len(),
    ensures
        i <= skip_blanks(s, i) <= s.len(),
    decreases s.len() - i,
{
    if i < s.len() && (s[i] == ' ' || s[i] == '\t') {
        lemma_skip_blanks(s, i + 1);
    }
}

proof fn lemma_line_end(s: Seq<char>, i: int)
    requires
        0 <= i <= s.len(),
    ensures
        i <= line_end(s, i) <= s.len(),
    decreases s.len() - i,
{
    if i < s.len() && s[i] != '\n' && s[i] != '\r' {
        lemma_line_end(s, i + 1);
    }
}

proof fn lemma_digits_end(s: Seq<char>, i: int)
    requires
        0 <= i <= s.len(),
    ensures
        i <= digits_end(s, i) <= s.len(),
    decreases s.len() - i,
{
    if i < s.len() && is_digit(s[i]) {
        lemma_digits_end(s, i + 1);
    }
}

proof fn lemma_word_end(s: Seq<char>, i: int)
    requires
        0 <= i <= s.len(),
    ensures
        i <= word_end(s, i) <= s.len(),
    decreases s.len() - i,
{
    if i < s.len() && (alphanumeric(s[i]) || s[i] == '_') {
        lemma_word_end(s, i + 1);
    }
}

proof fn lemma_scan_string(s: Seq<char>, i: int)
    requires
        0 <= i,
    ensures
        scan_string(s, i) matches Some((t, e)) ==> i < e <= s.len(),
    decreases s.len() - i,
{
    if 0 <= i < s.len() && s[i] != '"' {
        if s[i] == '\\' {
            if i + 1 < s.len() {
                lemma_scan_string(s, i + 2);
            }
        } else {
            lemma_scan_string(s, i + 1);
        }
    }
}

/// Every token but the end of input moves past at least one character.
pub proof fn lemma_lex_progress(s: Seq<char>, p: int)
    requires
        0 <= p <= s.len(),
    ensures
        lex_at(s, p) matches Lexed::Token(k, np) ==> (if p < s.len() { p < np <= s.len() } else { np == p && k == KindModel::Other(52) }),
{
    if p < s.len() {
        lemma_line_end(s, p + 1);
        lemma_scan_string(s, p + 1);
        lemma_digits_end(s, p);
        lemma_digits_end(s, p + 1);
        lemma_word_end(s, p);
        lemma_word_end(s, p + 1);
        lemma_digits_end(s, p + 1);
        let c = s[p];
        if alphabetic(c) || c == '_' {
            assert(alphanumeric(c) || c == '_');
        }
    }
}

/// A token as the lexer gives it: its kind and where it starts.
pub struct TokModel {
    pub kind: KindModel,
    pub line: int,
    pub column: int,
}

/// The model of a token.
pub open spec fn token_model(t: Token) -> TokModel {
    TokModel { kind: t.kind.model(), line: t.pos.line as int, column: t.pos.column as int }
}

/// The models of a sequence of tokens.
pub open spec fn token_models(ts: Seq<Token>) -> Seq<TokModel> {
    ts.map_values(|t: Token| token_model(t))
}

/// Why the lexer stopped, and where.
pub enum LexFail {
    Unterminated(int, int),
    InvalidChar(char, int, int),
    InvalidNumber(Seq<char>, int, int),
}

/// Whether a lexer error is the given failure.
pub open spec fn error_is(e: LexError, f: LexFail) -> bool {
    match f {
        LexFail::Unterminated(l, c) => e == LexError::UnterminatedString { line: l as usize, column: c as usize },
        LexFail::InvalidChar(ch, l, c) => e == LexError::InvalidCharacter { ch, line: l as usize, column: c as usize },
        LexFail::InvalidNumber(t, l, c) => e matches LexError::InvalidNumber { text, line, column }
            && text@ == t && line == l && column == c,
    }
}

/// One step of the lexer from index `p` at (`line`, `col`): the token and
/// the state after it, or why it failed.
pub enum LexStep {
    Tok(TokModel, int, int, int),
    Fail(LexFail),
}

/// The next step of the lexer.
pub open spec fn lex_next(s: Seq<char>, p: int, line: int, col: int) -> LexStep {
    let q = skip_blanks(s, p);
    let c = sat_add(col, q - p);
    match lex_at(s, q) {
        Lexed::Token(k, np) => {
            if k == KindModel::Other(51) {
                LexStep::Tok(TokModel { kind: k, line, column: c }, np, sat_add(line, 1), 1)
            } else {
                LexStep::Tok(TokModel { kind: k, line, column: c }, np, line, sat_add(c, np - q))
            }
        },
        Lexed::Unterminated => LexStep::Fail(LexFail::Unterminated(line, c)),
        Lexed::InvalidChar(ch) => LexStep::Fail(LexFail::InvalidChar(ch, line, c)),
        Lexed::InvalidNumber(t) => LexStep::Fail(LexFail::InvalidNumber(t, line, c)),
    }
}

/// All tokens from index `p` to the end of input (the last one the end
/// marker), or the first failure.
pub open spec fn lex_all(s: Seq<char>, p: int, line: int, col: int) -> Result<Seq<TokModel>, LexFail>
    decreases s.len() - p,
{
    match lex_next(s, p, line, col) {
        LexStep::Tok(t, np, nl, nc) => {
            if t.kind == KindModel::Other(52) || np <= p || np > s.len() {
                Ok(seq![t])
            } else {
                match lex_all(s, np, nl, nc) {
                    Ok(rest) => Ok(seq![t] + rest),
                    Err(f) => Err(f),
                }
            }
        },
        LexStep::Fail(f) => Err(f),
    }
}

/// The tokens seen so far followed by what comes after them.
pub open spec fn after(seen: Seq<TokModel>, rest: Result<Seq<TokModel>, LexFail>) -> Result<Seq<TokModel>, LexFail> {
    match rest {
        Ok(r) => Ok(seen + r),
        Err(f) => Err(f),
    }
}

// ---------------------------------------------------------------------------
// The lexer
// ---------------------------------------------------------------------------

/// Lexer for Iptscrae source code.
pub struct Lexer {
    source: Vec<char>,
    position: usize,
    line: usize,
    column: usize,
}

impl Lexer {
    /// The characters of the source.
    pub closed spec fn chars(&self) -> Seq<char> {
        self.source@
    }

    /// The index of the next character to read.
    pub closed spec fn pos(&self) -> int {
        self.position as int
    }

    /// The current line.
    pub closed spec fn line(&self) -> int {
        self.line as int
    }

    /// The current column.
    pub closed spec fn column(&self) -> int {
        self.column as int
    }

    /// The lexer's invariant: it never stands past the end.
    pub closed spec fn wf(&self) -> bool {
        self.position <= self.source@.len()
    }

    /// A lexer at the start (line 1, column 1) of the source.
    pub fn new(source: &str) -> (l: Lexer)
        ensures
            l.wf(),
            l.chars() == source@,
            l.pos() == 0,
            l.line() == 1,
            l.column() == 1,
    {
        Lexer { source: str_chars(source), position: 0, line: 1, column: 1 }
    }

    fn is_eof(&self) -> (b: bool)
        requires
            self.wf(),
        ensures
            b == (self.position >= self.source@.len()),
    {
        self.position >= self.source.len()
    }

    fn current_char(&self) -> (c: char)
        requires
            self.wf(),
        ensures
            c == (if self.position < self.source@.len() { self.source@[self.position as int] } else { '\0' }),
    {
        if self.position >= self.source.len() {
            '\0'
        } else {
            self.source[self.position]
        }
    }

    fn advance(&mut self)
        requires
            old(self).wf(),
            old(self).position < old(self).source.len(),
        ensures
            final(self).wf(),
            final(self).source == old(self).source,
            final(self).position == old(self).position + 1,
            final(self).line == old(self).line,
            final(self).column == sat_add(old(self).column as int, 1),
    {
        self.position = self.position + 1;
        self.column = self.column.saturating_add(1);
    }

    fn skip_whitespace(&mut self)
        requires
            old(self).wf(),
        ensures
            final(self).wf(),
            final(self).source == old(self).source,
            final(self).position == skip_blanks(old(self).source@, old(self).position as int),
            final(self).line == old(self).line,
            final(self).column == sat_add(old(self).column as int, final(self).position - old(self).position),
    {
        let ghost p0 = self.position as int;
        let ghost c0 = self.column as int;
        while self.position < self.source.len() && (self.source[self.position] == ' ' || self.source[self.position] == '\t')
            invariant
                self.wf(),
                self.source == old(self).source,
                p0 == old(self).position,
                c0 == old(self).column,
                p0 <= self.position,
                skip_blanks(self.source@, self.position as int) == skip_blanks(self.source@, p0),
                self.line == old(self).line,
                self.column == sat_add(c0, self.position - p0),
            decreases self.source@.len() - self.position,
        {
            self.advance();
        }
    }

    fn lex_comment(&mut self) -> (t: Token)
        requires
            old(self).wf(),
            old(self).position < old(self).source@.len(),
        ensures
            final(self).wf(),
            final(self).source == old(self).source,
            final(self).position == line_end(old(self).source@, old(self).position + 1),
            final(self).line == old(self).line,
            final(self).column == sat_add(old(self).column as int, final(self).position - old(self).position),
            t.kind.model() == KindModel::Comment(old(self).source@.subrange(old(self).position + 1, final(self).position as int)),
            t.pos == (SourcePos { line: old(self).line, column: old(self).column }),
    {
        let pos = SourcePos::new(self.line, self.column);
        let ghost p0 = self.position as int;
        let ghost c0 = self.column as int;
        self.advance();
        let start = self.position;
        while self.position < self.source.len() && self.source[self.position] != '\n' && self.source[self.position] != '\r'
            invariant
                self.wf(),
                self.source == old(self).source,
                p0 == old(self).position,
                c0 == old(self).column,
                start == p0 + 1,
                start <= self.position,
                line_end(self.source@, self.position as int) == line_end(self.source@, start as int),
                self.line == old(self).line,
                self.column == sat_add(c0, self.position - p0),
            decreases self.source@.len() - self.position,
        {
            self.advance();
        }
        let text = string_of(&self.source.as_slice()[start..self.position]);
        assert(self.source@.subrange(start as int, self.position as int) =~= text@);
        Token::new(TokenKind::Comment(text), pos)
    }

    fn lex_string(&mut self) -> (r: Result<Token, LexError>)
        requires
            old(self).wf(),
            old(self).position < old(self).source@.len(),
        ensures
            final(self).source == old(self).source,
            final(self).wf(),
            match scan_string(old(self).source@, old(self).position + 1) {
                Some((t, e)) => r matches Ok(tok) && tok.kind.model() == KindModel::Str(t)
                    && tok.pos == (SourcePos { line: old(self).line, column: old(self).column })
                    && final(self).position == e && final(self).line == old(self).line
                    && final(self).column == sat_add(old(self).column as int, e - old(self).position),
                None => r == Err::<Token, LexError>(LexError::UnterminatedString { line: old(self).line, column: old(self).column }),
            },
    {
        let pos = SourcePos::new(self.line, self.column);
        let ghost s = self.source@;
        let ghost p0 = self.position as int;
        let ghost c0 = self.column as int;
        self.advance();
        let mut text: Vec<char> = Vec::new();
        while self.position < self.source.len() && self.source[self.position] != '"'
            invariant
                self.wf(),
                self.source == old(self).source,
                s == self.source@,
                p0 == old(self).position,
                c0 == old(self).column,
                p0 < self.position,
                self.line == old(self).line,
                self.column == sat_add(c0, self.position - p0),
                pos == (SourcePos { line: old(self).line, column: old(self).column }),
                scan_string(s, p0 + 1) == (match scan_string(s, self.position as int) {
                    Some((t, e)) => Some((text@ + t, e)),
                    None => None,
                }),
            decreases self.source@.len() - self.position,
        {
            let ch = self.source[self.position];
            let ghost i = self.position as int;
            if ch == '\\' {
                self.advance();
                if self.position >= self.source.len() {
                    return Err(LexError::UnterminatedString { line: pos.line, column: pos.column });
                }
                let e = self.source[self.position];
                let escaped = if e == 'n' {
                    '\n'
                } else if e == 'r' {
                    '\r'
                } else if e == 't' {
                    '\t'
                } else {
                    e
                };
                let ghost before = text@;
                text.push(escaped);
                self.advance();
                proof {
                    match scan_string(s, i + 2) {
                        Some((t, e2)) => {
                            assert(before + (seq![unescape(s[i + 1])] + t) =~= text@ + t);
                        },
                        None => {},
                    }
                }
            } else {
                let ghost before = text@;
                text.push(ch);
                self.advance();
                proof {
                    match scan_string(s, i + 1) {
                        Some((t, e2)) => {
                            assert(before + (seq![s[i]] + t) =~= text@ + t);
                        },
                        None => {},
                    }
                }
            }
        }
        if self.position >= self.source.len() {
            return Err(LexError::UnterminatedString { line: pos.line, column: pos.column });
        }
        proof {
            assert(text@ + Seq::<char>::empty() =~= text@);
        }
        self.advance();
        Ok(Token::new(TokenKind::String(string_of(text.as_slice())), pos))
    }

    fn lex_number(&mut self) -> (r: Result<Token, LexError>)
        requires
            old(self).wf(),
            old(self).position < old(self).source@.len(),
        ensures
            final(self).wf(),
            final(self).source == old(self).source,
            ({
                let s = old(self).source@;
                let p = old(self).position as int;
                let q = digits_end(s, if s[p] == '-' { p + 1 } else { p });
                let text = s.subrange(p, q);
                let at = (SourcePos { line: old(self).line, column: old(self).column });
                match parse_i32(text) {
                    Some(n) => r matches Ok(tok) && tok.kind == TokenKind::Integer(n) && tok.pos == at
                        && final(self).position == q && final(self).line == old(self).line
                        && final(self).column == sat_add(old(self).column as int, q - p),
                    None => r matches Err(LexError::InvalidNumber { text: tx, line, column })
                        && tx@ == text && line == at.line && column == at.column,
                }
            }),
    {
        let pos = SourcePos::new(self.line, self.column);
        let ghost p0 = self.position as int;
        let ghost c0 = self.column as int;
        let start = self.position;
        if self.source[self.position] == '-' {
            self.advance();
        }
        let ghost d0 = self.position as int;
        while self.position < self.source.len() && '0' <= self.source[self.position] && self.source[self.position] <= '9'
            invariant
                self.wf(),
                self.source == old(self).source,
                p0 == old(self).position,
                c0 == old(self).column,
                start == p0,
                d0 <= self.position,
                d0 == (if self.source@[p0] == '-' { p0 + 1 } else { p0 }),
                digits_end(self.source@, self.position as int) == digits_end(self.source@, d0),
                self.line == old(self).line,
                self.column == sat_add(c0, self.position - p0),
            decreases self.source@.len() - self.position,
        {
            self.advance();
        }
        let digits = &self.source.as_slice()[start..self.position];
        assert(digits@ =~= self.source@.subrange(p0, self.position as int));
        match parse_i32_chars(digits) {
            Some(n) => Ok(Token::new(TokenKind::Integer(n), pos)),
            None => Err(LexError::InvalidNumber { text: string_of(digits), line: pos.line, column: pos.column }),
        }
    }

    fn lex_identifier(&mut self) -> (t: Token)
        requires
            old(self).wf(),
            old(self).position < old(self).source@.len(),
        ensures
            final(self).wf(),
            final(self).source == old(self).source,
            final(self).position == word_end(old(self).source@, old(self).position as int),
            final(self).line == old(self).line,
            final(self).column == sat_add(old(self).column as int, final(self).position - old(self).position),
            t.kind.model() == word_kind(old(self).source@.subrange(old(self).position as int, final(self).position as int)),
            t.pos == (SourcePos { line: old(self).line, column: old(self).column }),
    {
        let pos = SourcePos::new(self.line, self.column);
        let ghost p0 = self.position as int;
        let ghost c0 = self.column as int;
        let start = self.position;
        while self.position < self.source.len() && (is_alphanumeric(self.source[self.position]) || self.source[self.position] == '_')
            invariant
                self.wf(),
                self.source == old(self).source,
                p0 == old(self).position,
                c0 == old(self).column,
                start == p0,
                p0 <= self.position,
                word_end(self.source@, self.position as int) == word_end(self.source@, p0),
                self.line == old(self).line,
                self.column == sat_add(c0, self.position - p0),
            decreases self.source@.len() - self.position,
        {
            self.advance();
        }
        let word = string_of(&self.source.as_slice()[start..self.position]);
        assert(word@ =~= self.source@.subrange(p0, self.position as int));
        let kind = TokenKind::from_ident(word.as_str());
        Token::new(kind, pos)
    }

    fn single(&mut self, kind: TokenKind, pos: SourcePos, len: usize) -> (t: Token)
        requires
            old(self).wf(),
            1 <= len <= 2,
            old(self).position + len <= old(self).source@.len(),
        ensures
            final(self).wf(),
            final(self).source == old(self).source,
            final(self).position == old(self).position + len,
            final(self).line == old(self).line,
            final(self).column == sat_add(old(self).column as int, len as int),
            t.kind == kind,
            t.pos == pos,
    {
        self.advance();
        if len == 2 {
            self.advance();
        }
        Token::new(kind, pos)
    }

    /// Reads every token up to and including the end marker, or stops at
    /// the first error.
    pub fn tokenize(&mut self) -> (r: Result<Vec<Token>, LexError>)
        requires
            old(self).wf(),
        ensures
            final(self).wf(),
            match lex_all(old(self).chars(), old(self).pos(), old(self).line(), old(self).column()) {
                Ok(ts) => r matches Ok(v) && v@.len() == ts.len()
                    && forall|i: int| 0 <= i < ts.len() ==> #[trigger] token_model(v@[i]) == ts[i],
                Err(f) => r matches Err(e) && error_is(e, f),
            },
    {
        let ghost s = self.source@;
        let ghost start = lex_all(s, self.position as int, self.line as int, self.column as int);
        let mut tokens: Vec<Token> = Vec::new();
        loop
            invariant_except_break
                start == after(token_models(tokens@), lex_all(s, self.position as int, self.line as int, self.column as int)),
            invariant
                self.wf(),
                self.source@ == s,
                s == old(self).chars(),
                start == lex_all(old(self).chars(), old(self).pos(), old(self).line(), old(self).column()),
            ensures
                start == Ok::<Seq<TokModel>, LexFail>(token_models(tokens@)),
            decreases s.len() - self.position,
        {
            let ghost p = self.position as int;
            let ghost l = self.line as int;
            let ghost c = self.column as int;
            proof {
                lemma_skip_blanks(s, p);
                lemma_lex_progress(s, skip_blanks(s, p));
            }
            let token = match self.next_token() {
                Ok(t) => t,
                Err(e) => {
                    return Err(e);
                },
            };
            let is_eof = match token.kind {
                TokenKind::Eof => true,
                _ => false,
            };
            let ghost seen = token_models(tokens@);
            tokens.push(token);
            proof {
                assert(token_models(tokens@) =~= seen.push(token_model(token)));
                assert(seen.push(token_model(token)) =~= seen + seq![token_model(token)]);
                if !is_eof {
                    match lex_all(s, self.position as int, self.line as int, self.column as int) {
                        Ok(rest) => {
                            assert(seen + (seq![token_model(token)] + rest) =~= (seen + seq![token_model(token)]) + rest);
                        },
                        Err(f) => {},
                    }
                } else {
                    assert(token_model(token).kind == KindModel::Other(52));
                    assert(seen + seq![token_model(token)] =~= seen.push(token_model(token)));
                }
            }
            if is_eof {
                break;
            }
        }
        proof {
            let ts = token_models(tokens@);
            assert forall|i: int| 0 <= i < tokens@.len() implies #[trigger] token_model(tokens@[i]) == ts[i] by {}
        }
        Ok(tokens)
    }

    /// Reads the next token.
    ///
    /// Spaces and tabs before it are skipped; each character read moves the
    /// column on by one, and a line break moves to column 1 of the next line.
    pub fn next_token(&mut self) -> (r: Result<Token, LexError>)
        requires
            old(self).wf(),
        ensures
            final(self).wf(),
            final(self).chars() == old(self).chars(),
            ({
                let s = old(self).chars();
                let p = skip_blanks(s, old(self).pos());
                let col = sat_add(old(self).column(), p - old(self).pos());
                let line = old(self).line();
                match lex_at(s, p) {
                    Lexed::Token(k, np) => r matches Ok(tok) && tok.kind.model() == k
                        && tok.pos.line == line && tok.pos.column == col
                        && final(self).pos() == np
                        && (if k == KindModel::Other(51) {
                            final(self).line() == sat_add(line, 1) && final(self).column() == 1
                        } else {
                            final(self).line() == line && final(self).column() == sat_add(col, np - p)
                        }),
                    Lexed::Unterminated => r == Err::<Token, LexError>(LexError::UnterminatedString { line: line as usize, column: col as usize }),
                    Lexed::InvalidChar(ch) => r == Err::<Token, LexError>(LexError::InvalidCharacter { ch, line: line as usize, column: col as usize }),
                    Lexed::InvalidNumber(text) => r matches Err(LexError::InvalidNumber { text: tx, line: l, column: c })
                        && tx@ == text && l == line && c == col,
                }
            }),
            match lex_next(old(self).chars(), old(self).pos(), old(self).line(), old(self).column()) {
                LexStep::Tok(t, np, nl, nc) => r matches Ok(tok) && token_model(tok) == t
                    && final(self).pos() == np && final(self).line() == nl && final(self).column() == nc,
                LexStep::Fail(f) => r matches Err(e) && error_is(e, f),
            },
    {
        self.skip_whitespace();
        proof {
            lemma_skip_blanks(self.source@, old(self).position as int);
        }
        let pos = SourcePos::new(self.line, self.column);
        if self.is_eof() {
            return Ok(Token::new(TokenKind::Eof, pos));
        }
        let ch = self.current_char();
        let n = self.source.len();
        let p = self.position;
        if ch == '#' {
            return Ok(self.lex_comment());
        }
        if ch == '\n' || ch == '\r' {
            self.advance();
            if ch == '\r' && self.current_char() == '\n' {
                self.advance();
            }
            self.line = self.line.saturating_add(1);
            self.column = 1;
            return Ok(Token::new(TokenKind::Newline, pos));
        }
        if ch == '"' {
            return self.lex_string();
        }
        if ('0' <= ch && ch <= '9') || (ch == '-' && p + 1 < n && '0' <= self.source[p + 1] && self.source[p + 1] <= '9') {
            return self.lex_number();
        }
        if is_alphabetic(ch) || ch == '_' {
            return Ok(self.lex_identifier());
        }
        let eq_next = p + 1 < n && self.source[p + 1] == '=';
        if ch == '+' {
            Ok(self.single(TokenKind::Plus, pos, 1))
        } else if ch == '-' {
            Ok(self.single(TokenKind::Minus, pos, 1))
        } else if ch == '*' {
            Ok(self.single(TokenKind::Star, pos, 1))
        } else if ch == '/' {
            Ok(self.single(TokenKind::Slash, pos, 1))
        } else if ch == '%' {
            Ok(self.single(TokenKind::Percent, pos, 1))
        } else if ch == '&' {
            Ok(self.single(TokenKind::Ampersand, pos, 1))
        } else if ch == '=' {
            Ok(self.single(TokenKind::Equals, pos, 1))
        } else if ch == '!' {
            if eq_next {
                Ok(self.single(TokenKind::NotEquals, pos, 2))
            } else {
                Err(LexError::InvalidCharacter { ch: '!', line: pos.line, column: pos.column })
            }
        } else if ch == '<' {
            if eq_next {
                Ok(self.single(TokenKind::LessEq, pos, 2))
            } else {
                Ok(self.single(TokenKind::Less, pos, 1))
            }
        } else if ch == '>' {
            if eq_next {
                Ok(self.single(TokenKind::GreaterEq, pos, 2))
            } else {
                Ok(self.single(TokenKind::Greater, pos, 1))
            }
        } else if ch == '{' {
            Ok(self.single(TokenKind::LeftBrace, pos, 1))
        } else if ch == '}' {
            Ok(self.single(TokenKind::RightBrace, pos, 1))
        } else if ch == '(' {
            Ok(self.single(TokenKind::LeftParen, pos, 1))
        } else if ch == ')' {
            Ok(self.single(TokenKind::RightParen, pos, 1))
        } else if ch == ',' {
            Ok(self.single(TokenKind::Comma, pos, 1))
        } else {
            Err(LexError::InvalidCharacter { ch, line: pos.line, column: pos.column })
        }
    }
}

} // verus!
