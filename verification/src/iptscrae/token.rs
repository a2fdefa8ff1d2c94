//! Tokens of Iptscrae source, and of the room-script files built on it.
use vstd::prelude::*;
use vstd::string::*;
use crate::text::{copy_string, to_uppercase, str_eq, string_from, upper_text};

verus! {

/// Position in source code (line and column, both from 1).
#[derive(Debug, Clone, Copy, PartialEq, Eq)]
pub struct SourcePos {
    pub line: usize,
    pub column: usize,
}

impl SourcePos {
    /// A position.
    pub fn new(line: usize, column: usize) -> (p: SourcePos)
        ensures
            p.line == line && p.column == column,
    {
        SourcePos { line, column }
    }
}

/// Token with position information.
#[derive(Debug, Clone, PartialEq)]
pub struct Token {
    pub kind: TokenKind,
    pub pos: SourcePos,
}

impl Token {
    /// A token of the given kind at the given position.
    pub fn new(kind: TokenKind, pos: SourcePos) -> (t: Token)
        ensures
            t.kind == kind && t.pos == pos,
    {
        Token { kind, pos }
    }
}

/// Token types.
#[derive(Debug, Clone, PartialEq)]
pub enum TokenKind {
    // Literals
    Integer(i32),
    String(String),
    // Identifiers (variables and function names)
    Ident(String),
    // Keywords
    On,
    If,
    Else,
    While,
    Do,
    Break,
    // Room-script keywords
    Room,
    EndRoom,
    Door,
    EndDoor,
    Spot,
    EndSpot,
    Script,
    EndScript,
    Id,
    Name,
    Pict,
    Artist,
    Dest,
    Outline,
    Picts,
    EndPicts,
    Picture,
    EndPicture,
    TransColor,
    Private,
    NoPainting,
    NoCyborgs,
    Hidden,
    NoGuests,
    // Operators
    Plus,
    Minus,
    Star,
    Slash,
    Percent,
    Ampersand,
    Equals,
    NotEquals,
    Less,
    Greater,
    LessEq,
    GreaterEq,
    // Delimiters
    LeftBrace,
    RightBrace,
    LeftParen,
    RightParen,
    Comma,
    // Special
    Comment(String),
    Newline,
    Eof,
}

/// The model of a token kind: texts are taken by their characters, and the
/// kinds that carry nothing by their number (see `kind_tag`).
pub enum KindModel {
    Integer(i32),
    Str(Seq<char>),
    Ident(Seq<char>),
    Comment(Seq<char>),
    Other(int),
}

impl TokenKind {
    /// The model of this token kind.
    pub open spec fn model(&self) -> KindModel {
        match self {
            TokenKind::Integer(n) => KindModel::Integer(*n),
            TokenKind::String(s) => KindModel::Str(s@),
            TokenKind::Ident(s) => KindModel::Ident(s@),
            TokenKind::Comment(s) => KindModel::Comment(s@),
            _ => KindModel::Other(kind_tag(*self)),
        }
    }
}

impl Token {
    /// A copy of this token.
    pub fn duplicate(&self) -> (t: Token)
        ensures
            t.kind.model() == self.kind.model(),
            t.pos == self.pos,
    {
        Token { kind: self.kind.duplicate(), pos: self.pos }
    }
}

impl TokenKind {
    /// A copy of this token kind.
    pub fn duplicate(&self) -> (k: TokenKind)
        ensures
            k.model() == self.model(),
    {
        match self {
            TokenKind::Integer(n) => TokenKind::Integer(*n),
            TokenKind::String(t) => TokenKind::String(copy_string(t)),
            TokenKind::Ident(t) => TokenKind::Ident(copy_string(t)),
            TokenKind::Comment(t) => TokenKind::Comment(copy_string(t)),
            TokenKind::On => TokenKind::On,
            TokenKind::If => TokenKind::If,
            TokenKind::Else => TokenKind::Else,
            TokenKind::While => TokenKind::While,
            TokenKind::Do => TokenKind::Do,
            TokenKind::Break => TokenKind::Break,
            TokenKind::Room => TokenKind::Room,
            TokenKind::EndRoom => TokenKind::EndRoom,
            TokenKind::Door => TokenKind::Door,
            TokenKind::EndDoor => TokenKind::EndDoor,
            TokenKind::Spot => TokenKind::Spot,
            TokenKind::EndSpot => TokenKind::EndSpot,
            TokenKind::Script => TokenKind::Script,
            TokenKind::EndScript => TokenKind::EndScript,
            TokenKind::Id => TokenKind::Id,
            TokenKind::Name => TokenKind::Name,
            TokenKind::Pict => TokenKind::Pict,
            TokenKind::Artist => TokenKind::Artist,
            TokenKind::Dest => TokenKind::Dest,
            TokenKind::Outline => TokenKind::Outline,
            TokenKind::Picts => TokenKind::Picts,
            TokenKind::EndPicts => TokenKind::EndPicts,
            TokenKind::Picture => TokenKind::Picture,
            TokenKind::EndPicture => TokenKind::EndPicture,
            TokenKind::TransColor => TokenKind::TransColor,
            TokenKind::Private => TokenKind::Private,
            TokenKind::NoPainting => TokenKind::NoPainting,
            TokenKind::NoCyborgs => TokenKind::NoCyborgs,
            TokenKind::Hidden => TokenKind::Hidden,
            TokenKind::NoGuests => TokenKind::NoGuests,
            TokenKind::Plus => TokenKind::Plus,
            TokenKind::Minus => TokenKind::Minus,
            TokenKind::Star => TokenKind::Star,
            TokenKind::Slash => TokenKind::Slash,
            TokenKind::Percent => TokenKind::Percent,
            TokenKind::Ampersand => TokenKind::Ampersand,
            TokenKind::Equals => TokenKind::Equals,
            TokenKind::NotEquals => TokenKind::NotEquals,
            TokenKind::Less => TokenKind::Less,
            TokenKind::Greater => TokenKind::Greater,
            TokenKind::LessEq => TokenKind::LessEq,
            TokenKind::GreaterEq => TokenKind::GreaterEq,
            TokenKind::LeftBrace => TokenKind::LeftBrace,
            TokenKind::RightBrace => TokenKind::RightBrace,
            TokenKind::LeftParen => TokenKind::LeftParen,
            TokenKind::RightParen => TokenKind::RightParen,
            TokenKind::Comma => TokenKind::Comma,
            TokenKind::Newline => TokenKind::Newline,
            TokenKind::Eof => TokenKind::Eof,
        }
    }
}

/// The script keyword that an identifier's uppercase text names, if any:
/// ON, IF, ELSE, WHILE, DO or BREAK.
pub open spec fn keyword_of(u: Seq<char>) -> Option<TokenKind> {
    if u == "ON"@ { Some(TokenKind::On) }
    else if u == "IF"@ { Some(TokenKind::If) }
    else if u == "ELSE"@ { Some(TokenKind::Else) }
    else if u == "WHILE"@ { Some(TokenKind::While) }
    else if u == "DO"@ { Some(TokenKind::Do) }
    else if u == "BREAK"@ { Some(TokenKind::Break) }
    else { None }
}

/// The room-file keyword that an identifier's uppercase text names, if
/// any (words that only files of room declarations give a meaning).
pub open spec fn room_keyword_of(u: Seq<char>) -> Option<TokenKind> {
    if u == "ROOM"@ { Some(TokenKind::Room) }
    else if u == "ENDROOM"@ { Some(TokenKind::EndRoom) }
    else if u == "DOOR"@ { Some(TokenKind::Door) }
    else if u == "ENDDOOR"@ { Some(TokenKind::EndDoor) }
    else if u == "SPOT"@ { Some(TokenKind::Spot) }
    else if u == "ENDSPOT"@ { Some(TokenKind::EndSpot) }
    else if u == "SCRIPT"@ { Some(TokenKind::Script) }
    else if u == "ENDSCRIPT"@ { Some(TokenKind::EndScript) }
    else if u == "ID"@ { Some(TokenKind::Id) }
    else if u == "NAME"@ { Some(TokenKind::Name) }
    else if u == "PICT"@ { Some(TokenKind::Pict) }
    else if u == "ARTIST"@ { Some(TokenKind::Artist) }
    else if u == "DEST"@ { Some(TokenKind::Dest) }
    else if u == "OUTLINE"@ { Some(TokenKind::Outline) }
    else if u == "PICTS"@ { Some(TokenKind::Picts) }
    else if u == "ENDPICTS"@ { Some(TokenKind::EndPicts) }
    else if u == "PICTURE"@ { Some(TokenKind::Picture) }
    else if u == "ENDPICTURE"@ { Some(TokenKind::EndPicture) }
    else if u == "TRANSCOLOR"@ { Some(TokenKind::TransColor) }
    else if u == "PRIVATE"@ { Some(TokenKind::Private) }
    else if u == "NOPAINTING"@ { Some(TokenKind::NoPainting) }
    else if u == "NOCYBORGS"@ { Some(TokenKind::NoCyborgs) }
    else if u == "HIDDEN"@ { Some(TokenKind::Hidden) }
    else if u == "NOGUESTS"@ { Some(TokenKind::NoGuests) }
    else { None }
}

/// Whether a token kind is one of the script keywords ON, IF, ELSE, WHILE,
/// DO and BREAK.
pub open spec fn is_script_keyword(k: TokenKind) -> bool {
    k is On || k is If || k is Else || k is While || k is Do || k is Break
}

/// A number for each kind of token, equal for tokens of one kind whatever
/// they carry.
pub open spec fn kind_tag(k: TokenKind) -> int {
    match k {
        TokenKind::Integer(_) => 0,
        TokenKind::String(_) => 1,
        TokenKind::Ident(_) => 2,
        TokenKind::On => 3,
        TokenKind::If => 4,
        TokenKind::Else => 5,
        TokenKind::While => 6,
        TokenKind::Do => 7,
        TokenKind::Break => 8,
        TokenKind::Room => 9,
        TokenKind::EndRoom => 10,
        TokenKind::Door => 11,
        TokenKind::EndDoor => 12,
        TokenKind::Spot => 13,
        TokenKind::EndSpot => 14,
        TokenKind::Script => 15,
        TokenKind::EndScript => 16,
        TokenKind::Id => 17,
        TokenKind::Name => 18,
        TokenKind::Pict => 19,
        TokenKind::Artist => 20,
        TokenKind::Dest => 21,
        TokenKind::Outline => 22,
        TokenKind::Picts => 23,
        TokenKind::EndPicts => 24,
        TokenKind::Picture => 25,
        TokenKind::EndPicture => 26,
        TokenKind::TransColor => 27,
        TokenKind::Private => 28,
        TokenKind::NoPainting => 29,
        TokenKind::NoCyborgs => 30,
        TokenKind::Hidden => 31,
        TokenKind::NoGuests => 32,
        TokenKind::Plus => 33,
        TokenKind::Minus => 34,
        TokenKind::Star => 35,
        TokenKind::Slash => 36,
        TokenKind::Percent => 37,
        TokenKind::Ampersand => 38,
        TokenKind::Equals => 39,
        TokenKind::NotEquals => 40,
        TokenKind::Less => 41,
        TokenKind::Greater => 42,
        TokenKind::LessEq => 43,
        TokenKind::GreaterEq => 44,
        TokenKind::LeftBrace => 45,
        TokenKind::RightBrace => 46,
        TokenKind::LeftParen => 47,
        TokenKind::RightParen => 48,
        TokenKind::Comma => 49,
        TokenKind::Comment(_) => 50,
        TokenKind::Newline => 51,
        TokenKind::Eof => 52,
    }
}

impl TokenKind {
    /// Whether this token is one of the script keywords.
    pub fn is_keyword(&self) -> (b: bool)
        ensures
            b == is_script_keyword(*self),
    {
        match self {
            TokenKind::On | TokenKind::If | TokenKind::Else | TokenKind::While | TokenKind::Do
            | TokenKind::Break => true,
            _ => false,
        }
    }

    /// The number of this token's kind (see `kind_tag`).
    pub fn tag(&self) -> (t: u8)
        ensures
            t == kind_tag(*self),
    {
        match self {
            TokenKind::Integer(_) => 0,
            TokenKind::String(_) => 1,
            TokenKind::Ident(_) => 2,
            TokenKind::On => 3,
            TokenKind::If => 4,
            TokenKind::Else => 5,
            TokenKind::While => 6,
            TokenKind::Do => 7,
            TokenKind::Break => 8,
            TokenKind::Room => 9,
            TokenKind::EndRoom => 10,
            TokenKind::Door => 11,
            TokenKind::EndDoor => 12,
            TokenKind::Spot => 13,
            TokenKind::EndSpot => 14,
            TokenKind::Script => 15,
            TokenKind::EndScript => 16,
            TokenKind::Id => 17,
            TokenKind::Name => 18,
            TokenKind::Pict => 19,
            TokenKind::Artist => 20,
            TokenKind::Dest => 21,
            TokenKind::Outline => 22,
            TokenKind::Picts => 23,
            TokenKind::EndPicts => 24,
            TokenKind::Picture => 25,
            TokenKind::EndPicture => 26,
            TokenKind::TransColor => 27,
            TokenKind::Private => 28,
            TokenKind::NoPainting => 29,
            TokenKind::NoCyborgs => 30,
            TokenKind::Hidden => 31,
            TokenKind::NoGuests => 32,
            TokenKind::Plus => 33,
            TokenKind::Minus => 34,
            TokenKind::Star => 35,
            TokenKind::Slash => 36,
            TokenKind::Percent => 37,
            TokenKind::Ampersand => 38,
            TokenKind::Equals => 39,
            TokenKind::NotEquals => 40,
            TokenKind::Less => 41,
            TokenKind::Greater => 42,
            TokenKind::LessEq => 43,
            TokenKind::GreaterEq => 44,
            TokenKind::LeftBrace => 45,
            TokenKind::RightBrace => 46,
            TokenKind::LeftParen => 47,
            TokenKind::RightParen => 48,
            TokenKind::Comma => 49,
            TokenKind::Comment(_) => 50,
            TokenKind::Newline => 51,
            TokenKind::Eof => 52,
        }
    }

    /// Whether two tokens are of one kind, whatever they carry.
    pub fn same_kind(&self, other: &TokenKind) -> (b: bool)
        ensures
            b == (kind_tag(*self) == kind_tag(*other)),
    {
        self.tag() == other.tag()
    }

    /// The script keyword an identifier names, case-insensitively (ON, IF,
    /// ELSE, WHILE, DO, BREAK), or the identifier itself, spelled as given.
    pub fn from_ident(ident: &str) -> (k: TokenKind)
        ensures
            match keyword_of(upper_text(ident@)) {
                Some(kw) => k == kw,
                None => k matches TokenKind::Ident(s) && s@ == ident@,
            },
    {
        let up = to_uppercase(ident);
        let u = up.as_str();
        if str_eq(u, "ON") { TokenKind::On }
        else if str_eq(u, "IF") { TokenKind::If }
        else if str_eq(u, "ELSE") { TokenKind::Else }
        else if str_eq(u, "WHILE") { TokenKind::While }
        else if str_eq(u, "DO") { TokenKind::Do }
        else if str_eq(u, "BREAK") { TokenKind::Break }
        else { TokenKind::Ident(string_from(ident)) }
    }

    /// The room-file keyword an identifier names, case-insensitively, if
    /// any.
    pub fn room_keyword(ident: &str) -> (k: Option<TokenKind>)
        ensures
            k == room_keyword_of(upper_text(ident@)),
    {
        let up = to_uppercase(ident);
        let u = up.as_str();
        if str_eq(u, "ROOM") { Some(TokenKind::Room) }
        else if str_eq(u, "ENDROOM") { Some(TokenKind::EndRoom) }
        else if str_eq(u, "DOOR") { Some(TokenKind::Door) }
        else if str_eq(u, "ENDDOOR") { Some(TokenKind::EndDoor) }
        else if str_eq(u, "SPOT") { Some(TokenKind::Spot) }
        else if str_eq(u, "ENDSPOT") { Some(TokenKind::EndSpot) }
        else if str_eq(u, "SCRIPT") { Some(TokenKind::Script) }
        else if str_eq(u, "ENDSCRIPT") { Some(TokenKind::EndScript) }
        else if str_eq(u, "ID") { Some(TokenKind::Id) }
        else if str_eq(u, "NAME") { Some(TokenKind::Name) }
        else if str_eq(u, "PICT") { Some(TokenKind::Pict) }
        else if str_eq(u, "ARTIST") { Some(TokenKind::Artist) }
        else if str_eq(u, "DEST") { Some(TokenKind::Dest) }
        else if str_eq(u, "OUTLINE") { Some(TokenKind::Outline) }
        else if str_eq(u, "PICTS") { Some(TokenKind::Picts) }
        else if str_eq(u, "ENDPICTS") { Some(TokenKind::EndPicts) }
        else if str_eq(u, "PICTURE") { Some(TokenKind::Picture) }
        else if str_eq(u, "ENDPICTURE") { Some(TokenKind::EndPicture) }
        else if str_eq(u, "TRANSCOLOR") { Some(TokenKind::TransColor) }
        else if str_eq(u, "PRIVATE") { Some(TokenKind::Private) }
        else if str_eq(u, "NOPAINTING") { Some(TokenKind::NoPainting) }
        else if str_eq(u, "NOCYBORGS") { Some(TokenKind::NoCyborgs) }
        else if str_eq(u, "HIDDEN") { Some(TokenKind::Hidden) }
        else if str_eq(u, "NOGUESTS") { Some(TokenKind::NoGuests) }
        else { None }
    }
}

} // verus!
