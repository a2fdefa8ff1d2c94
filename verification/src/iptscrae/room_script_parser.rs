//! The parser of room declarations in server script files.
//!
//! A file is a sequence of `ROOM ... ENDROOM` blocks. Inside a room come its
//! properties (`ID`, `NAME`, `PICT`, `ARTIST`, the flag keywords) and its
//! nested `PICTURE`, `DOOR` and `SPOT` blocks; a door or spot may carry an
//! `OUTLINE` of `h,v` points, a `PICTS ... ENDPICTS` list of
//! `picture,x,y` states and a `SCRIPT ... ENDSCRIPT` block in Iptscrae.
//! Newlines and comments may stand between any two items.
//!
//! What a parse gives back is stated over the tokens, by index: each block
//! is read item by item (a later item of the same kind replaces an earlier
//! one), and a `SCRIPT` body is parsed by the Iptscrae parser.
use vstd::prelude::*;
use crate::iptscrae::ast::Script;
use crate::iptscrae::lexer::{error_is, lex_all, token_model, LexError, LexFail, Lexer, TokModel};
use crate::iptscrae::parser::{fail_is, script_end, script_tree, skip_nl, token_text, ParseError, Parser};
use crate::iptscrae::room_script::{DoorDecl, PictureDecl, RoomDecl, RoomFlags, SpotDecl, StateDecl};
use crate::iptscrae::token::{kind_tag, room_keyword_of, KindModel, SourcePos, Token, TokenKind};
use crate::text::upper_text;
use crate::text::{copy_string, nat_digits, push_char, push_str, string_from, u64_to_string};
use crate::Point;

verus! {

broadcast use vstd::seq_lib::group_seq_properties;

// ---------------------------------------------------------------------------
// What the tokens say
// ---------------------------------------------------------------------------

/// The kind of a token in a room file: an identifier that names a
/// room-file keyword (ROOM, DOOR, ID, ..., in any letter case) is that
/// keyword; every other token is as the script lexer read it.
pub open spec fn room_kind_model(k: KindModel) -> KindModel {
    match k {
        KindModel::Ident(t) => match room_keyword_of(upper_text(t)) {
            Some(kw) => kw.model(),
            None => k,
        },
        _ => k,
    }
}

/// A token of a room file (see `room_kind_model`).
pub open spec fn room_token_model(t: TokModel) -> TokModel {
    TokModel { kind: room_kind_model(t.kind), ..t }
}

/// Whether a token sequence can be walked by the parser: it ends with the
/// end marker.
pub open spec fn room_tokens_ok(ts: Seq<Token>) -> bool {
    ts.len() > 0 && ts.last().kind is Eof
}

/// The 16-bit number written at index `p` (`n` or `- n`), and the index
/// after it.
pub open spec fn i16_at(ts: Seq<Token>, p: int) -> Option<(i16, int)> {
    if !(0 <= p < ts.len()) {
        None
    } else {
        match ts[p].kind {
            TokenKind::Integer(n) => if i16::MIN <= n <= i16::MAX {
                Some((n as i16, p + 1))
            } else {
                None
            },
            TokenKind::Minus => if p + 1 < ts.len() {
                match ts[p + 1].kind {
                    TokenKind::Integer(n) => if i16::MIN <= -n <= i16::MAX {
                        Some(((-n) as i16, p + 2))
                    } else {
                        None
                    },
                    _ => None,
                }
            } else {
                None
            },
            _ => None,
        }
    }
}

/// The text of the string token at index `p`.
pub open spec fn string_at(ts: Seq<Token>, p: int) -> Option<Seq<char>> {
    if 0 <= p < ts.len() {
        match ts[p].kind {
            TokenKind::String(t) => Some(t@),
            _ => None,
        }
    } else {
        None
    }
}

/// The point written at index `p` as `h , v`, and the index after it.
pub open spec fn point_at(ts: Seq<Token>, p: int) -> Option<(Point, int)> {
    match i16_at(ts, p) {
        Some((h, q)) => if 0 <= q < ts.len() && ts[q].kind is Comma {
            match i16_at(ts, q + 1) {
                Some((v, r)) => Some((Point { h, v }, r)),
                None => None,
            }
        } else {
            None
        },
        None => None,
    }
}

/// The state written at index `p` as `picture , x , y`, and the index
/// after it.
pub open spec fn state_at(ts: Seq<Token>, p: int) -> Option<(StateDecl, int)> {
    match i16_at(ts, p) {
        Some((pic, q)) => if 0 <= q < ts.len() && ts[q].kind is Comma {
            match i16_at(ts, q + 1) {
                Some((x, r)) => if 0 <= r < ts.len() && ts[r].kind is Comma {
                    match i16_at(ts, r + 1) {
                        Some((y, e)) => Some((StateDecl { pic_id: pic, x_offset: x, y_offset: y }, e)),
                        None => None,
                    }
                } else {
                    None
                },
                None => None,
            }
        } else {
            None
        },
        None => None,
    }
}

/// Whether the token at `i` is of the kind of `k`.
pub open spec fn kw_at(ts: Seq<Token>, i: int, k: TokenKind) -> bool {
    0 <= i < ts.len() && kind_tag(ts[i].kind) == kind_tag(k)
}

/// The lexer's tokens end with the end marker.
proof fn lemma_lex_all_ends(s: Seq<char>, p: int, line: int, col: int)
    requires
        0 <= p <= s.len(),
    ensures
        lex_all(s, p, line, col) matches Ok(ts) ==> ts.len() > 0 && ts.last().kind == KindModel::Other(52),
    decreases s.len() - p,
{
    crate::iptscrae::lexer::lemma_skip_blanks(s, p);
    let q = crate::iptscrae::lexer::skip_blanks(s, p);
    crate::iptscrae::lexer::lemma_lex_progress(s, q);
    match crate::iptscrae::lexer::lex_next(s, p, line, col) {
        crate::iptscrae::lexer::LexStep::Tok(t, np, nl, nc) => {
            if t.kind == KindModel::Other(52) || np <= p || np > s.len() {
            } else {
                lemma_lex_all_ends(s, np, nl, nc);
                if let Ok(rest) = lex_all(s, np, nl, nc) {
                    assert((seq![t] + rest).last() == rest.last());
                }
            }
        },
        _ => {},
    }
}

// ---------------------------------------------------------------------------
// What the parser reads, by token index
// ---------------------------------------------------------------------------

/// The index of the first token at or after `i` that is neither a newline
/// nor a comment.
pub open spec fn skip_ws(ts: Seq<Token>, i: int) -> int
    decreases ts.len() - i,
{
    if 0 <= i < ts.len() && ignorable(ts[i].kind) {
        skip_ws(ts, i + 1)
    } else {
        i
    }
}

/// Skipping newlines and comments moves forward, to a token that is
/// neither, short of the end.
pub proof fn lemma_skip_ws(ts: Seq<Token>, i: int)
    requires
        0 <= i <= ts.len(),
    ensures
        i <= skip_ws(ts, i) <= ts.len(),
        room_tokens_ok(ts) && i < ts.len() ==> skip_ws(ts, i) < ts.len() && !ignorable(ts[skip_ws(ts, i)].kind),
    decreases ts.len() - i,
{
    if 0 <= i < ts.len() && ignorable(ts[i].kind) {
        if room_tokens_ok(ts) && i + 1 == ts.len() {
            assert(ts[i] == ts.last());
        }
        lemma_skip_ws(ts, i + 1);
    }
}

/// The points of an outline from `p` on, and the index of the keyword
/// that ends it.
pub open spec fn outline_from(ts: Seq<Token>, p: int) -> Option<(Seq<Point>, int)>
    decreases ts.len() - p,
{
    if !(0 <= p <= ts.len()) {
        None
    } else {
        proof {
            lemma_skip_ws(ts, p);
        }
        let q = skip_ws(ts, p);
        if !(q < ts.len()) {
            None
        } else if ends_outline(ts[q].kind) {
            Some((Seq::empty(), q))
        } else {
            match point_at(ts, q) {
                Some((pt, r)) => match outline_from(ts, r) {
                    Some((rest, e)) => Some((seq![pt] + rest, e)),
                    None => None,
                },
                None => None,
            }
        }
    }
}

/// The states of a `PICTS` list from `p` on, and the index after its
/// `ENDPICTS`.
pub open spec fn picts_from(ts: Seq<Token>, p: int) -> Option<(Seq<StateDecl>, int)>
    decreases ts.len() - p,
{
    if !(0 <= p < ts.len()) || ts[p].kind is Eof {
        None
    } else if ts[p].kind is EndPicts {
        Some((Seq::empty(), p + 1))
    } else {
        proof {
            lemma_skip_ws(ts, p);
        }
        let q = skip_ws(ts, p);
        match state_at(ts, q) {
            Some((st, r)) => {
                proof {
                    lemma_skip_ws(ts, r);
                }
                match picts_from(ts, skip_ws(ts, r)) {
                    Some((rest, e)) => Some((seq![st] + rest, e)),
                    None => None,
                }
            },
            None => None,
        }
    }
}

/// The states of `PICTS ... ENDPICTS` at `p`, and the index after it.
pub open spec fn picts_at(ts: Seq<Token>, p: int) -> Option<(Seq<StateDecl>, int)> {
    if kw_at(ts, p, TokenKind::Picts) {
        picts_from(ts, skip_ws(ts, p + 1))
    } else {
        None
    }
}

/// Where the body of a script block, from `i` on with `depth` blocks open,
/// ends: at the `ENDSCRIPT` that closes it, or at the end marker.
pub open spec fn script_body_end(ts: Seq<Token>, i: int, depth: int) -> int
    decreases ts.len() - i,
{
    if !(0 <= i < ts.len()) || ts[i].kind is Eof {
        i
    } else if ts[i].kind is Script {
        script_body_end(ts, i + 1, depth + 1)
    } else if ts[i].kind is EndScript {
        if depth <= 1 {
            i
        } else {
            script_body_end(ts, i + 1, depth - 1)
        }
    } else {
        script_body_end(ts, i + 1, depth)
    }
}

/// A `SCRIPT` block at `q`: the range `[lo, hi)` of its body, and the index
/// after its `ENDSCRIPT`.
pub open spec fn script_block_at(ts: Seq<Token>, q: int) -> Option<(int, int, int)> {
    if kw_at(ts, q, TokenKind::Script) {
        let lo = skip_ws(ts, q + 1);
        let hi = script_body_end(ts, lo, 1);
        if kw_at(ts, hi, TokenKind::EndScript) {
            Some((lo, hi, hi + 1))
        } else {
            None
        }
    } else {
        None
    }
}

/// Whether `body` is what the body `[lo, hi)` of a script block is parsed
/// as: copies of its tokens, then an end marker at the place of the last
/// one (nothing for an empty body).
pub open spec fn body_tokens(ts: Seq<Token>, lo: int, hi: int, body: Seq<Token>) -> bool {
    &&& body.len() == (if hi > lo { hi - lo + 1 } else { 0 })
    &&& forall|j: int| 0 <= j < hi - lo ==> (#[trigger] body[j]).kind.model() == ts[lo + j].kind.model()
        && body[j].pos == ts[lo + j].pos
    &&& hi > lo ==> body[hi - lo].kind is Eof && body[hi - lo].pos == ts[hi - 1].pos
}

/// Whether `sc` is the script of the body `[lo, hi)`: the parse of its
/// tokens.
pub open spec fn script_of(ts: Seq<Token>, lo: int, hi: int, sc: Script) -> bool {
    exists|body: Seq<Token>| #[trigger] body_tokens(ts, lo, hi, body) && script_end(body, skip_nl(body, 0)) is Ok
        && script_tree(body, skip_nl(body, 0), sc.handlers@)
}

/// Whether the tokens of the body `[lo, hi)` do not parse as a script.
pub open spec fn script_fails(ts: Seq<Token>, lo: int, hi: int) -> bool {
    exists|body: Seq<Token>| #[trigger] body_tokens(ts, lo, hi, body) && script_end(body, skip_nl(body, 0)) is Err
}

/// Whether some `SCRIPT` block of the tokens holds a script that does not
/// parse.
pub open spec fn some_script_fails(ts: Seq<Token>) -> bool {
    exists|q: int| (#[trigger] script_block_at(ts, q)) matches Some((lo, hi, _)) && script_fails(ts, lo, hi)
}

/// Whether `e` is the error that parsing the body `[lo, hi)` as a script
/// gives (see `Parser::parse`).
pub open spec fn script_error(ts: Seq<Token>, lo: int, hi: int, e: ParseError) -> bool {
    exists|body: Seq<Token>| #[trigger] body_tokens(ts, lo, hi, body) && (script_end(body, skip_nl(body, 0))
        matches Err(f) && fail_is(e, f, body))
}

/// Whether `e` is the error of parsing some `SCRIPT` block of the tokens.
pub open spec fn some_script_error(ts: Seq<Token>, e: ParseError) -> bool {
    exists|q: int| (#[trigger] script_block_at(ts, q)) matches Some((lo, hi, _)) && script_error(ts, lo, hi, e)
}

/// What a `PICTURE` block has declared so far.
pub struct PictureParts {
    pub id: Option<i16>,
    pub name: Option<Seq<char>>,
    pub trans_color: Option<i16>,
}

/// The items of a `PICTURE` block from `p` on, added to `m`, and the index
/// where they end.
pub open spec fn picture_items(ts: Seq<Token>, p: int, m: PictureParts) -> Option<(PictureParts, int)>
    decreases ts.len() - p,
{
    if !(0 <= p < ts.len()) {
        None
    } else if ts[p].kind is Eof || ts[p].kind is EndPicture {
        Some((m, p))
    } else {
        proof {
            lemma_skip_ws(ts, p);
        }
        let q = skip_ws(ts, p);
        if !(q < ts.len()) {
            None
        } else if ts[q].kind is Id {
            match i16_at(ts, q + 1) {
                Some((v, r)) => {
                    proof {
                        lemma_skip_ws(ts, r);
                    }
                    picture_items(ts, skip_ws(ts, r), PictureParts { id: Some(v), name: m.name, trans_color: m.trans_color })
                },
                None => None,
            }
        } else if ts[q].kind is Name {
            match string_at(ts, q + 1) {
                Some(t) => {
                    proof {
                        lemma_skip_ws(ts, q + 2);
                    }
                    picture_items(ts, skip_ws(ts, q + 2), PictureParts { id: m.id, name: Some(t), trans_color: m.trans_color })
                },
                None => None,
            }
        } else if ts[q].kind is TransColor {
            match i16_at(ts, q + 1) {
                Some((v, r)) => {
                    proof {
                        lemma_skip_ws(ts, r);
                    }
                    picture_items(ts, skip_ws(ts, r), PictureParts { id: m.id, name: m.name, trans_color: Some(v) })
                },
                None => None,
            }
        } else if ignorable(ts[q].kind) {
            picture_items(ts, q + 1, m)
        } else {
            None
        }
    }
}

/// A `PICTURE ... ENDPICTURE` block at `s`, which must have an ID and a
/// NAME, and the index after it.
pub open spec fn picture_at(ts: Seq<Token>, s: int) -> Option<(PictureParts, int)> {
    if kw_at(ts, s, TokenKind::Picture) {
        match picture_items(ts, skip_ws(ts, s + 1), PictureParts { id: None, name: None, trans_color: None }) {
            Some((m, k)) => if kw_at(ts, k, TokenKind::EndPicture) && m.id is Some && m.name is Some {
                Some((m, k + 1))
            } else {
                None
            },
            None => None,
        }
    } else {
        None
    }
}

/// What a `DOOR` or `SPOT` block has declared so far; its script by the
/// range of its body.
pub struct HotspotParts {
    pub id: Option<i16>,
    pub dest: Option<i16>,
    pub name: Option<Seq<char>>,
    pub outline: Seq<Point>,
    pub picts: Seq<StateDecl>,
    pub script: Option<(int, int)>,
}

/// No parts yet.
pub open spec fn no_hotspot_parts() -> HotspotParts {
    HotspotParts { id: None, dest: None, name: None, outline: Seq::empty(), picts: Seq::empty(), script: None }
}

/// The items of a `DOOR` (`door`) or `SPOT` block from `p` on, added to
/// `m`, and the index where they end. Only a door has a `DEST`.
pub open spec fn hotspot_items(ts: Seq<Token>, p: int, m: HotspotParts, door: bool) -> Option<(HotspotParts, int)>
    decreases ts.len() - p,
{
    if !(0 <= p < ts.len()) {
        None
    } else if ts[p].kind is Eof || (door && ts[p].kind is EndDoor) || (!door && ts[p].kind is EndSpot) {
        Some((m, p))
    } else {
        proof {
            lemma_skip_ws(ts, p);
        }
        let q = skip_ws(ts, p);
        if !(q < ts.len()) {
            None
        } else if ts[q].kind is Id {
            match i16_at(ts, q + 1) {
                Some((v, r)) => {
                    proof {
                        lemma_skip_ws(ts, r);
                    }
                    hotspot_items(ts, skip_ws(ts, r), HotspotParts { id: Some(v), ..m }, door)
                },
                None => None,
            }
        } else if door && ts[q].kind is Dest {
            match i16_at(ts, q + 1) {
                Some((v, r)) => {
                    proof {
                        lemma_skip_ws(ts, r);
                    }
                    hotspot_items(ts, skip_ws(ts, r), HotspotParts { dest: Some(v), ..m }, door)
                },
                None => None,
            }
        } else if ts[q].kind is Name {
            match string_at(ts, q + 1) {
                Some(t) => {
                    proof {
                        lemma_skip_ws(ts, q + 2);
                    }
                    hotspot_items(ts, skip_ws(ts, q + 2), HotspotParts { name: Some(t), ..m }, door)
                },
                None => None,
            }
        } else if ts[q].kind is Outline {
            match outline_from(ts, q + 1) {
                Some((pts, r)) => if q < r <= ts.len() {
                    proof {
                        lemma_skip_ws(ts, r);
                    }
                    hotspot_items(ts, skip_ws(ts, r), HotspotParts { outline: pts, ..m }, door)
                } else {
                    None
                },
                None => None,
            }
        } else if ts[q].kind is Picts {
            match picts_at(ts, q) {
                Some((sts, r)) => if q < r <= ts.len() {
                    proof {
                        lemma_skip_ws(ts, r);
                    }
                    hotspot_items(ts, skip_ws(ts, r), HotspotParts { picts: sts, ..m }, door)
                } else {
                    None
                },
                None => None,
            }
        } else if ts[q].kind is Script {
            match script_block_at(ts, q) {
                Some((lo, hi, r)) => if q < r <= ts.len() {
                    proof {
                        lemma_skip_ws(ts, r);
                    }
                    hotspot_items(ts, skip_ws(ts, r), HotspotParts { script: Some((lo, hi)), ..m }, door)
                } else {
                    None
                },
                None => None,
            }
        } else if ignorable(ts[q].kind) {
            proof {
                lemma_skip_ws(ts, q + 1);
            }
            hotspot_items(ts, skip_ws(ts, q + 1), m, door)
        } else {
            None
        }
    }
}

/// A `DOOR ... ENDDOOR` (`door`) or `SPOT ... ENDSPOT` block at `s`, which
/// must have an ID (and a door a DEST), and the index after it.
pub open spec fn hotspot_at(ts: Seq<Token>, s: int, door: bool) -> Option<(HotspotParts, int)> {
    let start = if door { TokenKind::Door } else { TokenKind::Spot };
    let end = if door { TokenKind::EndDoor } else { TokenKind::EndSpot };
    if kw_at(ts, s, start) {
        match hotspot_items(ts, skip_ws(ts, s + 1), no_hotspot_parts(), door) {
            Some((m, k)) => if kw_at(ts, k, end) && m.id is Some && (door ==> m.dest is Some) {
                Some((m, k + 1))
            } else {
                None
            },
            None => None,
        }
    } else {
        None
    }
}

/// What a `ROOM` block has declared so far; its pictures, doors and spots
/// by where their blocks start.
pub struct RoomParts {
    pub id: Option<i16>,
    pub name: Option<Seq<char>>,
    pub pict: Option<Seq<char>>,
    pub artist: Option<Seq<char>>,
    pub flags: RoomFlags,
    pub pictures: Seq<int>,
    pub doors: Seq<int>,
    pub spots: Seq<int>,
}

/// No parts yet.
pub open spec fn no_room_parts() -> RoomParts {
    RoomParts {
        id: None,
        name: None,
        pict: None,
        artist: None,
        flags: RoomFlags { private: false, no_painting: false, no_cyborgs: false, hidden: false, no_guests: false },
        pictures: Seq::empty(),
        doors: Seq::empty(),
        spots: Seq::empty(),
    }
}

/// The flags with the one that a flag keyword sets.
pub open spec fn set_flag(f: RoomFlags, k: TokenKind) -> RoomFlags {
    match k {
        TokenKind::Private => RoomFlags { private: true, ..f },
        TokenKind::NoPainting => RoomFlags { no_painting: true, ..f },
        TokenKind::NoCyborgs => RoomFlags { no_cyborgs: true, ..f },
        TokenKind::Hidden => RoomFlags { hidden: true, ..f },
        TokenKind::NoGuests => RoomFlags { no_guests: true, ..f },
        _ => f,
    }
}

/// Whether a token is a flag keyword of a room.
pub open spec fn flag_keyword(k: TokenKind) -> bool {
    k is Private || k is NoPainting || k is NoCyborgs || k is Hidden || k is NoGuests
}

/// The items of a `ROOM` block from `p` on, added to `m`, and the index
/// where they end.
pub open spec fn room_items(ts: Seq<Token>, p: int, m: RoomParts) -> Option<(RoomParts, int)>
    decreases ts.len() - p,
{
    if !(0 <= p < ts.len()) {
        None
    } else if ts[p].kind is Eof || ts[p].kind is EndRoom {
        Some((m, p))
    } else {
        proof {
            lemma_skip_ws(ts, p);
        }
        let q = skip_ws(ts, p);
        if !(q < ts.len()) {
            None
        } else if ts[q].kind is Id {
            match i16_at(ts, q + 1) {
                Some((v, r)) => {
                    proof {
                        lemma_skip_ws(ts, r);
                    }
                    room_items(ts, skip_ws(ts, r), RoomParts { id: Some(v), ..m })
                },
                None => None,
            }
        } else if ts[q].kind is Name || ts[q].kind is Pict || ts[q].kind is Artist {
            match string_at(ts, q + 1) {
                Some(t) => {
                    proof {
                        lemma_skip_ws(ts, q + 2);
                    }
                    let m2 = if ts[q].kind is Name {
                        RoomParts { name: Some(t), ..m }
                    } else if ts[q].kind is Pict {
                        RoomParts { pict: Some(t), ..m }
                    } else {
                        RoomParts { artist: Some(t), ..m }
                    };
                    room_items(ts, skip_ws(ts, q + 2), m2)
                },
                None => None,
            }
        } else if flag_keyword(ts[q].kind) {
            proof {
                lemma_skip_ws(ts, q + 1);
            }
            room_items(ts, skip_ws(ts, q + 1), RoomParts { flags: set_flag(m.flags, ts[q].kind), ..m })
        } else if ts[q].kind is Picture || ts[q].kind is Door || ts[q].kind is Spot {
            let item = if ts[q].kind is Picture {
                match picture_at(ts, q) {
                    Some((_, r)) => Some(r),
                    None => None,
                }
            } else {
                match hotspot_at(ts, q, ts[q].kind is Door) {
                    Some((_, r)) => Some(r),
                    None => None,
                }
            };
            match item {
                Some(r) => if q < r <= ts.len() {
                    proof {
                        lemma_skip_ws(ts, r);
                    }
                    let m2 = if ts[q].kind is Picture {
                        RoomParts { pictures: m.pictures.push(q), ..m }
                    } else if ts[q].kind is Door {
                        RoomParts { doors: m.doors.push(q), ..m }
                    } else {
                        RoomParts { spots: m.spots.push(q), ..m }
                    };
                    room_items(ts, skip_ws(ts, r), m2)
                } else {
                    None
                },
                None => None,
            }
        } else if ignorable(ts[q].kind) {
            proof {
                lemma_skip_ws(ts, q + 1);
            }
            room_items(ts, skip_ws(ts, q + 1), m)
        } else {
            None
        }
    }
}

/// Each flag keyword sets its own flag of a room and keeps the others:
/// after `set_flag` a flag is set exactly when it was set before or the
/// keyword names it.
pub proof fn lemma_set_flag(f: RoomFlags, k: TokenKind)
    ensures
        set_flag(f, k).private == (f.private || k is Private),
        set_flag(f, k).no_painting == (f.no_painting || k is NoPainting),
        set_flag(f, k).no_cyborgs == (f.no_cyborgs || k is NoCyborgs),
        set_flag(f, k).hidden == (f.hidden || k is Hidden),
        set_flag(f, k).no_guests == (f.no_guests || k is NoGuests),
{
}

/// Whether every flag set in `f` is set in `g`.
pub open spec fn flags_within(f: RoomFlags, g: RoomFlags) -> bool {
    &&& f.private ==> g.private
    &&& f.no_painting ==> g.no_painting
    &&& f.no_cyborgs ==> g.no_cyborgs
    &&& f.hidden ==> g.hidden
    &&& f.no_guests ==> g.no_guests
}

/// Reading the items of a room never clears a flag.
pub proof fn lemma_room_items_keep_flags(ts: Seq<Token>, p: int, m: RoomParts)
    ensures
        room_items(ts, p, m) matches Some((m2, _)) ==> flags_within(m.flags, m2.flags),
    decreases ts.len() - p,
{
    if 0 <= p < ts.len() && !(ts[p].kind is Eof || ts[p].kind is EndRoom) {
        lemma_skip_ws(ts, p);
        let q = skip_ws(ts, p);
        if q < ts.len() {
            if ts[q].kind is Id {
                if let Some((v, r)) = i16_at(ts, q + 1) {
                    lemma_skip_ws(ts, r);
                    lemma_room_items_keep_flags(ts, skip_ws(ts, r), RoomParts { id: Some(v), ..m });
                }
            } else if ts[q].kind is Name || ts[q].kind is Pict || ts[q].kind is Artist {
                if let Some(t) = string_at(ts, q + 1) {
                    lemma_skip_ws(ts, q + 2);
                    let m2 = if ts[q].kind is Name {
                        RoomParts { name: Some(t), ..m }
                    } else if ts[q].kind is Pict {
                        RoomParts { pict: Some(t), ..m }
                    } else {
                        RoomParts { artist: Some(t), ..m }
                    };
                    lemma_room_items_keep_flags(ts, skip_ws(ts, q + 2), m2);
                }
            } else if flag_keyword(ts[q].kind) {
                lemma_skip_ws(ts, q + 1);
                let m2 = RoomParts { flags: set_flag(m.flags, ts[q].kind), ..m };
                lemma_set_flag(m.flags, ts[q].kind);
                lemma_room_items_keep_flags(ts, skip_ws(ts, q + 1), m2);
            } else if ts[q].kind is Picture || ts[q].kind is Door || ts[q].kind is Spot {
                let item = if ts[q].kind is Picture {
                    match picture_at(ts, q) {
                        Some((_, r)) => Some(r),
                        None => None,
                    }
                } else {
                    match hotspot_at(ts, q, ts[q].kind is Door) {
                        Some((_, r)) => Some(r),
                        None => None,
                    }
                };
                if let Some(r) = item {
                    if q < r <= ts.len() {
                        lemma_skip_ws(ts, r);
                        let m2 = if ts[q].kind is Picture {
                            RoomParts { pictures: m.pictures.push(q), ..m }
                        } else if ts[q].kind is Door {
                            RoomParts { doors: m.doors.push(q), ..m }
                        } else {
                            RoomParts { spots: m.spots.push(q), ..m }
                        };
                        lemma_room_items_keep_flags(ts, skip_ws(ts, r), m2);
                    }
                }
            } else if ignorable(ts[q].kind) {
                lemma_skip_ws(ts, q + 1);
                lemma_room_items_keep_flags(ts, skip_ws(ts, q + 1), m);
            }
        }
    }
}

/// A flag keyword among the items of a room sets its flag in the room
/// that is read: where the item read from `p` is the keyword `k`, every
/// flag that `k` names is set in the parts the items give.
pub proof fn lemma_room_flag_item(ts: Seq<Token>, p: int, m: RoomParts)
    requires
        0 <= p < ts.len(),
        !(ts[p].kind is Eof || ts[p].kind is EndRoom),
        skip_ws(ts, p) < ts.len(),
        flag_keyword(ts[skip_ws(ts, p)].kind),
    ensures
        room_items(ts, p, m) matches Some((m2, _)) ==> {
            let k = ts[skip_ws(ts, p)].kind;
            &&& k is Private ==> m2.flags.private
            &&& k is NoPainting ==> m2.flags.no_painting
            &&& k is NoCyborgs ==> m2.flags.no_cyborgs
            &&& k is Hidden ==> m2.flags.hidden
            &&& k is NoGuests ==> m2.flags.no_guests
        },
{
    let q = skip_ws(ts, p);
    lemma_skip_ws(ts, p);
    lemma_skip_ws(ts, q + 1);
    let k = ts[q].kind;
    lemma_set_flag(m.flags, k);
    lemma_room_items_keep_flags(ts, skip_ws(ts, q + 1), RoomParts { flags: set_flag(m.flags, k), ..m });
}

/// A `ROOM ... ENDROOM` block at `s`, which must have an ID, and the index
/// after it.
pub open spec fn room_at(ts: Seq<Token>, s: int) -> Option<(RoomParts, int)> {
    if kw_at(ts, s, TokenKind::Room) {
        match room_items(ts, skip_ws(ts, s + 1), no_room_parts()) {
            Some((m, k)) => if kw_at(ts, k, TokenKind::EndRoom) && m.id is Some {
                Some((m, k + 1))
            } else {
                None
            },
            None => None,
        }
    } else {
        None
    }
}

/// The requirement that a `PICTURE`, `DOOR` or `SPOT` block at `q`
/// misses, as the parser words it, where its items read up to its end
/// keyword: a picture needs an ID and a NAME, a door an ID and a DEST, a
/// spot an ID.
pub open spec fn block_missing(ts: Seq<Token>, q: int) -> Option<Seq<char>> {
    if kw_at(ts, q, TokenKind::Picture) {
        match picture_items(ts, skip_ws(ts, q + 1), PictureParts { id: None, name: None, trans_color: None }) {
            Some((m, k)) => if !kw_at(ts, k, TokenKind::EndPicture) {
                None
            } else if m.id is None {
                Some("PICTURE must have an ID"@)
            } else if m.name is None {
                Some("PICTURE must have a NAME"@)
            } else {
                None
            },
            None => None,
        }
    } else if kw_at(ts, q, TokenKind::Door) {
        match hotspot_items(ts, skip_ws(ts, q + 1), no_hotspot_parts(), true) {
            Some((m, k)) => if !kw_at(ts, k, TokenKind::EndDoor) {
                None
            } else if m.id is None {
                Some("DOOR must have an ID"@)
            } else if m.dest is None {
                Some("DOOR must have a DEST"@)
            } else {
                None
            },
            None => None,
        }
    } else if kw_at(ts, q, TokenKind::Spot) {
        match hotspot_items(ts, skip_ws(ts, q + 1), no_hotspot_parts(), false) {
            Some((m, k)) => if kw_at(ts, k, TokenKind::EndSpot) && m.id is None {
                Some("SPOT must have an ID"@)
            } else {
                None
            },
            None => None,
        }
    } else {
        None
    }
}

/// Walking the items of a `ROOM` block from `p` on as `room_items` does:
/// the requirement missed by the first nested block that does not read
/// for that reason, if the walk comes to one.
pub open spec fn room_items_missing(ts: Seq<Token>, p: int) -> Option<Seq<char>>
    decreases ts.len() - p,
{
    if !(0 <= p < ts.len()) {
        None
    } else if ts[p].kind is Eof || ts[p].kind is EndRoom {
        None
    } else {
        proof {
            lemma_skip_ws(ts, p);
        }
        let q = skip_ws(ts, p);
        if !(q < ts.len()) {
            None
        } else if ts[q].kind is Id {
            match i16_at(ts, q + 1) {
                Some((v, r)) => {
                    proof {
                        lemma_skip_ws(ts, r);
                    }
                    room_items_missing(ts, skip_ws(ts, r))
                },
                None => None,
            }
        } else if ts[q].kind is Name || ts[q].kind is Pict || ts[q].kind is Artist {
            match string_at(ts, q + 1) {
                Some(t) => {
                    proof {
                        lemma_skip_ws(ts, q + 2);
                    }
                    room_items_missing(ts, skip_ws(ts, q + 2))
                },
                None => None,
            }
        } else if flag_keyword(ts[q].kind) {
            proof {
                lemma_skip_ws(ts, q + 1);
            }
            room_items_missing(ts, skip_ws(ts, q + 1))
        } else if ts[q].kind is Picture || ts[q].kind is Door || ts[q].kind is Spot {
            let item = if ts[q].kind is Picture {
                match picture_at(ts, q) {
                    Some((_, r)) => Some(r),
                    None => None,
                }
            } else {
                match hotspot_at(ts, q, ts[q].kind is Door) {
                    Some((_, r)) => Some(r),
                    None => None,
                }
            };
            match item {
                Some(r) => if q < r <= ts.len() {
                    proof {
                        lemma_skip_ws(ts, r);
                    }
                    room_items_missing(ts, skip_ws(ts, r))
                } else {
                    None
                },
                None => block_missing(ts, q),
            }
        } else if ignorable(ts[q].kind) {
            proof {
                lemma_skip_ws(ts, q + 1);
            }
            room_items_missing(ts, skip_ws(ts, q + 1))
        } else {
            None
        }
    }
}

/// Whether the block at `s` is a room whose items read up to `ENDROOM` but
/// that declares no ID.
pub open spec fn room_without_id(ts: Seq<Token>, s: int) -> bool {
    &&& kw_at(ts, s, TokenKind::Room)
    &&& room_items(ts, skip_ws(ts, s + 1), no_room_parts()) matches Some((m, k))
    &&& kw_at(ts, k, TokenKind::EndRoom)
    &&& m.id is None
}

/// The requirement that the `ROOM` block at `s` misses, as the parser
/// words it: that of a nested block (see `room_items_missing`), or the
/// room's own ID.
pub open spec fn room_missing(ts: Seq<Token>, s: int) -> Option<Seq<char>> {
    if kw_at(ts, s, TokenKind::Room) {
        match room_items_missing(ts, skip_ws(ts, s + 1)) {
            Some(msg) => Some(msg),
            None => if room_without_id(ts, s) {
                Some("Room must have an ID"@)
            } else {
                None
            },
        }
    } else {
        None
    }
}

/// Reading the rooms of a file from `p` on, after rooms that read: the
/// requirement missed by the first room that does not read for that
/// reason, if the walk comes to one.
pub open spec fn reaches_missing(ts: Seq<Token>, p: int) -> Option<Seq<char>>
    decreases ts.len() - p,
{
    if !(0 <= p < ts.len()) {
        None
    } else if ts[p].kind is Eof {
        None
    } else if ignorable(ts[p].kind) {
        reaches_missing(ts, p + 1)
    } else if ts[p].kind is Room {
        match room_at(ts, p) {
            Some((_, r)) => if p < r <= ts.len() {
                proof {
                    lemma_skip_ws(ts, r);
                }
                reaches_missing(ts, skip_ws(ts, r))
            } else {
                None
            },
            None => room_missing(ts, p),
        }
    } else {
        None
    }
}

/// The rooms of a file from `p` on, by where their blocks start.
pub open spec fn rooms_from_index(ts: Seq<Token>, p: int) -> Option<Seq<int>>
    decreases ts.len() - p,
{
    if !(0 <= p < ts.len()) {
        None
    } else if ts[p].kind is Eof {
        Some(Seq::empty())
    } else if ignorable(ts[p].kind) {
        rooms_from_index(ts, p + 1)
    } else if ts[p].kind is Room {
        match room_at(ts, p) {
            Some((_, r)) => if p < r <= ts.len() {
                proof {
                    lemma_skip_ws(ts, r);
                }
                match rooms_from_index(ts, skip_ws(ts, r)) {
                    Some(rest) => Some(seq![p] + rest),
                    None => None,
                }
            } else {
                None
            },
            None => None,
        }
    } else {
        None
    }
}

/// The points gathered so far followed by the rest of an outline.
pub open spec fn after_points(done: Seq<Point>, rest: Option<(Seq<Point>, int)>) -> Option<(Seq<Point>, int)> {
    match rest {
        Some((r, e)) => Some((done + r, e)),
        None => None,
    }
}

/// The states gathered so far followed by the rest of a `PICTS` list.
pub open spec fn after_states(done: Seq<StateDecl>, rest: Option<(Seq<StateDecl>, int)>) -> Option<(Seq<StateDecl>, int)> {
    match rest {
        Some((r, e)) => Some((done + r, e)),
        None => None,
    }
}

/// The rooms gathered so far followed by the rest of a file.
pub open spec fn after_rooms(done: Seq<int>, rest: Option<Seq<int>>) -> Option<Seq<int>> {
    match rest {
        Some(r) => Some(done + r),
        None => None,
    }
}

/// The text of an optional string.
pub open spec fn opt_text(o: Option<String>) -> Option<Seq<char>> {
    match o {
        Some(t) => Some(t@),
        None => None,
    }
}

/// Whether an optional script is the one that an optional body range gives.
pub open spec fn script_is(ts: Seq<Token>, range: Option<(int, int)>, sc: Option<Script>) -> bool {
    match range {
        None => sc is None,
        Some((lo, hi)) => sc matches Some(x) && script_of(ts, lo, hi, x),
    }
}

/// Whether `d` is the picture declared by the block at `s`.
pub open spec fn picture_is(ts: Seq<Token>, s: int, d: PictureDecl) -> bool {
    picture_at(ts, s) matches Some((m, _)) && m.id == Some(d.id) && m.name == Some(d.name@) && m.trans_color
        == d.trans_color
}

/// Whether `d` is the door declared by the block at `s`.
pub open spec fn door_is(ts: Seq<Token>, s: int, d: DoorDecl) -> bool {
    hotspot_at(ts, s, true) matches Some((m, _)) && m.id == Some(d.id) && m.dest == Some(d.dest) && m.name
        == opt_text(d.name) && m.outline == d.outline@ && m.picts == d.picts@ && script_is(ts, m.script, d.script)
}

/// Whether `d` is the spot declared by the block at `s`.
pub open spec fn spot_is(ts: Seq<Token>, s: int, d: SpotDecl) -> bool {
    hotspot_at(ts, s, false) matches Some((m, _)) && m.id == Some(d.id) && m.name == opt_text(d.name)
        && m.outline == d.outline@ && m.picts == d.picts@ && script_is(ts, m.script, d.script)
}

/// Whether `r` is the room declared by the block at `s`: its fields, and
/// its pictures, doors and spots in the order of their blocks.
pub open spec fn room_is(ts: Seq<Token>, s: int, r: RoomDecl) -> bool {
    &&& room_at(ts, s) matches Some((m, _))
    &&& m.id == Some(r.id)
    &&& m.name == opt_text(r.name)
    &&& m.pict == opt_text(r.pict)
    &&& m.artist == opt_text(r.artist)
    &&& r.password is None
    &&& m.flags == r.flags
    &&& m.pictures.len() == r.pictures@.len()
    &&& forall|k: int| 0 <= k < m.pictures.len() ==> picture_is(ts, m.pictures[k], #[trigger] r.pictures@[k])
    &&& m.doors.len() == r.doors@.len()
    &&& forall|k: int| 0 <= k < m.doors.len() ==> door_is(ts, m.doors[k], #[trigger] r.doors@[k])
    &&& m.spots.len() == r.spots@.len()
    &&& forall|k: int| 0 <= k < m.spots.len() ==> spot_is(ts, m.spots[k], #[trigger] r.spots@[k])
}

// ---------------------------------------------------------------------------
// The parser
// ---------------------------------------------------------------------------

/// Parser for room script files.
pub struct RoomScriptParser {
    tokens: Vec<Token>,
    pos: usize,
}

/// Whether a token is skipped between items: a newline or a comment.
pub open spec fn ignorable(k: TokenKind) -> bool {
    k is Newline || k is Comment
}

/// Whether a token ends an outline: an end keyword, or a keyword that
/// starts another item.
pub open spec fn ends_outline(k: TokenKind) -> bool {
    k is EndRoom || k is EndDoor || k is EndSpot || k is Door || k is Spot || k is Picture
        || k is Picts || k is Script || k is Id || k is Name || k is Dest || k is Pict
        || k is Artist || k is Private || k is NoPainting || k is NoCyborgs || k is Hidden
        || k is NoGuests
}

/// The error that a lexer failure becomes: an unexpected token at the
/// failure's place.
pub open spec fn lex_failure_error(e: ParseError, f: LexFail) -> bool {
    e matches ParseError::UnexpectedToken { expected, pos, .. } && expected@ == "valid token"@
        && match f {
            LexFail::Unterminated(l, c) => pos.line == l as usize && pos.column == c as usize,
            LexFail::InvalidChar(_, l, c) => pos.line == l as usize && pos.column == c as usize,
            LexFail::InvalidNumber(_, l, c) => pos.line == l as usize && pos.column == c as usize,
        }
}

/// The text of a lexer error as it stands in a message: the variant's
/// name and its fields, written as Rust's `Debug` writes them.
pub open spec fn lex_error_message(e: LexError) -> Seq<char> {
    match e {
        LexError::UnterminatedString { line, column } =>
            "UnterminatedString { line: "@ + nat_digits(line as nat) + ", column: "@
                + nat_digits(column as nat) + " }"@,
        LexError::InvalidCharacter { ch, line, column } =>
            "InvalidCharacter { ch: '"@ + seq![ch] + "', line: "@ + nat_digits(line as nat)
                + ", column: "@ + nat_digits(column as nat) + " }"@,
        LexError::InvalidNumber { text, line, column } =>
            "InvalidNumber { text: \""@ + text@ + "\", line: "@ + nat_digits(line as nat)
                + ", column: "@ + nat_digits(column as nat) + " }"@,
    }
}

/// The text of a lexer error, as part of a message.
fn lex_error_text(e: &LexError) -> (s: String)
    ensures
        s@ == lex_error_message(*e),
{
    let mut s = String::new();
    match e {
        LexError::UnterminatedString { line, column } => {
            push_str(&mut s, "UnterminatedString { line: ");
            push_str(&mut s, u64_to_string(*line as u64).as_str());
            push_str(&mut s, ", column: ");
            push_str(&mut s, u64_to_string(*column as u64).as_str());
        },
        LexError::InvalidCharacter { ch, line, column } => {
            push_str(&mut s, "InvalidCharacter { ch: '");
            push_char(&mut s, *ch);
            push_str(&mut s, "', line: ");
            push_str(&mut s, u64_to_string(*line as u64).as_str());
            push_str(&mut s, ", column: ");
            push_str(&mut s, u64_to_string(*column as u64).as_str());
        },
        LexError::InvalidNumber { text, line, column } => {
            push_str(&mut s, "InvalidNumber { text: \"");
            push_str(&mut s, text.as_str());
            push_str(&mut s, "\", line: ");
            push_str(&mut s, u64_to_string(*line as u64).as_str());
            push_str(&mut s, ", column: ");
            push_str(&mut s, u64_to_string(*column as u64).as_str());
        },
    }
    push_str(&mut s, " }");
    s
}

/// `prefix` followed by a description of the token kind.
fn with_found(prefix: &str, kind: &TokenKind) -> (s: String)
    ensures
        s@ == prefix@ + token_text(*kind),
{
    let mut s = string_from(prefix);
    let d = Parser::token_description(kind);
    push_str(&mut s, d.as_str());
    s
}

impl RoomScriptParser {
    /// The tokens being parsed.
    pub closed spec fn tokens(&self) -> Seq<Token> {
        self.tokens@
    }

    /// The index of the next token.
    pub closed spec fn position(&self) -> int {
        self.pos as int
    }

    /// The parser's invariant: the tokens end with the end marker and the
    /// parser stands on one of them.
    pub closed spec fn wf(&self) -> bool {
        room_tokens_ok(self.tokens@) && self.pos < self.tokens.len()
    }

    /// A parser over the tokens of `source`.
    ///
    /// It fails exactly where the lexer fails, with an unexpected-token
    /// error at the place of the failure; otherwise it holds the lexer's
    /// tokens, up to and including the end marker.
    pub fn new(source: &str) -> (r: Result<RoomScriptParser, ParseError>)
        ensures
            match lex_all(source@, 0, 1, 1) {
                Ok(ts) => r matches Ok(p) && p.wf() && p.position() == 0 && p.tokens().len() == ts.len()
                    && forall|i: int| 0 <= i < ts.len() ==> #[trigger] token_model(p.tokens()[i]) == room_token_model(ts[i]),
                Err(f) => r matches Err(e) && lex_failure_error(e, f),
            },
    {
        let mut lexer = Lexer::new(source);
        proof {
            lemma_lex_all_ends(source@, 0, 1, 1);
        }
        match lexer.tokenize() {
            Ok(tokens) => {
                let ghost ts = lex_all(source@, 0, 1, 1)->Ok_0;
                let mut room_tokens: Vec<Token> = Vec::new();
                let mut i: usize = 0;
                while i < tokens.len()
                    invariant
                        i <= tokens@.len(),
                        tokens@.len() == ts.len(),
                        forall|j: int| 0 <= j < ts.len() ==> #[trigger] token_model(tokens@[j]) == ts[j],
                        room_tokens@.len() == i,
                        forall|j: int| 0 <= j < i ==> #[trigger] token_model(room_tokens@[j]) == room_token_model(ts[j]),
                    decreases tokens@.len() - i,
                {
                    let t = &tokens[i];
                    assert(token_model(*t) == ts[i as int]);
                    let mapped = match &t.kind {
                        TokenKind::Ident(word) => match TokenKind::room_keyword(word.as_str()) {
                            Some(kw) => {
                                assert(room_kind_model(t.kind.model()) == kw.model());
                                Token::new(kw, t.pos)
                            },
                            None => {
                                assert(room_kind_model(t.kind.model()) == t.kind.model());
                                t.duplicate()
                            },
                        },
                        _ => {
                            assert(room_kind_model(t.kind.model()) == t.kind.model());
                            t.duplicate()
                        },
                    };
                    assert(token_model(mapped) =~= room_token_model(ts[i as int]));
                    room_tokens.push(mapped);
                    i = i + 1;
                }
                proof {
                    assert(token_model(tokens@[tokens@.len() - 1]) == ts[ts.len() - 1]);
                    assert(tokens@.last().kind is Eof);
                    assert(token_model(room_tokens@[room_tokens@.len() - 1]) == room_token_model(ts[ts.len() - 1]));
                    assert(room_tokens@.last().kind is Eof);
                }
                Ok(RoomScriptParser { tokens: room_tokens, pos: 0 })
            },
            Err(e) => {
                let pos = match &e {
                    LexError::UnterminatedString { line, column } => SourcePos::new(*line, *column),
                    LexError::InvalidCharacter { line, column, .. } => SourcePos::new(*line, *column),
                    LexError::InvalidNumber { line, column, .. } => SourcePos::new(*line, *column),
                };
                let mut found = string_from("lexer error: ");
                push_str(&mut found, lex_error_text(&e).as_str());
                Err(ParseError::UnexpectedToken { expected: string_from("valid token"), found, pos })
            },
        }
    }

    fn current(&self) -> (t: &Token)
        requires
            self.wf(),
        ensures
            *t == self.tokens@[self.pos as int],
    {
        &self.tokens[self.pos]
    }

    fn is_at_end(&self) -> (b: bool)
        requires
            self.wf(),
        ensures
            b == (self.tokens@[self.pos as int].kind is Eof),
    {
        match self.current().kind {
            TokenKind::Eof => true,
            _ => false,
        }
    }

    fn at(&self, kind: &TokenKind) -> (b: bool)
        requires
            self.wf(),
        ensures
            b == (kind_tag(self.tokens@[self.pos as int].kind) == kind_tag(*kind)),
    {
        self.current().kind.same_kind(kind)
    }

    fn at_ignorable(&self) -> (b: bool)
        requires
            self.wf(),
        ensures
            b == ignorable(self.tokens@[self.pos as int].kind),
    {
        match self.current().kind {
            TokenKind::Newline | TokenKind::Comment(_) => true,
            _ => false,
        }
    }

    fn advance(&mut self)
        requires
            old(self).wf(),
        ensures
            final(self).wf(),
            final(self).tokens == old(self).tokens,
            final(self).pos == (if old(self).tokens@[old(self).pos as int].kind is Eof {
                old(self).pos
            } else {
                (old(self).pos + 1) as usize
            }),
    {
        if !self.is_at_end() {
            assert(self.pos + 1 < self.tokens@.len()) by {
                if self.pos + 1 >= self.tokens@.len() {
                    assert(self.tokens@[self.pos as int] == self.tokens@.last());
                }
            }
            self.pos = self.pos + 1;
        }
    }

    fn skip_newlines(&mut self)
        requires
            old(self).wf(),
        ensures
            final(self).wf(),
            final(self).tokens == old(self).tokens,
            old(self).pos <= final(self).pos,
            !ignorable(final(self).tokens@[final(self).pos as int].kind),
            final(self).pos == skip_ws(old(self).tokens@, old(self).pos as int),
    {
        while self.at_ignorable()
            invariant
                self.wf(),
                self.tokens == old(self).tokens,
                old(self).pos <= self.pos,
                skip_ws(self.tokens@, self.pos as int) == skip_ws(old(self).tokens@, old(self).pos as int),
            decreases self.tokens@.len() - self.pos,
        {
            self.advance();
        }
    }

    /// An error at the current token with the given message.
    fn error(&self, message: String) -> (e: ParseError)
        requires
            self.wf(),
        ensures
            e matches ParseError::UnexpectedToken { expected, pos, .. } && expected@ == message@
                && pos == self.tokens@[self.pos as int].pos,
    {
        let tok = self.current();
        ParseError::UnexpectedToken { expected: message, found: Parser::token_description(&tok.kind), pos: tok.pos }
    }

    fn expect(&mut self, kind: &TokenKind) -> (r: Result<(), ParseError>)
        requires
            old(self).wf(),
            !(*kind is Eof),
        ensures
            final(self).wf(),
            final(self).tokens == old(self).tokens,
            old(self).pos <= final(self).pos,
            (r is Ok) == kw_at(old(self).tokens@, old(self).pos as int, *kind),
            r is Ok ==> final(self).pos == old(self).pos + 1,
    {
        if !self.at(kind) {
            let mut m = with_found("Expected ", kind);
            push_str(&mut m, ", found ");
            let d = Parser::token_description(&self.current().kind);
            push_str(&mut m, d.as_str());
            return Err(self.error(m));
        }
        self.advance();
        Ok(())
    }

    fn parse_i16(&mut self) -> (r: Result<i16, ParseError>)
        requires
            old(self).wf(),
        ensures
            final(self).wf(),
            final(self).tokens == old(self).tokens,
            old(self).pos <= final(self).pos,
            match i16_at(old(self).tokens@, old(self).pos as int) {
                Some((v, q)) => r == Ok::<i16, ParseError>(v) && final(self).pos == q,
                None => r is Err,
            },
    {
        let ghost ts = self.tokens@;
        let ghost p = self.pos as int;
        match &self.current().kind {
            TokenKind::Integer(n) => {
                let value: i32 = *n;
                self.advance();
                if value < -32768 || value > 32767 {
                    let mut m = string_from("Integer ");
                    push_str(&mut m, crate::text::i32_to_string(value).as_str());
                    push_str(&mut m, " out of range for i16");
                    Err(self.error(m))
                } else {
                    Ok(value as i16)
                }
            },
            TokenKind::Minus => {
                self.advance();
                match &self.current().kind {
                    TokenKind::Integer(n) => {
                        let n: i32 = *n;
                        let value: i64 = -(n as i64);
                        self.advance();
                        if value < -32768 || value > 32767 {
                            let mut m = string_from("Integer -");
                            push_str(&mut m, crate::text::i32_to_string(n).as_str());
                            push_str(&mut m, " out of range for i16");
                            Err(self.error(m))
                        } else {
                            Ok(value as i16)
                        }
                    },
                    _ => {
                        let m = with_found("Expected integer after minus sign, found ", &self.current().kind);
                        Err(self.error(m))
                    },
                }
            },
            _ => {
                let m = with_found("Expected integer, found ", &self.current().kind);
                Err(self.error(m))
            },
        }
    }

    fn parse_string(&mut self) -> (r: Result<String, ParseError>)
        requires
            old(self).wf(),
        ensures
            final(self).wf(),
            final(self).tokens == old(self).tokens,
            old(self).pos <= final(self).pos,
            match string_at(old(self).tokens@, old(self).pos as int) {
                Some(t) => r matches Ok(s) && s@ == t && final(self).pos == old(self).pos + 1,
                None => r is Err,
            },
    {
        match &self.current().kind {
            TokenKind::String(t) => {
                let value = copy_string(t);
                self.advance();
                Ok(value)
            },
            _ => {
                let m = with_found("Expected string, found ", &self.current().kind);
                Err(self.error(m))
            },
        }
    }
}

impl RoomScriptParser {
    fn at_outline_end(&self) -> (b: bool)
        requires
            self.wf(),
        ensures
            b == ends_outline(self.tokens@[self.pos as int].kind),
    {
        match self.current().kind {
            TokenKind::EndRoom | TokenKind::EndDoor | TokenKind::EndSpot | TokenKind::Door
            | TokenKind::Spot | TokenKind::Picture | TokenKind::Picts | TokenKind::Script
            | TokenKind::Id | TokenKind::Name | TokenKind::Dest | TokenKind::Pict
            | TokenKind::Artist | TokenKind::Private | TokenKind::NoPainting
            | TokenKind::NoCyborgs | TokenKind::Hidden | TokenKind::NoGuests => true,
            _ => false,
        }
    }

    /// Parses the points of an outline, `h,v` each, up to a keyword that
    /// ends it.
    fn parse_outline(&mut self) -> (r: Result<Vec<Point>, ParseError>)
        requires
            old(self).wf(),
        ensures
            final(self).wf(),
            final(self).tokens == old(self).tokens,
            old(self).pos <= final(self).pos,
            match outline_from(old(self).tokens@, old(self).pos as int) {
                Some((pts, e)) => r matches Ok(v) && v@ == pts && final(self).pos == e,
                None => r is Err,
            },
    {
        let ghost ts = self.tokens@;
        let ghost s = self.pos as int;
        let mut points: Vec<Point> = Vec::new();
        let mut done = false;
        while !done
            invariant
                self.wf(),
                self.tokens == old(self).tokens,
                ts == old(self).tokens@,
                s == old(self).pos,
                s <= self.pos,
                outline_from(ts, s) == after_points(points@, outline_from(ts, self.pos as int)),
                done ==> outline_from(ts, self.pos as int) == Some((Seq::<Point>::empty(), self.pos as int)),
            decreases ts.len() - self.pos + (if done { 0int } else { 1int }),
        {
            let ghost p0 = self.pos as int;
            self.skip_newlines();
            proof {
                lemma_skip_ws(ts, p0);
            }
            if self.at_outline_end() {
                done = true;
            } else {
                let ghost q = self.pos as int;
                let h = match self.parse_i16() {
                    Ok(h) => h,
                    Err(e) => {
                        return Err(e);
                    },
                };
                match self.expect(&TokenKind::Comma) {
                    Ok(()) => {},
                    Err(e) => {
                        return Err(e);
                    },
                }
                let v = match self.parse_i16() {
                    Ok(v) => v,
                    Err(e) => {
                        return Err(e);
                    },
                };
                let pt = Point { h, v };
                assert(point_at(ts, q) == Some((pt, self.pos as int)));
                proof {
                    let ghost r = self.pos as int;
                    match outline_from(ts, r) {
                        Some((rest, e)) => {
                            assert(points@.push(pt) + rest =~= points@ + (seq![pt] + rest));
                        },
                        None => {},
                    }
                }
                points.push(pt);
            }
        }
        proof {
            assert(points@ + Seq::<Point>::empty() =~= points@);
        }
        Ok(points)
    }

    /// Parses `PICTS picture,x,y ... ENDPICTS`.
    fn parse_picts(&mut self) -> (r: Result<Vec<StateDecl>, ParseError>)
        requires
            old(self).wf(),
        ensures
            final(self).wf(),
            final(self).tokens == old(self).tokens,
            old(self).pos <= final(self).pos,
            r is Ok ==> old(self).pos < final(self).pos,
            match picts_at(old(self).tokens@, old(self).pos as int) {
                Some((sts, e)) => r matches Ok(v) && v@ == sts && final(self).pos == e,
                None => r is Err,
            },
    {
        let ghost ts = self.tokens@;
        let ghost s = self.pos as int;
        match self.expect(&TokenKind::Picts) {
            Ok(()) => {},
            Err(e) => {
                return Err(e);
            },
        }
        self.skip_newlines();
        let ghost p0 = self.pos as int;
        let mut states: Vec<StateDecl> = Vec::new();
        while !self.is_at_end() && !self.at(&TokenKind::EndPicts)
            invariant
                self.wf(),
                self.tokens == old(self).tokens,
                ts == old(self).tokens@,
                s == old(self).pos,
                s < self.pos,
                kw_at(ts, s, TokenKind::Picts),
                p0 == skip_ws(ts, s + 1),
                picts_from(ts, p0) == after_states(states@, picts_from(ts, self.pos as int)),
            decreases ts.len() - self.pos,
        {
            let ghost p = self.pos as int;
            self.skip_newlines();
            if self.at_ignorable() {
                self.advance();
                continue;
            }
            let ghost q = self.pos as int;
            let pic_id = match self.parse_i16() {
                Ok(v) => v,
                Err(e) => {
                    return Err(e);
                },
            };
            match self.expect(&TokenKind::Comma) {
                Ok(()) => {},
                Err(e) => {
                    return Err(e);
                },
            }
            let x_offset = match self.parse_i16() {
                Ok(v) => v,
                Err(e) => {
                    return Err(e);
                },
            };
            match self.expect(&TokenKind::Comma) {
                Ok(()) => {},
                Err(e) => {
                    return Err(e);
                },
            }
            let y_offset = match self.parse_i16() {
                Ok(v) => v,
                Err(e) => {
                    return Err(e);
                },
            };
            let st = StateDecl { pic_id, x_offset, y_offset };
            let ghost r = self.pos as int;
            assert(state_at(ts, q) == Some((st, r)));
            states.push(st);
            self.skip_newlines();
            proof {
                lemma_skip_ws(ts, r);
                match picts_from(ts, self.pos as int) {
                    Some((rest, e)) => {
                        assert(states@ + rest =~= (states@.drop_last()) + (seq![st] + rest));
                    },
                    None => {},
                }
            }
        }
        match self.expect(&TokenKind::EndPicts) {
            Ok(()) => {},
            Err(e) => {
                return Err(e);
            },
        }
        proof {
            assert(states@ + Seq::<StateDecl>::empty() =~= states@);
        }
        Ok(states)
    }

    /// Parses `SCRIPT ... ENDSCRIPT`: the tokens in between, with nested
    /// `SCRIPT` blocks counted, are parsed as an Iptscrae script.
    fn parse_script_block(&mut self) -> (r: Result<Script, ParseError>)
        requires
            old(self).wf(),
        ensures
            final(self).wf(),
            final(self).tokens == old(self).tokens,
            old(self).pos <= final(self).pos,
            r is Ok ==> old(self).pos < final(self).pos,
            match script_block_at(old(self).tokens@, old(self).pos as int) {
                Some((lo, hi, e)) => (r matches Ok(sc) ==> script_of(old(self).tokens@, lo, hi, sc) && final(self).pos
                    == e) && (r is Err ==> script_fails(old(self).tokens@, lo, hi)) && (r matches Err(err) ==> script_error(
                    old(self).tokens@, lo, hi, err)),
                None => r is Err,
            },
    {
        let ghost ts = self.tokens@;
        let ghost s = self.pos as int;
        match self.expect(&TokenKind::Script) {
            Ok(()) => {},
            Err(e) => {
                return Err(e);
            },
        }
        self.skip_newlines();
        let ghost lo = self.pos as int;
        let mut script_tokens: Vec<Token> = Vec::new();
        let mut depth: usize = 1;
        let mut done = false;
        while !done && !self.is_at_end()
            invariant
                self.wf(),
                self.tokens == old(self).tokens,
                ts == old(self).tokens@,
                s == old(self).pos,
                s < lo <= self.pos,
                lo == skip_ws(ts, s + 1),
                kw_at(ts, s, TokenKind::Script),
                1 <= depth <= self.pos - s,
                script_body_end(ts, lo, 1) == (if done { self.pos as int } else { script_body_end(
                    ts,
                    self.pos as int,
                    depth as int,
                ) }),
                done ==> ts[self.pos as int].kind is EndScript,
                script_tokens@.len() == self.pos - lo,
                forall|j: int| 0 <= j < script_tokens@.len() ==> (#[trigger] script_tokens@[j]).kind.model()
                    == ts[lo + j].kind.model() && script_tokens@[j].pos == ts[lo + j].pos,
            decreases ts.len() - self.pos + (if done { 0int } else { 1int }),
        {
            let token = self.current().duplicate();
            let mut keep = true;
            match token.kind {
                TokenKind::Script => {
                    depth = depth + 1;
                },
                TokenKind::EndScript => {
                    depth = depth - 1;
                    if depth == 0 {
                        depth = 1;
                        done = true;
                        keep = false;
                    }
                },
                _ => {},
            }
            if keep {
                script_tokens.push(token);
                self.advance();
            }
        }
        let ghost hi = self.pos as int;
        match self.expect(&TokenKind::EndScript) {
            Ok(()) => {},
            Err(e) => {
                return Err(e);
            },
        }
        let n = script_tokens.len();
        if n > 0 {
            let last_pos = script_tokens[n - 1].pos;
            script_tokens.push(Token::new(TokenKind::Eof, last_pos));
        }
        let ghost body = script_tokens@;
        assert(body_tokens(ts, lo, hi, body));
        let mut parser = Parser::new(script_tokens);
        parser.parse()
    }
}

impl RoomScriptParser {
    /// Parses `PICTURE ... ENDPICTURE`; a picture must have an ID and a NAME.
    fn parse_picture(&mut self) -> (r: Result<PictureDecl, ParseError>)
        requires
            old(self).wf(),
        ensures
            final(self).wf(),
            final(self).tokens == old(self).tokens,
            old(self).pos <= final(self).pos,
            r is Ok ==> old(self).pos < final(self).pos,
            match picture_at(old(self).tokens@, old(self).pos as int) {
                Some((m, e)) => r matches Ok(d) && picture_is(old(self).tokens@, old(self).pos as int, d)
                    && final(self).pos == e,
                None => r is Err,
            },
            kw_at(old(self).tokens@, old(self).pos as int, TokenKind::Picture) ==> (block_missing(old(self).tokens@,
                old(self).pos as int) matches Some(msg) ==> (r matches Err(ParseError::UnexpectedToken { expected, .. })
                && expected@ == msg)),
    {
        let ghost ts = self.tokens@;
        let ghost s = self.pos as int;
        match self.expect(&TokenKind::Picture) {
            Ok(()) => {},
            Err(e) => {
                return Err(e);
            },
        }
        self.skip_newlines();
        let ghost p0 = self.pos as int;
        let ghost m0 = PictureParts { id: None, name: None, trans_color: None };
        let ghost mut m = m0;
        let mut id: Option<i16> = None;
        let mut name: Option<String> = None;
        let mut trans_color: Option<i16> = None;
        while !self.is_at_end() && !self.at(&TokenKind::EndPicture)
            invariant
                self.wf(),
                self.tokens == old(self).tokens,
                ts == old(self).tokens@,
                s == old(self).pos,
                s < self.pos,
                kw_at(ts, s, TokenKind::Picture),
                p0 == skip_ws(ts, s + 1),
                m0 == (PictureParts { id: None, name: None, trans_color: None }),
                picture_items(ts, p0, m0) == picture_items(ts, self.pos as int, m),
                id == m.id,
                opt_text(name) == m.name,
                trans_color == m.trans_color,
            decreases ts.len() - self.pos,
        {
            let ghost p = self.pos as int;
            self.skip_newlines();
            let ghost q = self.pos as int;
            if self.at(&TokenKind::Id) {
                self.advance();
                let v = match self.parse_i16() {
                    Ok(v) => v,
                    Err(e) => {
                        return Err(e);
                    },
                };
                id = Some(v);
                proof {
                    m = PictureParts { id: Some(v), name: m.name, trans_color: m.trans_color };
                }
                self.skip_newlines();
            } else if self.at(&TokenKind::Name) {
                self.advance();
                let n = match self.parse_string() {
                    Ok(n) => n,
                    Err(e) => {
                        return Err(e);
                    },
                };
                proof {
                    m = PictureParts { id: m.id, name: Some(n@), trans_color: m.trans_color };
                }
                name = Some(n);
                self.skip_newlines();
            } else if self.at(&TokenKind::TransColor) {
                self.advance();
                let v = match self.parse_i16() {
                    Ok(v) => v,
                    Err(e) => {
                        return Err(e);
                    },
                };
                trans_color = Some(v);
                proof {
                    m = PictureParts { id: m.id, name: m.name, trans_color: Some(v) };
                }
                self.skip_newlines();
            } else if self.at_ignorable() {
                self.advance();
            } else {
                let msg = with_found("Unexpected token in PICTURE block: ", &self.current().kind);
                return Err(self.error(msg));
            }
        }
        match self.expect(&TokenKind::EndPicture) {
            Ok(()) => {},
            Err(e) => {
                return Err(e);
            },
        }
        let id = match id {
            Some(v) => v,
            None => {
                return Err(self.error(string_from("PICTURE must have an ID")));
            },
        };
        let name = match name {
            Some(n) => n,
            None => {
                return Err(self.error(string_from("PICTURE must have a NAME")));
            },
        };
        Ok(PictureDecl { id, name, trans_color })
    }

    /// Parses `DOOR ... ENDDOOR`; a door must have an ID and a DEST.
    fn parse_door(&mut self) -> (r: Result<DoorDecl, ParseError>)
        requires
            old(self).wf(),
        ensures
            final(self).wf(),
            final(self).tokens == old(self).tokens,
            old(self).pos <= final(self).pos,
            r is Ok ==> old(self).pos < final(self).pos,
            match hotspot_at(old(self).tokens@, old(self).pos as int, true) {
                Some((m, e)) => (r matches Ok(d) ==> door_is(old(self).tokens@, old(self).pos as int, d)
                    && final(self).pos == e) && (r is Err ==> some_script_fails(old(self).tokens@)) && (r matches Err(err)
                    ==> some_script_error(old(self).tokens@, err)),
                None => r is Err,
            },
            !some_script_fails(old(self).tokens@) && kw_at(old(self).tokens@, old(self).pos as int, TokenKind::Door) ==> (block_missing(old(self).tokens@, old(self).pos as int) matches Some(
                msg) ==> (r matches Err(ParseError::UnexpectedToken { expected, .. }) && expected@ == msg)),
    {
        let ghost ts = self.tokens@;
        let ghost s = self.pos as int;
        match self.expect(&TokenKind::Door) {
            Ok(()) => {},
            Err(e) => {
                return Err(e);
            },
        }
        self.skip_newlines();
        let ghost p0 = self.pos as int;
        let ghost mut m = no_hotspot_parts();
        let mut id: Option<i16> = None;
        let mut dest: Option<i16> = None;
        let mut name: Option<String> = None;
        let mut outline: Vec<Point> = Vec::new();
        let mut picts: Vec<StateDecl> = Vec::new();
        let mut script: Option<Script> = None;
        while !self.is_at_end() && !self.at(&TokenKind::EndDoor)
            invariant
                self.wf(),
                self.tokens == old(self).tokens,
                ts == old(self).tokens@,
                s == old(self).pos,
                s < self.pos,
                kw_at(ts, s, TokenKind::Door),
                p0 == skip_ws(ts, s + 1),
                hotspot_items(ts, p0, no_hotspot_parts(), true) == hotspot_items(ts, self.pos as int, m, true),
                id == m.id,
                dest == m.dest,
                opt_text(name) == m.name,
                outline@ == m.outline,
                picts@ == m.picts,
                script_is(ts, m.script, script),
            decreases ts.len() - self.pos,
        {
            let ghost p = self.pos as int;
            self.skip_newlines();
            let ghost q = self.pos as int;
            if self.at(&TokenKind::Id) {
                self.advance();
                let v = match self.parse_i16() {
                    Ok(v) => v,
                    Err(e) => {
                        return Err(e);
                    },
                };
                id = Some(v);
                proof {
                    m = HotspotParts { id: Some(v), ..m };
                }
            } else if self.at(&TokenKind::Dest) {
                self.advance();
                let v = match self.parse_i16() {
                    Ok(v) => v,
                    Err(e) => {
                        return Err(e);
                    },
                };
                dest = Some(v);
                proof {
                    m = HotspotParts { dest: Some(v), ..m };
                }
            } else if self.at(&TokenKind::Name) {
                self.advance();
                let n = match self.parse_string() {
                    Ok(n) => n,
                    Err(e) => {
                        return Err(e);
                    },
                };
                proof {
                    m = HotspotParts { name: Some(n@), ..m };
                }
                name = Some(n);
            } else if self.at(&TokenKind::Outline) {
                self.advance();
                let o = match self.parse_outline() {
                    Ok(o) => o,
                    Err(e) => {
                        return Err(e);
                    },
                };
                proof {
                    m = HotspotParts { outline: o@, ..m };
                }
                outline = o;
            } else if self.at(&TokenKind::Picts) {
                let ps = match self.parse_picts() {
                    Ok(ps) => ps,
                    Err(e) => {
                        return Err(e);
                    },
                };
                proof {
                    m = HotspotParts { picts: ps@, ..m };
                }
                picts = ps;
            } else if self.at(&TokenKind::Script) {
                let sc = match self.parse_script_block() {
                    Ok(sc) => sc,
                    Err(e) => {
                        proof {
                            if script_block_at(ts, q) is Some {
                                let (lo, hi, end) = script_block_at(ts, q)->Some_0;
                                assert(script_fails(ts, lo, hi));
                                assert(some_script_fails(ts));
                                assert(script_error(ts, lo, hi, e));
                                assert(some_script_error(ts, e));
                            }
                        }
                        return Err(e);
                    },
                };
                proof {
                    let (lo, hi, e) = script_block_at(ts, q)->Some_0;
                    m = HotspotParts { script: Some((lo, hi)), ..m };
                }
                script = Some(sc);
            } else if self.at_ignorable() {
                self.advance();
            } else {
                let msg = with_found("Unexpected token in DOOR block: ", &self.current().kind);
                return Err(self.error(msg));
            }
            self.skip_newlines();
        }
        match self.expect(&TokenKind::EndDoor) {
            Ok(()) => {},
            Err(e) => {
                return Err(e);
            },
        }
        let id = match id {
            Some(v) => v,
            None => {
                return Err(self.error(string_from("DOOR must have an ID")));
            },
        };
        let dest = match dest {
            Some(v) => v,
            None => {
                return Err(self.error(string_from("DOOR must have a DEST")));
            },
        };
        Ok(DoorDecl { id, dest, name, outline, picts, script })
    }

    /// Parses `SPOT ... ENDSPOT`; a spot must have an ID.
    fn parse_spot(&mut self) -> (r: Result<SpotDecl, ParseError>)
        requires
            old(self).wf(),
        ensures
            final(self).wf(),
            final(self).tokens == old(self).tokens,
            old(self).pos <= final(self).pos,
            r is Ok ==> old(self).pos < final(self).pos,
            match hotspot_at(old(self).tokens@, old(self).pos as int, false) {
                Some((m, e)) => (r matches Ok(d) ==> spot_is(old(self).tokens@, old(self).pos as int, d)
                    && final(self).pos == e) && (r is Err ==> some_script_fails(old(self).tokens@)) && (r matches Err(err)
                    ==> some_script_error(old(self).tokens@, err)),
                None => r is Err,
            },
            !some_script_fails(old(self).tokens@) && kw_at(old(self).tokens@, old(self).pos as int, TokenKind::Spot) ==> (block_missing(old(self).tokens@, old(self).pos as int) matches Some(
                msg) ==> (r matches Err(ParseError::UnexpectedToken { expected, .. }) && expected@ == msg)),
    {
        let ghost ts = self.tokens@;
        let ghost s = self.pos as int;
        match self.expect(&TokenKind::Spot) {
            Ok(()) => {},
            Err(e) => {
                return Err(e);
            },
        }
        self.skip_newlines();
        let ghost p0 = self.pos as int;
        let ghost mut m = no_hotspot_parts();
        let mut id: Option<i16> = None;
        let mut name: Option<String> = None;
        let mut outline: Vec<Point> = Vec::new();
        let mut picts: Vec<StateDecl> = Vec::new();
        let mut script: Option<Script> = None;
        while !self.is_at_end() && !self.at(&TokenKind::EndSpot)
            invariant
                self.wf(),
                self.tokens == old(self).tokens,
                ts == old(self).tokens@,
                s == old(self).pos,
                s < self.pos,
                kw_at(ts, s, TokenKind::Spot),
                p0 == skip_ws(ts, s + 1),
                hotspot_items(ts, p0, no_hotspot_parts(), false) == hotspot_items(ts, self.pos as int, m, false),
                id == m.id,
                m.dest is None,
                opt_text(name) == m.name,
                outline@ == m.outline,
                picts@ == m.picts,
                script_is(ts, m.script, script),
            decreases ts.len() - self.pos,
        {
            let ghost p = self.pos as int;
            self.skip_newlines();
            let ghost q = self.pos as int;
            if self.at(&TokenKind::Id) {
                self.advance();
                let v = match self.parse_i16() {
                    Ok(v) => v,
                    Err(e) => {
                        return Err(e);
                    },
                };
                id = Some(v);
                proof {
                    m = HotspotParts { id: Some(v), ..m };
                }
            } else if self.at(&TokenKind::Name) {
                self.advance();
                let n = match self.parse_string() {
                    Ok(n) => n,
                    Err(e) => {
                        return Err(e);
                    },
                };
                proof {
                    m = HotspotParts { name: Some(n@), ..m };
                }
                name = Some(n);
            } else if self.at(&TokenKind::Outline) {
                self.advance();
                let o = match self.parse_outline() {
                    Ok(o) => o,
                    Err(e) => {
                        return Err(e);
                    },
                };
                proof {
                    m = HotspotParts { outline: o@, ..m };
                }
                outline = o;
            } else if self.at(&TokenKind::Picts) {
                let ps = match self.parse_picts() {
                    Ok(ps) => ps,
                    Err(e) => {
                        return Err(e);
                    },
                };
                proof {
                    m = HotspotParts { picts: ps@, ..m };
                }
                picts = ps;
            } else if self.at(&TokenKind::Script) {
                let sc = match self.parse_script_block() {
                    Ok(sc) => sc,
                    Err(e) => {
                        proof {
                            if script_block_at(ts, q) is Some {
                                let (lo, hi, end) = script_block_at(ts, q)->Some_0;
                                assert(script_fails(ts, lo, hi));
                                assert(some_script_fails(ts));
                                assert(script_error(ts, lo, hi, e));
                                assert(some_script_error(ts, e));
                            }
                        }
                        return Err(e);
                    },
                };
                proof {
                    let (lo, hi, e) = script_block_at(ts, q)->Some_0;
                    m = HotspotParts { script: Some((lo, hi)), ..m };
                }
                script = Some(sc);
            } else if self.at_ignorable() {
                self.advance();
            } else {
                let msg = with_found("Unexpected token in SPOT block: ", &self.current().kind);
                return Err(self.error(msg));
            }
            self.skip_newlines();
        }
        match self.expect(&TokenKind::EndSpot) {
            Ok(()) => {},
            Err(e) => {
                return Err(e);
            },
        }
        let id = match id {
            Some(v) => v,
            None => {
                return Err(self.error(string_from("SPOT must have an ID")));
            },
        };
        Ok(SpotDecl { id, name, outline, picts, script })
    }
}

impl RoomScriptParser {
    /// Parses `ROOM ... ENDROOM`; a room must have an ID.
    #[verifier::rlimit(80)]
    fn parse_room(&mut self) -> (r: Result<RoomDecl, ParseError>)
        requires
            old(self).wf(),
        ensures
            final(self).wf(),
            final(self).tokens == old(self).tokens,
            old(self).pos <= final(self).pos,
            r is Ok ==> old(self).pos < final(self).pos,
            match room_at(old(self).tokens@, old(self).pos as int) {
                Some((m, e)) => (r matches Ok(room) ==> room_is(old(self).tokens@, old(self).pos as int, room)
                    && final(self).pos == e) && (r is Err ==> some_script_fails(old(self).tokens@)) && (r matches Err(err)
                    ==> some_script_error(old(self).tokens@, err)),
                None => r is Err,
            },
            room_at(old(self).tokens@, old(self).pos as int) is None && !some_script_fails(old(self).tokens@) ==> (
                room_missing(old(self).tokens@, old(self).pos as int) matches Some(msg) ==> (r matches Err(
                ParseError::UnexpectedToken { expected, .. }) && expected@ == msg)),
    {
        let ghost ts = self.tokens@;
        let ghost s = self.pos as int;
        match self.expect(&TokenKind::Room) {
            Ok(()) => {},
            Err(e) => {
                return Err(e);
            },
        }
        self.skip_newlines();
        let ghost p0 = self.pos as int;
        let ghost mut m = no_room_parts();
        let mut id: Option<i16> = None;
        let mut name: Option<String> = None;
        let mut pict: Option<String> = None;
        let mut artist: Option<String> = None;
        let mut flags = RoomFlags::none();
        let mut pictures: Vec<PictureDecl> = Vec::new();
        let mut doors: Vec<DoorDecl> = Vec::new();
        let mut spots: Vec<SpotDecl> = Vec::new();
        while !self.is_at_end() && !self.at(&TokenKind::EndRoom)
            invariant
                self.wf(),
                self.tokens == old(self).tokens,
                ts == old(self).tokens@,
                s == old(self).pos,
                s < self.pos,
                kw_at(ts, s, TokenKind::Room),
                p0 == skip_ws(ts, s + 1),
                room_items(ts, p0, no_room_parts()) == room_items(ts, self.pos as int, m),
                room_items_missing(ts, p0) == room_items_missing(ts, self.pos as int),
                id == m.id,
                opt_text(name) == m.name,
                opt_text(pict) == m.pict,
                opt_text(artist) == m.artist,
                flags == m.flags,
                m.pictures.len() == pictures@.len(),
                forall|k: int| 0 <= k < m.pictures.len() ==> picture_is(ts, m.pictures[k], #[trigger] pictures@[k]),
                m.doors.len() == doors@.len(),
                forall|k: int| 0 <= k < m.doors.len() ==> door_is(ts, m.doors[k], #[trigger] doors@[k]),
                m.spots.len() == spots@.len(),
                forall|k: int| 0 <= k < m.spots.len() ==> spot_is(ts, m.spots[k], #[trigger] spots@[k]),
            decreases ts.len() - self.pos,
        {
            let ghost p = self.pos as int;
            self.skip_newlines();
            let ghost q = self.pos as int;
            if self.at(&TokenKind::Id) {
                self.advance();
                let v = match self.parse_i16() {
                    Ok(v) => v,
                    Err(e) => {
                        return Err(e);
                    },
                };
                id = Some(v);
                proof {
                    m = RoomParts { id: Some(v), ..m };
                }
            } else if self.at(&TokenKind::Name) {
                self.advance();
                let n = match self.parse_string() {
                    Ok(n) => n,
                    Err(e) => {
                        return Err(e);
                    },
                };
                proof {
                    m = RoomParts { name: Some(n@), ..m };
                }
                name = Some(n);
            } else if self.at(&TokenKind::Pict) {
                self.advance();
                let n = match self.parse_string() {
                    Ok(n) => n,
                    Err(e) => {
                        return Err(e);
                    },
                };
                proof {
                    m = RoomParts { pict: Some(n@), ..m };
                }
                pict = Some(n);
            } else if self.at(&TokenKind::Artist) {
                self.advance();
                let n = match self.parse_string() {
                    Ok(n) => n,
                    Err(e) => {
                        return Err(e);
                    },
                };
                proof {
                    m = RoomParts { artist: Some(n@), ..m };
                }
                artist = Some(n);
            } else if self.at(&TokenKind::Private) {
                self.advance();
                flags.private = true;
                proof {
                    m = RoomParts { flags: set_flag(m.flags, TokenKind::Private), ..m };
                }
            } else if self.at(&TokenKind::NoPainting) {
                self.advance();
                flags.no_painting = true;
                proof {
                    m = RoomParts { flags: set_flag(m.flags, TokenKind::NoPainting), ..m };
                }
            } else if self.at(&TokenKind::NoCyborgs) {
                self.advance();
                flags.no_cyborgs = true;
                proof {
                    m = RoomParts { flags: set_flag(m.flags, TokenKind::NoCyborgs), ..m };
                }
            } else if self.at(&TokenKind::Hidden) {
                self.advance();
                flags.hidden = true;
                proof {
                    m = RoomParts { flags: set_flag(m.flags, TokenKind::Hidden), ..m };
                }
            } else if self.at(&TokenKind::NoGuests) {
                self.advance();
                flags.no_guests = true;
                proof {
                    m = RoomParts { flags: set_flag(m.flags, TokenKind::NoGuests), ..m };
                }
            } else if self.at(&TokenKind::Picture) {
                let pic = match self.parse_picture() {
                    Ok(pic) => pic,
                    Err(e) => {
                        return Err(e);
                    },
                };
                proof {
                    m = RoomParts { pictures: m.pictures.push(q), ..m };
                }
                pictures.push(pic);
            } else if self.at(&TokenKind::Door) {
                let d = match self.parse_door() {
                    Ok(d) => d,
                    Err(e) => {
                        return Err(e);
                    },
                };
                proof {
                    m = RoomParts { doors: m.doors.push(q), ..m };
                }
                doors.push(d);
            } else if self.at(&TokenKind::Spot) {
                let d = match self.parse_spot() {
                    Ok(d) => d,
                    Err(e) => {
                        return Err(e);
                    },
                };
                proof {
                    m = RoomParts { spots: m.spots.push(q), ..m };
                }
                spots.push(d);
            } else if self.at_ignorable() {
                self.advance();
            } else {
                let msg = with_found("Unexpected token in room block: ", &self.current().kind);
                return Err(self.error(msg));
            }
            self.skip_newlines();
        }
        match self.expect(&TokenKind::EndRoom) {
            Ok(()) => {},
            Err(e) => {
                return Err(e);
            },
        }
        let id = match id {
            Some(v) => v,
            None => {
                return Err(self.error(string_from("Room must have an ID")));
            },
        };
        Ok(RoomDecl { id, name, pict, artist, password: None, flags, pictures, doors, spots })
    }

    /// Parses the room declarations of a file: `ROOM ... ENDROOM` blocks,
    /// with newlines and comments between them.
    ///
    /// The rooms are those that `rooms_from_index` finds, in order (see
    /// `room_is`). The parse fails where the blocks do not read, and where a
    /// `SCRIPT` block does not parse as a script; when the blocks read, the
    /// error is the script parser's error for one of the `SCRIPT` blocks
    /// (see `some_script_error`). Where a block misses a
    /// required item (see `reaches_missing`) and every script parses, the
    /// error is an unexpected token naming what is missing.
    pub fn parse(&mut self) -> (r: Result<Vec<RoomDecl>, ParseError>)
        requires
            old(self).wf(),
        ensures
            final(self).wf(),
            final(self).tokens() == old(self).tokens(),
            match rooms_from_index(old(self).tokens(), skip_ws(old(self).tokens(), old(self).position())) {
                Some(starts) => (r matches Ok(rooms) ==> rooms@.len() == starts.len() && forall|k: int|
                    0 <= k < starts.len() ==> room_is(old(self).tokens(), starts[k], #[trigger] rooms@[k])) && (r is Err
                    ==> some_script_fails(old(self).tokens())) && (r matches Err(err) ==> some_script_error(
                    old(self).tokens(), err)),
                None => r is Err,
            },
            !some_script_fails(old(self).tokens()) ==> (reaches_missing(old(self).tokens(), skip_ws(old(self).tokens(),
                old(self).position())) matches Some(msg) ==> (r matches Err(ParseError::UnexpectedToken { expected, .. })
                && expected@ == msg)),
    {
        let ghost ts = self.tokens@;
        let mut rooms: Vec<RoomDecl> = Vec::new();
        self.skip_newlines();
        let ghost p0 = self.pos as int;
        let ghost mut starts: Seq<int> = Seq::empty();
        while !self.is_at_end()
            invariant
                self.wf(),
                self.tokens == old(self).tokens,
                ts == old(self).tokens@,
                p0 == skip_ws(ts, old(self).pos as int),
                rooms_from_index(ts, p0) == after_rooms(starts, rooms_from_index(ts, self.pos as int)),
                starts.len() == rooms@.len(),
                forall|k: int| 0 <= k < starts.len() ==> room_is(ts, starts[k], #[trigger] rooms@[k]),
                reaches_missing(ts, p0) == reaches_missing(ts, self.pos as int),
            decreases ts.len() - self.pos,
        {
            let ghost p = self.pos as int;
            if self.at_ignorable() {
                self.advance();
                continue;
            }
            if self.at(&TokenKind::Room) {
                let room = match self.parse_room() {
                    Ok(room) => room,
                    Err(e) => {
                        return Err(e);
                    },
                };
                rooms.push(room);
                let ghost r = self.pos as int;
                self.skip_newlines();
                proof {
                    lemma_skip_ws(ts, r);
                    match rooms_from_index(ts, self.pos as int) {
                        Some(rest) => {
                            assert(starts.push(p) + rest =~= starts + (seq![p] + rest));
                        },
                        None => {},
                    }
                    starts = starts.push(p);
                }
            } else {
                let msg = with_found("Expected ROOM keyword, found ", &self.current().kind);
                return Err(self.error(msg));
            }
        }
        proof {
            assert(starts + Seq::<int>::empty() =~= starts);
        }
        Ok(rooms)
    }
}
} // verus!
