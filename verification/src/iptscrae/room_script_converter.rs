//! From room declarations to room records.
//!
//! A converted room is a template: static data only. The runtime fields
//! (people, loose props, draw commands) are zero. Strings, outline points,
//! states, picture records and hotspots go into the variable buffer; the
//! arrays start on 4-byte boundaries, and every offset must fit in an
//! `i16`.
use vstd::prelude::*;
use vstd::utf8::is_ascii_chars;
use crate::buffer::{i16_be, lemma_pstring_roundtrip, pstring_bytes, spec_get_pstring, text_bytes, write_bytes, write_i16, write_u8, write_zeros};
use crate::event_mask::EventMask;
use crate::iptscrae::ast::{EventHandler, Script};
use crate::iptscrae::events::{event_bit, lemma_event_bits_disjoint, EventType};
use crate::iptscrae::room_script::{DoorDecl, PictureDecl, RoomDecl, RoomFlags, SpotDecl, StateDecl};
use crate::messages::flags::RoomFlags as WireRoomFlags;
use crate::messages::room::records::{Hotspot, PictureRec, RoomRec};
use crate::room::{HotspotState, HotspotType};
use crate::text::copy_string;
use crate::Point;

verus! {

broadcast use vstd::seq_lib::group_seq_properties;

/// Errors of a conversion.
#[derive(Debug, Clone)]
pub enum ConversionError {
    /// The variable buffer would pass `i16::MAX` (32767 bytes).
    VarBufTooLarge { size: usize },
    /// More than 32767 hotspots.
    TooManyHotspots { count: usize },
    /// More than 32767 pictures.
    TooManyPictures { count: usize },
    /// More than 32767 points in an outline.
    TooManyPoints { hotspot_id: i16, count: usize },
    /// More than 32767 states.
    TooManyStates { hotspot_id: i16, count: usize },
    /// A string longer than a Pascal string can hold (255 bytes).
    StringTooLong { field: String, length: usize },
    /// A script could not be turned back into text.
    ScriptSerializationError { message: String },
}

// ---------------------------------------------------------------------------
// The bytes of the variable buffer
// ---------------------------------------------------------------------------

/// The zero bytes that take a buffer of length `n` to a 4-byte boundary.
pub open spec fn pad4(n: int) -> int {
    (4 - n % 4) % 4
}

/// The bytes of a sequence of points, one after the other.
pub open spec fn points_bytes(pts: Seq<Point>) -> Seq<u8>
    decreases pts.len(),
{
    if pts.len() == 0 {
        Seq::empty()
    } else {
        points_bytes(pts.drop_last()) + pts.last().spec_bytes()
    }
}

/// The bytes of a state: picture, horizontal and vertical offset.
pub open spec fn state_bytes(st: StateDecl) -> Seq<u8> {
    i16_be(st.pic_id) + i16_be(st.x_offset) + i16_be(st.y_offset)
}

/// The bytes of a sequence of states.
pub open spec fn states_bytes(sts: Seq<StateDecl>) -> Seq<u8>
    decreases sts.len(),
{
    if sts.len() == 0 {
        Seq::empty()
    } else {
        states_bytes(sts.drop_last()) + state_bytes(sts.last())
    }
}

/// The bytes of a sequence of hotspots.
pub open spec fn hotspots_bytes(hs: Seq<Hotspot>) -> Seq<u8>
    decreases hs.len(),
{
    if hs.len() == 0 {
        Seq::empty()
    } else {
        hotspots_bytes(hs.drop_last()) + hs.last().spec_bytes()
    }
}

/// The bytes of a sequence of picture records.
pub open spec fn pictures_bytes(ps: Seq<PictureRec>) -> Seq<u8>
    decreases ps.len(),
{
    if ps.len() == 0 {
        Seq::empty()
    } else {
        pictures_bytes(ps.drop_last()) + ps.last().spec_bytes()
    }
}

/// What appending an aligned array does to a buffer `b`: zero padding to
/// a 4-byte boundary, then the array's bytes, starting at the returned
/// offset.
pub open spec fn aligned(b: Seq<u8>, arr: Seq<u8>) -> Seq<u8> {
    b + Seq::new(pad4(b.len() as int) as nat, |i: int| 0u8) + arr
}

/// Whether the Pascal string of `t` stands at `off` in `b`.
pub open spec fn pstring_in(b: Seq<u8>, off: int, t: Seq<char>) -> bool {
    text_bytes(t).len() <= 255 && 0 <= off && off + 1 + text_bytes(t).len() <= b.len()
        && b.subrange(off, off + 1 + text_bytes(t).len()) == pstring_bytes(t)
}

/// Whether an optional string is recorded at `off`: absent is -1.
pub open spec fn opt_pstring_in(b: Seq<u8>, off: i16, o: Option<Seq<char>>) -> bool {
    match o {
        None => off == -1,
        Some(t) => pstring_in(b, off as int, t),
    }
}

/// The text of an optional string.
pub open spec fn opt_text(o: Option<String>) -> Option<Seq<char>> {
    match o {
        Some(s) => Some(s@),
        None => None,
    }
}

/// Builds a variable buffer, keeping offsets and alignment.
pub struct VarBufBuilder {
    buf: Vec<u8>,
}

impl View for VarBufBuilder {
    type V = Seq<u8>;

    closed spec fn view(&self) -> Seq<u8> {
        self.buf@
    }
}

proof fn lemma_pad4(n: int)
    requires
        0 <= n,
    ensures
        0 <= pad4(n) < 4,
        (n + pad4(n)) % 4 == 0,
{
}

impl VarBufBuilder {
    /// An empty buffer.
    pub fn new() -> (b: VarBufBuilder)
        ensures
            b@ == Seq::<u8>::empty(),
    {
        VarBufBuilder { buf: Vec::new() }
    }

    /// The current offset: the length so far.
    pub fn offset(&self) -> (n: usize)
        ensures
            n == self@.len(),
    {
        self.buf.len()
    }

    /// Writes a Pascal string and returns its offset. A string of more
    /// than 255 bytes is `StringTooLong`; an offset past 32767 is
    /// `VarBufTooLarge`. On error nothing is written.
    pub fn write_pstring(&mut self, s: &str) -> (r: Result<i16, ConversionError>)
        ensures
            text_bytes(s@).len() > 255 ==> (r matches Err(ConversionError::StringTooLong { field, length })
                && field@ == s@ && length == text_bytes(s@).len()),
            text_bytes(s@).len() <= 255 && old(self)@.len() > 32767 ==> (r matches Err(ConversionError::VarBufTooLarge { size })
                && size == old(self)@.len()),
            r is Err ==> final(self)@ == old(self)@,
            r matches Ok(off) ==> off == old(self)@.len() && final(self)@ == old(self)@ + pstring_bytes(s@),
            (text_bytes(s@).len() <= 255 && old(self)@.len() <= 32767) ==> r is Ok,
    {
        let bytes = s.as_bytes();
        if bytes.len() > 255 {
            return Err(ConversionError::StringTooLong { field: crate::text::string_from(s), length: bytes.len() });
        }
        let offset = self.buf.len();
        if offset > 32767 {
            return Err(ConversionError::VarBufTooLarge { size: offset });
        }
        write_u8(&mut self.buf, bytes.len() as u8);
        write_bytes(&mut self.buf, bytes);
        assert(self.buf@ =~= old(self)@ + pstring_bytes(s@));
        Ok(offset as i16)
    }

    /// Writes an optional Pascal string: absent is offset -1 and writes
    /// nothing.
    pub fn write_optional_pstring(&mut self, s: Option<&str>) -> (r: Result<i16, ConversionError>)
        ensures
            s is None ==> r == Ok::<i16, ConversionError>(-1i16) && final(self)@ == old(self)@,
            s matches Some(t) ==> {
                &&& text_bytes(t@).len() > 255 ==> (r matches Err(ConversionError::StringTooLong { field, length })
                    && field@ == t@ && length == text_bytes(t@).len())
                &&& text_bytes(t@).len() <= 255 && old(self)@.len() > 32767 ==> (r matches Err(ConversionError::VarBufTooLarge { size })
                    && size == old(self)@.len())
                &&& r is Err ==> final(self)@ == old(self)@
                &&& r matches Ok(off) ==> off == old(self)@.len() && final(self)@ == old(self)@ + pstring_bytes(t@)
                &&& (text_bytes(t@).len() <= 255 && old(self)@.len() <= 32767) ==> r is Ok
            },
    {
        match s {
            Some(t) => self.write_pstring(t),
            None => Ok(-1),
        }
    }

    /// Pads with zero bytes to a 4-byte boundary.
    pub fn align_to_4(&mut self)
        ensures
            final(self)@ == old(self)@ + Seq::new(pad4(old(self)@.len() as int) as nat, |i: int| 0u8),
            final(self)@.len() % 4 == 0,
    {
        proof {
            lemma_pad4(self.buf@.len() as int);
        }
        let padding = (4 - (self.buf.len() % 4)) % 4;
        write_zeros(&mut self.buf, padding);
        assert(self.buf@ =~= old(self)@ + Seq::new(pad4(old(self)@.len() as int) as nat, |i: int| 0u8));
    }

    /// Writes a point: `v` then `h`.
    pub fn write_point(&mut self, point: &Point)
        ensures
            final(self)@ == old(self)@ + point.spec_bytes(),
    {
        point.to_bytes(&mut self.buf);
    }

    /// Writes the points, aligned, and returns their offset; an offset
    /// past 32767 is `VarBufTooLarge` (after the padding).
    pub fn write_points(&mut self, points: &[Point]) -> (r: Result<i16, ConversionError>)
        ensures
            ({
                let b = old(self)@;
                let o = b.len() + pad4(b.len() as int);
                &&& o > 32767 ==> (r matches Err(ConversionError::VarBufTooLarge { size }) && size == o
                    && final(self)@ == aligned(b, Seq::empty()))
                &&& o <= 32767 ==> r == Ok::<i16, ConversionError>(o as i16) && final(self)@ == aligned(b, points_bytes(points@))
            }),
    {
        let ghost b = self.buf@;
        self.align_to_4();
        let offset = self.buf.len();
        if offset > 32767 {
            assert(self.buf@ =~= aligned(b, Seq::empty()));
            return Err(ConversionError::VarBufTooLarge { size: offset });
        }
        let mut i: usize = 0;
        while i < points.len()
            invariant
                i <= points@.len(),
                self.buf@ == aligned(b, points_bytes(points@.subrange(0, i as int))),
            decreases points@.len() - i,
        {
            self.write_point(&points[i]);
            assert(points@.subrange(0, i + 1).drop_last() =~= points@.subrange(0, i as int));
            i = i + 1;
        }
        assert(points@.subrange(0, points@.len() as int) =~= points@);
        Ok(offset as i16)
    }

    /// Writes a state: picture, horizontal and vertical offset.
    pub fn write_state(&mut self, pic_id: i16, x_offset: i16, y_offset: i16)
        ensures
            final(self)@ == old(self)@ + state_bytes(StateDecl { pic_id, x_offset, y_offset }),
    {
        write_i16(&mut self.buf, pic_id);
        write_i16(&mut self.buf, x_offset);
        write_i16(&mut self.buf, y_offset);
        assert(self.buf@ =~= old(self)@ + state_bytes(StateDecl { pic_id, x_offset, y_offset }));
    }

    /// Writes the states, aligned, and returns their offset.
    pub fn write_states(&mut self, states: &[StateDecl]) -> (r: Result<i16, ConversionError>)
        ensures
            ({
                let b = old(self)@;
                let o = b.len() + pad4(b.len() as int);
                &&& o > 32767 ==> (r matches Err(ConversionError::VarBufTooLarge { size }) && size == o
                    && final(self)@ == aligned(b, Seq::empty()))
                &&& o <= 32767 ==> r == Ok::<i16, ConversionError>(o as i16) && final(self)@ == aligned(b, states_bytes(states@))
            }),
    {
        let ghost b = self.buf@;
        self.align_to_4();
        let offset = self.buf.len();
        if offset > 32767 {
            assert(self.buf@ =~= aligned(b, Seq::empty()));
            return Err(ConversionError::VarBufTooLarge { size: offset });
        }
        let mut i: usize = 0;
        while i < states.len()
            invariant
                i <= states@.len(),
                self.buf@ == aligned(b, states_bytes(states@.subrange(0, i as int))),
            decreases states@.len() - i,
        {
            let st = states[i];
            self.write_state(st.pic_id, st.x_offset, st.y_offset);
            assert(states@.subrange(0, i + 1).drop_last() =~= states@.subrange(0, i as int));
            i = i + 1;
        }
        assert(states@.subrange(0, states@.len() as int) =~= states@);
        Ok(offset as i16)
    }

    /// Writes a hotspot (48 bytes).
    pub fn write_hotspot(&mut self, hotspot: &Hotspot)
        ensures
            final(self)@ == old(self)@ + hotspot.spec_bytes(),
    {
        hotspot.to_bytes(&mut self.buf);
    }

    /// Writes the hotspots, aligned, and returns their offset.
    pub fn write_hotspots(&mut self, hotspots: &[Hotspot]) -> (r: Result<i16, ConversionError>)
        ensures
            ({
                let b = old(self)@;
                let o = b.len() + pad4(b.len() as int);
                &&& o > 32767 ==> (r matches Err(ConversionError::VarBufTooLarge { size }) && size == o
                    && final(self)@ == aligned(b, Seq::empty()))
                &&& o <= 32767 ==> r == Ok::<i16, ConversionError>(o as i16) && final(self)@ == aligned(b, hotspots_bytes(hotspots@))
            }),
    {
        let ghost b = self.buf@;
        self.align_to_4();
        let offset = self.buf.len();
        if offset > 32767 {
            assert(self.buf@ =~= aligned(b, Seq::empty()));
            return Err(ConversionError::VarBufTooLarge { size: offset });
        }
        let mut i: usize = 0;
        while i < hotspots.len()
            invariant
                i <= hotspots@.len(),
                self.buf@ == aligned(b, hotspots_bytes(hotspots@.subrange(0, i as int))),
            decreases hotspots@.len() - i,
        {
            self.write_hotspot(&hotspots[i]);
            assert(hotspots@.subrange(0, i + 1).drop_last() =~= hotspots@.subrange(0, i as int));
            i = i + 1;
        }
        assert(hotspots@.subrange(0, hotspots@.len() as int) =~= hotspots@);
        Ok(offset as i16)
    }

    /// Writes a picture record (12 bytes).
    pub fn write_picture_rec(&mut self, pic: &PictureRec)
        ensures
            final(self)@ == old(self)@ + pic.spec_bytes(),
    {
        pic.to_bytes(&mut self.buf);
    }

    /// Writes the picture records, aligned, and returns their offset.
    pub fn write_picture_recs(&mut self, pictures: &[PictureRec]) -> (r: Result<i16, ConversionError>)
        ensures
            ({
                let b = old(self)@;
                let o = b.len() + pad4(b.len() as int);
                &&& o > 32767 ==> (r matches Err(ConversionError::VarBufTooLarge { size }) && size == o
                    && final(self)@ == aligned(b, Seq::empty()))
                &&& o <= 32767 ==> r == Ok::<i16, ConversionError>(o as i16) && final(self)@ == aligned(b, pictures_bytes(pictures@))
            }),
    {
        let ghost b = self.buf@;
        self.align_to_4();
        let offset = self.buf.len();
        if offset > 32767 {
            assert(self.buf@ =~= aligned(b, Seq::empty()));
            return Err(ConversionError::VarBufTooLarge { size: offset });
        }
        let mut i: usize = 0;
        while i < pictures.len()
            invariant
                i <= pictures@.len(),
                self.buf@ == aligned(b, pictures_bytes(pictures@.subrange(0, i as int))),
            decreases pictures@.len() - i,
        {
            self.write_picture_rec(&pictures[i]);
            assert(pictures@.subrange(0, i + 1).drop_last() =~= pictures@.subrange(0, i as int));
            i = i + 1;
        }
        assert(pictures@.subrange(0, pictures@.len() as int) =~= pictures@);
        Ok(offset as i16)
    }

    /// The bytes built.
    pub fn finish(self) -> (v: Vec<u8>)
        ensures
            v@ == self@,
    {
        self.buf
    }
}


// ---------------------------------------------------------------------------
// Flags and event masks
// ---------------------------------------------------------------------------

/// The wire bits of a room's declared flags: private, no painting,
/// cyborg-free zone, hidden, no guests.
pub open spec fn flags_bits(f: RoomFlags) -> u16 {
    (if f.private { 0x2u16 } else { 0u16 }) | (if f.no_painting { 0x4u16 } else { 0u16 })
        | (if f.no_cyborgs { 0x10u16 } else { 0u16 }) | (if f.hidden { 0x20u16 } else { 0u16 })
        | (if f.no_guests { 0x40u16 } else { 0u16 })
}

/// `f` when `b` holds, else no flag.
fn flag_if(b: bool, f: WireRoomFlags) -> (r: WireRoomFlags)
    ensures
        r@ == (if b { f@ } else { 0u16 }),
{
    if b { f } else { WireRoomFlags::empty() }
}

/// Converts declared room flags to wire flags.
pub fn convert_flags(flags: &RoomFlags) -> (r: WireRoomFlags)
    ensures
        r@ == flags_bits(*flags),
{
    let result = WireRoomFlags::empty()
        .union(flag_if(flags.private, WireRoomFlags::PRIVATE()))
        .union(flag_if(flags.no_painting, WireRoomFlags::NO_PAINTING()))
        .union(flag_if(flags.no_cyborgs, WireRoomFlags::CYBORG_FREE_ZONE()))
        .union(flag_if(flags.hidden, WireRoomFlags::HIDDEN()))
        .union(flag_if(flags.no_guests, WireRoomFlags::NO_GUESTS()));
    proof {
        let r: u16 = result@;
        let x: u16 = flags_bits(*flags);
        let (p, np, nc, h, ng) = (flags.private, flags.no_painting, flags.no_cyborgs, flags.hidden, flags.no_guests);
        assert(r == x) by (bit_vector)
            requires
                r == (((((0u16 | (if p { 0x2u16 } else { 0u16 })) | (if np { 0x4u16 } else { 0u16 }))
                    | (if nc { 0x10u16 } else { 0u16 })) | (if h { 0x20u16 } else { 0u16 }))
                    | (if ng { 0x40u16 } else { 0u16 })),
                x == (if p { 0x2u16 } else { 0u16 }) | (if np { 0x4u16 } else { 0u16 })
                    | (if nc { 0x10u16 } else { 0u16 }) | (if h { 0x20u16 } else { 0u16 })
                    | (if ng { 0x40u16 } else { 0u16 });
    }
    result
}

proof fn lemma_flags_bits_defined(f: RoomFlags)
    ensures
        flags_bits(f) & !0x3ffu16 == 0,
{
    let x: u16 = flags_bits(f);
    let (p, np, nc, h, ng) = (f.private, f.no_painting, f.no_cyborgs, f.hidden, f.no_guests);
    assert(x & !0x3ffu16 == 0) by (bit_vector)
        requires
            x == (if p { 0x2u16 } else { 0u16 }) | (if np { 0x4u16 } else { 0u16 })
                | (if nc { 0x10u16 } else { 0u16 }) | (if h { 0x20u16 } else { 0u16 })
                | (if ng { 0x40u16 } else { 0u16 });
}

/// The events that a list of handlers answers, as mask bits.
pub open spec fn handlers_mask(hs: Seq<EventHandler>) -> u32
    decreases hs.len(),
{
    if hs.len() == 0 {
        0
    } else {
        handlers_mask(hs.drop_last()) | event_bit(hs.last().event)
    }
}

/// The mask of a list of handlers holds the bit of each handler's event,
/// and no bit of an event that no handler answers.
pub proof fn lemma_handlers_mask(hs: Seq<EventHandler>)
    ensures
        forall|i: int| 0 <= i < hs.len() ==> handlers_mask(hs) & event_bit(#[trigger] hs[i].event) == event_bit(hs[i].event),
        forall|e: EventType| (forall|i: int| 0 <= i < hs.len() ==> #[trigger] hs[i].event != e) ==> handlers_mask(hs)
            & event_bit(e) == 0,
    decreases hs.len(),
{
    if hs.len() > 0 {
        let init = hs.drop_last();
        lemma_handlers_mask(init);
        let x = handlers_mask(init);
        let y = event_bit(hs.last().event);
        assert(handlers_mask(hs) == x | y);
        assert forall|i: int| 0 <= i < hs.len() implies handlers_mask(hs) & event_bit(#[trigger] hs[i].event)
            == event_bit(hs[i].event) by {
            let b = event_bit(hs[i].event);
            if i < hs.len() - 1 {
                assert(init[i] == hs[i]);
                assert(x & b == b);
            } else {
                assert(b == y);
            }
            assert((x & b == b || y == b) ==> (x | y) & b == b) by (bit_vector);
        }
        assert forall|e: EventType| (forall|i: int| 0 <= i < hs.len() ==> #[trigger] hs[i].event != e) implies
            handlers_mask(hs) & event_bit(e) == 0 by {
            let b = event_bit(e);
            assert forall|i: int| 0 <= i < init.len() implies #[trigger] init[i].event != e by {
                assert(init[i] == hs[i]);
            }
            assert(x & b == 0);
            assert(hs[hs.len() - 1].event != e);
            lemma_event_bits_disjoint(hs.last().event, e);
            assert((x & b == 0 && y & b == 0) ==> (x | y) & b == 0) by (bit_vector);
        }
    } else {
        assert(forall|b: u32| #[trigger] (0u32 & b) == 0u32) by (bit_vector);
    }
}

/// A converted hotspot's script event mask is the union of its script's
/// handlers' events: the bit of every handled event is set, the bit of
/// every other event is clear, and without a script the mask is 0.
pub proof fn lemma_hotspot_event_mask(b: Seq<u8>, id: i16, dest: i16, kind: HotspotType, name: Option<Seq<char>>,
    pts: Seq<Point>, sts: Seq<StateDecl>, script: Option<Script>)
    ensures
        script is None ==> hotspot_of(b, id, dest, kind, name, pts, sts, script).script_event_mask == 0,
        script matches Some(sc) ==> forall|i: int| 0 <= i < sc.handlers@.len() ==> (hotspot_of(b, id, dest, kind,
            name, pts, sts, script).script_event_mask as u32) & event_bit(#[trigger] sc.handlers@[i].event) == event_bit(
            sc.handlers@[i].event),
        script matches Some(sc) ==> forall|e: EventType| (forall|i: int| 0 <= i < sc.handlers@.len()
            ==> #[trigger] sc.handlers@[i].event != e) ==> (hotspot_of(b, id, dest, kind, name, pts, sts,
            script).script_event_mask as u32) & event_bit(e) == 0,
{
    if let Some(sc) = script {
        let m = handlers_mask(sc.handlers@);
        lemma_handlers_mask(sc.handlers@);
        assert((m as i32) as u32 == m) by (bit_vector);
    }
}

/// The events that a script answers: the union of its handlers' events.
pub fn extract_event_mask(script: &Script) -> (m: EventMask)
    ensures
        m@ == handlers_mask(script.handlers@),
{
    let mut mask = EventMask::empty();
    let mut i: usize = 0;
    while i < script.handlers.len()
        invariant
            i <= script.handlers@.len(),
            mask@ == handlers_mask(script.handlers@.subrange(0, i as int)),
        decreases script.handlers@.len() - i,
    {
        mask = mask.union(script.handlers[i].event.to_mask());
        assert(script.handlers@.subrange(0, i + 1).drop_last() =~= script.handlers@.subrange(0, i as int));
        i = i + 1;
    }
    assert(script.handlers@.subrange(0, script.handlers@.len() as int) =~= script.handlers@);
    mask
}

/// Turning a script back into text is not supported: it always fails.
pub fn serialize_script(script: &Script) -> (r: Result<String, ConversionError>)
    ensures
        r matches Err(ConversionError::ScriptSerializationError { .. }),
{
    Err(ConversionError::ScriptSerializationError {
        message: crate::text::string_from("Script serialization not yet implemented"),
    })
}

// ---------------------------------------------------------------------------
// Hotspots
// ---------------------------------------------------------------------------

/// The buffer after an optional Pascal string.
pub open spec fn after_name(b: Seq<u8>, name: Option<Seq<char>>) -> Seq<u8> {
    match name {
        Some(t) => b + pstring_bytes(t),
        None => b,
    }
}

/// The buffer after an aligned array that is written only when it has
/// elements.
pub open spec fn after_array(b: Seq<u8>, present: bool, arr: Seq<u8>) -> Seq<u8> {
    if present { aligned(b, arr) } else { b }
}

/// The offset at which an aligned array starts after `b`.
pub open spec fn aligned_offset(b: Seq<u8>) -> int {
    b.len() + pad4(b.len() as int)
}

/// Whether a hotspot's data fits: a name of at most 255 bytes written at
/// an offset of at most 32767, and each array starting at most at 32767.
pub open spec fn hotspot_fits(b: Seq<u8>, name: Option<Seq<char>>, pts: Seq<Point>, sts: Seq<StateDecl>) -> bool {
    let b1 = after_name(b, name);
    let b2 = after_array(b1, pts.len() > 0, points_bytes(pts));
    &&& name matches Some(t) ==> text_bytes(t).len() <= 255 && b.len() <= 32767
    &&& pts.len() > 0 ==> aligned_offset(b1) <= 32767
    &&& sts.len() > 0 ==> aligned_offset(b2) <= 32767
}

/// The buffer after a hotspot's name, outline and states.
pub open spec fn hotspot_layout(b: Seq<u8>, name: Option<Seq<char>>, pts: Seq<Point>, sts: Seq<StateDecl>) -> Seq<u8> {
    let b1 = after_name(b, name);
    let b2 = after_array(b1, pts.len() > 0, points_bytes(pts));
    after_array(b2, sts.len() > 0, states_bytes(sts))
}

/// The hotspot that a declaration becomes, given where its data went.
pub open spec fn hotspot_of(b: Seq<u8>, id: i16, dest: i16, kind: HotspotType, name: Option<Seq<char>>,
    pts: Seq<Point>, sts: Seq<StateDecl>, script: Option<Script>) -> Hotspot
{
    let b1 = after_name(b, name);
    let b2 = after_array(b1, pts.len() > 0, points_bytes(pts));
    Hotspot {
        script_event_mask: match script {
            Some(sc) => handlers_mask(sc.handlers@) as i32,
            None => 0,
        },
        flags: 0,
        secure_info: 0,
        ref_con: 0,
        loc: if pts.len() > 0 { pts[0] } else { Point { v: 0, h: 0 } },
        id,
        dest,
        nbr_pts: pts.len() as i16,
        pts_ofst: if pts.len() > 0 { aligned_offset(b1) as i16 } else { 0 },
        hotspot_type: kind,
        group_id: 0,
        nbr_scripts: 0,
        script_rec_ofst: 0,
        state: HotspotState::Unlocked,
        nbr_states: sts.len() as i16,
        state_rec_ofst: if sts.len() > 0 { aligned_offset(b2) as i16 } else { 0 },
        name_ofst: match name {
            Some(_) => b.len() as i16,
            None => -1i16,
        },
        script_text_ofst: 0,
    }
}

fn opt_str(s: &Option<String>) -> (r: Option<&str>)
    ensures
        match *s {
            Some(t) => r matches Some(u) && u@ == t@,
            None => r is None,
        },
{
    match s {
        Some(t) => Some(t.as_str()),
        None => None,
    }
}

/// Converts a hotspot declaration (a door or a spot): its name, outline
/// and states go into the buffer.
fn convert_hotspot(id: i16, dest: i16, kind: HotspotType, name: &Option<String>, outline: &Vec<Point>,
    picts: &Vec<StateDecl>, script: &Option<Script>, var_buf: &mut VarBufBuilder) -> (r: Result<Hotspot, ConversionError>)
    ensures
        outline@.len() > 32767 ==> (r matches Err(ConversionError::TooManyPoints { hotspot_id, count })
            && hotspot_id == id && count == outline@.len() && final(var_buf)@ == old(var_buf)@),
        outline@.len() <= 32767 && picts@.len() > 32767 ==> (r matches Err(ConversionError::TooManyStates { hotspot_id, count })
            && hotspot_id == id && count == picts@.len() && final(var_buf)@ == old(var_buf)@),
        outline@.len() <= 32767 && picts@.len() <= 32767 ==>
            (r is Ok <==> hotspot_fits(old(var_buf)@, opt_text(*name), outline@, picts@)),
        r matches Ok(h) ==> h == hotspot_of(old(var_buf)@, id, dest, kind, opt_text(*name), outline@, picts@, *script)
            && final(var_buf)@ == hotspot_layout(old(var_buf)@, opt_text(*name), outline@, picts@),
{
    if outline.len() > 32767 {
        return Err(ConversionError::TooManyPoints { hotspot_id: id, count: outline.len() });
    }
    if picts.len() > 32767 {
        return Err(ConversionError::TooManyStates { hotspot_id: id, count: picts.len() });
    }
    let ghost b = var_buf@;
    let name_ofst = var_buf.write_optional_pstring(opt_str(name))?;
    let ghost b1 = var_buf@;
    assert(b1 == after_name(b, opt_text(*name)));
    let pts_ofst = if outline.len() == 0 {
        0
    } else {
        var_buf.write_points(outline.as_slice())?
    };
    let ghost b2 = var_buf@;
    let state_rec_ofst = if picts.len() == 0 {
        0
    } else {
        var_buf.write_states(picts.as_slice())?
    };
    let script_event_mask: i32 = match script {
        Some(sc) => extract_event_mask(sc).bits() as i32,
        None => 0,
    };
    let loc = if outline.len() > 0 { outline[0] } else { Point::origin() };
    Ok(Hotspot {
        script_event_mask,
        flags: 0,
        secure_info: 0,
        ref_con: 0,
        loc,
        id,
        dest,
        nbr_pts: outline.len() as i16,
        pts_ofst,
        hotspot_type: kind,
        group_id: 0,
        nbr_scripts: 0,
        script_rec_ofst: 0,
        state: HotspotState::Unlocked,
        nbr_states: picts.len() as i16,
        state_rec_ofst,
        name_ofst,
        script_text_ofst: 0,
    })
}

/// Converts a door to a door hotspot; see `convert_hotspot`.
pub fn convert_door(door: &DoorDecl, var_buf: &mut VarBufBuilder) -> (r: Result<Hotspot, ConversionError>)
    ensures
        door.outline@.len() > 32767 ==> (r matches Err(ConversionError::TooManyPoints { hotspot_id, count })
            && hotspot_id == door.id && count == door.outline@.len() && final(var_buf)@ == old(var_buf)@),
        door.outline@.len() <= 32767 && door.picts@.len() > 32767 ==> (r matches Err(ConversionError::TooManyStates { hotspot_id, count })
            && hotspot_id == door.id && count == door.picts@.len() && final(var_buf)@ == old(var_buf)@),
        door.outline@.len() <= 32767 && door.picts@.len() <= 32767 ==>
            (r is Ok <==> hotspot_fits(old(var_buf)@, opt_text(door.name), door.outline@, door.picts@)),
        r matches Ok(h) ==> h == hotspot_of(old(var_buf)@, door.id, door.dest, HotspotType::Door, opt_text(door.name),
                door.outline@, door.picts@, door.script)
            && final(var_buf)@ == hotspot_layout(old(var_buf)@, opt_text(door.name), door.outline@, door.picts@),
{
    convert_hotspot(door.id, door.dest, HotspotType::Door, &door.name, &door.outline, &door.picts, &door.script, var_buf)
}

/// Converts a spot to a normal hotspot with no destination; see
/// `convert_hotspot`.
pub fn convert_spot(spot: &SpotDecl, var_buf: &mut VarBufBuilder) -> (r: Result<Hotspot, ConversionError>)
    ensures
        spot.outline@.len() > 32767 ==> (r matches Err(ConversionError::TooManyPoints { hotspot_id, count })
            && hotspot_id == spot.id && count == spot.outline@.len() && final(var_buf)@ == old(var_buf)@),
        spot.outline@.len() <= 32767 && spot.picts@.len() > 32767 ==> (r matches Err(ConversionError::TooManyStates { hotspot_id, count })
            && hotspot_id == spot.id && count == spot.picts@.len() && final(var_buf)@ == old(var_buf)@),
        spot.outline@.len() <= 32767 && spot.picts@.len() <= 32767 ==>
            (r is Ok <==> hotspot_fits(old(var_buf)@, opt_text(spot.name), spot.outline@, spot.picts@)),
        r matches Ok(h) ==> h == hotspot_of(old(var_buf)@, spot.id, 0, HotspotType::Normal, opt_text(spot.name),
                spot.outline@, spot.picts@, spot.script)
            && final(var_buf)@ == hotspot_layout(old(var_buf)@, opt_text(spot.name), spot.outline@, spot.picts@),
{
    convert_hotspot(spot.id, 0, HotspotType::Normal, &spot.name, &spot.outline, &spot.picts, &spot.script, var_buf)
}

// ---------------------------------------------------------------------------
// Rooms
// ---------------------------------------------------------------------------

/// Whether `a` is a prefix of `b`.
pub open spec fn prefix_of(a: Seq<u8>, b: Seq<u8>) -> bool {
    a.len() <= b.len() && b.subrange(0, a.len() as int) == a
}

proof fn lemma_prefix_trans(a: Seq<u8>, b: Seq<u8>, c: Seq<u8>)
    requires
        prefix_of(a, b),
        prefix_of(b, c),
    ensures
        prefix_of(a, c),
{
    assert(c.subrange(0, a.len() as int) =~= b.subrange(0, a.len() as int));
}

proof fn lemma_prefix_append(a: Seq<u8>, x: Seq<u8>)
    ensures
        prefix_of(a, a + x),
{
    assert((a + x).subrange(0, a.len() as int) =~= a);
}

proof fn lemma_prefix_layout(b: Seq<u8>, name: Option<Seq<char>>, pts: Seq<Point>, sts: Seq<StateDecl>)
    ensures
        prefix_of(b, hotspot_layout(b, name, pts, sts)),
{
    let b1 = after_name(b, name);
    let b2 = after_array(b1, pts.len() > 0, points_bytes(pts));
    let b3 = after_array(b2, sts.len() > 0, states_bytes(sts));
    assert(prefix_of(b, b1)) by {
        if let Some(t) = name {
            lemma_prefix_append(b, pstring_bytes(t));
        } else {
            assert(b.subrange(0, b.len() as int) =~= b);
        }
    }
    assert(prefix_of(b1, b2)) by {
        if pts.len() > 0 {
            assert(aligned(b1, points_bytes(pts)) == b1 + (Seq::new(pad4(b1.len() as int) as nat, |i: int| 0u8) + points_bytes(pts)));
            lemma_prefix_append(b1, Seq::new(pad4(b1.len() as int) as nat, |i: int| 0u8) + points_bytes(pts));
        } else {
            assert(b1.subrange(0, b1.len() as int) =~= b1);
        }
    }
    assert(prefix_of(b2, b3)) by {
        if sts.len() > 0 {
            assert(aligned(b2, states_bytes(sts)) == b2 + (Seq::new(pad4(b2.len() as int) as nat, |i: int| 0u8) + states_bytes(sts)));
            lemma_prefix_append(b2, Seq::new(pad4(b2.len() as int) as nat, |i: int| 0u8) + states_bytes(sts));
        } else {
            assert(b2.subrange(0, b2.len() as int) =~= b2);
        }
    }
    lemma_prefix_trans(b, b1, b2);
    lemma_prefix_trans(b, b2, b3);
}

proof fn lemma_prefix_aligned(b: Seq<u8>, arr: Seq<u8>)
    ensures
        prefix_of(b, aligned(b, arr)),
{
    assert(aligned(b, arr) == b + (Seq::new(pad4(b.len() as int) as nat, |i: int| 0u8) + arr));
    lemma_prefix_append(b, Seq::new(pad4(b.len() as int) as nat, |i: int| 0u8) + arr);
}

proof fn lemma_pstring_kept(a: Seq<u8>, b: Seq<u8>, off: i16, o: Option<Seq<char>>)
    requires
        opt_pstring_in(a, off, o),
        prefix_of(a, b),
    ensures
        opt_pstring_in(b, off, o),
{
    if let Some(t) = o {
        let n = 1 + text_bytes(t).len();
        assert(b.subrange(off as int, off + n) =~= a.subrange(off as int, off + n)) by {
            assert forall|i: int| 0 <= i < n implies #[trigger] b.subrange(off as int, off + n)[i] == a.subrange(off as int, off + n)[i] by {
                assert(b.subrange(0, a.len() as int)[off + i] == b[off + i]);
            }
        }
    }
}

proof fn lemma_prefix_sub(a: Seq<u8>, c: Seq<u8>, x: int, y: int)
    requires
        prefix_of(a, c),
        0 <= x <= y <= a.len(),
    ensures
        c.subrange(x, y) == a.subrange(x, y),
{
    assert(c.subrange(x, y) =~= a.subrange(x, y)) by {
        assert forall|i: int| 0 <= i < y - x implies #[trigger] c.subrange(x, y)[i] == a.subrange(x, y)[i] by {
            assert(c.subrange(0, a.len() as int)[x + i] == c[x + i]);
        }
    }
}

proof fn lemma_aligned_reads(b: Seq<u8>, arr: Seq<u8>)
    ensures
        aligned(b, arr).subrange(aligned_offset(b), aligned_offset(b) + arr.len()) == arr,
        aligned(b, arr).len() == aligned_offset(b) + arr.len(),
        aligned_offset(b) % 4 == 0,
        prefix_of(b, aligned(b, arr)),
{
    let z = Seq::new(pad4(b.len() as int) as nat, |i: int| 0u8);
    assert(aligned(b, arr).subrange(aligned_offset(b), aligned_offset(b) + arr.len()) =~= arr);
    lemma_prefix_aligned(b, arr);
}

/// A converted hotspot keeps its declaration's ID, destination, type and
/// counts, stands at the first point of its outline, and its name,
/// outline and states read back from the variable buffer at the offsets it
/// records (each array on a 4-byte boundary), while what the buffer held
/// before stays as it was.
pub proof fn lemma_hotspot_read_back(b: Seq<u8>, id: i16, dest: i16, kind: HotspotType, name: Option<Seq<char>>,
    pts: Seq<Point>, sts: Seq<StateDecl>, script: Option<Script>)
    requires
        hotspot_fits(b, name, pts, sts),
        pts.len() <= 32767,
        sts.len() <= 32767,
    ensures
        ({
            let h = hotspot_of(b, id, dest, kind, name, pts, sts, script);
            let l = hotspot_layout(b, name, pts, sts);
            &&& h.id == id && h.dest == dest && h.hotspot_type == kind
            &&& h.nbr_pts == pts.len() && h.nbr_states == sts.len()
            &&& prefix_of(b, l)
            &&& opt_pstring_in(l, h.name_ofst, name)
            &&& pts.len() > 0 ==> {
                &&& h.loc == pts[0]
                &&& h.pts_ofst % 4 == 0
                &&& 0 <= h.pts_ofst && h.pts_ofst + points_bytes(pts).len() <= l.len()
                &&& l.subrange(h.pts_ofst as int, h.pts_ofst + points_bytes(pts).len()) == points_bytes(pts)
            }
            &&& sts.len() > 0 ==> {
                &&& h.state_rec_ofst % 4 == 0
                &&& 0 <= h.state_rec_ofst && h.state_rec_ofst + states_bytes(sts).len() <= l.len()
                &&& l.subrange(h.state_rec_ofst as int, h.state_rec_ofst + states_bytes(sts).len()) == states_bytes(sts)
            }
        }),
{
    let b1 = after_name(b, name);
    let b2 = after_array(b1, pts.len() > 0, points_bytes(pts));
    let l = hotspot_layout(b, name, pts, sts);
    lemma_prefix_layout(b, name, pts, sts);
    let h = hotspot_of(b, id, dest, kind, name, pts, sts, script);
    assert(prefix_of(b2, l)) by {
        if sts.len() > 0 {
            lemma_aligned_reads(b2, states_bytes(sts));
        } else {
            assert(l.subrange(0, b2.len() as int) =~= b2);
        }
    }
    assert(prefix_of(b1, b2)) by {
        if pts.len() > 0 {
            lemma_aligned_reads(b1, points_bytes(pts));
        } else {
            assert(b2.subrange(0, b1.len() as int) =~= b1);
        }
    }
    lemma_prefix_trans(b1, b2, l);
    if let Some(t) = name {
        assert(b1.subrange(b.len() as int, (b.len() + 1 + text_bytes(t).len()) as int) =~= pstring_bytes(t));
        assert(pstring_in(b1, b.len() as int, t));
        lemma_pstring_kept(b1, l, h.name_ofst, name);
    }
    if pts.len() > 0 {
        lemma_aligned_reads(b1, points_bytes(pts));
        lemma_prefix_sub(b2, l, aligned_offset(b1), aligned_offset(b1) + points_bytes(pts).len());
    }
    if sts.len() > 0 {
        lemma_aligned_reads(b2, states_bytes(sts));
    }
}

/// The record of a converted room: its flags, ID and counts, zero runtime
/// fields, a variable buffer of at most 32767 bytes whose length is
/// recorded, and each of its strings written at its offset.
pub open spec fn converted(room: RoomDecl, rec: RoomRec) -> bool {
    &&& rec.room_flags@ == flags_bits(room.flags)
    &&& rec.faces_id == 0
    &&& rec.room_id == room.id
    &&& opt_pstring_in(rec.var_buf@, rec.room_name_ofst, opt_text(room.name))
    &&& opt_pstring_in(rec.var_buf@, rec.pict_name_ofst, opt_text(room.pict))
    &&& opt_pstring_in(rec.var_buf@, rec.artist_name_ofst, opt_text(room.artist))
    &&& opt_pstring_in(rec.var_buf@, rec.password_ofst, opt_text(room.password))
    &&& rec.nbr_hotspots == room.doors@.len() + room.spots@.len()
    &&& rec.nbr_pictures == room.pictures@.len()
    &&& rec.nbr_draw_cmds == 0 && rec.first_draw_cmd == 0
    &&& rec.nbr_people == 0 && rec.nbr_lprops == 0 && rec.first_lprop == 0
    &&& rec.var_buf@.len() <= 32767
    &&& rec.len_vars == rec.var_buf@.len()
}

// ---------------------------------------------------------------------------
// When a room converts: the length of the variable buffer, step by step
// ---------------------------------------------------------------------------

/// The length that a buffer of length `n` has after an optional Pascal
/// string, or `None` where the write fails: a text of more than 255 bytes,
/// or an offset past 32767.
pub open spec fn opt_len(o: Option<int>, t: Option<Seq<char>>) -> Option<int> {
    match o {
        None => None,
        Some(n) => match t {
            None => Some(n),
            Some(t) => if text_bytes(t).len() <= 255 && n <= 32767 {
                Some(n + 1 + text_bytes(t).len())
            } else {
                None
            },
        },
    }
}

/// The length after an aligned array of `count` elements of `size` bytes,
/// written only when it has elements, or `None` where its offset passes
/// 32767.
pub open spec fn array_len(o: Option<int>, count: int, size: int) -> Option<int> {
    match o {
        None => None,
        Some(n) => if count == 0 {
            Some(n)
        } else if n + pad4(n) <= 32767 {
            Some(n + pad4(n) + count * size)
        } else {
            None
        },
    }
}

/// The length after a hotspot's name, outline and states, or `None` where
/// one of them fails.
pub open spec fn hotspot_len(o: Option<int>, name: Option<Seq<char>>, pts: Seq<Point>, sts: Seq<StateDecl>) -> Option<int> {
    if pts.len() > 32767 || sts.len() > 32767 {
        None
    } else {
        array_len(array_len(opt_len(o, name), pts.len() as int, 4), sts.len() as int, 6)
    }
}

/// The length after each element of `xs`, one after the other, by `step`.
pub open spec fn fold_len<T>(o: Option<int>, xs: Seq<T>, step: spec_fn(Option<int>, T) -> Option<int>) -> Option<int>
    decreases xs.len(),
{
    if xs.len() == 0 {
        o
    } else {
        step(fold_len(o, xs.drop_last(), step), xs.last())
    }
}

/// A picture's name.
pub open spec fn pic_step() -> spec_fn(Option<int>, PictureDecl) -> Option<int> {
    |o: Option<int>, p: PictureDecl| opt_len(o, Some(p.name@))
}

/// A door's name, outline and states.
pub open spec fn door_step() -> spec_fn(Option<int>, DoorDecl) -> Option<int> {
    |o: Option<int>, d: DoorDecl| hotspot_len(o, opt_text(d.name), d.outline@, d.picts@)
}

/// A spot's name, outline and states.
pub open spec fn spot_step() -> spec_fn(Option<int>, SpotDecl) -> Option<int> {
    |o: Option<int>, d: SpotDecl| hotspot_len(o, opt_text(d.name), d.outline@, d.picts@)
}

/// The length after the room's name, picture, artist and password.
pub open spec fn room_names_len(room: RoomDecl) -> Option<int> {
    opt_len(opt_len(opt_len(opt_len(Some(0), opt_text(room.name)), opt_text(room.pict)), opt_text(room.artist)),
        opt_text(room.password))
}

/// The length after the pictures' names and records; at most 32767
/// pictures.
pub open spec fn room_pictures_len(room: RoomDecl) -> Option<int> {
    if room.pictures@.len() <= 32767 {
        array_len(fold_len(room_names_len(room), room.pictures@, pic_step()), room.pictures@.len() as int, 12)
    } else {
        None
    }
}

/// The length after the doors' and spots' data and the hotspot records;
/// at most 32767 hotspots.
pub open spec fn room_hotspots_len(room: RoomDecl) -> Option<int> {
    let n = room.doors@.len() + room.spots@.len();
    if n <= 32767 {
        array_len(fold_len(fold_len(room_pictures_len(room), room.doors@, door_step()), room.spots@, spot_step()), n as int, 48)
    } else {
        None
    }
}

/// Whether a room converts: every step fits and the whole variable buffer
/// is at most 32767 bytes.
pub open spec fn room_converts(room: RoomDecl) -> bool {
    room_hotspots_len(room) matches Some(n) && n <= 32767
}

proof fn lemma_fold_prefix<T>(o: Option<int>, xs: Seq<T>, i: int, step: spec_fn(Option<int>, T) -> Option<int>)
    requires
        0 <= i < xs.len(),
    ensures
        fold_len(o, xs.subrange(0, i + 1), step) == step(fold_len(o, xs.subrange(0, i), step), xs[i]),
{
    assert(xs.subrange(0, i + 1).drop_last() =~= xs.subrange(0, i));
}

proof fn lemma_fold_none<T>(o: Option<int>, xs: Seq<T>, i: int, step: spec_fn(Option<int>, T) -> Option<int>)
    requires
        0 <= i <= xs.len(),
        fold_len(o, xs.subrange(0, i), step) is None,
        forall|x: T| #[trigger] step(None, x) is None,
    ensures
        fold_len(o, xs, step) is None,
    decreases xs.len() - i,
{
    if i == xs.len() {
        assert(xs.subrange(0, i) =~= xs);
    } else {
        lemma_fold_prefix(o, xs, i, step);
        lemma_fold_none(o, xs, i + 1, step);
    }
}

proof fn lemma_fold_all<T>(o: Option<int>, xs: Seq<T>, step: spec_fn(Option<int>, T) -> Option<int>)
    ensures
        fold_len(o, xs.subrange(0, 0), step) == o,
        fold_len(o, xs.subrange(0, xs.len() as int), step) == fold_len(o, xs, step),
{
    assert(xs.subrange(0, xs.len() as int) =~= xs);
}

proof fn lemma_room_len_none(room: RoomDecl)
    ensures
        fold_len(room_names_len(room), room.pictures@, pic_step()) is None ==> room_pictures_len(room) is None,
        room_names_len(room) is None ==> room_pictures_len(room) is None,
        fold_len(fold_len(room_pictures_len(room), room.doors@, door_step()), room.spots@, spot_step()) is None
            ==> room_hotspots_len(room) is None,
        fold_len(room_pictures_len(room), room.doors@, door_step()) is None ==> room_hotspots_len(room) is None,
        room_pictures_len(room) is None ==> room_hotspots_len(room) is None,
{
    assert forall|p: PictureDecl| #[trigger] (pic_step())(None, p) is None by {}
    assert forall|d: DoorDecl| #[trigger] (door_step())(None, d) is None by {}
    assert forall|d: SpotDecl| #[trigger] (spot_step())(None, d) is None by {}
    if room_names_len(room) is None {
        lemma_fold_all(room_names_len(room), room.pictures@, pic_step());
        lemma_fold_none(room_names_len(room), room.pictures@, 0, pic_step());
    }
    let d = fold_len(room_pictures_len(room), room.doors@, door_step());
    if d is None {
        lemma_fold_all(d, room.spots@, spot_step());
        lemma_fold_none(d, room.spots@, 0, spot_step());
    }
    if room_pictures_len(room) is None {
        lemma_fold_all(room_pictures_len(room), room.doors@, door_step());
        lemma_fold_none(room_pictures_len(room), room.doors@, 0, door_step());
        lemma_fold_all(d, room.spots@, spot_step());
        lemma_fold_none(d, room.spots@, 0, spot_step());
    }
}

proof fn lemma_points_bytes_len(pts: Seq<Point>)
    ensures
        points_bytes(pts).len() == 4 * pts.len(),
    decreases pts.len(),
{
    if pts.len() > 0 {
        lemma_points_bytes_len(pts.drop_last());
    }
}

proof fn lemma_states_bytes_len(sts: Seq<StateDecl>)
    ensures
        states_bytes(sts).len() == 6 * sts.len(),
    decreases sts.len(),
{
    if sts.len() > 0 {
        lemma_states_bytes_len(sts.drop_last());
    }
}

proof fn lemma_hotspots_bytes_len(hs: Seq<Hotspot>)
    ensures
        hotspots_bytes(hs).len() == 48 * hs.len(),
    decreases hs.len(),
{
    if hs.len() > 0 {
        lemma_hotspots_bytes_len(hs.drop_last());
    }
}

proof fn lemma_pictures_bytes_len(ps: Seq<PictureRec>)
    ensures
        pictures_bytes(ps).len() == 12 * ps.len(),
    decreases ps.len(),
{
    if ps.len() > 0 {
        lemma_pictures_bytes_len(ps.drop_last());
    }
}

proof fn lemma_aligned_len(b: Seq<u8>, arr: Seq<u8>)
    ensures
        aligned(b, arr).len() == b.len() + pad4(b.len() as int) + arr.len(),
{
    lemma_pad4(b.len() as int);
}

proof fn lemma_hotspot_len(b: Seq<u8>, name: Option<Seq<char>>, pts: Seq<Point>, sts: Seq<StateDecl>)
    requires
        pts.len() <= 32767,
        sts.len() <= 32767,
    ensures
        hotspot_fits(b, name, pts, sts) ==> hotspot_len(Some(b.len() as int), name, pts, sts)
            == Some(hotspot_layout(b, name, pts, sts).len() as int),
        !hotspot_fits(b, name, pts, sts) ==> hotspot_len(Some(b.len() as int), name, pts, sts) is None,
{
    let b1 = after_name(b, name);
    let b2 = after_array(b1, pts.len() > 0, points_bytes(pts));
    lemma_points_bytes_len(pts);
    lemma_states_bytes_len(sts);
    lemma_aligned_len(b1, points_bytes(pts));
    lemma_aligned_len(b2, states_bytes(sts));
    assert(opt_len(Some(b.len() as int), name) matches Some(n) ==> n == b1.len());
}

/// Writes an optional string (see `write_optional_pstring`): absent is
/// offset -1 and writes nothing.
fn write_opt(var_buf: &mut VarBufBuilder, s: &Option<String>) -> (r: Result<i16, ConversionError>)
    ensures
        match opt_text(*s) {
            None => r == Ok::<i16, ConversionError>(-1i16) && final(var_buf)@ == old(var_buf)@,
            Some(t) => {
                &&& text_bytes(t).len() > 255 ==> (r matches Err(ConversionError::StringTooLong { field, length })
                    && field@ == t && length == text_bytes(t).len())
                &&& text_bytes(t).len() <= 255 && old(var_buf)@.len() > 32767 ==> (r matches Err(
                    ConversionError::VarBufTooLarge { size }) && size == old(var_buf)@.len())
                &&& r is Err ==> final(var_buf)@ == old(var_buf)@
                &&& r matches Ok(off) ==> off == old(var_buf)@.len() && final(var_buf)@ == old(var_buf)@ + pstring_bytes(t)
            },
        },
        r is Ok <==> opt_len(Some(old(var_buf)@.len() as int), opt_text(*s)) is Some,
        r is Ok ==> opt_len(Some(old(var_buf)@.len() as int), opt_text(*s)) == Some(final(var_buf)@.len() as int),
        r matches Ok(off) ==> prefix_of(old(var_buf)@, final(var_buf)@)
            && opt_pstring_in(final(var_buf)@, off, opt_text(*s)),
{
    let r = var_buf.write_optional_pstring(opt_str(s));
    proof {
        if let Ok(off) = r {
            let o = opt_text(*s);
            if let Some(t) = o {
                lemma_prefix_append(old(var_buf)@, pstring_bytes(t));
                assert((old(var_buf)@ + pstring_bytes(t)).subrange(off as int, off + 1 + text_bytes(t).len()) =~= pstring_bytes(t));
            } else {
                assert(old(var_buf)@.subrange(0, old(var_buf)@.len() as int) =~= old(var_buf)@);
            }
        }
    }
    r
}

/// Converts a room declaration to a room record template.
///
/// Errors: a string of more than 255 bytes, more than 32767 pictures,
/// hotspots, points or states, or a variable buffer past 32767 bytes.
pub fn convert_room(room: &RoomDecl) -> (r: Result<RoomRec, ConversionError>)
    ensures
        r is Ok <==> room_converts(*room),
        r matches Ok(rec) ==> converted(*room, rec) && rec.consistent(),
        r is Ok ==> room.pictures@.len() <= 32767 && room.doors@.len() + room.spots@.len() <= 32767,
        room_names_len(*room) is Some && room.pictures@.len() > 32767 ==> (r matches Err(
            ConversionError::TooManyPictures { count }) && count == room.pictures@.len()),
        room_pictures_len(*room) is Some && room.doors@.len() + room.spots@.len() > 32767 ==> (r matches Err(
            ConversionError::TooManyHotspots { count }) && count == (if room.doors@.len() + room.spots@.len() <= usize::MAX {
                (room.doors@.len() + room.spots@.len()) as int
            } else {
                usize::MAX as int
            })),
        room_hotspots_len(*room) is Some && room_hotspots_len(*room)->0 > 32767 ==> (r matches Err(
            ConversionError::VarBufTooLarge { size }) && size == room_hotspots_len(*room)->0),
{
    proof {
        lemma_room_len_none(*room);
    }
    let mut var_buf = VarBufBuilder::new();
    let room_flags = convert_flags(&room.flags);
    let room_name_ofst = write_opt(&mut var_buf, &room.name)?;
    let ghost b1 = var_buf@;
    let pict_name_ofst = write_opt(&mut var_buf, &room.pict)?;
    let ghost b2 = var_buf@;
    let artist_name_ofst = write_opt(&mut var_buf, &room.artist)?;
    let ghost b3 = var_buf@;
    let password_ofst = write_opt(&mut var_buf, &room.password)?;
    let ghost b4 = var_buf@;
    proof {
        lemma_pstring_kept(b1, b2, room_name_ofst, opt_text(room.name));
        lemma_prefix_trans(b1, b2, b3);
        lemma_prefix_trans(b1, b3, b4);
        lemma_pstring_kept(b1, b4, room_name_ofst, opt_text(room.name));
        lemma_pstring_kept(b2, b3, pict_name_ofst, opt_text(room.pict));
        lemma_prefix_trans(b2, b3, b4);
        lemma_pstring_kept(b2, b4, pict_name_ofst, opt_text(room.pict));
        lemma_pstring_kept(b3, b4, artist_name_ofst, opt_text(room.artist));
        assert(b4.subrange(0, b4.len() as int) =~= b4);
        assert(room_names_len(*room) == Some(b4.len() as int));
    }
    let nbr_pictures = room.pictures.len();
    if nbr_pictures > 32767 {
        return Err(ConversionError::TooManyPictures { count: nbr_pictures });
    }
    proof {
        lemma_fold_all(room_names_len(*room), room.pictures@, pic_step());
    }
    let mut picture_recs: Vec<PictureRec> = Vec::new();
    let mut i: usize = 0;
    while i < room.pictures.len()
        invariant
            i <= room.pictures@.len(),
            nbr_pictures == room.pictures@.len(),
            nbr_pictures <= 32767,
            prefix_of(b4, var_buf@),
            picture_recs@.len() == i,
            fold_len(room_names_len(*room), room.pictures@.subrange(0, i as int), pic_step())
                == Some(var_buf@.len() as int),
        decreases room.pictures@.len() - i,
    {
        proof {
            lemma_room_len_none(*room);
            lemma_fold_prefix(room_names_len(*room), room.pictures@, i as int, pic_step());
            assert forall|p: PictureDecl| #[trigger] (pic_step())(None, p) is None by {}
            if opt_len(Some(var_buf@.len() as int), Some(room.pictures@[i as int].name@)) is None {
                lemma_fold_none(room_names_len(*room), room.pictures@, i + 1, pic_step());
            }
        }
        let pic_decl = &room.pictures[i];
        let ghost before = var_buf@;
        let pic_name_ofst = var_buf.write_pstring(pic_decl.name.as_str())?;
        proof {
            lemma_prefix_append(before, pstring_bytes(pic_decl.name@));
            lemma_prefix_trans(b4, before, var_buf@);
        }
        let trans_color = match pic_decl.trans_color {
            Some(c) => c,
            None => -1,
        };
        picture_recs.push(PictureRec { ref_con: 0, pic_id: pic_decl.id, pic_name_ofst, trans_color });
        i = i + 1;
    }
    let ghost b5 = var_buf@;
    proof {
        lemma_fold_all(room_names_len(*room), room.pictures@, pic_step());
        lemma_pictures_bytes_len(picture_recs@);
        lemma_aligned_len(b5, pictures_bytes(picture_recs@));
    }
    let picture_ofst = if picture_recs.len() == 0 {
        0
    } else {
        let o = var_buf.write_picture_recs(picture_recs.as_slice())?;
        proof {
            lemma_prefix_aligned(b5, pictures_bytes(picture_recs@));
        }
        o
    };
    let ghost b6 = var_buf@;
    proof {
        if picture_recs@.len() == 0 {
            assert(b5.subrange(0, b5.len() as int) =~= b5);
        }
        lemma_prefix_trans(b4, b5, b6);
        assert(room_pictures_len(*room) == Some(b6.len() as int));
    }
    let nd = room.doors.len();
    let ns = room.spots.len();
    if nd > 32767 || ns > 32767 - nd {
        let count = if ns <= usize::MAX - nd { nd + ns } else { usize::MAX };
        return Err(ConversionError::TooManyHotspots { count });
    }
    let nbr_hotspots = nd + ns;
    proof {
        lemma_fold_all(room_pictures_len(*room), room.doors@, door_step());
    }
    let mut hotspots: Vec<Hotspot> = Vec::new();
    let mut j: usize = 0;
    while j < room.doors.len()
        invariant
            j <= room.doors@.len(),
            prefix_of(b4, var_buf@),
            room.pictures@.len() <= 32767,
            room.doors@.len() + room.spots@.len() <= 32767,
            hotspots@.len() == j,
            fold_len(room_pictures_len(*room), room.doors@.subrange(0, j as int), door_step())
                == Some(var_buf@.len() as int),
        decreases room.doors@.len() - j,
    {
        let ghost before = var_buf@;
        let door = &room.doors[j];
        proof {
            lemma_room_len_none(*room);
            lemma_fold_prefix(room_pictures_len(*room), room.doors@, j as int, door_step());
            assert forall|d: DoorDecl| #[trigger] (door_step())(None, d) is None by {}
            if door.outline@.len() <= 32767 && door.picts@.len() <= 32767 {
                lemma_hotspot_len(before, opt_text(door.name), door.outline@, door.picts@);
            }
            if hotspot_len(Some(before.len() as int), opt_text(door.name), door.outline@, door.picts@) is None {
                lemma_fold_none(room_pictures_len(*room), room.doors@, j + 1, door_step());
            }
        }
        let h = convert_door(door, &mut var_buf)?;
        proof {
            lemma_prefix_layout(before, opt_text(door.name), door.outline@, door.picts@);
            lemma_prefix_trans(b4, before, var_buf@);
        }
        hotspots.push(h);
        j = j + 1;
    }
    let ghost b_doors = var_buf@;
    proof {
        lemma_fold_all(room_pictures_len(*room), room.doors@, door_step());
        lemma_fold_all(fold_len(room_pictures_len(*room), room.doors@, door_step()), room.spots@, spot_step());
    }
    let mut k: usize = 0;
    while k < room.spots.len()
        invariant
            k <= room.spots@.len(),
            prefix_of(b4, var_buf@),
            room.pictures@.len() <= 32767,
            room.doors@.len() + room.spots@.len() <= 32767,
            hotspots@.len() == room.doors@.len() + k,
            fold_len(fold_len(room_pictures_len(*room), room.doors@, door_step()), room.spots@.subrange(0, k as int),
                spot_step()) == Some(var_buf@.len() as int),
        decreases room.spots@.len() - k,
    {
        let ghost before = var_buf@;
        let spot = &room.spots[k];
        proof {
            let d = fold_len(room_pictures_len(*room), room.doors@, door_step());
            lemma_room_len_none(*room);
            lemma_fold_prefix(d, room.spots@, k as int, spot_step());
            assert forall|x: SpotDecl| #[trigger] (spot_step())(None, x) is None by {}
            if spot.outline@.len() <= 32767 && spot.picts@.len() <= 32767 {
                lemma_hotspot_len(before, opt_text(spot.name), spot.outline@, spot.picts@);
            }
            if hotspot_len(Some(before.len() as int), opt_text(spot.name), spot.outline@, spot.picts@) is None {
                lemma_fold_none(d, room.spots@, k + 1, spot_step());
            }
        }
        let h = convert_spot(spot, &mut var_buf)?;
        proof {
            lemma_prefix_layout(before, opt_text(spot.name), spot.outline@, spot.picts@);
            lemma_prefix_trans(b4, before, var_buf@);
        }
        hotspots.push(h);
        k = k + 1;
    }
    let ghost b7 = var_buf@;
    proof {
        lemma_fold_all(fold_len(room_pictures_len(*room), room.doors@, door_step()), room.spots@, spot_step());
        lemma_hotspots_bytes_len(hotspots@);
        lemma_aligned_len(b7, hotspots_bytes(hotspots@));
    }
    let hotspot_ofst = if hotspots.len() == 0 {
        0
    } else {
        let o = var_buf.write_hotspots(hotspots.as_slice())?;
        proof {
            lemma_prefix_aligned(b7, hotspots_bytes(hotspots@));
            lemma_prefix_trans(b4, b7, var_buf@);
        }
        o
    };
    proof {
        if hotspots@.len() == 0 {
            assert(b7.subrange(0, b7.len() as int) =~= b7);
        }
        assert(room_hotspots_len(*room) == Some(var_buf@.len() as int));
    }
    let var_buf_bytes = var_buf.finish();
    let len_vars = var_buf_bytes.len();
    if len_vars > 32767 {
        return Err(ConversionError::VarBufTooLarge { size: len_vars });
    }
    proof {
        lemma_pstring_kept(b1, b4, room_name_ofst, opt_text(room.name));
        lemma_pstring_kept(b4, var_buf_bytes@, room_name_ofst, opt_text(room.name));
        lemma_pstring_kept(b4, var_buf_bytes@, pict_name_ofst, opt_text(room.pict));
        lemma_pstring_kept(b4, var_buf_bytes@, artist_name_ofst, opt_text(room.artist));
        lemma_pstring_kept(b4, var_buf_bytes@, password_ofst, opt_text(room.password));
        lemma_flags_bits_defined(room.flags);
    }
    Ok(RoomRec {
        room_flags,
        faces_id: 0,
        room_id: room.id,
        room_name_ofst,
        pict_name_ofst,
        artist_name_ofst,
        password_ofst,
        nbr_hotspots: nbr_hotspots as i16,
        hotspot_ofst,
        nbr_pictures: nbr_pictures as i16,
        picture_ofst,
        nbr_draw_cmds: 0,
        first_draw_cmd: 0,
        nbr_people: 0,
        nbr_lprops: 0,
        first_lprop: 0,
        len_vars: len_vars as i16,
        var_buf: var_buf_bytes,
    })
}

/// A Pascal string of ASCII text reads back from where it was written.
pub proof fn lemma_pstring_in_reads_back(b: Seq<u8>, off: int, t: Seq<char>)
    requires
        pstring_in(b, off, t),
        is_ascii_chars(t),
    ensures
        off < b.len(),
        spec_get_pstring(b, off) matches Ok((u, _)) && u == t,
{
    let n = 1 + text_bytes(t).len();
    let pre = b.subrange(0, off);
    let post = b.subrange(off + n, b.len() as int);
    assert(b =~= pre + pstring_bytes(t) + post);
    lemma_pstring_roundtrip(pre, t, post);
}

/// The strings of a converted room (name, picture, artist, password) read
/// back from its record as declared, where they are ASCII.
pub proof fn lemma_converted_strings_read_back(room: RoomDecl, rec: RoomRec)
    requires
        converted(room, rec),
    ensures
        (room.name matches Some(n) && is_ascii_chars(n@)) ==> 0 <= rec.room_name_ofst < rec.var_buf@.len()
            && (spec_get_pstring(rec.var_buf@, rec.room_name_ofst as int) matches Ok((t, _)) && t == room.name->0@),
        (room.pict matches Some(n) && is_ascii_chars(n@)) ==> 0 <= rec.pict_name_ofst < rec.var_buf@.len()
            && (spec_get_pstring(rec.var_buf@, rec.pict_name_ofst as int) matches Ok((t, _)) && t == room.pict->0@),
        (room.artist matches Some(n) && is_ascii_chars(n@)) ==> 0 <= rec.artist_name_ofst < rec.var_buf@.len()
            && (spec_get_pstring(rec.var_buf@, rec.artist_name_ofst as int) matches Ok((t, _)) && t == room.artist->0@),
        (room.password matches Some(n) && is_ascii_chars(n@)) ==> 0 <= rec.password_ofst < rec.var_buf@.len()
            && (spec_get_pstring(rec.var_buf@, rec.password_ofst as int) matches Ok((t, _)) && t == room.password->0@),
{
    if let Some(n) = room.name {
        if is_ascii_chars(n@) {
            lemma_pstring_in_reads_back(rec.var_buf@, rec.room_name_ofst as int, n@);
        }
    }
    if let Some(n) = room.pict {
        if is_ascii_chars(n@) {
            lemma_pstring_in_reads_back(rec.var_buf@, rec.pict_name_ofst as int, n@);
        }
    }
    if let Some(n) = room.artist {
        if is_ascii_chars(n@) {
            lemma_pstring_in_reads_back(rec.var_buf@, rec.artist_name_ofst as int, n@);
        }
    }
    if let Some(n) = room.password {
        if is_ascii_chars(n@) {
            lemma_pstring_in_reads_back(rec.var_buf@, rec.password_ofst as int, n@);
        }
    }
}
} // verus!
