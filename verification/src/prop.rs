//! Props: the images that avatars wear.
//!
//! A prop is a 44x44 image (the standard size) with a 12-byte header
//! (width, height, offsets, script offset, flags) and image data whose
//! encoding the flags select: 8-bit palette runs, or zlib-compressed
//! 20-bit, signed 20-bit or 32-bit pixels.
use vstd::prelude::*;
use crate::buffer::{copy_range, u16_be, i16_be, write_bytes, write_u16, write_i16, ErrorKind, WireError};
use crate::messages::flags::{spec_prop_format, PropFlags, PropFormat};

verus! {

broadcast use vstd::seq_lib::group_seq_properties;

/// Standard prop width in pixels.
pub const PROP_WIDTH: usize = 44;
/// Standard prop height in pixels.
pub const PROP_HEIGHT: usize = 44;
/// Pixels in a standard prop.
pub const PROP_PIXELS: usize = 1936;

/// An ARGB colour.
#[derive(Debug, Clone, Copy, PartialEq, Eq)]
pub struct Color {
    pub a: u8,
    pub r: u8,
    pub g: u8,
    pub b: u8,
}

/// The colour of a packed ARGB value: alpha in the top byte, then red,
/// green and blue.
pub open spec fn color_of_argb(argb: u32) -> Color {
    Color {
        a: ((argb >> 24u32) & 0xffu32) as u8,
        r: ((argb >> 16u32) & 0xffu32) as u8,
        g: ((argb >> 8u32) & 0xffu32) as u8,
        b: (argb & 0xffu32) as u8,
    }
}

/// The packed ARGB value of a colour.
pub open spec fn argb_of_color(c: Color) -> u32 {
    ((c.a as u32) << 24u32) | ((c.r as u32) << 16u32) | ((c.g as u32) << 8u32) | (c.b as u32)
}

/// The fully transparent colour (all channels zero).
pub open spec fn transparent_color() -> Color {
    Color { a: 0, r: 0, g: 0, b: 0 }
}

impl Color {
    /// A colour from its channels.
    pub fn new(a: u8, r: u8, g: u8, b: u8) -> (c: Color)
        ensures
            c == (Color { a, r, g, b }),
    {
        Color { a, r, g, b }
    }

    /// The fully transparent colour.
    pub fn transparent() -> (c: Color)
        ensures
            c == transparent_color(),
    {
        Color { a: 0, r: 0, g: 0, b: 0 }
    }

    /// The colour of a packed ARGB value.
    pub fn from_argb(argb: u32) -> (c: Color)
        ensures
            c == color_of_argb(argb),
    {
        Color {
            a: ((argb >> 24u32) & 0xffu32) as u8,
            r: ((argb >> 16u32) & 0xffu32) as u8,
            g: ((argb >> 8u32) & 0xffu32) as u8,
            b: (argb & 0xffu32) as u8,
        }
    }

    /// The packed ARGB value of the colour.
    pub fn to_argb(self) -> (v: u32)
        ensures
            v == argb_of_color(self),
    {
        ((self.a as u32) << 24u32) | ((self.r as u32) << 16u32) | ((self.g as u32) << 8u32) | (self.b as u32)
    }
}

/// Packing a colour and unpacking it gives the colour back, and unpacking a
/// value and packing it gives the value back.
pub proof fn lemma_argb_roundtrip(c: Color, v: u32)
    ensures
        color_of_argb(argb_of_color(c)) == c,
        argb_of_color(color_of_argb(v)) == v,
{
    let (a, r, g, b) = (c.a, c.r, c.g, c.b);
    let x = argb_of_color(c);
    assert(((x >> 24u32) & 0xffu32) as u8 == a && ((x >> 16u32) & 0xffu32) as u8 == r
        && ((x >> 8u32) & 0xffu32) as u8 == g && (x & 0xffu32) as u8 == b) by (bit_vector)
        requires
            x == ((a as u32) << 24u32) | ((r as u32) << 16u32) | ((g as u32) << 8u32) | (b as u32);
    let y = color_of_argb(v);
    let (ya, yr, yg, yb) = (y.a, y.b, y.g, y.b);
    assert((((((v >> 24u32) & 0xffu32) as u8) as u32) << 24u32) | (((((v >> 16u32) & 0xffu32) as u8) as u32) << 16u32)
        | (((((v >> 8u32) & 0xffu32) as u8) as u32) << 8u32) | (((v & 0xffu32) as u8) as u32) == v) by (bit_vector);
}

/// The gray that a palette index stands for: opaque, each channel the index.
pub open spec fn palette_color(index: u8) -> Color {
    Color { a: 255, r: index, g: index, b: index }
}

fn palette_lookup(index: u8) -> (c: Color)
    ensures
        c == palette_color(index),
{
    Color { a: 255, r: index, g: index, b: index }
}

// ---------------------------------------------------------------------------
// Prop records
// ---------------------------------------------------------------------------

/// A prop: header fields and the encoded image.
#[derive(Debug, Clone, PartialEq)]
pub struct PropRec {
    pub width: u16,
    pub height: u16,
    pub h_offset: i16,
    pub v_offset: i16,
    pub script_offset: u16,
    pub flags: PropFlags,
    pub image_data: Vec<u8>,
}

/// A 16-bit value read in the given byte order.
pub open spec fn u16_in(b0: u8, b1: u8, little: bool) -> u16 {
    if little { (b0 as u16) | ((b1 as u16) << 8u16) } else { ((b0 as u16) << 8u16) | (b1 as u16) }
}

fn read_u16_in(data: &[u8], pos: usize, little: bool) -> (v: u16)
    requires
        pos + 2 <= data@.len(),
    ensures
        v == u16_in(data@[pos as int], data@[pos + 1], little),
{
    let b0 = data[pos];
    let b1 = data[pos + 1];
    if little { (b0 as u16) | ((b1 as u16) << 8u16) } else { ((b0 as u16) << 8u16) | (b1 as u16) }
}

impl PropRec {
    /// A prop with the given header and image; no script.
    pub fn new(width: u16, height: u16, h_offset: i16, v_offset: i16, flags: PropFlags, image_data: Vec<u8>) -> (p: PropRec)
        ensures
            p.width == width && p.height == height && p.h_offset == h_offset && p.v_offset == v_offset,
            p.script_offset == 0 && p.flags == flags && p.image_data@ == image_data@,
    {
        PropRec { width, height, h_offset, v_offset, script_offset: 0, flags, image_data }
    }

    /// Reads a prop: the 12-byte header, then the image data (the rest).
    ///
    /// The byte order is told by the width's second byte: zero means
    /// little-endian (a width below 256 written low byte first), anything
    /// else big-endian. Fewer than 12 bytes is `UnexpectedEof`.
    pub fn from_bytes(data: &[u8]) -> (r: Result<PropRec, WireError>)
        ensures
            data@.len() < 12 ==> (r matches Err(e) && e.kind == ErrorKind::UnexpectedEof),
            data@.len() >= 12 ==> (r matches Ok(p) && {
                let s = data@;
                let little = s[1] == 0;
                &&& p.width == u16_in(s[0], s[1], little)
                &&& p.height == u16_in(s[2], s[3], little)
                &&& p.h_offset == u16_in(s[4], s[5], little) as i16
                &&& p.v_offset == u16_in(s[6], s[7], little) as i16
                &&& p.script_offset == u16_in(s[8], s[9], little)
                &&& p.flags@ == u16_in(s[10], s[11], little) & PropFlags::spec_all_bits()
                &&& p.image_data@ == s.subrange(12, s.len() as int)
            }),
    {
        if data.len() < 12 {
            return Err(WireError::new(ErrorKind::UnexpectedEof));
        }
        let little = data[1] == 0;
        let width = read_u16_in(data, 0, little);
        let height = read_u16_in(data, 2, little);
        let h_offset = read_u16_in(data, 4, little) as i16;
        let v_offset = read_u16_in(data, 6, little) as i16;
        let script_offset = read_u16_in(data, 8, little);
        let flags = PropFlags::from_bits_truncate(read_u16_in(data, 10, little));
        let image_data = copy_range(data, 12, data.len());
        Ok(PropRec { width, height, h_offset, v_offset, script_offset, flags, image_data })
    }

    /// Writes the prop: the header, big-endian, then the image data.
    pub fn to_bytes(&self, buf: &mut Vec<u8>)
        ensures
            final(buf)@ == old(buf)@ + u16_be(self.width) + u16_be(self.height) + i16_be(self.h_offset)
                + i16_be(self.v_offset) + u16_be(self.script_offset) + u16_be(self.flags@) + self.image_data@,
    {
        write_u16(buf, self.width);
        write_u16(buf, self.height);
        write_i16(buf, self.h_offset);
        write_i16(buf, self.v_offset);
        write_u16(buf, self.script_offset);
        write_u16(buf, self.flags.bits());
        write_bytes(buf, self.image_data.as_slice());
        assert(final(buf)@ =~= old(buf)@ + u16_be(self.width) + u16_be(self.height) + i16_be(self.h_offset)
            + i16_be(self.v_offset) + u16_be(self.script_offset) + u16_be(self.flags@) + self.image_data@);
    }

    /// The colour format that the flags select.
    pub fn format(&self) -> (f: PropFormat)
        ensures
            f == spec_prop_format(self.flags@),
    {
        self.flags.format()
    }
}

// ---------------------------------------------------------------------------
// Decoding
// ---------------------------------------------------------------------------

/// What a zlib stream inflates to, or `None` where it is not a complete,
/// valid stream.
pub uninterp spec fn zlib_inflated(data: Seq<u8>) -> Option<Seq<u8>>;

/// Inflates a zlib stream.
///
/// Reads flate2's `ZlibDecoder` over the bytes to the end. The contract
/// names the result (`zlib_inflated`): the inflated bytes when the read
/// succeeds, and no result when it fails. What the bytes are is not
/// stated; they depend on the input alone.
#[verifier::external_body]
fn zlib_inflate(data: &[u8]) -> (r: Option<Vec<u8>>)
    ensures
        match r {
            Some(v) => zlib_inflated(data@) == Some(v@),
            None => zlib_inflated(data@) is None,
        },
{
    let mut decoder = flate2::read::ZlibDecoder::new(data);
    let mut out: Vec<u8> = Vec::new();
    match std::io::Read::read_to_end(&mut decoder, &mut out) {
        Ok(_) => Some(out),
        Err(_) => None,
    }
}


// ---------------------------------------------------------------------------
// Packed channel levels
// ---------------------------------------------------------------------------

/// The channel levels of a packed pixel, before they are scaled to 8 bits
/// (5 or 6 bits a channel; for 20-bit pixels the alpha is a 2-bit level).
#[derive(Debug, Clone, Copy, PartialEq, Eq)]
pub struct Levels {
    pub a: u8,
    pub r: u8,
    pub g: u8,
    pub b: u8,
}

/// All levels zero: what a missing pixel stands for.
pub open spec fn zero_levels() -> Levels {
    Levels { a: 0, r: 0, g: 0, b: 0 }
}

/// Two bytes as one big-endian 16-bit value.
pub open spec fn word(hi: u8, lo: u8) -> u16 {
    ((hi as u16) << 8u16) | (lo as u16)
}

/// The first signed 20-bit pixel of a 5-byte pair: 5 bits each of red,
/// green, blue and alpha from the first 20 bits.
pub open spec fn s20_first(d0: u8, d1: u8, d2: u8) -> Levels {
    Levels {
        r: ((d0 >> 3u8) & 31u8) as u8,
        g: ((word(d0, d1) >> 6u16) & 31u16) as u8,
        b: ((word(d0, d1) >> 1u16) & 31u16) as u8,
        a: ((word(d1, d2) >> 4u16) & 31u16) as u8,
    }
}

/// The second signed 20-bit pixel of a 5-byte pair, from the last 20 bits.
pub open spec fn s20_second(d2: u8, d3: u8, d4: u8) -> Levels {
    Levels {
        r: ((word(d2, d3) >> 7u16) & 31u16) as u8,
        g: ((word(d2, d3) >> 2u16) & 31u16) as u8,
        b: ((word(d3, d4) >> 5u16) & 31u16) as u8,
        a: (word(d3, d4) & 31u16) as u8,
    }
}

/// The first 20 bits of a pair as a 24-bit value: the first pixel's levels
/// (taken mod 32) at bits 19, 14, 9 and 4.
pub open spec fn s20_head(p: Levels) -> u32 {
    (((p.r as u32) & 31u32) << 19u32) | (((p.g as u32) & 31u32) << 14u32) | (((p.b as u32) & 31u32) << 9u32)
        | (((p.a as u32) & 31u32) << 4u32)
}

/// The last 24 bits of a pair: the first pixel's low alpha bits, then the
/// second pixel's levels (taken mod 32).
pub open spec fn s20_tail(p1: Levels, p2: Levels) -> u32 {
    ((s20_head(p1) & 0xf0u32) << 16u32) | (((p2.r as u32) & 31u32) << 15u32) | (((p2.g as u32) & 31u32)
        << 10u32) | (((p2.b as u32) & 31u32) << 5u32) | ((p2.a as u32) & 31u32)
}

/// The five bytes of a pair of signed 20-bit pixels.
pub open spec fn s20_pair_bytes(p1: Levels, p2: Levels) -> Seq<u8> {
    seq![
        ((s20_head(p1) >> 16u32) & 0xffu32) as u8,
        ((s20_head(p1) >> 8u32) & 0xffu32) as u8,
        ((s20_tail(p1, p2) >> 16u32) & 0xffu32) as u8,
        ((s20_tail(p1, p2) >> 8u32) & 0xffu32) as u8,
        (s20_tail(p1, p2) & 0xffu32) as u8,
    ]
}

/// Levels below 32 in every channel.
pub open spec fn levels5(p: Levels) -> bool {
    p.a < 32 && p.r < 32 && p.g < 32 && p.b < 32
}

/// A packed pair unpacks to the two pixels' levels.
pub proof fn lemma_s20_pair_roundtrip(p1: Levels, p2: Levels)
    requires
        levels5(p1),
        levels5(p2),
    ensures
        s20_first(s20_pair_bytes(p1, p2)[0], s20_pair_bytes(p1, p2)[1], s20_pair_bytes(p1, p2)[2]) == p1,
        s20_second(s20_pair_bytes(p1, p2)[2], s20_pair_bytes(p1, p2)[3], s20_pair_bytes(p1, p2)[4]) == p2,
{
    let (r1, g1, b1, a1) = (p1.r, p1.g, p1.b, p1.a);
    let (r2, g2, b2, a2) = (p2.r, p2.g, p2.b, p2.a);
    let h = s20_head(p1);
    let t = s20_tail(p1, p2);
    let d0 = ((h >> 16u32) & 0xffu32) as u8;
    let d1 = ((h >> 8u32) & 0xffu32) as u8;
    let d2 = ((t >> 16u32) & 0xffu32) as u8;
    let d3 = ((t >> 8u32) & 0xffu32) as u8;
    let d4 = (t & 0xffu32) as u8;
    assert(((d0 >> 3u8) & 31u8) as u8 == r1
        && ((((d0 as u16) << 8u16 | (d1 as u16)) >> 6u16) & 31u16) as u8 == g1
        && ((((d0 as u16) << 8u16 | (d1 as u16)) >> 1u16) & 31u16) as u8 == b1
        && ((((d1 as u16) << 8u16 | (d2 as u16)) >> 4u16) & 31u16) as u8 == a1) by (bit_vector)
        requires
            r1 < 32 && g1 < 32 && b1 < 32 && a1 < 32,
            h == (((r1 as u32) & 31u32) << 19u32) | (((g1 as u32) & 31u32) << 14u32) | (((b1 as u32) & 31u32)
                << 9u32) | (((a1 as u32) & 31u32) << 4u32),
            t == ((h & 0xf0u32) << 16u32) | (((r2 as u32) & 31u32) << 15u32) | (((g2 as u32) & 31u32) << 10u32)
                | (((b2 as u32) & 31u32) << 5u32) | ((a2 as u32) & 31u32),
            d0 == ((h >> 16u32) & 0xffu32) as u8,
            d1 == ((h >> 8u32) & 0xffu32) as u8,
            d2 == ((t >> 16u32) & 0xffu32) as u8,
    ;
    assert(((((d2 as u16) << 8u16 | (d3 as u16)) >> 7u16) & 31u16) as u8 == r2
        && ((((d2 as u16) << 8u16 | (d3 as u16)) >> 2u16) & 31u16) as u8 == g2
        && ((((d3 as u16) << 8u16 | (d4 as u16)) >> 5u16) & 31u16) as u8 == b2
        && (((d3 as u16) << 8u16 | (d4 as u16)) & 31u16) as u8 == a2) by (bit_vector)
        requires
            r2 < 32 && g2 < 32 && b2 < 32 && a2 < 32,
            t == ((h & 0xf0u32) << 16u32) | (((r2 as u32) & 31u32) << 15u32) | (((g2 as u32) & 31u32) << 10u32)
                | (((b2 as u32) & 31u32) << 5u32) | ((a2 as u32) & 31u32),
            d2 == ((t >> 16u32) & 0xffu32) as u8,
            d3 == ((t >> 8u32) & 0xffu32) as u8,
            d4 == (t & 0xffu32) as u8,
    ;
}


/// The first 20-bit pixel of a 5-byte pair: 6 bits each of red, green and
/// blue, and a 2-bit alpha level.
pub open spec fn rgb20_first(d0: u8, d1: u8, d2: u8) -> Levels {
    Levels {
        r: ((d0 >> 2u8) & 63u8) as u8,
        g: ((word(d0, d1) >> 4u16) & 63u16) as u8,
        b: ((word(d1, d2) >> 6u16) & 63u16) as u8,
        a: ((word(d1, d2) >> 4u16) & 3u16) as u8,
    }
}

/// The second 20-bit pixel of a 5-byte pair.
pub open spec fn rgb20_second(d2: u8, d3: u8, d4: u8) -> Levels {
    Levels {
        r: ((word(d2, d3) >> 6u16) & 63u16) as u8,
        g: (word(d2, d3) & 63u16) as u8,
        b: ((d4 >> 2u8) & 63u8) as u8,
        a: (d4 & 3u8) as u8,
    }
}

/// The `i`-th pixel of packed pairs: even ones are the first of their
/// pair, odd ones the second.
pub open spec fn pair_level(d: Seq<u8>, i: int, s20: bool) -> Levels {
    let p = 5 * (i / 2);
    if s20 {
        if i % 2 == 0 { s20_first(d[p], d[p + 1], d[p + 2]) } else { s20_second(d[p + 2], d[p + 3], d[p + 4]) }
    } else {
        if i % 2 == 0 { rgb20_first(d[p], d[p + 1], d[p + 2]) } else { rgb20_second(d[p + 2], d[p + 3], d[p + 4]) }
    }
}

/// How many pairs are read from `n` bytes for `total` pixels: as many as
/// the pixels need (signed 20-bit reads at least one), while 5 bytes are left.
pub open spec fn pairs_read(n: int, total: int, s20: bool) -> int {
    let want = if s20 && total / 2 < 1 { 1 } else { total / 2 };
    if n / 5 < want { n / 5 } else { want }
}

/// The levels decoded from inflated pair data for `total` pixels: the
/// pixels of the pairs read, then zero levels up to `total`.
pub open spec fn pair_levels(d: Seq<u8>, total: int, s20: bool) -> Seq<Levels> {
    let m = 2 * pairs_read(d.len() as int, total, s20);
    Seq::new((if m < total { total } else { m }) as nat, |i: int| if i < m { pair_level(d, i, s20) } else { zero_levels() })
}

/// Reads the levels of the pairs in `data` (see `pair_levels`).
fn unpack_pairs(data: &[u8], width: u16, height: u16, s20: bool) -> (v: Vec<Levels>)
    ensures
        v@ == pair_levels(data@, width as int * height as int, s20),
{
    assert((width as usize) * (height as usize) <= 0xfffe0001) by (nonlinear_arith)
        requires
            width <= 0xffff,
            height <= 0xffff;
    let total: usize = (width as usize) * (height as usize);
    let want: usize = if s20 && total / 2 < 1 { 1 } else { total / 2 };
    let ghost m = 2 * pairs_read(data@.len() as int, total as int, s20);
    let mut v: Vec<Levels> = Vec::new();
    let mut k: usize = 0;
    let mut pos: usize = 0;
    let len = data.len();
    while k < want && len - pos >= 5
        invariant
            len == data@.len(),
            total == width as int * height as int,
            want == (if s20 && total / 2 < 1 { 1 } else { total / 2 }),
            m == 2 * pairs_read(data@.len() as int, total as int, s20),
            k <= want,
            pos == 5 * k,
            pos <= len,
            v@.len() == 2 * k,
            forall|i: int| 0 <= i < v@.len() ==> #[trigger] v@[i] == pair_level(data@, i, s20),
        decreases want - k,
    {
        let d0 = data[pos];
        let d1 = data[pos + 1];
        let d2 = data[pos + 2];
        let d3 = data[pos + 3];
        let d4 = data[pos + 4];
        let w01: u16 = ((d0 as u16) << 8u16) | (d1 as u16);
        let w12: u16 = ((d1 as u16) << 8u16) | (d2 as u16);
        let w23: u16 = ((d2 as u16) << 8u16) | (d3 as u16);
        let w34: u16 = ((d3 as u16) << 8u16) | (d4 as u16);
        let (first, second) = if s20 {
            (
                Levels {
                    r: (d0 >> 3u8) & 31u8,
                    g: ((w01 >> 6u16) & 31u16) as u8,
                    b: ((w01 >> 1u16) & 31u16) as u8,
                    a: ((w12 >> 4u16) & 31u16) as u8,
                },
                Levels {
                    r: ((w23 >> 7u16) & 31u16) as u8,
                    g: ((w23 >> 2u16) & 31u16) as u8,
                    b: ((w34 >> 5u16) & 31u16) as u8,
                    a: (w34 & 31u16) as u8,
                },
            )
        } else {
            (
                Levels {
                    r: (d0 >> 2u8) & 63u8,
                    g: ((w01 >> 4u16) & 63u16) as u8,
                    b: ((w12 >> 6u16) & 63u16) as u8,
                    a: ((w12 >> 4u16) & 3u16) as u8,
                },
                Levels {
                    r: ((w23 >> 6u16) & 63u16) as u8,
                    g: (w23 & 63u16) as u8,
                    b: (d4 >> 2u8) & 63u8,
                    a: d4 & 3u8,
                },
            )
        };
        proof {
            let i = 2 * k as int;
            assert(i / 2 == k && i % 2 == 0);
            assert((i + 1) / 2 == k && (i + 1) % 2 == 1);
        }
        v.push(first);
        v.push(second);
        k = k + 1;
        pos = pos + 5;
    }
    proof {
        assert(2 * k == m);
    }
    while v.len() < total
        invariant
            0 <= m <= v@.len(),
            forall|i: int| 0 <= i < m ==> #[trigger] v@[i] == pair_level(data@, i, s20),
            forall|i: int| m <= i < v@.len() ==> #[trigger] v@[i] == zero_levels(),
            v@.len() <= (if m < total { total as int } else { m }),
        decreases total - v@.len(),
    {
        v.push(Levels { a: 0, r: 0, g: 0, b: 0 });
    }
    assert(v@ =~= pair_levels(data@, total as int, s20));
    v
}

/// What 20-bit (`s20` false) or signed 20-bit (`s20` true) image data
/// decodes to as levels, or `None` where it does not inflate.
pub open spec fn decoded_pair_levels(compressed: Seq<u8>, total: int, s20: bool) -> Option<Seq<Levels>> {
    match zlib_inflated(compressed) {
        Some(d) => Some(pair_levels(d, total, s20)),
        None => None,
    }
}

/// Decodes 20-bit image data to levels: inflated, then pairs of pixels in
/// 5 bytes (6 bits each of red, green and blue and a 2-bit alpha level
/// per pixel), then zero levels up to the pixel count. Data that does not
/// inflate is `InvalidData`.
pub fn levels_20bit(compressed: &[u8], width: u16, height: u16) -> (r: Result<Vec<Levels>, WireError>)
    ensures
        match decoded_pair_levels(compressed@, width as int * height as int, false) {
            Some(ls) => r matches Ok(v) && v@ == ls,
            None => r matches Err(e) && e.kind == ErrorKind::InvalidData,
        },
{
    match zlib_inflate(compressed) {
        Some(data) => Ok(unpack_pairs(data.as_slice(), width, height, false)),
        None => Err(WireError::new(ErrorKind::InvalidData)),
    }
}

/// Decodes signed 20-bit image data to levels: inflated, then pairs of
/// pixels in 5 bytes (5 bits each of red, green, blue and alpha per
/// pixel; at least one pair is read), then zero levels up to the pixel
/// count. Data that does not inflate is `InvalidData`.
pub fn levels_s20bit(compressed: &[u8], width: u16, height: u16) -> (r: Result<Vec<Levels>, WireError>)
    ensures
        match decoded_pair_levels(compressed@, width as int * height as int, true) {
            Some(ls) => r matches Ok(v) && v@ == ls,
            None => r matches Err(e) && e.kind == ErrorKind::InvalidData,
        },
{
    match zlib_inflate(compressed) {
        Some(data) => Ok(unpack_pairs(data.as_slice(), width, height, true)),
        None => Err(WireError::new(ErrorKind::InvalidData)),
    }
}

/// The 8-bit alpha of a 2-bit alpha level: the level times 85.
pub fn alpha_of_level(level: u8) -> (a: u8)
    ensures
        a == (level & 3u8) * 85,
{
    assert(level & 3u8 <= 3u8) by (bit_vector);
    (level & 3u8) * 85
}


/// The levels of pixel `i`, or zero levels past the end.
pub open spec fn level_or_zero(ls: Seq<Levels>, i: int) -> Levels {
    if 0 <= i < ls.len() { ls[i] } else { zero_levels() }
}

/// The first pixel of pair `j` when each row of `w` pixels is packed in
/// pairs from its start (a row of odd width takes its last pair's second
/// pixel from the next row).
pub open spec fn pair_start(j: int, w: int) -> int {
    let cw = (w + 1) / 2;
    (j / cw) * w + 2 * (j % cw)
}

/// The signed 20-bit bytes of `ls` as `h` rows of `w` pixels: each row in
/// pairs from its start, five bytes a pair, missing pixels as zero levels.
pub open spec fn s20_packed(ls: Seq<Levels>, w: int, h: int) -> Seq<u8> {
    Seq::new((5 * (h * ((w + 1) / 2))) as nat, |i: int| {
        let q = pair_start(i / 5, w);
        s20_pair_bytes(level_or_zero(ls, q), level_or_zero(ls, q + 1))[i % 5]
    })
}

/// The first 20 bits of a pair, computed.
fn s20_head_of(p: Levels) -> (v: u32)
    ensures
        v == s20_head(p),
{
    (((p.r as u32) & 31u32) << 19u32) | (((p.g as u32) & 31u32) << 14u32) | (((p.b as u32) & 31u32) << 9u32)
        | (((p.a as u32) & 31u32) << 4u32)
}

/// Packs levels as signed 20-bit pairs (see `s20_packed`); each level is
/// taken mod 32.
pub fn pack_s20bit(levels: &[Levels], width: u16, height: u16) -> (v: Vec<u8>)
    ensures
        v@ == s20_packed(levels@, width as int, height as int),
{
    let w: usize = width as usize;
    let cw: usize = (w + 1) / 2;
    let ghost spec = s20_packed(levels@, width as int, height as int);
    let mut out: Vec<u8> = Vec::new();
    let mut y: usize = 0;
    while y < height as usize
        invariant
            w == width as int,
            cw == (w + 1) / 2,
            spec == s20_packed(levels@, width as int, height as int),
            y <= height,
            out@.len() == 5 * (y * cw),
            forall|i: int| 0 <= i < out@.len() ==> #[trigger] out@[i] == spec[i],
        decreases height - y,
    {
        let mut x: usize = 0;
        while x < w
            invariant
                w == width as int,
                cw == (w + 1) / 2,
                spec == s20_packed(levels@, width as int, height as int),
                y < height,
                x % 2 == 0,
                x <= w + 1,
                out@.len() == 5 * (y * cw + x / 2),
                forall|i: int| 0 <= i < out@.len() ==> #[trigger] out@[i] == spec[i],
            decreases w + 1 - x,
        {
            assert(y * w + x + 1 <= 0xffff_ffff) by (nonlinear_arith)
                requires
                    y < height <= 0xffff,
                    x < w <= 0xffff;
            let idx1: usize = y * w + x;
            let p1 = if idx1 < levels.len() { levels[idx1] } else { Levels { a: 0, r: 0, g: 0, b: 0 } };
            let p2 = if idx1 + 1 < levels.len() { levels[idx1 + 1] } else { Levels { a: 0, r: 0, g: 0, b: 0 } };
            let head = s20_head_of(p1);
            let tail: u32 = ((head & 0xf0u32) << 16u32) | (((p2.r as u32) & 31u32) << 15u32) | (((p2.g as u32)
                & 31u32) << 10u32) | (((p2.b as u32) & 31u32) << 5u32) | ((p2.a as u32) & 31u32);
            let ghost j: int = y * cw + x / 2;
            let ghost start = out@.len() as int;
            proof {
                assert(x / 2 < cw);
                vstd::arithmetic::div_mod::lemma_fundamental_div_mod_converse(j, cw as int, y as int, (x / 2) as int);
                assert(j * 5 == (y * cw + x / 2) * 5) by (nonlinear_arith)
                    requires
                        j == y * cw + x / 2;
                assert(y * cw * 5 == 5 * (y * cw)) by (nonlinear_arith);
                assert(pair_start(j, width as int) == idx1);
                assert(level_or_zero(levels@, idx1 as int) == p1);
                assert(level_or_zero(levels@, idx1 + 1) == p2);
                assert(tail == s20_tail(p1, p2));
                assert(start == 5 * j);
                assert(j + 1 <= height * cw) by (nonlinear_arith)
                    requires
                        j == y * cw + x / 2,
                        x / 2 < cw,
                        y < height;
                assert(spec.len() == 5 * (height * cw));
            }
            let ghost old_out = out@;
            out.push(((head >> 16u32) & 0xffu32) as u8);
            out.push(((head >> 8u32) & 0xffu32) as u8);
            out.push(((tail >> 16u32) & 0xffu32) as u8);
            out.push(((tail >> 8u32) & 0xffu32) as u8);
            out.push((tail & 0xffu32) as u8);
            proof {
                assert(out@ =~= old_out + s20_pair_bytes(p1, p2));
                assert forall|i: int| 0 <= i < out@.len() implies #[trigger] out@[i] == spec[i] by {
                    if i >= start {
                        vstd::arithmetic::div_mod::lemma_fundamental_div_mod_converse(i, 5, j, i - start);
                        assert(spec[i] == s20_pair_bytes(p1, p2)[i - start]);
                    } else {
                        assert(out@[i] == old_out[i]);
                    }
                }
            }
            x = x + 2;
        }
        proof {
            assert(x / 2 == cw);
            assert(5 * (y * cw + cw) == 5 * ((y + 1) * cw)) by (nonlinear_arith);
        }
        y = y + 1;
    }
    assert(out@ =~= s20_packed(levels@, width as int, height as int));
    out
}


/// Compresses bytes into a zlib stream.
///
/// Writes the bytes to flate2's `ZlibEncoder` at the default level over a
/// `Vec` and finishes it. The contract claims only that a stream it
/// returns inflates back to the bytes (compression is lossless); which
/// stream it is, is not stated. `None` stands for an error that the
/// encoder reports.
#[verifier::external_body]
fn zlib_deflate(data: &[u8]) -> (r: Option<Vec<u8>>)
    ensures
        r matches Some(v) ==> zlib_inflated(v@) == Some(data@),
{
    let mut encoder = flate2::write::ZlibEncoder::new(Vec::new(), flate2::Compression::default());
    match std::io::Write::write_all(&mut encoder, data) {
        Ok(()) => {},
        Err(_) => return None,
    }
    match encoder.finish() {
        Ok(v) => Some(v),
        Err(_) => None,
    }
}

/// Why pixels cannot be encoded as a prop.
#[derive(Debug, Clone, Copy, PartialEq, Eq)]
pub enum EncodeRefusal {
    /// The number of pixels is not `width * height`.
    PixelCount { expected: usize, got: usize },
    /// The flags select a format other than signed 20-bit, which is the
    /// only one encoded.
    Unsupported(PropFormat),
}

/// Checks pixels before encoding: exactly `width * height` of them, and
/// flags that select the signed 20-bit format.
pub fn check_encode(pixel_count: usize, width: u16, height: u16, flags: PropFlags) -> (r: Result<(), EncodeRefusal>)
    ensures
        pixel_count != width as int * height as int ==> r == Err::<(), EncodeRefusal>(
            EncodeRefusal::PixelCount { expected: (width as int * height as int) as usize, got: pixel_count }),
        pixel_count == width as int * height as int && spec_prop_format(flags@) != PropFormat::S20Bit
            ==> r == Err::<(), EncodeRefusal>(EncodeRefusal::Unsupported(spec_prop_format(flags@))),
        pixel_count == width as int * height as int && spec_prop_format(flags@) == PropFormat::S20Bit ==> r is Ok,
{
    let w: u64 = width as u64;
    let h: u64 = height as u64;
    assert(w * h <= 0xffff * 0xffff) by (nonlinear_arith)
        requires
            w <= 0xffff,
            h <= 0xffff;
    let expected: u64 = w * h;
    if (pixel_count as u64) != expected {
        return Err(EncodeRefusal::PixelCount { expected: expected as usize, got: pixel_count });
    }
    let format = flags.format();
    match format {
        PropFormat::S20Bit => Ok(()),
        _ => Err(EncodeRefusal::Unsupported(format)),
    }
}

/// Encodes levels as signed 20-bit image data: packed (see `s20_packed`),
/// then compressed. `None` where the compressor fails.
pub fn encode_s20bit_levels(levels: &[Levels], width: u16, height: u16) -> (r: Option<Vec<u8>>)
    ensures
        r matches Some(v) ==> zlib_inflated(v@) == Some(s20_packed(levels@, width as int, height as int)),
{
    let packed = pack_s20bit(levels, width, height);
    zlib_deflate(packed.as_slice())
}

/// Signed 20-bit levels of an even-width image read back from their packed
/// bytes.
pub proof fn lemma_s20_roundtrip(ls: Seq<Levels>, w: int, h: int)
    requires
        0 <= w,
        0 <= h,
        w % 2 == 0,
        ls.len() == w * h,
        forall|i: int| 0 <= i < ls.len() ==> levels5(#[trigger] ls[i]),
    ensures
        pair_levels(s20_packed(ls, w, h), w * h, true) == ls,
{
    let cw = (w + 1) / 2;
    assert(cw * 2 == w);
    let np = h * cw;
    assert(w * h == 2 * np) by (nonlinear_arith)
        requires
            np == h * cw,
            cw * 2 == w;
    assert(np >= 0) by (nonlinear_arith)
        requires
            np == h * cw,
            h >= 0,
            cw >= 0;
    let d = s20_packed(ls, w, h);
    assert(d.len() == 5 * np);
    assert(d.len() / 5 == np);
    let out = pair_levels(d, w * h, true);
    assert forall|i: int| 0 <= i < ls.len() implies #[trigger] out[i] == ls[i] by {
        let k = i / 2;
        vstd::arithmetic::div_mod::lemma_fundamental_div_mod(i, 2);
        assert(0 <= k < np);
        vstd::arithmetic::div_mod::lemma_fundamental_div_mod(k, cw);
        assert(pair_start(k, w) == 2 * k) by (nonlinear_arith)
            requires
                k == cw * (k / cw) + k % cw,
                pair_start(k, w) == (k / cw) * w + 2 * (k % cw),
                w == 2 * cw;
        let p1 = ls[2 * k];
        let p2 = ls[2 * k + 1];
        assert forall|t: int| 0 <= t < 5 implies #[trigger] d[5 * k + t] == s20_pair_bytes(p1, p2)[t] by {
            vstd::arithmetic::div_mod::lemma_fundamental_div_mod_converse(5 * k + t, 5, k, t);
        }
        assert(d[5 * k] == s20_pair_bytes(p1, p2)[0]);
        assert(d[5 * k + 1] == s20_pair_bytes(p1, p2)[1]);
        assert(d[5 * k + 2] == s20_pair_bytes(p1, p2)[2]);
        assert(d[5 * k + 3] == s20_pair_bytes(p1, p2)[3]);
        assert(d[5 * k + 4] == s20_pair_bytes(p1, p2)[4]);
        lemma_s20_pair_roundtrip(p1, p2);
    }
    assert(out =~= ls);
}

/// Decoding what the signed 20-bit encoder produced gives back the levels,
/// for an image of even width whose levels are below 32.
pub proof fn lemma_s20_encode_decode(ls: Seq<Levels>, width: u16, height: u16, encoded: Seq<u8>)
    requires
        width % 2 == 0,
        ls.len() == width * height,
        forall|i: int| 0 <= i < ls.len() ==> levels5(#[trigger] ls[i]),
        zlib_inflated(encoded) == Some(s20_packed(ls, width as int, height as int)),
    ensures
        decoded_pair_levels(encoded, width as int * height as int, true) == Some(ls),
{
    lemma_s20_roundtrip(ls, width as int, height as int);
}

/// The number of 4-byte pixels that 32-bit decoding takes from `n` bytes
/// for a prop of `total` pixels: the whole chunks, up to `total` (at
/// least one chunk is read when there is one).
pub open spec fn rgb32_taken(n: int, total: int) -> int {
    let chunks = n / 4;
    let cap = if total > 0 { total } else { 1 };
    if chunks < cap { chunks } else { cap }
}

/// The colour of the 4-byte pixel `i`: red, green, blue, alpha.
pub open spec fn rgb32_pixel(data: Seq<u8>, i: int) -> Color {
    Color { a: data[4 * i + 3], r: data[4 * i], g: data[4 * i + 1], b: data[4 * i + 2] }
}

/// The pixels of inflated 32-bit data for a prop of `total` pixels: the
/// pixels taken from the data, then transparent ones up to `total`.
pub open spec fn rgb32_pixels(data: Seq<u8>, total: int) -> Seq<Color> {
    let k = rgb32_taken(data.len() as int, total);
    let n = if k > total { k } else { total };
    Seq::new(n as nat, |i: int| if i < k { rgb32_pixel(data, i) } else { transparent_color() })
}

/// The pixels of inflated 32-bit data (see `rgb32_pixels`).
pub fn pixels_from_rgb32(data: &[u8], width: u16, height: u16) -> (p: Vec<Color>)
    ensures
        p@ == rgb32_pixels(data@, width as int * height as int),
{
    assert((width as usize) * (height as usize) <= 0xfffe0001) by (nonlinear_arith)
        requires
            width <= 0xffff,
            height <= 0xffff;
    let total: usize = (width as usize) * (height as usize);
    let ghost k = rgb32_taken(data@.len() as int, total as int);
    let mut pixels: Vec<Color> = Vec::new();
    let mut pos: usize = 0;
    let mut done = false;
    while !done && data.len() - pos >= 4
        invariant
            pos == 4 * pixels@.len(),
            pos <= data@.len(),
            total == width as int * height as int,
            k == rgb32_taken(data@.len() as int, total as int),
            done ==> pixels@.len() == k,
            !done ==> pixels@.len() < if total > 0 { total as int } else { 1 },
            pixels@.len() <= k,
            forall|i: int| 0 <= i < pixels@.len() ==> #[trigger] pixels@[i] == rgb32_pixel(data@, i),
        decreases data@.len() - pos + (if done { 0int } else { 1int }),
    {
        pixels.push(Color { a: data[pos + 3], r: data[pos], g: data[pos + 1], b: data[pos + 2] });
        pos = pos + 4;
        if pixels.len() >= total {
            done = true;
        }
    }
    let ghost taken = pixels@.len();
    assert(taken == k);
    while pixels.len() < total
        invariant
            total == width as int * height as int,
            taken == k,
            taken <= pixels@.len(),
            forall|i: int| 0 <= i < taken ==> #[trigger] pixels@[i] == rgb32_pixel(data@, i),
            forall|i: int| taken <= i < pixels@.len() ==> #[trigger] pixels@[i] == transparent_color(),
            pixels@.len() <= if k > total { k } else { total as int },
        decreases total - pixels@.len(),
    {
        pixels.push(Color::transparent());
    }
    assert(pixels@ =~= rgb32_pixels(data@, total as int));
    pixels
}

/// Decodes 32-bit image data: inflated, then 4-byte pixels (red, green,
/// blue, alpha) padded with transparent ones. Data that does not inflate
/// is `InvalidData`.
pub fn decode_32bit(compressed: &[u8], width: u16, height: u16) -> (r: Result<Vec<Color>, WireError>)
    ensures
        match zlib_inflated(compressed@) {
            Some(d) => r matches Ok(p) && p@ == rgb32_pixels(d, width as int * height as int),
            None => r matches Err(e) && e.kind == ErrorKind::InvalidData,
        },
{
    match zlib_inflate(compressed) {
        Some(data) => Ok(pixels_from_rgb32(data.as_slice(), width, height)),
        None => Err(WireError::new(ErrorKind::InvalidData)),
    }
}



/// The pixels after copying `n` palette pixels read from `data` at `d`
/// into `px` at `p`, and the position after the last one written: a
/// position past the image is not written and does not advance. `None`
/// where the data ends first.
pub open spec fn copy_run(data: Seq<u8>, d: int, p: int, n: int, px: Seq<Color>) -> Option<(Seq<Color>, int)>
    decreases n,
{
    if n <= 0 {
        Some((px, p))
    } else if d < 0 || d >= data.len() {
        None
    } else if 0 <= p < px.len() {
        copy_run(data, d + 1, p + 1, n - 1, px.update(p, palette_color(data[d])))
    } else {
        copy_run(data, d + 1, p, n - 1, px)
    }
}

/// The 8-bit decoder from a state: `rows` rows left, `x` pixels left in the
/// current row, the next data byte at `d`, the next pixel at `p`, `c` runs
/// read so far and the pixels `px`.
pub open spec fn decode_runs(
    data: Seq<u8>,
    width: int,
    rows: int,
    x: int,
    d: int,
    p: int,
    c: int,
    px: Seq<Color>,
) -> Result<Seq<Color>, ErrorKind>
    decreases rows, 6001 - c,
{
    if rows <= 0 {
        Ok(px)
    } else if x <= 0 {
        decode_runs(data, width, rows - 1, width, d, p, c, px)
    } else if d < 0 || d >= data.len() {
        Err(ErrorKind::UnexpectedEof)
    } else {
        let skip = (data[d] >> 4u8) as int;
        let n = (data[d] & 0x0fu8) as int;
        if skip + n > x {
            Err(ErrorKind::InvalidData)
        } else if c + 1 > 6000 {
            Err(ErrorKind::InvalidData)
        } else {
            match copy_run(data, d + 1, p + skip, n, px) {
                None => Err(ErrorKind::UnexpectedEof),
                Some(q) => decode_runs(data, width, rows, x - skip - n, d + 1 + n, q.1, c + 1, q.0),
            }
        }
    }
}

/// What 8-bit image data of the given size decodes to.
pub open spec fn decoded_8bit(data: Seq<u8>, width: int, height: int) -> Result<Seq<Color>, ErrorKind> {
    decode_runs(data, width, height, width, 0, width, 0, Seq::new((width * height) as nat, |i: int| transparent_color()))
}

/// Whether a decoded pixel comes from the data: transparent, or the gray of
/// some data byte.
pub open spec fn painted(c: Color, data: Seq<u8>) -> bool {
    c == transparent_color() || exists|j: int| 0 <= j < data.len() && c == palette_color(#[trigger] data[j])
}

/// Decodes 8-bit image data: for each row, runs whose control byte holds
/// in its high nibble the transparent pixels to skip and in its low nibble
/// the palette pixels that follow. Decoding starts one row in (a quirk of
/// the format), so the first row stays transparent.
///
/// A run longer than what is left of its row, or more than 6000 runs, is
/// `InvalidData`; data that ends early is `UnexpectedEof`.
pub fn decode_8bit(data: &[u8], width: u16, height: u16) -> (r: Result<Vec<Color>, WireError>)
    ensures
        match decoded_8bit(data@, width as int, height as int) {
            Ok(px) => r matches Ok(p) && p@ == px,
            Err(k) => r matches Err(e) && e.kind == k,
        },
        r matches Ok(p) ==> p@.len() == width as int * height as int
            && (forall|i: int| 0 <= i < p@.len() ==> painted(#[trigger] p@[i], data@))
            && (forall|i: int| 0 <= i < width && i < p@.len() ==> #[trigger] p@[i] == transparent_color()),
{
    assert((width as usize) * (height as usize) <= 0xfffe0001) by (nonlinear_arith)
        requires
            width <= 0xffff,
            height <= 0xffff;
    let total: usize = (width as usize) * (height as usize);
    let mut pixels: Vec<Color> = Vec::new();
    while pixels.len() < total
        invariant
            pixels@.len() <= total,
            forall|i: int| 0 <= i < pixels@.len() ==> #[trigger] pixels@[i] == transparent_color(),
        decreases total - pixels@.len(),
    {
        pixels.push(Color::transparent());
    }
    assert(pixels@ =~= Seq::new((width as int * height as int) as nat, |i: int| transparent_color()));
    let ghost w = width as int;
    let ghost goal = decoded_8bit(data@, width as int, height as int);
    let mut data_idx: usize = 0;
    let mut pixel_idx: usize = width as usize;
    let mut counter: usize = 0;
    let mut y: u16 = 0;
    while y < height
        invariant
            w == width as int,
            goal == decoded_8bit(data@, width as int, height as int),
            total == width as int * height as int,
            pixels@.len() == total,
            y <= height,
            data_idx <= data@.len(),
            width <= pixel_idx <= width as int + 30 * counter,
            counter <= 6000,
            decode_runs(data@, w, height - y, w, data_idx as int, pixel_idx as int, counter as int, pixels@) == goal,
            forall|i: int| 0 <= i < pixels@.len() ==> painted(#[trigger] pixels@[i], data@),
            forall|i: int| 0 <= i < width && i < pixels@.len() ==> #[trigger] pixels@[i] == transparent_color(),
        decreases height - y,
    {
        let mut x: u16 = width;
        while x > 0
            invariant
                w == width as int,
            goal == decoded_8bit(data@, width as int, height as int),
                total == width as int * height as int,
                pixels@.len() == total,
                y < height,
                data_idx <= data@.len(),
                width <= pixel_idx <= width as int + 30 * counter,
                counter <= 6000,
                decode_runs(data@, w, height - y, x as int, data_idx as int, pixel_idx as int, counter as int, pixels@) == goal,
                forall|i: int| 0 <= i < pixels@.len() ==> painted(#[trigger] pixels@[i], data@),
                forall|i: int| 0 <= i < width && i < pixels@.len() ==> #[trigger] pixels@[i] == transparent_color(),
            decreases 6000 - counter,
        {
            if data_idx >= data.len() {
                assert(goal == Err::<Seq<Color>, ErrorKind>(ErrorKind::UnexpectedEof));
                return Err(WireError::new(ErrorKind::UnexpectedEof));
            }
            let cb = data[data_idx];
            let ghost d_run = data_idx as int;
            data_idx = data_idx + 1;
            assert(cb >> 4u8 <= 15u8 && cb & 0x0fu8 <= 15u8) by (bit_vector);
            let skip_count: u16 = (cb >> 4u8) as u16;
            let pixel_count: u16 = (cb & 0x0fu8) as u16;
            let total_count: u16 = skip_count + pixel_count;
            if total_count > x {
                assert(goal == Err::<Seq<Color>, ErrorKind>(ErrorKind::InvalidData));
                return Err(WireError::new(ErrorKind::InvalidData));
            }
            x = x - total_count;
            counter = counter + 1;
            if counter > 6000 {
                assert(goal == Err::<Seq<Color>, ErrorKind>(ErrorKind::InvalidData));
                return Err(WireError::new(ErrorKind::InvalidData));
            }
            pixel_idx = pixel_idx + skip_count as usize;
            let ghost d0 = data_idx as int;
            let ghost p0 = pixel_idx as int;
            let ghost px0 = pixels@;
            let mut k: u16 = 0;
            while k < pixel_count
                invariant
                    w == width as int,
            goal == decoded_8bit(data@, width as int, height as int),
                    total == width as int * height as int,
                    pixels@.len() == total,
                    y < height,
                    data_idx == d0 + k,
                    d0 == d_run + 1,
                    0 <= d_run < data@.len(),
                    data@[d_run] == cb,
                    skip_count == (cb >> 4u8) as int,
                    pixel_count == (cb & 0x0fu8) as int,
                    data_idx <= data@.len(),
                    width <= pixel_idx <= width as int + 30 * counter,
                    pixel_idx <= width as int + 30 * (counter - 1) + skip_count + k,
                    1 <= counter <= 6000,
                    k <= pixel_count <= 15,
                    skip_count <= 15,
                    decode_runs(data@, w, height - y, x + skip_count + pixel_count, d_run, p0 - skip_count,
                        counter - 1, px0) == goal,
                    copy_run(data@, data_idx as int, pixel_idx as int, pixel_count - k, pixels@)
                        == copy_run(data@, d0, p0, pixel_count as int, px0),
                    forall|i: int| 0 <= i < pixels@.len() ==> painted(#[trigger] pixels@[i], data@),
                    forall|i: int| 0 <= i < width && i < pixels@.len() ==> #[trigger] pixels@[i] == transparent_color(),
                decreases pixel_count - k,
            {
                if data_idx >= data.len() {
                    return Err(WireError::new(ErrorKind::UnexpectedEof));
                }
                let palette_idx = data[data_idx];
                let ghost j = data_idx as int;
                data_idx = data_idx + 1;
                if pixel_idx < total {
                    pixels.set(pixel_idx, palette_lookup(palette_idx));
                    assert(painted(pixels@[pixel_idx as int], data@)) by {
                        assert(pixels@[pixel_idx as int] == palette_color(data@[j]));
                    }
                    pixel_idx = pixel_idx + 1;
                }
                k = k + 1;
            }
        }
        y = y + 1;
    }
    Ok(pixels)
}
} // verus!
