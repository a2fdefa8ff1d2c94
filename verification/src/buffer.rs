//! Reading and writing the Palace Protocol's basic data types.
//!
//! All multi-byte integers are big-endian. Strings come in four shapes:
//! a Pascal string (one length byte, at most 255 bytes of text), a
//! C string (text followed by a zero byte), and the fixed Str31 and Str63
//! fields (a length byte, the text, and zero padding up to 32 or 64 bytes).
//! Text read from the wire is MacRoman; text written is the UTF-8 of the
//! given string, which agrees with MacRoman on ASCII.
//!
//! Every reader takes the whole input and a position, and returns the value
//! together with the position just after it.
use vstd::prelude::*;
use vstd::utf8::*;
use vstd::string::*;

verus! {

broadcast use vstd::seq_lib::group_seq_properties;

/// The kind of a wire error.
#[derive(Debug, Clone, Copy, PartialEq, Eq)]
pub enum ErrorKind {
    /// The input ended before the value did.
    UnexpectedEof,
    /// The input holds a value that the format does not allow.
    InvalidData,
    /// A value cannot be written in the requested format.
    InvalidInput,
}

/// An error while reading or writing protocol data.
#[derive(Debug, Clone, Copy, PartialEq, Eq)]
pub struct WireError {
    pub kind: ErrorKind,
}

impl WireError {
    /// An error of the given kind.
    pub fn new(kind: ErrorKind) -> (e: WireError)
        ensures
            e.kind == kind,
    {
        WireError { kind }
    }

    /// The kind of this error.
    pub fn kind(&self) -> (k: ErrorKind)
        ensures
            k == self.kind,
    {
        self.kind
    }
}

// ---------------------------------------------------------------------------
// Integers
// ---------------------------------------------------------------------------

/// The big-endian bytes of a 16-bit value.
pub open spec fn u16_be(v: u16) -> Seq<u8> {
    seq![(v >> 8u16) as u8, (v & 0xffu16) as u8]
}

/// The 16-bit value of two big-endian bytes.
pub open spec fn u16_of_be(b0: u8, b1: u8) -> u16 {
    ((b0 as u16) << 8u16) | (b1 as u16)
}

/// The big-endian bytes of a 32-bit value.
pub open spec fn u32_be(v: u32) -> Seq<u8> {
    seq![(v >> 24u32) as u8, ((v >> 16u32) & 0xffu32) as u8, ((v >> 8u32) & 0xffu32) as u8, (v & 0xffu32) as u8]
}

/// The 32-bit value of four big-endian bytes.
pub open spec fn u32_of_be(b0: u8, b1: u8, b2: u8, b3: u8) -> u32 {
    ((b0 as u32) << 24u32) | ((b1 as u32) << 16u32) | ((b2 as u32) << 8u32) | (b3 as u32)
}

/// The big-endian bytes of a signed 16-bit value (two's complement).
pub open spec fn i16_be(v: i16) -> Seq<u8> {
    u16_be(v as u16)
}

/// The big-endian bytes of a signed 32-bit value (two's complement).
pub open spec fn i32_be(v: i32) -> Seq<u8> {
    u32_be(v as u32)
}

/// The unsigned 16-bit value stored at `p`.
pub open spec fn u16_at(s: Seq<u8>, p: int) -> u16 {
    u16_of_be(s[p], s[p + 1])
}

/// The signed 16-bit value stored at `p`.
pub open spec fn i16_at(s: Seq<u8>, p: int) -> i16 {
    u16_at(s, p) as i16
}

/// The unsigned 32-bit value stored at `p`.
pub open spec fn u32_at(s: Seq<u8>, p: int) -> u32 {
    u32_of_be(s[p], s[p + 1], s[p + 2], s[p + 3])
}

/// The signed 32-bit value stored at `p`.
pub open spec fn i32_at(s: Seq<u8>, p: int) -> i32 {
    u32_at(s, p) as i32
}

/// Reading back the bytes of a 16-bit value gives the value.
pub proof fn lemma_u16_roundtrip(v: u16)
    ensures
        u16_of_be(u16_be(v)[0], u16_be(v)[1]) == v,
{
    let b0 = (v >> 8u16) as u8;
    let b1 = (v & 0xffu16) as u8;
    assert(((((v >> 8u16) as u8) as u16) << 8u16) | (((v & 0xffu16) as u8) as u16) == v)
        by (bit_vector);
}

/// Reading back the bytes of a 32-bit value gives the value.
pub proof fn lemma_u32_roundtrip(v: u32)
    ensures
        u32_of_be(u32_be(v)[0], u32_be(v)[1], u32_be(v)[2], u32_be(v)[3]) == v,
{
    assert(((((v >> 24u32) as u8) as u32) << 24u32) | (((((v >> 16u32) & 0xffu32) as u8) as u32)
        << 16u32) | (((((v >> 8u32) & 0xffu32) as u8) as u32) << 8u32) | (((v & 0xffu32) as u8)
        as u32) == v) by (bit_vector);
}

/// A signed 16-bit value survives the trip through its unsigned bytes.
pub proof fn lemma_i16_roundtrip(v: i16)
    ensures
        (u16_of_be(i16_be(v)[0], i16_be(v)[1]) as i16) == v,
{
    lemma_u16_roundtrip(v as u16);
    assert(((v as u16) as i16) == v) by (bit_vector);
}

/// A signed 32-bit value survives the trip through its unsigned bytes.
pub proof fn lemma_i32_roundtrip(v: i32)
    ensures
        (u32_of_be(i32_be(v)[0], i32_be(v)[1], i32_be(v)[2], i32_be(v)[3]) as i32) == v,
{
    lemma_u32_roundtrip(v as u32);
    assert(((v as u32) as i32) == v) by (bit_vector);
}

/// Reading a 16-bit value where its bytes were written gives it back.
pub proof fn lemma_u16_at(pre: Seq<u8>, v: u16, post: Seq<u8>)
    ensures
        u16_at(pre + u16_be(v) + post, pre.len() as int) == v,
        i16_at(pre + u16_be(v) + post, pre.len() as int) == v as i16,
{
    lemma_u16_roundtrip(v);
    let s = pre + u16_be(v) + post;
    assert(s[pre.len() as int] == u16_be(v)[0]);
    assert(s[pre.len() as int + 1] == u16_be(v)[1]);
}

/// Reading a signed 16-bit value where its bytes were written gives it back.
pub proof fn lemma_i16_at(pre: Seq<u8>, v: i16, post: Seq<u8>)
    ensures
        i16_at(pre + i16_be(v) + post, pre.len() as int) == v,
{
    lemma_u16_at(pre, v as u16, post);
    assert(((v as u16) as i16) == v) by (bit_vector);
}

/// Reading a 32-bit value where its bytes were written gives it back.
pub proof fn lemma_u32_at(pre: Seq<u8>, v: u32, post: Seq<u8>)
    ensures
        u32_at(pre + u32_be(v) + post, pre.len() as int) == v,
        i32_at(pre + u32_be(v) + post, pre.len() as int) == v as i32,
{
    lemma_u32_roundtrip(v);
    let s = pre + u32_be(v) + post;
    assert(s[pre.len() as int] == u32_be(v)[0]);
    assert(s[pre.len() as int + 1] == u32_be(v)[1]);
    assert(s[pre.len() as int + 2] == u32_be(v)[2]);
    assert(s[pre.len() as int + 3] == u32_be(v)[3]);
}

/// Reading a signed 32-bit value where its bytes were written gives it back.
pub proof fn lemma_i32_at(pre: Seq<u8>, v: i32, post: Seq<u8>)
    ensures
        i32_at(pre + i32_be(v) + post, pre.len() as int) == v,
{
    lemma_u32_at(pre, v as u32, post);
    assert(((v as u32) as i32) == v) by (bit_vector);
}

/// A 16-bit value is read back from where its bytes stand.
pub proof fn lemma_u16_in(s: Seq<u8>, p: int, v: u16)
    requires
        0 <= p,
        p + 2 <= s.len(),
        s.subrange(p, p + 2) == u16_be(v),
    ensures
        u16_at(s, p) == v,
{
    lemma_u16_roundtrip(v);
    assert(s[p] == s.subrange(p, p + 2)[0]);
    assert(s[p + 1] == s.subrange(p, p + 2)[1]);
}

/// A signed 16-bit value is read back from where its bytes stand.
pub proof fn lemma_i16_in(s: Seq<u8>, p: int, v: i16)
    requires
        0 <= p,
        p + 2 <= s.len(),
        s.subrange(p, p + 2) == i16_be(v),
    ensures
        i16_at(s, p) == v,
{
    lemma_u16_in(s, p, v as u16);
    assert(((v as u16) as i16) == v) by (bit_vector);
}

/// A 32-bit value is read back from where its bytes stand.
pub proof fn lemma_u32_in(s: Seq<u8>, p: int, v: u32)
    requires
        0 <= p,
        p + 4 <= s.len(),
        s.subrange(p, p + 4) == u32_be(v),
    ensures
        u32_at(s, p) == v,
{
    lemma_u32_roundtrip(v);
    assert(s[p] == s.subrange(p, p + 4)[0]);
    assert(s[p + 1] == s.subrange(p, p + 4)[1]);
    assert(s[p + 2] == s.subrange(p, p + 4)[2]);
    assert(s[p + 3] == s.subrange(p, p + 4)[3]);
}

/// A signed 32-bit value is read back from where its bytes stand.
pub proof fn lemma_i32_in(s: Seq<u8>, p: int, v: i32)
    requires
        0 <= p,
        p + 4 <= s.len(),
        s.subrange(p, p + 4) == i32_be(v),
    ensures
        i32_at(s, p) == v,
{
    lemma_u32_in(s, p, v as u32);
    assert(((v as u32) as i32) == v) by (bit_vector);
}

/// The byte at `pos`.
pub fn read_u8(data: &[u8], pos: usize) -> (v: u8)
    requires
        pos < data@.len(),
    ensures
        v == data@[pos as int],
{
    data[pos]
}

/// The big-endian unsigned 16-bit value at `pos`.
pub fn read_u16(data: &[u8], pos: usize) -> (v: u16)
    requires
        pos + 2 <= data@.len(),
    ensures
        v == u16_at(data@, pos as int),
{
    ((data[pos] as u16) << 8u16) | (data[pos + 1] as u16)
}

/// The big-endian signed 16-bit value at `pos`.
pub fn read_i16(data: &[u8], pos: usize) -> (v: i16)
    requires
        pos + 2 <= data@.len(),
    ensures
        v == i16_at(data@, pos as int),
{
    read_u16(data, pos) as i16
}

/// The big-endian unsigned 32-bit value at `pos`.
pub fn read_u32(data: &[u8], pos: usize) -> (v: u32)
    requires
        pos + 4 <= data@.len(),
    ensures
        v == u32_at(data@, pos as int),
{
    ((data[pos] as u32) << 24u32) | ((data[pos + 1] as u32) << 16u32) | ((data[pos + 2] as u32)
        << 8u32) | (data[pos + 3] as u32)
}

/// The big-endian signed 32-bit value at `pos`.
pub fn read_i32(data: &[u8], pos: usize) -> (v: i32)
    requires
        pos + 4 <= data@.len(),
    ensures
        v == i32_at(data@, pos as int),
{
    read_u32(data, pos) as i32
}

/// Appends one byte.
pub fn write_u8(buf: &mut Vec<u8>, v: u8)
    ensures
        final(buf)@ == old(buf)@.push(v),
{
    buf.push(v);
}

/// Appends the big-endian bytes of an unsigned 16-bit value.
pub fn write_u16(buf: &mut Vec<u8>, v: u16)
    ensures
        final(buf)@ == old(buf)@ + u16_be(v),
{
    buf.push((v >> 8u16) as u8);
    buf.push((v & 0xffu16) as u8);
}

/// Appends the big-endian bytes of a signed 16-bit value.
pub fn write_i16(buf: &mut Vec<u8>, v: i16)
    ensures
        final(buf)@ == old(buf)@ + i16_be(v),
{
    write_u16(buf, v as u16);
}

/// Appends the big-endian bytes of an unsigned 32-bit value.
pub fn write_u32(buf: &mut Vec<u8>, v: u32)
    ensures
        final(buf)@ == old(buf)@ + u32_be(v),
{
    buf.push((v >> 24u32) as u8);
    buf.push(((v >> 16u32) & 0xffu32) as u8);
    buf.push(((v >> 8u32) & 0xffu32) as u8);
    buf.push((v & 0xffu32) as u8);
}

/// Appends the big-endian bytes of a signed 32-bit value.
pub fn write_i32(buf: &mut Vec<u8>, v: i32)
    ensures
        final(buf)@ == old(buf)@ + i32_be(v),
{
    write_u32(buf, v as u32);
}

/// Appends a run of bytes.
pub fn write_bytes(buf: &mut Vec<u8>, bytes: &[u8])
    ensures
        final(buf)@ == old(buf)@ + bytes@,
{
    let ghost start = buf@;
    let mut i: usize = 0;
    while i < bytes.len()
        invariant
            i <= bytes@.len(),
            buf@ == start + bytes@.subrange(0, i as int),
        decreases bytes@.len() - i,
    {
        buf.push(bytes[i]);
        i = i + 1;
        assert(bytes@.subrange(0, i as int) == bytes@.subrange(0, i - 1) + seq![bytes@[i - 1]]);
    }
    assert(bytes@.subrange(0, bytes@.len() as int) == bytes@);
}

/// Appends `n` zero bytes.
pub fn write_zeros(buf: &mut Vec<u8>, n: usize)
    ensures
        final(buf)@ == old(buf)@ + Seq::new(n as nat, |i: int| 0u8),
{
    let ghost start = buf@;
    let mut i: usize = 0;
    while i < n
        invariant
            i <= n,
            buf@ == start + Seq::new(i as nat, |j: int| 0u8),
        decreases n - i,
    {
        buf.push(0u8);
        i = i + 1;
        assert(Seq::new(i as nat, |j: int| 0u8) == Seq::new((i - 1) as nat, |j: int| 0u8).push(
            0u8,
        ));
    }
}

/// A copy of the bytes in `[start, end)`.
pub fn copy_range(data: &[u8], start: usize, end: usize) -> (r: Vec<u8>)
    requires
        start <= end <= data@.len(),
    ensures
        r@ == data@.subrange(start as int, end as int),
{
    let mut r: Vec<u8> = Vec::new();
    let mut i = start;
    while i < end
        invariant
            start <= i <= end <= data@.len(),
            r@ == data@.subrange(start as int, i as int),
        decreases end - i,
    {
        r.push(data[i]);
        i = i + 1;
        assert(data@.subrange(start as int, i as int) == data@.subrange(start as int, i - 1).push(
            data@[i - 1],
        ));
    }
    r
}

// ---------------------------------------------------------------------------
// MacRoman text
// ---------------------------------------------------------------------------

/// The characters of MacRoman codes 128 to 255, in order.
pub const MACROMAN_HIGH: [char; 128] = [
    'Ä', 'Å', 'Ç', 'É', 'Ñ', 'Ö', 'Ü', 'á', 'à', 'â', 'ä', 'ã', 'å', 'ç', 'é', 'è',
    'ê', 'ë', 'í', 'ì', 'î', 'ï', 'ñ', 'ó', 'ò', 'ô', 'ö', 'õ', 'ú', 'ù', 'û', 'ü',
    '†', '°', '¢', '£', '§', '•', '¶', 'ß', '®', '©', '™', '´', '¨', '≠', 'Æ', 'Ø',
    '∞', '±', '≤', '≥', '¥', 'µ', '∂', '∑', '∏', 'π', '∫', 'ª', 'º', 'Ω', 'æ', 'ø',
    '¿', '¡', '¬', '√', 'ƒ', '≈', '∆', '«', '»', '…', '\u{00A0}', 'À', 'Ã', 'Õ', 'Œ', 'œ',
    '–', '—', '"', '"', '\'', '\'', '÷', '◊', 'ÿ', 'Ÿ', '⁄', '€', '‹', '›', 'ﬁ', 'ﬂ',
    '‡', '·', '‚', '„', '‰', 'Â', 'Ê', 'Á', 'Ë', 'È', 'Í', 'Î', 'Ï', 'Ì', 'Ó', 'Ô',
    '\u{F8FF}', 'Ò', 'Ú', 'Û', 'Ù', 'ı', 'ˆ', '˜', '¯', '˘', '˙', '˚', '¸', '˝', '˛', 'ˇ',
];

/// The character of a MacRoman code: ASCII below 128, the table above it.
pub open spec fn macroman_char(b: u8) -> char {
    if b < 128 {
        b as char
    } else {
        MACROMAN_HIGH@[b - 128]
    }
}

/// The characters of a run of MacRoman bytes.
pub open spec fn macroman_chars(bytes: Seq<u8>) -> Seq<char> {
    Seq::new(bytes.len(), |i: int| macroman_char(bytes[i]))
}

/// Converts a single MacRoman byte to a character.
pub fn macroman_to_char(byte: u8) -> (c: char)
    ensures
        c == macroman_char(byte),
{
    if byte < 128 {
        byte as char
    } else {
        MACROMAN_HIGH[(byte - 128) as usize]
    }
}

/// Converts the MacRoman bytes in `[start, end)` to a string.
pub fn macroman_to_string(data: &[u8], start: usize, end: usize) -> (s: String)
    requires
        start <= end <= data@.len(),
    ensures
        s@ == macroman_chars(data@.subrange(start as int, end as int)),
{
    let mut s = String::new();
    let mut i = start;
    while i < end
        invariant
            start <= i <= end <= data@.len(),
            s@ == macroman_chars(data@.subrange(start as int, i as int)),
        decreases end - i,
    {
        let c = macroman_to_char(data[i]);
        crate::text::push_char(&mut s, c);
        i = i + 1;
        assert(s@ =~= macroman_chars(data@.subrange(start as int, i as int)));
    }
    s
}

/// The UTF-8 bytes of a text, as written on the wire.
pub open spec fn text_bytes(t: Seq<char>) -> Seq<u8> {
    encode_utf8(t)
}

/// For ASCII text, reading back its written bytes gives the text.
pub proof fn lemma_ascii_text_roundtrip(t: Seq<char>)
    requires
        is_ascii_chars(t),
    ensures
        macroman_chars(text_bytes(t)) == t,
        text_bytes(t).len() == t.len(),
        forall|i: int| 0 <= i < t.len() ==> #[trigger] text_bytes(t)[i] == t[i] as u8,
{
    is_ascii_chars_encode_utf8(t);
    let b = text_bytes(t);
    assert forall|i: int| 0 <= i < t.len() implies #[trigger] macroman_chars(b)[i] == t[i] by {
        let c = t[i];
        assert('\0' <= c <= '\u{7f}');
        let x = c as u8;
        assert(b[i] == x);
        assert((x as char) == c);
    }
    assert(macroman_chars(b) =~= t);
}

/// The bytes of a string.
pub fn string_bytes(s: &String) -> (b: &[u8])
    ensures
        b@ == text_bytes(s@),
{
    s.as_str().as_bytes()
}

// ---------------------------------------------------------------------------
// Pascal strings
// ---------------------------------------------------------------------------

/// Reading a Pascal string at `p`: the text and the position after it.
pub open spec fn spec_get_pstring(s: Seq<u8>, p: int) -> Result<(Seq<char>, int), ErrorKind> {
    if p >= s.len() {
        Err(ErrorKind::UnexpectedEof)
    } else if s.len() - (p + 1) < s[p] {
        Err(ErrorKind::UnexpectedEof)
    } else {
        Ok((macroman_chars(s.subrange(p + 1, p + 1 + s[p])), p + 1 + s[p]))
    }
}

/// The bytes of a Pascal string.
pub open spec fn pstring_bytes(t: Seq<char>) -> Seq<u8> {
    seq![text_bytes(t).len() as u8] + text_bytes(t)
}

/// A text that fits a Pascal string.
pub open spec fn pstring_fits(t: Seq<char>) -> bool {
    text_bytes(t).len() <= 255
}

/// Reads a Pascal string: one length byte, then that many bytes of MacRoman text.
pub fn get_pstring(data: &[u8], pos: usize) -> (r: Result<(String, usize), WireError>)
    ensures
        match r {
            Ok((v, np)) => spec_get_pstring(data@, pos as int) == Ok::<(Seq<char>, int), ErrorKind>((v@, np as int)),
            Err(e) => spec_get_pstring(data@, pos as int) == Err::<(Seq<char>, int), ErrorKind>(e.kind),
        },
{
    if pos >= data.len() {
        return Err(WireError::new(ErrorKind::UnexpectedEof));
    }
    let len = data[pos] as usize;
    if data.len() - (pos + 1) < len {
        return Err(WireError::new(ErrorKind::UnexpectedEof));
    }
    let s = macroman_to_string(data, pos + 1, pos + 1 + len);
    Ok((s, pos + 1 + len))
}

/// Writes a Pascal string, or fails with `InvalidInput` if it is longer than 255 bytes.
pub fn try_put_pstring(buf: &mut Vec<u8>, s: &String) -> (r: Result<(), WireError>)
    ensures
        r is Ok <==> pstring_fits(s@),
        r is Ok ==> final(buf)@ == old(buf)@ + pstring_bytes(s@),
        r matches Err(e) ==> e.kind == ErrorKind::InvalidInput && final(buf)@ == old(buf)@,
{
    let bytes = string_bytes(s);
    if bytes.len() > 255 {
        return Err(WireError::new(ErrorKind::InvalidInput));
    }
    buf.push(bytes.len() as u8);
    write_bytes(buf, bytes);
    assert(final(buf)@ =~= old(buf)@ + pstring_bytes(s@));
    Ok(())
}

/// Writes a Pascal string that is known to fit.
pub fn put_pstring(buf: &mut Vec<u8>, s: &String)
    requires
        pstring_fits(s@),
    ensures
        final(buf)@ == old(buf)@ + pstring_bytes(s@),
{
    let r = try_put_pstring(buf, s);
}

/// A Pascal string of ASCII text reads back as the text.
pub proof fn lemma_pstring_roundtrip(pre: Seq<u8>, t: Seq<char>, post: Seq<u8>)
    requires
        is_ascii_chars(t),
        pstring_fits(t),
    ensures
        spec_get_pstring(pre + pstring_bytes(t) + post, pre.len() as int) == Ok::<(Seq<char>, int), ErrorKind>(
            (t, pre.len() as int + pstring_bytes(t).len()),
        ),
{
    lemma_ascii_text_roundtrip(t);
    let s = pre + pstring_bytes(t) + post;
    let p = pre.len() as int;
    let n = text_bytes(t).len();
    assert(s[p] == n as u8);
    assert(s.subrange(p + 1, p + 1 + n) =~= text_bytes(t));
}

// ---------------------------------------------------------------------------
// Fixed-size strings (Str31, Str63)
// ---------------------------------------------------------------------------

/// Reading a fixed string field of `max + 1` bytes at `p`.
pub open spec fn spec_get_fixed_str(s: Seq<u8>, p: int, max: int) -> Result<(Seq<char>, int), ErrorKind> {
    if p < 0 || s.len() - p < max + 1 {
        Err(ErrorKind::UnexpectedEof)
    } else if s[p] > max {
        Err(ErrorKind::InvalidData)
    } else {
        Ok((macroman_chars(s.subrange(p + 1, p + 1 + s[p])), p + max + 1))
    }
}

/// The bytes of a fixed string field of `max + 1` bytes.
pub open spec fn fixed_str_bytes(t: Seq<char>, max: int) -> Seq<u8> {
    seq![text_bytes(t).len() as u8] + text_bytes(t) + Seq::new(
        (max - text_bytes(t).len()) as nat,
        |i: int| 0u8,
    )
}

/// A text that fits a fixed string field of `max + 1` bytes.
pub open spec fn fixed_str_fits(t: Seq<char>, max: int) -> bool {
    text_bytes(t).len() <= max
}

/// Reads a fixed string field of `max + 1` bytes.
fn get_fixed_str(data: &[u8], pos: usize, max: usize) -> (r: Result<(String, usize), WireError>)
    requires
        max < 255,
    ensures
        match r {
            Ok((v, np)) => spec_get_fixed_str(data@, pos as int, max as int) == Ok::<(Seq<char>, int), ErrorKind>((v@, np as int)),
            Err(e) => spec_get_fixed_str(data@, pos as int, max as int) == Err::<(Seq<char>, int), ErrorKind>(e.kind),
        },
{
    if pos > data.len() || data.len() - pos < max + 1 {
        return Err(WireError::new(ErrorKind::UnexpectedEof));
    }
    let len = data[pos] as usize;
    if len > max {
        return Err(WireError::new(ErrorKind::InvalidData));
    }
    let s = macroman_to_string(data, pos + 1, pos + 1 + len);
    Ok((s, pos + max + 1))
}

/// Writes a fixed string field of `max + 1` bytes, or fails with `InvalidInput`.
fn try_put_fixed_str(buf: &mut Vec<u8>, s: &String, max: usize) -> (r: Result<(), WireError>)
    requires
        max < 255,
    ensures
        r is Ok <==> fixed_str_fits(s@, max as int),
        r is Ok ==> final(buf)@ == old(buf)@ + fixed_str_bytes(s@, max as int),
        r matches Err(e) ==> e.kind == ErrorKind::InvalidInput && final(buf)@ == old(buf)@,
{
    let bytes = string_bytes(s);
    if bytes.len() > max {
        return Err(WireError::new(ErrorKind::InvalidInput));
    }
    buf.push(bytes.len() as u8);
    write_bytes(buf, bytes);
    write_zeros(buf, max - bytes.len());
    assert(final(buf)@ =~= old(buf)@ + fixed_str_bytes(s@, max as int));
    Ok(())
}

/// A fixed string field of ASCII text reads back as the text.
pub proof fn lemma_fixed_str_roundtrip(pre: Seq<u8>, t: Seq<char>, max: int, post: Seq<u8>)
    requires
        is_ascii_chars(t),
        fixed_str_fits(t, max),
        max < 255,
    ensures
        spec_get_fixed_str(pre + fixed_str_bytes(t, max) + post, pre.len() as int, max)
            == Ok::<(Seq<char>, int), ErrorKind>((t, pre.len() as int + max + 1)),
        fixed_str_bytes(t, max).len() == max + 1,
{
    lemma_ascii_text_roundtrip(t);
    let s = pre + fixed_str_bytes(t, max) + post;
    let p = pre.len() as int;
    let n = text_bytes(t).len();
    assert(s[p] == n as u8);
    assert(s.subrange(p + 1, p + 1 + n) =~= text_bytes(t));
}

/// Reads a Str31: a length byte, up to 31 bytes of text, padding to 32 bytes.
pub fn get_str31(data: &[u8], pos: usize) -> (r: Result<(String, usize), WireError>)
    ensures
        match r {
            Ok((v, np)) => spec_get_fixed_str(data@, pos as int, 31) == Ok::<(Seq<char>, int), ErrorKind>((v@, np as int)),
            Err(e) => spec_get_fixed_str(data@, pos as int, 31) == Err::<(Seq<char>, int), ErrorKind>(e.kind),
        },
{
    get_fixed_str(data, pos, 31)
}

/// Reads a Str63: a length byte, up to 63 bytes of text, padding to 64 bytes.
pub fn get_str63(data: &[u8], pos: usize) -> (r: Result<(String, usize), WireError>)
    ensures
        match r {
            Ok((v, np)) => spec_get_fixed_str(data@, pos as int, 63) == Ok::<(Seq<char>, int), ErrorKind>((v@, np as int)),
            Err(e) => spec_get_fixed_str(data@, pos as int, 63) == Err::<(Seq<char>, int), ErrorKind>(e.kind),
        },
{
    get_fixed_str(data, pos, 63)
}

/// Writes a Str31, or fails with `InvalidInput` if the text is longer than 31 bytes.
pub fn try_put_str31(buf: &mut Vec<u8>, s: &String) -> (r: Result<(), WireError>)
    ensures
        r is Ok <==> fixed_str_fits(s@, 31),
        r is Ok ==> final(buf)@ == old(buf)@ + fixed_str_bytes(s@, 31),
        r matches Err(e) ==> e.kind == ErrorKind::InvalidInput && final(buf)@ == old(buf)@,
{
    try_put_fixed_str(buf, s, 31)
}

/// Writes a Str63, or fails with `InvalidInput` if the text is longer than 63 bytes.
pub fn try_put_str63(buf: &mut Vec<u8>, s: &String) -> (r: Result<(), WireError>)
    ensures
        r is Ok <==> fixed_str_fits(s@, 63),
        r is Ok ==> final(buf)@ == old(buf)@ + fixed_str_bytes(s@, 63),
        r matches Err(e) ==> e.kind == ErrorKind::InvalidInput && final(buf)@ == old(buf)@,
{
    try_put_fixed_str(buf, s, 63)
}

/// Writes a Str31 whose text is known to fit.
pub fn put_str31(buf: &mut Vec<u8>, s: &String)
    requires
        fixed_str_fits(s@, 31),
    ensures
        final(buf)@ == old(buf)@ + fixed_str_bytes(s@, 31),
{
    let r = try_put_str31(buf, s);
}

/// Writes a Str63 whose text is known to fit.
pub fn put_str63(buf: &mut Vec<u8>, s: &String)
    requires
        fixed_str_fits(s@, 63),
    ensures
        final(buf)@ == old(buf)@ + fixed_str_bytes(s@, 63),
{
    let r = try_put_str63(buf, s);
}

// ---------------------------------------------------------------------------
// C strings
// ---------------------------------------------------------------------------

/// The index of the first zero byte at or after `p`, or the length if there is none.
pub open spec fn first_zero(s: Seq<u8>, p: int) -> int
    decreases s.len() - p,
{
    if p >= s.len() {
        s.len() as int
    } else if s[p] == 0 {
        p
    } else {
        first_zero(s, p + 1)
    }
}

/// Reading a C string at `p`.
pub open spec fn spec_get_cstring(s: Seq<u8>, p: int) -> Result<(Seq<char>, int), ErrorKind> {
    let z = first_zero(s, p);
    if p < 0 || z >= s.len() {
        Err(ErrorKind::UnexpectedEof)
    } else {
        Ok((macroman_chars(s.subrange(p, z)), z + 1))
    }
}

/// The bytes of a C string.
pub open spec fn cstring_bytes(t: Seq<char>) -> Seq<u8> {
    text_bytes(t).push(0u8)
}

/// A text that a C string can carry: its bytes hold no zero.
pub open spec fn cstring_fits(t: Seq<char>) -> bool {
    !text_bytes(t).contains(0u8)
}

proof fn lemma_first_zero_bounds(s: Seq<u8>, p: int)
    requires
        0 <= p <= s.len(),
    ensures
        p <= first_zero(s, p) <= s.len(),
        forall|i: int| p <= i < first_zero(s, p) ==> s[i] != 0,
        first_zero(s, p) < s.len() ==> s[first_zero(s, p)] == 0,
    decreases s.len() - p,
{
    if p < s.len() && s[p] != 0 {
        lemma_first_zero_bounds(s, p + 1);
    }
}

proof fn lemma_first_zero_is(s: Seq<u8>, p: int, z: int)
    requires
        0 <= p <= z <= s.len(),
        forall|i: int| p <= i < z ==> s[i] != 0,
        z == s.len() || s[z] == 0,
    ensures
        first_zero(s, p) == z,
    decreases z - p,
{
    if p < z {
        lemma_first_zero_is(s, p + 1, z);
    }
}

/// Reads a C string: bytes up to a zero byte, which is consumed but not kept.
pub fn get_cstring(data: &[u8], pos: usize) -> (r: Result<(String, usize), WireError>)
    ensures
        match r {
            Ok((v, np)) => spec_get_cstring(data@, pos as int) == Ok::<(Seq<char>, int), ErrorKind>((v@, np as int)),
            Err(e) => spec_get_cstring(data@, pos as int) == Err::<(Seq<char>, int), ErrorKind>(e.kind),
        },
{
    if pos > data.len() {
        proof {
            assert(first_zero(data@, pos as int) == data@.len());
        }
        return Err(WireError::new(ErrorKind::UnexpectedEof));
    }
    let mut i = pos;
    while i < data.len() && data[i] != 0
        invariant
            pos <= i <= data@.len(),
            forall|j: int| pos <= j < i ==> data@[j] != 0,
        decreases data@.len() - i,
    {
        i = i + 1;
    }
    proof {
        lemma_first_zero_is(data@, pos as int, i as int);
    }
    if i >= data.len() {
        return Err(WireError::new(ErrorKind::UnexpectedEof));
    }
    let s = macroman_to_string(data, pos, i);
    Ok((s, i + 1))
}

/// Writes a C string, or fails with `InvalidInput` if the text holds a zero byte.
pub fn try_put_cstring(buf: &mut Vec<u8>, s: &String) -> (r: Result<(), WireError>)
    ensures
        r is Ok <==> cstring_fits(s@),
        r is Ok ==> final(buf)@ == old(buf)@ + cstring_bytes(s@),
        r matches Err(e) ==> e.kind == ErrorKind::InvalidInput && final(buf)@ == old(buf)@,
{
    let bytes = string_bytes(s);
    let mut i: usize = 0;
    while i < bytes.len()
        invariant
            i <= bytes@.len(),
            bytes@ == text_bytes(s@),
            forall|j: int| 0 <= j < i ==> bytes@[j] != 0,
        decreases bytes@.len() - i,
    {
        if bytes[i] == 0 {
            assert(text_bytes(s@)[i as int] == 0u8);
            return Err(WireError::new(ErrorKind::InvalidInput));
        }
        i = i + 1;
    }
    assert(!text_bytes(s@).contains(0u8));
    write_bytes(buf, bytes);
    buf.push(0u8);
    assert(final(buf)@ =~= old(buf)@ + cstring_bytes(s@));
    Ok(())
}

/// Writes a C string whose text holds no zero byte.
pub fn put_cstring(buf: &mut Vec<u8>, s: &String)
    requires
        cstring_fits(s@),
    ensures
        final(buf)@ == old(buf)@ + cstring_bytes(s@),
{
    let r = try_put_cstring(buf, s);
}

/// A C string of ASCII text without a NUL reads back as the text.
pub proof fn lemma_cstring_roundtrip(pre: Seq<u8>, t: Seq<char>, post: Seq<u8>)
    requires
        is_ascii_chars(t),
        cstring_fits(t),
    ensures
        spec_get_cstring(pre + cstring_bytes(t) + post, pre.len() as int) == Ok::<(Seq<char>, int), ErrorKind>(
            (t, pre.len() as int + cstring_bytes(t).len()),
        ),
{
    lemma_ascii_text_roundtrip(t);
    let s = pre + cstring_bytes(t) + post;
    let p = pre.len() as int;
    let n = text_bytes(t).len() as int;
    assert forall|i: int| p <= i < p + n implies s[i] != 0 by {
        assert(s[i] == text_bytes(t)[i - p]);
        if s[i] == 0 {
            assert(text_bytes(t).contains(0u8));
        }
    }
    assert(s[p + n] == 0);
    lemma_first_zero_is(s, p, p + n);
    assert(s.subrange(p, p + n) =~= text_bytes(t));
}


/// A part of a window of bytes is the same part of the whole.
pub proof fn lemma_window(s: Seq<u8>, p: int, n: int, a: int, c: int)
    requires
        0 <= p,
        p + n <= s.len(),
        0 <= a <= c <= n,
    ensures
        s.subrange(p + a, p + c) == s.subrange(p, p + n).subrange(a, c),
{
    assert(s.subrange(p + a, p + c) =~= s.subrange(p, p + n).subrange(a, c));
}

/// A fixed string field of ASCII text reads back from where its bytes stand.
pub proof fn lemma_fixed_str_in(s: Seq<u8>, q: int, t: Seq<char>, max: int)
    requires
        is_ascii_chars(t),
        fixed_str_fits(t, max),
        max < 255,
        0 <= q,
        q + max + 1 <= s.len(),
        s.subrange(q, q + max + 1) == fixed_str_bytes(t, max),
    ensures
        spec_get_fixed_str(s, q, max) == Ok::<(Seq<char>, int), ErrorKind>((t, q + max + 1)),
{
    let pre = s.subrange(0, q);
    let post = s.subrange(q + max + 1, s.len() as int);
    lemma_fixed_str_roundtrip(pre, t, max, post);
    assert(s =~= pre + fixed_str_bytes(t, max) + post);
}

} // verus!
