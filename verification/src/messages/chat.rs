//! Chat messages: talk, whisper, the "extended" variants that carry raw
//! bytes, and the global, room and superuser messages.
//!
//! Texts of the plain variants are C strings; the extended variants carry
//! a 16-bit length and the bytes. Encryption of the extended variants is a
//! pass-through: the bytes are the UTF-8 of the text.
use vstd::prelude::*;
use vstd::utf8::{decode_utf8, encode_utf8, valid_utf8};
use crate::buffer::{
    cstring_bytes, cstring_fits, get_cstring, i16_at, i16_be, i32_at, i32_be, put_cstring, read_i16,
    read_i32, spec_get_cstring, write_bytes, write_i16, write_i32, copy_range, ErrorKind, WireError,
};
use crate::messages::message::{Message, MessagePayload};
use crate::messages::message_id::MessageId;

verus! {

broadcast use vstd::seq_lib::group_seq_properties;

/// What `String::from_utf8_lossy` makes of the bytes: the text they
/// encode, each invalid sequence replaced by U+FFFD. A function of the
/// bytes alone.
pub uninterp spec fn lossy_text(bytes: Seq<u8>) -> Seq<char>;

/// The text of bytes decoded as UTF-8, invalid sequences replaced.
///
/// Calls `String::from_utf8_lossy`. The result is named `lossy_text` of the
/// bytes; of that name only what the documentation promises is stated:
/// valid UTF-8 comes back as the text it encodes. Which characters stand
/// for an invalid sequence is left to the name.
#[verifier::external_body]
fn utf8_lossy(bytes: &[u8]) -> (s: String)
    ensures
        s@ == lossy_text(bytes@),
        valid_utf8(bytes@) ==> s@ == decode_utf8(bytes@),
{
    String::from_utf8_lossy(bytes).into_owned()
}

/// The bytes of a string.
fn str_bytes(s: &str) -> (b: Vec<u8>)
    ensures
        b@ == encode_utf8(s@),
{
    let bytes = s.as_bytes();
    let mut v: Vec<u8> = Vec::new();
    write_bytes(&mut v, bytes);
    v
}

/// Reading a length-prefixed byte field at `p`: the length is a signed
/// 16-bit value; a negative length or one that does not fit is
/// `UnexpectedEof`.
pub open spec fn spec_get_bytes16(s: Seq<u8>, p: int) -> Result<(Seq<u8>, int), ErrorKind> {
    if p + 2 > s.len() {
        Err(ErrorKind::UnexpectedEof)
    } else {
        let n = i16_at(s, p) as int;
        if n < 0 || p + 2 + n > s.len() {
            Err(ErrorKind::UnexpectedEof)
        } else {
            Ok((s.subrange(p + 2, p + 2 + n), p + 2 + n))
        }
    }
}

/// The bytes of a length-prefixed byte field (the length as a wrapped
/// 16-bit value).
pub open spec fn bytes16(b: Seq<u8>) -> Seq<u8> {
    i16_be(b.len() as i16) + b
}

fn get_bytes16(data: &[u8], pos: usize) -> (r: Result<(Vec<u8>, usize), WireError>)
    ensures
        match spec_get_bytes16(data@, pos as int) {
            Ok((b, np)) => r matches Ok((v, q)) && v@ == b && q == np,
            Err(k) => r matches Err(e) && e.kind == k,
        },
{
    if pos > data.len() || data.len() - pos < 2 {
        return Err(WireError::new(ErrorKind::UnexpectedEof));
    }
    let n = read_i16(data, pos);
    let start = pos + 2;
    if n < 0 || data.len() - start < n as usize {
        return Err(WireError::new(ErrorKind::UnexpectedEof));
    }
    let v = copy_range(data, start, start + n as usize);
    Ok((v, start + n as usize))
}

fn put_bytes16(buf: &mut Vec<u8>, b: &Vec<u8>)
    ensures
        final(buf)@ == old(buf)@ + bytes16(b@),
{
    write_i16(buf, b.len() as i16);
    write_bytes(buf, b.as_slice());
    assert(final(buf)@ =~= old(buf)@ + bytes16(b@));
}

/// A length-prefixed byte field of at most 32767 bytes reads back.
pub proof fn lemma_bytes16_roundtrip(pre: Seq<u8>, b: Seq<u8>, post: Seq<u8>)
    requires
        b.len() <= 32767,
    ensures
        spec_get_bytes16(pre + bytes16(b) + post, pre.len() as int) == Ok::<(Seq<u8>, int), ErrorKind>(
            (b, (pre.len() + 2 + b.len()) as int),
        ),
{
    let s = pre + bytes16(b) + post;
    let p = pre.len() as int;
    assert(s.subrange(p, p + 2) =~= i16_be(b.len() as i16));
    crate::buffer::lemma_i16_in(s, p, b.len() as i16);
    assert(s.subrange(p + 2, p + 2 + b.len()) =~= b);
}

/// A text that a chat C string can carry without change: ASCII without NUL.
pub open spec fn chat_text(t: Seq<char>) -> bool {
    vstd::utf8::is_ascii_chars(t) && cstring_fits(t)
}

// ---------------------------------------------------------------------------
// Plain chat
// ---------------------------------------------------------------------------

/// A chat message to the room (`talk`); the reference number is the speaker.
#[derive(Debug, Clone, PartialEq)]
pub struct TalkMsg {
    pub text: String,
}

impl TalkMsg {
    /// Reads the message: a C string.
    pub fn from_bytes(data: &[u8]) -> (r: Result<TalkMsg, WireError>)
        ensures
            match spec_get_cstring(data@, 0) {
                Ok((t, _)) => r matches Ok(m) && m.text@ == t,
                Err(k) => r matches Err(e) && e.kind == k,
            },
    {
        match get_cstring(data, 0) {
            Ok((text, _)) => Ok(TalkMsg { text }),
            Err(e) => Err(e),
        }
    }

    /// Writes the message; the text may not hold a zero byte.
    pub fn to_bytes(&self, buf: &mut Vec<u8>)
        requires
            cstring_fits(self.text@),
        ensures
            final(buf)@ == old(buf)@ + cstring_bytes(self.text@),
    {
        put_cstring(buf, &self.text);
    }

    /// The complete message with the given reference number.
    pub fn to_message(&self, ref_num: i32) -> (m: Message)
        requires
            cstring_fits(self.text@),
        ensures
            m.msg_id == MessageId::Talk && m.ref_num == ref_num && m.payload@ == cstring_bytes(self.text@),
    {
        let mut payload: Vec<u8> = Vec::new();
        self.to_bytes(&mut payload);
        Message::new(MessageId::Talk, ref_num, payload)
    }
}

/// A global message to everyone (`gmsg`).
#[derive(Debug, Clone, PartialEq)]
pub struct GmsgMsg {
    pub text: String,
}

impl GmsgMsg {
    /// Reads the message: a C string.
    pub fn from_bytes(data: &[u8]) -> (r: Result<GmsgMsg, WireError>)
        ensures
            match spec_get_cstring(data@, 0) {
                Ok((t, _)) => r matches Ok(m) && m.text@ == t,
                Err(k) => r matches Err(e) && e.kind == k,
            },
    {
        match get_cstring(data, 0) {
            Ok((text, _)) => Ok(GmsgMsg { text }),
            Err(e) => Err(e),
        }
    }

    /// Writes the message; the text may not hold a zero byte.
    pub fn to_bytes(&self, buf: &mut Vec<u8>)
        requires
            cstring_fits(self.text@),
        ensures
            final(buf)@ == old(buf)@ + cstring_bytes(self.text@),
    {
        put_cstring(buf, &self.text);
    }
}

/// A message to everyone in the room (`rmsg`).
#[derive(Debug, Clone, PartialEq)]
pub struct RmsgMsg {
    pub text: String,
}

impl RmsgMsg {
    /// Reads the message: a C string.
    pub fn from_bytes(data: &[u8]) -> (r: Result<RmsgMsg, WireError>)
        ensures
            match spec_get_cstring(data@, 0) {
                Ok((t, _)) => r matches Ok(m) && m.text@ == t,
                Err(k) => r matches Err(e) && e.kind == k,
            },
    {
        match get_cstring(data, 0) {
            Ok((text, _)) => Ok(RmsgMsg { text }),
            Err(e) => Err(e),
        }
    }

    /// Writes the message; the text may not hold a zero byte.
    pub fn to_bytes(&self, buf: &mut Vec<u8>)
        requires
            cstring_fits(self.text@),
        ensures
            final(buf)@ == old(buf)@ + cstring_bytes(self.text@),
    {
        put_cstring(buf, &self.text);
    }
}

/// A message to superusers (`smsg`).
#[derive(Debug, Clone, PartialEq)]
pub struct SmsgMsg {
    pub text: String,
}

impl SmsgMsg {
    /// Reads the message: a C string.
    pub fn from_bytes(data: &[u8]) -> (r: Result<SmsgMsg, WireError>)
        ensures
            match spec_get_cstring(data@, 0) {
                Ok((t, _)) => r matches Ok(m) && m.text@ == t,
                Err(k) => r matches Err(e) && e.kind == k,
            },
    {
        match get_cstring(data, 0) {
            Ok((text, _)) => Ok(SmsgMsg { text }),
            Err(e) => Err(e),
        }
    }

    /// Writes the message; the text may not hold a zero byte.
    pub fn to_bytes(&self, buf: &mut Vec<u8>)
        requires
            cstring_fits(self.text@),
        ensures
            final(buf)@ == old(buf)@ + cstring_bytes(self.text@),
    {
        put_cstring(buf, &self.text);
    }
}

/// A private message to one user (`whis`).
#[derive(Debug, Clone, PartialEq)]
pub struct WhisperMsg {
    pub target: i32,
    pub text: String,
}

impl WhisperMsg {
    /// Reads the message: the target user, then a C string.
    pub fn from_bytes(data: &[u8]) -> (r: Result<WhisperMsg, WireError>)
        ensures
            data@.len() < 4 ==> (r matches Err(e) && e.kind == ErrorKind::UnexpectedEof),
            data@.len() >= 4 ==> match spec_get_cstring(data@, 4) {
                Ok((t, _)) => r matches Ok(m) && m.target == i32_at(data@, 0) && m.text@ == t,
                Err(k) => r matches Err(e) && e.kind == k,
            },
    {
        if data.len() < 4 {
            return Err(WireError::new(ErrorKind::UnexpectedEof));
        }
        let target = read_i32(data, 0);
        match get_cstring(data, 4) {
            Ok((text, _)) => Ok(WhisperMsg { target, text }),
            Err(e) => Err(e),
        }
    }

    /// Writes the message; the text may not hold a zero byte.
    pub fn to_bytes(&self, buf: &mut Vec<u8>)
        requires
            cstring_fits(self.text@),
        ensures
            final(buf)@ == old(buf)@ + i32_be(self.target) + cstring_bytes(self.text@),
    {
        write_i32(buf, self.target);
        put_cstring(buf, &self.text);
        assert(final(buf)@ =~= old(buf)@ + i32_be(self.target) + cstring_bytes(self.text@));
    }
}

// ---------------------------------------------------------------------------
// Extended chat
// ---------------------------------------------------------------------------

/// A chat message as raw bytes (`xtlk`).
#[derive(Debug, Clone, PartialEq)]
pub struct XTalkMsg {
    pub text: Vec<u8>,
}

impl XTalkMsg {
    /// Reads the message: a 16-bit length and the bytes.
    pub fn from_bytes(data: &[u8]) -> (r: Result<XTalkMsg, WireError>)
        ensures
            match spec_get_bytes16(data@, 0) {
                Ok((b, _)) => r matches Ok(m) && m.text@ == b,
                Err(k) => r matches Err(e) && e.kind == k,
            },
    {
        match get_bytes16(data, 0) {
            Ok((text, _)) => Ok(XTalkMsg { text }),
            Err(e) => Err(e),
        }
    }

    /// Writes the message: the length (wrapped to 16 bits) and the bytes.
    pub fn to_bytes(&self, buf: &mut Vec<u8>)
        ensures
            final(buf)@ == old(buf)@ + bytes16(self.text@),
    {
        put_bytes16(buf, &self.text);
    }

    /// The text the bytes carry (UTF-8; invalid sequences are replaced).
    pub fn decrypt(&self) -> (s: String)
        ensures
            s@ == lossy_text(self.text@),
            valid_utf8(self.text@) ==> s@ == decode_utf8(self.text@),
    {
        utf8_lossy(self.text.as_slice())
    }

    /// The message carrying a text: its UTF-8 bytes.
    pub fn encrypt(plaintext: &str) -> (m: XTalkMsg)
        ensures
            m.text@ == encode_utf8(plaintext@),
    {
        XTalkMsg { text: str_bytes(plaintext) }
    }
}

/// A private message as raw bytes (`xwis`).
#[derive(Debug, Clone, PartialEq)]
pub struct XWhisperMsg {
    pub target: i32,
    pub text: Vec<u8>,
}

impl XWhisperMsg {
    /// Reads the message: the target user, a 16-bit length and the bytes.
    pub fn from_bytes(data: &[u8]) -> (r: Result<XWhisperMsg, WireError>)
        ensures
            data@.len() < 4 ==> (r matches Err(e) && e.kind == ErrorKind::UnexpectedEof),
            data@.len() >= 4 ==> match spec_get_bytes16(data@, 4) {
                Ok((b, _)) => r matches Ok(m) && m.target == i32_at(data@, 0) && m.text@ == b,
                Err(k) => r matches Err(e) && e.kind == k,
            },
    {
        if data.len() < 4 {
            return Err(WireError::new(ErrorKind::UnexpectedEof));
        }
        let target = read_i32(data, 0);
        match get_bytes16(data, 4) {
            Ok((text, _)) => Ok(XWhisperMsg { target, text }),
            Err(e) => Err(e),
        }
    }

    /// Writes the message: the target, the length (wrapped to 16 bits) and
    /// the bytes.
    pub fn to_bytes(&self, buf: &mut Vec<u8>)
        ensures
            final(buf)@ == old(buf)@ + i32_be(self.target) + bytes16(self.text@),
    {
        write_i32(buf, self.target);
        put_bytes16(buf, &self.text);
        assert(final(buf)@ =~= old(buf)@ + i32_be(self.target) + bytes16(self.text@));
    }

    /// The text the bytes carry (UTF-8; invalid sequences are replaced).
    pub fn decrypt(&self) -> (s: String)
        ensures
            s@ == lossy_text(self.text@),
            valid_utf8(self.text@) ==> s@ == decode_utf8(self.text@),
    {
        utf8_lossy(self.text.as_slice())
    }

    /// The message carrying a text to a user: its UTF-8 bytes.
    pub fn encrypt(target: i32, plaintext: &str) -> (m: XWhisperMsg)
        ensures
            m.target == target && m.text@ == encode_utf8(plaintext@),
    {
        XWhisperMsg { target, text: str_bytes(plaintext) }
    }
}

/// Encrypting a text and decrypting it gives the text back.
pub proof fn lemma_xtalk_crypt_roundtrip(t: Seq<char>, m: XTalkMsg, s: Seq<char>)
    requires
        m.text@ == encode_utf8(t),
        valid_utf8(m.text@) ==> s == decode_utf8(m.text@),
    ensures
        s == t,
{
    vstd::utf8::encode_utf8_valid_utf8(t);
    vstd::utf8::encode_utf8_decode_utf8(t);
}

/// An extended chat message reads back from its bytes when its text has
/// at most 32767 bytes.
pub proof fn lemma_xtalk_roundtrip(m: XTalkMsg, rest: Seq<u8>)
    requires
        m.text@.len() <= 32767,
    ensures
        spec_get_bytes16(bytes16(m.text@) + rest, 0) matches Ok((b, _)) && b == m.text@,
{
    lemma_bytes16_roundtrip(Seq::empty(), m.text@, rest);
    assert(Seq::<u8>::empty() + bytes16(m.text@) + rest =~= bytes16(m.text@) + rest);
}


impl MessagePayload for GmsgMsg {
    open spec fn spec_message_id() -> MessageId {
        MessageId::Gmsg
    }

    open spec fn readable(data: Seq<u8>) -> bool {
        true
    }

    open spec fn read_is(data: Seq<u8>, r: Result<GmsgMsg, WireError>) -> bool {
        &&& (match spec_get_cstring(data, 0) { Ok((t, _)) => r matches Ok(m) && m.text@ == t, Err(k) => r matches Err(e) && e.kind == k, })
    }

    open spec fn writable(&self) -> bool {
        (cstring_fits(self.text@))
    }

    open spec fn payload_bytes(&self) -> Seq<u8> {
        cstring_bytes(self.text@)
    }

    fn message_id() -> (id: MessageId) {
        MessageId::Gmsg
    }

    fn read_payload(data: &[u8]) -> (r: Result<GmsgMsg, WireError>) {
        GmsgMsg::from_bytes(data)
    }

    fn write_payload(&self, buf: &mut Vec<u8>) {
        self.to_bytes(buf)
    }
}

impl MessagePayload for RmsgMsg {
    open spec fn spec_message_id() -> MessageId {
        MessageId::Rmsg
    }

    open spec fn readable(data: Seq<u8>) -> bool {
        true
    }

    open spec fn read_is(data: Seq<u8>, r: Result<RmsgMsg, WireError>) -> bool {
        &&& (match spec_get_cstring(data, 0) { Ok((t, _)) => r matches Ok(m) && m.text@ == t, Err(k) => r matches Err(e) && e.kind == k, })
    }

    open spec fn writable(&self) -> bool {
        (cstring_fits(self.text@))
    }

    open spec fn payload_bytes(&self) -> Seq<u8> {
        cstring_bytes(self.text@)
    }

    fn message_id() -> (id: MessageId) {
        MessageId::Rmsg
    }

    fn read_payload(data: &[u8]) -> (r: Result<RmsgMsg, WireError>) {
        RmsgMsg::from_bytes(data)
    }

    fn write_payload(&self, buf: &mut Vec<u8>) {
        self.to_bytes(buf)
    }
}

impl MessagePayload for SmsgMsg {
    open spec fn spec_message_id() -> MessageId {
        MessageId::Smsg
    }

    open spec fn readable(data: Seq<u8>) -> bool {
        true
    }

    open spec fn read_is(data: Seq<u8>, r: Result<SmsgMsg, WireError>) -> bool {
        &&& (match spec_get_cstring(data, 0) { Ok((t, _)) => r matches Ok(m) && m.text@ == t, Err(k) => r matches Err(e) && e.kind == k, })
    }

    open spec fn writable(&self) -> bool {
        (cstring_fits(self.text@))
    }

    open spec fn payload_bytes(&self) -> Seq<u8> {
        cstring_bytes(self.text@)
    }

    fn message_id() -> (id: MessageId) {
        MessageId::Smsg
    }

    fn read_payload(data: &[u8]) -> (r: Result<SmsgMsg, WireError>) {
        SmsgMsg::from_bytes(data)
    }

    fn write_payload(&self, buf: &mut Vec<u8>) {
        self.to_bytes(buf)
    }
}

impl MessagePayload for TalkMsg {
    open spec fn spec_message_id() -> MessageId {
        MessageId::Talk
    }

    open spec fn readable(data: Seq<u8>) -> bool {
        true
    }

    open spec fn read_is(data: Seq<u8>, r: Result<TalkMsg, WireError>) -> bool {
        &&& (match spec_get_cstring(data, 0) { Ok((t, _)) => r matches Ok(m) && m.text@ == t, Err(k) => r matches Err(e) && e.kind == k, })
    }

    open spec fn writable(&self) -> bool {
        (cstring_fits(self.text@))
    }

    open spec fn payload_bytes(&self) -> Seq<u8> {
        cstring_bytes(self.text@)
    }

    fn message_id() -> (id: MessageId) {
        MessageId::Talk
    }

    fn read_payload(data: &[u8]) -> (r: Result<TalkMsg, WireError>) {
        TalkMsg::from_bytes(data)
    }

    fn write_payload(&self, buf: &mut Vec<u8>) {
        self.to_bytes(buf)
    }
}

impl MessagePayload for WhisperMsg {
    open spec fn spec_message_id() -> MessageId {
        MessageId::Whisper
    }

    open spec fn readable(data: Seq<u8>) -> bool {
        true
    }

    open spec fn read_is(data: Seq<u8>, r: Result<WhisperMsg, WireError>) -> bool {
        &&& (data.len() < 4 ==> (r matches Err(e) && e.kind == ErrorKind::UnexpectedEof))
        &&& (data.len() >= 4 ==> match spec_get_cstring(data, 4) { Ok((t, _)) => r matches Ok(m) && m.target == i32_at(data, 0) && m.text@ == t, Err(k) => r matches Err(e) && e.kind == k, })
    }

    open spec fn writable(&self) -> bool {
        (cstring_fits(self.text@))
    }

    open spec fn payload_bytes(&self) -> Seq<u8> {
        i32_be(self.target) + cstring_bytes(self.text@)
    }

    fn message_id() -> (id: MessageId) {
        MessageId::Whisper
    }

    fn read_payload(data: &[u8]) -> (r: Result<WhisperMsg, WireError>) {
        WhisperMsg::from_bytes(data)
    }

    fn write_payload(&self, buf: &mut Vec<u8>) {
        self.to_bytes(buf)
    }
}

impl MessagePayload for XTalkMsg {
    open spec fn spec_message_id() -> MessageId {
        MessageId::XTalk
    }

    open spec fn readable(data: Seq<u8>) -> bool {
        true
    }

    open spec fn read_is(data: Seq<u8>, r: Result<XTalkMsg, WireError>) -> bool {
        &&& (match spec_get_bytes16(data, 0) { Ok((b, _)) => r matches Ok(m) && m.text@ == b, Err(k) => r matches Err(e) && e.kind == k, })
    }

    open spec fn writable(&self) -> bool {
        true
    }

    open spec fn payload_bytes(&self) -> Seq<u8> {
        bytes16(self.text@)
    }

    fn message_id() -> (id: MessageId) {
        MessageId::XTalk
    }

    fn read_payload(data: &[u8]) -> (r: Result<XTalkMsg, WireError>) {
        XTalkMsg::from_bytes(data)
    }

    fn write_payload(&self, buf: &mut Vec<u8>) {
        self.to_bytes(buf)
    }
}

impl MessagePayload for XWhisperMsg {
    open spec fn spec_message_id() -> MessageId {
        MessageId::XWhisper
    }

    open spec fn readable(data: Seq<u8>) -> bool {
        true
    }

    open spec fn read_is(data: Seq<u8>, r: Result<XWhisperMsg, WireError>) -> bool {
        &&& (data.len() < 4 ==> (r matches Err(e) && e.kind == ErrorKind::UnexpectedEof))
        &&& (data.len() >= 4 ==> match spec_get_bytes16(data, 4) { Ok((b, _)) => r matches Ok(m) && m.target == i32_at(data, 0) && m.text@ == b, Err(k) => r matches Err(e) && e.kind == k, })
    }

    open spec fn writable(&self) -> bool {
        true
    }

    open spec fn payload_bytes(&self) -> Seq<u8> {
        i32_be(self.target) + bytes16(self.text@)
    }

    fn message_id() -> (id: MessageId) {
        MessageId::XWhisper
    }

    fn read_payload(data: &[u8]) -> (r: Result<XWhisperMsg, WireError>) {
        XWhisperMsg::from_bytes(data)
    }

    fn write_payload(&self, buf: &mut Vec<u8>) {
        self.to_bytes(buf)
    }
}

} // verus!
