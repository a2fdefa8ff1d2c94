//! The common frame of every Palace Protocol message.
//!
//! A message is a 12-byte header followed by its payload:
//! - 4 bytes: the message type (a `MessageId`, big-endian),
//! - 4 bytes: the payload length (big-endian, header excluded),
//! - 4 bytes: a reference number (big-endian, its meaning depends on the type),
//! - the payload.
use vstd::prelude::*;
use crate::buffer::{
    i32_at, i32_be, u32_at, u32_be, lemma_i32_in, lemma_u32_in, read_i32, read_u32, write_bytes,
    write_i32, write_u32, copy_range, ErrorKind, WireError,
};
use crate::messages::message_id::{id_code, MessageId};

verus! {

broadcast use vstd::seq_lib::group_seq_properties;

/// The payload of one type of message: its type, how it is read from
/// bytes and how it is written. Each message type of this library
/// implements it with the contracts of its own `from_bytes` and
/// `to_bytes`.
pub trait MessagePayload: Sized {
    /// The message type this payload belongs to.
    spec fn spec_message_id() -> MessageId;

    /// Whether the payload may be read from the given bytes.
    spec fn readable(data: Seq<u8>) -> bool;

    /// Whether `r` is what reading the given bytes gives.
    spec fn read_is(data: Seq<u8>, r: Result<Self, WireError>) -> bool;

    /// Whether the payload can be written (its texts fit their fields).
    spec fn writable(&self) -> bool;

    /// The bytes of the payload.
    spec fn payload_bytes(&self) -> Seq<u8>;

    /// The message type this payload belongs to.
    fn message_id() -> (id: MessageId)
        ensures
            id == Self::spec_message_id(),
    ;

    /// Reads the payload from bytes.
    fn read_payload(data: &[u8]) -> (r: Result<Self, WireError>)
        requires
            Self::readable(data@),
        ensures
            Self::read_is(data@, r),
    ;

    /// Writes the payload.
    fn write_payload(&self, buf: &mut Vec<u8>)
        requires
            self.writable(),
        ensures
            final(buf)@ == old(buf)@ + self.payload_bytes(),
    ;
}

/// A Palace Protocol message.
#[derive(Debug, Clone, PartialEq)]
pub struct Message {
    /// The message type.
    pub msg_id: MessageId,
    /// The reference number (its meaning depends on the type).
    pub ref_num: i32,
    /// The payload.
    pub payload: Vec<u8>,
}

/// How reading a message at `p` goes: the message type, reference number,
/// payload and the position after it, or why it fails. Fewer than 12
/// bytes is `UnexpectedEof`; an unknown type is `InvalidData`; a payload
/// that does not fit is `UnexpectedEof`.
pub open spec fn spec_parse(s: Seq<u8>, p: int) -> Result<(MessageId, i32, Seq<u8>, int), ErrorKind> {
    if p + 12 > s.len() {
        Err(ErrorKind::UnexpectedEof)
    } else if !(exists|m: MessageId| id_code(m) == u32_at(s, p)) {
        Err(ErrorKind::InvalidData)
    } else if p + 12 + u32_at(s, p + 4) > s.len() {
        Err(ErrorKind::UnexpectedEof)
    } else {
        let m = choose|m: MessageId| id_code(m) == u32_at(s, p);
        let n = u32_at(s, p + 4) as int;
        Ok((m, i32_at(s, p + 8), s.subrange(p + 12, p + 12 + n), p + 12 + n))
    }
}

impl Message {
    /// Size of the header.
    pub const HEADER_SIZE: usize = 12;

    /// The bytes of the message: the header, then the payload.
    pub open spec fn spec_bytes(self) -> Seq<u8> {
        u32_be(id_code(self.msg_id)) + u32_be(self.payload@.len() as u32) + i32_be(self.ref_num) + self.payload@
    }

    /// A message.
    pub fn new(msg_id: MessageId, ref_num: i32, payload: Vec<u8>) -> (m: Message)
        ensures
            m.msg_id == msg_id && m.ref_num == ref_num && m.payload@ == payload@,
    {
        Message { msg_id, ref_num, payload }
    }

    /// The message carrying a payload: its type, the reference number and
    /// the payload's bytes.
    pub fn from_payload<P: MessagePayload>(payload: &P, ref_num: i32) -> (m: Message)
        requires
            payload.writable(),
        ensures
            m.msg_id == P::spec_message_id() && m.ref_num == ref_num && m.payload@ == payload.payload_bytes(),
    {
        let mut bytes: Vec<u8> = Vec::new();
        payload.write_payload(&mut bytes);
        Message::new(P::message_id(), ref_num, bytes)
    }

    /// Reads the payload as the given type.
    pub fn parse_payload<P: MessagePayload>(&self) -> (r: Result<P, WireError>)
        requires
            P::readable(self.payload@),
        ensures
            P::read_is(self.payload@, r),
    {
        P::read_payload(self.payload.as_slice())
    }

    /// A message with an empty payload.
    pub fn new_empty(msg_id: MessageId, ref_num: i32) -> (m: Message)
        ensures
            m.msg_id == msg_id && m.ref_num == ref_num && m.payload@.len() == 0,
    {
        Message::new(msg_id, ref_num, Vec::new())
    }

    /// The size of the whole message: header and payload.
    pub fn total_size(&self) -> (n: usize)
        requires
            self.payload@.len() + 12 <= usize::MAX,
        ensures
            n == 12 + self.payload@.len(),
    {
        12 + self.payload.len()
    }

    /// The size of the payload.
    pub fn payload_size(&self) -> (n: usize)
        ensures
            n == self.payload@.len(),
    {
        self.payload.len()
    }

    /// Reads a message at `pos` (see `spec_parse`).
    pub fn parse_at(data: &[u8], pos: usize) -> (r: Result<(Message, usize), WireError>)
        ensures
            match spec_parse(data@, pos as int) {
                Ok((id, rn, pl, np)) => r matches Ok((m, q)) && m.msg_id == id && m.ref_num == rn
                    && m.payload@ == pl && q == np,
                Err(k) => r matches Err(e) && e.kind == k,
            },
    {
        if pos > data.len() || data.len() - pos < 12 {
            return Err(WireError::new(ErrorKind::UnexpectedEof));
        }
        let code = read_u32(data, pos);
        let msg_id = match MessageId::from_u32(code) {
            Some(m) => m,
            None => {
                return Err(WireError::new(ErrorKind::InvalidData));
            },
        };
        let length = read_u32(data, pos + 4);
        let ref_num = read_i32(data, pos + 8);
        let start = pos + 12;
        if ((data.len() - start) as u64) < (length as u64) {
            return Err(WireError::new(ErrorKind::UnexpectedEof));
        }
        let n = length as usize;
        let payload = copy_range(data, start, start + n);
        proof {
            let m = choose|m: MessageId| id_code(m) == u32_at(data@, pos as int);
            crate::messages::message_id::lemma_code_injective(m, msg_id);
        }
        Ok((Message { msg_id, ref_num, payload }, start + n))
    }

    /// Reads a message at the start of `data`.
    pub fn parse(data: &[u8]) -> (r: Result<Message, WireError>)
        ensures
            match spec_parse(data@, 0) {
                Ok((id, rn, pl, _)) => r matches Ok(m) && m.msg_id == id && m.ref_num == rn && m.payload@ == pl,
                Err(k) => r matches Err(e) && e.kind == k,
            },
    {
        match Self::parse_at(data, 0) {
            Ok((m, _)) => Ok(m),
            Err(e) => Err(e),
        }
    }

    /// Appends the message's bytes; the payload length must fit in the
    /// 32-bit length field.
    pub fn serialize(&self, buf: &mut Vec<u8>)
        requires
            self.payload@.len() <= u32::MAX,
        ensures
            final(buf)@ == old(buf)@ + self.spec_bytes(),
    {
        write_u32(buf, self.msg_id.as_u32());
        write_u32(buf, self.payload.len() as u32);
        write_i32(buf, self.ref_num);
        write_bytes(buf, self.payload.as_slice());
        assert(final(buf)@ =~= old(buf)@ + self.spec_bytes());
    }

    /// The message's bytes.
    pub fn to_bytes(&self) -> (v: Vec<u8>)
        requires
            self.payload@.len() <= u32::MAX,
        ensures
            v@ == self.spec_bytes(),
    {
        let mut buf: Vec<u8> = Vec::new();
        self.serialize(&mut buf);
        assert(buf@ =~= self.spec_bytes());
        buf
    }
}

/// A message reads back from its bytes, whatever follows them: same type,
/// same reference number, same payload, and the position just after it.
pub proof fn lemma_message_roundtrip(m: Message, rest: Seq<u8>)
    requires
        m.payload@.len() <= u32::MAX,
    ensures
        spec_parse(m.spec_bytes() + rest, 0) == Ok::<(MessageId, i32, Seq<u8>, int), ErrorKind>(
            (m.msg_id, m.ref_num, m.payload@, m.spec_bytes().len() as int),
        ),
{
    let s = m.spec_bytes() + rest;
    let n = m.payload@.len();
    assert(s.subrange(0, 4) =~= u32_be(id_code(m.msg_id)));
    assert(s.subrange(4, 8) =~= u32_be(n as u32));
    assert(s.subrange(8, 12) =~= i32_be(m.ref_num));
    lemma_u32_in(s, 0, id_code(m.msg_id));
    lemma_u32_in(s, 4, n as u32);
    lemma_i32_in(s, 8, m.ref_num);
    assert(exists|x: MessageId| id_code(x) == u32_at(s, 0)) by {
        assert(id_code(m.msg_id) == u32_at(s, 0));
    }
    let c = choose|x: MessageId| id_code(x) == u32_at(s, 0);
    crate::messages::message_id::lemma_code_injective(c, m.msg_id);
    assert(s.subrange(12, 12 + n as int) =~= m.payload@);
}

} // verus!
