//! Asset messages: asking for an asset, and sending one in blocks.
use vstd::prelude::*;
use vstd::utf8::is_ascii_chars;
use crate::buffer::{
    copy_range, fixed_str_bytes, fixed_str_fits, get_str31, i16_at, i16_be, i32_at, i32_be, lemma_i16_in,
    lemma_i32_in, lemma_fixed_str_in, lemma_u32_in, lemma_window, put_str31, read_i16, read_i32, read_u32,
    spec_get_fixed_str, u32_at, u32_be, write_bytes, write_i16, write_i32, write_u32, ErrorKind, WireError,
};
use crate::messages::message::{Message, MessagePayload};
use crate::messages::message_id::MessageId;
use crate::{spec_asset_type_code, AssetSpec, AssetType};

verus! {

broadcast use vstd::seq_lib::group_seq_properties;

/// The asset type whose code is `v`, if any.
pub open spec fn asset_type_of(v: u32) -> Option<AssetType> {
    if v == spec_asset_type_code(AssetType::Prop) {
        Some(AssetType::Prop)
    } else if v == spec_asset_type_code(AssetType::UserBase) {
        Some(AssetType::UserBase)
    } else if v == spec_asset_type_code(AssetType::IpUserBase) {
        Some(AssetType::IpUserBase)
    } else {
        None
    }
}

/// Reads an asset type code at `pos`: `UnexpectedEof` if it does not fit,
/// `InvalidData` for an unknown code.
fn read_asset_type(data: &[u8], pos: usize) -> (r: Result<AssetType, WireError>)
    ensures
        pos + 4 > data@.len() ==> (r matches Err(e) && e.kind == ErrorKind::UnexpectedEof),
        pos + 4 <= data@.len() ==> match asset_type_of(u32_at(data@, pos as int)) {
            Some(t) => r == Ok::<AssetType, WireError>(t),
            None => r matches Err(e) && e.kind == ErrorKind::InvalidData,
        },
{
    if pos > data.len() || data.len() - pos < 4 {
        return Err(WireError::new(ErrorKind::UnexpectedEof));
    }
    match AssetType::from_u32(read_u32(data, pos)) {
        Some(t) => Ok(t),
        None => Err(WireError::new(ErrorKind::InvalidData)),
    }
}

/// Asks for an asset (`qAst`): its type and spec.
#[derive(Debug, Clone, PartialEq)]
pub struct AssetQueryMsg {
    pub asset_type: AssetType,
    pub spec: AssetSpec,
}

impl AssetQueryMsg {
    /// Reads the message: the type code, then the asset spec.
    pub fn from_bytes(data: &[u8]) -> (r: Result<AssetQueryMsg, WireError>)
        ensures
            data@.len() < 4 ==> (r matches Err(e) && e.kind == ErrorKind::UnexpectedEof),
            data@.len() >= 4 ==> match asset_type_of(u32_at(data@, 0)) {
                None => r matches Err(e) && e.kind == ErrorKind::InvalidData,
                Some(t) => if data@.len() < 14 {
                    r matches Err(e) && e.kind == ErrorKind::UnexpectedEof
                } else {
                    r matches Ok(m) && m.asset_type == t && m.spec == AssetSpec::spec_at(data@, 4)
                },
            },
    {
        let asset_type = match read_asset_type(data, 0) {
            Ok(t) => t,
            Err(e) => return Err(e),
        };
        if data.len() < 14 {
            return Err(WireError::new(ErrorKind::UnexpectedEof));
        }
        Ok(AssetQueryMsg { asset_type, spec: AssetSpec::read_at(data, 4) })
    }

    /// Writes the message.
    pub fn to_bytes(&self, buf: &mut Vec<u8>)
        ensures
            final(buf)@ == old(buf)@ + u32_be(spec_asset_type_code(self.asset_type)) + self.spec.spec_bytes(),
    {
        write_u32(buf, self.asset_type.as_u32());
        self.spec.to_bytes(buf);
        assert(final(buf)@ =~= old(buf)@ + u32_be(spec_asset_type_code(self.asset_type)) + self.spec.spec_bytes());
    }

    /// The complete message with the given reference number.
    pub fn to_message(&self, ref_num: i32) -> (m: Message)
        ensures
            m.msg_id == MessageId::AssetQuery && m.ref_num == ref_num
                && m.payload@ == u32_be(spec_asset_type_code(self.asset_type)) + self.spec.spec_bytes(),
    {
        let mut payload: Vec<u8> = Vec::new();
        self.to_bytes(&mut payload);
        Message::new(MessageId::AssetQuery, ref_num, payload)
    }
}

/// What the first block of an asset tells of it: flags, size and name.
#[derive(Debug, Clone, PartialEq)]
pub struct AssetDescriptor {
    pub flags: u32,
    pub size: u32,
    pub name: String,
}

/// Reading a descriptor at `p`: flags, size and name, or why it fails.
pub open spec fn spec_descriptor(s: Seq<u8>, p: int) -> Result<(u32, u32, Seq<char>), ErrorKind> {
    if p < 0 || p + 40 > s.len() {
        Err(ErrorKind::UnexpectedEof)
    } else {
        match spec_get_fixed_str(s, p + 8, 31) {
            Ok((t, _)) => Ok((u32_at(s, p), u32_at(s, p + 4), t)),
            Err(k) => Err(k),
        }
    }
}

impl AssetDescriptor {
    /// The bytes of the descriptor.
    pub open spec fn spec_bytes(self) -> Seq<u8> {
        u32_be(self.flags) + u32_be(self.size) + fixed_str_bytes(self.name@, 31)
    }

    /// Reads a descriptor at `pos`.
    pub fn parse_at(data: &[u8], pos: usize) -> (r: Result<AssetDescriptor, WireError>)
        ensures
            match spec_descriptor(data@, pos as int) {
                Ok((f, sz, t)) => r matches Ok(d) && d.flags == f && d.size == sz && d.name@ == t,
                Err(k) => r matches Err(e) && e.kind == k,
            },
    {
        if pos > data.len() || data.len() - pos < 40 {
            return Err(WireError::new(ErrorKind::UnexpectedEof));
        }
        match get_str31(data, pos + 8) {
            Ok((name, _)) => Ok(AssetDescriptor { flags: read_u32(data, pos), size: read_u32(data, pos + 4), name }),
            Err(e) => Err(e),
        }
    }

    /// Reads a descriptor at the start of `data`.
    pub fn from_bytes(data: &[u8]) -> (r: Result<AssetDescriptor, WireError>)
        ensures
            match spec_descriptor(data@, 0) {
                Ok((f, sz, t)) => r matches Ok(d) && d.flags == f && d.size == sz && d.name@ == t,
                Err(k) => r matches Err(e) && e.kind == k,
            },
    {
        Self::parse_at(data, 0)
    }

    /// Writes the descriptor; the name must fit its 31 bytes.
    pub fn to_bytes(&self, buf: &mut Vec<u8>)
        requires
            fixed_str_fits(self.name@, 31),
        ensures
            final(buf)@ == old(buf)@ + self.spec_bytes(),
    {
        write_u32(buf, self.flags);
        write_u32(buf, self.size);
        put_str31(buf, &self.name);
        assert(final(buf)@ =~= old(buf)@ + self.spec_bytes());
    }
}


/// The code of an asset type reads back as that type.
pub proof fn lemma_asset_type_of_code(t: AssetType)
    ensures
        asset_type_of(spec_asset_type_code(t)) == Some(t),
{
    match t {
        AssetType::Prop => {},
        AssetType::UserBase => {},
        AssetType::IpUserBase => {},
    }
}

/// A query is read back from its bytes.
pub proof fn lemma_query_roundtrip(m: AssetQueryMsg)
    ensures
        ({
            let b = u32_be(spec_asset_type_code(m.asset_type)) + m.spec.spec_bytes();
            &&& b.len() == 14
            &&& asset_type_of(u32_at(b, 0)) == Some(m.asset_type)
            &&& AssetSpec::spec_at(b, 4) == m.spec
        }),
{
    let b = u32_be(spec_asset_type_code(m.asset_type)) + m.spec.spec_bytes();
    assert(b.subrange(0, 4) =~= u32_be(spec_asset_type_code(m.asset_type)));
    lemma_u32_in(b, 0, spec_asset_type_code(m.asset_type));
    lemma_asset_type_of_code(m.asset_type);
    assert(b.subrange(4, 14) =~= m.spec.spec_bytes());
    m.spec.lemma_read_back(b, 4);
}

/// A descriptor with an ASCII name that fits is read back from where its
/// bytes stand.
pub proof fn lemma_descriptor_read_back(d: AssetDescriptor, s: Seq<u8>, p: int)
    requires
        is_ascii_chars(d.name@),
        fixed_str_fits(d.name@, 31),
        0 <= p,
        p + 40 <= s.len(),
        s.subrange(p, p + 40) == d.spec_bytes(),
    ensures
        spec_descriptor(s, p) == Ok::<(u32, u32, Seq<char>), ErrorKind>((d.flags, d.size, d.name@)),
{
    let b = d.spec_bytes();
    assert(fixed_str_bytes(d.name@, 31).len() == 32);
    assert(b.subrange(0, 4) =~= u32_be(d.flags));
    assert(b.subrange(4, 8) =~= u32_be(d.size));
    assert(b.subrange(8, 40) =~= fixed_str_bytes(d.name@, 31));
    lemma_window(s, p, 40, 0, 4);
    lemma_u32_in(s, p, d.flags);
    lemma_window(s, p, 40, 4, 8);
    lemma_u32_in(s, p + 4, d.size);
    lemma_window(s, p, 40, 8, 40);
    lemma_fixed_str_in(s, p + 8, d.name@, 31);
}

/// A block of an asset (`sAst`): type, spec, block size and offset, block
/// number and count, the descriptor (in block 0 only) and the block's bytes.
#[derive(Debug, Clone, PartialEq)]
pub struct AssetSendMsg {
    pub asset_type: AssetType,
    pub spec: AssetSpec,
    pub block_size: i32,
    pub block_offset: i32,
    pub block_nbr: i16,
    pub nbr_blocks: i16,
    pub desc: Option<AssetDescriptor>,
    pub data: Vec<u8>,
}

/// The bytes of a block that follow its header: `n` bytes from `p` on, or
/// none when `n` is not positive.
pub open spec fn block_data(s: Seq<u8>, p: int, n: i32) -> Result<Seq<u8>, ErrorKind> {
    if n <= 0 {
        Ok(Seq::empty())
    } else if p + n > s.len() {
        Err(ErrorKind::UnexpectedEof)
    } else {
        Ok(s.subrange(p, p + n))
    }
}

/// Whether `m` is the block read from `s`: its header at the start, the
/// descriptor after it when the block number is 0, then the block's bytes.
pub open spec fn send_at(s: Seq<u8>, m: AssetSendMsg) -> bool {
    &&& asset_type_of(u32_at(s, 0)) == Some(m.asset_type)
    &&& m.spec == AssetSpec::spec_at(s, 4)
    &&& m.block_size == i32_at(s, 14)
    &&& m.block_offset == i32_at(s, 18)
    &&& m.block_nbr == i16_at(s, 22)
    &&& m.nbr_blocks == i16_at(s, 24)
    &&& if m.block_nbr == 0 {
        &&& spec_descriptor(s, 26) matches Ok((f, sz, t))
        &&& m.desc matches Some(d)
        &&& d.flags == f && d.size == sz && d.name@ == t
        &&& block_data(s, 66, m.block_size) == Ok::<Seq<u8>, ErrorKind>(m.data@)
    } else {
        &&& m.desc is None
        &&& block_data(s, 26, m.block_size) == Ok::<Seq<u8>, ErrorKind>(m.data@)
    }
}

/// Why reading a block from `s` fails, if it does.
pub open spec fn send_error(s: Seq<u8>) -> Option<ErrorKind> {
    if s.len() < 4 {
        Some(ErrorKind::UnexpectedEof)
    } else if asset_type_of(u32_at(s, 0)) is None {
        Some(ErrorKind::InvalidData)
    } else if s.len() < 26 {
        Some(ErrorKind::UnexpectedEof)
    } else {
        let n = i32_at(s, 14);
        let d = if i16_at(s, 22) == 0 { 66int } else { 26int };
        if i16_at(s, 22) == 0 && spec_descriptor(s, 26) is Err {
            Some(spec_descriptor(s, 26)->Err_0)
        } else if block_data(s, d, n) is Err {
            Some(ErrorKind::UnexpectedEof)
        } else {
            None
        }
    }
}

impl AssetSendMsg {
    /// The bytes of the block.
    pub open spec fn spec_bytes(self) -> Seq<u8> {
        u32_be(spec_asset_type_code(self.asset_type)) + self.spec.spec_bytes() + i32_be(self.block_size)
            + i32_be(self.block_offset) + i16_be(self.block_nbr) + i16_be(self.nbr_blocks) + match self.desc {
            Some(d) => d.spec_bytes(),
            None => Seq::empty(),
        } + self.data@
    }

    /// Reads a block.
    pub fn from_bytes(data: &[u8]) -> (r: Result<AssetSendMsg, WireError>)
        ensures
            match send_error(data@) {
                None => r matches Ok(m) && send_at(data@, m),
                Some(k) => r matches Err(e) && e.kind == k,
            },
    {
        let asset_type = match read_asset_type(data, 0) {
            Ok(t) => t,
            Err(e) => return Err(e),
        };
        if data.len() < 26 {
            return Err(WireError::new(ErrorKind::UnexpectedEof));
        }
        let spec = AssetSpec::read_at(data, 4);
        let block_size = read_i32(data, 14);
        let block_offset = read_i32(data, 18);
        let block_nbr = read_i16(data, 22);
        let nbr_blocks = read_i16(data, 24);
        let mut pos: usize = 26;
        let desc = if block_nbr == 0 {
            match AssetDescriptor::parse_at(data, 26) {
                Ok(d) => {
                    pos = 66;
                    Some(d)
                },
                Err(e) => return Err(e),
            }
        } else {
            None
        };
        let bytes = if block_size > 0 {
            let n = block_size as usize;
            if data.len() - pos < n {
                return Err(WireError::new(ErrorKind::UnexpectedEof));
            }
            copy_range(data, pos, pos + n)
        } else {
            Vec::new()
        };
        Ok(AssetSendMsg { asset_type, spec, block_size, block_offset, block_nbr, nbr_blocks, desc, data: bytes })
    }

    /// Writes the block; a descriptor's name must fit its 31 bytes.
    pub fn to_bytes(&self, buf: &mut Vec<u8>)
        requires
            self.desc matches Some(d) ==> fixed_str_fits(d.name@, 31),
        ensures
            final(buf)@ == old(buf)@ + self.spec_bytes(),
    {
        write_u32(buf, self.asset_type.as_u32());
        self.spec.to_bytes(buf);
        write_i32(buf, self.block_size);
        write_i32(buf, self.block_offset);
        write_i16(buf, self.block_nbr);
        write_i16(buf, self.nbr_blocks);
        let ghost mid = buf@;
        match &self.desc {
            Some(d) => d.to_bytes(buf),
            None => {},
        }
        write_bytes(buf, self.data.as_slice());
        assert(final(buf)@ =~= old(buf)@ + self.spec_bytes());
    }

    /// The whole asset as one block: block 0 of 1, its size (as 32 bits)
    /// in the header and in a descriptor with no flags.
    pub fn single_block(asset_type: AssetType, spec: AssetSpec, name: String, data: Vec<u8>) -> (m: AssetSendMsg)
        ensures
            m.asset_type == asset_type && m.spec == spec,
            m.block_size == (data@.len() as u32) as i32 && m.block_offset == 0,
            m.block_nbr == 0 && m.nbr_blocks == 1,
            m.desc matches Some(d) && d.flags == 0 && d.size == data@.len() as u32 && d.name@ == name@,
            m.data@ == data@,
    {
        let size = data.len() as u32;
        AssetSendMsg {
            asset_type,
            spec,
            block_size: size as i32,
            block_offset: 0,
            block_nbr: 0,
            nbr_blocks: 1,
            desc: Some(AssetDescriptor { flags: 0, size, name }),
            data,
        }
    }

    /// The complete message with the given reference number.
    pub fn to_message(&self, ref_num: i32) -> (m: Message)
        requires
            self.desc matches Some(d) ==> fixed_str_fits(d.name@, 31),
        ensures
            m.msg_id == MessageId::AssetSend && m.ref_num == ref_num && m.payload@ == self.spec_bytes(),
    {
        let mut payload: Vec<u8> = Vec::new();
        self.to_bytes(&mut payload);
        Message::new(MessageId::AssetSend, ref_num, payload)
    }
}


/// Where the header fields of a block stand in its bytes.
#[verifier::rlimit(30)]
proof fn lemma_send_layout(m: AssetSendMsg)
    ensures
        m.spec_bytes().subrange(0, 4) == u32_be(spec_asset_type_code(m.asset_type)),
        m.spec_bytes().subrange(4, 14) == m.spec.spec_bytes(),
        m.spec_bytes().subrange(14, 18) == i32_be(m.block_size),
        m.spec_bytes().subrange(18, 22) == i32_be(m.block_offset),
        m.spec_bytes().subrange(22, 24) == i16_be(m.block_nbr),
        m.spec_bytes().subrange(24, 26) == i16_be(m.nbr_blocks),
        m.spec_bytes().subrange(26, m.spec_bytes().len() as int) == match m.desc {
            Some(d) => d.spec_bytes(),
            None => Seq::empty(),
        } + m.data@,
{
    let b = m.spec_bytes();
    assert(b.subrange(0, 4) =~= u32_be(spec_asset_type_code(m.asset_type)));
    assert(b.subrange(4, 14) =~= m.spec.spec_bytes());
    assert(b.subrange(14, 18) =~= i32_be(m.block_size));
    assert(b.subrange(18, 22) =~= i32_be(m.block_offset));
    assert(b.subrange(22, 24) =~= i16_be(m.block_nbr));
    assert(b.subrange(24, 26) =~= i16_be(m.nbr_blocks));
    assert(b.subrange(26, b.len() as int) =~= match m.desc {
        Some(d) => d.spec_bytes(),
        None => Seq::empty(),
    } + m.data@);
}

/// A block whose size field counts its bytes, and that holds a descriptor
/// (with an ASCII name that fits) exactly when it is block 0, is read back
/// from its bytes.
pub proof fn lemma_send_roundtrip(m: AssetSendMsg)
    requires
        m.data@.len() == (if m.block_size > 0 { m.block_size as int } else { 0 }),
        (m.block_nbr == 0) == (m.desc is Some),
        m.desc matches Some(d) ==> is_ascii_chars(d.name@) && fixed_str_fits(d.name@, 31),
    ensures
        send_error(m.spec_bytes()) is None,
        send_at(m.spec_bytes(), m),
{
    let b = m.spec_bytes();
    lemma_send_layout(m);
    lemma_u32_in(b, 0, spec_asset_type_code(m.asset_type));
    lemma_asset_type_of_code(m.asset_type);
    m.spec.lemma_read_back(b, 4);
    lemma_i32_in(b, 14, m.block_size);
    lemma_i32_in(b, 18, m.block_offset);
    lemma_i16_in(b, 22, m.block_nbr);
    lemma_i16_in(b, 24, m.nbr_blocks);
    let rest = b.subrange(26, b.len() as int);
    match m.desc {
        Some(d) => {
            assert(fixed_str_bytes(d.name@, 31).len() == 32);
            assert(d.spec_bytes().len() == 40);
            assert(b.subrange(26, 66) =~= rest.subrange(0, 40));
            assert(rest.subrange(0, 40) =~= d.spec_bytes());
            lemma_descriptor_read_back(d, b, 26);
            if m.block_size > 0 {
                assert(b.subrange(66, 66 + m.block_size) =~= rest.subrange(40, rest.len() as int));
                assert(rest.subrange(40, rest.len() as int) =~= m.data@);
            } else {
                assert(m.data@ =~= Seq::<u8>::empty());
            }
        },
        None => {
            if m.block_size > 0 {
                assert(b.subrange(26, 26 + m.block_size) =~= rest);
                assert(rest =~= m.data@);
            } else {
                assert(m.data@ =~= Seq::<u8>::empty());
            }
        },
    }
}


impl MessagePayload for AssetQueryMsg {
    open spec fn spec_message_id() -> MessageId {
        MessageId::AssetQuery
    }

    open spec fn readable(data: Seq<u8>) -> bool {
        true
    }

    open spec fn read_is(data: Seq<u8>, r: Result<AssetQueryMsg, WireError>) -> bool {
        &&& (data.len() < 4 ==> (r matches Err(e) && e.kind == ErrorKind::UnexpectedEof))
        &&& (data.len() >= 4 ==> match asset_type_of(u32_at(data, 0)) { None => r matches Err(e) && e.kind == ErrorKind::InvalidData, Some(t) => if data.len() < 14 { r matches Err(e) && e.kind == ErrorKind::UnexpectedEof } else { r matches Ok(m) && m.asset_type == t && m.spec == AssetSpec::spec_at(data, 4) }, })
    }

    open spec fn writable(&self) -> bool {
        true
    }

    open spec fn payload_bytes(&self) -> Seq<u8> {
        u32_be(spec_asset_type_code(self.asset_type)) + self.spec.spec_bytes()
    }

    fn message_id() -> (id: MessageId) {
        MessageId::AssetQuery
    }

    fn read_payload(data: &[u8]) -> (r: Result<AssetQueryMsg, WireError>) {
        AssetQueryMsg::from_bytes(data)
    }

    fn write_payload(&self, buf: &mut Vec<u8>) {
        self.to_bytes(buf)
    }
}

impl MessagePayload for AssetSendMsg {
    open spec fn spec_message_id() -> MessageId {
        MessageId::AssetSend
    }

    open spec fn readable(data: Seq<u8>) -> bool {
        true
    }

    open spec fn read_is(data: Seq<u8>, r: Result<AssetSendMsg, WireError>) -> bool {
        &&& (match send_error(data) { None => r matches Ok(m) && send_at(data, m), Some(k) => r matches Err(e) && e.kind == k, })
    }

    open spec fn writable(&self) -> bool {
        (self.desc matches Some(d) ==> fixed_str_fits(d.name@, 31))
    }

    open spec fn payload_bytes(&self) -> Seq<u8> {
        self.spec_bytes()
    }

    fn message_id() -> (id: MessageId) {
        MessageId::AssetSend
    }

    fn read_payload(data: &[u8]) -> (r: Result<AssetSendMsg, WireError>) {
        AssetSendMsg::from_bytes(data)
    }

    fn write_payload(&self, buf: &mut Vec<u8>) {
        self.to_bytes(buf)
    }
}

} // verus!
