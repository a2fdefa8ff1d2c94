//! Connection and logon messages.
//!
//! A client opens with `tiyr`; it logs on with `regi`, carrying an
//! auxiliary registration record of 128 bytes, which the server may answer
//! with `rep2` carrying the same record.
use vstd::prelude::*;
use crate::buffer::{
    fixed_str_bytes, fixed_str_fits, get_str31, put_str31, read_i16, read_u32, read_u8, spec_get_fixed_str,
    u32_at, u32_be, i16_at, i16_be, write_bytes, write_i16, write_u32, ErrorKind, WireError,
    lemma_fixed_str_in, lemma_i16_in, lemma_u32_in,
};
use vstd::utf8::is_ascii_chars;
use crate::messages::flags::{AuxFlags, DownloadCaps, Engine2DCaps, Engine3DCaps, Graphics2DCaps, UploadCaps};
use crate::messages::message::{Message, MessagePayload};
use crate::messages::message_id::MessageId;
use crate::text::string_from;

verus! {

broadcast use vstd::seq_lib::group_seq_properties;

/// The client's first message (`tiyr`): it carries nothing.
#[derive(Debug, Clone, PartialEq, Eq)]
pub struct TiyidMsg;

impl TiyidMsg {
    /// The message.
    pub fn new() -> (m: TiyidMsg)
        ensures
            m == TiyidMsg,
    {
        TiyidMsg
    }

    /// The complete message: type `tiyr`, no payload.
    pub fn to_message(&self, ref_num: i32) -> (m: Message)
        ensures
            m.msg_id == MessageId::Tiyid && m.ref_num == ref_num && m.payload@.len() == 0,
    {
        Message::new_empty(MessageId::Tiyid, ref_num)
    }
}

impl Default for TiyidMsg {
    fn default() -> (m: TiyidMsg) {
        TiyidMsg
    }
}

/// The auxiliary registration record: who logs on, where to, and with
/// which capabilities (128 bytes).
#[derive(Debug, Clone, PartialEq, Eq)]
pub struct AuxRegistrationRec {
    /// Registration CRC.
    pub crc: u32,
    /// Registration counter.
    pub counter: u32,
    /// User name (at most 31 bytes).
    pub user_name: String,
    /// Wizard password (at most 31 bytes).
    pub wiz_password: String,
    /// Auxiliary flags.
    pub aux_flags: AuxFlags,
    /// PUID counter.
    pub puid_ctr: u32,
    /// PUID CRC.
    pub puid_crc: u32,
    /// Demo time elapsed.
    pub demo_elapsed: u32,
    /// Total time elapsed.
    pub total_elapsed: u32,
    /// Demo time limit.
    pub demo_limit: u32,
    /// The room to enter.
    pub desired_room: i16,
    /// Client signature.
    pub client_signature: [u8; 6],
    /// Requested protocol version.
    pub ul_requested_protocol_version: u32,
    /// Upload capabilities.
    pub ul_upload_caps: UploadCaps,
    /// Download capabilities.
    pub ul_download_caps: DownloadCaps,
    /// 2D engine capabilities.
    pub ul_2d_engine_caps: Engine2DCaps,
    /// 2D graphics capabilities.
    pub ul_2d_graphics_caps: Graphics2DCaps,
    /// 3D engine capabilities.
    pub ul_3d_engine_caps: Engine3DCaps,
}

/// Whether the fixed fields of a record stand in `s` at `p` (all but the
/// two names and the capability sets, whose undefined bits are dropped on
/// reading).
pub open spec fn aux_fields_at(r: AuxRegistrationRec, s: Seq<u8>, p: int) -> bool {
    &&& r.crc == u32_at(s, p)
    &&& r.counter == u32_at(s, p + 4)
    &&& r.puid_ctr == u32_at(s, p + 76)
    &&& r.puid_crc == u32_at(s, p + 80)
    &&& r.demo_elapsed == u32_at(s, p + 84)
    &&& r.total_elapsed == u32_at(s, p + 88)
    &&& r.demo_limit == u32_at(s, p + 92)
    &&& r.desired_room == i16_at(s, p + 96)
    &&& r.client_signature@ == s.subrange(p + 98, p + 104)
    &&& r.ul_requested_protocol_version == u32_at(s, p + 104)
}

/// The bytes of a record.
pub open spec fn aux_bytes(r: AuxRegistrationRec) -> Seq<u8> {
    u32_be(r.crc) + u32_be(r.counter) + fixed_str_bytes(r.user_name@, 31) + fixed_str_bytes(r.wiz_password@, 31)
        + u32_be(r.aux_flags.bits) + u32_be(r.puid_ctr) + u32_be(r.puid_crc) + u32_be(r.demo_elapsed)
        + u32_be(r.total_elapsed) + u32_be(r.demo_limit) + i16_be(r.desired_room) + r.client_signature@
        + u32_be(r.ul_requested_protocol_version) + u32_be(r.ul_upload_caps.bits) + u32_be(r.ul_download_caps.bits)
        + u32_be(r.ul_2d_engine_caps.bits) + u32_be(r.ul_2d_graphics_caps.bits) + u32_be(r.ul_3d_engine_caps.bits)
}

impl AuxRegistrationRec {
    /// Size on the wire.
    pub const SIZE: usize = 128;

    /// A guest's record: the name and the room; everything else empty.
    pub fn new_guest(user_name: &str, desired_room: i16) -> (r: AuxRegistrationRec)
        ensures
            r.user_name@ == user_name@ && r.desired_room == desired_room && r.crc == 0 && r.counter == 0,
            r.wiz_password@.len() == 0 && r.aux_flags@ == 0 && r.client_signature@ == seq![0u8, 0u8, 0u8, 0u8, 0u8, 0u8],
            r.puid_ctr == 0 && r.puid_crc == 0 && r.demo_elapsed == 0 && r.total_elapsed == 0 && r.demo_limit == 0,
            r.ul_requested_protocol_version == 0 && r.ul_upload_caps@ == 0 && r.ul_download_caps@ == 0,
            r.ul_2d_engine_caps@ == 0 && r.ul_2d_graphics_caps@ == 0 && r.ul_3d_engine_caps@ == 0,
    {
        Self::new_registered(user_name, 0, 0, desired_room)
    }

    /// A registered user's record: the name, registration CRC and counter,
    /// and the room; everything else empty.
    pub fn new_registered(user_name: &str, crc: u32, counter: u32, desired_room: i16) -> (r: AuxRegistrationRec)
        ensures
            r.user_name@ == user_name@ && r.desired_room == desired_room && r.crc == crc && r.counter == counter,
            r.wiz_password@.len() == 0 && r.aux_flags@ == 0 && r.client_signature@ == seq![0u8, 0u8, 0u8, 0u8, 0u8, 0u8],
            r.puid_ctr == 0 && r.puid_crc == 0 && r.demo_elapsed == 0 && r.total_elapsed == 0 && r.demo_limit == 0,
            r.ul_requested_protocol_version == 0 && r.ul_upload_caps@ == 0 && r.ul_download_caps@ == 0,
            r.ul_2d_engine_caps@ == 0 && r.ul_2d_graphics_caps@ == 0 && r.ul_3d_engine_caps@ == 0,
    {
        let sig: [u8; 6] = [0, 0, 0, 0, 0, 0];
        assert(sig@ =~= seq![0u8, 0u8, 0u8, 0u8, 0u8, 0u8]);
        AuxRegistrationRec {
            crc,
            counter,
            user_name: string_from(user_name),
            wiz_password: String::new(),
            aux_flags: AuxFlags::empty(),
            puid_ctr: 0,
            puid_crc: 0,
            demo_elapsed: 0,
            total_elapsed: 0,
            demo_limit: 0,
            desired_room,
            client_signature: sig,
            ul_requested_protocol_version: 0,
            ul_upload_caps: UploadCaps::empty(),
            ul_download_caps: DownloadCaps::empty(),
            ul_2d_engine_caps: Engine2DCaps::empty(),
            ul_2d_graphics_caps: Graphics2DCaps::empty(),
            ul_3d_engine_caps: Engine3DCaps::empty(),
        }
    }

    /// Reads a record at the start of `data`: fewer than 128 bytes is
    /// `UnexpectedEof`; a name field that does not hold a name fails as
    /// the field does; the capability sets keep their defined bits.
    pub fn from_bytes(data: &[u8]) -> (r: Result<AuxRegistrationRec, WireError>)
        ensures
            data@.len() < 128 ==> (r matches Err(e) && e.kind == ErrorKind::UnexpectedEof),
            data@.len() >= 128 ==> match (spec_get_fixed_str(data@, 8, 31), spec_get_fixed_str(data@, 40, 31)) {
                (Ok((u, _)), Ok((w, _))) => r matches Ok(rec) && rec.user_name@ == u && rec.wiz_password@ == w
                    && aux_fields_at(rec, data@, 0)
                    && rec.aux_flags@ == u32_at(data@, 72) & AuxFlags::spec_all_bits()
                    && rec.ul_upload_caps@ == u32_at(data@, 108) & UploadCaps::spec_all_bits()
                    && rec.ul_download_caps@ == u32_at(data@, 112) & DownloadCaps::spec_all_bits()
                    && rec.ul_2d_engine_caps@ == u32_at(data@, 116) & Engine2DCaps::spec_all_bits()
                    && rec.ul_2d_graphics_caps@ == u32_at(data@, 120) & Graphics2DCaps::spec_all_bits()
                    && rec.ul_3d_engine_caps@ == u32_at(data@, 124) & Engine3DCaps::spec_all_bits(),
                (Err(k), _) => r matches Err(e) && e.kind == k,
                (Ok(_), Err(k)) => r matches Err(e) && e.kind == k,
            },
    {
        if data.len() < 128 {
            return Err(WireError::new(ErrorKind::UnexpectedEof));
        }
        let crc = read_u32(data, 0);
        let counter = read_u32(data, 4);
        let user_name = match get_str31(data, 8) {
            Ok((s, _)) => s,
            Err(e) => {
                return Err(e);
            },
        };
        let wiz_password = match get_str31(data, 40) {
            Ok((s, _)) => s,
            Err(e) => {
                return Err(e);
            },
        };
        let aux_flags = AuxFlags::from_bits_truncate(read_u32(data, 72));
        let puid_ctr = read_u32(data, 76);
        let puid_crc = read_u32(data, 80);
        let demo_elapsed = read_u32(data, 84);
        let total_elapsed = read_u32(data, 88);
        let demo_limit = read_u32(data, 92);
        let desired_room = read_i16(data, 96);
        let client_signature: [u8; 6] = [
            read_u8(data, 98), read_u8(data, 99), read_u8(data, 100),
            read_u8(data, 101), read_u8(data, 102), read_u8(data, 103),
        ];
        assert(client_signature@ =~= data@.subrange(98, 104));
        let ul_requested_protocol_version = read_u32(data, 104);
        let ul_upload_caps = UploadCaps::from_bits_truncate(read_u32(data, 108));
        let ul_download_caps = DownloadCaps::from_bits_truncate(read_u32(data, 112));
        let ul_2d_engine_caps = Engine2DCaps::from_bits_truncate(read_u32(data, 116));
        let ul_2d_graphics_caps = Graphics2DCaps::from_bits_truncate(read_u32(data, 120));
        let ul_3d_engine_caps = Engine3DCaps::from_bits_truncate(read_u32(data, 124));
        Ok(AuxRegistrationRec {
            crc,
            counter,
            user_name,
            wiz_password,
            aux_flags,
            puid_ctr,
            puid_crc,
            demo_elapsed,
            total_elapsed,
            demo_limit,
            desired_room,
            client_signature,
            ul_requested_protocol_version,
            ul_upload_caps,
            ul_download_caps,
            ul_2d_engine_caps,
            ul_2d_graphics_caps,
            ul_3d_engine_caps,
        })
    }

    /// Writes the record; each name must fit its 31-byte field.
    pub fn to_bytes(&self, buf: &mut Vec<u8>)
        requires
            fixed_str_fits(self.user_name@, 31),
            fixed_str_fits(self.wiz_password@, 31),
        ensures
            final(buf)@ == old(buf)@ + aux_bytes(*self),
    {
        write_u32(buf, self.crc);
        write_u32(buf, self.counter);
        put_str31(buf, &self.user_name);
        put_str31(buf, &self.wiz_password);
        write_u32(buf, self.aux_flags.bits());
        write_u32(buf, self.puid_ctr);
        write_u32(buf, self.puid_crc);
        write_u32(buf, self.demo_elapsed);
        write_u32(buf, self.total_elapsed);
        write_u32(buf, self.demo_limit);
        write_i16(buf, self.desired_room);
        write_bytes(buf, &self.client_signature);
        write_u32(buf, self.ul_requested_protocol_version);
        write_u32(buf, self.ul_upload_caps.bits());
        write_u32(buf, self.ul_download_caps.bits());
        write_u32(buf, self.ul_2d_engine_caps.bits());
        write_u32(buf, self.ul_2d_graphics_caps.bits());
        write_u32(buf, self.ul_3d_engine_caps.bits());
        assert(final(buf)@ =~= old(buf)@ + aux_bytes(*self));
    }
}

/// The logon message (`regi`).
#[derive(Debug, Clone, PartialEq, Eq)]
pub struct LogonMsg {
    pub rec: AuxRegistrationRec,
}

impl LogonMsg {
    /// The message carrying a record.
    pub fn new(rec: AuxRegistrationRec) -> (m: LogonMsg)
        ensures
            m.rec == rec,
    {
        LogonMsg { rec }
    }

    /// A guest's logon (see `AuxRegistrationRec::new_guest`).
    pub fn guest(user_name: &str, desired_room: i16) -> (m: LogonMsg)
        ensures
            m.rec.user_name@ == user_name@ && m.rec.desired_room == desired_room && m.rec.crc == 0 && m.rec.counter == 0,
    {
        LogonMsg { rec: AuxRegistrationRec::new_guest(user_name, desired_room) }
    }

    /// A registered user's logon (see `AuxRegistrationRec::new_registered`).
    pub fn registered(user_name: &str, crc: u32, counter: u32, desired_room: i16) -> (m: LogonMsg)
        ensures
            m.rec.user_name@ == user_name@ && m.rec.desired_room == desired_room && m.rec.crc == crc
                && m.rec.counter == counter,
    {
        LogonMsg { rec: AuxRegistrationRec::new_registered(user_name, crc, counter, desired_room) }
    }

    /// Reads the message: its record.
    pub fn from_bytes(data: &[u8]) -> (r: Result<LogonMsg, WireError>)
        ensures
            AuxRegistrationRec::from_bytes_spec(data@) ==> (r matches Ok(m) && aux_read(data@, m.rec)),
            !AuxRegistrationRec::from_bytes_spec(data@) ==> (r matches Err(e) && e.kind == aux_error(data@)),
    {
        match AuxRegistrationRec::from_bytes(data) {
            Ok(rec) => Ok(LogonMsg { rec }),
            Err(e) => Err(e),
        }
    }

    /// Writes the message: its record.
    pub fn to_bytes(&self, buf: &mut Vec<u8>)
        requires
            fixed_str_fits(self.rec.user_name@, 31),
            fixed_str_fits(self.rec.wiz_password@, 31),
        ensures
            final(buf)@ == old(buf)@ + aux_bytes(self.rec),
    {
        self.rec.to_bytes(buf);
    }
}

impl AuxRegistrationRec {
    /// Whether a record can be read from the start of `s`.
    pub open spec fn from_bytes_spec(s: Seq<u8>) -> bool {
        s.len() >= 128 && spec_get_fixed_str(s, 8, 31) is Ok && spec_get_fixed_str(s, 40, 31) is Ok
    }
}

/// Whether `rec` is the record read from the start of `s`: the two names
/// at offsets 8 and 40, the fixed fields, and the flag and capability sets
/// with their undefined bits dropped.
pub open spec fn aux_read(s: Seq<u8>, rec: AuxRegistrationRec) -> bool {
    &&& s.len() >= 128
    &&& spec_get_fixed_str(s, 8, 31) matches Ok((u, _)) && rec.user_name@ == u
    &&& spec_get_fixed_str(s, 40, 31) matches Ok((w, _)) && rec.wiz_password@ == w
    &&& aux_fields_at(rec, s, 0)
    &&& rec.aux_flags@ == u32_at(s, 72) & AuxFlags::spec_all_bits()
    &&& rec.ul_upload_caps@ == u32_at(s, 108) & UploadCaps::spec_all_bits()
    &&& rec.ul_download_caps@ == u32_at(s, 112) & DownloadCaps::spec_all_bits()
    &&& rec.ul_2d_engine_caps@ == u32_at(s, 116) & Engine2DCaps::spec_all_bits()
    &&& rec.ul_2d_graphics_caps@ == u32_at(s, 120) & Graphics2DCaps::spec_all_bits()
    &&& rec.ul_3d_engine_caps@ == u32_at(s, 124) & Engine3DCaps::spec_all_bits()
}

/// Why a record cannot be read from the start of `s`: too few bytes, or
/// the error of the first name that cannot be read.
pub open spec fn aux_error(s: Seq<u8>) -> ErrorKind {
    if s.len() < 128 {
        ErrorKind::UnexpectedEof
    } else {
        match spec_get_fixed_str(s, 8, 31) {
            Err(k) => k,
            Ok(_) => match spec_get_fixed_str(s, 40, 31) {
                Err(k) => k,
                Ok(_) => ErrorKind::UnexpectedEof,
            },
        }
    }
}

/// A record whose names are ASCII and fit their fields, and whose flag and
/// capability sets hold only defined bits, is read back from its 128
/// bytes as itself.
#[verifier::rlimit(60)]
pub proof fn lemma_aux_roundtrip(rec: AuxRegistrationRec)
    requires
        is_ascii_chars(rec.user_name@),
        is_ascii_chars(rec.wiz_password@),
        fixed_str_fits(rec.user_name@, 31),
        fixed_str_fits(rec.wiz_password@, 31),
        rec.aux_flags@ & AuxFlags::spec_all_bits() == rec.aux_flags@,
        rec.ul_upload_caps@ & UploadCaps::spec_all_bits() == rec.ul_upload_caps@,
        rec.ul_download_caps@ & DownloadCaps::spec_all_bits() == rec.ul_download_caps@,
        rec.ul_2d_engine_caps@ & Engine2DCaps::spec_all_bits() == rec.ul_2d_engine_caps@,
        rec.ul_2d_graphics_caps@ & Graphics2DCaps::spec_all_bits() == rec.ul_2d_graphics_caps@,
        rec.ul_3d_engine_caps@ & Engine3DCaps::spec_all_bits() == rec.ul_3d_engine_caps@,
    ensures
        aux_bytes(rec).len() == 128,
        AuxRegistrationRec::from_bytes_spec(aux_bytes(rec)),
        aux_read(aux_bytes(rec), rec),
{
    let s = aux_bytes(rec);
    assert(fixed_str_bytes(rec.user_name@, 31).len() == 32);
    assert(fixed_str_bytes(rec.wiz_password@, 31).len() == 32);
    assert(rec.client_signature@.len() == 6);
    assert(s.len() == 128);
    assert(s.subrange(0, 4) =~= u32_be(rec.crc));
    assert(s.subrange(4, 8) =~= u32_be(rec.counter));
    assert(s.subrange(8, 40) =~= fixed_str_bytes(rec.user_name@, 31));
    assert(s.subrange(40, 72) =~= fixed_str_bytes(rec.wiz_password@, 31));
    assert(s.subrange(72, 76) =~= u32_be(rec.aux_flags.bits));
    assert(s.subrange(76, 80) =~= u32_be(rec.puid_ctr));
    assert(s.subrange(80, 84) =~= u32_be(rec.puid_crc));
    assert(s.subrange(84, 88) =~= u32_be(rec.demo_elapsed));
    assert(s.subrange(88, 92) =~= u32_be(rec.total_elapsed));
    assert(s.subrange(92, 96) =~= u32_be(rec.demo_limit));
    assert(s.subrange(96, 98) =~= i16_be(rec.desired_room));
    assert(s.subrange(98, 104) =~= rec.client_signature@);
    assert(s.subrange(104, 108) =~= u32_be(rec.ul_requested_protocol_version));
    assert(s.subrange(108, 112) =~= u32_be(rec.ul_upload_caps.bits));
    assert(s.subrange(112, 116) =~= u32_be(rec.ul_download_caps.bits));
    assert(s.subrange(116, 120) =~= u32_be(rec.ul_2d_engine_caps.bits));
    assert(s.subrange(120, 124) =~= u32_be(rec.ul_2d_graphics_caps.bits));
    assert(s.subrange(124, 128) =~= u32_be(rec.ul_3d_engine_caps.bits));
    lemma_u32_in(s, 0, rec.crc);
    lemma_u32_in(s, 4, rec.counter);
    lemma_fixed_str_in(s, 8, rec.user_name@, 31);
    lemma_fixed_str_in(s, 40, rec.wiz_password@, 31);
    lemma_u32_in(s, 72, rec.aux_flags.bits);
    lemma_u32_in(s, 76, rec.puid_ctr);
    lemma_u32_in(s, 80, rec.puid_crc);
    lemma_u32_in(s, 84, rec.demo_elapsed);
    lemma_u32_in(s, 88, rec.total_elapsed);
    lemma_u32_in(s, 92, rec.demo_limit);
    lemma_i16_in(s, 96, rec.desired_room);
    lemma_u32_in(s, 104, rec.ul_requested_protocol_version);
    lemma_u32_in(s, 108, rec.ul_upload_caps.bits);
    lemma_u32_in(s, 112, rec.ul_download_caps.bits);
    lemma_u32_in(s, 116, rec.ul_2d_engine_caps.bits);
    lemma_u32_in(s, 120, rec.ul_2d_graphics_caps.bits);
    lemma_u32_in(s, 124, rec.ul_3d_engine_caps.bits);
}

/// The server's reply to a logon (`rep2`), with the record as it stands.
#[derive(Debug, Clone, PartialEq, Eq)]
pub struct AltLogonReplyMsg {
    pub rec: AuxRegistrationRec,
}

impl AltLogonReplyMsg {
    /// The message carrying a record.
    pub fn new(rec: AuxRegistrationRec) -> (m: AltLogonReplyMsg)
        ensures
            m.rec == rec,
    {
        AltLogonReplyMsg { rec }
    }

    /// Reads the message: its record.
    pub fn from_bytes(data: &[u8]) -> (r: Result<AltLogonReplyMsg, WireError>)
        ensures
            AuxRegistrationRec::from_bytes_spec(data@) ==> (r matches Ok(m) && aux_read(data@, m.rec)),
            !AuxRegistrationRec::from_bytes_spec(data@) ==> (r matches Err(e) && e.kind == aux_error(data@)),
    {
        match AuxRegistrationRec::from_bytes(data) {
            Ok(rec) => Ok(AltLogonReplyMsg { rec }),
            Err(e) => Err(e),
        }
    }

    /// Writes the message: its record.
    pub fn to_bytes(&self, buf: &mut Vec<u8>)
        requires
            fixed_str_fits(self.rec.user_name@, 31),
            fixed_str_fits(self.rec.wiz_password@, 31),
        ensures
            final(buf)@ == old(buf)@ + aux_bytes(self.rec),
    {
        self.rec.to_bytes(buf);
    }
}


impl MessagePayload for AltLogonReplyMsg {
    open spec fn spec_message_id() -> MessageId {
        MessageId::AltLogonReply
    }

    open spec fn readable(data: Seq<u8>) -> bool {
        true
    }

    open spec fn read_is(data: Seq<u8>, r: Result<AltLogonReplyMsg, WireError>) -> bool {
        &&& (AuxRegistrationRec::from_bytes_spec(data) ==> (r matches Ok(m) && aux_read(data, m.rec)))
        &&& (!AuxRegistrationRec::from_bytes_spec(data) ==> (r matches Err(e) && e.kind == aux_error(data)))
    }

    open spec fn writable(&self) -> bool {
        (fixed_str_fits(self.rec.user_name@, 31)) && (fixed_str_fits(self.rec.wiz_password@, 31))
    }

    open spec fn payload_bytes(&self) -> Seq<u8> {
        aux_bytes(self.rec)
    }

    fn message_id() -> (id: MessageId) {
        MessageId::AltLogonReply
    }

    fn read_payload(data: &[u8]) -> (r: Result<AltLogonReplyMsg, WireError>) {
        AltLogonReplyMsg::from_bytes(data)
    }

    fn write_payload(&self, buf: &mut Vec<u8>) {
        self.to_bytes(buf)
    }
}

impl MessagePayload for LogonMsg {
    open spec fn spec_message_id() -> MessageId {
        MessageId::Logon
    }

    open spec fn readable(data: Seq<u8>) -> bool {
        true
    }

    open spec fn read_is(data: Seq<u8>, r: Result<LogonMsg, WireError>) -> bool {
        &&& (AuxRegistrationRec::from_bytes_spec(data) ==> (r matches Ok(m) && aux_read(data, m.rec)))
        &&& (!AuxRegistrationRec::from_bytes_spec(data) ==> (r matches Err(e) && e.kind == aux_error(data)))
    }

    open spec fn writable(&self) -> bool {
        (fixed_str_fits(self.rec.user_name@, 31)) && (fixed_str_fits(self.rec.wiz_password@, 31))
    }

    open spec fn payload_bytes(&self) -> Seq<u8> {
        aux_bytes(self.rec)
    }

    fn message_id() -> (id: MessageId) {
        MessageId::Logon
    }

    fn read_payload(data: &[u8]) -> (r: Result<LogonMsg, WireError>) {
        LogonMsg::from_bytes(data)
    }

    fn write_payload(&self, buf: &mut Vec<u8>) {
        self.to_bytes(buf)
    }
}


impl MessagePayload for TiyidMsg {
    open spec fn spec_message_id() -> MessageId {
        MessageId::Tiyid
    }

    open spec fn readable(data: Seq<u8>) -> bool {
        true
    }

    open spec fn read_is(data: Seq<u8>, r: Result<TiyidMsg, WireError>) -> bool {
        r is Ok
    }

    open spec fn writable(&self) -> bool {
        true
    }

    open spec fn payload_bytes(&self) -> Seq<u8> {
        Seq::empty()
    }

    fn message_id() -> (id: MessageId) {
        MessageId::Tiyid
    }

    /// The message carries nothing: any bytes read as it.
    fn read_payload(data: &[u8]) -> (r: Result<TiyidMsg, WireError>) {
        Ok(TiyidMsg)
    }

    fn write_payload(&self, buf: &mut Vec<u8>) {
        assert(buf@ =~= old(buf)@ + Seq::<u8>::empty());
    }
}

} // verus!
