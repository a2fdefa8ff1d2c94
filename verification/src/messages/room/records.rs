//! The records that describe a room: loose props, picture layers,
//! hotspots and the room itself.
//!
//! Each record has a fixed layout of big-endian fields; a room record is
//! followed by its variable buffer, which holds the strings, points and
//! arrays that the offsets of the records point into.
use vstd::prelude::*;
use crate::buffer::{
    i16_at, i16_be, i32_at, i32_be, lemma_i16_in, lemma_i32_in, read_i16, read_i32, write_i16,
    write_i32, write_zeros, ErrorKind, WireError, copy_range, write_bytes, get_pstring,
    spec_get_pstring,
};
use crate::messages::flags::RoomFlags;
use crate::room::{hotspot_state_number, hotspot_type_number, HotspotState, HotspotType};
use crate::{AssetSpec, Point};

verus! {

broadcast use vstd::seq_lib::group_seq_properties;

/// The bytes `[o, o + w)` of `b`, where `b` stands at `p` in `s`, stand at
/// `p + o` in `s`.
proof fn lemma_part(s: Seq<u8>, p: int, b: Seq<u8>, o: int, w: int)
    requires
        0 <= p,
        p + b.len() <= s.len(),
        s.subrange(p, p + b.len()) == b,
        0 <= o,
        0 <= w,
        o + w <= b.len(),
    ensures
        s.subrange(p + o, p + o + w) == b.subrange(o, o + w),
{
    assert(s.subrange(p + o, p + o + w) =~= b.subrange(o, o + w)) by {
        assert forall|i: int| 0 <= i < w implies #[trigger] s.subrange(p + o, p + o + w)[i] == b.subrange(o, o + w)[i] by {
            assert(s.subrange(p, p + b.len())[o + i] == s[p + o + i]);
        }
    }
}

proof fn lemma_i16_part(s: Seq<u8>, p: int, b: Seq<u8>, o: int, v: i16)
    requires
        0 <= p,
        p + b.len() <= s.len(),
        s.subrange(p, p + b.len()) == b,
        0 <= o,
        o + 2 <= b.len(),
        b.subrange(o, o + 2) == i16_be(v),
    ensures
        i16_at(s, p + o) == v,
{
    lemma_part(s, p, b, o, 2);
    lemma_i16_in(s, p + o, v);
}

proof fn lemma_i32_part(s: Seq<u8>, p: int, b: Seq<u8>, o: int, v: i32)
    requires
        0 <= p,
        p + b.len() <= s.len(),
        s.subrange(p, p + b.len()) == b,
        0 <= o,
        o + 4 <= b.len(),
        b.subrange(o, o + 4) == i32_be(v),
    ensures
        i32_at(s, p + o) == v,
{
    lemma_part(s, p, b, o, 4);
    lemma_i32_in(s, p + o, v);
}

// ---------------------------------------------------------------------------
// Picture records
// ---------------------------------------------------------------------------

/// A picture layer of a room: 12 bytes.
#[derive(Debug, Clone, PartialEq)]
pub struct PictureRec {
    /// Free for the client's use.
    pub ref_con: i32,
    /// Picture ID.
    pub pic_id: i16,
    /// Offset of the picture's name (a Pascal string) in the variable buffer.
    pub pic_name_ofst: i16,
    /// Transparent colour.
    pub trans_color: i16,
}

impl PictureRec {
    /// Size on the wire.
    pub const SIZE: usize = 12;

    /// The record whose bytes stand at `p`.
    pub open spec fn spec_at(s: Seq<u8>, p: int) -> PictureRec {
        PictureRec { ref_con: i32_at(s, p), pic_id: i16_at(s, p + 4), pic_name_ofst: i16_at(s, p + 6), trans_color: i16_at(s, p + 8) }
    }

    /// The bytes of the record: its fields and two zero bytes.
    pub open spec fn spec_bytes(self) -> Seq<u8> {
        i32_be(self.ref_con) + i16_be(self.pic_id) + i16_be(self.pic_name_ofst) + i16_be(self.trans_color) + seq![0u8, 0u8]
    }

    /// Reads the record at `pos`; fewer than 12 bytes there is `UnexpectedEof`.
    pub fn parse_at(data: &[u8], pos: usize) -> (r: Result<(PictureRec, usize), WireError>)
        ensures
            match r {
                Ok((v, np)) => pos + 12 <= data@.len() && v == Self::spec_at(data@, pos as int) && np == pos + 12,
                Err(e) => pos + 12 > data@.len() && e.kind == ErrorKind::UnexpectedEof,
            },
    {
        if pos > data.len() || data.len() - pos < 12 {
            return Err(WireError::new(ErrorKind::UnexpectedEof));
        }
        let v = PictureRec {
            ref_con: read_i32(data, pos),
            pic_id: read_i16(data, pos + 4),
            pic_name_ofst: read_i16(data, pos + 6),
            trans_color: read_i16(data, pos + 8),
        };
        Ok((v, pos + 12))
    }

    /// Reads the record at the start of `data`.
    pub fn from_bytes(data: &[u8]) -> (r: Result<PictureRec, WireError>)
        ensures
            match r {
                Ok(v) => 12 <= data@.len() && v == Self::spec_at(data@, 0),
                Err(e) => data@.len() < 12 && e.kind == ErrorKind::UnexpectedEof,
            },
    {
        match Self::parse_at(data, 0) {
            Ok((v, _)) => Ok(v),
            Err(e) => Err(e),
        }
    }

    /// Appends the record's bytes.
    pub fn to_bytes(&self, buf: &mut Vec<u8>)
        ensures
            final(buf)@ == old(buf)@ + self.spec_bytes(),
    {
        write_i32(buf, self.ref_con);
        write_i16(buf, self.pic_id);
        write_i16(buf, self.pic_name_ofst);
        write_i16(buf, self.trans_color);
        write_zeros(buf, 2);
        assert(final(buf)@ =~= old(buf)@ + self.spec_bytes());
    }

    /// A record is read back from where its bytes stand.
    pub proof fn lemma_read_back(self, s: Seq<u8>, p: int)
        requires
            0 <= p,
            p + 12 <= s.len(),
            s.subrange(p, p + 12) == self.spec_bytes(),
        ensures
            Self::spec_at(s, p) == self,
    {
        let b = self.spec_bytes();
        assert(b.subrange(0, 4) =~= i32_be(self.ref_con));
        assert(b.subrange(4, 6) =~= i16_be(self.pic_id));
        assert(b.subrange(6, 8) =~= i16_be(self.pic_name_ofst));
        assert(b.subrange(8, 10) =~= i16_be(self.trans_color));
        lemma_i32_part(s, p, b, 0, self.ref_con);
        lemma_i16_part(s, p, b, 4, self.pic_id);
        lemma_i16_part(s, p, b, 6, self.pic_name_ofst);
        lemma_i16_part(s, p, b, 8, self.trans_color);
    }
}

// ---------------------------------------------------------------------------
// Loose props
// ---------------------------------------------------------------------------

/// A loose prop in a room: 26 bytes (four bytes of padding first).
#[derive(Debug, Clone, PartialEq)]
pub struct LPropRec {
    /// The prop's asset.
    pub prop_spec: AssetSpec,
    /// Prop behaviour flags.
    pub flags: i32,
    /// Free for the client's use.
    pub ref_con: i32,
    /// Where the prop is shown.
    pub loc: Point,
}

impl LPropRec {
    /// Size on the wire.
    pub const SIZE: usize = 26;

    /// The record whose bytes stand at `p`.
    pub open spec fn spec_at(s: Seq<u8>, p: int) -> LPropRec {
        LPropRec {
            prop_spec: AssetSpec::spec_at(s, p + 4),
            flags: i32_at(s, p + 14),
            ref_con: i32_at(s, p + 18),
            loc: Point::spec_at(s, p + 22),
        }
    }

    /// The bytes of the record: four zero bytes, then its fields.
    pub open spec fn spec_bytes(self) -> Seq<u8> {
        seq![0u8, 0u8, 0u8, 0u8] + self.prop_spec.spec_bytes() + i32_be(self.flags) + i32_be(self.ref_con) + self.loc.spec_bytes()
    }

    /// Reads the record at `pos`; fewer than 26 bytes there is `UnexpectedEof`.
    pub fn parse_at(data: &[u8], pos: usize) -> (r: Result<(LPropRec, usize), WireError>)
        ensures
            match r {
                Ok((v, np)) => pos + 26 <= data@.len() && v == Self::spec_at(data@, pos as int) && np == pos + 26,
                Err(e) => pos + 26 > data@.len() && e.kind == ErrorKind::UnexpectedEof,
            },
    {
        if pos > data.len() || data.len() - pos < 26 {
            return Err(WireError::new(ErrorKind::UnexpectedEof));
        }
        let v = LPropRec {
            prop_spec: AssetSpec::read_at(data, pos + 4),
            flags: read_i32(data, pos + 14),
            ref_con: read_i32(data, pos + 18),
            loc: Point::read_at(data, pos + 22),
        };
        Ok((v, pos + 26))
    }

    /// Reads the record at the start of `data`.
    pub fn from_bytes(data: &[u8]) -> (r: Result<LPropRec, WireError>)
        ensures
            match r {
                Ok(v) => 26 <= data@.len() && v == Self::spec_at(data@, 0),
                Err(e) => data@.len() < 26 && e.kind == ErrorKind::UnexpectedEof,
            },
    {
        match Self::parse_at(data, 0) {
            Ok((v, _)) => Ok(v),
            Err(e) => Err(e),
        }
    }

    /// Appends the record's bytes.
    pub fn to_bytes(&self, buf: &mut Vec<u8>)
        ensures
            final(buf)@ == old(buf)@ + self.spec_bytes(),
    {
        write_zeros(buf, 4);
        self.prop_spec.to_bytes(buf);
        write_i32(buf, self.flags);
        write_i32(buf, self.ref_con);
        self.loc.to_bytes(buf);
        assert(final(buf)@ =~= old(buf)@ + self.spec_bytes());
    }

    /// A record is read back from where its bytes stand.
    pub proof fn lemma_read_back(self, s: Seq<u8>, p: int)
        requires
            0 <= p,
            p + 26 <= s.len(),
            s.subrange(p, p + 26) == self.spec_bytes(),
        ensures
            Self::spec_at(s, p) == self,
    {
        let b = self.spec_bytes();
        assert(b.subrange(4, 14) =~= self.prop_spec.spec_bytes());
        assert(b.subrange(14, 18) =~= i32_be(self.flags));
        assert(b.subrange(18, 22) =~= i32_be(self.ref_con));
        assert(b.subrange(22, 26) =~= self.loc.spec_bytes());
        lemma_part(s, p, b, 4, 10);
        lemma_part(s, p, b, 22, 4);
        self.prop_spec.lemma_read_back(s, p + 4);
        self.loc.lemma_read_back(s, p + 22);
        lemma_i32_part(s, p, b, 14, self.flags);
        lemma_i32_part(s, p, b, 18, self.ref_con);
    }
}


// ---------------------------------------------------------------------------
// Hotspots
// ---------------------------------------------------------------------------

/// The hotspot kind with a wire number.
pub open spec fn hotspot_type_of(n: i16) -> Option<HotspotType> {
    if n == 0 { Some(HotspotType::Normal) }
    else if n == 1 { Some(HotspotType::Door) }
    else if n == 2 { Some(HotspotType::ShutableDoor) }
    else if n == 3 { Some(HotspotType::LockableDoor) }
    else if n == 4 { Some(HotspotType::Bolt) }
    else if n == 5 { Some(HotspotType::NavArea) }
    else { None }
}

/// The hotspot state with a wire number.
pub open spec fn hotspot_state_of(n: i16) -> Option<HotspotState> {
    if n == 0 { Some(HotspotState::Unlocked) }
    else if n == 1 { Some(HotspotState::Locked) }
    else { None }
}

/// A clickable area of a room: 48 bytes, whose offsets point into the
/// room's variable buffer.
#[derive(Debug, Clone, PartialEq)]
pub struct Hotspot {
    /// The script events the hotspot answers.
    pub script_event_mask: i32,
    /// Behaviour flags.
    pub flags: i32,
    /// Security information.
    pub secure_info: i32,
    /// Free for the client's use.
    pub ref_con: i32,
    /// Location.
    pub loc: Point,
    /// Hotspot ID.
    pub id: i16,
    /// Destination room (doors).
    pub dest: i16,
    /// Number of outline points.
    pub nbr_pts: i16,
    /// Offset of the outline points.
    pub pts_ofst: i16,
    /// Kind of hotspot.
    pub hotspot_type: HotspotType,
    /// Group of related hotspots.
    pub group_id: i16,
    /// Number of scripts.
    pub nbr_scripts: i16,
    /// Offset of the script records.
    pub script_rec_ofst: i16,
    /// Current state.
    pub state: HotspotState,
    /// Number of states.
    pub nbr_states: i16,
    /// Offset of the state records.
    pub state_rec_ofst: i16,
    /// Offset of the name (a Pascal string).
    pub name_ofst: i16,
    /// Offset of the script text (a Pascal string).
    pub script_text_ofst: i16,
}

impl Hotspot {
    /// Size on the wire.
    pub const SIZE: usize = 48;

    /// Reading the hotspot whose 48 bytes stand at `p`: its kind and state
    /// must be known numbers, else the data is invalid.
    pub open spec fn spec_parse(s: Seq<u8>, p: int) -> Result<Hotspot, ErrorKind> {
        match (hotspot_type_of(i16_at(s, p + 28)), hotspot_state_of(i16_at(s, p + 36))) {
            (Some(t), Some(st)) => Ok(Hotspot {
                script_event_mask: i32_at(s, p),
                flags: i32_at(s, p + 4),
                secure_info: i32_at(s, p + 8),
                ref_con: i32_at(s, p + 12),
                loc: Point::spec_at(s, p + 16),
                id: i16_at(s, p + 20),
                dest: i16_at(s, p + 22),
                nbr_pts: i16_at(s, p + 24),
                pts_ofst: i16_at(s, p + 26),
                hotspot_type: t,
                group_id: i16_at(s, p + 30),
                nbr_scripts: i16_at(s, p + 32),
                script_rec_ofst: i16_at(s, p + 34),
                state: st,
                nbr_states: i16_at(s, p + 38),
                state_rec_ofst: i16_at(s, p + 40),
                name_ofst: i16_at(s, p + 42),
                script_text_ofst: i16_at(s, p + 44),
            }),
            _ => Err(ErrorKind::InvalidData),
        }
    }

    /// The bytes of the hotspot: its fields and two zero bytes.
    pub open spec fn spec_bytes(self) -> Seq<u8> {
        i32_be(self.script_event_mask) + i32_be(self.flags) + i32_be(self.secure_info) + i32_be(self.ref_con)
            + self.loc.spec_bytes() + i16_be(self.id) + i16_be(self.dest) + i16_be(self.nbr_pts)
            + i16_be(self.pts_ofst) + i16_be(hotspot_type_number(self.hotspot_type)) + i16_be(self.group_id)
            + i16_be(self.nbr_scripts) + i16_be(self.script_rec_ofst) + i16_be(hotspot_state_number(self.state))
            + i16_be(self.nbr_states) + i16_be(self.state_rec_ofst) + i16_be(self.name_ofst)
            + i16_be(self.script_text_ofst) + seq![0u8, 0u8]
    }

    /// Reads the hotspot at `pos`: `UnexpectedEof` when fewer than 48 bytes
    /// remain, `InvalidData` for an unknown kind or state.
    pub fn parse_at(data: &[u8], pos: usize) -> (r: Result<(Hotspot, usize), WireError>)
        ensures
            pos + 48 > data@.len() ==> (r matches Err(e) && e.kind == ErrorKind::UnexpectedEof),
            pos + 48 <= data@.len() ==> match Self::spec_parse(data@, pos as int) {
                Ok(h) => r == Ok::<(Hotspot, usize), WireError>((h, (pos + 48) as usize)),
                Err(k) => r matches Err(e) && e.kind == k,
            },
    {
        if pos > data.len() || data.len() - pos < 48 {
            return Err(WireError::new(ErrorKind::UnexpectedEof));
        }
        let type_raw = read_i16(data, pos + 28);
        let state_raw = read_i16(data, pos + 36);
        let hotspot_type = match HotspotType::from_i16(type_raw) {
            Some(t) => t,
            None => {
                return Err(WireError::new(ErrorKind::InvalidData));
            },
        };
        let state = match HotspotState::from_i16(state_raw) {
            Some(st) => st,
            None => {
                return Err(WireError::new(ErrorKind::InvalidData));
            },
        };
        let h = Hotspot {
            script_event_mask: read_i32(data, pos),
            flags: read_i32(data, pos + 4),
            secure_info: read_i32(data, pos + 8),
            ref_con: read_i32(data, pos + 12),
            loc: Point::read_at(data, pos + 16),
            id: read_i16(data, pos + 20),
            dest: read_i16(data, pos + 22),
            nbr_pts: read_i16(data, pos + 24),
            pts_ofst: read_i16(data, pos + 26),
            hotspot_type,
            group_id: read_i16(data, pos + 30),
            nbr_scripts: read_i16(data, pos + 32),
            script_rec_ofst: read_i16(data, pos + 34),
            state,
            nbr_states: read_i16(data, pos + 38),
            state_rec_ofst: read_i16(data, pos + 40),
            name_ofst: read_i16(data, pos + 42),
            script_text_ofst: read_i16(data, pos + 44),
        };
        Ok((h, pos + 48))
    }

    /// Reads the hotspot at the start of `data`.
    pub fn from_bytes(data: &[u8]) -> (r: Result<Hotspot, WireError>)
        ensures
            data@.len() < 48 ==> (r matches Err(e) && e.kind == ErrorKind::UnexpectedEof),
            data@.len() >= 48 ==> match Self::spec_parse(data@, 0) {
                Ok(h) => r == Ok::<Hotspot, WireError>(h),
                Err(k) => r matches Err(e) && e.kind == k,
            },
    {
        match Self::parse_at(data, 0) {
            Ok((h, _)) => Ok(h),
            Err(e) => Err(e),
        }
    }

    /// Appends the hotspot's bytes.
    pub fn to_bytes(&self, buf: &mut Vec<u8>)
        ensures
            final(buf)@ == old(buf)@ + self.spec_bytes(),
    {
        write_i32(buf, self.script_event_mask);
        write_i32(buf, self.flags);
        write_i32(buf, self.secure_info);
        write_i32(buf, self.ref_con);
        self.loc.to_bytes(buf);
        write_i16(buf, self.id);
        write_i16(buf, self.dest);
        write_i16(buf, self.nbr_pts);
        write_i16(buf, self.pts_ofst);
        write_i16(buf, self.hotspot_type.as_i16());
        write_i16(buf, self.group_id);
        write_i16(buf, self.nbr_scripts);
        write_i16(buf, self.script_rec_ofst);
        write_i16(buf, self.state.as_i16());
        write_i16(buf, self.nbr_states);
        write_i16(buf, self.state_rec_ofst);
        write_i16(buf, self.name_ofst);
        write_i16(buf, self.script_text_ofst);
        write_zeros(buf, 2);
        assert(final(buf)@ =~= old(buf)@ + self.spec_bytes());
    }

    /// A hotspot is read back from where its bytes stand.
    #[verifier::rlimit(40)]
    pub proof fn lemma_read_back(self, s: Seq<u8>, p: int)
        requires
            0 <= p,
            p + 48 <= s.len(),
            s.subrange(p, p + 48) == self.spec_bytes(),
        ensures
            Self::spec_parse(s, p) == Ok::<Hotspot, ErrorKind>(self),
    {
        let b = self.spec_bytes();
        assert(b.subrange(0, 4) =~= i32_be(self.script_event_mask));
        assert(b.subrange(4, 8) =~= i32_be(self.flags));
        assert(b.subrange(8, 12) =~= i32_be(self.secure_info));
        assert(b.subrange(12, 16) =~= i32_be(self.ref_con));
        assert(b.subrange(16, 20) =~= self.loc.spec_bytes());
        assert(b.subrange(20, 22) =~= i16_be(self.id));
        assert(b.subrange(22, 24) =~= i16_be(self.dest));
        assert(b.subrange(24, 26) =~= i16_be(self.nbr_pts));
        assert(b.subrange(26, 28) =~= i16_be(self.pts_ofst));
        assert(b.subrange(28, 30) =~= i16_be(hotspot_type_number(self.hotspot_type)));
        assert(b.subrange(30, 32) =~= i16_be(self.group_id));
        assert(b.subrange(32, 34) =~= i16_be(self.nbr_scripts));
        assert(b.subrange(34, 36) =~= i16_be(self.script_rec_ofst));
        assert(b.subrange(36, 38) =~= i16_be(hotspot_state_number(self.state)));
        assert(b.subrange(38, 40) =~= i16_be(self.nbr_states));
        assert(b.subrange(40, 42) =~= i16_be(self.state_rec_ofst));
        assert(b.subrange(42, 44) =~= i16_be(self.name_ofst));
        assert(b.subrange(44, 46) =~= i16_be(self.script_text_ofst));
        lemma_i32_part(s, p, b, 0, self.script_event_mask);
        lemma_i32_part(s, p, b, 4, self.flags);
        lemma_i32_part(s, p, b, 8, self.secure_info);
        lemma_i32_part(s, p, b, 12, self.ref_con);
        lemma_part(s, p, b, 16, 4);
        self.loc.lemma_read_back(s, p + 16);
        lemma_i16_part(s, p, b, 20, self.id);
        lemma_i16_part(s, p, b, 22, self.dest);
        lemma_i16_part(s, p, b, 24, self.nbr_pts);
        lemma_i16_part(s, p, b, 26, self.pts_ofst);
        lemma_i16_part(s, p, b, 28, hotspot_type_number(self.hotspot_type));
        lemma_i16_part(s, p, b, 30, self.group_id);
        lemma_i16_part(s, p, b, 32, self.nbr_scripts);
        lemma_i16_part(s, p, b, 34, self.script_rec_ofst);
        lemma_i16_part(s, p, b, 36, hotspot_state_number(self.state));
        lemma_i16_part(s, p, b, 38, self.nbr_states);
        lemma_i16_part(s, p, b, 40, self.state_rec_ofst);
        lemma_i16_part(s, p, b, 42, self.name_ofst);
        lemma_i16_part(s, p, b, 44, self.script_text_ofst);
    }
}

// ---------------------------------------------------------------------------
// Room records
// ---------------------------------------------------------------------------

/// The length of the variable buffer that a room record's length field
/// announces: nothing when it is not positive.
pub open spec fn var_len(len_vars: i16) -> int {
    if len_vars > 0 { len_vars as int } else { 0 }
}

/// A complete room description: a 40-byte header followed by the
/// variable buffer that its offsets point into.
#[derive(Debug, Clone, PartialEq)]
pub struct RoomRec {
    /// Room attributes.
    pub room_flags: RoomFlags,
    /// Default face of the users in the room.
    pub faces_id: i32,
    /// Room ID.
    pub room_id: i16,
    /// Offset of the room name.
    pub room_name_ofst: i16,
    /// Offset of the background picture name.
    pub pict_name_ofst: i16,
    /// Offset of the artist name.
    pub artist_name_ofst: i16,
    /// Offset of the password.
    pub password_ofst: i16,
    /// Number of hotspots.
    pub nbr_hotspots: i16,
    /// Offset of the hotspot array.
    pub hotspot_ofst: i16,
    /// Number of pictures.
    pub nbr_pictures: i16,
    /// Offset of the picture array.
    pub picture_ofst: i16,
    /// Number of draw commands.
    pub nbr_draw_cmds: i16,
    /// Offset of the first draw command.
    pub first_draw_cmd: i16,
    /// Number of users in the room.
    pub nbr_people: i16,
    /// Number of loose props.
    pub nbr_lprops: i16,
    /// Offset of the loose prop array.
    pub first_lprop: i16,
    /// Length of the variable buffer.
    pub len_vars: i16,
    /// The variable buffer.
    pub var_buf: Vec<u8>,
}

impl RoomRec {
    /// Size of the fixed part on the wire.
    pub const HEADER_SIZE: usize = 40;

    /// The flags that a raw 32-bit field holds: its low 16 bits, with the
    /// undefined flags dropped.
    pub open spec fn flags_of(raw: i32) -> RoomFlags {
        RoomFlags { bits: (raw as u16) & 0x3ffu16 }
    }

    /// Whether the record's bytes fit from `p` on: the header and the
    /// announced variable buffer.
    pub open spec fn fits_at(s: Seq<u8>, p: int) -> bool {
        p + 40 <= s.len() && p + 40 + var_len(i16_at(s, p + 38)) <= s.len()
    }

    /// Whether `r` is the record whose bytes stand at `p`: its fields, and
    /// its variable buffer as the bytes that follow the header.
    pub open spec fn is_at(r: RoomRec, s: Seq<u8>, p: int) -> bool {
        &&& r.room_flags == Self::flags_of(i32_at(s, p))
        &&& r.faces_id == i32_at(s, p + 4)
        &&& r.room_id == i16_at(s, p + 8)
        &&& r.room_name_ofst == i16_at(s, p + 10)
        &&& r.pict_name_ofst == i16_at(s, p + 12)
        &&& r.artist_name_ofst == i16_at(s, p + 14)
        &&& r.password_ofst == i16_at(s, p + 16)
        &&& r.nbr_hotspots == i16_at(s, p + 18)
        &&& r.hotspot_ofst == i16_at(s, p + 20)
        &&& r.nbr_pictures == i16_at(s, p + 22)
        &&& r.picture_ofst == i16_at(s, p + 24)
        &&& r.nbr_draw_cmds == i16_at(s, p + 26)
        &&& r.first_draw_cmd == i16_at(s, p + 28)
        &&& r.nbr_people == i16_at(s, p + 30)
        &&& r.nbr_lprops == i16_at(s, p + 32)
        &&& r.first_lprop == i16_at(s, p + 34)
        &&& r.len_vars == i16_at(s, p + 38)
        &&& r.var_buf@ == s.subrange(p + 40, p + 40 + var_len(r.len_vars))
    }

    /// The bytes of the record: the header (flags as a 32-bit field, two
    /// zero bytes before the length) and the variable buffer.
    pub open spec fn spec_bytes(self) -> Seq<u8> {
        i32_be(self.room_flags.bits as i32) + i32_be(self.faces_id) + i16_be(self.room_id)
            + i16_be(self.room_name_ofst) + i16_be(self.pict_name_ofst) + i16_be(self.artist_name_ofst)
            + i16_be(self.password_ofst) + i16_be(self.nbr_hotspots) + i16_be(self.hotspot_ofst)
            + i16_be(self.nbr_pictures) + i16_be(self.picture_ofst) + i16_be(self.nbr_draw_cmds)
            + i16_be(self.first_draw_cmd) + i16_be(self.nbr_people) + i16_be(self.nbr_lprops)
            + i16_be(self.first_lprop) + seq![0u8, 0u8] + i16_be(self.len_vars) + self.var_buf@
    }

    /// Whether the record is consistent: its flags are defined ones and its
    /// length field is the length of its variable buffer.
    pub open spec fn consistent(self) -> bool {
        &&& self.room_flags.bits & !0x3ffu16 == 0
        &&& self.var_buf@.len() == var_len(self.len_vars)
    }

    /// Reads the record at `pos`: `UnexpectedEof` when the header or the
    /// announced variable buffer does not fit.
    pub fn parse_at(data: &[u8], pos: usize) -> (r: Result<(RoomRec, usize), WireError>)
        ensures
            match r {
                Ok((v, np)) => Self::fits_at(data@, pos as int) && Self::is_at(v, data@, pos as int)
                    && np == pos + 40 + var_len(v.len_vars),
                Err(e) => !Self::fits_at(data@, pos as int) && e.kind == ErrorKind::UnexpectedEof,
            },
    {
        if pos > data.len() || data.len() - pos < 40 {
            return Err(WireError::new(ErrorKind::UnexpectedEof));
        }
        let raw = read_i32(data, pos);
        let len_vars = read_i16(data, pos + 38);
        let start = pos + 40;
        let n: usize = if len_vars > 0 { len_vars as usize } else { 0 };
        if data.len() - start < n {
            return Err(WireError::new(ErrorKind::UnexpectedEof));
        }
        let var_buf = copy_range(data, start, start + n);
        let v = RoomRec {
            room_flags: RoomFlags::from_bits_truncate(raw as u16),
            faces_id: read_i32(data, pos + 4),
            room_id: read_i16(data, pos + 8),
            room_name_ofst: read_i16(data, pos + 10),
            pict_name_ofst: read_i16(data, pos + 12),
            artist_name_ofst: read_i16(data, pos + 14),
            password_ofst: read_i16(data, pos + 16),
            nbr_hotspots: read_i16(data, pos + 18),
            hotspot_ofst: read_i16(data, pos + 20),
            nbr_pictures: read_i16(data, pos + 22),
            picture_ofst: read_i16(data, pos + 24),
            nbr_draw_cmds: read_i16(data, pos + 26),
            first_draw_cmd: read_i16(data, pos + 28),
            nbr_people: read_i16(data, pos + 30),
            nbr_lprops: read_i16(data, pos + 32),
            first_lprop: read_i16(data, pos + 34),
            len_vars,
            var_buf,
        };
        Ok((v, start + n))
    }

    /// Reads the record at the start of `data`.
    pub fn from_bytes(data: &[u8]) -> (r: Result<RoomRec, WireError>)
        ensures
            match r {
                Ok(v) => Self::fits_at(data@, 0) && Self::is_at(v, data@, 0),
                Err(e) => !Self::fits_at(data@, 0) && e.kind == ErrorKind::UnexpectedEof,
            },
    {
        match Self::parse_at(data, 0) {
            Ok((v, _)) => Ok(v),
            Err(e) => Err(e),
        }
    }

    /// Appends the record's bytes.
    pub fn to_bytes(&self, buf: &mut Vec<u8>)
        ensures
            final(buf)@ == old(buf)@ + self.spec_bytes(),
    {
        write_i32(buf, self.room_flags.bits() as i32);
        write_i32(buf, self.faces_id);
        write_i16(buf, self.room_id);
        write_i16(buf, self.room_name_ofst);
        write_i16(buf, self.pict_name_ofst);
        write_i16(buf, self.artist_name_ofst);
        write_i16(buf, self.password_ofst);
        write_i16(buf, self.nbr_hotspots);
        write_i16(buf, self.hotspot_ofst);
        write_i16(buf, self.nbr_pictures);
        write_i16(buf, self.picture_ofst);
        write_i16(buf, self.nbr_draw_cmds);
        write_i16(buf, self.first_draw_cmd);
        write_i16(buf, self.nbr_people);
        write_i16(buf, self.nbr_lprops);
        write_i16(buf, self.first_lprop);
        write_zeros(buf, 2);
        write_i16(buf, self.len_vars);
        write_bytes(buf, self.var_buf.as_slice());
        assert(final(buf)@ =~= old(buf)@ + self.spec_bytes());
    }

    /// A consistent record is read back from where its bytes stand.
    #[verifier::rlimit(60)]
    pub proof fn lemma_read_back(self, s: Seq<u8>, p: int)
        requires
            self.consistent(),
            0 <= p,
            p + self.spec_bytes().len() <= s.len(),
            s.subrange(p, p + self.spec_bytes().len()) == self.spec_bytes(),
        ensures
            Self::fits_at(s, p),
            Self::is_at(self, s, p),
    {
        let b = self.spec_bytes();
        let bits = self.room_flags.bits;
        assert(b.subrange(0, 4) =~= i32_be(bits as i32));
        assert(b.subrange(4, 8) =~= i32_be(self.faces_id));
        assert(b.subrange(8, 10) =~= i16_be(self.room_id));
        assert(b.subrange(10, 12) =~= i16_be(self.room_name_ofst));
        assert(b.subrange(12, 14) =~= i16_be(self.pict_name_ofst));
        assert(b.subrange(14, 16) =~= i16_be(self.artist_name_ofst));
        assert(b.subrange(16, 18) =~= i16_be(self.password_ofst));
        assert(b.subrange(18, 20) =~= i16_be(self.nbr_hotspots));
        assert(b.subrange(20, 22) =~= i16_be(self.hotspot_ofst));
        assert(b.subrange(22, 24) =~= i16_be(self.nbr_pictures));
        assert(b.subrange(24, 26) =~= i16_be(self.picture_ofst));
        assert(b.subrange(26, 28) =~= i16_be(self.nbr_draw_cmds));
        assert(b.subrange(28, 30) =~= i16_be(self.first_draw_cmd));
        assert(b.subrange(30, 32) =~= i16_be(self.nbr_people));
        assert(b.subrange(32, 34) =~= i16_be(self.nbr_lprops));
        assert(b.subrange(34, 36) =~= i16_be(self.first_lprop));
        assert(b.subrange(38, 40) =~= i16_be(self.len_vars));
        assert(b.subrange(40, b.len() as int) =~= self.var_buf@);
        lemma_i32_part(s, p, b, 0, bits as i32);
        lemma_i32_part(s, p, b, 4, self.faces_id);
        lemma_i16_part(s, p, b, 8, self.room_id);
        lemma_i16_part(s, p, b, 10, self.room_name_ofst);
        lemma_i16_part(s, p, b, 12, self.pict_name_ofst);
        lemma_i16_part(s, p, b, 14, self.artist_name_ofst);
        lemma_i16_part(s, p, b, 16, self.password_ofst);
        lemma_i16_part(s, p, b, 18, self.nbr_hotspots);
        lemma_i16_part(s, p, b, 20, self.hotspot_ofst);
        lemma_i16_part(s, p, b, 22, self.nbr_pictures);
        lemma_i16_part(s, p, b, 24, self.picture_ofst);
        lemma_i16_part(s, p, b, 26, self.nbr_draw_cmds);
        lemma_i16_part(s, p, b, 28, self.first_draw_cmd);
        lemma_i16_part(s, p, b, 30, self.nbr_people);
        lemma_i16_part(s, p, b, 32, self.nbr_lprops);
        lemma_i16_part(s, p, b, 34, self.first_lprop);
        lemma_i16_part(s, p, b, 38, self.len_vars);
        lemma_part(s, p, b, 40, b.len() - 40);
        assert(((bits as i32) as u16) & 0x3ffu16 == bits) by (bit_vector)
            requires
                bits & !0x3ffu16 == 0u16;
    }

    /// The Pascal string at `offset` in the variable buffer: an offset
    /// outside the buffer is invalid data.
    fn get_pstring(&self, offset: i16) -> (r: Result<String, WireError>)
        ensures
            offset < 0 || offset >= self.var_buf@.len() ==> (r matches Err(e) && e.kind == ErrorKind::InvalidData),
            0 <= offset < self.var_buf@.len() ==> match spec_get_pstring(self.var_buf@, offset as int) {
                Ok((t, _)) => r matches Ok(v) && v@ == t,
                Err(k) => r matches Err(e) && e.kind == k,
            },
    {
        if offset < 0 || offset as usize >= self.var_buf.len() {
            return Err(WireError::new(ErrorKind::InvalidData));
        }
        match get_pstring(self.var_buf.as_slice(), offset as usize) {
            Ok((v, _)) => Ok(v),
            Err(e) => Err(e),
        }
    }

    /// The room name, from the variable buffer.
    pub fn room_name(&self) -> (r: Result<String, WireError>)
        ensures
            self.room_name_ofst < 0 || self.room_name_ofst >= self.var_buf@.len() ==> (r matches Err(e) && e.kind == ErrorKind::InvalidData),
            0 <= self.room_name_ofst < self.var_buf@.len() ==> match spec_get_pstring(self.var_buf@, self.room_name_ofst as int) {
                Ok((t, _)) => r matches Ok(v) && v@ == t,
                Err(k) => r matches Err(e) && e.kind == k,
            },
    {
        self.get_pstring(self.room_name_ofst)
    }

    /// The background picture name, from the variable buffer.
    pub fn pict_name(&self) -> (r: Result<String, WireError>)
        ensures
            self.pict_name_ofst < 0 || self.pict_name_ofst >= self.var_buf@.len() ==> (r matches Err(e) && e.kind == ErrorKind::InvalidData),
            0 <= self.pict_name_ofst < self.var_buf@.len() ==> match spec_get_pstring(self.var_buf@, self.pict_name_ofst as int) {
                Ok((t, _)) => r matches Ok(v) && v@ == t,
                Err(k) => r matches Err(e) && e.kind == k,
            },
    {
        self.get_pstring(self.pict_name_ofst)
    }

    /// The artist name, from the variable buffer.
    pub fn artist_name(&self) -> (r: Result<String, WireError>)
        ensures
            self.artist_name_ofst < 0 || self.artist_name_ofst >= self.var_buf@.len() ==> (r matches Err(e) && e.kind == ErrorKind::InvalidData),
            0 <= self.artist_name_ofst < self.var_buf@.len() ==> match spec_get_pstring(self.var_buf@, self.artist_name_ofst as int) {
                Ok((t, _)) => r matches Ok(v) && v@ == t,
                Err(k) => r matches Err(e) && e.kind == k,
            },
    {
        self.get_pstring(self.artist_name_ofst)
    }

    /// The room password, from the variable buffer.
    pub fn password(&self) -> (r: Result<String, WireError>)
        ensures
            self.password_ofst < 0 || self.password_ofst >= self.var_buf@.len() ==> (r matches Err(e) && e.kind == ErrorKind::InvalidData),
            0 <= self.password_ofst < self.var_buf@.len() ==> match spec_get_pstring(self.var_buf@, self.password_ofst as int) {
                Ok((t, _)) => r matches Ok(v) && v@ == t,
                Err(k) => r matches Err(e) && e.kind == k,
            },
    {
        self.get_pstring(self.password_ofst)
    }
}
} // verus!
