//! The Palace visual chat protocol: wire formats, protocol messages, props,
//! rooms and the Iptscrae scripting language.
//!
//! ```
//! use thepalace::{AssetSpec, Point};
//!
//! let origin = Point { v: 0, h: 0 };
//! let spec = AssetSpec { id: 1, crc: 0xA95ADE76 };
//! ```
use vstd::prelude::*;

pub mod asset_types;
pub mod buffer;
pub mod event_mask;
pub mod messages;
pub mod text;
pub mod iptscrae;
pub mod room;
pub mod prop;

pub use event_mask::EventMask;

use crate::buffer::{
    i16_at, i16_be, i32_at, i32_be, lemma_i16_in, lemma_i32_in, lemma_u32_in, read_i16, read_i32,
    read_u32, u32_at, u32_be, write_i16, write_i32, write_u32, write_zeros, ErrorKind, WireError,
};

verus! {

/// User ID type.
pub type UserID = i32;

/// Room ID type.
pub type RoomID = i16;

/// Hotspot ID type.
pub type HotspotID = i16;

/// A point in Mac-style coordinates: `v` grows downward, `h` rightward.
#[derive(Debug, Default, Clone, Copy, PartialEq, Eq, Hash)]
pub struct Point {
    /// Vertical coordinate (positive down).
    pub v: i16,
    /// Horizontal coordinate (positive right).
    pub h: i16,
}

/// The sum of two 16-bit values, held to the bounds of `i16`.
pub open spec fn saturate_i16(x: int) -> i16 {
    if x > i16::MAX {
        i16::MAX
    } else if x < i16::MIN {
        i16::MIN
    } else {
        x as i16
    }
}

fn saturating_i16(x: i32) -> (r: i16)
    ensures
        r == saturate_i16(x as int),
{
    if x > 32767 {
        32767
    } else if x < -32768 {
        -32768
    } else {
        x as i16
    }
}

impl Point {
    /// Size of a point on the wire.
    pub const SIZE: usize = 4;

    /// A point at the given coordinates.
    pub fn new(h: i16, v: i16) -> (p: Point)
        ensures
            p.h == h && p.v == v,
    {
        Point { v, h }
    }

    /// The origin (0, 0).
    pub fn origin() -> (p: Point)
        ensures
            p.h == 0 && p.v == 0,
    {
        Point { v: 0, h: 0 }
    }

    /// Vector addition, each coordinate held to the range of `i16`.
    pub fn add(&self, other: &Point) -> (p: Point)
        ensures
            p.v == saturate_i16(self.v + other.v),
            p.h == saturate_i16(self.h + other.h),
    {
        Point {
            v: saturating_i16(self.v as i32 + other.v as i32),
            h: saturating_i16(self.h as i32 + other.h as i32),
        }
    }

    /// Vector subtraction, each coordinate held to the range of `i16`.
    pub fn sub(&self, other: &Point) -> (p: Point)
        ensures
            p.v == saturate_i16(self.v - other.v),
            p.h == saturate_i16(self.h - other.h),
    {
        Point {
            v: saturating_i16(self.v as i32 - other.v as i32),
            h: saturating_i16(self.h as i32 - other.h as i32),
        }
    }

    /// The point whose bytes stand at `p`: `v` then `h`.
    pub open spec fn spec_at(s: Seq<u8>, p: int) -> Point {
        Point { v: i16_at(s, p), h: i16_at(s, p + 2) }
    }

    /// The bytes of the point.
    pub open spec fn spec_bytes(self) -> Seq<u8> {
        i16_be(self.v) + i16_be(self.h)
    }

    /// Reads the point whose four bytes start at `pos`.
    pub fn read_at(data: &[u8], pos: usize) -> (p: Point)
        requires
            pos + 4 <= data.len(),
        ensures
            p == Self::spec_at(data@, pos as int),
    {
        Point { v: read_i16(data, pos), h: read_i16(data, pos + 2) }
    }

    /// Reads a point at `pos`, failing with `UnexpectedEof` when fewer than four bytes remain.
    pub fn parse_at(data: &[u8], pos: usize) -> (r: Result<(Point, usize), WireError>)
        ensures
            match r {
                Ok((p, np)) => pos + 4 <= data@.len() && p == Self::spec_at(data@, pos as int)
                    && np == pos + 4,
                Err(e) => pos + 4 > data@.len() && e.kind == ErrorKind::UnexpectedEof,
            },
    {
        if pos > data.len() || data.len() - pos < 4 {
            return Err(WireError::new(ErrorKind::UnexpectedEof));
        }
        Ok((Self::read_at(data, pos), pos + 4))
    }

    /// Appends the point's bytes.
    pub fn to_bytes(&self, buf: &mut Vec<u8>)
        ensures
            final(buf)@ == old(buf)@ + self.spec_bytes(),
    {
        write_i16(buf, self.v);
        write_i16(buf, self.h);
        assert(final(buf)@ =~= old(buf)@ + self.spec_bytes());
    }

    /// A point is read back from where its bytes stand.
    pub proof fn lemma_read_back(self, s: Seq<u8>, p: int)
        requires
            0 <= p,
            p + 4 <= s.len(),
            s.subrange(p, p + 4) == self.spec_bytes(),
        ensures
            Self::spec_at(s, p) == self,
    {
        assert(s.subrange(p, p + 2) =~= s.subrange(p, p + 4).subrange(0, 2));
        assert(s.subrange(p + 2, p + 4) =~= s.subrange(p, p + 4).subrange(2, 4));
        assert(self.spec_bytes().subrange(0, 2) =~= i16_be(self.v));
        assert(self.spec_bytes().subrange(2, 4) =~= i16_be(self.h));
        lemma_i16_in(s, p, self.v);
        lemma_i16_in(s, p + 2, self.h);
    }
}

/// An asset's identity: its ID within its type and a CRC32 for verification.
#[derive(Debug, Default, Clone, Copy, PartialEq, Eq, Hash)]
pub struct AssetSpec {
    /// Asset ID number.
    pub id: i32,
    /// CRC32 checksum (0 means "don't care").
    pub crc: u32,
}

impl AssetSpec {
    /// Size of an asset spec on the wire: ID, CRC and two bytes of padding.
    pub const SIZE: usize = 10;

    /// An asset spec with the given ID and CRC.
    pub fn new(id: i32, crc: u32) -> (a: AssetSpec)
        ensures
            a.id == id && a.crc == crc,
    {
        AssetSpec { id, crc }
    }

    /// Whether the CRC is "don't care" (zero).
    pub fn crc_is_dont_care(&self) -> (r: bool)
        ensures
            r == (self.crc == 0),
    {
        self.crc == 0
    }

    /// The asset spec whose bytes stand at `p`.
    pub open spec fn spec_at(s: Seq<u8>, p: int) -> AssetSpec {
        AssetSpec { id: i32_at(s, p), crc: u32_at(s, p + 4) }
    }

    /// The bytes of the asset spec: ID, CRC, two zero bytes.
    pub open spec fn spec_bytes(self) -> Seq<u8> {
        i32_be(self.id) + u32_be(self.crc) + seq![0u8, 0u8]
    }

    /// Reads the asset spec whose ten bytes start at `pos`.
    pub fn read_at(data: &[u8], pos: usize) -> (a: AssetSpec)
        requires
            pos + 10 <= data.len(),
        ensures
            a == Self::spec_at(data@, pos as int),
    {
        AssetSpec { id: read_i32(data, pos), crc: read_u32(data, pos + 4) }
    }

    /// Reads an asset spec at `pos`, failing with `UnexpectedEof` when fewer than ten bytes remain.
    pub fn parse_at(data: &[u8], pos: usize) -> (r: Result<(AssetSpec, usize), WireError>)
        ensures
            match r {
                Ok((a, np)) => pos + 10 <= data@.len() && a == Self::spec_at(data@, pos as int)
                    && np == pos + 10,
                Err(e) => pos + 10 > data@.len() && e.kind == ErrorKind::UnexpectedEof,
            },
    {
        if pos > data.len() || data.len() - pos < 10 {
            return Err(WireError::new(ErrorKind::UnexpectedEof));
        }
        Ok((Self::read_at(data, pos), pos + 10))
    }

    /// Reads an asset spec from the start of `data`.
    pub fn from_bytes(data: &[u8]) -> (r: Result<AssetSpec, WireError>)
        ensures
            match r {
                Ok(a) => 10 <= data@.len() && a == Self::spec_at(data@, 0),
                Err(e) => data@.len() < 10 && e.kind == ErrorKind::UnexpectedEof,
            },
    {
        match Self::parse_at(data, 0) {
            Ok((a, _)) => Ok(a),
            Err(e) => Err(e),
        }
    }

    /// Appends the asset spec's bytes.
    pub fn to_bytes(&self, buf: &mut Vec<u8>)
        ensures
            final(buf)@ == old(buf)@ + self.spec_bytes(),
    {
        write_i32(buf, self.id);
        write_u32(buf, self.crc);
        write_zeros(buf, 2);
        assert(final(buf)@ =~= old(buf)@ + self.spec_bytes());
    }

    /// An asset spec is read back from where its bytes stand.
    pub proof fn lemma_read_back(self, s: Seq<u8>, p: int)
        requires
            0 <= p,
            p + 10 <= s.len(),
            s.subrange(p, p + 10) == self.spec_bytes(),
        ensures
            Self::spec_at(s, p) == self,
    {
        assert(s.subrange(p, p + 4) =~= s.subrange(p, p + 10).subrange(0, 4));
        assert(s.subrange(p + 4, p + 8) =~= s.subrange(p, p + 10).subrange(4, 8));
        assert(self.spec_bytes().subrange(0, 4) =~= i32_be(self.id));
        assert(self.spec_bytes().subrange(4, 8) =~= u32_be(self.crc));
        lemma_i32_in(s, p, self.id);
        lemma_u32_in(s, p + 4, self.crc);
    }
}

/// Asset types: four-character ASCII codes stored as `u32`.
#[derive(Debug, Clone, Copy, PartialEq, Eq, Hash)]
pub enum AssetType {
    /// Prop ('Prop').
    Prop,
    /// User database ('User').
    UserBase,
    /// IP user database ('IUsr'), a historical artifact.
    IpUserBase,
}

/// The four-character code of an asset type.
pub open spec fn spec_asset_type_code(t: AssetType) -> u32 {
    match t {
        AssetType::Prop => 0x50726f70,
        AssetType::UserBase => 0x55736572,
        AssetType::IpUserBase => 0x49557372,
    }
}

impl AssetType {
    /// The four-character code.
    pub fn as_u32(self) -> (v: u32)
        ensures
            v == spec_asset_type_code(self),
    {
        match self {
            AssetType::Prop => asset_types::RT_PROP,
            AssetType::UserBase => asset_types::RT_USERBASE,
            AssetType::IpUserBase => asset_types::RT_IPUSERBASE,
        }
    }

    /// The asset type of a four-character code, or `None` for an unknown code.
    pub fn from_u32(v: u32) -> (t: Option<AssetType>)
        ensures
            t matches Some(a) ==> spec_asset_type_code(a) == v,
            t is None ==> forall|a: AssetType| spec_asset_type_code(a) != v,
    {
        if v == asset_types::RT_PROP {
            Some(AssetType::Prop)
        } else if v == asset_types::RT_USERBASE {
            Some(AssetType::UserBase)
        } else if v == asset_types::RT_IPUSERBASE {
            Some(AssetType::IpUserBase)
        } else {
            assert forall|a: AssetType| spec_asset_type_code(a) != v by {
                match a {
                    AssetType::Prop => {},
                    AssetType::UserBase => {},
                    AssetType::IpUserBase => {},
                }
            }
            None
        }
    }
}

/// Reading back the code of an asset type gives the type.
pub proof fn lemma_asset_type_code_injective(a: AssetType, b: AssetType)
    ensures
        spec_asset_type_code(a) == spec_asset_type_code(b) ==> a == b,
{
}

} // verus!

