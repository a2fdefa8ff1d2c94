//! Flag sets used throughout the Palace Protocol for users, rooms, props,
//! servers, scripts and client capabilities.
use vstd::prelude::*;

verus! {

/// User flags describing user state and permissions.
///
/// A set of flags stored as its `u16` bits; its view is the bits.
#[derive(Debug, Clone, Copy, PartialEq, Eq, Hash)]
pub struct UserFlags {
    pub bits: u16,
}

impl View for UserFlags {
    type V = u16;

    open spec fn view(&self) -> u16 {
        self.bits
    }
}

impl UserFlags {
    /// The bits of every defined flag.
    pub open spec fn spec_all_bits() -> u16 {
        0x1fffu16
    }

    /// Wizard (limited admin).
    #[allow(non_snake_case)]
    pub fn SUPERUSER() -> (f: UserFlags)
        ensures
            f@ == 0x1u16,
    {
        UserFlags { bits: 0x1 }
    }

    /// God (full admin).
    #[allow(non_snake_case)]
    pub fn GOD() -> (f: UserFlags)
        ensures
            f@ == 0x2u16,
    {
        UserFlags { bits: 0x2 }
    }

    /// The server should drop the user at the first opportunity.
    #[allow(non_snake_case)]
    pub fn KILL() -> (f: UserFlags)
        ensures
            f@ == 0x4u16,
    {
        UserFlags { bits: 0x4 }
    }

    /// The user is a guest (no registration code).
    #[allow(non_snake_case)]
    pub fn GUEST() -> (f: UserFlags)
        ensures
            f@ == 0x8u16,
    {
        UserFlags { bits: 0x8 }
    }

    /// Redundant with KILL.
    #[allow(non_snake_case)]
    pub fn BANISHED() -> (f: UserFlags)
        ensures
            f@ == 0x10u16,
    {
        UserFlags { bits: 0x10 }
    }

    /// Historical artifact.
    #[allow(non_snake_case)]
    pub fn PENALIZED() -> (f: UserFlags)
        ensures
            f@ == 0x20u16,
    {
        UserFlags { bits: 0x20 }
    }

    /// Communication error: drop at the first opportunity.
    #[allow(non_snake_case)]
    pub fn COMM_ERROR() -> (f: UserFlags)
        ensures
            f@ == 0x40u16,
    {
        UserFlags { bits: 0x40 }
    }

    /// Not allowed to speak.
    #[allow(non_snake_case)]
    pub fn GAG() -> (f: UserFlags)
        ensures
            f@ == 0x80u16,
    {
        UserFlags { bits: 0x80 }
    }

    /// Stuck in a corner and not allowed to move.
    #[allow(non_snake_case)]
    pub fn PIN() -> (f: UserFlags)
        ensures
            f@ == 0x100u16,
    {
        UserFlags { bits: 0x100 }
    }

    /// Does not appear on the user list.
    #[allow(non_snake_case)]
    pub fn HIDE() -> (f: UserFlags)
        ensures
            f@ == 0x200u16,
    {
        UserFlags { bits: 0x200 }
    }

    /// Rejects ESP messages.
    #[allow(non_snake_case)]
    pub fn REJECT_ESP() -> (f: UserFlags)
        ensures
            f@ == 0x400u16,
    {
        UserFlags { bits: 0x400 }
    }

    /// Rejects private messages.
    #[allow(non_snake_case)]
    pub fn REJECT_PRIVATE() -> (f: UserFlags)
        ensures
            f@ == 0x800u16,
    {
        UserFlags { bits: 0x800 }
    }

    /// Not allowed to change props.
    #[allow(non_snake_case)]
    pub fn PROP_GAG() -> (f: UserFlags)
        ensures
            f@ == 0x1000u16,
    {
        UserFlags { bits: 0x1000 }
    }

    /// The empty set.
    pub fn empty() -> (f: UserFlags)
        ensures
            f@ == 0u16,
    {
        UserFlags { bits: 0 }
    }

    /// The set of every defined flag.
    pub fn all() -> (f: UserFlags)
        ensures
            f@ == Self::spec_all_bits(),
    {
        UserFlags { bits: 0x1fff }
    }

    /// The raw bits.
    pub fn bits(&self) -> (b: u16)
        ensures
            b == self@,
    {
        self.bits
    }

    /// The set with these bits, or `None` if a bit is not a defined flag.
    pub fn from_bits(bits: u16) -> (f: Option<UserFlags>)
        ensures
            f is Some <==> bits & !Self::spec_all_bits() == 0,
            f matches Some(g) ==> g@ == bits,
    {
        if bits & !0x1fffu16 == 0 {
            Some(UserFlags { bits })
        } else {
            None
        }
    }

    /// The set of the defined flags among these bits; the others are dropped.
    pub fn from_bits_truncate(bits: u16) -> (f: UserFlags)
        ensures
            f@ == bits & Self::spec_all_bits(),
    {
        UserFlags { bits: bits & 0x1fff }
    }

    /// Whether every flag of `other` is in this set.
    pub fn contains(&self, other: UserFlags) -> (r: bool)
        ensures
            r == (self@ & other@ == other@),
    {
        self.bits & other.bits == other.bits
    }

    /// Whether this set and `other` share a flag.
    pub fn intersects(&self, other: UserFlags) -> (r: bool)
        ensures
            r == (self@ & other@ != 0),
    {
        self.bits & other.bits != 0
    }

    /// Whether the set is empty.
    pub fn is_empty(&self) -> (r: bool)
        ensures
            r == (self@ == 0),
    {
        self.bits == 0
    }

    /// The flags in this set or in `other`.
    pub fn union(self, other: UserFlags) -> (f: UserFlags)
        ensures
            f@ == self@ | other@,
    {
        UserFlags { bits: self.bits | other.bits }
    }

    /// The flags in both this set and `other`.
    pub fn intersection(self, other: UserFlags) -> (f: UserFlags)
        ensures
            f@ == self@ & other@,
    {
        UserFlags { bits: self.bits & other.bits }
    }

    /// Adds the flags of `other`.
    pub fn insert(&mut self, other: UserFlags)
        ensures
            final(self)@ == old(self)@ | other@,
    {
        self.bits = self.bits | other.bits;
    }

    /// Removes the flags of `other`.
    pub fn remove(&mut self, other: UserFlags)
        ensures
            final(self)@ == old(self)@ & !other@,
    {
        self.bits = self.bits & !other.bits;
    }
}

impl core::ops::BitOr for UserFlags {
    type Output = UserFlags;

    fn bitor(self, rhs: UserFlags) -> (f: UserFlags) {
        UserFlags { bits: self.bits | rhs.bits }
    }
}

impl vstd::std_specs::ops::BitOrSpecImpl for UserFlags {
    open spec fn obeys_bitor_spec() -> bool {
        true
    }

    open spec fn bitor_req(self, rhs: UserFlags) -> bool {
        true
    }

    open spec fn bitor_spec(self, rhs: UserFlags) -> UserFlags {
        UserFlags { bits: self.bits | rhs.bits }
    }
}

impl core::ops::BitAnd for UserFlags {
    type Output = UserFlags;

    fn bitand(self, rhs: UserFlags) -> (f: UserFlags) {
        UserFlags { bits: self.bits & rhs.bits }
    }
}

impl vstd::std_specs::ops::BitAndSpecImpl for UserFlags {
    open spec fn obeys_bitand_spec() -> bool {
        true
    }

    open spec fn bitand_req(self, rhs: UserFlags) -> bool {
        true
    }

    open spec fn bitand_spec(self, rhs: UserFlags) -> UserFlags {
        UserFlags { bits: self.bits & rhs.bits }
    }
}

impl core::ops::BitOrAssign for UserFlags {
    fn bitor_assign(&mut self, rhs: UserFlags)
        ensures
            final(self)@ == old(self)@ | rhs@,
    {
        self.bits = self.bits | rhs.bits;
    }
}

impl core::default::Default for UserFlags {
    fn default() -> (f: UserFlags)
        ensures
            f@ == 0u16,
    {
        UserFlags { bits: 0 }
    }
}

/// Room flags describing room attributes and restrictions.
///
/// A set of flags stored as its `u16` bits; its view is the bits.
#[derive(Debug, Clone, Copy, PartialEq, Eq, Hash)]
pub struct RoomFlags {
    pub bits: u16,
}

impl View for RoomFlags {
    type V = u16;

    open spec fn view(&self) -> u16 {
        self.bits
    }
}

impl RoomFlags {
    /// The bits of every defined flag.
    pub open spec fn spec_all_bits() -> u16 {
        0x3ffu16
    }

    /// Only the author can enter.
    #[allow(non_snake_case)]
    pub fn AUTHOR_LOCKED() -> (f: RoomFlags)
        ensures
            f@ == 0x1u16,
    {
        RoomFlags { bits: 0x1 }
    }

    /// Private room.
    #[allow(non_snake_case)]
    pub fn PRIVATE() -> (f: RoomFlags)
        ensures
            f@ == 0x2u16,
    {
        RoomFlags { bits: 0x2 }
    }

    /// Drawing is disabled.
    #[allow(non_snake_case)]
    pub fn NO_PAINTING() -> (f: RoomFlags)
        ensures
            f@ == 0x4u16,
    {
        RoomFlags { bits: 0x4 }
    }

    /// The room is closed.
    #[allow(non_snake_case)]
    pub fn CLOSED() -> (f: RoomFlags)
        ensures
            f@ == 0x8u16,
    {
        RoomFlags { bits: 0x8 }
    }

    /// Cyborg scripts are disabled in this room.
    #[allow(non_snake_case)]
    pub fn CYBORG_FREE_ZONE() -> (f: RoomFlags)
        ensures
            f@ == 0x10u16,
    {
        RoomFlags { bits: 0x10 }
    }

    /// Hidden from the room list.
    #[allow(non_snake_case)]
    pub fn HIDDEN() -> (f: RoomFlags)
        ensures
            f@ == 0x20u16,
    {
        RoomFlags { bits: 0x20 }
    }

    /// Guests are not allowed.
    #[allow(non_snake_case)]
    pub fn NO_GUESTS() -> (f: RoomFlags)
        ensures
            f@ == 0x40u16,
    {
        RoomFlags { bits: 0x40 }
    }

    /// Only wizards are allowed.
    #[allow(non_snake_case)]
    pub fn WIZARDS_ONLY() -> (f: RoomFlags)
        ensures
            f@ == 0x80u16,
    {
        RoomFlags { bits: 0x80 }
    }

    /// Drop zone for props.
    #[allow(non_snake_case)]
    pub fn DROP_ZONE() -> (f: RoomFlags)
        ensures
            f@ == 0x100u16,
    {
        RoomFlags { bits: 0x100 }
    }

    /// Loose props are disabled.
    #[allow(non_snake_case)]
    pub fn NO_LOOSE_PROPS() -> (f: RoomFlags)
        ensures
            f@ == 0x200u16,
    {
        RoomFlags { bits: 0x200 }
    }

    /// The empty set.
    pub fn empty() -> (f: RoomFlags)
        ensures
            f@ == 0u16,
    {
        RoomFlags { bits: 0 }
    }

    /// The set of every defined flag.
    pub fn all() -> (f: RoomFlags)
        ensures
            f@ == Self::spec_all_bits(),
    {
        RoomFlags { bits: 0x3ff }
    }

    /// The raw bits.
    pub fn bits(&self) -> (b: u16)
        ensures
            b == self@,
    {
        self.bits
    }

    /// The set with these bits, or `None` if a bit is not a defined flag.
    pub fn from_bits(bits: u16) -> (f: Option<RoomFlags>)
        ensures
            f is Some <==> bits & !Self::spec_all_bits() == 0,
            f matches Some(g) ==> g@ == bits,
    {
        if bits & !0x3ffu16 == 0 {
            Some(RoomFlags { bits })
        } else {
            None
        }
    }

    /// The set of the defined flags among these bits; the others are dropped.
    pub fn from_bits_truncate(bits: u16) -> (f: RoomFlags)
        ensures
            f@ == bits & Self::spec_all_bits(),
    {
        RoomFlags { bits: bits & 0x3ff }
    }

    /// Whether every flag of `other` is in this set.
    pub fn contains(&self, other: RoomFlags) -> (r: bool)
        ensures
            r == (self@ & other@ == other@),
    {
        self.bits & other.bits == other.bits
    }

    /// Whether this set and `other` share a flag.
    pub fn intersects(&self, other: RoomFlags) -> (r: bool)
        ensures
            r == (self@ & other@ != 0),
    {
        self.bits & other.bits != 0
    }

    /// Whether the set is empty.
    pub fn is_empty(&self) -> (r: bool)
        ensures
            r == (self@ == 0),
    {
        self.bits == 0
    }

    /// The flags in this set or in `other`.
    pub fn union(self, other: RoomFlags) -> (f: RoomFlags)
        ensures
            f@ == self@ | other@,
    {
        RoomFlags { bits: self.bits | other.bits }
    }

    /// The flags in both this set and `other`.
    pub fn intersection(self, other: RoomFlags) -> (f: RoomFlags)
        ensures
            f@ == self@ & other@,
    {
        RoomFlags { bits: self.bits & other.bits }
    }

    /// Adds the flags of `other`.
    pub fn insert(&mut self, other: RoomFlags)
        ensures
            final(self)@ == old(self)@ | other@,
    {
        self.bits = self.bits | other.bits;
    }

    /// Removes the flags of `other`.
    pub fn remove(&mut self, other: RoomFlags)
        ensures
            final(self)@ == old(self)@ & !other@,
    {
        self.bits = self.bits & !other.bits;
    }
}

impl core::ops::BitOr for RoomFlags {
    type Output = RoomFlags;

    fn bitor(self, rhs: RoomFlags) -> (f: RoomFlags) {
        RoomFlags { bits: self.bits | rhs.bits }
    }
}

impl vstd::std_specs::ops::BitOrSpecImpl for RoomFlags {
    open spec fn obeys_bitor_spec() -> bool {
        true
    }

    open spec fn bitor_req(self, rhs: RoomFlags) -> bool {
        true
    }

    open spec fn bitor_spec(self, rhs: RoomFlags) -> RoomFlags {
        RoomFlags { bits: self.bits | rhs.bits }
    }
}

impl core::ops::BitAnd for RoomFlags {
    type Output = RoomFlags;

    fn bitand(self, rhs: RoomFlags) -> (f: RoomFlags) {
        RoomFlags { bits: self.bits & rhs.bits }
    }
}

impl vstd::std_specs::ops::BitAndSpecImpl for RoomFlags {
    open spec fn obeys_bitand_spec() -> bool {
        true
    }

    open spec fn bitand_req(self, rhs: RoomFlags) -> bool {
        true
    }

    open spec fn bitand_spec(self, rhs: RoomFlags) -> RoomFlags {
        RoomFlags { bits: self.bits & rhs.bits }
    }
}

impl core::ops::BitOrAssign for RoomFlags {
    fn bitor_assign(&mut self, rhs: RoomFlags)
        ensures
            final(self)@ == old(self)@ | rhs@,
    {
        self.bits = self.bits | rhs.bits;
    }
}

impl core::default::Default for RoomFlags {
    fn default() -> (f: RoomFlags)
        ensures
            f@ == 0u16,
    {
        RoomFlags { bits: 0 }
    }
}

/// Prop flags describing prop format and behavior.
///
/// A set of flags stored as its `u16` bits; its view is the bits.
#[derive(Debug, Clone, Copy, PartialEq, Eq, Hash)]
pub struct PropFlags {
    pub bits: u16,
}

impl View for PropFlags {
    type V = u16;

    open spec fn view(&self) -> u16 {
        self.bits
    }
}

impl PropFlags {
    /// The bits of every defined flag.
    pub open spec fn spec_all_bits() -> u16 {
        0x37eu16
    }

    /// 8-bit indexed color format (the default).
    #[allow(non_snake_case)]
    pub fn FORMAT_8BIT() -> (f: PropFlags)
        ensures
            f@ == 0x0u16,
    {
        PropFlags { bits: 0x0 }
    }

    /// The prop is a head.
    #[allow(non_snake_case)]
    pub fn HEAD() -> (f: PropFlags)
        ensures
            f@ == 0x2u16,
    {
        PropFlags { bits: 0x2 }
    }

    /// Ghost mode (transparent overlay).
    #[allow(non_snake_case)]
    pub fn GHOST() -> (f: PropFlags)
        ensures
            f@ == 0x4u16,
    {
        PropFlags { bits: 0x4 }
    }

    /// Rare prop.
    #[allow(non_snake_case)]
    pub fn RARE() -> (f: PropFlags)
        ensures
            f@ == 0x8u16,
    {
        PropFlags { bits: 0x8 }
    }

    /// Animated prop.
    #[allow(non_snake_case)]
    pub fn ANIMATE() -> (f: PropFlags)
        ensures
            f@ == 0x10u16,
    {
        PropFlags { bits: 0x10 }
    }

    /// Bouncing prop.
    #[allow(non_snake_case)]
    pub fn BOUNCE() -> (f: PropFlags)
        ensures
            f@ == 0x20u16,
    {
        PropFlags { bits: 0x20 }
    }

    /// 20-bit color format.
    #[allow(non_snake_case)]
    pub fn FORMAT_20BIT() -> (f: PropFlags)
        ensures
            f@ == 0x40u16,
    {
        PropFlags { bits: 0x40 }
    }

    /// 32-bit RGBA color format.
    #[allow(non_snake_case)]
    pub fn FORMAT_32BIT() -> (f: PropFlags)
        ensures
            f@ == 0x100u16,
    {
        PropFlags { bits: 0x100 }
    }

    /// Signed 20-bit color format.
    #[allow(non_snake_case)]
    pub fn FORMAT_S20BIT() -> (f: PropFlags)
        ensures
            f@ == 0x200u16,
    {
        PropFlags { bits: 0x200 }
    }

    /// The empty set.
    pub fn empty() -> (f: PropFlags)
        ensures
            f@ == 0u16,
    {
        PropFlags { bits: 0 }
    }

    /// The set of every defined flag.
    pub fn all() -> (f: PropFlags)
        ensures
            f@ == Self::spec_all_bits(),
    {
        PropFlags { bits: 0x37e }
    }

    /// The raw bits.
    pub fn bits(&self) -> (b: u16)
        ensures
            b == self@,
    {
        self.bits
    }

    /// The set with these bits, or `None` if a bit is not a defined flag.
    pub fn from_bits(bits: u16) -> (f: Option<PropFlags>)
        ensures
            f is Some <==> bits & !Self::spec_all_bits() == 0,
            f matches Some(g) ==> g@ == bits,
    {
        if bits & !0x37eu16 == 0 {
            Some(PropFlags { bits })
        } else {
            None
        }
    }

    /// The set of the defined flags among these bits; the others are dropped.
    pub fn from_bits_truncate(bits: u16) -> (f: PropFlags)
        ensures
            f@ == bits & Self::spec_all_bits(),
    {
        PropFlags { bits: bits & 0x37e }
    }

    /// Whether every flag of `other` is in this set.
    pub fn contains(&self, other: PropFlags) -> (r: bool)
        ensures
            r == (self@ & other@ == other@),
    {
        self.bits & other.bits == other.bits
    }

    /// Whether this set and `other` share a flag.
    pub fn intersects(&self, other: PropFlags) -> (r: bool)
        ensures
            r == (self@ & other@ != 0),
    {
        self.bits & other.bits != 0
    }

    /// Whether the set is empty.
    pub fn is_empty(&self) -> (r: bool)
        ensures
            r == (self@ == 0),
    {
        self.bits == 0
    }

    /// The flags in this set or in `other`.
    pub fn union(self, other: PropFlags) -> (f: PropFlags)
        ensures
            f@ == self@ | other@,
    {
        PropFlags { bits: self.bits | other.bits }
    }

    /// The flags in both this set and `other`.
    pub fn intersection(self, other: PropFlags) -> (f: PropFlags)
        ensures
            f@ == self@ & other@,
    {
        PropFlags { bits: self.bits & other.bits }
    }

    /// Adds the flags of `other`.
    pub fn insert(&mut self, other: PropFlags)
        ensures
            final(self)@ == old(self)@ | other@,
    {
        self.bits = self.bits | other.bits;
    }

    /// Removes the flags of `other`.
    pub fn remove(&mut self, other: PropFlags)
        ensures
            final(self)@ == old(self)@ & !other@,
    {
        self.bits = self.bits & !other.bits;
    }
}

impl core::ops::BitOr for PropFlags {
    type Output = PropFlags;

    fn bitor(self, rhs: PropFlags) -> (f: PropFlags) {
        PropFlags { bits: self.bits | rhs.bits }
    }
}

impl vstd::std_specs::ops::BitOrSpecImpl for PropFlags {
    open spec fn obeys_bitor_spec() -> bool {
        true
    }

    open spec fn bitor_req(self, rhs: PropFlags) -> bool {
        true
    }

    open spec fn bitor_spec(self, rhs: PropFlags) -> PropFlags {
        PropFlags { bits: self.bits | rhs.bits }
    }
}

impl core::ops::BitAnd for PropFlags {
    type Output = PropFlags;

    fn bitand(self, rhs: PropFlags) -> (f: PropFlags) {
        PropFlags { bits: self.bits & rhs.bits }
    }
}

impl vstd::std_specs::ops::BitAndSpecImpl for PropFlags {
    open spec fn obeys_bitand_spec() -> bool {
        true
    }

    open spec fn bitand_req(self, rhs: PropFlags) -> bool {
        true
    }

    open spec fn bitand_spec(self, rhs: PropFlags) -> PropFlags {
        PropFlags { bits: self.bits & rhs.bits }
    }
}

impl core::ops::BitOrAssign for PropFlags {
    fn bitor_assign(&mut self, rhs: PropFlags)
        ensures
            final(self)@ == old(self)@ | rhs@,
    {
        self.bits = self.bits | rhs.bits;
    }
}

impl core::default::Default for PropFlags {
    fn default() -> (f: PropFlags)
        ensures
            f@ == 0u16,
    {
        PropFlags { bits: 0 }
    }
}

/// Prop color format.
#[derive(Debug, Clone, Copy, PartialEq, Eq, Hash)]
pub enum PropFormat {
    /// 8-bit indexed color (palette-based).
    Indexed8,
    /// 20-bit RGB color.
    Rgb20,
    /// 32-bit RGBA color.
    Rgb32,
    /// Signed 20-bit color.
    S20Bit,
}

/// The color format that a set of prop flags selects: 32-bit wins over
/// signed 20-bit, which wins over 20-bit; with none of them, 8-bit indexed.
pub open spec fn spec_prop_format(bits: u16) -> PropFormat {
    if bits & 0x100 == 0x100 {
        PropFormat::Rgb32
    } else if bits & 0x200 == 0x200 {
        PropFormat::S20Bit
    } else if bits & 0x40 == 0x40 {
        PropFormat::Rgb20
    } else {
        PropFormat::Indexed8
    }
}

impl PropFlags {
    /// The color format selected by the flags.
    pub fn format(&self) -> (f: PropFormat)
        ensures
            f == spec_prop_format(self@),
    {
        if self.contains(PropFlags::FORMAT_32BIT()) {
            PropFormat::Rgb32
        } else if self.contains(PropFlags::FORMAT_S20BIT()) {
            PropFormat::S20Bit
        } else if self.contains(PropFlags::FORMAT_20BIT()) {
            PropFormat::Rgb20
        } else {
            PropFormat::Indexed8
        }
    }
}

/// Server flags describing server configuration and capabilities.
///
/// A set of flags stored as its `u32` bits; its view is the bits.
#[derive(Debug, Clone, Copy, PartialEq, Eq, Hash)]
pub struct ServerFlags {
    pub bits: u32,
}

impl View for ServerFlags {
    type V = u32;

    open spec fn view(&self) -> u32 {
        self.bits
    }
}

impl ServerFlags {
    /// The bits of every defined flag.
    pub open spec fn spec_all_bits() -> u32 {
        0x237u32
    }

    /// DirectPlay enabled.
    #[allow(non_snake_case)]
    pub fn DIRECT_PLAY() -> (f: ServerFlags)
        ensures
            f@ == 0x1u32,
    {
        ServerFlags { bits: 0x1 }
    }

    /// Closed server (registration required).
    #[allow(non_snake_case)]
    pub fn CLOSED_SERVER() -> (f: ServerFlags)
        ensures
            f@ == 0x2u32,
    {
        ServerFlags { bits: 0x2 }
    }

    /// Guests are treated as members.
    #[allow(non_snake_case)]
    pub fn GUESTS_ARE_MEMBERS() -> (f: ServerFlags)
        ensures
            f@ == 0x4u32,
    {
        ServerFlags { bits: 0x4 }
    }

    /// InstantPalace server.
    #[allow(non_snake_case)]
    pub fn INSTANT_PALACE() -> (f: ServerFlags)
        ensures
            f@ == 0x10u32,
    {
        ServerFlags { bits: 0x10 }
    }

    /// PalacePresents branding.
    #[allow(non_snake_case)]
    pub fn PALACE_PRESENTS() -> (f: ServerFlags)
        ensures
            f@ == 0x20u32,
    {
        ServerFlags { bits: 0x20 }
    }

    /// Cyborg scripts are allowed globally.
    #[allow(non_snake_case)]
    pub fn ALLOW_CYBORGS() -> (f: ServerFlags)
        ensures
            f@ == 0x200u32,
    {
        ServerFlags { bits: 0x200 }
    }

    /// The empty set.
    pub fn empty() -> (f: ServerFlags)
        ensures
            f@ == 0u32,
    {
        ServerFlags { bits: 0 }
    }

    /// The set of every defined flag.
    pub fn all() -> (f: ServerFlags)
        ensures
            f@ == Self::spec_all_bits(),
    {
        ServerFlags { bits: 0x237 }
    }

    /// The raw bits.
    pub fn bits(&self) -> (b: u32)
        ensures
            b == self@,
    {
        self.bits
    }

    /// The set with these bits, or `None` if a bit is not a defined flag.
    pub fn from_bits(bits: u32) -> (f: Option<ServerFlags>)
        ensures
            f is Some <==> bits & !Self::spec_all_bits() == 0,
            f matches Some(g) ==> g@ == bits,
    {
        if bits & !0x237u32 == 0 {
            Some(ServerFlags { bits })
        } else {
            None
        }
    }

    /// The set of the defined flags among these bits; the others are dropped.
    pub fn from_bits_truncate(bits: u32) -> (f: ServerFlags)
        ensures
            f@ == bits & Self::spec_all_bits(),
    {
        ServerFlags { bits: bits & 0x237 }
    }

    /// Whether every flag of `other` is in this set.
    pub fn contains(&self, other: ServerFlags) -> (r: bool)
        ensures
            r == (self@ & other@ == other@),
    {
        self.bits & other.bits == other.bits
    }

    /// Whether this set and `other` share a flag.
    pub fn intersects(&self, other: ServerFlags) -> (r: bool)
        ensures
            r == (self@ & other@ != 0),
    {
        self.bits & other.bits != 0
    }

    /// Whether the set is empty.
    pub fn is_empty(&self) -> (r: bool)
        ensures
            r == (self@ == 0),
    {
        self.bits == 0
    }

    /// The flags in this set or in `other`.
    pub fn union(self, other: ServerFlags) -> (f: ServerFlags)
        ensures
            f@ == self@ | other@,
    {
        ServerFlags { bits: self.bits | other.bits }
    }

    /// The flags in both this set and `other`.
    pub fn intersection(self, other: ServerFlags) -> (f: ServerFlags)
        ensures
            f@ == self@ & other@,
    {
        ServerFlags { bits: self.bits & other.bits }
    }

    /// Adds the flags of `other`.
    pub fn insert(&mut self, other: ServerFlags)
        ensures
            final(self)@ == old(self)@ | other@,
    {
        self.bits = self.bits | other.bits;
    }

    /// Removes the flags of `other`.
    pub fn remove(&mut self, other: ServerFlags)
        ensures
            final(self)@ == old(self)@ & !other@,
    {
        self.bits = self.bits & !other.bits;
    }
}

impl core::ops::BitOr for ServerFlags {
    type Output = ServerFlags;

    fn bitor(self, rhs: ServerFlags) -> (f: ServerFlags) {
        ServerFlags { bits: self.bits | rhs.bits }
    }
}

impl vstd::std_specs::ops::BitOrSpecImpl for ServerFlags {
    open spec fn obeys_bitor_spec() -> bool {
        true
    }

    open spec fn bitor_req(self, rhs: ServerFlags) -> bool {
        true
    }

    open spec fn bitor_spec(self, rhs: ServerFlags) -> ServerFlags {
        ServerFlags { bits: self.bits | rhs.bits }
    }
}

impl core::ops::BitAnd for ServerFlags {
    type Output = ServerFlags;

    fn bitand(self, rhs: ServerFlags) -> (f: ServerFlags) {
        ServerFlags { bits: self.bits & rhs.bits }
    }
}

impl vstd::std_specs::ops::BitAndSpecImpl for ServerFlags {
    open spec fn obeys_bitand_spec() -> bool {
        true
    }

    open spec fn bitand_req(self, rhs: ServerFlags) -> bool {
        true
    }

    open spec fn bitand_spec(self, rhs: ServerFlags) -> ServerFlags {
        ServerFlags { bits: self.bits & rhs.bits }
    }
}

impl core::ops::BitOrAssign for ServerFlags {
    fn bitor_assign(&mut self, rhs: ServerFlags)
        ensures
            final(self)@ == old(self)@ | rhs@,
    {
        self.bits = self.bits | rhs.bits;
    }
}

impl core::default::Default for ServerFlags {
    fn default() -> (f: ServerFlags)
        ensures
            f@ == 0u32,
    {
        ServerFlags { bits: 0 }
    }
}

/// Script event flags: the events that trigger a script.
///
/// A set of flags stored as its `u32` bits; its view is the bits.
#[derive(Debug, Clone, Copy, PartialEq, Eq, Hash)]
pub struct ScriptEventFlags {
    pub bits: u32,
}

impl View for ScriptEventFlags {
    type V = u32;

    open spec fn view(&self) -> u32 {
        self.bits
    }
}

impl ScriptEventFlags {
    /// The bits of every defined flag.
    pub open spec fn spec_all_bits() -> u32 {
        0x1ffffffu32
    }

    /// Hotspot selected.
    #[allow(non_snake_case)]
    pub fn SELECT() -> (f: ScriptEventFlags)
        ensures
            f@ == 0x1u32,
    {
        ScriptEventFlags { bits: 0x1 }
    }

    /// Door locked.
    #[allow(non_snake_case)]
    pub fn LOCK() -> (f: ScriptEventFlags)
        ensures
            f@ == 0x2u32,
    {
        ScriptEventFlags { bits: 0x2 }
    }

    /// Door unlocked.
    #[allow(non_snake_case)]
    pub fn UNLOCK() -> (f: ScriptEventFlags)
        ensures
            f@ == 0x4u32,
    {
        ScriptEventFlags { bits: 0x4 }
    }

    /// Hotspot hidden.
    #[allow(non_snake_case)]
    pub fn HIDE() -> (f: ScriptEventFlags)
        ensures
            f@ == 0x8u32,
    {
        ScriptEventFlags { bits: 0x8 }
    }

    /// Hotspot shown.
    #[allow(non_snake_case)]
    pub fn SHOW() -> (f: ScriptEventFlags)
        ensures
            f@ == 0x10u32,
    {
        ScriptEventFlags { bits: 0x10 }
    }

    /// Room startup.
    #[allow(non_snake_case)]
    pub fn STARTUP() -> (f: ScriptEventFlags)
        ensures
            f@ == 0x20u32,
    {
        ScriptEventFlags { bits: 0x20 }
    }

    /// Timer alarm.
    #[allow(non_snake_case)]
    pub fn ALARM() -> (f: ScriptEventFlags)
        ensures
            f@ == 0x40u32,
    {
        ScriptEventFlags { bits: 0x40 }
    }

    /// Custom event.
    #[allow(non_snake_case)]
    pub fn CUSTOM() -> (f: ScriptEventFlags)
        ensures
            f@ == 0x80u32,
    {
        ScriptEventFlags { bits: 0x80 }
    }

    /// Chat received.
    #[allow(non_snake_case)]
    pub fn INCHAT() -> (f: ScriptEventFlags)
        ensures
            f@ == 0x100u32,
    {
        ScriptEventFlags { bits: 0x100 }
    }

    /// Prop changed.
    #[allow(non_snake_case)]
    pub fn PROPCHANGE() -> (f: ScriptEventFlags)
        ensures
            f@ == 0x200u32,
    {
        ScriptEventFlags { bits: 0x200 }
    }

    /// User entered the room.
    #[allow(non_snake_case)]
    pub fn ENTER() -> (f: ScriptEventFlags)
        ensures
            f@ == 0x400u32,
    {
        ScriptEventFlags { bits: 0x400 }
    }

    /// User left the room.
    #[allow(non_snake_case)]
    pub fn LEAVE() -> (f: ScriptEventFlags)
        ensures
            f@ == 0x800u32,
    {
        ScriptEventFlags { bits: 0x800 }
    }

    /// Chat sent.
    #[allow(non_snake_case)]
    pub fn OUTCHAT() -> (f: ScriptEventFlags)
        ensures
            f@ == 0x1000u32,
    {
        ScriptEventFlags { bits: 0x1000 }
    }

    /// User signed on.
    #[allow(non_snake_case)]
    pub fn SIGNON() -> (f: ScriptEventFlags)
        ensures
            f@ == 0x2000u32,
    {
        ScriptEventFlags { bits: 0x2000 }
    }

    /// User signed off.
    #[allow(non_snake_case)]
    pub fn SIGNOFF() -> (f: ScriptEventFlags)
        ensures
            f@ == 0x4000u32,
    {
        ScriptEventFlags { bits: 0x4000 }
    }

    /// Macro 0 triggered.
    #[allow(non_snake_case)]
    pub fn MACRO0() -> (f: ScriptEventFlags)
        ensures
            f@ == 0x8000u32,
    {
        ScriptEventFlags { bits: 0x8000 }
    }

    /// Macro 1 triggered.
    #[allow(non_snake_case)]
    pub fn MACRO1() -> (f: ScriptEventFlags)
        ensures
            f@ == 0x10000u32,
    {
        ScriptEventFlags { bits: 0x10000 }
    }

    /// Macro 2 triggered.
    #[allow(non_snake_case)]
    pub fn MACRO2() -> (f: ScriptEventFlags)
        ensures
            f@ == 0x20000u32,
    {
        ScriptEventFlags { bits: 0x20000 }
    }

    /// Macro 3 triggered.
    #[allow(non_snake_case)]
    pub fn MACRO3() -> (f: ScriptEventFlags)
        ensures
            f@ == 0x40000u32,
    {
        ScriptEventFlags { bits: 0x40000 }
    }

    /// Macro 4 triggered.
    #[allow(non_snake_case)]
    pub fn MACRO4() -> (f: ScriptEventFlags)
        ensures
            f@ == 0x80000u32,
    {
        ScriptEventFlags { bits: 0x80000 }
    }

    /// Macro 5 triggered.
    #[allow(non_snake_case)]
    pub fn MACRO5() -> (f: ScriptEventFlags)
        ensures
            f@ == 0x100000u32,
    {
        ScriptEventFlags { bits: 0x100000 }
    }

    /// Macro 6 triggered.
    #[allow(non_snake_case)]
    pub fn MACRO6() -> (f: ScriptEventFlags)
        ensures
            f@ == 0x200000u32,
    {
        ScriptEventFlags { bits: 0x200000 }
    }

    /// Macro 7 triggered.
    #[allow(non_snake_case)]
    pub fn MACRO7() -> (f: ScriptEventFlags)
        ensures
            f@ == 0x400000u32,
    {
        ScriptEventFlags { bits: 0x400000 }
    }

    /// Macro 8 triggered.
    #[allow(non_snake_case)]
    pub fn MACRO8() -> (f: ScriptEventFlags)
        ensures
            f@ == 0x800000u32,
    {
        ScriptEventFlags { bits: 0x800000 }
    }

    /// Macro 9 triggered.
    #[allow(non_snake_case)]
    pub fn MACRO9() -> (f: ScriptEventFlags)
        ensures
            f@ == 0x1000000u32,
    {
        ScriptEventFlags { bits: 0x1000000 }
    }

    /// The empty set.
    pub fn empty() -> (f: ScriptEventFlags)
        ensures
            f@ == 0u32,
    {
        ScriptEventFlags { bits: 0 }
    }

    /// The set of every defined flag.
    pub fn all() -> (f: ScriptEventFlags)
        ensures
            f@ == Self::spec_all_bits(),
    {
        ScriptEventFlags { bits: 0x1ffffff }
    }

    /// The raw bits.
    pub fn bits(&self) -> (b: u32)
        ensures
            b == self@,
    {
        self.bits
    }

    /// The set with these bits, or `None` if a bit is not a defined flag.
    pub fn from_bits(bits: u32) -> (f: Option<ScriptEventFlags>)
        ensures
            f is Some <==> bits & !Self::spec_all_bits() == 0,
            f matches Some(g) ==> g@ == bits,
    {
        if bits & !0x1ffffffu32 == 0 {
            Some(ScriptEventFlags { bits })
        } else {
            None
        }
    }

    /// The set of the defined flags among these bits; the others are dropped.
    pub fn from_bits_truncate(bits: u32) -> (f: ScriptEventFlags)
        ensures
            f@ == bits & Self::spec_all_bits(),
    {
        ScriptEventFlags { bits: bits & 0x1ffffff }
    }

    /// Whether every flag of `other` is in this set.
    pub fn contains(&self, other: ScriptEventFlags) -> (r: bool)
        ensures
            r == (self@ & other@ == other@),
    {
        self.bits & other.bits == other.bits
    }

    /// Whether this set and `other` share a flag.
    pub fn intersects(&self, other: ScriptEventFlags) -> (r: bool)
        ensures
            r == (self@ & other@ != 0),
    {
        self.bits & other.bits != 0
    }

    /// Whether the set is empty.
    pub fn is_empty(&self) -> (r: bool)
        ensures
            r == (self@ == 0),
    {
        self.bits == 0
    }

    /// The flags in this set or in `other`.
    pub fn union(self, other: ScriptEventFlags) -> (f: ScriptEventFlags)
        ensures
            f@ == self@ | other@,
    {
        ScriptEventFlags { bits: self.bits | other.bits }
    }

    /// The flags in both this set and `other`.
    pub fn intersection(self, other: ScriptEventFlags) -> (f: ScriptEventFlags)
        ensures
            f@ == self@ & other@,
    {
        ScriptEventFlags { bits: self.bits & other.bits }
    }

    /// Adds the flags of `other`.
    pub fn insert(&mut self, other: ScriptEventFlags)
        ensures
            final(self)@ == old(self)@ | other@,
    {
        self.bits = self.bits | other.bits;
    }

    /// Removes the flags of `other`.
    pub fn remove(&mut self, other: ScriptEventFlags)
        ensures
            final(self)@ == old(self)@ & !other@,
    {
        self.bits = self.bits & !other.bits;
    }
}

impl core::ops::BitOr for ScriptEventFlags {
    type Output = ScriptEventFlags;

    fn bitor(self, rhs: ScriptEventFlags) -> (f: ScriptEventFlags) {
        ScriptEventFlags { bits: self.bits | rhs.bits }
    }
}

impl vstd::std_specs::ops::BitOrSpecImpl for ScriptEventFlags {
    open spec fn obeys_bitor_spec() -> bool {
        true
    }

    open spec fn bitor_req(self, rhs: ScriptEventFlags) -> bool {
        true
    }

    open spec fn bitor_spec(self, rhs: ScriptEventFlags) -> ScriptEventFlags {
        ScriptEventFlags { bits: self.bits | rhs.bits }
    }
}

impl core::ops::BitAnd for ScriptEventFlags {
    type Output = ScriptEventFlags;

    fn bitand(self, rhs: ScriptEventFlags) -> (f: ScriptEventFlags) {
        ScriptEventFlags { bits: self.bits & rhs.bits }
    }
}

impl vstd::std_specs::ops::BitAndSpecImpl for ScriptEventFlags {
    open spec fn obeys_bitand_spec() -> bool {
        true
    }

    open spec fn bitand_req(self, rhs: ScriptEventFlags) -> bool {
        true
    }

    open spec fn bitand_spec(self, rhs: ScriptEventFlags) -> ScriptEventFlags {
        ScriptEventFlags { bits: self.bits & rhs.bits }
    }
}

impl core::ops::BitOrAssign for ScriptEventFlags {
    fn bitor_assign(&mut self, rhs: ScriptEventFlags) {
        self.bits = self.bits | rhs.bits;
    }
}

impl core::default::Default for ScriptEventFlags {
    fn default() -> (f: ScriptEventFlags)
        ensures
            f@ == 0u32,
    {
        ScriptEventFlags { bits: 0 }
    }
}

/// Auxiliary flags: the client's machine type and authentication request.
///
/// A set of flags stored as its `u32` bits; its view is the bits.
#[derive(Debug, Clone, Copy, PartialEq, Eq, Hash)]
pub struct AuxFlags {
    pub bits: u32,
}

impl View for AuxFlags {
    type V = u32;

    open spec fn view(&self) -> u32 {
        self.bits
    }
}

impl AuxFlags {
    /// The bits of every defined flag.
    pub open spec fn spec_all_bits() -> u32 {
        0x8000000fu32
    }

    /// Unknown machine type.
    #[allow(non_snake_case)]
    pub fn UNKNOWN_MACH() -> (f: AuxFlags)
        ensures
            f@ == 0x0u32,
    {
        AuxFlags { bits: 0x0 }
    }

    /// Mac 68k.
    #[allow(non_snake_case)]
    pub fn MAC_68K() -> (f: AuxFlags)
        ensures
            f@ == 0x1u32,
    {
        AuxFlags { bits: 0x1 }
    }

    /// Mac PowerPC.
    #[allow(non_snake_case)]
    pub fn MAC_PPC() -> (f: AuxFlags)
        ensures
            f@ == 0x2u32,
    {
        AuxFlags { bits: 0x2 }
    }

    /// Windows 16-bit.
    #[allow(non_snake_case)]
    pub fn WIN16() -> (f: AuxFlags)
        ensures
            f@ == 0x3u32,
    {
        AuxFlags { bits: 0x3 }
    }

    /// Windows 32-bit.
    #[allow(non_snake_case)]
    pub fn WIN32() -> (f: AuxFlags)
        ensures
            f@ == 0x4u32,
    {
        AuxFlags { bits: 0x4 }
    }

    /// Java client.
    #[allow(non_snake_case)]
    pub fn JAVA() -> (f: AuxFlags)
        ensures
            f@ == 0x5u32,
    {
        AuxFlags { bits: 0x5 }
    }

    /// Machine type mask (bits 0-3).
    #[allow(non_snake_case)]
    pub fn OS_MASK() -> (f: AuxFlags)
        ensures
            f@ == 0xfu32,
    {
        AuxFlags { bits: 0xf }
    }

    /// Request authentication.
    #[allow(non_snake_case)]
    pub fn AUTHENTICATE() -> (f: AuxFlags)
        ensures
            f@ == 0x80000000u32,
    {
        AuxFlags { bits: 0x80000000 }
    }

    /// The empty set.
    pub fn empty() -> (f: AuxFlags)
        ensures
            f@ == 0u32,
    {
        AuxFlags { bits: 0 }
    }

    /// The set of every defined flag.
    pub fn all() -> (f: AuxFlags)
        ensures
            f@ == Self::spec_all_bits(),
    {
        AuxFlags { bits: 0x8000000f }
    }

    /// The raw bits.
    pub fn bits(&self) -> (b: u32)
        ensures
            b == self@,
    {
        self.bits
    }

    /// The set with these bits, or `None` if a bit is not a defined flag.
    pub fn from_bits(bits: u32) -> (f: Option<AuxFlags>)
        ensures
            f is Some <==> bits & !Self::spec_all_bits() == 0,
            f matches Some(g) ==> g@ == bits,
    {
        if bits & !0x8000000fu32 == 0 {
            Some(AuxFlags { bits })
        } else {
            None
        }
    }

    /// The set of the defined flags among these bits; the others are dropped.
    pub fn from_bits_truncate(bits: u32) -> (f: AuxFlags)
        ensures
            f@ == bits & Self::spec_all_bits(),
    {
        AuxFlags { bits: bits & 0x8000000f }
    }

    /// Whether every flag of `other` is in this set.
    pub fn contains(&self, other: AuxFlags) -> (r: bool)
        ensures
            r == (self@ & other@ == other@),
    {
        self.bits & other.bits == other.bits
    }

    /// Whether this set and `other` share a flag.
    pub fn intersects(&self, other: AuxFlags) -> (r: bool)
        ensures
            r == (self@ & other@ != 0),
    {
        self.bits & other.bits != 0
    }

    /// Whether the set is empty.
    pub fn is_empty(&self) -> (r: bool)
        ensures
            r == (self@ == 0),
    {
        self.bits == 0
    }

    /// The flags in this set or in `other`.
    pub fn union(self, other: AuxFlags) -> (f: AuxFlags)
        ensures
            f@ == self@ | other@,
    {
        AuxFlags { bits: self.bits | other.bits }
    }

    /// The flags in both this set and `other`.
    pub fn intersection(self, other: AuxFlags) -> (f: AuxFlags)
        ensures
            f@ == self@ & other@,
    {
        AuxFlags { bits: self.bits & other.bits }
    }

    /// Adds the flags of `other`.
    pub fn insert(&mut self, other: AuxFlags)
        ensures
            final(self)@ == old(self)@ | other@,
    {
        self.bits = self.bits | other.bits;
    }

    /// Removes the flags of `other`.
    pub fn remove(&mut self, other: AuxFlags)
        ensures
            final(self)@ == old(self)@ & !other@,
    {
        self.bits = self.bits & !other.bits;
    }
}

impl core::ops::BitOr for AuxFlags {
    type Output = AuxFlags;

    fn bitor(self, rhs: AuxFlags) -> (f: AuxFlags) {
        AuxFlags { bits: self.bits | rhs.bits }
    }
}

impl vstd::std_specs::ops::BitOrSpecImpl for AuxFlags {
    open spec fn obeys_bitor_spec() -> bool {
        true
    }

    open spec fn bitor_req(self, rhs: AuxFlags) -> bool {
        true
    }

    open spec fn bitor_spec(self, rhs: AuxFlags) -> AuxFlags {
        AuxFlags { bits: self.bits | rhs.bits }
    }
}

impl core::ops::BitAnd for AuxFlags {
    type Output = AuxFlags;

    fn bitand(self, rhs: AuxFlags) -> (f: AuxFlags) {
        AuxFlags { bits: self.bits & rhs.bits }
    }
}

impl vstd::std_specs::ops::BitAndSpecImpl for AuxFlags {
    open spec fn obeys_bitand_spec() -> bool {
        true
    }

    open spec fn bitand_req(self, rhs: AuxFlags) -> bool {
        true
    }

    open spec fn bitand_spec(self, rhs: AuxFlags) -> AuxFlags {
        AuxFlags { bits: self.bits & rhs.bits }
    }
}

impl core::ops::BitOrAssign for AuxFlags {
    fn bitor_assign(&mut self, rhs: AuxFlags) {
        self.bits = self.bits | rhs.bits;
    }
}

impl core::default::Default for AuxFlags {
    fn default() -> (f: AuxFlags)
        ensures
            f@ == 0u32,
    {
        AuxFlags { bits: 0 }
    }
}

/// Upload capabilities: the client's ability to upload assets and files.
///
/// A set of flags stored as its `u32` bits; its view is the bits.
#[derive(Debug, Clone, Copy, PartialEq, Eq, Hash)]
pub struct UploadCaps {
    pub bits: u32,
}

impl View for UploadCaps {
    type V = u32;

    open spec fn view(&self) -> u32 {
        self.bits
    }
}

impl UploadCaps {
    /// The bits of every defined flag.
    pub open spec fn spec_all_bits() -> u32 {
        0x1ffu32
    }

    /// Can upload assets via the Palace protocol.
    #[allow(non_snake_case)]
    pub fn ASSETS_PALACE() -> (f: UploadCaps)
        ensures
            f@ == 0x1u32,
    {
        UploadCaps { bits: 0x1 }
    }

    /// Can upload assets via FTP.
    #[allow(non_snake_case)]
    pub fn ASSETS_FTP() -> (f: UploadCaps)
        ensures
            f@ == 0x2u32,
    {
        UploadCaps { bits: 0x2 }
    }

    /// Can upload assets via HTTP.
    #[allow(non_snake_case)]
    pub fn ASSETS_HTTP() -> (f: UploadCaps)
        ensures
            f@ == 0x4u32,
    {
        UploadCaps { bits: 0x4 }
    }

    /// Can upload assets via other protocols.
    #[allow(non_snake_case)]
    pub fn ASSETS_OTHER() -> (f: UploadCaps)
        ensures
            f@ == 0x8u32,
    {
        UploadCaps { bits: 0x8 }
    }

    /// Can upload files via the Palace protocol.
    #[allow(non_snake_case)]
    pub fn FILES_PALACE() -> (f: UploadCaps)
        ensures
            f@ == 0x10u32,
    {
        UploadCaps { bits: 0x10 }
    }

    /// Can upload files via FTP.
    #[allow(non_snake_case)]
    pub fn FILES_FTP() -> (f: UploadCaps)
        ensures
            f@ == 0x20u32,
    {
        UploadCaps { bits: 0x20 }
    }

    /// Can upload files via HTTP.
    #[allow(non_snake_case)]
    pub fn FILES_HTTP() -> (f: UploadCaps)
        ensures
            f@ == 0x40u32,
    {
        UploadCaps { bits: 0x40 }
    }

    /// Can upload files via other protocols.
    #[allow(non_snake_case)]
    pub fn FILES_OTHER() -> (f: UploadCaps)
        ensures
            f@ == 0x80u32,
    {
        UploadCaps { bits: 0x80 }
    }

    /// Extended packet support.
    #[allow(non_snake_case)]
    pub fn EXTEND_PKT() -> (f: UploadCaps)
        ensures
            f@ == 0x100u32,
    {
        UploadCaps { bits: 0x100 }
    }

    /// The empty set.
    pub fn empty() -> (f: UploadCaps)
        ensures
            f@ == 0u32,
    {
        UploadCaps { bits: 0 }
    }

    /// The set of every defined flag.
    pub fn all() -> (f: UploadCaps)
        ensures
            f@ == Self::spec_all_bits(),
    {
        UploadCaps { bits: 0x1ff }
    }

    /// The raw bits.
    pub fn bits(&self) -> (b: u32)
        ensures
            b == self@,
    {
        self.bits
    }

    /// The set with these bits, or `None` if a bit is not a defined flag.
    pub fn from_bits(bits: u32) -> (f: Option<UploadCaps>)
        ensures
            f is Some <==> bits & !Self::spec_all_bits() == 0,
            f matches Some(g) ==> g@ == bits,
    {
        if bits & !0x1ffu32 == 0 {
            Some(UploadCaps { bits })
        } else {
            None
        }
    }

    /// The set of the defined flags among these bits; the others are dropped.
    pub fn from_bits_truncate(bits: u32) -> (f: UploadCaps)
        ensures
            f@ == bits & Self::spec_all_bits(),
    {
        UploadCaps { bits: bits & 0x1ff }
    }

    /// Whether every flag of `other` is in this set.
    pub fn contains(&self, other: UploadCaps) -> (r: bool)
        ensures
            r == (self@ & other@ == other@),
    {
        self.bits & other.bits == other.bits
    }

    /// Whether this set and `other` share a flag.
    pub fn intersects(&self, other: UploadCaps) -> (r: bool)
        ensures
            r == (self@ & other@ != 0),
    {
        self.bits & other.bits != 0
    }

    /// Whether the set is empty.
    pub fn is_empty(&self) -> (r: bool)
        ensures
            r == (self@ == 0),
    {
        self.bits == 0
    }

    /// The flags in this set or in `other`.
    pub fn union(self, other: UploadCaps) -> (f: UploadCaps)
        ensures
            f@ == self@ | other@,
    {
        UploadCaps { bits: self.bits | other.bits }
    }

    /// The flags in both this set and `other`.
    pub fn intersection(self, other: UploadCaps) -> (f: UploadCaps)
        ensures
            f@ == self@ & other@,
    {
        UploadCaps { bits: self.bits & other.bits }
    }

    /// Adds the flags of `other`.
    pub fn insert(&mut self, other: UploadCaps)
        ensures
            final(self)@ == old(self)@ | other@,
    {
        self.bits = self.bits | other.bits;
    }

    /// Removes the flags of `other`.
    pub fn remove(&mut self, other: UploadCaps)
        ensures
            final(self)@ == old(self)@ & !other@,
    {
        self.bits = self.bits & !other.bits;
    }
}

impl core::ops::BitOr for UploadCaps {
    type Output = UploadCaps;

    fn bitor(self, rhs: UploadCaps) -> (f: UploadCaps) {
        UploadCaps { bits: self.bits | rhs.bits }
    }
}

impl vstd::std_specs::ops::BitOrSpecImpl for UploadCaps {
    open spec fn obeys_bitor_spec() -> bool {
        true
    }

    open spec fn bitor_req(self, rhs: UploadCaps) -> bool {
        true
    }

    open spec fn bitor_spec(self, rhs: UploadCaps) -> UploadCaps {
        UploadCaps { bits: self.bits | rhs.bits }
    }
}

impl core::ops::BitAnd for UploadCaps {
    type Output = UploadCaps;

    fn bitand(self, rhs: UploadCaps) -> (f: UploadCaps) {
        UploadCaps { bits: self.bits & rhs.bits }
    }
}

impl vstd::std_specs::ops::BitAndSpecImpl for UploadCaps {
    open spec fn obeys_bitand_spec() -> bool {
        true
    }

    open spec fn bitand_req(self, rhs: UploadCaps) -> bool {
        true
    }

    open spec fn bitand_spec(self, rhs: UploadCaps) -> UploadCaps {
        UploadCaps { bits: self.bits & rhs.bits }
    }
}

impl core::ops::BitOrAssign for UploadCaps {
    fn bitor_assign(&mut self, rhs: UploadCaps) {
        self.bits = self.bits | rhs.bits;
    }
}

impl core::default::Default for UploadCaps {
    fn default() -> (f: UploadCaps)
        ensures
            f@ == 0u32,
    {
        UploadCaps { bits: 0 }
    }
}

/// Download capabilities: the client's ability to download assets and files.
///
/// A set of flags stored as its `u32` bits; its view is the bits.
#[derive(Debug, Clone, Copy, PartialEq, Eq, Hash)]
pub struct DownloadCaps {
    pub bits: u32,
}

impl View for DownloadCaps {
    type V = u32;

    open spec fn view(&self) -> u32 {
        self.bits
    }
}

impl DownloadCaps {
    /// The bits of every defined flag.
    pub open spec fn spec_all_bits() -> u32 {
        0x3ffu32
    }

    /// Can download assets via the Palace protocol.
    #[allow(non_snake_case)]
    pub fn ASSETS_PALACE() -> (f: DownloadCaps)
        ensures
            f@ == 0x1u32,
    {
        DownloadCaps { bits: 0x1 }
    }

    /// Can download assets via FTP.
    #[allow(non_snake_case)]
    pub fn ASSETS_FTP() -> (f: DownloadCaps)
        ensures
            f@ == 0x2u32,
    {
        DownloadCaps { bits: 0x2 }
    }

    /// Can download assets via HTTP.
    #[allow(non_snake_case)]
    pub fn ASSETS_HTTP() -> (f: DownloadCaps)
        ensures
            f@ == 0x4u32,
    {
        DownloadCaps { bits: 0x4 }
    }

    /// Can download assets via other protocols.
    #[allow(non_snake_case)]
    pub fn ASSETS_OTHER() -> (f: DownloadCaps)
        ensures
            f@ == 0x8u32,
    {
        DownloadCaps { bits: 0x8 }
    }

    /// Can download files via the Palace protocol.
    #[allow(non_snake_case)]
    pub fn FILES_PALACE() -> (f: DownloadCaps)
        ensures
            f@ == 0x10u32,
    {
        DownloadCaps { bits: 0x10 }
    }

    /// Can download files via FTP.
    #[allow(non_snake_case)]
    pub fn FILES_FTP() -> (f: DownloadCaps)
        ensures
            f@ == 0x20u32,
    {
        DownloadCaps { bits: 0x20 }
    }

    /// Can download files via HTTP.
    #[allow(non_snake_case)]
    pub fn FILES_HTTP() -> (f: DownloadCaps)
        ensures
            f@ == 0x40u32,
    {
        DownloadCaps { bits: 0x40 }
    }

    /// Can download files via other protocols.
    #[allow(non_snake_case)]
    pub fn FILES_OTHER() -> (f: DownloadCaps)
        ensures
            f@ == 0x80u32,
    {
        DownloadCaps { bits: 0x80 }
    }

    /// Can download files via an HTTP server.
    #[allow(non_snake_case)]
    pub fn FILES_HTTP_SERVER() -> (f: DownloadCaps)
        ensures
            f@ == 0x100u32,
    {
        DownloadCaps { bits: 0x100 }
    }

    /// Extended packet support.
    #[allow(non_snake_case)]
    pub fn EXTEND_PKT() -> (f: DownloadCaps)
        ensures
            f@ == 0x200u32,
    {
        DownloadCaps { bits: 0x200 }
    }

    /// The empty set.
    pub fn empty() -> (f: DownloadCaps)
        ensures
            f@ == 0u32,
    {
        DownloadCaps { bits: 0 }
    }

    /// The set of every defined flag.
    pub fn all() -> (f: DownloadCaps)
        ensures
            f@ == Self::spec_all_bits(),
    {
        DownloadCaps { bits: 0x3ff }
    }

    /// The raw bits.
    pub fn bits(&self) -> (b: u32)
        ensures
            b == self@,
    {
        self.bits
    }

    /// The set with these bits, or `None` if a bit is not a defined flag.
    pub fn from_bits(bits: u32) -> (f: Option<DownloadCaps>)
        ensures
            f is Some <==> bits & !Self::spec_all_bits() == 0,
            f matches Some(g) ==> g@ == bits,
    {
        if bits & !0x3ffu32 == 0 {
            Some(DownloadCaps { bits })
        } else {
            None
        }
    }

    /// The set of the defined flags among these bits; the others are dropped.
    pub fn from_bits_truncate(bits: u32) -> (f: DownloadCaps)
        ensures
            f@ == bits & Self::spec_all_bits(),
    {
        DownloadCaps { bits: bits & 0x3ff }
    }

    /// Whether every flag of `other` is in this set.
    pub fn contains(&self, other: DownloadCaps) -> (r: bool)
        ensures
            r == (self@ & other@ == other@),
    {
        self.bits & other.bits == other.bits
    }

    /// Whether this set and `other` share a flag.
    pub fn intersects(&self, other: DownloadCaps) -> (r: bool)
        ensures
            r == (self@ & other@ != 0),
    {
        self.bits & other.bits != 0
    }

    /// Whether the set is empty.
    pub fn is_empty(&self) -> (r: bool)
        ensures
            r == (self@ == 0),
    {
        self.bits == 0
    }

    /// The flags in this set or in `other`.
    pub fn union(self, other: DownloadCaps) -> (f: DownloadCaps)
        ensures
            f@ == self@ | other@,
    {
        DownloadCaps { bits: self.bits | other.bits }
    }

    /// The flags in both this set and `other`.
    pub fn intersection(self, other: DownloadCaps) -> (f: DownloadCaps)
        ensures
            f@ == self@ & other@,
    {
        DownloadCaps { bits: self.bits & other.bits }
    }

    /// Adds the flags of `other`.
    pub fn insert(&mut self, other: DownloadCaps)
        ensures
            final(self)@ == old(self)@ | other@,
    {
        self.bits = self.bits | other.bits;
    }

    /// Removes the flags of `other`.
    pub fn remove(&mut self, other: DownloadCaps)
        ensures
            final(self)@ == old(self)@ & !other@,
    {
        self.bits = self.bits & !other.bits;
    }
}

impl core::ops::BitOr for DownloadCaps {
    type Output = DownloadCaps;

    fn bitor(self, rhs: DownloadCaps) -> (f: DownloadCaps) {
        DownloadCaps { bits: self.bits | rhs.bits }
    }
}

impl vstd::std_specs::ops::BitOrSpecImpl for DownloadCaps {
    open spec fn obeys_bitor_spec() -> bool {
        true
    }

    open spec fn bitor_req(self, rhs: DownloadCaps) -> bool {
        true
    }

    open spec fn bitor_spec(self, rhs: DownloadCaps) -> DownloadCaps {
        DownloadCaps { bits: self.bits | rhs.bits }
    }
}

impl core::ops::BitAnd for DownloadCaps {
    type Output = DownloadCaps;

    fn bitand(self, rhs: DownloadCaps) -> (f: DownloadCaps) {
        DownloadCaps { bits: self.bits & rhs.bits }
    }
}

impl vstd::std_specs::ops::BitAndSpecImpl for DownloadCaps {
    open spec fn obeys_bitand_spec() -> bool {
        true
    }

    open spec fn bitand_req(self, rhs: DownloadCaps) -> bool {
        true
    }

    open spec fn bitand_spec(self, rhs: DownloadCaps) -> DownloadCaps {
        DownloadCaps { bits: self.bits & rhs.bits }
    }
}

impl core::ops::BitOrAssign for DownloadCaps {
    fn bitor_assign(&mut self, rhs: DownloadCaps) {
        self.bits = self.bits | rhs.bits;
    }
}

impl core::default::Default for DownloadCaps {
    fn default() -> (f: DownloadCaps)
        ensures
            f@ == 0u32,
    {
        DownloadCaps { bits: 0 }
    }
}

/// 2D engine capabilities.
///
/// A set of flags stored as its `u32` bits; its view is the bits.
#[derive(Debug, Clone, Copy, PartialEq, Eq, Hash)]
pub struct Engine2DCaps {
    pub bits: u32,
}

impl View for Engine2DCaps {
    type V = u32;

    open spec fn view(&self) -> u32 {
        self.bits
    }
}

impl Engine2DCaps {
    /// The bits of every defined flag.
    pub open spec fn spec_all_bits() -> u32 {
        0x3u32
    }

    /// Palace native engine.
    #[allow(non_snake_case)]
    pub fn PALACE() -> (f: Engine2DCaps)
        ensures
            f@ == 0x1u32,
    {
        Engine2DCaps { bits: 0x1 }
    }

    /// Double-byte character support.
    #[allow(non_snake_case)]
    pub fn DOUBLEBYTE() -> (f: Engine2DCaps)
        ensures
            f@ == 0x2u32,
    {
        Engine2DCaps { bits: 0x2 }
    }

    /// The empty set.
    pub fn empty() -> (f: Engine2DCaps)
        ensures
            f@ == 0u32,
    {
        Engine2DCaps { bits: 0 }
    }

    /// The set of every defined flag.
    pub fn all() -> (f: Engine2DCaps)
        ensures
            f@ == Self::spec_all_bits(),
    {
        Engine2DCaps { bits: 0x3 }
    }

    /// The raw bits.
    pub fn bits(&self) -> (b: u32)
        ensures
            b == self@,
    {
        self.bits
    }

    /// The set with these bits, or `None` if a bit is not a defined flag.
    pub fn from_bits(bits: u32) -> (f: Option<Engine2DCaps>)
        ensures
            f is Some <==> bits & !Self::spec_all_bits() == 0,
            f matches Some(g) ==> g@ == bits,
    {
        if bits & !0x3u32 == 0 {
            Some(Engine2DCaps { bits })
        } else {
            None
        }
    }

    /// The set of the defined flags among these bits; the others are dropped.
    pub fn from_bits_truncate(bits: u32) -> (f: Engine2DCaps)
        ensures
            f@ == bits & Self::spec_all_bits(),
    {
        Engine2DCaps { bits: bits & 0x3 }
    }

    /// Whether every flag of `other` is in this set.
    pub fn contains(&self, other: Engine2DCaps) -> (r: bool)
        ensures
            r == (self@ & other@ == other@),
    {
        self.bits & other.bits == other.bits
    }

    /// Whether this set and `other` share a flag.
    pub fn intersects(&self, other: Engine2DCaps) -> (r: bool)
        ensures
            r == (self@ & other@ != 0),
    {
        self.bits & other.bits != 0
    }

    /// Whether the set is empty.
    pub fn is_empty(&self) -> (r: bool)
        ensures
            r == (self@ == 0),
    {
        self.bits == 0
    }

    /// The flags in this set or in `other`.
    pub fn union(self, other: Engine2DCaps) -> (f: Engine2DCaps)
        ensures
            f@ == self@ | other@,
    {
        Engine2DCaps { bits: self.bits | other.bits }
    }

    /// The flags in both this set and `other`.
    pub fn intersection(self, other: Engine2DCaps) -> (f: Engine2DCaps)
        ensures
            f@ == self@ & other@,
    {
        Engine2DCaps { bits: self.bits & other.bits }
    }

    /// Adds the flags of `other`.
    pub fn insert(&mut self, other: Engine2DCaps)
        ensures
            final(self)@ == old(self)@ | other@,
    {
        self.bits = self.bits | other.bits;
    }

    /// Removes the flags of `other`.
    pub fn remove(&mut self, other: Engine2DCaps)
        ensures
            final(self)@ == old(self)@ & !other@,
    {
        self.bits = self.bits & !other.bits;
    }
}

impl core::ops::BitOr for Engine2DCaps {
    type Output = Engine2DCaps;

    fn bitor(self, rhs: Engine2DCaps) -> (f: Engine2DCaps) {
        Engine2DCaps { bits: self.bits | rhs.bits }
    }
}

impl vstd::std_specs::ops::BitOrSpecImpl for Engine2DCaps {
    open spec fn obeys_bitor_spec() -> bool {
        true
    }

    open spec fn bitor_req(self, rhs: Engine2DCaps) -> bool {
        true
    }

    open spec fn bitor_spec(self, rhs: Engine2DCaps) -> Engine2DCaps {
        Engine2DCaps { bits: self.bits | rhs.bits }
    }
}

impl core::ops::BitAnd for Engine2DCaps {
    type Output = Engine2DCaps;

    fn bitand(self, rhs: Engine2DCaps) -> (f: Engine2DCaps) {
        Engine2DCaps { bits: self.bits & rhs.bits }
    }
}

impl vstd::std_specs::ops::BitAndSpecImpl for Engine2DCaps {
    open spec fn obeys_bitand_spec() -> bool {
        true
    }

    open spec fn bitand_req(self, rhs: Engine2DCaps) -> bool {
        true
    }

    open spec fn bitand_spec(self, rhs: Engine2DCaps) -> Engine2DCaps {
        Engine2DCaps { bits: self.bits & rhs.bits }
    }
}

impl core::ops::BitOrAssign for Engine2DCaps {
    fn bitor_assign(&mut self, rhs: Engine2DCaps) {
        self.bits = self.bits | rhs.bits;
    }
}

impl core::default::Default for Engine2DCaps {
    fn default() -> (f: Engine2DCaps)
        ensures
            f@ == 0u32,
    {
        Engine2DCaps { bits: 0 }
    }
}

/// 2D graphics capabilities: the image formats the client supports.
///
/// A set of flags stored as its `u32` bits; its view is the bits.
#[derive(Debug, Clone, Copy, PartialEq, Eq, Hash)]
pub struct Graphics2DCaps {
    pub bits: u32,
}

impl View for Graphics2DCaps {
    type V = u32;

    open spec fn view(&self) -> u32 {
        self.bits
    }
}

impl Graphics2DCaps {
    /// The bits of every defined flag.
    pub open spec fn spec_all_bits() -> u32 {
        0x7fu32
    }

    /// GIF87.
    #[allow(non_snake_case)]
    pub fn GIF87() -> (f: Graphics2DCaps)
        ensures
            f@ == 0x1u32,
    {
        Graphics2DCaps { bits: 0x1 }
    }

    /// GIF89a.
    #[allow(non_snake_case)]
    pub fn GIF89A() -> (f: Graphics2DCaps)
        ensures
            f@ == 0x2u32,
    {
        Graphics2DCaps { bits: 0x2 }
    }

    /// JPEG.
    #[allow(non_snake_case)]
    pub fn JPG() -> (f: Graphics2DCaps)
        ensures
            f@ == 0x4u32,
    {
        Graphics2DCaps { bits: 0x4 }
    }

    /// TIFF.
    #[allow(non_snake_case)]
    pub fn TIFF() -> (f: Graphics2DCaps)
        ensures
            f@ == 0x8u32,
    {
        Graphics2DCaps { bits: 0x8 }
    }

    /// Targa.
    #[allow(non_snake_case)]
    pub fn TARGA() -> (f: Graphics2DCaps)
        ensures
            f@ == 0x10u32,
    {
        Graphics2DCaps { bits: 0x10 }
    }

    /// BMP.
    #[allow(non_snake_case)]
    pub fn BMP() -> (f: Graphics2DCaps)
        ensures
            f@ == 0x20u32,
    {
        Graphics2DCaps { bits: 0x20 }
    }

    /// PICT.
    #[allow(non_snake_case)]
    pub fn PCT() -> (f: Graphics2DCaps)
        ensures
            f@ == 0x40u32,
    {
        Graphics2DCaps { bits: 0x40 }
    }

    /// The empty set.
    pub fn empty() -> (f: Graphics2DCaps)
        ensures
            f@ == 0u32,
    {
        Graphics2DCaps { bits: 0 }
    }

    /// The set of every defined flag.
    pub fn all() -> (f: Graphics2DCaps)
        ensures
            f@ == Self::spec_all_bits(),
    {
        Graphics2DCaps { bits: 0x7f }
    }

    /// The raw bits.
    pub fn bits(&self) -> (b: u32)
        ensures
            b == self@,
    {
        self.bits
    }

    /// The set with these bits, or `None` if a bit is not a defined flag.
    pub fn from_bits(bits: u32) -> (f: Option<Graphics2DCaps>)
        ensures
            f is Some <==> bits & !Self::spec_all_bits() == 0,
            f matches Some(g) ==> g@ == bits,
    {
        if bits & !0x7fu32 == 0 {
            Some(Graphics2DCaps { bits })
        } else {
            None
        }
    }

    /// The set of the defined flags among these bits; the others are dropped.
    pub fn from_bits_truncate(bits: u32) -> (f: Graphics2DCaps)
        ensures
            f@ == bits & Self::spec_all_bits(),
    {
        Graphics2DCaps { bits: bits & 0x7f }
    }

    /// Whether every flag of `other` is in this set.
    pub fn contains(&self, other: Graphics2DCaps) -> (r: bool)
        ensures
            r == (self@ & other@ == other@),
    {
        self.bits & other.bits == other.bits
    }

    /// Whether this set and `other` share a flag.
    pub fn intersects(&self, other: Graphics2DCaps) -> (r: bool)
        ensures
            r == (self@ & other@ != 0),
    {
        self.bits & other.bits != 0
    }

    /// Whether the set is empty.
    pub fn is_empty(&self) -> (r: bool)
        ensures
            r == (self@ == 0),
    {
        self.bits == 0
    }

    /// The flags in this set or in `other`.
    pub fn union(self, other: Graphics2DCaps) -> (f: Graphics2DCaps)
        ensures
            f@ == self@ | other@,
    {
        Graphics2DCaps { bits: self.bits | other.bits }
    }

    /// The flags in both this set and `other`.
    pub fn intersection(self, other: Graphics2DCaps) -> (f: Graphics2DCaps)
        ensures
            f@ == self@ & other@,
    {
        Graphics2DCaps { bits: self.bits & other.bits }
    }

    /// Adds the flags of `other`.
    pub fn insert(&mut self, other: Graphics2DCaps)
        ensures
            final(self)@ == old(self)@ | other@,
    {
        self.bits = self.bits | other.bits;
    }

    /// Removes the flags of `other`.
    pub fn remove(&mut self, other: Graphics2DCaps)
        ensures
            final(self)@ == old(self)@ & !other@,
    {
        self.bits = self.bits & !other.bits;
    }
}

impl core::ops::BitOr for Graphics2DCaps {
    type Output = Graphics2DCaps;

    fn bitor(self, rhs: Graphics2DCaps) -> (f: Graphics2DCaps) {
        Graphics2DCaps { bits: self.bits | rhs.bits }
    }
}

impl vstd::std_specs::ops::BitOrSpecImpl for Graphics2DCaps {
    open spec fn obeys_bitor_spec() -> bool {
        true
    }

    open spec fn bitor_req(self, rhs: Graphics2DCaps) -> bool {
        true
    }

    open spec fn bitor_spec(self, rhs: Graphics2DCaps) -> Graphics2DCaps {
        Graphics2DCaps { bits: self.bits | rhs.bits }
    }
}

impl core::ops::BitAnd for Graphics2DCaps {
    type Output = Graphics2DCaps;

    fn bitand(self, rhs: Graphics2DCaps) -> (f: Graphics2DCaps) {
        Graphics2DCaps { bits: self.bits & rhs.bits }
    }
}

impl vstd::std_specs::ops::BitAndSpecImpl for Graphics2DCaps {
    open spec fn obeys_bitand_spec() -> bool {
        true
    }

    open spec fn bitand_req(self, rhs: Graphics2DCaps) -> bool {
        true
    }

    open spec fn bitand_spec(self, rhs: Graphics2DCaps) -> Graphics2DCaps {
        Graphics2DCaps { bits: self.bits & rhs.bits }
    }
}

impl core::ops::BitOrAssign for Graphics2DCaps {
    fn bitor_assign(&mut self, rhs: Graphics2DCaps) {
        self.bits = self.bits | rhs.bits;
    }
}

impl core::default::Default for Graphics2DCaps {
    fn default() -> (f: Graphics2DCaps)
        ensures
            f@ == 0u32,
    {
        Graphics2DCaps { bits: 0 }
    }
}

/// 3D engine capabilities.
///
/// A set of flags stored as its `u32` bits; its view is the bits.
#[derive(Debug, Clone, Copy, PartialEq, Eq, Hash)]
pub struct Engine3DCaps {
    pub bits: u32,
}

impl View for Engine3DCaps {
    type V = u32;

    open spec fn view(&self) -> u32 {
        self.bits
    }
}

impl Engine3DCaps {
    /// The bits of every defined flag.
    pub open spec fn spec_all_bits() -> u32 {
        0x3u32
    }

    /// VRML 1.0.
    #[allow(non_snake_case)]
    pub fn VRML1() -> (f: Engine3DCaps)
        ensures
            f@ == 0x1u32,
    {
        Engine3DCaps { bits: 0x1 }
    }

    /// VRML 2.0.
    #[allow(non_snake_case)]
    pub fn VRML2() -> (f: Engine3DCaps)
        ensures
            f@ == 0x2u32,
    {
        Engine3DCaps { bits: 0x2 }
    }

    /// The empty set.
    pub fn empty() -> (f: Engine3DCaps)
        ensures
            f@ == 0u32,
    {
        Engine3DCaps { bits: 0 }
    }

    /// The set of every defined flag.
    pub fn all() -> (f: Engine3DCaps)
        ensures
            f@ == Self::spec_all_bits(),
    {
        Engine3DCaps { bits: 0x3 }
    }

    /// The raw bits.
    pub fn bits(&self) -> (b: u32)
        ensures
            b == self@,
    {
        self.bits
    }

    /// The set with these bits, or `None` if a bit is not a defined flag.
    pub fn from_bits(bits: u32) -> (f: Option<Engine3DCaps>)
        ensures
            f is Some <==> bits & !Self::spec_all_bits() == 0,
            f matches Some(g) ==> g@ == bits,
    {
        if bits & !0x3u32 == 0 {
            Some(Engine3DCaps { bits })
        } else {
            None
        }
    }

    /// The set of the defined flags among these bits; the others are dropped.
    pub fn from_bits_truncate(bits: u32) -> (f: Engine3DCaps)
        ensures
            f@ == bits & Self::spec_all_bits(),
    {
        Engine3DCaps { bits: bits & 0x3 }
    }

    /// Whether every flag of `other` is in this set.
    pub fn contains(&self, other: Engine3DCaps) -> (r: bool)
        ensures
            r == (self@ & other@ == other@),
    {
        self.bits & other.bits == other.bits
    }

    /// Whether this set and `other` share a flag.
    pub fn intersects(&self, other: Engine3DCaps) -> (r: bool)
        ensures
            r == (self@ & other@ != 0),
    {
        self.bits & other.bits != 0
    }

    /// Whether the set is empty.
    pub fn is_empty(&self) -> (r: bool)
        ensures
            r == (self@ == 0),
    {
        self.bits == 0
    }

    /// The flags in this set or in `other`.
    pub fn union(self, other: Engine3DCaps) -> (f: Engine3DCaps)
        ensures
            f@ == self@ | other@,
    {
        Engine3DCaps { bits: self.bits | other.bits }
    }

    /// The flags in both this set and `other`.
    pub fn intersection(self, other: Engine3DCaps) -> (f: Engine3DCaps)
        ensures
            f@ == self@ & other@,
    {
        Engine3DCaps { bits: self.bits & other.bits }
    }

    /// Adds the flags of `other`.
    pub fn insert(&mut self, other: Engine3DCaps)
        ensures
            final(self)@ == old(self)@ | other@,
    {
        self.bits = self.bits | other.bits;
    }

    /// Removes the flags of `other`.
    pub fn remove(&mut self, other: Engine3DCaps)
        ensures
            final(self)@ == old(self)@ & !other@,
    {
        self.bits = self.bits & !other.bits;
    }
}

impl core::ops::BitOr for Engine3DCaps {
    type Output = Engine3DCaps;

    fn bitor(self, rhs: Engine3DCaps) -> (f: Engine3DCaps) {
        Engine3DCaps { bits: self.bits | rhs.bits }
    }
}

impl vstd::std_specs::ops::BitOrSpecImpl for Engine3DCaps {
    open spec fn obeys_bitor_spec() -> bool {
        true
    }

    open spec fn bitor_req(self, rhs: Engine3DCaps) -> bool {
        true
    }

    open spec fn bitor_spec(self, rhs: Engine3DCaps) -> Engine3DCaps {
        Engine3DCaps { bits: self.bits | rhs.bits }
    }
}

impl core::ops::BitAnd for Engine3DCaps {
    type Output = Engine3DCaps;

    fn bitand(self, rhs: Engine3DCaps) -> (f: Engine3DCaps) {
        Engine3DCaps { bits: self.bits & rhs.bits }
    }
}

impl vstd::std_specs::ops::BitAndSpecImpl for Engine3DCaps {
    open spec fn obeys_bitand_spec() -> bool {
        true
    }

    open spec fn bitand_req(self, rhs: Engine3DCaps) -> bool {
        true
    }

    open spec fn bitand_spec(self, rhs: Engine3DCaps) -> Engine3DCaps {
        Engine3DCaps { bits: self.bits & rhs.bits }
    }
}

impl core::ops::BitOrAssign for Engine3DCaps {
    fn bitor_assign(&mut self, rhs: Engine3DCaps) {
        self.bits = self.bits | rhs.bits;
    }
}

impl core::default::Default for Engine3DCaps {
    fn default() -> (f: Engine3DCaps)
        ensures
            f@ == 0u32,
    {
        Engine3DCaps { bits: 0 }
    }
}


} // verus!
