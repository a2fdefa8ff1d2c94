//! The event mask: a set of script events, as stored on the wire.
use vstd::prelude::*;

verus! {

/// Script event mask: the events that a script handles.
///
/// A set of flags stored as its `u32` bits; its view is the bits.
#[derive(Debug, Clone, Copy, PartialEq, Eq, Hash)]
pub struct EventMask {
    pub bits: u32,
}

impl View for EventMask {
    type V = u32;

    open spec fn view(&self) -> u32 {
        self.bits
    }
}

impl EventMask {
    /// The bits of every defined flag.
    pub open spec fn spec_all_bits() -> u32 {
        0x1ffffffu32
    }

    /// Hotspot selected.
    #[allow(non_snake_case)]
    pub fn SELECT() -> (f: EventMask)
        ensures
            f@ == 0x1u32,
    {
        EventMask { bits: 0x1 }
    }

    /// Door locked.
    #[allow(non_snake_case)]
    pub fn LOCK() -> (f: EventMask)
        ensures
            f@ == 0x2u32,
    {
        EventMask { bits: 0x2 }
    }

    /// Door unlocked.
    #[allow(non_snake_case)]
    pub fn UNLOCK() -> (f: EventMask)
        ensures
            f@ == 0x4u32,
    {
        EventMask { bits: 0x4 }
    }

    /// Hotspot hidden.
    #[allow(non_snake_case)]
    pub fn HIDE() -> (f: EventMask)
        ensures
            f@ == 0x8u32,
    {
        EventMask { bits: 0x8 }
    }

    /// Hotspot shown.
    #[allow(non_snake_case)]
    pub fn SHOW() -> (f: EventMask)
        ensures
            f@ == 0x10u32,
    {
        EventMask { bits: 0x10 }
    }

    /// Room startup.
    #[allow(non_snake_case)]
    pub fn STARTUP() -> (f: EventMask)
        ensures
            f@ == 0x20u32,
    {
        EventMask { bits: 0x20 }
    }

    /// Timer alarm.
    #[allow(non_snake_case)]
    pub fn ALARM() -> (f: EventMask)
        ensures
            f@ == 0x40u32,
    {
        EventMask { bits: 0x40 }
    }

    /// Custom event.
    #[allow(non_snake_case)]
    pub fn CUSTOM() -> (f: EventMask)
        ensures
            f@ == 0x80u32,
    {
        EventMask { bits: 0x80 }
    }

    /// Chat received.
    #[allow(non_snake_case)]
    pub fn INCHAT() -> (f: EventMask)
        ensures
            f@ == 0x100u32,
    {
        EventMask { bits: 0x100 }
    }

    /// Prop changed.
    #[allow(non_snake_case)]
    pub fn PROPCHANGE() -> (f: EventMask)
        ensures
            f@ == 0x200u32,
    {
        EventMask { bits: 0x200 }
    }

    /// User entered the room.
    #[allow(non_snake_case)]
    pub fn ENTER() -> (f: EventMask)
        ensures
            f@ == 0x400u32,
    {
        EventMask { bits: 0x400 }
    }

    /// User left the room.
    #[allow(non_snake_case)]
    pub fn LEAVE() -> (f: EventMask)
        ensures
            f@ == 0x800u32,
    {
        EventMask { bits: 0x800 }
    }

    /// Chat sent.
    #[allow(non_snake_case)]
    pub fn OUTCHAT() -> (f: EventMask)
        ensures
            f@ == 0x1000u32,
    {
        EventMask { bits: 0x1000 }
    }

    /// User signed on.
    #[allow(non_snake_case)]
    pub fn SIGNON() -> (f: EventMask)
        ensures
            f@ == 0x2000u32,
    {
        EventMask { bits: 0x2000 }
    }

    /// User signed off.
    #[allow(non_snake_case)]
    pub fn SIGNOFF() -> (f: EventMask)
        ensures
            f@ == 0x4000u32,
    {
        EventMask { bits: 0x4000 }
    }

    /// Macro 0 triggered.
    #[allow(non_snake_case)]
    pub fn MACRO0() -> (f: EventMask)
        ensures
            f@ == 0x8000u32,
    {
        EventMask { bits: 0x8000 }
    }

    /// Macro 1 triggered.
    #[allow(non_snake_case)]
    pub fn MACRO1() -> (f: EventMask)
        ensures
            f@ == 0x10000u32,
    {
        EventMask { bits: 0x10000 }
    }

    /// Macro 2 triggered.
    #[allow(non_snake_case)]
    pub fn MACRO2() -> (f: EventMask)
        ensures
            f@ == 0x20000u32,
    {
        EventMask { bits: 0x20000 }
    }

    /// Macro 3 triggered.
    #[allow(non_snake_case)]
    pub fn MACRO3() -> (f: EventMask)
        ensures
            f@ == 0x40000u32,
    {
        EventMask { bits: 0x40000 }
    }

    /// Macro 4 triggered.
    #[allow(non_snake_case)]
    pub fn MACRO4() -> (f: EventMask)
        ensures
            f@ == 0x80000u32,
    {
        EventMask { bits: 0x80000 }
    }

    /// Macro 5 triggered.
    #[allow(non_snake_case)]
    pub fn MACRO5() -> (f: EventMask)
        ensures
            f@ == 0x100000u32,
    {
        EventMask { bits: 0x100000 }
    }

    /// Macro 6 triggered.
    #[allow(non_snake_case)]
    pub fn MACRO6() -> (f: EventMask)
        ensures
            f@ == 0x200000u32,
    {
        EventMask { bits: 0x200000 }
    }

    /// Macro 7 triggered.
    #[allow(non_snake_case)]
    pub fn MACRO7() -> (f: EventMask)
        ensures
            f@ == 0x400000u32,
    {
        EventMask { bits: 0x400000 }
    }

    /// Macro 8 triggered.
    #[allow(non_snake_case)]
    pub fn MACRO8() -> (f: EventMask)
        ensures
            f@ == 0x800000u32,
    {
        EventMask { bits: 0x800000 }
    }

    /// Macro 9 triggered.
    #[allow(non_snake_case)]
    pub fn MACRO9() -> (f: EventMask)
        ensures
            f@ == 0x1000000u32,
    {
        EventMask { bits: 0x1000000 }
    }

    /// The empty set.
    pub fn empty() -> (f: EventMask)
        ensures
            f@ == 0u32,
    {
        EventMask { bits: 0 }
    }

    /// The set of every defined flag.
    pub fn all() -> (f: EventMask)
        ensures
            f@ == Self::spec_all_bits(),
    {
        EventMask { bits: 0x1ffffff }
    }

    /// The raw bits.
    pub fn bits(&self) -> (b: u32)
        ensures
            b == self@,
    {
        self.bits
    }

    /// The set with these bits, or `None` if a bit is not a defined flag.
    pub fn from_bits(bits: u32) -> (f: Option<EventMask>)
        ensures
            f is Some <==> bits & !Self::spec_all_bits() == 0,
            f matches Some(g) ==> g@ == bits,
    {
        if bits & !0x1ffffffu32 == 0 {
            Some(EventMask { bits })
        } else {
            None
        }
    }

    /// The set of the defined flags among these bits; the others are dropped.
    pub fn from_bits_truncate(bits: u32) -> (f: EventMask)
        ensures
            f@ == bits & Self::spec_all_bits(),
    {
        EventMask { bits: bits & 0x1ffffff }
    }

    /// Whether every flag of `other` is in this set.
    pub fn contains(&self, other: EventMask) -> (r: bool)
        ensures
            r == (self@ & other@ == other@),
    {
        self.bits & other.bits == other.bits
    }

    /// Whether this set and `other` share a flag.
    pub fn intersects(&self, other: EventMask) -> (r: bool)
        ensures
            r == (self@ & other@ != 0),
    {
        self.bits & other.bits != 0
    }

    /// Whether the set is empty.
    pub fn is_empty(&self) -> (r: bool)
        ensures
            r == (self@ == 0),
    {
        self.bits == 0
    }

    /// The flags in this set or in `other`.
    pub fn union(self, other: EventMask) -> (f: EventMask)
        ensures
            f@ == self@ | other@,
    {
        EventMask { bits: self.bits | other.bits }
    }

    /// The flags in both this set and `other`.
    pub fn intersection(self, other: EventMask) -> (f: EventMask)
        ensures
            f@ == self@ & other@,
    {
        EventMask { bits: self.bits & other.bits }
    }

    /// Adds the flags of `other`.
    pub fn insert(&mut self, other: EventMask)
        ensures
            final(self)@ == old(self)@ | other@,
    {
        self.bits = self.bits | other.bits;
    }

    /// Removes the flags of `other`.
    pub fn remove(&mut self, other: EventMask)
        ensures
            final(self)@ == old(self)@ & !other@,
    {
        self.bits = self.bits & !other.bits;
    }
}

impl core::ops::BitOr for EventMask {
    type Output = EventMask;

    fn bitor(self, rhs: EventMask) -> (f: EventMask) {
        EventMask { bits: self.bits | rhs.bits }
    }
}

impl vstd::std_specs::ops::BitOrSpecImpl for EventMask {
    open spec fn obeys_bitor_spec() -> bool {
        true
    }

    open spec fn bitor_req(self, rhs: EventMask) -> bool {
        true
    }

    open spec fn bitor_spec(self, rhs: EventMask) -> EventMask {
        EventMask { bits: self.bits | rhs.bits }
    }
}

impl core::ops::BitAnd for EventMask {
    type Output = EventMask;

    fn bitand(self, rhs: EventMask) -> (f: EventMask) {
        EventMask { bits: self.bits & rhs.bits }
    }
}

impl vstd::std_specs::ops::BitAndSpecImpl for EventMask {
    open spec fn obeys_bitand_spec() -> bool {
        true
    }

    open spec fn bitand_req(self, rhs: EventMask) -> bool {
        true
    }

    open spec fn bitand_spec(self, rhs: EventMask) -> EventMask {
        EventMask { bits: self.bits & rhs.bits }
    }
}

impl core::ops::BitOrAssign for EventMask {
    fn bitor_assign(&mut self, rhs: EventMask)
        ensures
            final(self)@ == old(self)@ | rhs@,
    {
        self.bits = self.bits | rhs.bits;
    }
}

impl core::default::Default for EventMask {
    fn default() -> (f: EventMask)
        ensures
            f@ == 0u32,
    {
        EventMask { bits: 0 }
    }
}


impl core::convert::From<i32> for EventMask {
    fn from(v: i32) -> (m: EventMask) {
        EventMask::from_bits_truncate(v as u32)
    }
}

impl vstd::std_specs::convert::FromSpecImpl<i32> for EventMask {
    open spec fn obeys_from_spec() -> bool {
        true
    }

    open spec fn from_spec(v: i32) -> EventMask {
        EventMask { bits: (v as u32) & 0x1ffffffu32 }
    }
}

impl core::convert::From<EventMask> for i32 {
    fn from(m: EventMask) -> (v: i32) {
        m.bits as i32
    }
}

impl vstd::std_specs::convert::FromSpecImpl<EventMask> for i32 {
    open spec fn obeys_from_spec() -> bool {
        true
    }

    open spec fn from_spec(m: EventMask) -> i32 {
        m@ as i32
    }
}

impl EventMask {
    /// The mask as the signed 32-bit value stored on the wire.
    pub fn to_i32(self) -> (v: i32)
        ensures
            v == self@ as i32,
    {
        self.bits as i32
    }
}

} // verus!
