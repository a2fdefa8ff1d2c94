//! Kinds and states of room hotspots.
//!
//! Hotspots are the interactive areas of a room: they hold scripts, lead to
//! other rooms, or control access.
use vstd::prelude::*;

verus! {

/// The kind of a hotspot.
#[derive(Debug, Clone, Copy, PartialEq, Eq, Hash, Structural)]
pub enum HotspotType {
    /// A plain script holder.
    Normal,
    /// Leads to another room.
    Door,
    /// A door that can be opened and closed.
    ShutableDoor,
    /// A door that can be locked and unlocked.
    LockableDoor,
    /// Locks and unlocks other doors.
    Bolt,
    /// A movement hint.
    NavArea,
}

/// The wire number of each hotspot kind.
pub open spec fn hotspot_type_number(t: HotspotType) -> i16 {
    match t {
        HotspotType::Normal => 0,
        HotspotType::Door => 1,
        HotspotType::ShutableDoor => 2,
        HotspotType::LockableDoor => 3,
        HotspotType::Bolt => 4,
        HotspotType::NavArea => 5,
    }
}

impl HotspotType {
    /// The kind with the given wire number, if any (0 to 5).
    pub fn from_i16(value: i16) -> (r: Option<HotspotType>)
        ensures
            match r {
                Some(t) => hotspot_type_number(t) == value,
                None => !(0 <= value <= 5),
            },
    {
        match value {
            0 => Some(HotspotType::Normal),
            1 => Some(HotspotType::Door),
            2 => Some(HotspotType::ShutableDoor),
            3 => Some(HotspotType::LockableDoor),
            4 => Some(HotspotType::Bolt),
            5 => Some(HotspotType::NavArea),
            _ => None,
        }
    }

    /// The wire number of this kind.
    pub fn as_i16(&self) -> (v: i16)
        ensures
            v == hotspot_type_number(*self),
    {
        match self {
            HotspotType::Normal => 0,
            HotspotType::Door => 1,
            HotspotType::ShutableDoor => 2,
            HotspotType::LockableDoor => 3,
            HotspotType::Bolt => 4,
            HotspotType::NavArea => 5,
        }
    }

    /// Whether this kind is one of the doors (plain, shutable or lockable).
    pub fn is_door(&self) -> (b: bool)
        ensures
            b == (*self is Door || *self is ShutableDoor || *self is LockableDoor),
    {
        match self {
            HotspotType::Door | HotspotType::ShutableDoor | HotspotType::LockableDoor => true,
            _ => false,
        }
    }
}

/// A kind read back from its wire number is the kind itself.
pub proof fn lemma_hotspot_type_roundtrip(t: HotspotType)
    ensures
        0 <= hotspot_type_number(t) <= 5,
        forall|u: HotspotType| hotspot_type_number(u) == hotspot_type_number(t) ==> u == t,
{
}

impl From<HotspotType> for i16 {
    fn from(ht: HotspotType) -> (v: i16) {
        ht.as_i16()
    }
}

impl vstd::std_specs::convert::FromSpecImpl<HotspotType> for i16 {
    open spec fn obeys_from_spec() -> bool {
        true
    }

    open spec fn from_spec(ht: HotspotType) -> i16 {
        hotspot_type_number(ht)
    }
}

/// The state of a hotspot.
#[derive(Debug, Clone, Copy, PartialEq, Eq, Hash, Structural)]
pub enum HotspotState {
    /// Unlocked or open.
    Unlocked,
    /// Locked or closed.
    Locked,
}

/// The wire number of each hotspot state.
pub open spec fn hotspot_state_number(s: HotspotState) -> i16 {
    match s {
        HotspotState::Unlocked => 0,
        HotspotState::Locked => 1,
    }
}

impl HotspotState {
    /// The state with the given wire number, if any (0 or 1).
    pub fn from_i16(value: i16) -> (r: Option<HotspotState>)
        ensures
            match r {
                Some(s) => hotspot_state_number(s) == value,
                None => !(0 <= value <= 1),
            },
    {
        match value {
            0 => Some(HotspotState::Unlocked),
            1 => Some(HotspotState::Locked),
            _ => None,
        }
    }

    /// The wire number of this state.
    pub fn as_i16(&self) -> (v: i16)
        ensures
            v == hotspot_state_number(*self),
    {
        match self {
            HotspotState::Unlocked => 0,
            HotspotState::Locked => 1,
        }
    }
}

impl From<HotspotState> for i16 {
    fn from(state: HotspotState) -> (v: i16) {
        state.as_i16()
    }
}

impl vstd::std_specs::convert::FromSpecImpl<HotspotState> for i16 {
    open spec fn obeys_from_spec() -> bool {
        true
    }

    open spec fn from_spec(state: HotspotState) -> i16 {
        hotspot_state_number(state)
    }
}

} // verus!
