//! Declarations of rooms in Palace server script files.
//!
//! A server script file (such as a mansion's `.ipt` file) declares rooms
//! with a meta-syntax of its own, separate from the scripts that run:
//!
//! ```text
//! ROOM
//!   ID 100
//!   NAME "Entrance Hall"
//!   PICT "entrance.gif"
//!   PRIVATE
//!   DOOR
//!     ID 1
//!     DEST 200
//!     OUTLINE 10,10 50,10 50,200 10,200
//!   ENDDOOR
//!   SPOT
//!     ID 2
//!     NAME "Button"
//!     OUTLINE 100,100 200,100 200,200 100,200
//!     SCRIPT
//!       ON SELECT { "You clicked!" SAY }
//!     ENDSCRIPT
//!   ENDSPOT
//! ENDROOM
//! ```
use vstd::prelude::*;
use crate::iptscrae::ast::Script;
use crate::Point;

verus! {

/// A complete room declaration.
#[derive(Debug, Clone, PartialEq)]
pub struct RoomDecl {
    /// Room ID number (required, unique).
    pub id: i16,
    /// Room name.
    pub name: Option<String>,
    /// Background picture file name.
    pub pict: Option<String>,
    /// Artist name.
    pub artist: Option<String>,
    /// Room password.
    pub password: Option<String>,
    /// Room flags.
    pub flags: RoomFlags,
    /// Additional picture layers.
    pub pictures: Vec<PictureDecl>,
    /// Doors: spots that lead to other rooms.
    pub doors: Vec<DoorDecl>,
    /// Ordinary hotspots.
    pub spots: Vec<SpotDecl>,
}

/// Flags that a room declaration can set.
#[derive(Debug, Clone, Copy, PartialEq, Eq, Default)]
pub struct RoomFlags {
    /// The user count is hidden in the room list.
    pub private: bool,
    /// Painting is prohibited.
    pub no_painting: bool,
    /// User scripts (cyborgs) are prohibited.
    pub no_cyborgs: bool,
    /// The room is hidden from the room list.
    pub hidden: bool,
    /// Guests may not enter.
    pub no_guests: bool,
}

impl RoomFlags {
    /// No flag set.
    pub fn none() -> (f: RoomFlags)
        ensures
            !f.private && !f.no_painting && !f.no_cyborgs && !f.hidden && !f.no_guests,
    {
        RoomFlags { private: false, no_painting: false, no_cyborgs: false, hidden: false, no_guests: false }
    }
}

/// A picture layer declaration.
#[derive(Debug, Clone, PartialEq)]
pub struct PictureDecl {
    /// Picture ID number.
    pub id: i16,
    /// Picture file name.
    pub name: String,
    /// Transparent colour.
    pub trans_color: Option<i16>,
}

/// A door: a hotspot that leads to another room.
#[derive(Debug, Clone, PartialEq)]
pub struct DoorDecl {
    /// Door ID number (required, unique within the room).
    pub id: i16,
    /// Destination room ID.
    pub dest: i16,
    /// Door name.
    pub name: Option<String>,
    /// Polygon outline.
    pub outline: Vec<Point>,
    /// Door states (pictures).
    pub picts: Vec<StateDecl>,
    /// Script attached to the door.
    pub script: Option<Script>,
}

/// An ordinary hotspot.
#[derive(Debug, Clone, PartialEq)]
pub struct SpotDecl {
    /// Spot ID number (required, unique within the room).
    pub id: i16,
    /// Spot name.
    pub name: Option<String>,
    /// Polygon outline.
    pub outline: Vec<Point>,
    /// Spot states (pictures).
    pub picts: Vec<StateDecl>,
    /// Script attached to the spot.
    pub script: Option<Script>,
}

/// A state of a hotspot: a picture and its offset from the hotspot's
/// location. State 0 is the first in the list, state 1 the second, and so on.
#[derive(Debug, Clone, Copy, PartialEq, Eq)]
pub struct StateDecl {
    /// Picture ID shown in this state.
    pub pic_id: i16,
    /// Horizontal offset (negative is left).
    pub x_offset: i16,
    /// Vertical offset (negative is up).
    pub y_offset: i16,
}

} // verus!
