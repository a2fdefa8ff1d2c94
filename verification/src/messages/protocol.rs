//! Protocol housekeeping messages: version, user status and navigation
//! errors.
use vstd::prelude::*;
use crate::buffer::{i16_at, i16_be, read_i16, write_i16, ErrorKind, WireError};

use crate::messages::message_id::MessageId;
use crate::messages::message::MessagePayload;
verus! {

/// The version message (`vers`): it carries nothing.
#[derive(Debug, Clone, Copy, PartialEq, Eq)]
pub struct VersionMsg;

impl VersionMsg {
    /// Reads the message: whatever the payload, it carries nothing.
    pub fn from_bytes(data: &[u8]) -> (r: Result<VersionMsg, WireError>)
        ensures
            r is Ok,
    {
        Ok(VersionMsg)
    }

    /// Writes the message: nothing.
    pub fn to_bytes(&self, buf: &mut Vec<u8>)
        ensures
            final(buf)@ == old(buf)@,
    {
    }
}

/// A user's status flags (`uSta`).
#[derive(Debug, Clone, Copy, PartialEq, Eq)]
pub struct UserStatusMsg {
    pub flags: i16,
}

impl UserStatusMsg {
    /// The message with the given flags.
    pub fn new(flags: i16) -> (m: UserStatusMsg)
        ensures
            m.flags == flags,
    {
        UserStatusMsg { flags }
    }

    /// Reads the message: the flags.
    pub fn from_bytes(data: &[u8]) -> (r: Result<UserStatusMsg, WireError>)
        ensures
            data@.len() < 2 ==> (r matches Err(e) && e.kind == ErrorKind::UnexpectedEof),
            data@.len() >= 2 ==> (r matches Ok(m) && m.flags == i16_at(data@, 0)),
    {
        if data.len() < 2 {
            return Err(WireError::new(ErrorKind::UnexpectedEof));
        }
        Ok(UserStatusMsg { flags: read_i16(data, 0) })
    }

    /// Writes the message.
    pub fn to_bytes(&self, buf: &mut Vec<u8>)
        ensures
            final(buf)@ == old(buf)@ + i16_be(self.flags),
    {
        write_i16(buf, self.flags);
    }
}

/// Why a move to a room failed.
#[derive(Debug, Clone, Copy, PartialEq, Eq, Structural)]
pub enum NavErrorCode {
    InternalError,
    RoomUnknown,
    RoomFull,
    RoomClosed,
    CantAuthor,
    PalaceFull,
}

/// The wire number of each navigation error.
pub open spec fn nav_error_number(c: NavErrorCode) -> i32 {
    match c {
        NavErrorCode::InternalError => 0,
        NavErrorCode::RoomUnknown => 1,
        NavErrorCode::RoomFull => 2,
        NavErrorCode::RoomClosed => 3,
        NavErrorCode::CantAuthor => 4,
        NavErrorCode::PalaceFull => 5,
    }
}

impl NavErrorCode {
    /// The error with the given number, if any (0 to 5).
    pub fn from_i32(value: i32) -> (r: Option<NavErrorCode>)
        ensures
            match r {
                Some(c) => nav_error_number(c) == value,
                None => !(0 <= value <= 5),
            },
    {
        match value {
            0 => Some(NavErrorCode::InternalError),
            1 => Some(NavErrorCode::RoomUnknown),
            2 => Some(NavErrorCode::RoomFull),
            3 => Some(NavErrorCode::RoomClosed),
            4 => Some(NavErrorCode::CantAuthor),
            5 => Some(NavErrorCode::PalaceFull),
            _ => None,
        }
    }

    /// The number of this error.
    pub fn to_i32(self) -> (v: i32)
        ensures
            v == nav_error_number(self),
    {
        match self {
            NavErrorCode::InternalError => 0,
            NavErrorCode::RoomUnknown => 1,
            NavErrorCode::RoomFull => 2,
            NavErrorCode::RoomClosed => 3,
            NavErrorCode::CantAuthor => 4,
            NavErrorCode::PalaceFull => 5,
        }
    }
}

/// A navigation error read back from its number is the error itself.
pub proof fn lemma_nav_error_roundtrip(c: NavErrorCode)
    ensures
        0 <= nav_error_number(c) <= 5,
        forall|x: NavErrorCode| nav_error_number(x) == nav_error_number(c) ==> x == c,
{
}

/// A navigation error message (`sErr`); the code travels in the reference
/// number.
#[derive(Debug, Clone, Copy, PartialEq, Eq)]
pub struct NavErrorMsg;

impl NavErrorMsg {
    /// Reads the message: whatever the payload, it carries nothing.
    pub fn from_bytes(data: &[u8]) -> (r: Result<NavErrorMsg, WireError>)
        ensures
            r is Ok,
    {
        Ok(NavErrorMsg)
    }

    /// Writes the message: nothing.
    pub fn to_bytes(&self, buf: &mut Vec<u8>)
        ensures
            final(buf)@ == old(buf)@,
    {
    }
}


impl MessagePayload for NavErrorMsg {
    open spec fn spec_message_id() -> MessageId {
        MessageId::NavError
    }

    open spec fn readable(data: Seq<u8>) -> bool {
        true
    }

    open spec fn read_is(data: Seq<u8>, r: Result<NavErrorMsg, WireError>) -> bool {
        &&& (r is Ok)
    }

    open spec fn writable(&self) -> bool {
        true
    }

    open spec fn payload_bytes(&self) -> Seq<u8> {
        Seq::empty()
    }

    fn message_id() -> (id: MessageId) {
        MessageId::NavError
    }

    fn read_payload(data: &[u8]) -> (r: Result<NavErrorMsg, WireError>) {
        NavErrorMsg::from_bytes(data)
    }

    fn write_payload(&self, buf: &mut Vec<u8>) {
        self.to_bytes(buf)
    }
}

impl MessagePayload for UserStatusMsg {
    open spec fn spec_message_id() -> MessageId {
        MessageId::UserStatus
    }

    open spec fn readable(data: Seq<u8>) -> bool {
        true
    }

    open spec fn read_is(data: Seq<u8>, r: Result<UserStatusMsg, WireError>) -> bool {
        &&& (data.len() < 2 ==> (r matches Err(e) && e.kind == ErrorKind::UnexpectedEof))
        &&& (data.len() >= 2 ==> (r matches Ok(m) && m.flags == i16_at(data, 0)))
    }

    open spec fn writable(&self) -> bool {
        true
    }

    open spec fn payload_bytes(&self) -> Seq<u8> {
        i16_be(self.flags)
    }

    fn message_id() -> (id: MessageId) {
        MessageId::UserStatus
    }

    fn read_payload(data: &[u8]) -> (r: Result<UserStatusMsg, WireError>) {
        UserStatusMsg::from_bytes(data)
    }

    fn write_payload(&self, buf: &mut Vec<u8>) {
        self.to_bytes(buf)
    }
}

impl MessagePayload for VersionMsg {
    open spec fn spec_message_id() -> MessageId {
        MessageId::Version
    }

    open spec fn readable(data: Seq<u8>) -> bool {
        true
    }

    open spec fn read_is(data: Seq<u8>, r: Result<VersionMsg, WireError>) -> bool {
        &&& (r is Ok)
    }

    open spec fn writable(&self) -> bool {
        true
    }

    open spec fn payload_bytes(&self) -> Seq<u8> {
        Seq::empty()
    }

    fn message_id() -> (id: MessageId) {
        MessageId::Version
    }

    fn read_payload(data: &[u8]) -> (r: Result<VersionMsg, WireError>) {
        VersionMsg::from_bytes(data)
    }

    fn write_payload(&self, buf: &mut Vec<u8>) {
        self.to_bytes(buf)
    }
}

} // verus!
