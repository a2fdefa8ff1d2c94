//! Locking and unlocking doors.
use vstd::prelude::*;
use crate::buffer::{
    i16_at, i16_be, i32_at, i32_be, lemma_i16_in, lemma_i32_in, read_i16, read_i32, write_i16, write_i32,
    ErrorKind, WireError,
};

use crate::messages::message_id::MessageId;
use crate::messages::message::MessagePayload;
verus! {

broadcast use vstd::seq_lib::group_seq_properties;

/// Locks a door (`lock`): the room and the door's hotspot.
#[derive(Debug, Clone, Copy, PartialEq, Eq)]
pub struct DoorLockMsg {
    pub room_id: i16,
    pub door_id: i32,
}

/// Unlocks a door (`unlo`): the room and the door's hotspot.
#[derive(Debug, Clone, Copy, PartialEq, Eq)]
pub struct DoorUnlockMsg {
    pub room_id: i16,
    pub door_id: i32,
}

/// The room and door read from the start of `s`.
pub open spec fn door_at(s: Seq<u8>) -> (i16, i32) {
    (i16_at(s, 0), i32_at(s, 2))
}

/// The bytes of a room and a door.
pub open spec fn door_bytes(room_id: i16, door_id: i32) -> Seq<u8> {
    i16_be(room_id) + i32_be(door_id)
}

/// A room and door are read back from their bytes.
pub proof fn lemma_door_roundtrip(room_id: i16, door_id: i32, rest: Seq<u8>)
    ensures
        door_at(door_bytes(room_id, door_id) + rest) == (room_id, door_id),
{
    let s = door_bytes(room_id, door_id) + rest;
    assert(s.subrange(0, 2) =~= i16_be(room_id));
    assert(s.subrange(2, 6) =~= i32_be(door_id));
    lemma_i16_in(s, 0, room_id);
    lemma_i32_in(s, 2, door_id);
}

impl DoorLockMsg {
    /// Locks the given door.
    pub fn new(room_id: i16, door_id: i32) -> (m: DoorLockMsg)
        ensures
            m.room_id == room_id && m.door_id == door_id,
    {
        DoorLockMsg { room_id, door_id }
    }

    /// Reads the message: the room and the door.
    pub fn from_bytes(data: &[u8]) -> (r: Result<DoorLockMsg, WireError>)
        ensures
            data@.len() < 6 ==> (r matches Err(e) && e.kind == ErrorKind::UnexpectedEof),
            data@.len() >= 6 ==> (r matches Ok(m) && (m.room_id, m.door_id) == door_at(data@)),
    {
        if data.len() < 6 {
            return Err(WireError::new(ErrorKind::UnexpectedEof));
        }
        Ok(DoorLockMsg { room_id: read_i16(data, 0), door_id: read_i32(data, 2) })
    }

    /// Writes the message.
    pub fn to_bytes(&self, buf: &mut Vec<u8>)
        ensures
            final(buf)@ == old(buf)@ + door_bytes(self.room_id, self.door_id),
    {
        write_i16(buf, self.room_id);
        write_i32(buf, self.door_id);
        assert(final(buf)@ =~= old(buf)@ + door_bytes(self.room_id, self.door_id));
    }
}

impl DoorUnlockMsg {
    /// Unlocks the given door.
    pub fn new(room_id: i16, door_id: i32) -> (m: DoorUnlockMsg)
        ensures
            m.room_id == room_id && m.door_id == door_id,
    {
        DoorUnlockMsg { room_id, door_id }
    }

    /// Reads the message: the room and the door.
    pub fn from_bytes(data: &[u8]) -> (r: Result<DoorUnlockMsg, WireError>)
        ensures
            data@.len() < 6 ==> (r matches Err(e) && e.kind == ErrorKind::UnexpectedEof),
            data@.len() >= 6 ==> (r matches Ok(m) && (m.room_id, m.door_id) == door_at(data@)),
    {
        if data.len() < 6 {
            return Err(WireError::new(ErrorKind::UnexpectedEof));
        }
        Ok(DoorUnlockMsg { room_id: read_i16(data, 0), door_id: read_i32(data, 2) })
    }

    /// Writes the message.
    pub fn to_bytes(&self, buf: &mut Vec<u8>)
        ensures
            final(buf)@ == old(buf)@ + door_bytes(self.room_id, self.door_id),
    {
        write_i16(buf, self.room_id);
        write_i32(buf, self.door_id);
        assert(final(buf)@ =~= old(buf)@ + door_bytes(self.room_id, self.door_id));
    }
}


impl MessagePayload for DoorLockMsg {
    open spec fn spec_message_id() -> MessageId {
        MessageId::DoorLock
    }

    open spec fn readable(data: Seq<u8>) -> bool {
        true
    }

    open spec fn read_is(data: Seq<u8>, r: Result<DoorLockMsg, WireError>) -> bool {
        &&& (data.len() < 6 ==> (r matches Err(e) && e.kind == ErrorKind::UnexpectedEof))
        &&& (data.len() >= 6 ==> (r matches Ok(m) && (m.room_id, m.door_id) == door_at(data)))
    }

    open spec fn writable(&self) -> bool {
        true
    }

    open spec fn payload_bytes(&self) -> Seq<u8> {
        door_bytes(self.room_id, self.door_id)
    }

    fn message_id() -> (id: MessageId) {
        MessageId::DoorLock
    }

    fn read_payload(data: &[u8]) -> (r: Result<DoorLockMsg, WireError>) {
        DoorLockMsg::from_bytes(data)
    }

    fn write_payload(&self, buf: &mut Vec<u8>) {
        self.to_bytes(buf)
    }
}

impl MessagePayload for DoorUnlockMsg {
    open spec fn spec_message_id() -> MessageId {
        MessageId::DoorUnlock
    }

    open spec fn readable(data: Seq<u8>) -> bool {
        true
    }

    open spec fn read_is(data: Seq<u8>, r: Result<DoorUnlockMsg, WireError>) -> bool {
        &&& (data.len() < 6 ==> (r matches Err(e) && e.kind == ErrorKind::UnexpectedEof))
        &&& (data.len() >= 6 ==> (r matches Ok(m) && (m.room_id, m.door_id) == door_at(data)))
    }

    open spec fn writable(&self) -> bool {
        true
    }

    open spec fn payload_bytes(&self) -> Seq<u8> {
        door_bytes(self.room_id, self.door_id)
    }

    fn message_id() -> (id: MessageId) {
        MessageId::DoorUnlock
    }

    fn read_payload(data: &[u8]) -> (r: Result<DoorUnlockMsg, WireError>) {
        DoorUnlockMsg::from_bytes(data)
    }

    fn write_payload(&self, buf: &mut Vec<u8>) {
        self.to_bytes(buf)
    }
}

} // verus!
