//! Going to a room and the room description sequence.
use vstd::prelude::*;
use crate::buffer::{i16_at, i16_be, read_i16, write_i16, ErrorKind, WireError};
use crate::messages::message::{Message, MessagePayload};
use crate::messages::message_id::MessageId;
use crate::messages::room::records::RoomRec;

verus! {

broadcast use vstd::seq_lib::group_seq_properties;

/// Asks to go to a room (`navR`).
#[derive(Debug, Clone, Copy, PartialEq, Eq)]
pub struct RoomGotoMsg {
    pub dest: i16,
}

impl RoomGotoMsg {
    /// Reads the message: the destination room.
    pub fn from_bytes(data: &[u8]) -> (r: Result<RoomGotoMsg, WireError>)
        ensures
            data@.len() < 2 ==> (r matches Err(e) && e.kind == ErrorKind::UnexpectedEof),
            data@.len() >= 2 ==> (r matches Ok(m) && m.dest == i16_at(data@, 0)),
    {
        if data.len() < 2 {
            return Err(WireError::new(ErrorKind::UnexpectedEof));
        }
        Ok(RoomGotoMsg { dest: read_i16(data, 0) })
    }

    /// Writes the message.
    pub fn to_bytes(&self, buf: &mut Vec<u8>)
        ensures
            final(buf)@ == old(buf)@ + i16_be(self.dest),
    {
        write_i16(buf, self.dest);
    }

    /// The complete message with the given reference number.
    pub fn to_message(&self, ref_num: i32) -> (m: Message)
        ensures
            m.msg_id == MessageId::RoomGoto && m.ref_num == ref_num && m.payload@ == i16_be(self.dest),
    {
        let mut payload: Vec<u8> = Vec::new();
        self.to_bytes(&mut payload);
        Message::new(MessageId::RoomGoto, ref_num, payload)
    }
}

/// Ends a room description (`endr`): it carries nothing.
#[derive(Debug, Clone, Copy, PartialEq, Eq)]
pub struct RoomDescEndMsg;

impl RoomDescEndMsg {
    /// Reads the message: whatever the payload, it carries nothing.
    pub fn from_bytes(data: &[u8]) -> (r: Result<RoomDescEndMsg, WireError>)
        ensures
            r is Ok,
    {
        Ok(RoomDescEndMsg)
    }

    /// Writes the message: nothing.
    pub fn to_bytes(&self, buf: &mut Vec<u8>)
        ensures
            final(buf)@ == old(buf)@,
    {
    }

    /// The complete message with the given reference number.
    pub fn to_message(&self, ref_num: i32) -> (m: Message)
        ensures
            m.msg_id == MessageId::RoomDescEnd && m.ref_num == ref_num && m.payload@.len() == 0,
    {
        Message::new_empty(MessageId::RoomDescEnd, ref_num)
    }
}

/// Describes a room (`room`): its record.
#[derive(Debug, Clone, PartialEq)]
pub struct RoomDescMsg {
    pub room: RoomRec,
}

impl RoomDescMsg {
    /// Reads the message: a room record.
    pub fn from_bytes(data: &[u8]) -> (r: Result<RoomDescMsg, WireError>)
        ensures
            match r {
                Ok(m) => RoomRec::fits_at(data@, 0) && RoomRec::is_at(m.room, data@, 0),
                Err(e) => !RoomRec::fits_at(data@, 0) && e.kind == ErrorKind::UnexpectedEof,
            },
    {
        match RoomRec::from_bytes(data) {
            Ok(room) => Ok(RoomDescMsg { room }),
            Err(e) => Err(e),
        }
    }

    /// Writes the message: the room record.
    pub fn to_bytes(&self, buf: &mut Vec<u8>)
        ensures
            final(buf)@ == old(buf)@ + self.room.spec_bytes(),
    {
        self.room.to_bytes(buf);
    }

    /// The complete message with the given reference number.
    pub fn to_message(&self, ref_num: i32) -> (m: Message)
        ensures
            m.msg_id == MessageId::RoomDesc && m.ref_num == ref_num && m.payload@ == self.room.spec_bytes(),
    {
        let mut payload: Vec<u8> = Vec::new();
        self.to_bytes(&mut payload);
        Message::new(MessageId::RoomDesc, ref_num, payload)
    }
}


impl MessagePayload for RoomDescEndMsg {
    open spec fn spec_message_id() -> MessageId {
        MessageId::RoomDescEnd
    }

    open spec fn readable(data: Seq<u8>) -> bool {
        true
    }

    open spec fn read_is(data: Seq<u8>, r: Result<RoomDescEndMsg, WireError>) -> bool {
        &&& (r is Ok)
    }

    open spec fn writable(&self) -> bool {
        true
    }

    open spec fn payload_bytes(&self) -> Seq<u8> {
        Seq::empty()
    }

    fn message_id() -> (id: MessageId) {
        MessageId::RoomDescEnd
    }

    fn read_payload(data: &[u8]) -> (r: Result<RoomDescEndMsg, WireError>) {
        RoomDescEndMsg::from_bytes(data)
    }

    fn write_payload(&self, buf: &mut Vec<u8>) {
        self.to_bytes(buf)
    }
}

impl MessagePayload for RoomDescMsg {
    open spec fn spec_message_id() -> MessageId {
        MessageId::RoomDesc
    }

    open spec fn readable(data: Seq<u8>) -> bool {
        true
    }

    open spec fn read_is(data: Seq<u8>, r: Result<RoomDescMsg, WireError>) -> bool {
        &&& (match r { Ok(m) => RoomRec::fits_at(data, 0) && RoomRec::is_at(m.room, data, 0), Err(e) => !RoomRec::fits_at(data, 0) && e.kind == ErrorKind::UnexpectedEof, })
    }

    open spec fn writable(&self) -> bool {
        true
    }

    open spec fn payload_bytes(&self) -> Seq<u8> {
        self.room.spec_bytes()
    }

    fn message_id() -> (id: MessageId) {
        MessageId::RoomDesc
    }

    fn read_payload(data: &[u8]) -> (r: Result<RoomDescMsg, WireError>) {
        RoomDescMsg::from_bytes(data)
    }

    fn write_payload(&self, buf: &mut Vec<u8>) {
        self.to_bytes(buf)
    }
}

impl MessagePayload for RoomGotoMsg {
    open spec fn spec_message_id() -> MessageId {
        MessageId::RoomGoto
    }

    open spec fn readable(data: Seq<u8>) -> bool {
        true
    }

    open spec fn read_is(data: Seq<u8>, r: Result<RoomGotoMsg, WireError>) -> bool {
        &&& (data.len() < 2 ==> (r matches Err(e) && e.kind == ErrorKind::UnexpectedEof))
        &&& (data.len() >= 2 ==> (r matches Ok(m) && m.dest == i16_at(data, 0)))
    }

    open spec fn writable(&self) -> bool {
        true
    }

    open spec fn payload_bytes(&self) -> Seq<u8> {
        i16_be(self.dest)
    }

    fn message_id() -> (id: MessageId) {
        MessageId::RoomGoto
    }

    fn read_payload(data: &[u8]) -> (r: Result<RoomGotoMsg, WireError>) {
        RoomGotoMsg::from_bytes(data)
    }

    fn write_payload(&self, buf: &mut Vec<u8>) {
        self.to_bytes(buf)
    }
}

} // verus!
