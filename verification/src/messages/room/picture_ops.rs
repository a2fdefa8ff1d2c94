//! Moving a picture layer.
use vstd::prelude::*;
use crate::buffer::{read_i16, read_i32, write_i16, write_i32, ErrorKind, WireError};
use crate::messages::room::hotspot_ops::{spot_pos_at, spot_pos_bytes};
use crate::Point;

use crate::messages::message_id::MessageId;
use crate::messages::message::MessagePayload;
verus! {

broadcast use vstd::seq_lib::group_seq_properties;

/// Moves a picture (`pLoc`): room, the picture's hotspot and new position.
#[derive(Debug, Clone, Copy, PartialEq, Eq)]
pub struct PictMoveMsg {
    pub room_id: i16,
    pub spot_id: i32,
    pub pos: Point,
}

impl PictMoveMsg {
    /// Moves the given picture of a room to a position.
    pub fn new(room_id: i16, spot_id: i32, pos: Point) -> (m: PictMoveMsg)
        ensures
            m.room_id == room_id && m.spot_id == spot_id && m.pos == pos,
    {
        PictMoveMsg { room_id, spot_id, pos }
    }

    /// Reads the message: room, picture and position.
    pub fn from_bytes(data: &[u8]) -> (r: Result<PictMoveMsg, WireError>)
        ensures
            data@.len() < 10 ==> (r matches Err(e) && e.kind == ErrorKind::UnexpectedEof),
            data@.len() >= 10 ==> (r matches Ok(m) && (m.room_id, m.spot_id, m.pos) == spot_pos_at(data@)),
    {
        if data.len() < 10 {
            return Err(WireError::new(ErrorKind::UnexpectedEof));
        }
        Ok(PictMoveMsg { room_id: read_i16(data, 0), spot_id: read_i32(data, 2), pos: Point::read_at(data, 6) })
    }

    /// Writes the message.
    pub fn to_bytes(&self, buf: &mut Vec<u8>)
        ensures
            final(buf)@ == old(buf)@ + spot_pos_bytes(self.room_id, self.spot_id, self.pos),
    {
        write_i16(buf, self.room_id);
        write_i32(buf, self.spot_id);
        self.pos.to_bytes(buf);
        assert(final(buf)@ =~= old(buf)@ + spot_pos_bytes(self.room_id, self.spot_id, self.pos));
    }
}


impl MessagePayload for PictMoveMsg {
    open spec fn spec_message_id() -> MessageId {
        MessageId::PictMove
    }

    open spec fn readable(data: Seq<u8>) -> bool {
        true
    }

    open spec fn read_is(data: Seq<u8>, r: Result<PictMoveMsg, WireError>) -> bool {
        &&& (data.len() < 10 ==> (r matches Err(e) && e.kind == ErrorKind::UnexpectedEof))
        &&& (data.len() >= 10 ==> (r matches Ok(m) && (m.room_id, m.spot_id, m.pos) == spot_pos_at(data)))
    }

    open spec fn writable(&self) -> bool {
        true
    }

    open spec fn payload_bytes(&self) -> Seq<u8> {
        spot_pos_bytes(self.room_id, self.spot_id, self.pos)
    }

    fn message_id() -> (id: MessageId) {
        MessageId::PictMove
    }

    fn read_payload(data: &[u8]) -> (r: Result<PictMoveMsg, WireError>) {
        PictMoveMsg::from_bytes(data)
    }

    fn write_payload(&self, buf: &mut Vec<u8>) {
        self.to_bytes(buf)
    }
}

} // verus!
