//! Hotspot messages: deleting, moving, creating and changing the state of
//! a hotspot.
use vstd::prelude::*;
use crate::buffer::{
    i16_at, i16_be, i32_at, i32_be, lemma_i16_in, lemma_i32_in, read_i16, read_i32, write_i16, write_i32,
    ErrorKind, WireError,
};
use crate::Point;

use crate::messages::message_id::MessageId;
use crate::messages::message::MessagePayload;
verus! {

broadcast use vstd::seq_lib::group_seq_properties;

/// Deletes a hotspot (`opSd`).
#[derive(Debug, Clone, Copy, PartialEq, Eq)]
pub struct SpotDelMsg {
    pub spot_id: i32,
}

impl SpotDelMsg {
    /// Deletes the given hotspot.
    pub fn new(spot_id: i32) -> (m: SpotDelMsg)
        ensures
            m.spot_id == spot_id,
    {
        SpotDelMsg { spot_id }
    }

    /// Reads the message: the hotspot ID.
    pub fn from_bytes(data: &[u8]) -> (r: Result<SpotDelMsg, WireError>)
        ensures
            data@.len() < 4 ==> (r matches Err(e) && e.kind == ErrorKind::UnexpectedEof),
            data@.len() >= 4 ==> (r matches Ok(m) && m.spot_id == i32_at(data@, 0)),
    {
        if data.len() < 4 {
            return Err(WireError::new(ErrorKind::UnexpectedEof));
        }
        Ok(SpotDelMsg { spot_id: read_i32(data, 0) })
    }

    /// Writes the message.
    pub fn to_bytes(&self, buf: &mut Vec<u8>)
        ensures
            final(buf)@ == old(buf)@ + i32_be(self.spot_id),
    {
        write_i32(buf, self.spot_id);
    }
}

/// Moves a hotspot (`coLs`): room, hotspot and new position.
#[derive(Debug, Clone, Copy, PartialEq, Eq)]
pub struct SpotMoveMsg {
    pub room_id: i16,
    pub spot_id: i32,
    pub pos: Point,
}

/// A room, a hotspot and a position read from the start of `s`.
pub open spec fn spot_pos_at(s: Seq<u8>) -> (i16, i32, Point) {
    (i16_at(s, 0), i32_at(s, 2), Point::spec_at(s, 6))
}

/// The bytes of a room, a hotspot and a position.
pub open spec fn spot_pos_bytes(room_id: i16, spot_id: i32, pos: Point) -> Seq<u8> {
    i16_be(room_id) + i32_be(spot_id) + pos.spec_bytes()
}

/// A room, hotspot and position are read back from their bytes.
pub proof fn lemma_spot_pos_roundtrip(room_id: i16, spot_id: i32, pos: Point, rest: Seq<u8>)
    ensures
        spot_pos_at(spot_pos_bytes(room_id, spot_id, pos) + rest) == (room_id, spot_id, pos),
{
    let s = spot_pos_bytes(room_id, spot_id, pos) + rest;
    assert(s.subrange(0, 2) =~= i16_be(room_id));
    assert(s.subrange(2, 6) =~= i32_be(spot_id));
    assert(s.subrange(6, 10) =~= pos.spec_bytes());
    lemma_i16_in(s, 0, room_id);
    lemma_i32_in(s, 2, spot_id);
    pos.lemma_read_back(s, 6);
}

impl SpotMoveMsg {
    /// Moves the given hotspot of a room to a position.
    pub fn new(room_id: i16, spot_id: i32, pos: Point) -> (m: SpotMoveMsg)
        ensures
            m.room_id == room_id && m.spot_id == spot_id && m.pos == pos,
    {
        SpotMoveMsg { room_id, spot_id, pos }
    }

    /// Reads the message: room, hotspot and position.
    pub fn from_bytes(data: &[u8]) -> (r: Result<SpotMoveMsg, WireError>)
        ensures
            data@.len() < 10 ==> (r matches Err(e) && e.kind == ErrorKind::UnexpectedEof),
            data@.len() >= 10 ==> (r matches Ok(m) && (m.room_id, m.spot_id, m.pos) == spot_pos_at(data@)),
    {
        if data.len() < 10 {
            return Err(WireError::new(ErrorKind::UnexpectedEof));
        }
        Ok(SpotMoveMsg { room_id: read_i16(data, 0), spot_id: read_i32(data, 2), pos: Point::read_at(data, 6) })
    }

    /// Writes the message.
    pub fn to_bytes(&self, buf: &mut Vec<u8>)
        ensures
            final(buf)@ == old(buf)@ + spot_pos_bytes(self.room_id, self.spot_id, self.pos),
    {
        write_i16(buf, self.room_id);
        write_i32(buf, self.spot_id);
        self.pos.to_bytes(buf);
        assert(final(buf)@ =~= old(buf)@ + spot_pos_bytes(self.room_id, self.spot_id, self.pos));
    }
}

/// Asks for a new hotspot (`opSn`): it carries nothing.
#[derive(Debug, Clone, Copy, PartialEq, Eq, Default)]
pub struct SpotNewMsg;

impl SpotNewMsg {
    /// Reads the message: whatever the payload, it carries nothing.
    pub fn from_bytes(data: &[u8]) -> (r: Result<SpotNewMsg, WireError>)
        ensures
            r is Ok,
    {
        Ok(SpotNewMsg)
    }

    /// Writes the message: nothing.
    pub fn to_bytes(&self, buf: &mut Vec<u8>)
        ensures
            final(buf)@ == old(buf)@,
    {
    }
}

/// Sets a hotspot's state (`sSta`): room, hotspot and state.
#[derive(Debug, Clone, Copy, PartialEq, Eq)]
pub struct SpotStateMsg {
    pub room_id: i16,
    pub spot_id: i32,
    pub state: i16,
}

/// A room, a hotspot and a state read from the start of `s`.
pub open spec fn spot_state_at(s: Seq<u8>) -> (i16, i32, i16) {
    (i16_at(s, 0), i32_at(s, 2), i16_at(s, 6))
}

/// The bytes of a room, a hotspot and a state.
pub open spec fn spot_state_bytes(room_id: i16, spot_id: i32, state: i16) -> Seq<u8> {
    i16_be(room_id) + i32_be(spot_id) + i16_be(state)
}

/// A room, hotspot and state are read back from their bytes.
pub proof fn lemma_spot_state_roundtrip(room_id: i16, spot_id: i32, state: i16, rest: Seq<u8>)
    ensures
        spot_state_at(spot_state_bytes(room_id, spot_id, state) + rest) == (room_id, spot_id, state),
{
    let s = spot_state_bytes(room_id, spot_id, state) + rest;
    assert(s.subrange(0, 2) =~= i16_be(room_id));
    assert(s.subrange(2, 6) =~= i32_be(spot_id));
    assert(s.subrange(6, 8) =~= i16_be(state));
    lemma_i16_in(s, 0, room_id);
    lemma_i32_in(s, 2, spot_id);
    lemma_i16_in(s, 6, state);
}

impl SpotStateMsg {
    /// Sets the state of the given hotspot of a room.
    pub fn new(room_id: i16, spot_id: i32, state: i16) -> (m: SpotStateMsg)
        ensures
            m.room_id == room_id && m.spot_id == spot_id && m.state == state,
    {
        SpotStateMsg { room_id, spot_id, state }
    }

    /// Reads the message: room, hotspot and state.
    pub fn from_bytes(data: &[u8]) -> (r: Result<SpotStateMsg, WireError>)
        ensures
            data@.len() < 8 ==> (r matches Err(e) && e.kind == ErrorKind::UnexpectedEof),
            data@.len() >= 8 ==> (r matches Ok(m) && (m.room_id, m.spot_id, m.state) == spot_state_at(data@)),
    {
        if data.len() < 8 {
            return Err(WireError::new(ErrorKind::UnexpectedEof));
        }
        Ok(SpotStateMsg { room_id: read_i16(data, 0), spot_id: read_i32(data, 2), state: read_i16(data, 6) })
    }

    /// Writes the message.
    pub fn to_bytes(&self, buf: &mut Vec<u8>)
        ensures
            final(buf)@ == old(buf)@ + spot_state_bytes(self.room_id, self.spot_id, self.state),
    {
        write_i16(buf, self.room_id);
        write_i32(buf, self.spot_id);
        write_i16(buf, self.state);
        assert(final(buf)@ =~= old(buf)@ + spot_state_bytes(self.room_id, self.spot_id, self.state));
    }
}


impl MessagePayload for SpotDelMsg {
    open spec fn spec_message_id() -> MessageId {
        MessageId::SpotDel
    }

    open spec fn readable(data: Seq<u8>) -> bool {
        true
    }

    open spec fn read_is(data: Seq<u8>, r: Result<SpotDelMsg, WireError>) -> bool {
        &&& (data.len() < 4 ==> (r matches Err(e) && e.kind == ErrorKind::UnexpectedEof))
        &&& (data.len() >= 4 ==> (r matches Ok(m) && m.spot_id == i32_at(data, 0)))
    }

    open spec fn writable(&self) -> bool {
        true
    }

    open spec fn payload_bytes(&self) -> Seq<u8> {
        i32_be(self.spot_id)
    }

    fn message_id() -> (id: MessageId) {
        MessageId::SpotDel
    }

    fn read_payload(data: &[u8]) -> (r: Result<SpotDelMsg, WireError>) {
        SpotDelMsg::from_bytes(data)
    }

    fn write_payload(&self, buf: &mut Vec<u8>) {
        self.to_bytes(buf)
    }
}

impl MessagePayload for SpotMoveMsg {
    open spec fn spec_message_id() -> MessageId {
        MessageId::SpotMove
    }

    open spec fn readable(data: Seq<u8>) -> bool {
        true
    }

    open spec fn read_is(data: Seq<u8>, r: Result<SpotMoveMsg, WireError>) -> bool {
        &&& (data.len() < 10 ==> (r matches Err(e) && e.kind == ErrorKind::UnexpectedEof))
        &&& (data.len() >= 10 ==> (r matches Ok(m) && (m.room_id, m.spot_id, m.pos) == spot_pos_at(data)))
    }

    open spec fn writable(&self) -> bool {
        true
    }

    open spec fn payload_bytes(&self) -> Seq<u8> {
        spot_pos_bytes(self.room_id, self.spot_id, self.pos)
    }

    fn message_id() -> (id: MessageId) {
        MessageId::SpotMove
    }

    fn read_payload(data: &[u8]) -> (r: Result<SpotMoveMsg, WireError>) {
        SpotMoveMsg::from_bytes(data)
    }

    fn write_payload(&self, buf: &mut Vec<u8>) {
        self.to_bytes(buf)
    }
}

impl MessagePayload for SpotNewMsg {
    open spec fn spec_message_id() -> MessageId {
        MessageId::SpotNew
    }

    open spec fn readable(data: Seq<u8>) -> bool {
        true
    }

    open spec fn read_is(data: Seq<u8>, r: Result<SpotNewMsg, WireError>) -> bool {
        &&& (r is Ok)
    }

    open spec fn writable(&self) -> bool {
        true
    }

    open spec fn payload_bytes(&self) -> Seq<u8> {
        Seq::empty()
    }

    fn message_id() -> (id: MessageId) {
        MessageId::SpotNew
    }

    fn read_payload(data: &[u8]) -> (r: Result<SpotNewMsg, WireError>) {
        SpotNewMsg::from_bytes(data)
    }

    fn write_payload(&self, buf: &mut Vec<u8>) {
        self.to_bytes(buf)
    }
}

impl MessagePayload for SpotStateMsg {
    open spec fn spec_message_id() -> MessageId {
        MessageId::SpotState
    }

    open spec fn readable(data: Seq<u8>) -> bool {
        true
    }

    open spec fn read_is(data: Seq<u8>, r: Result<SpotStateMsg, WireError>) -> bool {
        &&& (data.len() < 8 ==> (r matches Err(e) && e.kind == ErrorKind::UnexpectedEof))
        &&& (data.len() >= 8 ==> (r matches Ok(m) && (m.room_id, m.spot_id, m.state) == spot_state_at(data)))
    }

    open spec fn writable(&self) -> bool {
        true
    }

    open spec fn payload_bytes(&self) -> Seq<u8> {
        spot_state_bytes(self.room_id, self.spot_id, self.state)
    }

    fn message_id() -> (id: MessageId) {
        MessageId::SpotState
    }

    fn read_payload(data: &[u8]) -> (r: Result<SpotStateMsg, WireError>) {
        SpotStateMsg::from_bytes(data)
    }

    fn write_payload(&self, buf: &mut Vec<u8>) {
        self.to_bytes(buf)
    }
}

} // verus!
