//! Room lists and loose prop messages.
use vstd::prelude::*;
use crate::buffer::{
    get_pstring, i16_at, i16_be, i32_at, i32_be, pstring_bytes, pstring_fits, read_i16, read_i32,
    spec_get_pstring, try_put_pstring, write_i16, write_i32, ErrorKind, WireError,
};
use crate::messages::flags::RoomFlags;
use crate::{AssetSpec, Point};

use crate::messages::message_id::MessageId;
use crate::messages::message::MessagePayload;
verus! {

broadcast use vstd::seq_lib::group_seq_properties;

/// An entry of the room list: ID, flags, number of users and name.
#[derive(Debug, Clone, PartialEq)]
pub struct RoomListRec {
    pub room_id: i32,
    pub flags: RoomFlags,
    pub nbr_users: i16,
    pub name: String,
}

/// Reading a room list entry at `p`: its fields and the position after
/// it, or why it fails (the flags keep their defined bits).
pub open spec fn spec_room_list_rec(s: Seq<u8>, p: int) -> Result<(i32, u16, i16, Seq<char>, int), ErrorKind> {
    if p + 8 > s.len() {
        Err(ErrorKind::UnexpectedEof)
    } else {
        match spec_get_pstring(s, p + 8) {
            Ok((t, q)) => Ok((i32_at(s, p), (i16_at(s, p + 4) as u16) & 0x3ffu16, i16_at(s, p + 6), t, q)),
            Err(k) => Err(k),
        }
    }
}

/// Whether `r` is the room list entry read at `p`.
pub open spec fn rec_at(s: Seq<u8>, p: int, r: RoomListRec) -> bool {
    spec_room_list_rec(s, p) matches Ok((id, f, n, t, _)) && r.room_id == id && r.flags@ == f
        && r.nbr_users == n && r.name@ == t
}

/// Whether `r` is a room list entry read somewhere in `s`.
pub open spec fn rec_in(s: Seq<u8>, r: RoomListRec) -> bool {
    exists|p: int| 0 <= p < s.len() && #[trigger] rec_at(s, p, r)
}

/// The bytes of a room list entry.
pub open spec fn room_list_rec_bytes(r: RoomListRec) -> Seq<u8> {
    i32_be(r.room_id) + i16_be(r.flags.bits as i16) + i16_be(r.nbr_users) + pstring_bytes(r.name@)
}

impl RoomListRec {
    /// Reads an entry at `pos`.
    pub fn parse_at(data: &[u8], pos: usize) -> (r: Result<(RoomListRec, usize), WireError>)
        ensures
            match spec_room_list_rec(data@, pos as int) {
                Ok((id, f, n, t, q)) => r matches Ok((rec, np)) && rec.room_id == id && rec.flags@ == f
                    && rec.nbr_users == n && rec.name@ == t && np == q,
                Err(k) => r matches Err(e) && e.kind == k,
            },
    {
        if pos > data.len() || data.len() - pos < 8 {
            return Err(WireError::new(ErrorKind::UnexpectedEof));
        }
        let room_id = read_i32(data, pos);
        let flags = RoomFlags::from_bits_truncate(read_i16(data, pos + 4) as u16);
        let nbr_users = read_i16(data, pos + 6);
        match get_pstring(data, pos + 8) {
            Ok((name, np)) => Ok((RoomListRec { room_id, flags, nbr_users, name }, np)),
            Err(e) => Err(e),
        }
    }

    /// Reads an entry at the start of `data`.
    pub fn from_bytes(data: &[u8]) -> (r: Result<RoomListRec, WireError>)
        ensures
            match spec_room_list_rec(data@, 0) {
                Ok((id, f, n, t, _)) => r matches Ok(rec) && rec.room_id == id && rec.flags@ == f
                    && rec.nbr_users == n && rec.name@ == t,
                Err(k) => r matches Err(e) && e.kind == k,
            },
    {
        match Self::parse_at(data, 0) {
            Ok((rec, _)) => Ok(rec),
            Err(e) => Err(e),
        }
    }

    /// Writes the entry; the name must fit a Pascal string.
    pub fn to_bytes(&self, buf: &mut Vec<u8>)
        requires
            pstring_fits(self.name@),
        ensures
            final(buf)@ == old(buf)@ + room_list_rec_bytes(*self),
    {
        write_i32(buf, self.room_id);
        write_i16(buf, self.flags.bits() as i16);
        write_i16(buf, self.nbr_users);
        let r = try_put_pstring(buf, &self.name);
        assert(final(buf)@ =~= old(buf)@ + room_list_rec_bytes(*self));
    }
}

/// The bytes of room list entries, one after the other.
pub open spec fn rooms_bytes(rs: Seq<RoomListRec>) -> Seq<u8>
    decreases rs.len(),
{
    if rs.len() == 0 {
        Seq::empty()
    } else {
        rooms_bytes(rs.drop_last()) + room_list_rec_bytes(rs.last())
    }
}

/// The fields of a room list entry: ID, flags, number of users, name.
pub open spec fn rec_model(r: RoomListRec) -> (i32, u16, i16, Seq<char>) {
    (r.room_id, r.flags@, r.nbr_users, r.name@)
}

/// The fields of each entry of a list.
pub open spec fn recs_model(rs: Seq<RoomListRec>) -> Seq<(i32, u16, i16, Seq<char>)> {
    rs.map_values(|r: RoomListRec| rec_model(r))
}

/// Reading room list entries from `p` up to the end of `s`: the entries'
/// fields in order, or the error of the first entry that cannot be read.
pub open spec fn rooms_from(s: Seq<u8>, p: int) -> Result<Seq<(i32, u16, i16, Seq<char>)>, ErrorKind>
    decreases s.len() - p,
{
    if p < 0 || p >= s.len() {
        Ok(Seq::empty())
    } else {
        match spec_room_list_rec(s, p) {
            Err(k) => Err(k),
            Ok((id, f, n, t, q)) => if q <= p {
                Err(ErrorKind::UnexpectedEof)
            } else {
                match rooms_from(s, q) {
                    Ok(rest) => Ok(seq![(id, f, n, t)] + rest),
                    Err(k) => Err(k),
                }
            },
        }
    }
}

/// `done` followed by what `r` read, or the error of `r`.
pub open spec fn then_rooms(done: Seq<(i32, u16, i16, Seq<char>)>, r: Result<Seq<(i32, u16, i16, Seq<char>)>, ErrorKind>)
    -> Result<Seq<(i32, u16, i16, Seq<char>)>, ErrorKind>
{
    match r {
        Ok(rest) => Ok(done + rest),
        Err(k) => Err(k),
    }
}

/// The room list (`rLst`): empty as a request, the rooms as a response.
#[derive(Debug, Clone, PartialEq)]
pub struct ListOfAllRoomsMsg {
    pub rooms: Vec<RoomListRec>,
}

impl ListOfAllRoomsMsg {
    /// The request: no rooms.
    pub fn request() -> (m: ListOfAllRoomsMsg)
        ensures
            m.rooms@.len() == 0,
    {
        ListOfAllRoomsMsg { rooms: Vec::new() }
    }

    /// The response with the given rooms.
    pub fn response(rooms: Vec<RoomListRec>) -> (m: ListOfAllRoomsMsg)
        ensures
            m.rooms@ == rooms@,
    {
        ListOfAllRoomsMsg { rooms }
    }

    /// Whether this is a request: no rooms.
    pub fn is_request(&self) -> (b: bool)
        ensures
            b == (self.rooms@.len() == 0),
    {
        self.rooms.len() == 0
    }

    /// The number of rooms.
    pub fn count(&self) -> (n: usize)
        ensures
            n == self.rooms@.len(),
    {
        self.rooms.len()
    }

    /// Writes the list: its entries one after the other; each name must
    /// fit a Pascal string.
    pub fn to_bytes(&self, buf: &mut Vec<u8>)
        requires
            forall|k: int| 0 <= k < self.rooms@.len() ==> pstring_fits(#[trigger] self.rooms@[k].name@),
        ensures
            final(buf)@ == old(buf)@ + rooms_bytes(self.rooms@),
    {
        let mut i: usize = 0;
        while i < self.rooms.len()
            invariant
                i <= self.rooms@.len(),
                forall|k: int| 0 <= k < self.rooms@.len() ==> pstring_fits(#[trigger] self.rooms@[k].name@),
                buf@ == old(buf)@ + rooms_bytes(self.rooms@.subrange(0, i as int)),
            decreases self.rooms@.len() - i,
        {
            self.rooms[i].to_bytes(buf);
            assert(self.rooms@.subrange(0, i + 1).drop_last() =~= self.rooms@.subrange(0, i as int));
            i = i + 1;
        }
        assert(self.rooms@.subrange(0, self.rooms@.len() as int) =~= self.rooms@);
    }

    /// Reads the list: entries one after the other up to the end of the
    /// data; the first entry that cannot be read fails the whole list.
    pub fn from_bytes(data: &[u8]) -> (r: Result<ListOfAllRoomsMsg, WireError>)
        ensures
            match rooms_from(data@, 0) {
                Ok(ms) => r matches Ok(m) && recs_model(m.rooms@) == ms,
                Err(k) => r matches Err(e) && e.kind == k,
            },
            r matches Ok(m) ==> forall|k: int| 0 <= k < m.rooms@.len() ==> rec_in(data@, #[trigger] m.rooms@[k]),
    {
        let mut rooms: Vec<RoomListRec> = Vec::new();
        let mut pos: usize = 0;
        proof {
            assert(recs_model(rooms@) =~= Seq::empty());
            assert(then_rooms(recs_model(rooms@), rooms_from(data@, 0)) == rooms_from(data@, 0)) by {
                if let Ok(rest) = rooms_from(data@, 0) {
                    assert(Seq::<(i32, u16, i16, Seq<char>)>::empty() + rest =~= rest);
                }
            }
        }
        while pos < data.len()
            invariant
                pos <= data@.len(),
                forall|k: int| 0 <= k < rooms@.len() ==> rec_in(data@, #[trigger] rooms@[k]),
                rooms_from(data@, 0) == then_rooms(recs_model(rooms@), rooms_from(data@, pos as int)),
            decreases data@.len() - pos,
        {
            let (rec, np) = RoomListRec::parse_at(data, pos)?;
            proof {
                assert(np > pos) by {
                    if let Ok((_, _, _, t, q)) = spec_room_list_rec(data@, pos as int) {
                        assert(q == pos + 9 + data@[pos + 8] as int);
                    }
                }
            }
            let ghost before = rooms@;
            let ghost p0 = pos as int;
            rooms.push(rec);
            proof {
                let m = rec_model(rec);
                assert(recs_model(rooms@) =~= recs_model(before).push(m));
                assert(rooms_from(data@, p0) == then_rooms(seq![m], rooms_from(data@, np as int)));
                if let Ok(rest) = rooms_from(data@, np as int) {
                    assert(recs_model(before) + (seq![m] + rest) =~= recs_model(rooms@) + rest);
                }
            }
            assert forall|k: int| 0 <= k < rooms@.len() implies rec_in(data@, #[trigger] rooms@[k]) by {
                if k < before.len() {
                    assert(rooms@[k] == before[k]);
                } else {
                    assert(rec_at(data@, p0, rooms@[k]));
                }
            }
            pos = np;
        }
        proof {
            assert(recs_model(rooms@) + Seq::<(i32, u16, i16, Seq<char>)>::empty() =~= recs_model(rooms@));
        }
        Ok(ListOfAllRoomsMsg { rooms })
    }
}

/// Removes a loose prop (`dPrp`); -1 removes them all.
#[derive(Debug, Clone, PartialEq)]
pub struct PropDelMsg {
    pub prop_num: i32,
}

impl PropDelMsg {
    /// Removes the given prop.
    pub fn new(prop_num: i32) -> (m: PropDelMsg)
        ensures
            m.prop_num == prop_num,
    {
        PropDelMsg { prop_num }
    }

    /// Removes all loose props.
    pub fn delete_all() -> (m: PropDelMsg)
        ensures
            m.prop_num == -1,
    {
        PropDelMsg { prop_num: -1 }
    }

    /// Reads the message: the prop number.
    pub fn from_bytes(data: &[u8]) -> (r: Result<PropDelMsg, WireError>)
        ensures
            data@.len() < 4 ==> (r matches Err(e) && e.kind == ErrorKind::UnexpectedEof),
            data@.len() >= 4 ==> (r matches Ok(m) && m.prop_num == i32_at(data@, 0)),
    {
        if data.len() < 4 {
            return Err(WireError::new(ErrorKind::UnexpectedEof));
        }
        Ok(PropDelMsg { prop_num: read_i32(data, 0) })
    }

    /// Writes the message.
    pub fn to_bytes(&self, buf: &mut Vec<u8>)
        ensures
            final(buf)@ == old(buf)@ + i32_be(self.prop_num),
    {
        write_i32(buf, self.prop_num);
    }
}

/// Moves a loose prop (`mPrp`).
#[derive(Debug, Clone, PartialEq)]
pub struct PropMoveMsg {
    pub prop_num: i32,
    pub pos: Point,
}

impl PropMoveMsg {
    /// Moves the given prop to a position.
    pub fn new(prop_num: i32, pos: Point) -> (m: PropMoveMsg)
        ensures
            m.prop_num == prop_num && m.pos == pos,
    {
        PropMoveMsg { prop_num, pos }
    }

    /// Reads the message: the prop number and the position.
    pub fn from_bytes(data: &[u8]) -> (r: Result<PropMoveMsg, WireError>)
        ensures
            data@.len() < 8 ==> (r matches Err(e) && e.kind == ErrorKind::UnexpectedEof),
            data@.len() >= 8 ==> (r matches Ok(m) && m.prop_num == i32_at(data@, 0) && m.pos == Point::spec_at(data@, 4)),
    {
        if data.len() < 8 {
            return Err(WireError::new(ErrorKind::UnexpectedEof));
        }
        Ok(PropMoveMsg { prop_num: read_i32(data, 0), pos: Point::read_at(data, 4) })
    }

    /// Writes the message.
    pub fn to_bytes(&self, buf: &mut Vec<u8>)
        ensures
            final(buf)@ == old(buf)@ + i32_be(self.prop_num) + self.pos.spec_bytes(),
    {
        write_i32(buf, self.prop_num);
        self.pos.to_bytes(buf);
        assert(final(buf)@ =~= old(buf)@ + i32_be(self.prop_num) + self.pos.spec_bytes());
    }
}

/// Adds a loose prop (`nPrp`).
#[derive(Debug, Clone, PartialEq)]
pub struct PropNewMsg {
    pub prop_spec: AssetSpec,
    pub pos: Point,
}

impl PropNewMsg {
    /// Adds the given prop at a position.
    pub fn new(prop_spec: AssetSpec, pos: Point) -> (m: PropNewMsg)
        ensures
            m.prop_spec == prop_spec && m.pos == pos,
    {
        PropNewMsg { prop_spec, pos }
    }

    /// Reads the message: the asset spec and the position.
    pub fn from_bytes(data: &[u8]) -> (r: Result<PropNewMsg, WireError>)
        ensures
            data@.len() < 14 ==> (r matches Err(e) && e.kind == ErrorKind::UnexpectedEof),
            data@.len() >= 14 ==> (r matches Ok(m) && m.prop_spec == AssetSpec::spec_at(data@, 0)
                && m.pos == Point::spec_at(data@, 10)),
    {
        if data.len() < 14 {
            return Err(WireError::new(ErrorKind::UnexpectedEof));
        }
        Ok(PropNewMsg { prop_spec: AssetSpec::read_at(data, 0), pos: Point::read_at(data, 10) })
    }

    /// Writes the message.
    pub fn to_bytes(&self, buf: &mut Vec<u8>)
        ensures
            final(buf)@ == old(buf)@ + self.prop_spec.spec_bytes() + self.pos.spec_bytes(),
    {
        self.prop_spec.to_bytes(buf);
        self.pos.to_bytes(buf);
        assert(final(buf)@ =~= old(buf)@ + self.prop_spec.spec_bytes() + self.pos.spec_bytes());
    }
}


impl MessagePayload for ListOfAllRoomsMsg {
    open spec fn spec_message_id() -> MessageId {
        MessageId::ListOfAllRooms
    }

    open spec fn readable(data: Seq<u8>) -> bool {
        true
    }

    open spec fn read_is(data: Seq<u8>, r: Result<ListOfAllRoomsMsg, WireError>) -> bool {
        &&& (match rooms_from(data, 0) { Ok(ms) => r matches Ok(m) && recs_model(m.rooms@) == ms, Err(k) => r matches Err(e) && e.kind == k, })
        &&& (r matches Ok(m) ==> forall|k: int| 0 <= k < m.rooms@.len() ==> rec_in(data, #[trigger] m.rooms@[k]))
    }

    open spec fn writable(&self) -> bool {
        (forall|k: int| 0 <= k < self.rooms@.len() ==> pstring_fits(#[trigger] self.rooms@[k].name@))
    }

    open spec fn payload_bytes(&self) -> Seq<u8> {
        rooms_bytes(self.rooms@)
    }

    fn message_id() -> (id: MessageId) {
        MessageId::ListOfAllRooms
    }

    fn read_payload(data: &[u8]) -> (r: Result<ListOfAllRoomsMsg, WireError>) {
        ListOfAllRoomsMsg::from_bytes(data)
    }

    fn write_payload(&self, buf: &mut Vec<u8>) {
        self.to_bytes(buf)
    }
}

impl MessagePayload for PropDelMsg {
    open spec fn spec_message_id() -> MessageId {
        MessageId::PropDel
    }

    open spec fn readable(data: Seq<u8>) -> bool {
        true
    }

    open spec fn read_is(data: Seq<u8>, r: Result<PropDelMsg, WireError>) -> bool {
        &&& (data.len() < 4 ==> (r matches Err(e) && e.kind == ErrorKind::UnexpectedEof))
        &&& (data.len() >= 4 ==> (r matches Ok(m) && m.prop_num == i32_at(data, 0)))
    }

    open spec fn writable(&self) -> bool {
        true
    }

    open spec fn payload_bytes(&self) -> Seq<u8> {
        i32_be(self.prop_num)
    }

    fn message_id() -> (id: MessageId) {
        MessageId::PropDel
    }

    fn read_payload(data: &[u8]) -> (r: Result<PropDelMsg, WireError>) {
        PropDelMsg::from_bytes(data)
    }

    fn write_payload(&self, buf: &mut Vec<u8>) {
        self.to_bytes(buf)
    }
}

impl MessagePayload for PropMoveMsg {
    open spec fn spec_message_id() -> MessageId {
        MessageId::PropMove
    }

    open spec fn readable(data: Seq<u8>) -> bool {
        true
    }

    open spec fn read_is(data: Seq<u8>, r: Result<PropMoveMsg, WireError>) -> bool {
        &&& (data.len() < 8 ==> (r matches Err(e) && e.kind == ErrorKind::UnexpectedEof))
        &&& (data.len() >= 8 ==> (r matches Ok(m) && m.prop_num == i32_at(data, 0) && m.pos == Point::spec_at(data, 4)))
    }

    open spec fn writable(&self) -> bool {
        true
    }

    open spec fn payload_bytes(&self) -> Seq<u8> {
        i32_be(self.prop_num) + self.pos.spec_bytes()
    }

    fn message_id() -> (id: MessageId) {
        MessageId::PropMove
    }

    fn read_payload(data: &[u8]) -> (r: Result<PropMoveMsg, WireError>) {
        PropMoveMsg::from_bytes(data)
    }

    fn write_payload(&self, buf: &mut Vec<u8>) {
        self.to_bytes(buf)
    }
}

impl MessagePayload for PropNewMsg {
    open spec fn spec_message_id() -> MessageId {
        MessageId::PropNew
    }

    open spec fn readable(data: Seq<u8>) -> bool {
        true
    }

    open spec fn read_is(data: Seq<u8>, r: Result<PropNewMsg, WireError>) -> bool {
        &&& (data.len() < 14 ==> (r matches Err(e) && e.kind == ErrorKind::UnexpectedEof))
        &&& (data.len() >= 14 ==> (r matches Ok(m) && m.prop_spec == AssetSpec::spec_at(data, 0) && m.pos == Point::spec_at(data, 10)))
    }

    open spec fn writable(&self) -> bool {
        true
    }

    open spec fn payload_bytes(&self) -> Seq<u8> {
        self.prop_spec.spec_bytes() + self.pos.spec_bytes()
    }

    fn message_id() -> (id: MessageId) {
        MessageId::PropNew
    }

    fn read_payload(data: &[u8]) -> (r: Result<PropNewMsg, WireError>) {
        PropNewMsg::from_bytes(data)
    }

    fn write_payload(&self, buf: &mut Vec<u8>) {
        self.to_bytes(buf)
    }
}

} // verus!
