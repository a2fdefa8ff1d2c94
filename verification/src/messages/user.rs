//! Users: the user record, and the messages that announce users and change
//! how they look.
use vstd::prelude::*;
use vstd::utf8::is_ascii_chars;
use crate::buffer::{
    fixed_str_bytes, fixed_str_fits, get_pstring, get_str31, i16_at, i16_be, i32_at, i32_be, lemma_fixed_str_roundtrip,
    lemma_i16_in, lemma_i32_in, lemma_fixed_str_in, lemma_window, pstring_bytes, pstring_fits, put_pstring, put_str31, read_i16, read_i32,
    spec_get_fixed_str, spec_get_pstring, write_i16, write_i32, ErrorKind, WireError,
};
use crate::messages::message::{Message, MessagePayload};
use crate::messages::message_id::MessageId;
use crate::{AssetSpec, Point};

verus! {

broadcast use vstd::seq_lib::group_seq_properties;

/// The bytes of a run of asset specs, one after another.
pub open spec fn specs_bytes(ps: Seq<AssetSpec>) -> Seq<u8>
    decreases ps.len(),
{
    if ps.len() == 0 {
        Seq::empty()
    } else {
        specs_bytes(ps.drop_last()) + ps.last().spec_bytes()
    }
}

/// The `n` asset specs that stand one after another from `p` on.
pub open spec fn specs_at(s: Seq<u8>, p: int, n: int) -> Seq<AssetSpec> {
    Seq::new(n as nat, |i: int| AssetSpec::spec_at(s, p + 10 * i))
}

/// The bytes of a run of asset specs are ten per spec, and the `i`-th
/// spec's bytes stand at `10 * i`.
pub proof fn lemma_specs_bytes(ps: Seq<AssetSpec>)
    ensures
        specs_bytes(ps).len() == 10 * ps.len(),
        forall|i: int| 0 <= i < ps.len() ==>
            #[trigger] specs_bytes(ps).subrange(10 * i, 10 * i + 10) == ps[i].spec_bytes(),
    decreases ps.len(),
{
    if ps.len() > 0 {
        let q = ps.drop_last();
        lemma_specs_bytes(q);
        assert forall|i: int| 0 <= i < ps.len() implies
            #[trigger] specs_bytes(ps).subrange(10 * i, 10 * i + 10) == ps[i].spec_bytes() by {
            if i < q.len() {
                assert(specs_bytes(ps).subrange(10 * i, 10 * i + 10) =~= specs_bytes(q).subrange(10 * i, 10 * i + 10));
            } else {
                assert(specs_bytes(ps).subrange(10 * i, 10 * i + 10) =~= ps.last().spec_bytes());
            }
        }
    }
}

/// Asset specs read back from where their bytes stand.
pub proof fn lemma_specs_read_back(ps: Seq<AssetSpec>, s: Seq<u8>, p: int)
    requires
        0 <= p,
        p + 10 * ps.len() <= s.len(),
        s.subrange(p, p + 10 * ps.len()) == specs_bytes(ps),
    ensures
        specs_at(s, p, ps.len() as int) == ps,
{
    lemma_specs_bytes(ps);
    assert forall|i: int| 0 <= i < ps.len() implies #[trigger] specs_at(s, p, ps.len() as int)[i] == ps[i] by {
        assert(s.subrange(p + 10 * i, p + 10 * i + 10) =~= specs_bytes(ps).subrange(10 * i, 10 * i + 10));
        ps[i].lemma_read_back(s, p + 10 * i);
    }
    assert(specs_at(s, p, ps.len() as int) =~= ps);
}

/// Reads `n` asset specs one after another from `pos` on.
fn read_specs(data: &[u8], pos: usize, n: usize) -> (v: Vec<AssetSpec>)
    requires
        pos + 10 * n <= data@.len(),
    ensures
        v@ == specs_at(data@, pos as int, n as int),
{
    let mut v: Vec<AssetSpec> = Vec::new();
    let mut i: usize = 0;
    let mut off: usize = pos;
    let len = data.len();
    while i < n
        invariant
            len == data@.len(),
            i <= n,
            off == pos + 10 * i,
            pos + 10 * n <= data@.len(),
            v@ == specs_at(data@, pos as int, i as int),
        decreases n - i,
    {
        assert(off + 10 <= pos + 10 * n);
        v.push(AssetSpec::read_at(data, off));
        i = i + 1;
        off = off + 10;
        assert(v@ =~= specs_at(data@, pos as int, i as int));
    }
    v
}

/// Writes asset specs one after another.
fn write_specs(buf: &mut Vec<u8>, ps: &[AssetSpec])
    ensures
        final(buf)@ == old(buf)@ + specs_bytes(ps@),
{
    let mut i: usize = 0;
    while i < ps.len()
        invariant
            i <= ps@.len(),
            buf@ == old(buf)@ + specs_bytes(ps@.subrange(0, i as int)),
        decreases ps@.len() - i,
    {
        ps[i].to_bytes(buf);
        proof {
            assert(ps@.subrange(0, i + 1).drop_last() =~= ps@.subrange(0, i as int));
        }
        i = i + 1;
    }
    assert(ps@.subrange(0, ps@.len() as int) =~= ps@);
}

/// A user as others see them: ID, position, the nine prop slots, room,
/// face, colour, away and message flags, number of props worn, and name.
#[derive(Debug, Clone, PartialEq)]
pub struct UserRec {
    pub user_id: i32,
    pub room_pos: Point,
    pub prop_spec: [AssetSpec; 9],
    pub room_id: i16,
    pub face_nbr: i16,
    pub color_nbr: i16,
    pub away_flag: i16,
    pub open_to_msgs: i16,
    pub nbr_props: i16,
    pub name: String,
}

impl UserRec {
    /// Size of a user record on the wire.
    pub const SIZE: usize = 142;

    /// Size of a user record on the wire.
    pub fn size() -> (n: usize)
        ensures
            n == 142,
    {
        142
    }

    /// Why reading a record at `p` fails, if it does: the record does not
    /// fit, or its name's length byte is over 31.
    pub open spec fn error_at(s: Seq<u8>, p: int) -> Option<ErrorKind> {
        if p < 0 || p + 142 > s.len() {
            Some(ErrorKind::UnexpectedEof)
        } else {
            match spec_get_fixed_str(s, p + 110, 31) {
                Ok(_) => None,
                Err(k) => Some(k),
            }
        }
    }

    /// Whether `u` is the record whose bytes stand at `p`.
    pub open spec fn is_at(u: UserRec, s: Seq<u8>, p: int) -> bool {
        &&& u.user_id == i32_at(s, p)
        &&& u.room_pos == Point::spec_at(s, p + 4)
        &&& u.prop_spec@ == specs_at(s, p + 8, 9)
        &&& u.room_id == i16_at(s, p + 98)
        &&& u.face_nbr == i16_at(s, p + 100)
        &&& u.color_nbr == i16_at(s, p + 102)
        &&& u.away_flag == i16_at(s, p + 104)
        &&& u.open_to_msgs == i16_at(s, p + 106)
        &&& u.nbr_props == i16_at(s, p + 108)
        &&& spec_get_fixed_str(s, p + 110, 31) == Ok::<(Seq<char>, int), ErrorKind>((u.name@, p + 142))
    }

    /// The bytes of the record.
    pub open spec fn spec_bytes(self) -> Seq<u8> {
        i32_be(self.user_id) + self.room_pos.spec_bytes() + specs_bytes(self.prop_spec@) + i16_be(self.room_id)
            + i16_be(self.face_nbr) + i16_be(self.color_nbr) + i16_be(self.away_flag)
            + i16_be(self.open_to_msgs) + i16_be(self.nbr_props) + fixed_str_bytes(self.name@, 31)
    }

    /// Reads the record at `pos`.
    pub fn parse_at(data: &[u8], pos: usize) -> (r: Result<(UserRec, usize), WireError>)
        ensures
            match Self::error_at(data@, pos as int) {
                None => r matches Ok((u, np)) && Self::is_at(u, data@, pos as int) && np == pos + 142,
                Some(k) => r matches Err(e) && e.kind == k,
            },
    {
        if pos > data.len() || data.len() - pos < 142 {
            return Err(WireError::new(ErrorKind::UnexpectedEof));
        }
        let v = read_specs(data, pos + 8, 9);
        let prop_spec: [AssetSpec; 9] = [v[0], v[1], v[2], v[3], v[4], v[5], v[6], v[7], v[8]];
        assert(prop_spec@ =~= v@);
        match get_str31(data, pos + 110) {
            Ok((name, np)) => {
                let u = UserRec {
                    user_id: read_i32(data, pos),
                    room_pos: Point::read_at(data, pos + 4),
                    prop_spec,
                    room_id: read_i16(data, pos + 98),
                    face_nbr: read_i16(data, pos + 100),
                    color_nbr: read_i16(data, pos + 102),
                    away_flag: read_i16(data, pos + 104),
                    open_to_msgs: read_i16(data, pos + 106),
                    nbr_props: read_i16(data, pos + 108),
                    name,
                };
                Ok((u, np))
            },
            Err(e) => Err(e),
        }
    }

    /// Reads the record at the start of `data`.
    pub fn from_bytes(data: &[u8]) -> (r: Result<UserRec, WireError>)
        ensures
            match Self::error_at(data@, 0) {
                None => r matches Ok(u) && Self::is_at(u, data@, 0),
                Some(k) => r matches Err(e) && e.kind == k,
            },
    {
        match Self::parse_at(data, 0) {
            Ok((u, _)) => Ok(u),
            Err(e) => Err(e),
        }
    }

    /// Writes the record; the name must fit its 31 bytes.
    pub fn to_bytes(&self, buf: &mut Vec<u8>)
        requires
            fixed_str_fits(self.name@, 31),
        ensures
            final(buf)@ == old(buf)@ + self.spec_bytes(),
    {
        write_i32(buf, self.user_id);
        self.room_pos.to_bytes(buf);
        write_specs(buf, self.prop_spec.as_slice());
        write_i16(buf, self.room_id);
        write_i16(buf, self.face_nbr);
        write_i16(buf, self.color_nbr);
        write_i16(buf, self.away_flag);
        write_i16(buf, self.open_to_msgs);
        write_i16(buf, self.nbr_props);
        put_str31(buf, &self.name);
        assert(final(buf)@ =~= old(buf)@ + self.spec_bytes());
    }

    /// Where each field's bytes stand in the record's bytes.
    #[verifier::rlimit(40)]
    pub proof fn lemma_layout(self)
        requires
            fixed_str_fits(self.name@, 31),
        ensures
            self.spec_bytes().len() == 142,
            self.spec_bytes().subrange(0, 4) == i32_be(self.user_id),
            self.spec_bytes().subrange(4, 8) == self.room_pos.spec_bytes(),
            self.spec_bytes().subrange(8, 98) == specs_bytes(self.prop_spec@),
            self.spec_bytes().subrange(98, 100) == i16_be(self.room_id),
            self.spec_bytes().subrange(100, 102) == i16_be(self.face_nbr),
            self.spec_bytes().subrange(102, 104) == i16_be(self.color_nbr),
            self.spec_bytes().subrange(104, 106) == i16_be(self.away_flag),
            self.spec_bytes().subrange(106, 108) == i16_be(self.open_to_msgs),
            self.spec_bytes().subrange(108, 110) == i16_be(self.nbr_props),
            self.spec_bytes().subrange(110, 142) == fixed_str_bytes(self.name@, 31),
    {
        let b = self.spec_bytes();
        lemma_specs_bytes(self.prop_spec@);
        assert(self.prop_spec@.len() == 9);
        assert(fixed_str_bytes(self.name@, 31).len() == 32);
        assert(b.subrange(0, 4) =~= i32_be(self.user_id));
        assert(b.subrange(4, 8) =~= self.room_pos.spec_bytes());
        assert(b.subrange(8, 98) =~= specs_bytes(self.prop_spec@));
        assert(b.subrange(98, 100) =~= i16_be(self.room_id));
        assert(b.subrange(100, 102) =~= i16_be(self.face_nbr));
        assert(b.subrange(102, 104) =~= i16_be(self.color_nbr));
        assert(b.subrange(104, 106) =~= i16_be(self.away_flag));
        assert(b.subrange(106, 108) =~= i16_be(self.open_to_msgs));
        assert(b.subrange(108, 110) =~= i16_be(self.nbr_props));
        assert(b.subrange(110, 142) =~= fixed_str_bytes(self.name@, 31));
    }

    /// A record with an ASCII name that fits is read back from where its
    /// bytes stand.
    pub proof fn lemma_read_back(self, s: Seq<u8>, p: int)
        requires
            is_ascii_chars(self.name@),
            fixed_str_fits(self.name@, 31),
            0 <= p,
            p + 142 <= s.len(),
            s.subrange(p, p + 142) == self.spec_bytes(),
        ensures
            Self::error_at(s, p) is None,
            Self::is_at(self, s, p),
    {
        self.lemma_layout();
        lemma_window(s, p, 142, 0, 4);
        lemma_i32_in(s, p, self.user_id);
        lemma_window(s, p, 142, 4, 8);
        self.room_pos.lemma_read_back(s, p + 4);
        lemma_window(s, p, 142, 8, 98);
        lemma_specs_bytes(self.prop_spec@);
        lemma_specs_read_back(self.prop_spec@, s, p + 8);
        lemma_window(s, p, 142, 98, 100);
        lemma_i16_in(s, p + 98, self.room_id);
        lemma_window(s, p, 142, 100, 102);
        lemma_i16_in(s, p + 100, self.face_nbr);
        lemma_window(s, p, 142, 102, 104);
        lemma_i16_in(s, p + 102, self.color_nbr);
        lemma_window(s, p, 142, 104, 106);
        lemma_i16_in(s, p + 104, self.away_flag);
        lemma_window(s, p, 142, 106, 108);
        lemma_i16_in(s, p + 106, self.open_to_msgs);
        lemma_window(s, p, 142, 108, 110);
        lemma_i16_in(s, p + 108, self.nbr_props);
        lemma_window(s, p, 142, 110, 142);
        lemma_fixed_str_in(s, p + 110, self.name@, 31);
    }
}


/// A user entering the room (`nprs`): their record.
#[derive(Debug, Clone, PartialEq)]
pub struct UserNewMsg {
    pub new_user: UserRec,
}

impl UserNewMsg {
    /// Reads the message: a user record.
    pub fn from_bytes(data: &[u8]) -> (r: Result<UserNewMsg, WireError>)
        ensures
            match UserRec::error_at(data@, 0) {
                None => r matches Ok(m) && UserRec::is_at(m.new_user, data@, 0),
                Some(k) => r matches Err(e) && e.kind == k,
            },
    {
        match UserRec::from_bytes(data) {
            Ok(new_user) => Ok(UserNewMsg { new_user }),
            Err(e) => Err(e),
        }
    }

    /// Writes the message; the name must fit its 31 bytes.
    pub fn to_bytes(&self, buf: &mut Vec<u8>)
        requires
            fixed_str_fits(self.new_user.name@, 31),
        ensures
            final(buf)@ == old(buf)@ + self.new_user.spec_bytes(),
    {
        self.new_user.to_bytes(buf);
    }

    /// The complete message with the given reference number.
    pub fn to_message(&self, ref_num: i32) -> (m: Message)
        requires
            fixed_str_fits(self.new_user.name@, 31),
        ensures
            m.msg_id == MessageId::UserNew && m.ref_num == ref_num && m.payload@ == self.new_user.spec_bytes(),
    {
        let mut payload: Vec<u8> = Vec::new();
        self.to_bytes(&mut payload);
        Message::new(MessageId::UserNew, ref_num, payload)
    }
}

/// A user leaving the room (`eprs`): it carries nothing.
#[derive(Debug, Clone, Copy, PartialEq, Eq)]
pub struct UserExitMsg;

impl UserExitMsg {
    /// Reads the message: whatever the payload, it carries nothing.
    pub fn from_bytes(data: &[u8]) -> (r: Result<UserExitMsg, WireError>)
        ensures
            r is Ok,
    {
        Ok(UserExitMsg)
    }

    /// Writes the message: nothing.
    pub fn to_bytes(&self, buf: &mut Vec<u8>)
        ensures
            final(buf)@ == old(buf)@,
    {
    }
}

/// A user moving (`uLoc`): the new position.
#[derive(Debug, Clone, Copy, PartialEq, Eq)]
pub struct UserMoveMsg {
    pub pos: Point,
}

impl UserMoveMsg {
    /// Reads the message: a position.
    pub fn from_bytes(data: &[u8]) -> (r: Result<UserMoveMsg, WireError>)
        ensures
            data@.len() < 4 ==> (r matches Err(e) && e.kind == ErrorKind::UnexpectedEof),
            data@.len() >= 4 ==> (r matches Ok(m) && m.pos == Point::spec_at(data@, 0)),
    {
        if data.len() < 4 {
            return Err(WireError::new(ErrorKind::UnexpectedEof));
        }
        Ok(UserMoveMsg { pos: Point::read_at(data, 0) })
    }

    /// Writes the message.
    pub fn to_bytes(&self, buf: &mut Vec<u8>)
        ensures
            final(buf)@ == old(buf)@ + self.pos.spec_bytes(),
    {
        self.pos.to_bytes(buf);
    }
}

/// A user's new name (`usrN`), as a Pascal string.
#[derive(Debug, Clone, PartialEq)]
pub struct UserNameMsg {
    pub name: String,
}

impl UserNameMsg {
    /// Reads the message: a Pascal string.
    pub fn from_bytes(data: &[u8]) -> (r: Result<UserNameMsg, WireError>)
        ensures
            match spec_get_pstring(data@, 0) {
                Ok((t, _)) => r matches Ok(m) && m.name@ == t,
                Err(k) => r matches Err(e) && e.kind == k,
            },
    {
        match get_pstring(data, 0) {
            Ok((name, _)) => Ok(UserNameMsg { name }),
            Err(e) => Err(e),
        }
    }

    /// Writes the message; the name must fit a Pascal string.
    pub fn to_bytes(&self, buf: &mut Vec<u8>)
        requires
            pstring_fits(self.name@),
        ensures
            final(buf)@ == old(buf)@ + pstring_bytes(self.name@),
    {
        put_pstring(buf, &self.name);
    }
}

/// A user's new colour (`usrC`).
#[derive(Debug, Clone, Copy, PartialEq, Eq)]
pub struct UserColorMsg {
    pub color_nbr: i16,
}

impl UserColorMsg {
    /// Reads the message: the colour number.
    pub fn from_bytes(data: &[u8]) -> (r: Result<UserColorMsg, WireError>)
        ensures
            data@.len() < 2 ==> (r matches Err(e) && e.kind == ErrorKind::UnexpectedEof),
            data@.len() >= 2 ==> (r matches Ok(m) && m.color_nbr == i16_at(data@, 0)),
    {
        if data.len() < 2 {
            return Err(WireError::new(ErrorKind::UnexpectedEof));
        }
        Ok(UserColorMsg { color_nbr: read_i16(data, 0) })
    }

    /// Writes the message.
    pub fn to_bytes(&self, buf: &mut Vec<u8>)
        ensures
            final(buf)@ == old(buf)@ + i16_be(self.color_nbr),
    {
        write_i16(buf, self.color_nbr);
    }
}

/// A user's new face (`usrF`).
#[derive(Debug, Clone, Copy, PartialEq, Eq)]
pub struct UserFaceMsg {
    pub face_nbr: i16,
}

impl UserFaceMsg {
    /// Reads the message: the face number.
    pub fn from_bytes(data: &[u8]) -> (r: Result<UserFaceMsg, WireError>)
        ensures
            data@.len() < 2 ==> (r matches Err(e) && e.kind == ErrorKind::UnexpectedEof),
            data@.len() >= 2 ==> (r matches Ok(m) && m.face_nbr == i16_at(data@, 0)),
    {
        if data.len() < 2 {
            return Err(WireError::new(ErrorKind::UnexpectedEof));
        }
        Ok(UserFaceMsg { face_nbr: read_i16(data, 0) })
    }

    /// Writes the message.
    pub fn to_bytes(&self, buf: &mut Vec<u8>)
        ensures
            final(buf)@ == old(buf)@ + i16_be(self.face_nbr),
    {
        write_i16(buf, self.face_nbr);
    }
}

/// Reads a count at `pos` and that many asset specs after it. The count is
/// not negative (see the callers); too few bytes are `UnexpectedEof`.
fn read_counted_specs(data: &[u8], pos: usize) -> (r: Result<Vec<AssetSpec>, WireError>)
    requires
        pos + 4 <= data@.len(),
        i32_at(data@, pos as int) >= 0,
    ensures
        pos + 4 + 10 * i32_at(data@, pos as int) > data@.len() ==> (r matches Err(e) && e.kind == ErrorKind::UnexpectedEof),
        pos + 4 + 10 * i32_at(data@, pos as int) <= data@.len() ==> (r matches Ok(v)
            && v@ == specs_at(data@, pos + 4, i32_at(data@, pos as int) as int)),
{
    let n = read_i32(data, pos) as usize;
    if (data.len() - pos - 4) / 10 < n {
        return Err(WireError::new(ErrorKind::UnexpectedEof));
    }
    Ok(read_specs(data, pos + 4, n))
}

/// The props a user wears (`usrP`): a count, then the asset specs.
#[derive(Debug, Clone, PartialEq)]
pub struct UserPropMsg {
    pub props: Vec<AssetSpec>,
}

impl UserPropMsg {
    /// Reads the message: a count and that many asset specs. A negative
    /// count is ruled out: it asks for more room than any allocation gives.
    pub fn from_bytes(data: &[u8]) -> (r: Result<UserPropMsg, WireError>)
        requires
            data@.len() >= 4 ==> i32_at(data@, 0) >= 0,
        ensures
            data@.len() < 4 || 4 + 10 * i32_at(data@, 0) > data@.len() ==> (r matches Err(e) && e.kind
                == ErrorKind::UnexpectedEof),
            data@.len() >= 4 && 4 + 10 * i32_at(data@, 0) <= data@.len() ==> (r matches Ok(m) && m.props@
                == specs_at(data@, 4, i32_at(data@, 0) as int)),
    {
        if data.len() < 4 {
            return Err(WireError::new(ErrorKind::UnexpectedEof));
        }
        match read_counted_specs(data, 0) {
            Ok(props) => Ok(UserPropMsg { props }),
            Err(e) => Err(e),
        }
    }

    /// Writes the message: the count, then the asset specs.
    pub fn to_bytes(&self, buf: &mut Vec<u8>)
        ensures
            final(buf)@ == old(buf)@ + i32_be(self.props@.len() as i32) + specs_bytes(self.props@),
    {
        write_i32(buf, self.props.len() as i32);
        write_specs(buf, self.props.as_slice());
        assert(final(buf)@ =~= old(buf)@ + i32_be(self.props@.len() as i32) + specs_bytes(self.props@));
    }
}

/// A user's whole look (`usrD`): face, colour, a count and the asset specs.
#[derive(Debug, Clone, PartialEq)]
pub struct UserDescMsg {
    pub face_nbr: i16,
    pub color_nbr: i16,
    pub props: Vec<AssetSpec>,
}

impl UserDescMsg {
    /// Reads the message: face, colour, a count and that many asset specs.
    /// A negative count is ruled out, as for the props message.
    pub fn from_bytes(data: &[u8]) -> (r: Result<UserDescMsg, WireError>)
        requires
            data@.len() >= 8 ==> i32_at(data@, 4) >= 0,
        ensures
            data@.len() < 8 || 8 + 10 * i32_at(data@, 4) > data@.len() ==> (r matches Err(e) && e.kind
                == ErrorKind::UnexpectedEof),
            data@.len() >= 8 && 8 + 10 * i32_at(data@, 4) <= data@.len() ==> (r matches Ok(m)
                && m.face_nbr == i16_at(data@, 0) && m.color_nbr == i16_at(data@, 2)
                && m.props@ == specs_at(data@, 8, i32_at(data@, 4) as int)),
    {
        if data.len() < 8 {
            return Err(WireError::new(ErrorKind::UnexpectedEof));
        }
        let face_nbr = read_i16(data, 0);
        let color_nbr = read_i16(data, 2);
        match read_counted_specs(data, 4) {
            Ok(props) => Ok(UserDescMsg { face_nbr, color_nbr, props }),
            Err(e) => Err(e),
        }
    }

    /// Writes the message.
    pub fn to_bytes(&self, buf: &mut Vec<u8>)
        ensures
            final(buf)@ == old(buf)@ + i16_be(self.face_nbr) + i16_be(self.color_nbr) + i32_be(
                self.props@.len() as i32,
            ) + specs_bytes(self.props@),
    {
        write_i16(buf, self.face_nbr);
        write_i16(buf, self.color_nbr);
        write_i32(buf, self.props.len() as i32);
        write_specs(buf, self.props.as_slice());
        assert(final(buf)@ =~= old(buf)@ + i16_be(self.face_nbr) + i16_be(self.color_nbr) + i32_be(
            self.props@.len() as i32,
        ) + specs_bytes(self.props@));
    }
}


/// The props message is read back from its bytes, for at most `i32::MAX`
/// props.
pub proof fn lemma_prop_msg_roundtrip(m: UserPropMsg)
    requires
        m.props@.len() <= 0x7fff_ffff,
    ensures
        ({
            let b = i32_be(m.props@.len() as i32) + specs_bytes(m.props@);
            &&& i32_at(b, 0) == m.props@.len()
            &&& 4 + 10 * i32_at(b, 0) <= b.len()
            &&& specs_at(b, 4, i32_at(b, 0) as int) == m.props@
        }),
{
    let n: int = m.props@.len() as int;
    let b = i32_be(n as i32) + specs_bytes(m.props@);
    lemma_specs_bytes(m.props@);
    assert(b.subrange(0, 4) =~= i32_be(n as i32));
    lemma_i32_in(b, 0, n as i32);
    assert(b.subrange(4, 4 + 10 * n) =~= specs_bytes(m.props@));
    lemma_specs_read_back(m.props@, b, 4);
}

/// The description message is read back from its bytes, for at most
/// `i32::MAX` props.
pub proof fn lemma_desc_msg_roundtrip(m: UserDescMsg)
    requires
        m.props@.len() <= 0x7fff_ffff,
    ensures
        ({
            let b = i16_be(m.face_nbr) + i16_be(m.color_nbr) + i32_be(m.props@.len() as i32) + specs_bytes(
                m.props@,
            );
            &&& i16_at(b, 0) == m.face_nbr
            &&& i16_at(b, 2) == m.color_nbr
            &&& i32_at(b, 4) == m.props@.len()
            &&& 8 + 10 * i32_at(b, 4) <= b.len()
            &&& specs_at(b, 8, i32_at(b, 4) as int) == m.props@
        }),
{
    let n: int = m.props@.len() as int;
    let b = i16_be(m.face_nbr) + i16_be(m.color_nbr) + i32_be(n as i32) + specs_bytes(m.props@);
    lemma_specs_bytes(m.props@);
    assert(b.subrange(0, 2) =~= i16_be(m.face_nbr));
    lemma_i16_in(b, 0, m.face_nbr);
    assert(b.subrange(2, 4) =~= i16_be(m.color_nbr));
    lemma_i16_in(b, 2, m.color_nbr);
    assert(b.subrange(4, 8) =~= i32_be(n as i32));
    lemma_i32_in(b, 4, n as i32);
    assert(b.subrange(8, 8 + 10 * n) =~= specs_bytes(m.props@));
    lemma_specs_read_back(m.props@, b, 8);
}


impl MessagePayload for UserColorMsg {
    open spec fn spec_message_id() -> MessageId {
        MessageId::UserColor
    }

    open spec fn readable(data: Seq<u8>) -> bool {
        true
    }

    open spec fn read_is(data: Seq<u8>, r: Result<UserColorMsg, WireError>) -> bool {
        &&& (data.len() < 2 ==> (r matches Err(e) && e.kind == ErrorKind::UnexpectedEof))
        &&& (data.len() >= 2 ==> (r matches Ok(m) && m.color_nbr == i16_at(data, 0)))
    }

    open spec fn writable(&self) -> bool {
        true
    }

    open spec fn payload_bytes(&self) -> Seq<u8> {
        i16_be(self.color_nbr)
    }

    fn message_id() -> (id: MessageId) {
        MessageId::UserColor
    }

    fn read_payload(data: &[u8]) -> (r: Result<UserColorMsg, WireError>) {
        UserColorMsg::from_bytes(data)
    }

    fn write_payload(&self, buf: &mut Vec<u8>) {
        self.to_bytes(buf)
    }
}

impl MessagePayload for UserDescMsg {
    open spec fn spec_message_id() -> MessageId {
        MessageId::UserDesc
    }

    open spec fn readable(data: Seq<u8>) -> bool {
        (data.len() >= 8 ==> i32_at(data, 4) >= 0)
    }

    open spec fn read_is(data: Seq<u8>, r: Result<UserDescMsg, WireError>) -> bool {
        &&& (data.len() < 8 || 8 + 10 * i32_at(data, 4) > data.len() ==> (r matches Err(e) && e.kind == ErrorKind::UnexpectedEof))
        &&& (data.len() >= 8 && 8 + 10 * i32_at(data, 4) <= data.len() ==> (r matches Ok(m) && m.face_nbr == i16_at(data, 0) && m.color_nbr == i16_at(data, 2) && m.props@ == specs_at(data, 8, i32_at(data, 4) as int)))
    }

    open spec fn writable(&self) -> bool {
        true
    }

    open spec fn payload_bytes(&self) -> Seq<u8> {
        i16_be(self.face_nbr) + i16_be(self.color_nbr) + i32_be( self.props@.len() as i32, ) + specs_bytes(self.props@)
    }

    fn message_id() -> (id: MessageId) {
        MessageId::UserDesc
    }

    fn read_payload(data: &[u8]) -> (r: Result<UserDescMsg, WireError>) {
        UserDescMsg::from_bytes(data)
    }

    fn write_payload(&self, buf: &mut Vec<u8>) {
        self.to_bytes(buf)
    }
}

impl MessagePayload for UserExitMsg {
    open spec fn spec_message_id() -> MessageId {
        MessageId::UserExit
    }

    open spec fn readable(data: Seq<u8>) -> bool {
        true
    }

    open spec fn read_is(data: Seq<u8>, r: Result<UserExitMsg, WireError>) -> bool {
        &&& (r is Ok)
    }

    open spec fn writable(&self) -> bool {
        true
    }

    open spec fn payload_bytes(&self) -> Seq<u8> {
        Seq::empty()
    }

    fn message_id() -> (id: MessageId) {
        MessageId::UserExit
    }

    fn read_payload(data: &[u8]) -> (r: Result<UserExitMsg, WireError>) {
        UserExitMsg::from_bytes(data)
    }

    fn write_payload(&self, buf: &mut Vec<u8>) {
        self.to_bytes(buf)
    }
}

impl MessagePayload for UserFaceMsg {
    open spec fn spec_message_id() -> MessageId {
        MessageId::UserFace
    }

    open spec fn readable(data: Seq<u8>) -> bool {
        true
    }

    open spec fn read_is(data: Seq<u8>, r: Result<UserFaceMsg, WireError>) -> bool {
        &&& (data.len() < 2 ==> (r matches Err(e) && e.kind == ErrorKind::UnexpectedEof))
        &&& (data.len() >= 2 ==> (r matches Ok(m) && m.face_nbr == i16_at(data, 0)))
    }

    open spec fn writable(&self) -> bool {
        true
    }

    open spec fn payload_bytes(&self) -> Seq<u8> {
        i16_be(self.face_nbr)
    }

    fn message_id() -> (id: MessageId) {
        MessageId::UserFace
    }

    fn read_payload(data: &[u8]) -> (r: Result<UserFaceMsg, WireError>) {
        UserFaceMsg::from_bytes(data)
    }

    fn write_payload(&self, buf: &mut Vec<u8>) {
        self.to_bytes(buf)
    }
}

impl MessagePayload for UserMoveMsg {
    open spec fn spec_message_id() -> MessageId {
        MessageId::UserMove
    }

    open spec fn readable(data: Seq<u8>) -> bool {
        true
    }

    open spec fn read_is(data: Seq<u8>, r: Result<UserMoveMsg, WireError>) -> bool {
        &&& (data.len() < 4 ==> (r matches Err(e) && e.kind == ErrorKind::UnexpectedEof))
        &&& (data.len() >= 4 ==> (r matches Ok(m) && m.pos == Point::spec_at(data, 0)))
    }

    open spec fn writable(&self) -> bool {
        true
    }

    open spec fn payload_bytes(&self) -> Seq<u8> {
        self.pos.spec_bytes()
    }

    fn message_id() -> (id: MessageId) {
        MessageId::UserMove
    }

    fn read_payload(data: &[u8]) -> (r: Result<UserMoveMsg, WireError>) {
        UserMoveMsg::from_bytes(data)
    }

    fn write_payload(&self, buf: &mut Vec<u8>) {
        self.to_bytes(buf)
    }
}

impl MessagePayload for UserNameMsg {
    open spec fn spec_message_id() -> MessageId {
        MessageId::UserName
    }

    open spec fn readable(data: Seq<u8>) -> bool {
        true
    }

    open spec fn read_is(data: Seq<u8>, r: Result<UserNameMsg, WireError>) -> bool {
        &&& (match spec_get_pstring(data, 0) { Ok((t, _)) => r matches Ok(m) && m.name@ == t, Err(k) => r matches Err(e) && e.kind == k, })
    }

    open spec fn writable(&self) -> bool {
        (pstring_fits(self.name@))
    }

    open spec fn payload_bytes(&self) -> Seq<u8> {
        pstring_bytes(self.name@)
    }

    fn message_id() -> (id: MessageId) {
        MessageId::UserName
    }

    fn read_payload(data: &[u8]) -> (r: Result<UserNameMsg, WireError>) {
        UserNameMsg::from_bytes(data)
    }

    fn write_payload(&self, buf: &mut Vec<u8>) {
        self.to_bytes(buf)
    }
}

impl MessagePayload for UserNewMsg {
    open spec fn spec_message_id() -> MessageId {
        MessageId::UserNew
    }

    open spec fn readable(data: Seq<u8>) -> bool {
        true
    }

    open spec fn read_is(data: Seq<u8>, r: Result<UserNewMsg, WireError>) -> bool {
        &&& (match UserRec::error_at(data, 0) { None => r matches Ok(m) && UserRec::is_at(m.new_user, data, 0), Some(k) => r matches Err(e) && e.kind == k, })
    }

    open spec fn writable(&self) -> bool {
        (fixed_str_fits(self.new_user.name@, 31))
    }

    open spec fn payload_bytes(&self) -> Seq<u8> {
        self.new_user.spec_bytes()
    }

    fn message_id() -> (id: MessageId) {
        MessageId::UserNew
    }

    fn read_payload(data: &[u8]) -> (r: Result<UserNewMsg, WireError>) {
        UserNewMsg::from_bytes(data)
    }

    fn write_payload(&self, buf: &mut Vec<u8>) {
        self.to_bytes(buf)
    }
}

impl MessagePayload for UserPropMsg {
    open spec fn spec_message_id() -> MessageId {
        MessageId::UserProp
    }

    open spec fn readable(data: Seq<u8>) -> bool {
        (data.len() >= 4 ==> i32_at(data, 0) >= 0)
    }

    open spec fn read_is(data: Seq<u8>, r: Result<UserPropMsg, WireError>) -> bool {
        &&& (data.len() < 4 || 4 + 10 * i32_at(data, 0) > data.len() ==> (r matches Err(e) && e.kind == ErrorKind::UnexpectedEof))
        &&& (data.len() >= 4 && 4 + 10 * i32_at(data, 0) <= data.len() ==> (r matches Ok(m) && m.props@ == specs_at(data, 4, i32_at(data, 0) as int)))
    }

    open spec fn writable(&self) -> bool {
        true
    }

    open spec fn payload_bytes(&self) -> Seq<u8> {
        i32_be(self.props@.len() as i32) + specs_bytes(self.props@)
    }

    fn message_id() -> (id: MessageId) {
        MessageId::UserProp
    }

    fn read_payload(data: &[u8]) -> (r: Result<UserPropMsg, WireError>) {
        UserPropMsg::from_bytes(data)
    }

    fn write_payload(&self, buf: &mut Vec<u8>) {
        self.to_bytes(buf)
    }
}

} // verus!
