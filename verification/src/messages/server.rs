//! Server messages: keepalives, the server's description, user lists and
//! the log-on notice.
use vstd::prelude::*;
use vstd::utf8::is_ascii_chars;
use crate::buffer::{
    fixed_str_bytes, fixed_str_fits, get_str63, lemma_fixed_str_in, lemma_i32_in, lemma_u32_in, lemma_window, i32_at, i32_be, put_str63, read_i32, read_u32, spec_get_fixed_str,
    u32_at, u32_be, write_i32, write_u32, ErrorKind, WireError,
};
use crate::messages::flags::{DownloadCaps, ServerFlags, UploadCaps};
use crate::messages::user::UserRec;
use crate::text::string_from;

use crate::messages::message_id::MessageId;
use crate::messages::message::MessagePayload;
verus! {

broadcast use vstd::seq_lib::group_seq_properties;

/// A keepalive ping (`ping`): it carries nothing; the reference number
/// comes back in the pong.
#[derive(Debug, Clone, Copy, PartialEq, Eq, Default)]
pub struct PingMsg;

impl PingMsg {
    /// Reads the message: whatever the payload, it carries nothing.
    pub fn from_bytes(data: &[u8]) -> (r: Result<PingMsg, WireError>)
        ensures
            r is Ok,
    {
        Ok(PingMsg)
    }

    /// Writes the message: nothing.
    pub fn to_bytes(&self, buf: &mut Vec<u8>)
        ensures
            final(buf)@ == old(buf)@,
    {
    }
}

/// The answer to a ping (`pong`): it carries nothing.
#[derive(Debug, Clone, Copy, PartialEq, Eq, Default)]
pub struct PongMsg;

impl PongMsg {
    /// Reads the message: whatever the payload, it carries nothing.
    pub fn from_bytes(data: &[u8]) -> (r: Result<PongMsg, WireError>)
        ensures
            r is Ok,
    {
        Ok(PongMsg)
    }

    /// Writes the message: nothing.
    pub fn to_bytes(&self, buf: &mut Vec<u8>)
        ensures
            final(buf)@ == old(buf)@,
    {
    }
}

/// The server's description (`sinf`): permissions, name (a Str63),
/// options, and upload and download capabilities.
#[derive(Debug, Clone, PartialEq)]
pub struct ServerInfoMsg {
    pub server_permissions: ServerFlags,
    pub server_name: String,
    pub server_options: u32,
    pub upload_caps: UploadCaps,
    pub download_caps: DownloadCaps,
}

impl ServerInfoMsg {
    /// A description from its parts.
    pub fn new(
        server_permissions: ServerFlags,
        server_name: &str,
        server_options: u32,
        upload_caps: UploadCaps,
        download_caps: DownloadCaps,
    ) -> (m: ServerInfoMsg)
        ensures
            m.server_permissions == server_permissions && m.server_name@ == server_name@
                && m.server_options == server_options && m.upload_caps == upload_caps
                && m.download_caps == download_caps,
    {
        ServerInfoMsg {
            server_permissions,
            server_name: string_from(server_name),
            server_options,
            upload_caps,
            download_caps,
        }
    }

    /// Reads the message. Too few bytes are `UnexpectedEof`; a name length
    /// over 63 is `InvalidData`; unknown flag bits are dropped.
    pub fn from_bytes(data: &[u8]) -> (r: Result<ServerInfoMsg, WireError>)
        ensures
            data@.len() < 80 ==> (r matches Err(e) && e.kind == ErrorKind::UnexpectedEof),
            data@.len() >= 80 ==> match spec_get_fixed_str(data@, 4, 63) {
                Ok((t, _)) => r matches Ok(m) && m.server_name@ == t
                    && m.server_permissions@ == u32_at(data@, 0) & ServerFlags::spec_all_bits()
                    && m.server_options == u32_at(data@, 68)
                    && m.upload_caps@ == u32_at(data@, 72) & UploadCaps::spec_all_bits()
                    && m.download_caps@ == u32_at(data@, 76) & DownloadCaps::spec_all_bits(),
                Err(k) => r matches Err(e) && e.kind == k,
            },
    {
        if data.len() < 80 {
            return Err(WireError::new(ErrorKind::UnexpectedEof));
        }
        let server_permissions = ServerFlags::from_bits_truncate(read_u32(data, 0));
        match get_str63(data, 4) {
            Ok((server_name, _)) => Ok(ServerInfoMsg {
                server_permissions,
                server_name,
                server_options: read_u32(data, 68),
                upload_caps: UploadCaps::from_bits_truncate(read_u32(data, 72)),
                download_caps: DownloadCaps::from_bits_truncate(read_u32(data, 76)),
            }),
            Err(e) => Err(e),
        }
    }

    /// Writes the message; the name must fit its 63 bytes.
    pub fn to_bytes(&self, buf: &mut Vec<u8>)
        requires
            fixed_str_fits(self.server_name@, 63),
        ensures
            final(buf)@ == old(buf)@ + u32_be(self.server_permissions@) + fixed_str_bytes(self.server_name@, 63)
                + u32_be(self.server_options) + u32_be(self.upload_caps@) + u32_be(self.download_caps@),
    {
        write_u32(buf, self.server_permissions.bits());
        put_str63(buf, &self.server_name);
        write_u32(buf, self.server_options);
        write_u32(buf, self.upload_caps.bits());
        write_u32(buf, self.download_caps.bits());
        assert(final(buf)@ =~= old(buf)@ + u32_be(self.server_permissions@) + fixed_str_bytes(
            self.server_name@,
            63,
        ) + u32_be(self.server_options) + u32_be(self.upload_caps@) + u32_be(self.download_caps@));
    }
}

/// The bytes of user records, one after another.
pub open spec fn users_bytes(us: Seq<UserRec>) -> Seq<u8>
    decreases us.len(),
{
    if us.len() == 0 {
        Seq::empty()
    } else {
        users_bytes(us.drop_last()) + us.last().spec_bytes()
    }
}

/// Whether every whole record in `s` reads without error.
pub open spec fn users_readable(s: Seq<u8>) -> bool {
    forall|i: int| 0 <= i < s.len() / 142 ==> #[trigger] UserRec::error_at(s, 142 * i) is None
}

/// Whether `us` are the whole records that stand in `s`, one after another.
pub open spec fn users_at(s: Seq<u8>, us: Seq<UserRec>) -> bool {
    &&& us.len() == s.len() / 142
    &&& forall|i: int| 0 <= i < us.len() ==> UserRec::is_at(#[trigger] us[i], s, 142 * i)
}

/// Whether `k` is the error of the first record in `s` that does not read.
pub open spec fn first_user_error(s: Seq<u8>, k: ErrorKind) -> bool {
    exists|i: int|
        0 <= i < s.len() / 142 && #[trigger] UserRec::error_at(s, 142 * i) == Some(k) && forall|j: int|
            0 <= j < i ==> #[trigger] UserRec::error_at(s, 142 * j) is None
}

/// Reads the whole user records of `data`; bytes after the last whole
/// record are left.
fn read_users(data: &[u8]) -> (r: Result<Vec<UserRec>, WireError>)
    ensures
        r is Ok <==> users_readable(data@),
        r matches Ok(us) ==> users_at(data@, us@),
        r matches Err(e) ==> first_user_error(data@, e.kind),
{
    let mut users: Vec<UserRec> = Vec::new();
    let mut pos: usize = 0;
    let len = data.len();
    while len - pos >= 142
        invariant
            len == data@.len(),
            pos <= len,
            pos == 142 * users@.len(),
            forall|i: int| 0 <= i < users@.len() ==> UserRec::is_at(#[trigger] users@[i], data@, 142 * i),
            forall|i: int| 0 <= i < users@.len() ==> #[trigger] UserRec::error_at(data@, 142 * i) is None,
        decreases len - pos,
    {
        let ghost k: int = users@.len() as int;
        match UserRec::parse_at(data, pos) {
            Ok((u, np)) => {
                users.push(u);
                pos = np;
            },
            Err(e) => {
                proof {
                    assert(k < data@.len() / 142) by (nonlinear_arith)
                        requires
                            142 * k + 142 <= data@.len(),
                    ;
                    assert(UserRec::error_at(data@, 142 * k) == Some(e.kind));
                }
                return Err(e);
            },
        }
    }
    proof {
        let n: int = users@.len() as int;
        assert(n == data@.len() / 142) by (nonlinear_arith)
            requires
                142 * n <= data@.len(),
                data@.len() < 142 * n + 142,
        ;
    }
    Ok(users)
}

/// Writes user records one after another.
fn write_users(buf: &mut Vec<u8>, users: &Vec<UserRec>)
    requires
        forall|i: int| 0 <= i < users@.len() ==> fixed_str_fits(#[trigger] users@[i].name@, 31),
    ensures
        final(buf)@ == old(buf)@ + users_bytes(users@),
{
    let mut i: usize = 0;
    while i < users.len()
        invariant
            i <= users@.len(),
            forall|k: int| 0 <= k < users@.len() ==> fixed_str_fits(#[trigger] users@[k].name@, 31),
            buf@ == old(buf)@ + users_bytes(users@.subrange(0, i as int)),
        decreases users@.len() - i,
    {
        users[i].to_bytes(buf);
        proof {
            assert(users@.subrange(0, i + 1).drop_last() =~= users@.subrange(0, i as int));
        }
        i = i + 1;
    }
    assert(users@.subrange(0, users@.len() as int) =~= users@);
}

/// The users of the current room (`rprs`).
#[derive(Debug, Clone, PartialEq)]
pub struct UserListMsg {
    pub users: Vec<UserRec>,
}

impl UserListMsg {
    /// A list of the given users.
    pub fn new(users: Vec<UserRec>) -> (m: UserListMsg)
        ensures
            m.users@ == users@,
    {
        UserListMsg { users }
    }

    /// The number of users.
    pub fn count(&self) -> (n: usize)
        ensures
            n == self.users@.len(),
    {
        self.users.len()
    }

    /// Reads the message: every whole user record; the first that does not
    /// read is the error.
    pub fn from_bytes(data: &[u8]) -> (r: Result<UserListMsg, WireError>)
        ensures
            r is Ok <==> users_readable(data@),
            r matches Ok(m) ==> users_at(data@, m.users@),
            r matches Err(e) ==> first_user_error(data@, e.kind),
    {
        match read_users(data) {
            Ok(users) => Ok(UserListMsg { users }),
            Err(e) => Err(e),
        }
    }

    /// Writes the message: the records one after another.
    pub fn to_bytes(&self, buf: &mut Vec<u8>)
        requires
            forall|i: int| 0 <= i < self.users@.len() ==> fixed_str_fits(#[trigger] self.users@[i].name@, 31),
        ensures
            final(buf)@ == old(buf)@ + users_bytes(self.users@),
    {
        write_users(buf, &self.users);
    }
}

/// Every user on the server (`uLst`), in the same shape as the room's list.
#[derive(Debug, Clone, PartialEq)]
pub struct ListOfAllUsersMsg {
    pub users: Vec<UserRec>,
}

impl ListOfAllUsersMsg {
    /// A list of the given users.
    pub fn new(users: Vec<UserRec>) -> (m: ListOfAllUsersMsg)
        ensures
            m.users@ == users@,
    {
        ListOfAllUsersMsg { users }
    }

    /// The number of users.
    pub fn count(&self) -> (n: usize)
        ensures
            n == self.users@.len(),
    {
        self.users.len()
    }

    /// Reads the message: every whole user record; the first that does not
    /// read is the error.
    pub fn from_bytes(data: &[u8]) -> (r: Result<ListOfAllUsersMsg, WireError>)
        ensures
            r is Ok <==> users_readable(data@),
            r matches Ok(m) ==> users_at(data@, m.users@),
            r matches Err(e) ==> first_user_error(data@, e.kind),
    {
        match read_users(data) {
            Ok(users) => Ok(ListOfAllUsersMsg { users }),
            Err(e) => Err(e),
        }
    }

    /// Writes the message: the records one after another.
    pub fn to_bytes(&self, buf: &mut Vec<u8>)
        requires
            forall|i: int| 0 <= i < self.users@.len() ==> fixed_str_fits(#[trigger] self.users@[i].name@, 31),
        ensures
            final(buf)@ == old(buf)@ + users_bytes(self.users@),
    {
        write_users(buf, &self.users);
    }
}

/// A user logged on (`log `): the new number of users on the server.
#[derive(Debug, Clone, Copy, PartialEq, Eq)]
pub struct UserLogMsg {
    pub nbr_users: i32,
}

impl UserLogMsg {
    /// The notice with the given number of users.
    pub fn new(nbr_users: i32) -> (m: UserLogMsg)
        ensures
            m.nbr_users == nbr_users,
    {
        UserLogMsg { nbr_users }
    }

    /// Reads the message: the number of users.
    pub fn from_bytes(data: &[u8]) -> (r: Result<UserLogMsg, WireError>)
        ensures
            data@.len() < 4 ==> (r matches Err(e) && e.kind == ErrorKind::UnexpectedEof),
            data@.len() >= 4 ==> (r matches Ok(m) && m.nbr_users == i32_at(data@, 0)),
    {
        if data.len() < 4 {
            return Err(WireError::new(ErrorKind::UnexpectedEof));
        }
        Ok(UserLogMsg { nbr_users: read_i32(data, 0) })
    }

    /// Writes the message.
    pub fn to_bytes(&self, buf: &mut Vec<u8>)
        ensures
            final(buf)@ == old(buf)@ + i32_be(self.nbr_users),
    {
        write_i32(buf, self.nbr_users);
    }
}


/// A description whose flags are defined ones and whose name is ASCII and
/// fits is read back from its bytes.
pub proof fn lemma_server_info_roundtrip(m: ServerInfoMsg)
    requires
        m.server_permissions@ & ServerFlags::spec_all_bits() == m.server_permissions@,
        m.upload_caps@ & UploadCaps::spec_all_bits() == m.upload_caps@,
        m.download_caps@ & DownloadCaps::spec_all_bits() == m.download_caps@,
        is_ascii_chars(m.server_name@),
        fixed_str_fits(m.server_name@, 63),
    ensures
        ({
            let b = u32_be(m.server_permissions@) + fixed_str_bytes(m.server_name@, 63) + u32_be(m.server_options)
                + u32_be(m.upload_caps@) + u32_be(m.download_caps@);
            &&& b.len() == 80
            &&& spec_get_fixed_str(b, 4, 63) == Ok::<(Seq<char>, int), ErrorKind>((m.server_name@, 68))
            &&& u32_at(b, 0) & ServerFlags::spec_all_bits() == m.server_permissions@
            &&& u32_at(b, 68) == m.server_options
            &&& u32_at(b, 72) & UploadCaps::spec_all_bits() == m.upload_caps@
            &&& u32_at(b, 76) & DownloadCaps::spec_all_bits() == m.download_caps@
        }),
{
    let b = u32_be(m.server_permissions@) + fixed_str_bytes(m.server_name@, 63) + u32_be(m.server_options) + u32_be(
        m.upload_caps@,
    ) + u32_be(m.download_caps@);
    assert(fixed_str_bytes(m.server_name@, 63).len() == 64);
    assert(b.subrange(0, 4) =~= u32_be(m.server_permissions@));
    lemma_u32_in(b, 0, m.server_permissions@);
    assert(b.subrange(4, 68) =~= fixed_str_bytes(m.server_name@, 63));
    lemma_fixed_str_in(b, 4, m.server_name@, 63);
    assert(b.subrange(68, 72) =~= u32_be(m.server_options));
    lemma_u32_in(b, 68, m.server_options);
    assert(b.subrange(72, 76) =~= u32_be(m.upload_caps@));
    lemma_u32_in(b, 72, m.upload_caps@);
    assert(b.subrange(76, 80) =~= u32_be(m.download_caps@));
    lemma_u32_in(b, 76, m.download_caps@);
}

/// The bytes of user records are 142 a record, the `i`-th record's at
/// `142 * i`.
pub proof fn lemma_users_bytes(us: Seq<UserRec>)
    requires
        forall|i: int| 0 <= i < us.len() ==> fixed_str_fits(#[trigger] us[i].name@, 31),
    ensures
        users_bytes(us).len() == 142 * us.len(),
        forall|i: int| 0 <= i < us.len() ==>
            #[trigger] users_bytes(us).subrange(142 * i, 142 * i + 142) == us[i].spec_bytes(),
    decreases us.len(),
{
    if us.len() > 0 {
        let q = us.drop_last();
        lemma_users_bytes(q);
        us.last().lemma_layout();
        assert forall|i: int| 0 <= i < us.len() implies
            #[trigger] users_bytes(us).subrange(142 * i, 142 * i + 142) == us[i].spec_bytes() by {
            if i < q.len() {
                assert(users_bytes(us).subrange(142 * i, 142 * i + 142) =~= users_bytes(q).subrange(142 * i, 142 * i
                    + 142));
            } else {
                assert(users_bytes(us).subrange(142 * i, 142 * i + 142) =~= us.last().spec_bytes());
            }
        }
    }
}

/// A list of users whose names are ASCII and fit is read back from its
/// bytes, followed by fewer than 142 other bytes.
pub proof fn lemma_users_roundtrip(us: Seq<UserRec>, rest: Seq<u8>)
    requires
        forall|i: int| 0 <= i < us.len() ==> fixed_str_fits(#[trigger] us[i].name@, 31),
        forall|i: int| 0 <= i < us.len() ==> is_ascii_chars(#[trigger] us[i].name@),
        rest.len() < 142,
    ensures
        users_readable(users_bytes(us) + rest),
        users_at(users_bytes(us) + rest, us),
{
    let b = users_bytes(us) + rest;
    lemma_users_bytes(us);
    let n = us.len() as int;
    assert(b.len() / 142 == n) by (nonlinear_arith)
        requires
            b.len() == 142 * n + rest.len(),
            rest.len() < 142,
            n >= 0;
    assert forall|i: int| 0 <= i < n implies UserRec::error_at(b, 142 * i) is None && UserRec::is_at(
        #[trigger] us[i],
        b,
        142 * i,
    ) by {
        assert(142 * i + 142 <= 142 * n) by (nonlinear_arith)
            requires
                i < n;
        assert(b.subrange(142 * i, 142 * i + 142) =~= users_bytes(us).subrange(142 * i, 142 * i + 142));
        us[i].lemma_read_back(b, 142 * i);
    }
    assert forall|i: int| 0 <= i < b.len() / 142 implies #[trigger] UserRec::error_at(b, 142 * i) is None by {
        assert(UserRec::is_at(us[i], b, 142 * i));
    }
}


impl MessagePayload for ListOfAllUsersMsg {
    open spec fn spec_message_id() -> MessageId {
        MessageId::ListOfAllUsers
    }

    open spec fn readable(data: Seq<u8>) -> bool {
        true
    }

    open spec fn read_is(data: Seq<u8>, r: Result<ListOfAllUsersMsg, WireError>) -> bool {
        &&& (r is Ok <==> users_readable(data))
        &&& (r matches Ok(m) ==> users_at(data, m.users@))
        &&& (r matches Err(e) ==> first_user_error(data, e.kind))
    }

    open spec fn writable(&self) -> bool {
        (forall|i: int| 0 <= i < self.users@.len() ==> fixed_str_fits(#[trigger] self.users@[i].name@, 31))
    }

    open spec fn payload_bytes(&self) -> Seq<u8> {
        users_bytes(self.users@)
    }

    fn message_id() -> (id: MessageId) {
        MessageId::ListOfAllUsers
    }

    fn read_payload(data: &[u8]) -> (r: Result<ListOfAllUsersMsg, WireError>) {
        ListOfAllUsersMsg::from_bytes(data)
    }

    fn write_payload(&self, buf: &mut Vec<u8>) {
        self.to_bytes(buf)
    }
}

impl MessagePayload for PingMsg {
    open spec fn spec_message_id() -> MessageId {
        MessageId::Ping
    }

    open spec fn readable(data: Seq<u8>) -> bool {
        true
    }

    open spec fn read_is(data: Seq<u8>, r: Result<PingMsg, WireError>) -> bool {
        &&& (r is Ok)
    }

    open spec fn writable(&self) -> bool {
        true
    }

    open spec fn payload_bytes(&self) -> Seq<u8> {
        Seq::empty()
    }

    fn message_id() -> (id: MessageId) {
        MessageId::Ping
    }

    fn read_payload(data: &[u8]) -> (r: Result<PingMsg, WireError>) {
        PingMsg::from_bytes(data)
    }

    fn write_payload(&self, buf: &mut Vec<u8>) {
        self.to_bytes(buf)
    }
}

impl MessagePayload for PongMsg {
    open spec fn spec_message_id() -> MessageId {
        MessageId::Pong
    }

    open spec fn readable(data: Seq<u8>) -> bool {
        true
    }

    open spec fn read_is(data: Seq<u8>, r: Result<PongMsg, WireError>) -> bool {
        &&& (r is Ok)
    }

    open spec fn writable(&self) -> bool {
        true
    }

    open spec fn payload_bytes(&self) -> Seq<u8> {
        Seq::empty()
    }

    fn message_id() -> (id: MessageId) {
        MessageId::Pong
    }

    fn read_payload(data: &[u8]) -> (r: Result<PongMsg, WireError>) {
        PongMsg::from_bytes(data)
    }

    fn write_payload(&self, buf: &mut Vec<u8>) {
        self.to_bytes(buf)
    }
}

impl MessagePayload for ServerInfoMsg {
    open spec fn spec_message_id() -> MessageId {
        MessageId::ServerInfo
    }

    open spec fn readable(data: Seq<u8>) -> bool {
        true
    }

    open spec fn read_is(data: Seq<u8>, r: Result<ServerInfoMsg, WireError>) -> bool {
        &&& (data.len() < 80 ==> (r matches Err(e) && e.kind == ErrorKind::UnexpectedEof))
        &&& (data.len() >= 80 ==> match spec_get_fixed_str(data, 4, 63) { Ok((t, _)) => r matches Ok(m) && m.server_name@ == t && m.server_permissions@ == u32_at(data, 0) & ServerFlags::spec_all_bits() && m.server_options == u32_at(data, 68) && m.upload_caps@ == u32_at(data, 72) & UploadCaps::spec_all_bits() && m.download_caps@ == u32_at(data, 76) & DownloadCaps::spec_all_bits(), Err(k) => r matches Err(e) && e.kind == k, })
    }

    open spec fn writable(&self) -> bool {
        (fixed_str_fits(self.server_name@, 63))
    }

    open spec fn payload_bytes(&self) -> Seq<u8> {
        u32_be(self.server_permissions@) + fixed_str_bytes(self.server_name@, 63) + u32_be(self.server_options) + u32_be(self.upload_caps@) + u32_be(self.download_caps@)
    }

    fn message_id() -> (id: MessageId) {
        MessageId::ServerInfo
    }

    fn read_payload(data: &[u8]) -> (r: Result<ServerInfoMsg, WireError>) {
        ServerInfoMsg::from_bytes(data)
    }

    fn write_payload(&self, buf: &mut Vec<u8>) {
        self.to_bytes(buf)
    }
}

impl MessagePayload for UserListMsg {
    open spec fn spec_message_id() -> MessageId {
        MessageId::UserList
    }

    open spec fn readable(data: Seq<u8>) -> bool {
        true
    }

    open spec fn read_is(data: Seq<u8>, r: Result<UserListMsg, WireError>) -> bool {
        &&& (r is Ok <==> users_readable(data))
        &&& (r matches Ok(m) ==> users_at(data, m.users@))
        &&& (r matches Err(e) ==> first_user_error(data, e.kind))
    }

    open spec fn writable(&self) -> bool {
        (forall|i: int| 0 <= i < self.users@.len() ==> fixed_str_fits(#[trigger] self.users@[i].name@, 31))
    }

    open spec fn payload_bytes(&self) -> Seq<u8> {
        users_bytes(self.users@)
    }

    fn message_id() -> (id: MessageId) {
        MessageId::UserList
    }

    fn read_payload(data: &[u8]) -> (r: Result<UserListMsg, WireError>) {
        UserListMsg::from_bytes(data)
    }

    fn write_payload(&self, buf: &mut Vec<u8>) {
        self.to_bytes(buf)
    }
}

impl MessagePayload for UserLogMsg {
    open spec fn spec_message_id() -> MessageId {
        MessageId::UserLog
    }

    open spec fn readable(data: Seq<u8>) -> bool {
        true
    }

    open spec fn read_is(data: Seq<u8>, r: Result<UserLogMsg, WireError>) -> bool {
        &&& (data.len() < 4 ==> (r matches Err(e) && e.kind == ErrorKind::UnexpectedEof))
        &&& (data.len() >= 4 ==> (r matches Ok(m) && m.nbr_users == i32_at(data, 0)))
    }

    open spec fn writable(&self) -> bool {
        true
    }

    open spec fn payload_bytes(&self) -> Seq<u8> {
        i32_be(self.nbr_users)
    }

    fn message_id() -> (id: MessageId) {
        MessageId::UserLog
    }

    fn read_payload(data: &[u8]) -> (r: Result<UserLogMsg, WireError>) {
        UserLogMsg::from_bytes(data)
    }

    fn write_payload(&self, buf: &mut Vec<u8>) {
        self.to_bytes(buf)
    }
}

} // verus!
