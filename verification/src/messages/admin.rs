//! Administration messages: superuser requests, killing a user, and
//! server shutdown notices.
use vstd::prelude::*;
use crate::buffer::{
    cstring_bytes, cstring_fits, get_cstring, get_pstring, i32_at, i32_be, pstring_bytes, pstring_fits, put_cstring,
    read_i32, spec_get_cstring, spec_get_pstring, try_put_pstring, write_i32, ErrorKind, WireError,
};
use crate::text::string_from;

use crate::messages::message_id::MessageId;
use crate::messages::message::MessagePayload;
verus! {

/// A request for superuser (wizard) rights (`susr`), with the password as
/// a Pascal string.
#[derive(Debug, Clone, PartialEq)]
pub struct SuperUserMsg {
    pub password: String,
}

impl SuperUserMsg {
    /// The request with the given password.
    pub fn new(password: &str) -> (m: SuperUserMsg)
        ensures
            m.password@ == password@,
    {
        SuperUserMsg { password: string_from(password) }
    }

    /// Reads the request: a Pascal string.
    pub fn from_bytes(data: &[u8]) -> (r: Result<SuperUserMsg, WireError>)
        ensures
            match spec_get_pstring(data@, 0) {
                Ok((t, _)) => r matches Ok(m) && m.password@ == t,
                Err(k) => r matches Err(e) && e.kind == k,
            },
    {
        match get_pstring(data, 0) {
            Ok((password, _)) => Ok(SuperUserMsg { password }),
            Err(e) => Err(e),
        }
    }

    /// Writes the request; the password must fit a Pascal string.
    pub fn to_bytes(&self, buf: &mut Vec<u8>)
        requires
            pstring_fits(self.password@),
        ensures
            final(buf)@ == old(buf)@ + pstring_bytes(self.password@),
    {
        let r = try_put_pstring(buf, &self.password);
    }
}

/// A request to disconnect a user (`kill`).
#[derive(Debug, Clone, PartialEq)]
pub struct KillUserMsg {
    pub target_id: i32,
}

impl KillUserMsg {
    /// The request for the given user.
    pub fn new(target_id: i32) -> (m: KillUserMsg)
        ensures
            m.target_id == target_id,
    {
        KillUserMsg { target_id }
    }

    /// Reads the request: the user ID.
    pub fn from_bytes(data: &[u8]) -> (r: Result<KillUserMsg, WireError>)
        ensures
            data@.len() < 4 ==> (r matches Err(e) && e.kind == ErrorKind::UnexpectedEof),
            data@.len() >= 4 ==> (r matches Ok(m) && m.target_id == i32_at(data@, 0)),
    {
        if data.len() < 4 {
            return Err(WireError::new(ErrorKind::UnexpectedEof));
        }
        Ok(KillUserMsg { target_id: read_i32(data, 0) })
    }

    /// Writes the request.
    pub fn to_bytes(&self, buf: &mut Vec<u8>)
        ensures
            final(buf)@ == old(buf)@ + i32_be(self.target_id),
    {
        write_i32(buf, self.target_id);
    }
}

/// Why the server disconnects a client.
#[derive(Debug, Clone, Copy, PartialEq, Eq, Structural)]
pub enum ServerDownReason {
    Unknown,
    LoggedOff,
    CommError,
    Flood,
    KilledByPlayer,
    ServerDown,
    Unresponsive,
    KilledBySysop,
    ServerFull,
    InvalidSerialNumber,
    DuplicateUser,
    DeathPenaltyActive,
    Banished,
    BanishKill,
    NoGuests,
    DemoExpired,
    Verbose,
}

/// The wire number of each reason.
pub open spec fn reason_number(r: ServerDownReason) -> i32 {
    match r {
        ServerDownReason::Unknown => 0,
        ServerDownReason::LoggedOff => 1,
        ServerDownReason::CommError => 2,
        ServerDownReason::Flood => 3,
        ServerDownReason::KilledByPlayer => 4,
        ServerDownReason::ServerDown => 5,
        ServerDownReason::Unresponsive => 6,
        ServerDownReason::KilledBySysop => 7,
        ServerDownReason::ServerFull => 8,
        ServerDownReason::InvalidSerialNumber => 9,
        ServerDownReason::DuplicateUser => 10,
        ServerDownReason::DeathPenaltyActive => 11,
        ServerDownReason::Banished => 12,
        ServerDownReason::BanishKill => 13,
        ServerDownReason::NoGuests => 14,
        ServerDownReason::DemoExpired => 15,
        ServerDownReason::Verbose => 16,
    }
}

impl ServerDownReason {
    /// The reason with the given number, if any (0 to 16).
    pub fn from_i32(value: i32) -> (r: Option<ServerDownReason>)
        ensures
            match r {
                Some(x) => reason_number(x) == value,
                None => !(0 <= value <= 16),
            },
    {
        match value {
            0 => Some(ServerDownReason::Unknown),
            1 => Some(ServerDownReason::LoggedOff),
            2 => Some(ServerDownReason::CommError),
            3 => Some(ServerDownReason::Flood),
            4 => Some(ServerDownReason::KilledByPlayer),
            5 => Some(ServerDownReason::ServerDown),
            6 => Some(ServerDownReason::Unresponsive),
            7 => Some(ServerDownReason::KilledBySysop),
            8 => Some(ServerDownReason::ServerFull),
            9 => Some(ServerDownReason::InvalidSerialNumber),
            10 => Some(ServerDownReason::DuplicateUser),
            11 => Some(ServerDownReason::DeathPenaltyActive),
            12 => Some(ServerDownReason::Banished),
            13 => Some(ServerDownReason::BanishKill),
            14 => Some(ServerDownReason::NoGuests),
            15 => Some(ServerDownReason::DemoExpired),
            16 => Some(ServerDownReason::Verbose),
            _ => None,
        }
    }

    /// The number of this reason.
    pub fn as_i32(self) -> (v: i32)
        ensures
            v == reason_number(self),
    {
        match self {
            ServerDownReason::Unknown => 0,
            ServerDownReason::LoggedOff => 1,
            ServerDownReason::CommError => 2,
            ServerDownReason::Flood => 3,
            ServerDownReason::KilledByPlayer => 4,
            ServerDownReason::ServerDown => 5,
            ServerDownReason::Unresponsive => 6,
            ServerDownReason::KilledBySysop => 7,
            ServerDownReason::ServerFull => 8,
            ServerDownReason::InvalidSerialNumber => 9,
            ServerDownReason::DuplicateUser => 10,
            ServerDownReason::DeathPenaltyActive => 11,
            ServerDownReason::Banished => 12,
            ServerDownReason::BanishKill => 13,
            ServerDownReason::NoGuests => 14,
            ServerDownReason::DemoExpired => 15,
            ServerDownReason::Verbose => 16,
        }
    }
}

/// A reason read back from its number is the reason itself.
pub proof fn lemma_reason_roundtrip(r: ServerDownReason)
    ensures
        0 <= reason_number(r) <= 16,
        forall|x: ServerDownReason| reason_number(x) == reason_number(r) ==> x == r,
{
}

/// The server is shutting down or disconnecting the client (`down`); with
/// the verbose reason it carries a text.
#[derive(Debug, Clone, PartialEq)]
pub struct ServerDownMsg {
    pub reason_text: Option<String>,
}

impl ServerDownMsg {
    /// A notice without text.
    pub fn new() -> (m: ServerDownMsg)
        ensures
            m.reason_text is None,
    {
        ServerDownMsg { reason_text: None }
    }

    /// A notice with a text.
    pub fn with_reason(reason_text: &str) -> (m: ServerDownMsg)
        ensures
            m.reason_text matches Some(t) && t@ == reason_text@,
    {
        ServerDownMsg { reason_text: Some(string_from(reason_text)) }
    }

    /// Whether the notice carries a text.
    pub fn is_verbose(&self) -> (b: bool)
        ensures
            b == self.reason_text is Some,
    {
        self.reason_text.is_some()
    }

    /// Reads the notice: nothing, or a C string.
    pub fn from_bytes(data: &[u8]) -> (r: Result<ServerDownMsg, WireError>)
        ensures
            data@.len() == 0 ==> (r matches Ok(m) && m.reason_text is None),
            data@.len() > 0 ==> match spec_get_cstring(data@, 0) {
                Ok((t, _)) => r matches Ok(m) && (m.reason_text matches Some(s) && s@ == t),
                Err(k) => r matches Err(e) && e.kind == k,
            },
    {
        if data.len() == 0 {
            return Ok(ServerDownMsg { reason_text: None });
        }
        match get_cstring(data, 0) {
            Ok((t, _)) => Ok(ServerDownMsg { reason_text: Some(t) }),
            Err(e) => Err(e),
        }
    }

    /// Writes the notice: its text, if any, as a C string.
    pub fn to_bytes(&self, buf: &mut Vec<u8>)
        requires
            self.reason_text matches Some(t) ==> cstring_fits(t@),
        ensures
            match self.reason_text {
                Some(t) => final(buf)@ == old(buf)@ + cstring_bytes(t@),
                None => final(buf)@ == old(buf)@,
            },
    {
        if let Some(t) = &self.reason_text {
            put_cstring(buf, t);
        }
    }
}

impl Default for ServerDownMsg {
    fn default() -> (m: ServerDownMsg)
        ensures
            m.reason_text is None,
    {
        ServerDownMsg::new()
    }
}


impl MessagePayload for KillUserMsg {
    open spec fn spec_message_id() -> MessageId {
        MessageId::KillUser
    }

    open spec fn readable(data: Seq<u8>) -> bool {
        true
    }

    open spec fn read_is(data: Seq<u8>, r: Result<KillUserMsg, WireError>) -> bool {
        &&& (data.len() < 4 ==> (r matches Err(e) && e.kind == ErrorKind::UnexpectedEof))
        &&& (data.len() >= 4 ==> (r matches Ok(m) && m.target_id == i32_at(data, 0)))
    }

    open spec fn writable(&self) -> bool {
        true
    }

    open spec fn payload_bytes(&self) -> Seq<u8> {
        i32_be(self.target_id)
    }

    fn message_id() -> (id: MessageId) {
        MessageId::KillUser
    }

    fn read_payload(data: &[u8]) -> (r: Result<KillUserMsg, WireError>) {
        KillUserMsg::from_bytes(data)
    }

    fn write_payload(&self, buf: &mut Vec<u8>) {
        self.to_bytes(buf)
    }
}

impl MessagePayload for SuperUserMsg {
    open spec fn spec_message_id() -> MessageId {
        MessageId::SuperUser
    }

    open spec fn readable(data: Seq<u8>) -> bool {
        true
    }

    open spec fn read_is(data: Seq<u8>, r: Result<SuperUserMsg, WireError>) -> bool {
        &&& (match spec_get_pstring(data, 0) { Ok((t, _)) => r matches Ok(m) && m.password@ == t, Err(k) => r matches Err(e) && e.kind == k, })
    }

    open spec fn writable(&self) -> bool {
        (pstring_fits(self.password@))
    }

    open spec fn payload_bytes(&self) -> Seq<u8> {
        pstring_bytes(self.password@)
    }

    fn message_id() -> (id: MessageId) {
        MessageId::SuperUser
    }

    fn read_payload(data: &[u8]) -> (r: Result<SuperUserMsg, WireError>) {
        SuperUserMsg::from_bytes(data)
    }

    fn write_payload(&self, buf: &mut Vec<u8>) {
        self.to_bytes(buf)
    }
}


impl MessagePayload for ServerDownMsg {
    open spec fn spec_message_id() -> MessageId {
        MessageId::ServerDown
    }

    open spec fn readable(data: Seq<u8>) -> bool {
        true
    }

    open spec fn read_is(data: Seq<u8>, r: Result<ServerDownMsg, WireError>) -> bool {
        &&& data.len() == 0 ==> (r matches Ok(m) && m.reason_text is None)
        &&& data.len() > 0 ==> match spec_get_cstring(data, 0) {
            Ok((t, _)) => r matches Ok(m) && (m.reason_text matches Some(s) && s@ == t),
            Err(k) => r matches Err(e) && e.kind == k,
        }
    }

    open spec fn writable(&self) -> bool {
        self.reason_text matches Some(t) ==> cstring_fits(t@)
    }

    open spec fn payload_bytes(&self) -> Seq<u8> {
        match self.reason_text {
            Some(t) => cstring_bytes(t@),
            None => Seq::empty(),
        }
    }

    fn message_id() -> (id: MessageId) {
        MessageId::ServerDown
    }

    fn read_payload(data: &[u8]) -> (r: Result<ServerDownMsg, WireError>) {
        ServerDownMsg::from_bytes(data)
    }

    fn write_payload(&self, buf: &mut Vec<u8>) {
        self.to_bytes(buf);
        proof {
            if self.reason_text is None {
                assert(buf@ =~= old(buf)@ + Seq::<u8>::empty());
            }
        }
    }
}

} // verus!
