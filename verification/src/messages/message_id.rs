//! Message type identifiers of the Palace Protocol.
//!
//! A message type is a four-character ASCII code stored as a big-endian
//! 32-bit value: `tiyr` is 0x74697972.
use vstd::prelude::*;
use crate::text::str_chars;

verus! {

/// A Palace Protocol message type.
#[derive(Debug, Clone, Copy, PartialEq, Eq, Hash, Structural)]
pub enum MessageId {
    /// Client version identification ('tiyr' = 0x74697972)
    Tiyid,
    /// Alternative logon reply ('rep2' = 0x72657032)
    AltLogonReply,
    /// User logon ('regi' = 0x72656769)
    Logon,
    /// Authentication request ('auth' = 0x61757468)
    Authenticate,
    /// Authentication response ('autr' = 0x61757472)
    AuthResponse,
    /// Blowthru/plugin relay ('blow' = 0x626c6f77)
    Blowthru,
    /// Display URL in browser ('durl' = 0x6475726c)
    DisplayUrl,
    /// Draw command ('draw' = 0x64726177)
    Draw,
    /// Extended server info ('sInf' = 0x73496e66)
    ExtendedInfo,
    /// File not found error ('fnfe' = 0x666e6665)
    FileNotFnd,
    /// Query for file ('qFil' = 0x7146696c)
    FileQuery,
    /// Send file data ('sFil' = 0x7346696c)
    FileSend,
    /// Global message to all users ('gmsg' = 0x676d7367)
    Gmsg,
    /// HTTP server location ('HTTP' = 0x48545450)
    HttpServer,
    /// Kill/disconnect user ('kill' = 0x6b696c6c)
    KillUser,
    /// Request/receive room list ('rLst' = 0x724c7374)
    ListOfAllRooms,
    /// List of all users ('uLst' = 0x754c7374)
    ListOfAllUsers,
    /// Logoff/disconnect ('bye ' = 0x62796520)
    Logoff,
    /// Navigation error ('sErr' = 0x73457272)
    NavError,
    /// No operation/keepalive ('NOOP' = 0x4e4f4f50)
    Noop,
    /// Move picture layer ('pLoc' = 0x704c6f63)
    PictMove,
    /// Keepalive ping ('ping' = 0x70696e67)
    Ping,
    /// Keepalive pong response ('pong' = 0x706f6e67)
    Pong,
    /// Delete prop from room ('dPrp' = 0x64507270)
    PropDel,
    /// Move prop in room ('mPrp' = 0x6d507270)
    PropMove,
    /// Add new prop to room ('nPrp' = 0x6e507270)
    PropNew,
    /// Room message to users in room ('rmsg' = 0x726d7367)
    Rmsg,
    /// Room description data ('room' = 0x726f6f6d)
    RoomDesc,
    /// End of room description ('endr' = 0x656e6472)
    RoomDescEnd,
    /// Navigate to different room ('navR' = 0x6e617652)
    RoomGoto,
    /// Create new room ('nRom' = 0x6e526f6d)
    RoomNew,
    /// Set room description ('sRom' = 0x73526f6d)
    RoomSetDesc,
    /// Server shutting down ('down' = 0x646f776e)
    ServerDown,
    /// Server information ('sinf' = 0x73696e66)
    ServerInfo,
    /// Superuser message ('smsg' = 0x736d7367)
    Smsg,
    /// Delete hotspot ('opSd' = 0x6f705364)
    SpotDel,
    /// Move hotspot ('coLs' = 0x636f4c73)
    SpotMove,
    /// Create new hotspot ('opSn' = 0x6f70536e)
    SpotNew,
    /// Hotspot state change ('sSta' = 0x73537461)
    SpotState,
    /// Superuser/wizard command ('susr' = 0x73757372)
    SuperUser,
    /// Normal chat message ('talk' = 0x74616c6b)
    Talk,
    /// Private message/whisper ('whis' = 0x77686973)
    Whisper,
    /// Extended talk with author ('xtlk' = 0x78746c6b)
    XTalk,
    /// Extended whisper ('xwis' = 0x78776973)
    XWhisper,
    /// User color change ('usrC' = 0x75737243)
    UserColor,
    /// User description ('usrD' = 0x75737244)
    UserDesc,
    /// User left room ('eprs' = 0x65707273)
    UserExit,
    /// User face/avatar change ('usrF' = 0x75737246)
    UserFace,
    /// List of users in room ('rprs' = 0x72707273)
    UserList,
    /// User activity log ('log ' = 0x6c6f6720)
    UserLog,
    /// User position changed ('uLoc' = 0x754c6f63)
    UserMove,
    /// User name change ('usrN' = 0x7573724e)
    UserName,
    /// New user entered room ('nprs' = 0x6e707273)
    UserNew,
    /// User props/appearance changed ('usrP' = 0x75737250)
    UserProp,
    /// User status info ('uSta' = 0x75537461)
    UserStatus,
    /// Version information ('vers' = 0x76657273)
    Version,
    /// Query for asset ('qAst' = 0x71417374)
    AssetQuery,
    /// Send asset data ('sAst' = 0x73417374)
    AssetSend,
    /// Register/upload asset ('rAst' = 0x72417374)
    AssetRegi,
    /// Lock door ('lock' = 0x6c6f636b)
    DoorLock,
    /// Unlock door ('unlk' = 0x756e6c6b)
    DoorUnlock,
}

/// The 32-bit code of each message type.
pub open spec fn id_code(m: MessageId) -> u32 {
    match m {
        MessageId::Tiyid => 0x74697972u32,
        MessageId::AltLogonReply => 0x72657032u32,
        MessageId::Logon => 0x72656769u32,
        MessageId::Authenticate => 0x61757468u32,
        MessageId::AuthResponse => 0x61757472u32,
        MessageId::Blowthru => 0x626c6f77u32,
        MessageId::DisplayUrl => 0x6475726cu32,
        MessageId::Draw => 0x64726177u32,
        MessageId::ExtendedInfo => 0x73496e66u32,
        MessageId::FileNotFnd => 0x666e6665u32,
        MessageId::FileQuery => 0x7146696cu32,
        MessageId::FileSend => 0x7346696cu32,
        MessageId::Gmsg => 0x676d7367u32,
        MessageId::HttpServer => 0x48545450u32,
        MessageId::KillUser => 0x6b696c6cu32,
        MessageId::ListOfAllRooms => 0x724c7374u32,
        MessageId::ListOfAllUsers => 0x754c7374u32,
        MessageId::Logoff => 0x62796520u32,
        MessageId::NavError => 0x73457272u32,
        MessageId::Noop => 0x4e4f4f50u32,
        MessageId::PictMove => 0x704c6f63u32,
        MessageId::Ping => 0x70696e67u32,
        MessageId::Pong => 0x706f6e67u32,
        MessageId::PropDel => 0x64507270u32,
        MessageId::PropMove => 0x6d507270u32,
        MessageId::PropNew => 0x6e507270u32,
        MessageId::Rmsg => 0x726d7367u32,
        MessageId::RoomDesc => 0x726f6f6du32,
        MessageId::RoomDescEnd => 0x656e6472u32,
        MessageId::RoomGoto => 0x6e617652u32,
        MessageId::RoomNew => 0x6e526f6du32,
        MessageId::RoomSetDesc => 0x73526f6du32,
        MessageId::ServerDown => 0x646f776eu32,
        MessageId::ServerInfo => 0x73696e66u32,
        MessageId::Smsg => 0x736d7367u32,
        MessageId::SpotDel => 0x6f705364u32,
        MessageId::SpotMove => 0x636f4c73u32,
        MessageId::SpotNew => 0x6f70536eu32,
        MessageId::SpotState => 0x73537461u32,
        MessageId::SuperUser => 0x73757372u32,
        MessageId::Talk => 0x74616c6bu32,
        MessageId::Whisper => 0x77686973u32,
        MessageId::XTalk => 0x78746c6bu32,
        MessageId::XWhisper => 0x78776973u32,
        MessageId::UserColor => 0x75737243u32,
        MessageId::UserDesc => 0x75737244u32,
        MessageId::UserExit => 0x65707273u32,
        MessageId::UserFace => 0x75737246u32,
        MessageId::UserList => 0x72707273u32,
        MessageId::UserLog => 0x6c6f6720u32,
        MessageId::UserMove => 0x754c6f63u32,
        MessageId::UserName => 0x7573724eu32,
        MessageId::UserNew => 0x6e707273u32,
        MessageId::UserProp => 0x75737250u32,
        MessageId::UserStatus => 0x75537461u32,
        MessageId::Version => 0x76657273u32,
        MessageId::AssetQuery => 0x71417374u32,
        MessageId::AssetSend => 0x73417374u32,
        MessageId::AssetRegi => 0x72417374u32,
        MessageId::DoorLock => 0x6c6f636bu32,
        MessageId::DoorUnlock => 0x756e6c6bu32,
    }
}

/// The four characters of each message type.
pub open spec fn id_text(m: MessageId) -> Seq<char> {
    match m {
        MessageId::Tiyid => seq!['t', 'i', 'y', 'r'],
        MessageId::AltLogonReply => seq!['r', 'e', 'p', '2'],
        MessageId::Logon => seq!['r', 'e', 'g', 'i'],
        MessageId::Authenticate => seq!['a', 'u', 't', 'h'],
        MessageId::AuthResponse => seq!['a', 'u', 't', 'r'],
        MessageId::Blowthru => seq!['b', 'l', 'o', 'w'],
        MessageId::DisplayUrl => seq!['d', 'u', 'r', 'l'],
        MessageId::Draw => seq!['d', 'r', 'a', 'w'],
        MessageId::ExtendedInfo => seq!['s', 'I', 'n', 'f'],
        MessageId::FileNotFnd => seq!['f', 'n', 'f', 'e'],
        MessageId::FileQuery => seq!['q', 'F', 'i', 'l'],
        MessageId::FileSend => seq!['s', 'F', 'i', 'l'],
        MessageId::Gmsg => seq!['g', 'm', 's', 'g'],
        MessageId::HttpServer => seq!['H', 'T', 'T', 'P'],
        MessageId::KillUser => seq!['k', 'i', 'l', 'l'],
        MessageId::ListOfAllRooms => seq!['r', 'L', 's', 't'],
        MessageId::ListOfAllUsers => seq!['u', 'L', 's', 't'],
        MessageId::Logoff => seq!['b', 'y', 'e', ' '],
        MessageId::NavError => seq!['s', 'E', 'r', 'r'],
        MessageId::Noop => seq!['N', 'O', 'O', 'P'],
        MessageId::PictMove => seq!['p', 'L', 'o', 'c'],
        MessageId::Ping => seq!['p', 'i', 'n', 'g'],
        MessageId::Pong => seq!['p', 'o', 'n', 'g'],
        MessageId::PropDel => seq!['d', 'P', 'r', 'p'],
        MessageId::PropMove => seq!['m', 'P', 'r', 'p'],
        MessageId::PropNew => seq!['n', 'P', 'r', 'p'],
        MessageId::Rmsg => seq!['r', 'm', 's', 'g'],
        MessageId::RoomDesc => seq!['r', 'o', 'o', 'm'],
        MessageId::RoomDescEnd => seq!['e', 'n', 'd', 'r'],
        MessageId::RoomGoto => seq!['n', 'a', 'v', 'R'],
        MessageId::RoomNew => seq!['n', 'R', 'o', 'm'],
        MessageId::RoomSetDesc => seq!['s', 'R', 'o', 'm'],
        MessageId::ServerDown => seq!['d', 'o', 'w', 'n'],
        MessageId::ServerInfo => seq!['s', 'i', 'n', 'f'],
        MessageId::Smsg => seq!['s', 'm', 's', 'g'],
        MessageId::SpotDel => seq!['o', 'p', 'S', 'd'],
        MessageId::SpotMove => seq!['c', 'o', 'L', 's'],
        MessageId::SpotNew => seq!['o', 'p', 'S', 'n'],
        MessageId::SpotState => seq!['s', 'S', 't', 'a'],
        MessageId::SuperUser => seq!['s', 'u', 's', 'r'],
        MessageId::Talk => seq!['t', 'a', 'l', 'k'],
        MessageId::Whisper => seq!['w', 'h', 'i', 's'],
        MessageId::XTalk => seq!['x', 't', 'l', 'k'],
        MessageId::XWhisper => seq!['x', 'w', 'i', 's'],
        MessageId::UserColor => seq!['u', 's', 'r', 'C'],
        MessageId::UserDesc => seq!['u', 's', 'r', 'D'],
        MessageId::UserExit => seq!['e', 'p', 'r', 's'],
        MessageId::UserFace => seq!['u', 's', 'r', 'F'],
        MessageId::UserList => seq!['r', 'p', 'r', 's'],
        MessageId::UserLog => seq!['l', 'o', 'g', ' '],
        MessageId::UserMove => seq!['u', 'L', 'o', 'c'],
        MessageId::UserName => seq!['u', 's', 'r', 'N'],
        MessageId::UserNew => seq!['n', 'p', 'r', 's'],
        MessageId::UserProp => seq!['u', 's', 'r', 'P'],
        MessageId::UserStatus => seq!['u', 'S', 't', 'a'],
        MessageId::Version => seq!['v', 'e', 'r', 's'],
        MessageId::AssetQuery => seq!['q', 'A', 's', 't'],
        MessageId::AssetSend => seq!['s', 'A', 's', 't'],
        MessageId::AssetRegi => seq!['r', 'A', 's', 't'],
        MessageId::DoorLock => seq!['l', 'o', 'c', 'k'],
        MessageId::DoorUnlock => seq!['u', 'n', 'l', 'k'],
    }
}

/// The big-endian 32-bit value of four characters, each taken as a byte.
pub open spec fn pack4(t: Seq<char>) -> int {
    (t[0] as u32) as int * 0x1000000 + (t[1] as u32) as int * 0x10000 + (t[2] as u32) as int * 0x100 + (t[3] as u32) as int
}

/// Whether a character is ASCII.
pub open spec fn ascii_char(c: char) -> bool {
    (c as u32) < 128
}

/// Whether four characters are ASCII.
pub open spec fn ascii4(t: Seq<char>) -> bool {
    t.len() == 4 && ascii_char(t[0]) && ascii_char(t[1]) && ascii_char(t[2]) && ascii_char(t[3])
}

/// Every message type's code is its four ASCII characters, big-endian.
pub proof fn lemma_code_is_text(m: MessageId)
    ensures
        ascii4(id_text(m)),
        id_code(m) as int == pack4(id_text(m)),
{
}

/// Distinct message types have distinct codes.
pub proof fn lemma_code_injective(a: MessageId, b: MessageId)
    requires
        id_code(a) == id_code(b),
    ensures
        a == b,
{
}

/// Four ASCII characters are determined by their packed value.
pub proof fn lemma_pack4_injective(s: Seq<char>, t: Seq<char>)
    requires
        ascii4(s),
        ascii4(t),
        pack4(s) == pack4(t),
    ensures
        s == t,
{
    let (a0, a1, a2, a3) = ((s[0] as u32) as int, (s[1] as u32) as int, (s[2] as u32) as int, (s[3] as u32) as int);
    let (b0, b1, b2, b3) = ((t[0] as u32) as int, (t[1] as u32) as int, (t[2] as u32) as int, (t[3] as u32) as int);
    assert(a0 == b0 && a1 == b1 && a2 == b2 && a3 == b3) by (nonlinear_arith)
        requires
            0 <= a0 < 128, 0 <= a1 < 128, 0 <= a2 < 128, 0 <= a3 < 128,
            0 <= b0 < 128, 0 <= b1 < 128, 0 <= b2 < 128, 0 <= b3 < 128,
            a0 * 0x1000000 + a1 * 0x10000 + a2 * 0x100 + a3 == b0 * 0x1000000 + b1 * 0x10000 + b2 * 0x100 + b3;
    vstd::utf8::char_u32_cast(s[0], s[0] as u32);
    vstd::utf8::char_u32_cast(t[0], t[0] as u32);
    vstd::utf8::char_u32_cast(s[1], s[1] as u32);
    vstd::utf8::char_u32_cast(t[1], t[1] as u32);
    vstd::utf8::char_u32_cast(s[2], s[2] as u32);
    vstd::utf8::char_u32_cast(t[2], t[2] as u32);
    vstd::utf8::char_u32_cast(s[3], s[3] as u32);
    vstd::utf8::char_u32_cast(t[3], t[3] as u32);
    assert(s[0] == t[0] && s[1] == t[1] && s[2] == t[2] && s[3] == t[3]);
    assert(s =~= t);
}

impl MessageId {
    /// The 32-bit code.
    pub fn as_u32(self) -> (v: u32)
        ensures
            v == id_code(self),
    {
        match self {
            MessageId::Tiyid => 0x74697972,
            MessageId::AltLogonReply => 0x72657032,
            MessageId::Logon => 0x72656769,
            MessageId::Authenticate => 0x61757468,
            MessageId::AuthResponse => 0x61757472,
            MessageId::Blowthru => 0x626c6f77,
            MessageId::DisplayUrl => 0x6475726c,
            MessageId::Draw => 0x64726177,
            MessageId::ExtendedInfo => 0x73496e66,
            MessageId::FileNotFnd => 0x666e6665,
            MessageId::FileQuery => 0x7146696c,
            MessageId::FileSend => 0x7346696c,
            MessageId::Gmsg => 0x676d7367,
            MessageId::HttpServer => 0x48545450,
            MessageId::KillUser => 0x6b696c6c,
            MessageId::ListOfAllRooms => 0x724c7374,
            MessageId::ListOfAllUsers => 0x754c7374,
            MessageId::Logoff => 0x62796520,
            MessageId::NavError => 0x73457272,
            MessageId::Noop => 0x4e4f4f50,
            MessageId::PictMove => 0x704c6f63,
            MessageId::Ping => 0x70696e67,
            MessageId::Pong => 0x706f6e67,
            MessageId::PropDel => 0x64507270,
            MessageId::PropMove => 0x6d507270,
            MessageId::PropNew => 0x6e507270,
            MessageId::Rmsg => 0x726d7367,
            MessageId::RoomDesc => 0x726f6f6d,
            MessageId::RoomDescEnd => 0x656e6472,
            MessageId::RoomGoto => 0x6e617652,
            MessageId::RoomNew => 0x6e526f6d,
            MessageId::RoomSetDesc => 0x73526f6d,
            MessageId::ServerDown => 0x646f776e,
            MessageId::ServerInfo => 0x73696e66,
            MessageId::Smsg => 0x736d7367,
            MessageId::SpotDel => 0x6f705364,
            MessageId::SpotMove => 0x636f4c73,
            MessageId::SpotNew => 0x6f70536e,
            MessageId::SpotState => 0x73537461,
            MessageId::SuperUser => 0x73757372,
            MessageId::Talk => 0x74616c6b,
            MessageId::Whisper => 0x77686973,
            MessageId::XTalk => 0x78746c6b,
            MessageId::XWhisper => 0x78776973,
            MessageId::UserColor => 0x75737243,
            MessageId::UserDesc => 0x75737244,
            MessageId::UserExit => 0x65707273,
            MessageId::UserFace => 0x75737246,
            MessageId::UserList => 0x72707273,
            MessageId::UserLog => 0x6c6f6720,
            MessageId::UserMove => 0x754c6f63,
            MessageId::UserName => 0x7573724e,
            MessageId::UserNew => 0x6e707273,
            MessageId::UserProp => 0x75737250,
            MessageId::UserStatus => 0x75537461,
            MessageId::Version => 0x76657273,
            MessageId::AssetQuery => 0x71417374,
            MessageId::AssetSend => 0x73417374,
            MessageId::AssetRegi => 0x72417374,
            MessageId::DoorLock => 0x6c6f636b,
            MessageId::DoorUnlock => 0x756e6c6b,
        }
    }

    /// The four-character ASCII code.
    pub fn as_str(self) -> (s: &'static str)
        ensures
            s@ == id_text(self),
    {
        match self {
            MessageId::Tiyid => {
                proof {
                    reveal_strlit("tiyr");
                }
                "tiyr"
            },
            MessageId::AltLogonReply => {
                proof {
                    reveal_strlit("rep2");
                }
                "rep2"
            },
            MessageId::Logon => {
                proof {
                    reveal_strlit("regi");
                }
                "regi"
            },
            MessageId::Authenticate => {
                proof {
                    reveal_strlit("auth");
                }
                "auth"
            },
            MessageId::AuthResponse => {
                proof {
                    reveal_strlit("autr");
                }
                "autr"
            },
            MessageId::Blowthru => {
                proof {
                    reveal_strlit("blow");
                }
                "blow"
            },
            MessageId::DisplayUrl => {
                proof {
                    reveal_strlit("durl");
                }
                "durl"
            },
            MessageId::Draw => {
                proof {
                    reveal_strlit("draw");
                }
                "draw"
            },
            MessageId::ExtendedInfo => {
                proof {
                    reveal_strlit("sInf");
                }
                "sInf"
            },
            MessageId::FileNotFnd => {
                proof {
                    reveal_strlit("fnfe");
                }
                "fnfe"
            },
            MessageId::FileQuery => {
                proof {
                    reveal_strlit("qFil");
                }
                "qFil"
            },
            MessageId::FileSend => {
                proof {
                    reveal_strlit("sFil");
                }
                "sFil"
            },
            MessageId::Gmsg => {
                proof {
                    reveal_strlit("gmsg");
                }
                "gmsg"
            },
            MessageId::HttpServer => {
                proof {
                    reveal_strlit("HTTP");
                }
                "HTTP"
            },
            MessageId::KillUser => {
                proof {
                    reveal_strlit("kill");
                }
                "kill"
            },
            MessageId::ListOfAllRooms => {
                proof {
                    reveal_strlit("rLst");
                }
                "rLst"
            },
            MessageId::ListOfAllUsers => {
                proof {
                    reveal_strlit("uLst");
                }
                "uLst"
            },
            MessageId::Logoff => {
                proof {
                    reveal_strlit("bye ");
                }
                "bye "
            },
            MessageId::NavError => {
                proof {
                    reveal_strlit("sErr");
                }
                "sErr"
            },
            MessageId::Noop => {
                proof {
                    reveal_strlit("NOOP");
                }
                "NOOP"
            },
            MessageId::PictMove => {
                proof {
                    reveal_strlit("pLoc");
                }
                "pLoc"
            },
            MessageId::Ping => {
                proof {
                    reveal_strlit("ping");
                }
                "ping"
            },
            MessageId::Pong => {
                proof {
                    reveal_strlit("pong");
                }
                "pong"
            },
            MessageId::PropDel => {
                proof {
                    reveal_strlit("dPrp");
                }
                "dPrp"
            },
            MessageId::PropMove => {
                proof {
                    reveal_strlit("mPrp");
                }
                "mPrp"
            },
            MessageId::PropNew => {
                proof {
                    reveal_strlit("nPrp");
                }
                "nPrp"
            },
            MessageId::Rmsg => {
                proof {
                    reveal_strlit("rmsg");
                }
                "rmsg"
            },
            MessageId::RoomDesc => {
                proof {
                    reveal_strlit("room");
                }
                "room"
            },
            MessageId::RoomDescEnd => {
                proof {
                    reveal_strlit("endr");
                }
                "endr"
            },
            MessageId::RoomGoto => {
                proof {
                    reveal_strlit("navR");
                }
                "navR"
            },
            MessageId::RoomNew => {
                proof {
                    reveal_strlit("nRom");
                }
                "nRom"
            },
            MessageId::RoomSetDesc => {
                proof {
                    reveal_strlit("sRom");
                }
                "sRom"
            },
            MessageId::ServerDown => {
                proof {
                    reveal_strlit("down");
                }
                "down"
            },
            MessageId::ServerInfo => {
                proof {
                    reveal_strlit("sinf");
                }
                "sinf"
            },
            MessageId::Smsg => {
                proof {
                    reveal_strlit("smsg");
                }
                "smsg"
            },
            MessageId::SpotDel => {
                proof {
                    reveal_strlit("opSd");
                }
                "opSd"
            },
            MessageId::SpotMove => {
                proof {
                    reveal_strlit("coLs");
                }
                "coLs"
            },
            MessageId::SpotNew => {
                proof {
                    reveal_strlit("opSn");
                }
                "opSn"
            },
            MessageId::SpotState => {
                proof {
                    reveal_strlit("sSta");
                }
                "sSta"
            },
            MessageId::SuperUser => {
                proof {
                    reveal_strlit("susr");
                }
                "susr"
            },
            MessageId::Talk => {
                proof {
                    reveal_strlit("talk");
                }
                "talk"
            },
            MessageId::Whisper => {
                proof {
                    reveal_strlit("whis");
                }
                "whis"
            },
            MessageId::XTalk => {
                proof {
                    reveal_strlit("xtlk");
                }
                "xtlk"
            },
            MessageId::XWhisper => {
                proof {
                    reveal_strlit("xwis");
                }
                "xwis"
            },
            MessageId::UserColor => {
                proof {
                    reveal_strlit("usrC");
                }
                "usrC"
            },
            MessageId::UserDesc => {
                proof {
                    reveal_strlit("usrD");
                }
                "usrD"
            },
            MessageId::UserExit => {
                proof {
                    reveal_strlit("eprs");
                }
                "eprs"
            },
            MessageId::UserFace => {
                proof {
                    reveal_strlit("usrF");
                }
                "usrF"
            },
            MessageId::UserList => {
                proof {
                    reveal_strlit("rprs");
                }
                "rprs"
            },
            MessageId::UserLog => {
                proof {
                    reveal_strlit("log ");
                }
                "log "
            },
            MessageId::UserMove => {
                proof {
                    reveal_strlit("uLoc");
                }
                "uLoc"
            },
            MessageId::UserName => {
                proof {
                    reveal_strlit("usrN");
                }
                "usrN"
            },
            MessageId::UserNew => {
                proof {
                    reveal_strlit("nprs");
                }
                "nprs"
            },
            MessageId::UserProp => {
                proof {
                    reveal_strlit("usrP");
                }
                "usrP"
            },
            MessageId::UserStatus => {
                proof {
                    reveal_strlit("uSta");
                }
                "uSta"
            },
            MessageId::Version => {
                proof {
                    reveal_strlit("vers");
                }
                "vers"
            },
            MessageId::AssetQuery => {
                proof {
                    reveal_strlit("qAst");
                }
                "qAst"
            },
            MessageId::AssetSend => {
                proof {
                    reveal_strlit("sAst");
                }
                "sAst"
            },
            MessageId::AssetRegi => {
                proof {
                    reveal_strlit("rAst");
                }
                "rAst"
            },
            MessageId::DoorLock => {
                proof {
                    reveal_strlit("lock");
                }
                "lock"
            },
            MessageId::DoorUnlock => {
                proof {
                    reveal_strlit("unlk");
                }
                "unlk"
            },
        }
    }

    /// The message type with the given code, if any.
    pub fn from_u32(value: u32) -> (r: Option<MessageId>)
        ensures
            match r {
                Some(m) => id_code(m) == value,
                None => forall|m: MessageId| id_code(m) != value,
            },
    {
        match value {
            0x74697972 => Some(MessageId::Tiyid),
            0x72657032 => Some(MessageId::AltLogonReply),
            0x72656769 => Some(MessageId::Logon),
            0x61757468 => Some(MessageId::Authenticate),
            0x61757472 => Some(MessageId::AuthResponse),
            0x626c6f77 => Some(MessageId::Blowthru),
            0x6475726c => Some(MessageId::DisplayUrl),
            0x64726177 => Some(MessageId::Draw),
            0x73496e66 => Some(MessageId::ExtendedInfo),
            0x666e6665 => Some(MessageId::FileNotFnd),
            0x7146696c => Some(MessageId::FileQuery),
            0x7346696c => Some(MessageId::FileSend),
            0x676d7367 => Some(MessageId::Gmsg),
            0x48545450 => Some(MessageId::HttpServer),
            0x6b696c6c => Some(MessageId::KillUser),
            0x724c7374 => Some(MessageId::ListOfAllRooms),
            0x754c7374 => Some(MessageId::ListOfAllUsers),
            0x62796520 => Some(MessageId::Logoff),
            0x73457272 => Some(MessageId::NavError),
            0x4e4f4f50 => Some(MessageId::Noop),
            0x704c6f63 => Some(MessageId::PictMove),
            0x70696e67 => Some(MessageId::Ping),
            0x706f6e67 => Some(MessageId::Pong),
            0x64507270 => Some(MessageId::PropDel),
            0x6d507270 => Some(MessageId::PropMove),
            0x6e507270 => Some(MessageId::PropNew),
            0x726d7367 => Some(MessageId::Rmsg),
            0x726f6f6d => Some(MessageId::RoomDesc),
            0x656e6472 => Some(MessageId::RoomDescEnd),
            0x6e617652 => Some(MessageId::RoomGoto),
            0x6e526f6d => Some(MessageId::RoomNew),
            0x73526f6d => Some(MessageId::RoomSetDesc),
            0x646f776e => Some(MessageId::ServerDown),
            0x73696e66 => Some(MessageId::ServerInfo),
            0x736d7367 => Some(MessageId::Smsg),
            0x6f705364 => Some(MessageId::SpotDel),
            0x636f4c73 => Some(MessageId::SpotMove),
            0x6f70536e => Some(MessageId::SpotNew),
            0x73537461 => Some(MessageId::SpotState),
            0x73757372 => Some(MessageId::SuperUser),
            0x74616c6b => Some(MessageId::Talk),
            0x77686973 => Some(MessageId::Whisper),
            0x78746c6b => Some(MessageId::XTalk),
            0x78776973 => Some(MessageId::XWhisper),
            0x75737243 => Some(MessageId::UserColor),
            0x75737244 => Some(MessageId::UserDesc),
            0x65707273 => Some(MessageId::UserExit),
            0x75737246 => Some(MessageId::UserFace),
            0x72707273 => Some(MessageId::UserList),
            0x6c6f6720 => Some(MessageId::UserLog),
            0x754c6f63 => Some(MessageId::UserMove),
            0x7573724e => Some(MessageId::UserName),
            0x6e707273 => Some(MessageId::UserNew),
            0x75737250 => Some(MessageId::UserProp),
            0x75537461 => Some(MessageId::UserStatus),
            0x76657273 => Some(MessageId::Version),
            0x71417374 => Some(MessageId::AssetQuery),
            0x73417374 => Some(MessageId::AssetSend),
            0x72417374 => Some(MessageId::AssetRegi),
            0x6c6f636b => Some(MessageId::DoorLock),
            0x756e6c6b => Some(MessageId::DoorUnlock),
            _ => None,
        }
    }

    /// The message type written as the given text, if any: the text must
    /// be one of the four-character codes exactly.
    pub fn parse_text(s: &str) -> (r: Option<MessageId>)
        ensures
            match r {
                Some(m) => s@ == id_text(m),
                None => forall|m: MessageId| s@ != id_text(m),
            },
    {
        let cs = str_chars(s);
        if cs.len() != 4 {
            proof {
                assert forall|m: MessageId| s@ != id_text(m) by {
                    lemma_code_is_text(m);
                }
            }
            return None;
        }
        let (ch0, ch1, ch2, ch3) = (cs[0], cs[1], cs[2], cs[3]);
        let c0 = ch0 as u32;
        let c1 = ch1 as u32;
        let c2 = ch2 as u32;
        let c3 = ch3 as u32;
        if c0 >= 128 || c1 >= 128 || c2 >= 128 || c3 >= 128 {
            proof {
                assert forall|m: MessageId| s@ != id_text(m) by {
                    lemma_code_is_text(m);
                    if s@ == id_text(m) {
                        assert(cs@ == s@);
                    }
                }
            }
            return None;
        }
        let code: u32 = c0 * 0x1000000 + c1 * 0x10000 + c2 * 0x100 + c3;
        proof {
            assert(cs@ == s@);
            assert(s@[0] as u32 == c0 && s@[1] as u32 == c1 && s@[2] as u32 == c2 && s@[3] as u32 == c3);
            assert(ascii4(s@));
            assert(code as int == pack4(s@));
        }
        let r = Self::from_u32(code);
        proof {
            match r {
                Some(m) => {
                    lemma_code_is_text(m);
                    lemma_pack4_injective(s@, id_text(m));
                },
                None => {
                    assert forall|m: MessageId| s@ != id_text(m) by {
                        lemma_code_is_text(m);
                    }
                },
            }
        }
        r
    }
}

impl core::str::FromStr for MessageId {
    type Err = ();

    fn from_str(s: &str) -> (r: Result<MessageId, ()>)
        ensures
            match r {
                Ok(m) => s@ == id_text(m),
                Err(_) => forall|m: MessageId| s@ != id_text(m),
            },
    {
        match MessageId::parse_text(s) {
            Some(m) => Ok(m),
            None => Err(()),
        }
    }
}

impl From<MessageId> for u32 {
    fn from(msg: MessageId) -> (v: u32) {
        msg.as_u32()
    }
}

impl vstd::std_specs::convert::FromSpecImpl<MessageId> for u32 {
    open spec fn obeys_from_spec() -> bool {
        true
    }

    open spec fn from_spec(msg: MessageId) -> u32 {
        id_code(msg)
    }
}

/// A message type read back from its code is itself.
pub proof fn lemma_u32_roundtrip(m: MessageId)
    ensures
        forall|n: MessageId| id_code(n) == id_code(m) ==> n == m,
{
}

/// A message type read back from its text is itself.
pub proof fn lemma_text_roundtrip(m: MessageId)
    ensures
        forall|n: MessageId| id_text(n) == id_text(m) ==> n == m,
{
    assert forall|n: MessageId| id_text(n) == id_text(m) implies n == m by {
        lemma_code_is_text(n);
        lemma_code_is_text(m);
    }
}

} // verus!
