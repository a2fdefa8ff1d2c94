//! Palace Protocol messages: a 12-byte header (event type, payload length,
//! reference number) followed by a payload.
pub mod flags;
pub mod message_id;
pub mod message;
pub mod chat;
pub mod auth;
pub mod admin;
pub mod protocol;
pub mod room;
pub mod user;
pub mod server;
pub mod asset;

pub use admin::{KillUserMsg, ServerDownMsg, ServerDownReason, SuperUserMsg};
pub use asset::{AssetDescriptor, AssetQueryMsg, AssetSendMsg};
pub use auth::{AltLogonReplyMsg, AuxRegistrationRec, LogonMsg, TiyidMsg};
pub use chat::{GmsgMsg, RmsgMsg, SmsgMsg, TalkMsg, WhisperMsg, XTalkMsg, XWhisperMsg};
pub use message::Message;
pub use message_id::MessageId;
pub use protocol::{NavErrorCode, NavErrorMsg, UserStatusMsg, VersionMsg};
pub use room::prop_ops::{ListOfAllRoomsMsg, PropDelMsg, PropMoveMsg, PropNewMsg, RoomListRec};
pub use room::records::{Hotspot, LPropRec, PictureRec, RoomRec};
pub use room::room_ops::{RoomDescEndMsg, RoomDescMsg, RoomGotoMsg};
pub use room::hotspot_ops::{SpotDelMsg, SpotMoveMsg, SpotNewMsg, SpotStateMsg};
pub use room::door_ops::{DoorLockMsg, DoorUnlockMsg};
pub use room::picture_ops::PictMoveMsg;
pub use server::{ListOfAllUsersMsg, PingMsg, PongMsg, ServerInfoMsg, UserListMsg, UserLogMsg};
pub use user::{
    UserColorMsg, UserDescMsg, UserExitMsg, UserFaceMsg, UserMoveMsg, UserNameMsg, UserNewMsg, UserPropMsg,
    UserRec,
};
