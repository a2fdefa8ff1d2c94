//! The Iptscrae scripting language: a stack-based language for room
//! scripts, prop behaviours and cyborg (client-side bot) scripts.
//!
//! Server scripts run with full trust; cyborg scripts run sandboxed, with
//! instruction and time limits, and may not lock doors or move users
//! between rooms.
pub mod value;
pub mod token;
pub mod events;
pub mod ast;
pub mod lexer;
pub mod parser;
pub mod context;
pub mod vm;
pub mod builtins;
pub mod run;
pub mod room_script;
pub mod room_script_parser;
pub mod room_script_converter;

pub use ast::{BinOp, Block, EventHandler, Expr, Script, Statement, UnaryOp};
pub use context::{ScriptActions, ScriptContext, SecurityLevel};
pub use events::EventType;
pub use crate::event_mask::EventMask;
pub use lexer::{LexError, Lexer};
pub use parser::{ParseError, Parser};
pub use room_script::{DoorDecl, PictureDecl, RoomDecl, RoomFlags, SpotDecl, StateDecl};
pub use room_script_parser::RoomScriptParser;
pub use token::{SourcePos, Token, TokenKind};
pub use value::Value;
pub use vm::{ExecutionLimits, Vm, VmError};
