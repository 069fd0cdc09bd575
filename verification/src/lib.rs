//! Client-side logic for mpv's JSON IPC protocol: decoding of dynamic values,
//! framing of commands and replies, typed properties and events, and the
//! decision rules of the connection actor.

pub mod core_api;
pub mod error;
pub mod event_parser;
pub mod event_property_parser;
pub mod highlevel_api_extension;
pub mod ipc;
pub mod json;
pub mod message_parser;
pub mod property_parser;
pub mod text;

pub use core_api::{
    MapEntry, MpvCommand, MpvDataType, Playlist, PlaylistAddOptions, PlaylistEntry, SeekOptions,
};
pub use error::{CodedError, ErrorCode, MpvError};
pub use event_parser::{Event, EventEndFileReason, EventLogMessageLevel};
pub use event_property_parser::parse_event_property;
pub use highlevel_api_extension::{NumberChangeOptions, PlaylistAddTypeOptions, Switch};
pub use property_parser::{parse_property, LoopProperty, Property};
