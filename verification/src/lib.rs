//! Best-effort broadcasting of slot status notifications as JSON datagrams.
//!
//! The crate holds the logic of the broadcaster: the notification record and
//! its wire form, the decisions of the delivery task, and the life cycle of
//! the plugin that owns it. Sockets, the async runtime and the host interface
//! are driven by the embedding program.

pub mod broadcaster;
pub mod channel;
pub mod codec;
pub mod config;
pub mod json;
pub mod message;
pub mod plugin;
pub mod text;
