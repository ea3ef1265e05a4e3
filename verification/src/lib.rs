//! An asynchronous bidirectional bridge between a line-delimited textual
//! protocol stream and typed, queryable messages.
//!
//! The crate verifies the bridge's core: classifying inbound values behind one
//! closed handle type, the per-line decode and encode adapters, and the pump
//! logic that moves items between channels, the decoupling queue and the byte
//! sink without losing, duplicating or reordering them.

pub mod channel;
pub mod codec;
pub mod command;
pub mod error;
pub mod handler;
pub mod io;
pub mod parse;
pub mod queue;
pub mod serialize;

pub use crate::channel::new_channel;
pub use crate::channel::new_cmd_channel;
pub use crate::channel::new_err_channel;
pub use crate::channel::new_try_channel;
pub use crate::channel::CmdReceiver;
pub use crate::channel::CmdSender;
pub use crate::channel::ErrReceiver;
pub use crate::channel::ErrSender;
pub use crate::channel::UciReceiver;
pub use crate::channel::UciSender;
pub use crate::channel::UciTryReceiver;
pub use crate::channel::UciTrySender;
