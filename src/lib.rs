//! An in-memory configuration bus shared by the windows of a desktop shell.
//!
//! Each topic holds at most one message, the one most recently broadcast on
//! it. Broadcasting stores a message and hands back the one copy that is to be
//! delivered to every subscriber; a resynchronisation request builds a message
//! on a reserved topic without touching the table.
pub mod bus;
pub mod clock;
pub mod error;
pub mod laws;
pub mod message;

pub use bus::ConfigBus;
pub use error::BusError;
pub use message::ConfigMessage;
