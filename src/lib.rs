//! A chat bot client for an airmash game server: the session state machine,
//! the command responder and the per-frame dispatch decisions, verified.
//! Opening the connection and moving frames over it is left to the host.

pub mod codec;
pub mod commands;
pub mod dispatch;
pub mod message;
pub mod session;
