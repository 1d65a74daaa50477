//! Decision logic, text handling and timing for the remote-support endpoint UI.

pub mod args;
pub mod chat;
pub mod consent;
pub mod session;
pub mod text;
pub mod timer;
