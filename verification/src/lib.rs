//! Core of a remote log-capture bridge.
//!
//! A small server hands every newly connected client a directive that tells
//! it whether to install a hook over the client's logging primitive; hooked
//! clients serialize each captured log call into one text message and send it
//! back, where the server forwards it verbatim to its local sink. This crate
//! holds the verified heart of that system: the process-wide hook toggle, the
//! directive wire protocol, the server-side session model, the in-client
//! agent's hook/unhook state machine, and the serialization of captured calls.

pub mod agent;
pub mod bootstrap;
pub mod hook;
pub mod message;
pub mod protocol;
pub mod session;
pub mod json;
pub mod text;
