//! Client core for a chat-bot stream protocol: credential and token handling,
//! endpoint negotiation, inbound frame classification with the acknowledgements
//! the protocol asks for, and the connect / serve / reconnect state machine.
//!
//! Network I/O, the task scheduler and the user's handlers live outside this
//! library; they feed it events and plain values and carry out what it decides.

pub mod client;
mod clock;
pub mod config;
pub mod constant;
pub mod dispatch;
pub mod frame;
pub mod json;
pub mod message;
pub mod outbound;
pub mod supervisor;
