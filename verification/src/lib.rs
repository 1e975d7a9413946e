//! A single-room chat relay: the room's registry of names, its bounded
//! history, its broadcast bus, the per-connection session state machine and
//! the wire format of chat messages, each with a proved contract.

pub mod bus;
pub mod config;
pub mod history;
pub mod json;
pub mod message;
pub mod registry;
pub mod relay;
pub mod room;
pub mod session;
pub mod v1;
pub mod wire;
