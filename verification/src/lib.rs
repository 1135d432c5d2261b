//! Client-side protocol engine for a virtual-world network service.
//!
//! The crate covers the session transport and reliability core: a binary
//! packet codec with a frequency-dependent header encoding, a send-side
//! acknowledgment/retry protocol, per-session sequence numbering, session
//! lifecycle management, and a bounded-size envelope format for relaying
//! decoded events to a companion UI process.
//!
//! All I/O (UDP sockets, timers, the local datagram channel) lives outside
//! this crate; the functions here compute packets, parse datagrams and decide
//! state transitions, and return the actions a host loop must perform.

pub mod wire;

pub mod agent_access;

pub mod chat_from_simulator;

pub mod header;

pub mod layer_data;

pub mod mailbox;

pub mod reliability;

pub mod ui_message;

pub mod uuid_bytes;

pub mod packet;
