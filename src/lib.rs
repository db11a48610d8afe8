//! A finite-state model of the TLS 1.2 handshake: which peer sends which
//! handshake message at each step, given the negotiated protocol options.

pub mod handshake;
pub mod laws;

pub use handshake::{handshake_states, step, MessageType, Peer, ProtocolOptions, State};
