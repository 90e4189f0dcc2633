//! Core of a network throughput tester: test configuration, framing of
//! control messages, the negotiation state machines of client and server,
//! and the pacing logic of the packet generator.

pub mod args;
pub mod pktgenerator;
pub mod error;
pub mod message;
pub mod server;
pub mod client;
