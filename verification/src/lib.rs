//! Client side of the BattlEye remote console protocol.
//!
//! The crate frames and parses the protocol's datagrams, computes and checks
//! their CRC-32 field, and drives a session over any transport that can send
//! and receive datagrams. Every function is verified against the contract in
//! its header; the models that the contracts speak of are the `spec` functions
//! next to them.

pub mod remote_console;
pub mod socket;
