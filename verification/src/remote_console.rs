//! The protocol engine: checksum, packet codec and session.

pub mod com;
pub mod hash;
pub mod packet;

pub use com::BERemoteConsole;
