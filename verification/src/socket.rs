//! The datagram transport that a session runs over.

pub mod action;
