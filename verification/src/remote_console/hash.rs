//! Integrity checks on protocol datagrams.

pub mod checksum;
