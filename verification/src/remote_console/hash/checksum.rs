//! The checksum field of a protocol datagram.

pub mod crc32;
