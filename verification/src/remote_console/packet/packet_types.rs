//! The fixed bytes of the wire format.

use vstd::prelude::*;

verus! {

/// The two bytes every datagram starts with: `'B'`, `'E'`.
pub const STATIC_HEADER: [u8; 2] = [0x42, 0x45];

/// The byte that opens the checksummed body of a datagram.
pub const PACKET_MARKER: u8 = 0xFF;

/// Kind byte of a login request or response.
pub const MESSAGE_TYPE_PACKET_LOGIN: u8 = 0x00;

/// Kind byte of a command or of the response to one.
pub const MESSAGE_TYPE_PACKET_COMMAND: u8 = 0x01;

/// Kind byte of a server message, and of the acknowledgment sent in return.
pub const MESSAGE_TYPE_PACKET_SERVER_MESSAGE: u8 = 0x02;

} // verus!
