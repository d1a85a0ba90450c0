//! What a session needs from a datagram transport.

use vstd::prelude::*;

verus! {

/// A failure that a transport reports, with the reason it gave.
#[derive(Clone, Debug, PartialEq, Eq)]
pub struct TransportError {
    pub reason: String,
}

/// What one attempt to receive brought in.
#[derive(Clone, Debug, PartialEq, Eq)]
pub enum Incoming {
    /// No datagram was ready. This is the usual answer of a transport that
    /// does not block, and no failure.
    WouldBlock,
    /// A datagram arrived: the buffer it was read into, and the number of
    /// bytes at the front of the buffer that belong to it.
    Datagram { buffer: Vec<u8>, actual_len: usize },
}

/// A datagram transport, connected to one remote console server.
///
/// The methods promise nothing about their results: a session is verified for
/// whatever an implementation hands back.
pub trait SocketAction {
    /// Releases the connection.
    fn disconnect(&mut self) -> Result<(), TransportError>;

    /// Tries to receive one datagram of at most `buffer_size` bytes.
    fn listen(&self, buffer_size: usize) -> Result<Incoming, TransportError>;

    /// Sends `data` as one datagram and reports how many bytes were sent.
    fn send(&self, data: &[u8]) -> Result<usize, TransportError>;
}

} // verus!
