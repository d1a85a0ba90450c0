//! The remote console session.
//!
//! A session owns a transport, sends login requests, commands and keep-alive
//! packets over it, and acknowledges every sequenced packet it receives. It
//! keeps two things in mind: how far the login has come, and the last
//! sequence byte it acknowledged.
//!
//! The contracts speak of a session as a [`SessionView`]: those two values
//! and the list of calls that the session has made on its transport, each with
//! the answer it got. The transport itself promises nothing; every operation
//! is specified for whatever it answers.

use crate::remote_console::packet::{
    decode, encode, login_status, parse, received, wire, DecodedPacket, LoginStatus, PacketKind,
    PacketView, ParseError,
};
use crate::socket::action::{Incoming, SocketAction, TransportError};
use vstd::prelude::*;
use vstd::utf8::{encode_utf8, is_ascii_chars, is_ascii_chars_encode_utf8};

verus! {

/// Size of the buffer offered to the transport for one datagram.
pub const HEADER_SIZE: usize = 519;

/// How far the login of a session has come.
#[derive(Clone, Copy, Debug, PartialEq, Eq, Structural)]
pub enum SessionState {
    /// No login request has been sent.
    Unauthenticated,
    /// A login request has been sent; no acceptance has been seen since.
    AuthSent,
    /// The server has accepted the login.
    Active,
}

/// What a successful attempt to receive brought.
#[derive(Clone, Debug, PartialEq, Eq)]
pub enum ReceivedPacket {
    /// The transport had nothing to deliver.
    NoData,
    /// A valid packet. If it carried a sequence byte, it has been
    /// acknowledged.
    Packet(DecodedPacket),
}

/// Why an attempt to receive failed.
#[derive(Clone, Debug, PartialEq, Eq)]
pub enum RecvError {
    /// The transport failed to receive.
    Transport(TransportError),
    /// A datagram arrived that is no valid packet. It has been dropped; the
    /// session goes on.
    InvalidPacket(ParseError),
    /// A valid packet arrived, but its acknowledgment could not be sent. The
    /// packet is handed over with the transport's error.
    AckFailed { error: TransportError, packet: DecodedPacket },
}

/// One call of a session on its transport, with the transport's answer.
pub enum Exchange {
    /// The session asked for a datagram of at most `buffer_size` bytes.
    Listen { buffer_size: usize, answer: Result<Incoming, TransportError> },
    /// The session handed `datagram` over for sending.
    Send { datagram: Seq<u8>, answer: Result<usize, TransportError> },
}

/// A session as a mathematical value.
pub struct SessionView {
    /// How far the login has come.
    pub state: SessionState,
    /// The sequence byte of the last packet whose acknowledgment the
    /// transport sent, if there was one.
    pub acknowledged: Option<u8>,
    /// The calls made on the transport so far, oldest first.
    pub exchanges: Seq<Exchange>,
}

impl SessionView {
    /// A session that has done nothing yet.
    pub open spec fn started() -> SessionView {
        SessionView {
            state: SessionState::Unauthenticated,
            acknowledged: None,
            exchanges: Seq::empty(),
        }
    }

    /// This session after it asked the transport for a datagram and got
    /// `answer`.
    pub open spec fn listened(
        self,
        buffer_size: usize,
        answer: Result<Incoming, TransportError>,
    ) -> SessionView {
        SessionView {
            exchanges: self.exchanges.push(Exchange::Listen { buffer_size, answer }),
            ..self
        }
    }

    /// This session after it handed `datagram` to the transport and got
    /// `answer`.
    pub open spec fn sent(
        self,
        datagram: Seq<u8>,
        answer: Result<usize, TransportError>,
    ) -> SessionView {
        SessionView { exchanges: self.exchanges.push(Exchange::Send { datagram, answer }), ..self }
    }

    /// This session after a login request was handed to the transport.
    pub open spec fn login_requested(self, sent: bool) -> SessionView {
        SessionView { state: state_after_login(self.state, sent), ..self }
    }

    /// This session after `packet`, which has no sequence byte, was
    /// received.
    pub open spec fn delivered(self, packet: PacketView) -> SessionView {
        SessionView { state: state_after_packet(self.state, packet), ..self }
    }

    /// This session after the acknowledgment of `sequence` was handed to the
    /// transport, which sent it or not.
    pub open spec fn acknowledging(self, sequence: u8, sent: bool) -> SessionView {
        SessionView {
            acknowledged: if sent {
                Some(sequence)
            } else {
                self.acknowledged
            },
            ..self
        }
    }
}

/// The bytes that stand for a text on the wire: its UTF-8 encoding, which for
/// ASCII text is one byte for each character.
pub open spec fn text_bytes(text: Seq<char>) -> Seq<u8> {
    encode_utf8(text)
}

/// The datagram that acknowledges the sequence byte `sequence`: a server
/// message whose payload is that byte.
pub open spec fn acknowledgment(sequence: u8) -> Seq<u8> {
    wire(PacketKind::ServerMessage, seq![sequence])
}

/// The state after a login request was handed to the transport, which sent
/// it or not.
pub open spec fn state_after_login(state: SessionState, sent: bool) -> SessionState {
    if sent {
        SessionState::AuthSent
    } else {
        state
    }
}

/// The state after `packet` was received: a session that waits for the answer
/// to its login becomes active when the answer is an acceptance. Nothing else
/// changes the state.
pub open spec fn state_after_packet(state: SessionState, packet: PacketView) -> SessionState {
    if state == SessionState::AuthSent && login_status(packet) == Some(LoginStatus::Accepted) {
        SessionState::Active
    } else {
        state
    }
}

/// Whether `result` is what a receive returns for the decoded packet
/// `packet`, after its acknowledgment was handed to the transport and got
/// `ack`: the packet if the transport sent it, else the transport's error
/// together with the packet.
pub open spec fn concluded(
    packet: PacketView,
    ack: Result<usize, TransportError>,
    result: Result<ReceivedPacket, RecvError>,
) -> bool {
    match ack {
        Ok(_) => result matches Ok(ReceivedPacket::Packet(returned)) && returned@ == packet,
        Err(failure) => {
            &&& result matches Err(RecvError::AckFailed { error, packet: returned })
            &&& error == failure
            &&& returned@ == packet
        },
    }
}

/// Whether a receive that got `incoming` from the transport takes the
/// session from `before` to `after` and returns `result`.
///
/// - A failure of the transport is passed on.
/// - Where nothing was ready, `NoData` is returned. No datagram is decoded.
/// - A datagram that does not decode is reported as invalid.
/// - A packet without a sequence byte is returned; it may complete the login.
/// - For a packet with a sequence byte, exactly one datagram is handed to the
///   transport: the acknowledgment of that byte. If the transport sent it,
///   the packet is returned and counts as acknowledged; if not, the packet
///   is handed over with the transport's error.
///
/// In the first three cases the session is left as it was.
pub open spec fn handled(
    before: SessionView,
    incoming: Result<Incoming, TransportError>,
    after: SessionView,
    result: Result<ReceivedPacket, RecvError>,
) -> bool {
    match incoming {
        Err(failure) => {
            &&& result == Err::<ReceivedPacket, RecvError>(RecvError::Transport(failure))
            &&& after == before
        },
        Ok(Incoming::WouldBlock) => {
            &&& result == Ok::<ReceivedPacket, RecvError>(ReceivedPacket::NoData)
            &&& after == before
        },
        Ok(Incoming::Datagram { buffer, actual_len }) => match parse(
            received(buffer@, actual_len as int),
        ) {
            Err(flaw) => {
                &&& result == Err::<ReceivedPacket, RecvError>(RecvError::InvalidPacket(flaw))
                &&& after == before
            },
            Ok(packet) => match packet.sequence {
                None => {
                    &&& result matches Ok(ReceivedPacket::Packet(returned))
                    &&& returned@ == packet
                    &&& after == before.delivered(packet)
                },
                Some(sequence) => {
                    &&& after.exchanges.last() matches Exchange::Send { datagram, answer }
                    &&& datagram == acknowledgment(sequence)
                    &&& concluded(packet, answer, result)
                    &&& after == before.sent(datagram, answer).acknowledging(
                        sequence,
                        answer is Ok,
                    )
                },
            },
        },
    }
}

/// Computes the state after a packet was received.
pub fn next_state(state: SessionState, packet: &DecodedPacket) -> (next: SessionState)
    ensures
        next == state_after_packet(state, packet@),
{
    match (state, packet.login_status()) {
        (SessionState::AuthSent, Some(LoginStatus::Accepted)) => SessionState::Active,
        _ => state,
    }
}

/// Settles what a receive returns for a packet whose acknowledgment was
/// handed to the transport: the packet if the transport sent it, else the
/// transport's error together with the packet.
pub fn conclude(packet: DecodedPacket, ack: Result<usize, TransportError>) -> (result: Result<
    ReceivedPacket,
    RecvError,
>)
    ensures
        match ack {
            Ok(_) => result == Ok::<ReceivedPacket, RecvError>(ReceivedPacket::Packet(packet)),
            Err(error) => result == Err::<ReceivedPacket, RecvError>(
                (RecvError::AckFailed { error, packet }),
            ),
        },
{
    match ack {
        Ok(_) => Ok(ReceivedPacket::Packet(packet)),
        Err(error) => Err(RecvError::AckFailed { error, packet }),
    }
}

/// A remote console session over the transport `S`.
pub struct BERemoteConsole<S: SocketAction> {
    udp_socket: S,
    state: SessionState,
    last_ack: Option<u8>,
    exchanges: Ghost<Seq<Exchange>>,
}

impl<S: SocketAction> View for BERemoteConsole<S> {
    type V = SessionView;

    closed spec fn view(&self) -> SessionView {
        SessionView {
            state: self.state,
            acknowledged: self.last_ack,
            exchanges: self.exchanges@,
        }
    }
}

impl<S: SocketAction> BERemoteConsole<S> {
    /// Creates a session over a connected transport. Nothing has been sent
    /// or acknowledged yet.
    pub fn new(udp_socket: S) -> (console: Self)
        ensures
            console@ == SessionView::started(),
    {
        BERemoteConsole {
            udp_socket,
            state: SessionState::Unauthenticated,
            last_ack: None,
            exchanges: Ghost(Seq::empty()),
        }
    }

    /// How far the login has come.
    pub fn session_state(&self) -> (state: SessionState)
        ensures
            state == self@.state,
    {
        self.state
    }

    /// The sequence byte acknowledged last, if any.
    pub fn last_acknowledged(&self) -> (sequence: Option<u8>)
        ensures
            sequence == self@.acknowledged,
    {
        self.last_ack
    }

    /// Sends a login request with `password` and returns the transport's
    /// answer.
    ///
    /// The server's answer is not waited for: it arrives as a login packet
    /// through `receive_data`. If the transport sent the request, the session
    /// now waits for that answer.
    pub fn authenticate(&mut self, password: String) -> (result: Result<usize, TransportError>)
        ensures
            final(self)@ == old(self)@.sent(
                wire(PacketKind::Login, text_bytes(password@)),
                result,
            ).login_requested(result is Ok),
    {
        let result = self.send_to_socket(PacketKind::Login, password.as_str().as_bytes());
        if result.is_ok() {
            self.state = SessionState::AuthSent;
        }
        result
    }

    /// Receives one datagram and acknowledges it if it carries a sequence
    /// byte.
    ///
    /// The transport is asked once for a datagram of at most [`HEADER_SIZE`]
    /// bytes. What follows from its answer is told by [`handled`]; in
    /// particular `NoData` is returned if it had nothing ready.
    pub fn receive_data(&mut self) -> (result: Result<ReceivedPacket, RecvError>)
        ensures
            exists|incoming: Result<Incoming, TransportError>|
                handled(
                    old(self)@.listened(HEADER_SIZE, incoming),
                    incoming,
                    final(self)@,
                    result,
                ),
    {
        let incoming = self.get_udp_socket().listen(HEADER_SIZE);
        self.exchanges = Ghost(
            self.exchanges@.push(Exchange::Listen { buffer_size: HEADER_SIZE, answer: incoming }),
        );
        let ghost answer = incoming;
        let result = self.handle(incoming);
        assert(handled(old(self)@.listened(HEADER_SIZE, answer), answer, self@, result));
        result
    }

    /// Does what `receive_data` does once the transport has answered with
    /// `incoming`.
    pub fn handle(&mut self, incoming: Result<Incoming, TransportError>) -> (result: Result<
        ReceivedPacket,
        RecvError,
    >)
        ensures
            handled(old(self)@, incoming, final(self)@, result),
    {
        match incoming {
            Err(error) => Err(RecvError::Transport(error)),
            Ok(Incoming::WouldBlock) => Ok(ReceivedPacket::NoData),
            Ok(Incoming::Datagram { buffer, actual_len }) => {
                match decode(buffer.as_slice(), actual_len) {
                    Err(error) => Err(RecvError::InvalidPacket(error)),
                    Ok(packet) => match packet.sequence {
                        Some(sequence) => {
                            let ack = self.acknowledge_msg(sequence);
                            conclude(packet, ack)
                        },
                        None => {
                            self.state = next_state(self.state, &packet);
                            Ok(ReceivedPacket::Packet(packet))
                        },
                    },
                }
            },
        }
    }

    /// Acknowledges the sequence byte of a received packet: sends a server
    /// message whose payload is that byte, and remembers the byte if the
    /// transport sent it.
    fn acknowledge_msg(&mut self, sequence: u8) -> (result: Result<usize, TransportError>)
        ensures
            final(self)@ == old(self)@.sent(acknowledgment(sequence), result).acknowledging(
                sequence,
                result is Ok,
            ),
    {
        let mut payload: Vec<u8> = Vec::new();
        payload.push(sequence);
        let result = self.send_to_socket(PacketKind::ServerMessage, payload.as_slice());
        if result.is_ok() {
            self.last_ack = Some(sequence);
        }
        result
    }

    /// Sends `command` to the server as a command packet whose payload is
    /// the text of the command, and returns the transport's answer.
    pub fn send_command(&mut self, command: &str) -> (result: Result<usize, TransportError>)
        ensures
            final(self)@ == old(self)@.sent(
                wire(PacketKind::Command, text_bytes(command@)),
                result,
            ),
    {
        self.send_to_socket(PacketKind::Command, command.as_bytes())
    }

    /// Encodes a packet, hands it to the transport as one datagram and
    /// returns the transport's answer.
    fn send_to_socket(&mut self, kind: PacketKind, payload: &[u8]) -> (result: Result<
        usize,
        TransportError,
    >)
        ensures
            final(self)@ == old(self)@.sent(wire(kind, payload@), result),
    {
        let data = encode(kind, payload);
        let result = self.get_udp_socket().send(data.as_slice());
        self.exchanges = Ghost(
            self.exchanges@.push(Exchange::Send { datagram: data@, answer: result }),
        );
        result
    }

    /// The transport of this session.
    fn get_udp_socket(&self) -> (socket: &S)
        ensures
            *socket == self.udp_socket,
    {
        &self.udp_socket
    }

    /// Sends a keep-alive, a command packet with an empty payload, and
    /// returns the transport's answer.
    ///
    /// The server drops a connection that has been idle for about 45
    /// seconds; callers send a keep-alive at a shorter interval.
    pub fn keep_alive(&mut self) -> (result: Result<usize, TransportError>)
        ensures
            final(self)@ == old(self)@.sent(
                wire(PacketKind::Command, Seq::<u8>::empty()),
                result,
            ),
    {
        let payload: Vec<u8> = Vec::new();
        self.send_to_socket(PacketKind::Command, payload.as_slice())
    }
}

/// A transport that has nothing ready never leads to a decoding: the receive
/// returns `NoData` and leaves the session as it was, whatever a buffer may
/// hold.
pub proof fn nothing_ready_gives_no_data(
    before: SessionView,
    after: SessionView,
    result: Result<ReceivedPacket, RecvError>,
)
    requires
        handled(before, Ok(Incoming::WouldBlock), after, result),
    ensures
        result == Ok::<ReceivedPacket, RecvError>(ReceivedPacket::NoData),
        after == before,
{
}

/// Receiving a valid packet that carries the sequence byte `sequence` makes
/// the session hand exactly one datagram to its transport: the server message
/// whose payload is that byte. The receive succeeds exactly if the transport
/// sent it.
pub proof fn sequenced_packet_is_acknowledged_once(
    before: SessionView,
    buffer: Vec<u8>,
    actual_len: usize,
    sequence: u8,
    after: SessionView,
    result: Result<ReceivedPacket, RecvError>,
)
    requires
        parse(received(buffer@, actual_len as int)) matches Ok(packet) && packet.sequence == Some(
            sequence,
        ),
        handled(before, Ok(Incoming::Datagram { buffer, actual_len }), after, result),
    ensures
        after.exchanges.len() == before.exchanges.len() + 1,
        after.exchanges.drop_last() == before.exchanges,
        after.exchanges.last() matches Exchange::Send { datagram, answer } && datagram == wire(
            PacketKind::ServerMessage,
            seq![sequence],
        ) && (result is Ok <==> answer is Ok),
{
    assert(after.exchanges.drop_last() =~= before.exchanges);
}

/// The wire bytes of an ASCII text are its characters, one byte each.
pub proof fn ascii_text_bytes(text: Seq<char>)
    requires
        is_ascii_chars(text),
    ensures
        text_bytes(text).len() == text.len(),
        forall|i: int| 0 <= i < text.len() ==> #[trigger] text_bytes(text)[i] == text[i] as u8,
{
    is_ascii_chars_encode_utf8(text);
}

} // verus!
