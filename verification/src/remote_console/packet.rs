//! The packet codec: how a datagram is built from a kind and a payload, and
//! how a received datagram is taken apart again.
//!
//! | offset | size | field                                             |
//! |--------|------|---------------------------------------------------|
//! | 0      | 2    | `0x42 0x45`                                       |
//! | 2      | 4    | CRC-32 of everything from offset 6, little-endian |
//! | 6      | 1    | marker `0xFF`                                     |
//! | 7      | 1    | kind                                              |
//! | 8      | 1    | sequence, in commands and server messages only    |
//! | 9      | ..   | payload (from offset 8 where there is no sequence)|

pub mod packet_types;

use crate::remote_console::hash::checksum::crc32::{
    carries, carries_checksum, checksum, crc32_of, le_bytes, to_le_vec, valid_packet,
};
use packet_types::{
    MESSAGE_TYPE_PACKET_COMMAND, MESSAGE_TYPE_PACKET_LOGIN, MESSAGE_TYPE_PACKET_SERVER_MESSAGE,
    PACKET_MARKER, STATIC_HEADER,
};
use vstd::prelude::*;

verus! {

/// The kind of a packet, as its byte at offset 7 tells it.
#[derive(Clone, Copy, Debug, PartialEq, Eq, Structural)]
pub enum PacketKind {
    /// A login request, or the server's answer to one.
    Login,
    /// A command, or the server's response to one.
    Command,
    /// A notification from the server, or the acknowledgment of a sequenced
    /// packet.
    ServerMessage,
    /// A kind byte that the protocol does not define.
    Unknown(u8),
}

impl PacketKind {
    /// The kind byte on the wire.
    pub open spec fn byte(self) -> u8 {
        match self {
            PacketKind::Login => MESSAGE_TYPE_PACKET_LOGIN,
            PacketKind::Command => MESSAGE_TYPE_PACKET_COMMAND,
            PacketKind::ServerMessage => MESSAGE_TYPE_PACKET_SERVER_MESSAGE,
            PacketKind::Unknown(byte) => byte,
        }
    }

    /// The kind that a kind byte stands for.
    pub open spec fn of_byte(byte: u8) -> PacketKind {
        if byte == MESSAGE_TYPE_PACKET_LOGIN {
            PacketKind::Login
        } else if byte == MESSAGE_TYPE_PACKET_COMMAND {
            PacketKind::Command
        } else if byte == MESSAGE_TYPE_PACKET_SERVER_MESSAGE {
            PacketKind::ServerMessage
        } else {
            PacketKind::Unknown(byte)
        }
    }

    /// A kind is well formed unless it is `Unknown` with a byte that one of
    /// the named kinds owns.
    pub open spec fn well_formed(self) -> bool {
        self matches PacketKind::Unknown(byte) ==> byte > MESSAGE_TYPE_PACKET_SERVER_MESSAGE
    }

    /// Whether packets of this kind, when the server sends them, carry a
    /// sequence byte before their payload.
    pub open spec fn sequenced(self) -> bool {
        self == PacketKind::Command || self == PacketKind::ServerMessage
    }

    /// The kind byte on the wire.
    pub fn to_byte(self) -> (byte: u8)
        ensures
            byte == self.byte(),
    {
        match self {
            PacketKind::Login => MESSAGE_TYPE_PACKET_LOGIN,
            PacketKind::Command => MESSAGE_TYPE_PACKET_COMMAND,
            PacketKind::ServerMessage => MESSAGE_TYPE_PACKET_SERVER_MESSAGE,
            PacketKind::Unknown(byte) => byte,
        }
    }

    /// Reads a kind byte. The result is always well formed.
    pub fn from_byte(byte: u8) -> (kind: PacketKind)
        ensures
            kind == PacketKind::of_byte(byte),
            kind.well_formed(),
            kind.byte() == byte,
    {
        if byte == MESSAGE_TYPE_PACKET_LOGIN {
            PacketKind::Login
        } else if byte == MESSAGE_TYPE_PACKET_COMMAND {
            PacketKind::Command
        } else if byte == MESSAGE_TYPE_PACKET_SERVER_MESSAGE {
            PacketKind::ServerMessage
        } else {
            PacketKind::Unknown(byte)
        }
    }

    /// Whether packets of this kind carry a sequence byte when received.
    pub fn is_sequenced(self) -> (yes: bool)
        ensures
            yes == self.sequenced(),
    {
        match self {
            PacketKind::Command => true,
            PacketKind::ServerMessage => true,
            _ => false,
        }
    }
}

/// Why a datagram could not be decoded.
#[derive(Clone, Copy, Debug, PartialEq, Eq, Structural)]
pub enum ParseError {
    /// Fewer than nine bytes arrived.
    TooShort,
    /// The marker is missing or the checksum field does not match the body.
    BadChecksum,
}

/// A decoded packet as a mathematical value.
pub struct PacketView {
    pub kind: PacketKind,
    pub sequence: Option<u8>,
    pub payload: Seq<u8>,
}

impl PacketView {
    /// A packet is well formed when its kind is, and it has a sequence byte
    /// exactly if its kind is one that carries one.
    pub open spec fn well_formed(self) -> bool {
        &&& self.kind.well_formed()
        &&& self.sequence is Some <==> self.kind.sequenced()
    }
}

/// What the server answered to a login request.
#[derive(Clone, Copy, Debug, PartialEq, Eq, Structural)]
pub enum LoginStatus {
    /// Status byte `0x01`: the password was accepted.
    Accepted,
    /// Status byte `0x00`: the password was rejected.
    Rejected,
    /// Any other status byte, or none.
    Unrecognized,
}

/// The login status that a packet reports: none unless it is a login packet,
/// else what the first byte of its payload says.
pub open spec fn login_status(packet: PacketView) -> Option<LoginStatus> {
    if packet.kind != PacketKind::Login {
        None
    } else if packet.payload.len() >= 1 && packet.payload[0] == 0x01 {
        Some(LoginStatus::Accepted)
    } else if packet.payload.len() >= 1 && packet.payload[0] == 0x00 {
        Some(LoginStatus::Rejected)
    } else {
        Some(LoginStatus::Unrecognized)
    }
}

/// A packet taken from a received datagram.
#[derive(Clone, Debug, PartialEq, Eq)]
pub struct DecodedPacket {
    pub kind: PacketKind,
    /// The sequence byte the server gave the packet, where its kind has one.
    pub sequence: Option<u8>,
    pub payload: Vec<u8>,
}

impl View for DecodedPacket {
    type V = PacketView;

    open spec fn view(&self) -> PacketView {
        PacketView { kind: self.kind, sequence: self.sequence, payload: self.payload@ }
    }
}

impl DecodedPacket {
    /// Reads the login status off a login packet.
    pub fn login_status(&self) -> (status: Option<LoginStatus>)
        ensures
            status == login_status(self@),
    {
        match self.kind {
            PacketKind::Login => {
                if self.payload.len() >= 1 && self.payload[0] == 0x01 {
                    Some(LoginStatus::Accepted)
                } else if self.payload.len() >= 1 && self.payload[0] == 0x00 {
                    Some(LoginStatus::Rejected)
                } else {
                    Some(LoginStatus::Unrecognized)
                }
            },
            _ => None,
        }
    }
}

/// The checksummed part of a packet: marker, kind byte, payload.
pub open spec fn body(kind: PacketKind, payload: Seq<u8>) -> Seq<u8> {
    seq![PACKET_MARKER, kind.byte()] + payload
}

/// A whole datagram: the header bytes, `crc` least significant byte first,
/// then the body.
pub open spec fn framed(body: Seq<u8>, crc: u32) -> Seq<u8> {
    STATIC_HEADER@ + le_bytes(crc) + body
}

/// The datagram that carries `payload` as a packet of the given kind.
pub open spec fn wire(kind: PacketKind, payload: Seq<u8>) -> Seq<u8> {
    framed(body(kind, payload), crc32_of(body(kind, payload)))
}

/// The bytes of `raw` that the transport reported as received.
pub open spec fn received(raw: Seq<u8>, actual_length: int) -> Seq<u8> {
    if 0 <= actual_length < raw.len() {
        raw.take(actual_length)
    } else {
        raw
    }
}

/// The fields of a datagram of at least nine bytes.
pub open spec fn fields(datagram: Seq<u8>) -> PacketView
    recommends
        datagram.len() >= 9,
{
    let kind = PacketKind::of_byte(datagram[7]);
    if kind.sequenced() {
        PacketView {
            kind,
            sequence: Some(datagram[8]),
            payload: datagram.subrange(9, datagram.len() as int),
        }
    } else {
        PacketView { kind, sequence: None, payload: datagram.subrange(8, datagram.len() as int) }
    }
}

/// What decoding `datagram` gives when `crc` is the CRC-32 of its body.
pub open spec fn parse_with(datagram: Seq<u8>, crc: u32) -> Result<PacketView, ParseError> {
    if datagram.len() < 9 {
        Err(ParseError::TooShort)
    } else if !carries(datagram, crc) {
        Err(ParseError::BadChecksum)
    } else {
        Ok(fields(datagram))
    }
}

/// What decoding `datagram` gives.
pub open spec fn parse(datagram: Seq<u8>) -> Result<PacketView, ParseError> {
    parse_with(datagram, crc32_of(datagram.subrange(6, datagram.len() as int)))
}

/// The result of a decoding, with the packet taken as a mathematical value.
pub open spec fn outcome(result: Result<DecodedPacket, ParseError>) -> Result<
    PacketView,
    ParseError,
> {
    match result {
        Ok(packet) => Ok(packet@),
        Err(error) => Err(error),
    }
}

/// Appends `bytes` to `out`.
fn append(out: &mut Vec<u8>, bytes: &[u8])
    ensures
        final(out)@ == old(out)@ + bytes@,
{
    let mut i: usize = 0;
    while i < bytes.len()
        invariant
            i <= bytes.len(),
            out@ == old(out)@ + bytes@.take(i as int),
        decreases bytes.len() - i,
    {
        out.push(bytes[i]);
        i += 1;
        assert(bytes@.take(i as int) == bytes@.take(i - 1).push(bytes@[i - 1]));
    }
}

/// Copies the bytes of `bytes` from `from` to the end.
fn tail(bytes: &[u8], from: usize) -> (out: Vec<u8>)
    requires
        from <= bytes.len(),
    ensures
        out@ == bytes@.subrange(from as int, bytes@.len() as int),
{
    let mut out: Vec<u8> = Vec::new();
    append(&mut out, &bytes[from..bytes.len()]);
    out
}

/// The part of the receive buffer `raw` that holds what arrived.
fn arrived<'a>(raw: &'a [u8], actual_length: usize) -> (datagram: &'a [u8])
    ensures
        datagram@ == received(raw@, actual_length as int),
{
    if actual_length < raw.len() {
        &raw[0..actual_length]
    } else {
        raw
    }
}

/// Builds the checksummed part of a packet.
pub fn packet_body(kind: PacketKind, payload: &[u8]) -> (out: Vec<u8>)
    ensures
        out@ == body(kind, payload@),
{
    let mut out: Vec<u8> = Vec::new();
    out.push(PACKET_MARKER);
    out.push(kind.to_byte());
    append(&mut out, payload);
    out
}

/// Puts the header and the checksum field in front of a body whose CRC-32 is
/// `crc`.
pub fn frame(body: &[u8], crc: u32) -> (out: Vec<u8>)
    ensures
        out@ == framed(body@, crc),
{
    let mut out: Vec<u8> = Vec::new();
    out.push(STATIC_HEADER[0]);
    out.push(STATIC_HEADER[1]);
    let field = to_le_vec(crc);
    append(&mut out, field.as_slice());
    append(&mut out, body);
    out
}

/// Encodes a packet: header, checksum of the body, then marker, kind byte and
/// payload.
pub fn encode(kind: PacketKind, payload: &[u8]) -> (out: Vec<u8>)
    ensures
        out@ == wire(kind, payload@),
        out@.len() == payload@.len() + 8,
        valid_packet(out@),
{
    let body = packet_body(kind, payload);
    let crc: u32 = crc32fast::hash(body.as_slice());
    proof {
        encoded_is_valid(kind, payload@);
    }
    frame(body.as_slice(), crc)
}

/// Splits a datagram of at least nine bytes into kind, sequence and payload,
/// without looking at its checksum.
fn split(datagram: &[u8]) -> (packet: DecodedPacket)
    requires
        datagram@.len() >= 9,
    ensures
        packet@ == fields(datagram@),
        packet@.well_formed(),
{
    let kind = PacketKind::from_byte(datagram[7]);
    if kind.is_sequenced() {
        DecodedPacket { kind, sequence: Some(datagram[8]), payload: tail(datagram, 9) }
    } else {
        DecodedPacket { kind, sequence: None, payload: tail(datagram, 8) }
    }
}

/// Decodes the first `actual_length` bytes of `raw`, given the CRC-32 of
/// what follows their first six bytes.
pub fn decode_with(raw: &[u8], actual_length: usize, crc: u32) -> (result: Result<
    DecodedPacket,
    ParseError,
>)
    ensures
        outcome(result) == parse_with(received(raw@, actual_length as int), crc),
        result matches Ok(packet) ==> packet@.well_formed(),
{
    let datagram = arrived(raw, actual_length);
    if datagram.len() < 9 {
        Err(ParseError::TooShort)
    } else if !carries_checksum(datagram, crc) {
        Err(ParseError::BadChecksum)
    } else {
        Ok(split(datagram))
    }
}

/// Decodes a received datagram.
///
/// `raw` is the receive buffer and `actual_length` the number of bytes that
/// arrived in it; what lies behind them is not looked at. A length beyond the
/// buffer stands for the whole buffer.
///
/// Fewer than nine bytes give `TooShort`. Otherwise a missing marker or a
/// checksum field that does not match the body gives `BadChecksum`. Otherwise
/// the packet is returned: commands and server messages with the sequence
/// byte from offset 8 and the payload behind it, every other kind with the
/// payload from offset 8.
pub fn decode(raw: &[u8], actual_length: usize) -> (result: Result<DecodedPacket, ParseError>)
    ensures
        outcome(result) == parse(received(raw@, actual_length as int)),
        result == Err::<DecodedPacket, ParseError>(ParseError::TooShort) <==> received(
            raw@,
            actual_length as int,
        ).len() < 9,
        result matches Ok(packet) ==> packet@.well_formed(),
{
    let datagram = arrived(raw, actual_length);
    if datagram.len() < 9 {
        return Err(ParseError::TooShort);
    }
    let crc: u32 = crc32fast::hash(&datagram[6..datagram.len()]);
    decode_with(datagram, datagram.len(), crc)
}

/// Whatever a receive buffer holds, fewer than nine bytes of it decode to
/// `TooShort`.
pub proof fn truncated_is_too_short(raw: Seq<u8>, actual_length: int)
    requires
        0 <= actual_length < 9,
    ensures
        parse(received(raw, actual_length)) == Err::<PacketView, ParseError>(ParseError::TooShort),
{
}

/// Every encoded packet is valid: its checksum field holds the checksum of
/// everything from its marker to its end.
pub proof fn encoded_is_valid(kind: PacketKind, payload: Seq<u8>)
    ensures
        valid_packet(wire(kind, payload)),
        wire(kind, payload).subrange(2, 6) == checksum(
            wire(kind, payload).subrange(6, wire(kind, payload).len() as int),
        ),
{
    let inner = body(kind, payload);
    let datagram = wire(kind, payload);
    assert(datagram.subrange(6, datagram.len() as int) =~= inner);
    assert(datagram.subrange(2, 6) =~= le_bytes(crc32_of(inner)));
}

/// Decoding an encoded packet gives back what was encoded.
///
/// For every well-formed kind and every payload of at least one byte, the
/// datagram that `encode` builds decodes without error to a packet of the same
/// kind. Where the kind carries no sequence byte, the payload comes back
/// unchanged. Where it does, the first payload byte comes back as the sequence
/// and the rest as the payload.
///
/// A datagram with an empty payload is eight bytes long and decodes to
/// `TooShort`.
pub proof fn encode_then_decode(kind: PacketKind, payload: Seq<u8>)
    requires
        kind.well_formed(),
        payload.len() >= 1,
    ensures
        received(wire(kind, payload), wire(kind, payload).len() as int) == wire(kind, payload),
        parse(wire(kind, payload)) matches Ok(packet) && packet.kind == kind,
        !kind.sequenced() ==> parse(wire(kind, payload)) == Ok::<PacketView, ParseError>(
            (PacketView { kind, sequence: None, payload }),
        ),
        kind.sequenced() ==> parse(wire(kind, payload)) == Ok::<PacketView, ParseError>(
            (PacketView { kind, sequence: Some(payload[0]), payload: payload.skip(1) }),
        ),
{
    encoded_is_valid(kind, payload);
    let datagram = wire(kind, payload);
    if kind.sequenced() {
        assert(datagram.subrange(9, datagram.len() as int) =~= payload.skip(1));
    } else {
        assert(datagram.subrange(8, datagram.len() as int) =~= payload);
    }
}

/// A datagram with an empty payload cannot be decoded: it is too short.
pub proof fn empty_payload_is_too_short(kind: PacketKind)
    ensures
        parse(wire(kind, Seq::<u8>::empty())) == Err::<PacketView, ParseError>(
            ParseError::TooShort,
        ),
{
    assert(wire(kind, Seq::<u8>::empty()).len() == 8);
}

} // verus!
