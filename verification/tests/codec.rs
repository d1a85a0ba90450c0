use battleye_rust::remote_console::hash::checksum::crc32;
use battleye_rust::remote_console::packet::packet_types::{
    MESSAGE_TYPE_PACKET_COMMAND, MESSAGE_TYPE_PACKET_LOGIN, MESSAGE_TYPE_PACKET_SERVER_MESSAGE,
    PACKET_MARKER, STATIC_HEADER,
};
use battleye_rust::remote_console::packet::{
    decode, decode_with, encode, frame, packet_body, DecodedPacket, LoginStatus, PacketKind,
    ParseError,
};

fn packet(kind: PacketKind, sequence: Option<u8>, payload: &[u8]) -> DecodedPacket {
    DecodedPacket { kind, sequence, payload: payload.to_vec() }
}

#[test]
fn wire_constants() {
    assert_eq!(STATIC_HEADER, [0x42, 0x45]);
    assert_eq!(PACKET_MARKER, 0xFF);
    assert_eq!(MESSAGE_TYPE_PACKET_LOGIN, 0x00);
    assert_eq!(MESSAGE_TYPE_PACKET_COMMAND, 0x01);
    assert_eq!(MESSAGE_TYPE_PACKET_SERVER_MESSAGE, 0x02);
}

#[test]
fn kind_bytes() {
    assert_eq!(PacketKind::Login.to_byte(), 0x00);
    assert_eq!(PacketKind::Command.to_byte(), 0x01);
    assert_eq!(PacketKind::ServerMessage.to_byte(), 0x02);
    assert_eq!(PacketKind::Unknown(0x7F).to_byte(), 0x7F);
    assert_eq!(PacketKind::from_byte(0x00), PacketKind::Login);
    assert_eq!(PacketKind::from_byte(0x01), PacketKind::Command);
    assert_eq!(PacketKind::from_byte(0x02), PacketKind::ServerMessage);
    assert_eq!(PacketKind::from_byte(0x03), PacketKind::Unknown(0x03));
    assert_eq!(PacketKind::from_byte(0xFF), PacketKind::Unknown(0xFF));
}

#[test]
fn kind_byte_round_trip_for_every_byte() {
    for byte in 0..=255u8 {
        assert_eq!(PacketKind::from_byte(byte).to_byte(), byte);
    }
}

#[test]
fn sequenced_kinds() {
    assert!(!PacketKind::Login.is_sequenced());
    assert!(PacketKind::Command.is_sequenced());
    assert!(PacketKind::ServerMessage.is_sequenced());
    assert!(!PacketKind::Unknown(0x09).is_sequenced());
}

#[test]
fn body_is_marker_kind_payload() {
    assert_eq!(packet_body(PacketKind::Command, b"abcd"), [0xFF, 0x01, 0x61, 0x62, 0x63, 0x64]);
    assert_eq!(packet_body(PacketKind::Login, &[]), [0xFF, 0x00]);
    assert_eq!(packet_body(PacketKind::Unknown(0x33), &[0x00]), [0xFF, 0x33, 0x00]);
}

#[test]
fn frame_puts_header_and_checksum_first() {
    assert_eq!(
        frame(&[0xFF, 0x01, 0x61], 0x62778D70),
        [0x42, 0x45, 0x70, 0x8D, 0x77, 0x62, 0xFF, 0x01, 0x61]
    );
    assert_eq!(frame(&[], 0x0403_0201), [0x42, 0x45, 0x01, 0x02, 0x03, 0x04]);
}

#[test]
fn encode_command() {
    assert_eq!(
        encode(PacketKind::Command, b"a"),
        [0x42, 0x45, 0x70, 0x8D, 0x77, 0x62, 0xFF, 0x01, 0x61]
    );
    assert_eq!(
        encode(PacketKind::Command, b"abcd"),
        [0x42, 0x45, 0xD2, 0x31, 0xA0, 0xA4, 0xFF, 0x01, 0x61, 0x62, 0x63, 0x64]
    );
}

#[test]
fn encode_login() {
    assert_eq!(
        encode(PacketKind::Login, b"password"),
        [
            0x42, 0x45, 0xDE, 0x26, 0x2D, 0x52, 0xFF, 0x00, 0x70, 0x61, 0x73, 0x73, 0x77, 0x6F,
            0x72, 0x64
        ]
    );
}

#[test]
fn encode_acknowledgment() {
    assert_eq!(
        encode(PacketKind::ServerMessage, &[0x05]),
        [0x42, 0x45, 0xF2, 0x7B, 0x85, 0x03, 0xFF, 0x02, 0x05]
    );
}

#[test]
fn encode_empty_payload() {
    assert_eq!(
        encode(PacketKind::Command, &[]),
        [0x42, 0x45, 0x1B, 0xDF, 0xFA, 0xA5, 0xFF, 0x01]
    );
}

#[test]
fn encoded_packets_validate() {
    assert!(crc32::validate(&encode(PacketKind::Login, b"password")));
    assert!(crc32::validate(&encode(PacketKind::Command, &[])));
    assert!(crc32::validate(&encode(PacketKind::ServerMessage, &[0x00])));
    assert!(crc32::validate(&encode(PacketKind::Unknown(0xFF), &[0xFF; 300])));
}

#[test]
fn encode_unknown_kind() {
    assert_eq!(
        encode(PacketKind::Unknown(0x07), &[1, 2, 3]),
        [0x42, 0x45, 0x27, 0x51, 0x6C, 0x3B, 0xFF, 0x07, 0x01, 0x02, 0x03]
    );
}

#[test]
fn decode_login_response() {
    let accepted = [0x42, 0x45, 0x69, 0xDD, 0xDE, 0x36, 0xFF, 0x00, 0x01];
    assert_eq!(decode(&accepted, 9), Ok(packet(PacketKind::Login, None, &[0x01])));
    let rejected = [0x42, 0x45, 0xFF, 0xED, 0xD9, 0x41, 0xFF, 0x00, 0x00];
    assert_eq!(decode(&rejected, 9), Ok(packet(PacketKind::Login, None, &[0x00])));
}

#[test]
fn decode_command_response() {
    let raw = [0x42, 0x45, 0xA7, 0x6F, 0xB0, 0x2D, 0xFF, 0x01, 0x00, 0x68, 0x69];
    assert_eq!(decode(&raw, raw.len()), Ok(packet(PacketKind::Command, Some(0x00), b"hi")));
}

#[test]
fn decode_server_message() {
    let raw =
        [0x42, 0x45, 0x8E, 0x08, 0x09, 0x74, 0xFF, 0x02, 0x05, 0x68, 0x65, 0x6C, 0x6C, 0x6F];
    assert_eq!(
        decode(&raw, raw.len()),
        Ok(packet(PacketKind::ServerMessage, Some(0x05), b"hello"))
    );
}

#[test]
fn decode_unknown_kind() {
    let raw = [0x42, 0x45, 0x27, 0x51, 0x6C, 0x3B, 0xFF, 0x07, 0x01, 0x02, 0x03];
    assert_eq!(decode(&raw, raw.len()), Ok(packet(PacketKind::Unknown(0x07), None, &[1, 2, 3])));
}

#[test]
fn decode_sequence_with_empty_payload() {
    let raw = [0x42, 0x45, 0x1A, 0x64, 0x1E, 0x21, 0xFF, 0x01, 0x09];
    assert_eq!(decode(&raw, 9), Ok(packet(PacketKind::Command, Some(0x09), &[])));
}

#[test]
fn decode_keeps_zero_bytes_in_the_payload() {
    let raw = [0x42, 0x45, 0x5E, 0x08, 0xB1, 0xF2, 0xFF, 0x02, 0x05, 0x61, 0x00, 0x62];
    assert_eq!(
        decode(&raw, raw.len()),
        Ok(packet(PacketKind::ServerMessage, Some(0x05), &[0x61, 0x00, 0x62]))
    );
}

#[test]
fn decode_looks_at_the_reported_length_only() {
    let mut buffer = vec![0x42, 0x45, 0xA7, 0x6F, 0xB0, 0x2D, 0xFF, 0x01, 0x00, 0x68, 0x69];
    buffer.resize(519, 0x00);
    assert_eq!(decode(&buffer, 11), Ok(packet(PacketKind::Command, Some(0x00), b"hi")));
    buffer[11] = 0x21;
    assert_eq!(decode(&buffer, 11), Ok(packet(PacketKind::Command, Some(0x00), b"hi")));
    assert_eq!(decode(&buffer, 12), Err(ParseError::BadChecksum));
}

#[test]
fn decode_takes_a_length_beyond_the_buffer_as_the_buffer() {
    let raw = [0x42, 0x45, 0xA7, 0x6F, 0xB0, 0x2D, 0xFF, 0x01, 0x00, 0x68, 0x69];
    assert_eq!(decode(&raw, 600), Ok(packet(PacketKind::Command, Some(0x00), b"hi")));
    assert_eq!(decode(&raw, usize::MAX), Ok(packet(PacketKind::Command, Some(0x00), b"hi")));
}

#[test]
fn decode_too_short() {
    let raw = [0x42, 0x45, 0xA7, 0x6F, 0xB0, 0x2D, 0xFF, 0x01, 0x00, 0x68, 0x69];
    for length in 0..9 {
        assert_eq!(decode(&raw, length), Err(ParseError::TooShort));
        assert_eq!(decode(&raw[..length], raw.len()), Err(ParseError::TooShort));
    }
    assert_eq!(decode(&[], 0), Err(ParseError::TooShort));
    // A keep-alive as this client sends it has eight bytes.
    assert_eq!(decode(&encode(PacketKind::Command, &[]), 8), Err(ParseError::TooShort));
}

#[test]
fn decode_bad_checksum() {
    let flipped = [0x42, 0x45, 0xA7, 0x6F, 0xB0, 0x2C, 0xFF, 0x01, 0x00, 0x68, 0x69];
    assert_eq!(decode(&flipped, flipped.len()), Err(ParseError::BadChecksum));
    let truncated = [0x42, 0x45, 0xA7, 0x6F, 0xB0, 0x2D, 0xFF, 0x01, 0x00, 0x68];
    assert_eq!(decode(&truncated, truncated.len()), Err(ParseError::BadChecksum));
    let all_zero = [0u8; 32];
    assert_eq!(decode(&all_zero, 32), Err(ParseError::BadChecksum));
}

#[test]
fn decode_bad_marker() {
    let body = [0xFE, 0x01, 0x00, 0x68, 0x69];
    let raw = frame(&body, crc32fast::hash(&body));
    assert_eq!(decode(&raw, raw.len()), Err(ParseError::BadChecksum));
}

#[test]
fn decode_with_trusts_the_given_checksum() {
    let raw = [0x42, 0x45, 0x70, 0x8D, 0x77, 0x62, 0xFF, 0x01, 0x61];
    assert_eq!(
        decode_with(&raw, 9, 0x62778D70),
        Ok(packet(PacketKind::Command, Some(0x61), &[]))
    );
    assert_eq!(decode_with(&raw, 9, 0x62778D71), Err(ParseError::BadChecksum));
    assert_eq!(decode_with(&raw, 8, 0x62778D70), Err(ParseError::TooShort));
}

#[test]
fn round_trip_login() {
    let payload = b"secret";
    let raw = encode(PacketKind::Login, payload);
    assert_eq!(decode(&raw, raw.len()), Ok(packet(PacketKind::Login, None, payload)));
}

#[test]
fn round_trip_unknown_kind() {
    let payload = [0x00, 0xFF, 0x10];
    let raw = encode(PacketKind::Unknown(0xA0), &payload);
    assert_eq!(decode(&raw, raw.len()), Ok(packet(PacketKind::Unknown(0xA0), None, &payload)));
}

#[test]
fn round_trip_sequenced_kinds_give_first_byte_as_sequence() {
    let payload = [0x07, 0x68, 0x69];
    let command = encode(PacketKind::Command, &payload);
    assert_eq!(
        decode(&command, command.len()),
        Ok(packet(PacketKind::Command, Some(0x07), &[0x68, 0x69]))
    );
    let message = encode(PacketKind::ServerMessage, &payload);
    assert_eq!(
        decode(&message, message.len()),
        Ok(packet(PacketKind::ServerMessage, Some(0x07), &[0x68, 0x69]))
    );
}

#[test]
fn round_trip_every_single_byte_payload() {
    for byte in 0..=255u8 {
        let raw = encode(PacketKind::Login, &[byte]);
        assert_eq!(raw.len(), 9);
        assert_eq!(decode(&raw, 9), Ok(packet(PacketKind::Login, None, &[byte])));
    }
}

#[test]
fn login_status_of_packets() {
    assert_eq!(packet(PacketKind::Login, None, &[0x01]).login_status(), Some(LoginStatus::Accepted));
    assert_eq!(packet(PacketKind::Login, None, &[0x00]).login_status(), Some(LoginStatus::Rejected));
    assert_eq!(
        packet(PacketKind::Login, None, &[0x02]).login_status(),
        Some(LoginStatus::Unrecognized)
    );
    assert_eq!(packet(PacketKind::Login, None, &[]).login_status(), Some(LoginStatus::Unrecognized));
    assert_eq!(
        packet(PacketKind::Login, None, &[0x01, 0x00]).login_status(),
        Some(LoginStatus::Accepted)
    );
    assert_eq!(packet(PacketKind::Command, Some(1), &[0x01]).login_status(), None);
    assert_eq!(packet(PacketKind::ServerMessage, Some(1), &[0x01]).login_status(), None);
    assert_eq!(packet(PacketKind::Unknown(9), None, &[0x01]).login_status(), None);
}
