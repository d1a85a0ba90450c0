//! CRC-32 over a datagram's body, laid out least significant byte first.

use vstd::prelude::*;

verus! {

/// The CRC-32 (IEEE 802.3) value of a byte sequence.
///
/// The value is computed by `crc32fast`; this name stands for it in
/// contracts. Nothing is known of it here beyond its being a function of the
/// bytes.
pub uninterp spec fn crc32_of(bytes: Seq<u8>) -> u32;

/// `crc32fast::hash` returns the CRC-32 of exactly the bytes of the slice it
/// is given. It reads nothing else, keeps no state and does not panic.
///
/// This is taken on trust from the crate's documentation and source.
pub assume_specification[ crc32fast::hash ](buf: &[u8]) -> (sum: u32)
    ensures
        sum == crc32_of(buf@),
;

/// The four bytes of `value`, least significant first.
pub open spec fn le_bytes(value: u32) -> Seq<u8> {
    seq![
        (value % 0x100) as u8,
        (value / 0x100 % 0x100) as u8,
        (value / 0x1_0000 % 0x100) as u8,
        (value / 0x100_0000) as u8,
    ]
}

/// The checksum field that protects `bytes`: their CRC-32, least significant
/// byte first.
pub open spec fn checksum(bytes: Seq<u8>) -> Seq<u8> {
    le_bytes(crc32_of(bytes))
}

/// Whether `message` is long enough to hold a marker, holds `0xFF` there, and
/// has the little-endian bytes of `crc` in its checksum field.
pub open spec fn carries(message: Seq<u8>, crc: u32) -> bool {
    &&& message.len() >= 7
    &&& message[6] == 0xFF
    &&& message.subrange(2, 6) == le_bytes(crc)
}

/// Whether `message` is a datagram whose checksum field matches its body.
///
/// The body runs from the marker at offset 6 to the end; the checksum field
/// is at offsets 2 to 5.
pub open spec fn valid_packet(message: Seq<u8>) -> bool {
    carries(message, crc32_of(message.subrange(6, message.len() as int)))
}

/// Lays `value` out as four bytes, least significant first.
pub fn to_le_vec(value: u32) -> (out: Vec<u8>)
    ensures
        out@ == le_bytes(value),
{
    let b0: u8 = (value & 0xff) as u8;
    let b1: u8 = ((value >> 8) & 0xff) as u8;
    let b2: u8 = ((value >> 16) & 0xff) as u8;
    let b3: u8 = (value >> 24) as u8;
    proof {
        assert(value & 0xff == value % 0x100) by (bit_vector);
        assert((value >> 8) & 0xff == value / 0x100 % 0x100) by (bit_vector);
        assert((value >> 16) & 0xff == value / 0x1_0000 % 0x100) by (bit_vector);
        assert(value >> 24 == value / 0x100_0000) by (bit_vector);
    }
    let mut out: Vec<u8> = Vec::new();
    out.push(b0);
    out.push(b1);
    out.push(b2);
    out.push(b3);
    assert(out@ =~= le_bytes(value));
    out
}

/// Computes the checksum field for `msg`.
pub fn msg_to_checksum_le_vec(msg: &[u8]) -> (out: Vec<u8>)
    ensures
        out@ == checksum(msg@),
        out@.len() == 4,
{
    to_le_vec(crc32fast::hash(msg))
}

/// Compares the checksum field of `message` with `crc`, and checks the marker.
pub fn carries_checksum(message: &[u8], crc: u32) -> (ok: bool)
    ensures
        ok == carries(message@, crc),
{
    if message.len() < 7 || message[6] != 0xFF {
        return false;
    }
    let expected = to_le_vec(crc);
    let ok = message[2] == expected[0] && message[3] == expected[1] && message[4] == expected[2]
        && message[5] == expected[3];
    proof {
        let field = message@.subrange(2, 6);
        assert(field[0] == message@[2] && field[1] == message@[3] && field[2] == message@[4]
            && field[3] == message@[5]);
        assert(ok ==> field =~= le_bytes(crc));
    }
    ok
}

/// Validates a datagram: true exactly when it has a marker byte `0xFF` at
/// offset 6 and its checksum field equals the checksum of everything from the
/// marker on. A datagram too short to hold a marker is not valid.
pub fn validate(message: &[u8]) -> (ok: bool)
    ensures
        ok == valid_packet(message@),
        ok <==> message@.len() >= 7 && message@[6] == 0xFF && message@.subrange(2, 6) == checksum(
            message@.subrange(6, message@.len() as int),
        ),
{
    if message.len() < 7 || message[6] != 0xFF {
        return false;
    }
    let crc: u32 = crc32fast::hash(&message[6..message.len()]);
    carries_checksum(message, crc)
}

/// Equal byte sequences have equal checksums, and a checksum is four bytes
/// long.
pub proof fn checksum_is_stable(first: Seq<u8>, second: Seq<u8>)
    requires
        first =~= second,
    ensures
        checksum(first) == checksum(second),
        checksum(first).len() == 4,
{
}

} // verus!
