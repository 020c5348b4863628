//! Little-endian integer packing used by the frame and beacon formats.
use vstd::prelude::*;

verus! {

/// Value of a 24-bit little-endian field.
pub open spec fn spec_u24_from_le_bytes(bytes: Seq<u8>) -> u32 {
    (bytes[0] as int + 256 * (bytes[1] as int) + 65536 * (bytes[2] as int)) as u32
}

/// The three little-endian bytes of a value below 2^24.
pub open spec fn spec_u24_to_le_bytes(v: u32) -> Seq<u8> {
    seq![(v % 256) as u8, ((v / 256) % 256) as u8, ((v / 65536) % 256) as u8]
}

/// Value of a 16-bit little-endian field.
pub open spec fn spec_u16_from_le_bytes(bytes: Seq<u8>) -> u16 {
    (bytes[0] as int + 256 * (bytes[1] as int)) as u16
}

/// The two little-endian bytes of a 16-bit value.
pub open spec fn spec_u16_to_le_bytes(v: u16) -> Seq<u8> {
    seq![(v % 256) as u8, (v / 256) as u8]
}

/// Value of a 32-bit little-endian field.
pub open spec fn spec_u32_from_le_bytes(bytes: Seq<u8>) -> u32 {
    (bytes[0] as int + 256 * (bytes[1] as int) + 65536 * (bytes[2] as int) + 16777216 * (
    bytes[3] as int)) as u32
}

/// The four little-endian bytes of a 32-bit value.
pub open spec fn spec_u32_to_le_bytes(v: u32) -> Seq<u8> {
    seq![
        (v % 256) as u8,
        ((v / 256) % 256) as u8,
        ((v / 65536) % 256) as u8,
        (v / 16777216) as u8,
    ]
}

/// Value of a 64-bit little-endian field.
pub open spec fn spec_u64_from_le_bytes(bytes: Seq<u8>) -> u64 {
    (spec_u32_from_le_bytes(bytes.subrange(0, 4)) as int + 4294967296 * (spec_u32_from_le_bytes(
        bytes.subrange(4, 8),
    ) as int)) as u64
}

/// Reads a 24-bit little-endian integer.
pub fn u24_from_le_bytes(bytes: [u8; 3]) -> (v: u32)
    ensures
        v == spec_u24_from_le_bytes(bytes@),
        v == bytes[0] as int + 256 * (bytes[1] as int) + 65536 * (bytes[2] as int),
        v < 0x100_0000,
{
    let b0: u8 = bytes[0];
    let b1: u8 = bytes[1];
    let b2: u8 = bytes[2];
    assert((((b2 as u32) << 16) | ((b1 as u32) << 8) | (b0 as u32)) == b0 as u32 + 256 * (
    b1 as u32) + 65536 * (b2 as u32)) by (bit_vector);
    ((b2 as u32) << 16) | ((b1 as u32) << 8) | (b0 as u32)
}

/// Writes a 24-bit integer as three little-endian bytes. Values of 2^24 and
/// above do not fit the field and are not accepted.
pub fn u24_to_le_bytes(v: u32) -> (bytes: [u8; 3])
    requires
        v < 0x100_0000,
    ensures
        bytes@ == spec_u24_to_le_bytes(v),
        spec_u24_from_le_bytes(bytes@) == v,
{
    assert((v & 0xff) == v % 256 && ((v & 0xff_00) >> 8) == (v / 256) % 256 && ((v & 0xff_00_00)
        >> 16) == (v / 65536) % 256 && (v & 0xff) < 256 && ((v & 0xff_00) >> 8) < 256 && ((v
        & 0xff_00_00) >> 16) < 256) by (bit_vector);
    let bytes: [u8; 3] = [
        (v & 0xff) as u8,
        ((v & 0xff_00) >> 8) as u8,
        ((v & 0xff_00_00) >> 16) as u8,
    ];
    proof {
        assert(bytes@ =~= spec_u24_to_le_bytes(v));
        lemma_u24_round_trip(v);
    }
    bytes
}

/// Reads a 16-bit little-endian integer.
pub fn u16_from_le_bytes(bytes: [u8; 2]) -> (v: u16)
    ensures
        v == spec_u16_from_le_bytes(bytes@),
        v == bytes[0] as int + 256 * (bytes[1] as int),
{
    let b0: u8 = bytes[0];
    let b1: u8 = bytes[1];
    assert((((b1 as u16) << 8) | (b0 as u16)) == b0 as u16 + 256 * (b1 as u16)) by (bit_vector);
    ((b1 as u16) << 8) | (b0 as u16)
}

/// Writes a 16-bit integer as two little-endian bytes.
pub fn u16_to_le_bytes(v: u16) -> (bytes: [u8; 2])
    ensures
        bytes@ == spec_u16_to_le_bytes(v),
        spec_u16_from_le_bytes(bytes@) == v,
{
    assert((v & 0xff) == v % 256 && (v >> 8) == v / 256 && (v & 0xff) < 256 && (v >> 8) < 256)
        by (bit_vector);
    let bytes: [u8; 2] = [(v & 0xff) as u8, (v >> 8) as u8];
    proof {
        assert(bytes@ =~= spec_u16_to_le_bytes(v));
    }
    bytes
}

/// Reads a 32-bit little-endian integer.
pub fn u32_from_le_bytes(bytes: [u8; 4]) -> (v: u32)
    ensures
        v == spec_u32_from_le_bytes(bytes@),
        v == bytes[0] as int + 256 * (bytes[1] as int) + 65536 * (bytes[2] as int) + 16777216 * (
        bytes[3] as int),
{
    let b0: u8 = bytes[0];
    let b1: u8 = bytes[1];
    let b2: u8 = bytes[2];
    let b3: u8 = bytes[3];
    assert((((b3 as u32) << 24) | ((b2 as u32) << 16) | ((b1 as u32) << 8) | (b0 as u32)) == b0
        as u32 + 256 * (b1 as u32) + 65536 * (b2 as u32) + 16777216 * (b3 as u32))
        by (bit_vector);
    ((b3 as u32) << 24) | ((b2 as u32) << 16) | ((b1 as u32) << 8) | (b0 as u32)
}

/// Writes a 32-bit integer as four little-endian bytes.
pub fn u32_to_le_bytes(v: u32) -> (bytes: [u8; 4])
    ensures
        bytes@ == spec_u32_to_le_bytes(v),
        spec_u32_from_le_bytes(bytes@) == v,
{
    assert((v & 0xff) == v % 256 && ((v >> 8) & 0xff) == (v / 256) % 256 && ((v >> 16) & 0xff)
        == (v / 65536) % 256 && (v >> 24) == v / 16777216 && (v & 0xff) < 256 && ((v >> 8)
        & 0xff) < 256 && ((v >> 16) & 0xff) < 256 && (v >> 24) < 256) by (bit_vector);
    let bytes: [u8; 4] = [
        (v & 0xff) as u8,
        ((v >> 8) & 0xff) as u8,
        ((v >> 16) & 0xff) as u8,
        (v >> 24) as u8,
    ];
    proof {
        assert(bytes@ =~= spec_u32_to_le_bytes(v));
    }
    bytes
}

/// Reads a 64-bit little-endian integer.
pub fn u64_from_le_bytes(bytes: [u8; 8]) -> (v: u64)
    ensures
        v == spec_u64_from_le_bytes(bytes@),
{
    let lo: u32 = u32_from_le_bytes([bytes[0], bytes[1], bytes[2], bytes[3]]);
    let hi: u32 = u32_from_le_bytes([bytes[4], bytes[5], bytes[6], bytes[7]]);
    proof {
        assert(bytes@.subrange(0, 4) =~= seq![bytes[0], bytes[1], bytes[2], bytes[3]]);
        assert(bytes@.subrange(4, 8) =~= seq![bytes[4], bytes[5], bytes[6], bytes[7]]);
        assert((((hi as u64) << 32) | (lo as u64)) == lo as u64 + 4294967296 * (hi as u64))
            by (bit_vector);
    }
    ((hi as u64) << 32) | (lo as u64)
}

/// A 24-bit value survives being written and read back.
pub proof fn lemma_u24_round_trip(v: u32)
    requires
        v < 0x100_0000,
    ensures
        spec_u24_from_le_bytes(spec_u24_to_le_bytes(v)) == v,
{
    assert((v % 256) + 256 * ((v / 256) % 256) + 65536 * ((v / 65536) % 256) == v) by (bit_vector)
        requires
            v < 0x100_0000,
    ;
}

/// Three bytes survive being read as a 24-bit value and written back.
pub proof fn lemma_u24_bytes_round_trip(bytes: Seq<u8>)
    requires
        bytes.len() == 3,
    ensures
        spec_u24_from_le_bytes(bytes) < 0x100_0000,
        spec_u24_to_le_bytes(spec_u24_from_le_bytes(bytes)) == bytes,
{
    let b0: u8 = bytes[0];
    let b1: u8 = bytes[1];
    let b2: u8 = bytes[2];
    let v: u32 = spec_u24_from_le_bytes(bytes);
    assert(v == b0 as int + 256 * (b1 as int) + 65536 * (b2 as int));
    assert(v % 256 == b0 as int && (v / 256) % 256 == b1 as int && (v / 65536) % 256 == b2 as int);
    assert(spec_u24_to_le_bytes(v) =~= bytes);
}

/// A 32-bit value survives being written and read back, and so do four bytes.
pub proof fn lemma_u32_round_trip(v: u32, bytes: Seq<u8>)
    requires
        bytes.len() == 4,
    ensures
        spec_u32_from_le_bytes(spec_u32_to_le_bytes(v)) == v,
        spec_u32_to_le_bytes(spec_u32_from_le_bytes(bytes)) == bytes,
{
    assert((v % 256) + 256 * ((v / 256) % 256) + 65536 * ((v / 65536) % 256) + 16777216 * (v
        / 16777216) == v && v / 16777216 < 256) by (bit_vector);
    let b0: u8 = bytes[0];
    let b1: u8 = bytes[1];
    let b2: u8 = bytes[2];
    let b3: u8 = bytes[3];
    let w: u32 = spec_u32_from_le_bytes(bytes);
    assert(w == b0 as int + 256 * (b1 as int) + 65536 * (b2 as int) + 16777216 * (b3 as int));
    assert(w % 256 == b0 as int && (w / 256) % 256 == b1 as int && (w / 65536) % 256 == b2 as int
        && w / 16777216 == b3 as int);
    assert(spec_u32_to_le_bytes(w) =~= bytes);
}

/// A 16-bit value survives being written and read back, and so do two bytes.
pub proof fn lemma_u16_round_trip(v: u16, bytes: Seq<u8>)
    requires
        bytes.len() == 2,
    ensures
        spec_u16_from_le_bytes(spec_u16_to_le_bytes(v)) == v,
        spec_u16_to_le_bytes(spec_u16_from_le_bytes(bytes)) == bytes,
{
    assert((v % 256) + 256 * (v / 256) == v && v / 256 < 256) by (bit_vector);
    let b0: u8 = bytes[0];
    let b1: u8 = bytes[1];
    let w: u16 = spec_u16_from_le_bytes(bytes);
    assert(w == b0 as int + 256 * (b1 as int));
    assert(w % 256 == b0 as int && w / 256 == b1 as int);
    assert(spec_u16_to_le_bytes(w) =~= bytes);
}

} // verus!
