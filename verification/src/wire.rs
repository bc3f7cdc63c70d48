//! Fixed-width little-endian integers as they lie in a byte span.
//!
//! The protocol packs its fields without padding, so a field may sit at any
//! offset. Every read here goes byte by byte and is bounds-checked.

use vstd::prelude::*;

verus! {

/// The 16-bit value whose little-endian encoding is the first two bytes of `s`.
pub open spec fn le_u16(s: Seq<u8>) -> u16
    recommends
        s.len() >= 2,
{
    (s[0] + 0x100 * s[1]) as u16
}

/// The 32-bit value whose little-endian encoding is the first four bytes of `s`.
pub open spec fn le_u32(s: Seq<u8>) -> u32
    recommends
        s.len() >= 4,
{
    (s[0] + 0x100 * s[1] + 0x1_0000 * s[2] + 0x100_0000 * s[3]) as u32
}

/// The 64-bit value whose little-endian encoding is the first eight bytes of `s`.
pub open spec fn le_u64(s: Seq<u8>) -> u64
    recommends
        s.len() >= 8,
{
    (s[0] + 0x100 * s[1] + 0x1_0000 * s[2] + 0x100_0000 * s[3] + 0x1_0000_0000 * s[4]
        + 0x100_0000_0000 * s[5] + 0x1_0000_0000_0000 * s[6] + 0x100_0000_0000_0000 * s[7]) as u64
}

/// The little-endian encoding of `value`: two bytes, the low one first.
pub open spec fn le_bytes_u16(value: u16) -> Seq<u8> {
    seq![(value % 0x100) as u8, (value / 0x100) as u8]
}

/// The little-endian encoding of `value`: four bytes, the lowest first.
pub open spec fn le_bytes_u32(value: u32) -> Seq<u8> {
    seq![
        (value % 0x100) as u8,
        (value / 0x100 % 0x100) as u8,
        (value / 0x1_0000 % 0x100) as u8,
        (value / 0x100_0000) as u8,
    ]
}

/// The little-endian encoding of `value`: eight bytes, the lowest first.
pub open spec fn le_bytes_u64(value: u64) -> Seq<u8> {
    seq![
        (value % 0x100) as u8,
        (value / 0x100 % 0x100) as u8,
        (value / 0x1_0000 % 0x100) as u8,
        (value / 0x100_0000 % 0x100) as u8,
        (value / 0x1_0000_0000 % 0x100) as u8,
        (value / 0x100_0000_0000 % 0x100) as u8,
        (value / 0x1_0000_0000_0000 % 0x100) as u8,
        (value / 0x100_0000_0000_0000) as u8,
    ]
}

/// Reading back the two bytes that encode a value gives the value.
pub proof fn lemma_le_u16_round_trip(value: u16)
    ensures
        le_bytes_u16(value).len() == 2,
        le_u16(le_bytes_u16(value)) == value,
{
}

/// Reading back the four bytes that encode a value gives the value.
pub proof fn lemma_le_u32_round_trip(value: u32)
    ensures
        le_bytes_u32(value).len() == 4,
        le_u32(le_bytes_u32(value)) == value,
{
}

/// Reading back the eight bytes that encode a value gives the value.
pub proof fn lemma_le_u64_round_trip(value: u64)
    ensures
        le_bytes_u64(value).len() == 8,
        le_u64(le_bytes_u64(value)) == value,
{
    assert(value == value % 0x100 + 0x100 * (value / 0x100 % 0x100) + 0x1_0000 * (value / 0x1_0000
        % 0x100) + 0x100_0000 * (value / 0x100_0000 % 0x100) + 0x1_0000_0000 * (value
        / 0x1_0000_0000 % 0x100) + 0x100_0000_0000 * (value / 0x100_0000_0000 % 0x100)
        + 0x1_0000_0000_0000 * (value / 0x1_0000_0000_0000 % 0x100) + 0x100_0000_0000_0000 * (value
        / 0x100_0000_0000_0000)) by (bit_vector);
}

/// Reads the little-endian `u16` that starts at offset `at` of `bytes`.
pub fn read_le_u16(bytes: &[u8], at: usize) -> (value: u16)
    requires
        at + 2 <= bytes@.len(),
    ensures
        value == le_u16(bytes@.subrange(at as int, at + 2)),
{
    let b0: u16 = bytes[at] as u16;
    let b1: u16 = bytes[at + 1] as u16;
    b0 + 0x100 * b1
}

/// Reads the little-endian `u32` that starts at offset `at` of `bytes`.
pub fn read_le_u32(bytes: &[u8], at: usize) -> (value: u32)
    requires
        at + 4 <= bytes@.len(),
    ensures
        value == le_u32(bytes@.subrange(at as int, at + 4)),
{
    let b0: u32 = bytes[at] as u32;
    let b1: u32 = bytes[at + 1] as u32;
    let b2: u32 = bytes[at + 2] as u32;
    let b3: u32 = bytes[at + 3] as u32;
    b0 + 0x100 * b1 + 0x1_0000 * b2 + 0x100_0000 * b3
}

/// Reads the little-endian `u64` that starts at offset `at` of `bytes`.
pub fn read_le_u64(bytes: &[u8], at: usize) -> (value: u64)
    requires
        at + 8 <= bytes@.len(),
    ensures
        value == le_u64(bytes@.subrange(at as int, at + 8)),
{
    let b0: u64 = bytes[at] as u64;
    let b1: u64 = bytes[at + 1] as u64;
    let b2: u64 = bytes[at + 2] as u64;
    let b3: u64 = bytes[at + 3] as u64;
    let b4: u64 = bytes[at + 4] as u64;
    let b5: u64 = bytes[at + 5] as u64;
    let b6: u64 = bytes[at + 6] as u64;
    let b7: u64 = bytes[at + 7] as u64;
    b0 + 0x100 * b1 + 0x1_0000 * b2 + 0x100_0000 * b3 + 0x1_0000_0000 * b4 + 0x100_0000_0000 * b5
        + 0x1_0000_0000_0000 * b6 + 0x100_0000_0000_0000 * b7
}

} // verus!
