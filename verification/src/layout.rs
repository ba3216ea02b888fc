//! Integers as Winsock lays them out in memory.
//!
//! Fields in host order are stored least significant byte first.

use vstd::prelude::*;

verus! {

/// The two bytes of `x`, least significant first.
pub open spec fn le16(x: u16) -> Seq<u8> {
    seq![(x % 0x100) as u8, (x / 0x100) as u8]
}

/// The four bytes of `x`, least significant first.
pub open spec fn le32(x: u32) -> Seq<u8> {
    seq![
        (x % 0x100) as u8,
        (x / 0x100 % 0x100) as u8,
        (x / 0x1_0000 % 0x100) as u8,
        (x / 0x100_0000) as u8,
    ]
}

/// The integer whose two bytes, least significant first, start at `at`.
pub open spec fn le16_at(bytes: Seq<u8>, at: int) -> u16 {
    (bytes[at] + bytes[at + 1] * 0x100) as u16
}

/// The integer whose four bytes, least significant first, start at `at`.
pub open spec fn le32_at(bytes: Seq<u8>, at: int) -> u32 {
    (bytes[at] + bytes[at + 1] * 0x100 + bytes[at + 2] * 0x1_0000 + bytes[at + 3]
        * 0x100_0000) as u32
}

/// Lays `x` out in host order.
pub fn to_le16(x: u16) -> (bytes: [u8; 2])
    ensures
        bytes@ == le16(x),
{
    let bytes = [(x % 0x100) as u8, (x / 0x100) as u8];
    assert(bytes@ =~= le16(x));
    bytes
}

/// Lays `x` out in host order.
pub fn to_le32(x: u32) -> (bytes: [u8; 4])
    ensures
        bytes@ == le32(x),
{
    let bytes = [
        (x % 0x100) as u8,
        (x / 0x100 % 0x100) as u8,
        (x / 0x1_0000 % 0x100) as u8,
        (x / 0x100_0000) as u8,
    ];
    assert(bytes@ =~= le32(x));
    bytes
}

/// Reads the integer that lies in host order at `at`.
pub fn read_le16(bytes: &[u8], at: usize) -> (x: u16)
    requires
        at + 2 <= bytes@.len(),
    ensures
        x == le16_at(bytes@, at as int),
{
    bytes[at] as u16 + bytes[at + 1] as u16 * 0x100
}

/// Reads the integer that lies in host order at `at`.
pub fn read_le32(bytes: &[u8], at: usize) -> (x: u32)
    requires
        at + 4 <= bytes@.len(),
    ensures
        x == le32_at(bytes@, at as int),
{
    bytes[at] as u32 + bytes[at + 1] as u32 * 0x100 + bytes[at + 2] as u32 * 0x1_0000 + bytes[at
        + 3] as u32 * 0x100_0000
}

/// The signed integer with the bit pattern of `x`.
pub open spec fn signed(x: u32) -> i32 {
    if x < 0x8000_0000 {
        x as i32
    } else {
        (x - 0x1_0000_0000) as i32
    }
}

/// The 32-bit integer with the bit pattern of `x` as a signed integer.
pub fn to_signed(x: u32) -> (i: i32)
    ensures
        i == signed(x),
{
    if x < 0x8000_0000 {
        x as i32
    } else {
        (x - 0x8000_0000) as i32 - 0x7fff_ffff - 1
    }
}

/// A signed 32-bit integer widened to a size: a negative one keeps its bit
/// pattern and fills the bits above it.
pub open spec fn widened(i: i32) -> usize {
    if i >= 0 {
        i as usize
    } else {
        (usize::MAX + 1 + i) as usize
    }
}

/// Widens a signed 32-bit integer to a size.
pub fn to_widened(i: i32) -> (n: usize)
    ensures
        n == widened(i),
{
    if i >= 0 {
        i as usize
    } else {
        usize::MAX - (-(i + 1)) as usize
    }
}

/// An integer is the sum of its bytes, each at its place.
pub proof fn lemma_le16_parts(x: u16)
    ensures
        x % 0x100 + (x / 0x100) * 0x100 == x,
        x % 0x100 < 0x100,
        x / 0x100 < 0x100,
{
    assert(x % 0x100 + (x / 0x100) * 0x100 == x && x % 0x100 < 0x100 && x / 0x100 < 0x100)
        by (bit_vector);
}

/// An integer is the sum of its bytes, each at its place.
pub proof fn lemma_le32_parts(x: u32)
    ensures
        x % 0x100 + (x / 0x100 % 0x100) * 0x100 + (x / 0x1_0000 % 0x100) * 0x1_0000 + (x
            / 0x100_0000) * 0x100_0000 == x,
        x % 0x100 < 0x100,
        x / 0x100 % 0x100 < 0x100,
        x / 0x1_0000 % 0x100 < 0x100,
        x / 0x100_0000 < 0x100,
{
    assert(x % 0x100 + (x / 0x100 % 0x100) * 0x100 + (x / 0x1_0000 % 0x100) * 0x1_0000 + (x
        / 0x100_0000) * 0x100_0000 == x && x % 0x100 < 0x100 && x / 0x100 % 0x100 < 0x100 && x
        / 0x1_0000 % 0x100 < 0x100 && x / 0x100_0000 < 0x100) by (bit_vector);
}

/// Where an integer was laid out in host order, it is read back.
pub proof fn lemma_le16_at(bytes: Seq<u8>, at: int, x: u16)
    requires
        0 <= at,
        at + 2 <= bytes.len(),
        bytes.subrange(at, at + 2) == le16(x),
    ensures
        le16_at(bytes, at) == x,
{
    lemma_le16_parts(x);
    let part = bytes.subrange(at, at + 2);
    assert(bytes[at] == part[0] && bytes[at + 1] == part[1]);
    assert(part[0] == (x % 0x100) as u8 && part[1] == (x / 0x100) as u8);
}

/// Where an integer was laid out in host order, it is read back.
pub proof fn lemma_le32_at(bytes: Seq<u8>, at: int, x: u32)
    requires
        0 <= at,
        at + 4 <= bytes.len(),
        bytes.subrange(at, at + 4) == le32(x),
    ensures
        le32_at(bytes, at) == x,
{
    lemma_le32_parts(x);
    let part = bytes.subrange(at, at + 4);
    assert(bytes[at] == part[0] && bytes[at + 1] == part[1] && bytes[at + 2] == part[2] && bytes[at
        + 3] == part[3]);
    assert(part[0] == (x % 0x100) as u8 && part[1] == (x / 0x100 % 0x100) as u8 && part[2] == (x
        / 0x1_0000 % 0x100) as u8 && part[3] == (x / 0x100_0000) as u8);
}

/// Laying out the integer that was read at a place gives the bytes of
/// that place.
pub proof fn lemma_le16_of_bytes(bytes: Seq<u8>, at: int)
    requires
        0 <= at,
        at + 2 <= bytes.len(),
    ensures
        le16(le16_at(bytes, at)) == bytes.subrange(at, at + 2),
{
    let (b0, b1) = (bytes[at] as u16, bytes[at + 1] as u16);
    let x = le16_at(bytes, at);
    assert(x == b0 + b1 * 0x100);
    assert(x % 0x100 == b0 && x / 0x100 == b1) by (bit_vector)
        requires
            b0 < 0x100,
            b1 < 0x100,
            x == b0 + b1 * 0x100,
    ;
    assert(le16(x) =~= bytes.subrange(at, at + 2));
}

/// Laying out the integer that was read at a place gives the bytes of
/// that place.
pub proof fn lemma_le32_of_bytes(bytes: Seq<u8>, at: int)
    requires
        0 <= at,
        at + 4 <= bytes.len(),
    ensures
        le32(le32_at(bytes, at)) == bytes.subrange(at, at + 4),
{
    let (b0, b1, b2, b3) = (
        bytes[at] as u32,
        bytes[at + 1] as u32,
        bytes[at + 2] as u32,
        bytes[at + 3] as u32,
    );
    let x = le32_at(bytes, at);
    assert(x == b0 + b1 * 0x100 + b2 * 0x1_0000 + b3 * 0x100_0000);
    assert(x % 0x100 == b0 && x / 0x100 % 0x100 == b1 && x / 0x1_0000 % 0x100 == b2 && x
        / 0x100_0000 == b3) by (bit_vector)
        requires
            b0 < 0x100,
            b1 < 0x100,
            b2 < 0x100,
            b3 < 0x100,
            x == b0 + b1 * 0x100 + b2 * 0x1_0000 + b3 * 0x100_0000,
    ;
    assert(le32(x) =~= bytes.subrange(at, at + 4));
}

/// Reading an integer back from where it was laid out gives the integer.
pub proof fn lemma_le_round_trip(x16: u16, x32: u32)
    ensures
        le16(x16).len() == 2,
        le32(x32).len() == 4,
        le16_at(le16(x16), 0) == x16,
        le32_at(le32(x32), 0) == x32,
{
    assert(le16(x16).subrange(0, 2) =~= le16(x16));
    assert(le32(x32).subrange(0, 4) =~= le32(x32));
    lemma_le16_at(le16(x16), 0, x16);
    lemma_le32_at(le32(x32), 0, x32);
}

} // verus!
