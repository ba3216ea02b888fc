//! Integers in network byte order.

use vstd::prelude::*;

verus! {

/// The two bytes of `x`, most significant first.
pub open spec fn be16(x: u16) -> Seq<u8> {
    seq![(x / 0x100) as u8, (x % 0x100) as u8]
}

/// The four bytes of `x`, most significant first.
pub open spec fn be32(x: u32) -> Seq<u8> {
    seq![
        (x / 0x100_0000) as u8,
        (x / 0x1_0000 % 0x100) as u8,
        (x / 0x100 % 0x100) as u8,
        (x % 0x100) as u8,
    ]
}

/// The integer that two bytes spell, most significant first.
pub open spec fn be16_value(bytes: Seq<u8>) -> u16 {
    (bytes[0] * 0x100 + bytes[1]) as u16
}

/// The integer that four bytes spell, most significant first.
pub open spec fn be32_value(bytes: Seq<u8>) -> u32 {
    (bytes[0] * 0x100_0000 + bytes[1] * 0x1_0000 + bytes[2] * 0x100 + bytes[3]) as u32
}

/// The integer that four octets spell, most significant first, has those
/// octets as its big-endian bytes.
pub proof fn lemma_be32_of_octets(a: u8, b: u8, c: u8, d: u8)
    ensures
        be32(be32_value(seq![a, b, c, d])) == seq![a, b, c, d],
        be32_value(seq![a, b, c, d]) == a * 0x100_0000 + b * 0x1_0000 + c * 0x100 + d,
{
    let x: u32 = be32_value(seq![a, b, c, d]);
    let (a32, b32, c32, d32) = (a as u32, b as u32, c as u32, d as u32);
    assert(x == a32 * 0x100_0000 + b32 * 0x1_0000 + c32 * 0x100 + d32);
    assert(x / 0x100_0000 == a32 && x / 0x1_0000 % 0x100 == b32 && x / 0x100 % 0x100 == c32 && x
        % 0x100 == d32) by (bit_vector)
        requires
            a32 < 0x100,
            b32 < 0x100,
            c32 < 0x100,
            d32 < 0x100,
            x == a32 * 0x100_0000 + b32 * 0x1_0000 + c32 * 0x100 + d32,
    ;
    assert(be32(x) =~= seq![a, b, c, d]);
}

/// An integer is what its big-endian bytes spell.
pub proof fn lemma_be32_value_of_bytes(x: u32)
    ensures
        be32_value(be32(x)) == x,
{
    assert(x == (x / 0x100_0000) * 0x100_0000 + (x / 0x1_0000 % 0x100) * 0x1_0000 + (x / 0x100
        % 0x100) * 0x100 + x % 0x100 && x / 0x100_0000 < 0x100 && x / 0x1_0000 % 0x100 < 0x100
        && x / 0x100 % 0x100 < 0x100 && x % 0x100 < 0x100) by (bit_vector);
}

/// An integer that travels in network byte order.
///
/// `N` is the integer's width in bytes. A value in network byte order is
/// held as its `N` bytes, in the order in which they lie in memory and on
/// the wire, so that nothing depends on the byte order of the host.
pub trait NetInt<const N: usize>: Sized {
    /// The big-endian encoding of the integer: `N` bytes, most significant
    /// first.
    spec fn be_bytes(self) -> Seq<u8>;

    /// The integer that `N` bytes spell, most significant first.
    spec fn from_be_bytes(bytes: Seq<u8>) -> Self;

    /// Encoding and decoding undo each other.
    proof fn be_bytes_round_trip(i: Self, bytes: Seq<u8>)
        ensures
            i.be_bytes().len() == N,
            Self::from_be_bytes(i.be_bytes()) == i,
            bytes.len() == N ==> Self::from_be_bytes(bytes).be_bytes() == bytes,
    ;

    /// Encodes the integer in network byte order.
    fn to_be(self) -> (bytes: [u8; N])
        ensures
            bytes@ == self.be_bytes(),
    ;

    /// Decodes an integer from network byte order.
    fn from_be(bytes: [u8; N]) -> (i: Self)
        ensures
            i == Self::from_be_bytes(bytes@),
    ;
}

impl NetInt<2> for u16 {
    open spec fn be_bytes(self) -> Seq<u8> {
        be16(self)
    }

    open spec fn from_be_bytes(bytes: Seq<u8>) -> u16 {
        be16_value(bytes)
    }

    proof fn be_bytes_round_trip(i: u16, bytes: Seq<u8>) {
        assert(i / 0x100 * 0x100 + i % 0x100 == i && i / 0x100 < 0x100 && i % 0x100 < 0x100)
            by (bit_vector);
        if bytes.len() == 2 {
            let (hi, lo) = (bytes[0] as u16, bytes[1] as u16);
            let x = be16_value(bytes);
            assert(x == hi * 0x100 + lo);
            assert(x / 0x100 == hi && x % 0x100 == lo) by (bit_vector)
                requires
                    hi < 0x100,
                    lo < 0x100,
                    x == hi * 0x100 + lo,
            ;
            assert(be16(x) =~= bytes);
        }
    }

    fn to_be(self) -> (bytes: [u8; 2]) {
        let bytes = [(self / 0x100) as u8, (self % 0x100) as u8];
        assert(bytes@ =~= be16(self));
        bytes
    }

    fn from_be(bytes: [u8; 2]) -> (i: u16) {
        bytes[0] as u16 * 0x100 + bytes[1] as u16
    }
}

impl NetInt<4> for u32 {
    open spec fn be_bytes(self) -> Seq<u8> {
        be32(self)
    }

    open spec fn from_be_bytes(bytes: Seq<u8>) -> u32 {
        be32_value(bytes)
    }

    proof fn be_bytes_round_trip(i: u32, bytes: Seq<u8>) {
        lemma_be32_value_of_bytes(i);
        if bytes.len() == 4 {
            lemma_be32_of_octets(bytes[0], bytes[1], bytes[2], bytes[3]);
            assert(seq![bytes[0], bytes[1], bytes[2], bytes[3]] =~= bytes);
        }
    }

    fn to_be(self) -> (bytes: [u8; 4]) {
        let bytes = [
            (self / 0x100_0000) as u8,
            (self / 0x1_0000 % 0x100) as u8,
            (self / 0x100 % 0x100) as u8,
            (self % 0x100) as u8,
        ];
        assert(bytes@ =~= be32(self));
        bytes
    }

    fn from_be(bytes: [u8; 4]) -> (i: u32) {
        bytes[0] as u32 * 0x100_0000 + bytes[1] as u32 * 0x1_0000 + bytes[2] as u32 * 0x100
            + bytes[3] as u32
    }
}

} // verus!
