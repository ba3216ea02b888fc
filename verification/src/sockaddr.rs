//! Socket addresses in the layout that the system calls take and fill.
//!
//! An IPv4 address travels as a `sockaddr_in` of 16 bytes: the family in
//! host order, the port in network order, the four octets, and eight bytes
//! of padding. An IPv6 address travels as a `sockaddr_in6` of 28 bytes: the
//! family, the port in network order, the flow label in host order, the
//! sixteen octets, and the scope in host order. The system fills a
//! `sockaddr_storage` of 128 bytes, which is large enough for either.

use vstd::prelude::*;
use crate::addr::{Ipv4Addr, Ipv6Addr, SocketAddr, SocketAddrV4, SocketAddrV6};
use crate::error::Error;
use crate::layout::{
    le16, le16_at, le32, le32_at, lemma_le16_at, lemma_le16_of_bytes, lemma_le32_at,
    lemma_le32_of_bytes, read_le16, read_le32, to_le16, to_le32,
};
use crate::utils::{be16, be16_value, lemma_be32_of_octets, NetInt};
use crate::{hton, ntoh};

verus! {

/// The address family of IPv4.
pub const AF_INET: i32 = 2;

/// The address family of IPv6.
pub const AF_INET6: i32 = 23;

/// The size of a `sockaddr_in`.
pub const SOCKADDR_IN_LEN: usize = 16;

/// The size of a `sockaddr_in6`.
pub const SOCKADDR_IN6_LEN: usize = 28;

/// The size of a `sockaddr_storage`.
pub const SOCKADDR_STORAGE_LEN: usize = 128;

/// The `sockaddr_in` of an IPv4 socket address.
pub open spec fn sockaddr_in(addr: SocketAddrV4) -> Seq<u8> {
    le16(AF_INET as u16) + be16(addr.port) + addr.ip.octets@ + Seq::new(8, |i: int| 0u8)
}

/// The `sockaddr_in6` of an IPv6 socket address.
pub open spec fn sockaddr_in6(addr: SocketAddrV6) -> Seq<u8> {
    le16(AF_INET6 as u16) + be16(addr.port) + le32(addr.flowinfo) + addr.ip.octets@ + le32(
        addr.scope_id,
    )
}

/// The raw form of a socket address.
pub open spec fn raw_addr(addr: SocketAddr) -> Seq<u8> {
    match addr {
        SocketAddr::V4(a) => sockaddr_in(a),
        SocketAddr::V6(a) => sockaddr_in6(a),
    }
}

/// The address family that a raw address names.
pub open spec fn raw_family(storage: Seq<u8>) -> int {
    le16_at(storage, 0) as int
}

/// The IPv4 socket address that a `sockaddr_in` holds.
pub open spec fn sockaddr_in_value(storage: Seq<u8>) -> SocketAddrV4 {
    SocketAddrV4 {
        ip: Ipv4Addr { octets: [storage[4], storage[5], storage[6], storage[7]] },
        port: be16_value(storage.subrange(2, 4)),
    }
}

/// The IPv6 socket address that a `sockaddr_in6` holds.
pub open spec fn sockaddr_in6_value(storage: Seq<u8>) -> SocketAddrV6 {
    SocketAddrV6 {
        ip: Ipv6Addr {
            octets: [
                storage[8],
                storage[9],
                storage[10],
                storage[11],
                storage[12],
                storage[13],
                storage[14],
                storage[15],
                storage[16],
                storage[17],
                storage[18],
                storage[19],
                storage[20],
                storage[21],
                storage[22],
                storage[23],
            ],
        },
        port: be16_value(storage.subrange(2, 4)),
        flowinfo: le32_at(storage, 4),
        scope_id: le32_at(storage, 24),
    }
}

/// What a raw address decodes to: the address it holds, or the refusal of
/// a family that is neither IPv4 nor IPv6.
pub open spec fn raw_addr_value(storage: Seq<u8>) -> Result<SocketAddr, Error> {
    if raw_family(storage) == AF_INET {
        Ok(SocketAddr::V4(sockaddr_in_value(storage)))
    } else if raw_family(storage) == AF_INET6 {
        Ok(SocketAddr::V6(sockaddr_in6_value(storage)))
    } else {
        Err(Error::UnsupportedFamily)
    }
}

/// Whether `len` bytes are enough for the address whose family the storage
/// names.
pub open spec fn raw_addr_fits(storage: Seq<u8>, len: int) -> bool {
    &&& raw_family(storage) == AF_INET ==> len >= SOCKADDR_IN_LEN
    &&& raw_family(storage) == AF_INET6 ==> len >= SOCKADDR_IN6_LEN
}

/// Lays a socket address out as the system calls take it. The length of
/// the result is the length to hand to the call.
pub fn addr2raw(addr: &SocketAddr) -> (raw: Vec<u8>)
    ensures
        raw@ == raw_addr(*addr),
        raw@.len() == match *addr {
            SocketAddr::V4(_) => SOCKADDR_IN_LEN,
            SocketAddr::V6(_) => SOCKADDR_IN6_LEN,
        },
{
    match *addr {
        SocketAddr::V4(a) => {
            let family = to_le16(AF_INET as u16);
            let port: [u8; 2] = hton(a.port);
            let ip = a.ip.octets;
            let raw = vec![
                family[0],
                family[1],
                port[0],
                port[1],
                ip[0],
                ip[1],
                ip[2],
                ip[3],
                0u8,
                0u8,
                0u8,
                0u8,
                0u8,
                0u8,
                0u8,
                0u8,
            ];
            assert(raw@ =~= sockaddr_in(a));
            raw
        },
        SocketAddr::V6(a) => {
            let family = to_le16(AF_INET6 as u16);
            let port: [u8; 2] = hton(a.port);
            let flowinfo = to_le32(a.flowinfo);
            let ip = a.ip.octets;
            let scope_id = to_le32(a.scope_id);
            let raw = vec![
                family[0],
                family[1],
                port[0],
                port[1],
                flowinfo[0],
                flowinfo[1],
                flowinfo[2],
                flowinfo[3],
                ip[0],
                ip[1],
                ip[2],
                ip[3],
                ip[4],
                ip[5],
                ip[6],
                ip[7],
                ip[8],
                ip[9],
                ip[10],
                ip[11],
                ip[12],
                ip[13],
                ip[14],
                ip[15],
                scope_id[0],
                scope_id[1],
                scope_id[2],
                scope_id[3],
            ];
            assert(raw@ =~= sockaddr_in6(a));
            raw
        },
    }
}

/// Whether the length that the system reported is enough for the address
/// whose family it stored.
pub fn raw_addr_len_ok(storage: &[u8; SOCKADDR_STORAGE_LEN], len: i32) -> (ok: bool)
    ensures
        ok == raw_addr_fits(storage@, len as int),
{
    let family = read_le16(storage.as_slice(), 0) as i32;
    if family == AF_INET {
        len >= SOCKADDR_IN_LEN as i32
    } else if family == AF_INET6 {
        len >= SOCKADDR_IN6_LEN as i32
    } else {
        true
    }
}

/// Reads the socket address that storage holds, whatever length was
/// reported for it.
pub(crate) fn read_addr(storage: &[u8; SOCKADDR_STORAGE_LEN]) -> (addr: Result<SocketAddr, Error>)
    ensures
        addr == raw_addr_value(storage@),
{
    let family = read_le16(storage.as_slice(), 0) as i32;
    if family == AF_INET {
        let port: u16 = ntoh([storage[2], storage[3]]);
        assert([storage[2], storage[3]]@ =~= storage@.subrange(2, 4));
        let ip = Ipv4Addr { octets: [storage[4], storage[5], storage[6], storage[7]] };
        Ok(SocketAddr::V4(SocketAddrV4 { ip, port }))
    } else if family == AF_INET6 {
        let port: u16 = ntoh([storage[2], storage[3]]);
        assert([storage[2], storage[3]]@ =~= storage@.subrange(2, 4));
        let flowinfo = read_le32(storage.as_slice(), 4);
        let ip = Ipv6Addr {
            octets: [
                storage[8],
                storage[9],
                storage[10],
                storage[11],
                storage[12],
                storage[13],
                storage[14],
                storage[15],
                storage[16],
                storage[17],
                storage[18],
                storage[19],
                storage[20],
                storage[21],
                storage[22],
                storage[23],
            ],
        };
        let scope_id = read_le32(storage.as_slice(), 24);
        Ok(SocketAddr::V6(SocketAddrV6 { ip, port, flowinfo, scope_id }))
    } else {
        Err(Error::UnsupportedFamily)
    }
}

/// Reads the socket address that the system stored. `len` is the length
/// that the system reported for it, which must be enough for the address
/// whose family it stored.
///
/// A family other than IPv4 and IPv6 is refused as an invalid input.
pub fn raw2addr(storage: &[u8; SOCKADDR_STORAGE_LEN], len: i32) -> (addr: Result<
    SocketAddr,
    Error,
>)
    requires
        raw_addr_fits(storage@, len as int),
    ensures
        addr == raw_addr_value(storage@),
        addr is Err <==> raw_family(storage@) != AF_INET && raw_family(storage@) != AF_INET6,
{
    read_addr(storage)
}

/// The four bytes of an `in_addr`: the address as one integer in network
/// order, which is its octets as they are written.
pub fn to_s_addr(addr: &Ipv4Addr) -> (s_addr: [u8; 4])
    ensures
        s_addr@ == addr.octets@,
{
    let octets = addr.octets;
    let bits: u32 = octets[0] as u32 * 0x100_0000 + octets[1] as u32 * 0x1_0000 + octets[2] as u32
        * 0x100 + octets[3] as u32;
    let s_addr: [u8; 4] = hton(bits);
    proof {
        lemma_be32_of_octets(octets[0], octets[1], octets[2], octets[3]);
        assert(s_addr@ =~= addr.octets@);
    }
    s_addr
}

/// The sixteen bytes of an `in6_addr`: the octets as they are written.
pub fn to_in6_addr(addr: &Ipv6Addr) -> (s6_addr: [u8; 16])
    ensures
        s6_addr@ == addr.octets@,
{
    addr.octets
}

proof fn lemma_sockaddr_in_round_trip(a: SocketAddrV4, storage: Seq<u8>)
    requires
        16 <= storage.len(),
        storage.subrange(0, 16) == sockaddr_in(a),
    ensures
        raw_family(storage) == AF_INET,
        sockaddr_in_value(storage) == a,
{
    let raw = sockaddr_in(a);
    assert forall|i: int| 0 <= i < 16 implies storage[i] == raw[i] by {
        assert(storage.subrange(0, 16)[i] == storage[i]);
    }
    assert(storage.subrange(0, 2) =~= le16(AF_INET as u16));
    lemma_le16_at(storage, 0, AF_INET as u16);
    assert(storage.subrange(2, 4) =~= be16(a.port));
    u16::be_bytes_round_trip(a.port, be16(a.port));
    let b = sockaddr_in_value(storage);
    assert(b.ip.octets@ =~= a.ip.octets@);
    assert(b.ip.octets =~= a.ip.octets);
}

proof fn lemma_sockaddr_in6_round_trip(a: SocketAddrV6, storage: Seq<u8>)
    requires
        28 <= storage.len(),
        storage.subrange(0, 28) == sockaddr_in6(a),
    ensures
        raw_family(storage) == AF_INET6,
        sockaddr_in6_value(storage) == a,
{
    let raw = sockaddr_in6(a);
    assert forall|i: int| 0 <= i < 28 implies storage[i] == raw[i] by {
        assert(storage.subrange(0, 28)[i] == storage[i]);
    }
    assert(storage.subrange(0, 2) =~= le16(AF_INET6 as u16));
    lemma_le16_at(storage, 0, AF_INET6 as u16);
    assert(storage.subrange(2, 4) =~= be16(a.port));
    u16::be_bytes_round_trip(a.port, be16(a.port));
    assert(storage.subrange(4, 8) =~= le32(a.flowinfo));
    lemma_le32_at(storage, 4, a.flowinfo);
    assert(storage.subrange(24, 28) =~= le32(a.scope_id));
    lemma_le32_at(storage, 24, a.scope_id);
    let b = sockaddr_in6_value(storage);
    assert(b.ip.octets@ =~= a.ip.octets@);
    assert(b.ip.octets =~= a.ip.octets);
}

/// Laying an address out and reading it back gives the address: whatever
/// storage starts with the raw form of a socket address decodes to that
/// address, flow label and scope included, and the length of the raw form
/// is enough to read it.
pub proof fn lemma_raw_addr_round_trip(addr: SocketAddr, storage: Seq<u8>)
    requires
        raw_addr(addr).len() <= storage.len(),
        storage.subrange(0, raw_addr(addr).len() as int) == raw_addr(addr),
    ensures
        raw_addr_value(storage) == Ok::<SocketAddr, Error>(addr),
        raw_addr_fits(storage, raw_addr(addr).len() as int),
{
    match addr {
        SocketAddr::V4(a) => {
            assert(sockaddr_in(a).len() == 16);
            lemma_sockaddr_in_round_trip(a, storage);
        },
        SocketAddr::V6(a) => {
            assert(sockaddr_in6(a).len() == 28);
            lemma_sockaddr_in6_round_trip(a, storage);
        },
    }
}

/// Reading an address and laying it out again gives back what was read:
/// the raw form of the address that storage decodes to is the start of
/// that storage, but for the padding of an IPv4 address, which is not
/// read and is laid out as zeros.
pub proof fn lemma_raw_addr_round_trip_back(storage: Seq<u8>)
    requires
        storage.len() >= SOCKADDR_IN6_LEN,
    ensures
        match raw_addr_value(storage) {
            Ok(SocketAddr::V4(a)) => sockaddr_in(a).subrange(0, 8) == storage.subrange(0, 8)
                && sockaddr_in(a).subrange(8, 16) == Seq::new(8, |i: int| 0u8),
            Ok(SocketAddr::V6(a)) => sockaddr_in6(a) == storage.subrange(0, 28),
            Err(e) => e == Error::UnsupportedFamily && raw_family(storage) != AF_INET
                && raw_family(storage) != AF_INET6,
        },
{
    lemma_le16_of_bytes(storage, 0);
    u16::be_bytes_round_trip(0, storage.subrange(2, 4));
    if raw_family(storage) == AF_INET {
        let a = sockaddr_in_value(storage);
        assert(le16(AF_INET as u16) == storage.subrange(0, 2));
        assert(be16(a.port) == storage.subrange(2, 4));
        assert(a.ip.octets@ =~= storage.subrange(4, 8));
        assert(sockaddr_in(a).subrange(0, 8) =~= storage.subrange(0, 2) + storage.subrange(2, 4)
            + storage.subrange(4, 8));
        assert(storage.subrange(0, 2) + storage.subrange(2, 4) + storage.subrange(4, 8)
            =~= storage.subrange(0, 8));
        assert(sockaddr_in(a).subrange(8, 16) =~= Seq::new(8, |i: int| 0u8));
    } else if raw_family(storage) == AF_INET6 {
        let a = sockaddr_in6_value(storage);
        lemma_le32_of_bytes(storage, 4);
        lemma_le32_of_bytes(storage, 24);
        assert(le16(AF_INET6 as u16) == storage.subrange(0, 2));
        assert(be16(a.port) == storage.subrange(2, 4));
        assert(a.ip.octets@ =~= storage.subrange(8, 24));
        assert(sockaddr_in6(a) =~= storage.subrange(0, 2) + storage.subrange(2, 4)
            + storage.subrange(4, 8) + storage.subrange(8, 24) + storage.subrange(24, 28));
        assert(storage.subrange(0, 2) + storage.subrange(2, 4) + storage.subrange(4, 8)
            + storage.subrange(8, 24) + storage.subrange(24, 28) =~= storage.subrange(0, 28));
    }
}

} // verus!
