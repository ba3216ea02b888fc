//! Internet socket addresses.

use vstd::prelude::*;

verus! {

/// An IPv4 address: four octets, in the order in which they are written.
#[derive(Clone, Copy, Debug, PartialEq, Eq, Hash)]
pub struct Ipv4Addr {
    pub octets: [u8; 4],
}

/// An IPv6 address: sixteen octets, in the order in which they are written.
#[derive(Clone, Copy, Debug, PartialEq, Eq, Hash)]
pub struct Ipv6Addr {
    pub octets: [u8; 16],
}

/// An IPv4 address with a port.
#[derive(Clone, Copy, Debug, PartialEq, Eq, Hash)]
pub struct SocketAddrV4 {
    pub ip: Ipv4Addr,
    pub port: u16,
}

/// An IPv6 address with a port, a flow label and a scope.
#[derive(Clone, Copy, Debug, PartialEq, Eq, Hash)]
pub struct SocketAddrV6 {
    pub ip: Ipv6Addr,
    pub port: u16,
    pub flowinfo: u32,
    pub scope_id: u32,
}

/// The address of an internet socket, of either family.
#[derive(Clone, Copy, Debug, PartialEq, Eq, Hash)]
pub enum SocketAddr {
    V4(SocketAddrV4),
    V6(SocketAddrV6),
}

impl Ipv4Addr {
    /// The address `a.b.c.d`.
    pub fn new(a: u8, b: u8, c: u8, d: u8) -> (ip: Ipv4Addr)
        ensures
            ip.octets@ == seq![a, b, c, d],
    {
        let ip = Ipv4Addr { octets: [a, b, c, d] };
        assert(ip.octets@ =~= seq![a, b, c, d]);
        ip
    }

    /// The four octets of the address.
    pub fn octets(&self) -> (octets: [u8; 4])
        ensures
            octets == self.octets,
    {
        self.octets
    }
}

impl Ipv6Addr {
    /// The two octets of a 16-bit segment, most significant first.
    pub open spec fn segment_octets(segment: u16) -> Seq<u8> {
        seq![(segment / 0x100) as u8, (segment % 0x100) as u8]
    }

    /// The address `a:b:c:d:e:f:g:h`, of eight 16-bit segments.
    pub fn new(a: u16, b: u16, c: u16, d: u16, e: u16, f: u16, g: u16, h: u16) -> (ip: Ipv6Addr)
        ensures
            ip.octets@ == Self::segment_octets(a) + Self::segment_octets(b) + Self::segment_octets(
                c,
            ) + Self::segment_octets(d) + Self::segment_octets(e) + Self::segment_octets(f)
                + Self::segment_octets(g) + Self::segment_octets(h),
    {
        let ip = Ipv6Addr {
            octets: [
                (a / 0x100) as u8,
                (a % 0x100) as u8,
                (b / 0x100) as u8,
                (b % 0x100) as u8,
                (c / 0x100) as u8,
                (c % 0x100) as u8,
                (d / 0x100) as u8,
                (d % 0x100) as u8,
                (e / 0x100) as u8,
                (e % 0x100) as u8,
                (f / 0x100) as u8,
                (f % 0x100) as u8,
                (g / 0x100) as u8,
                (g % 0x100) as u8,
                (h / 0x100) as u8,
                (h % 0x100) as u8,
            ],
        };
        assert(ip.octets@ =~= Self::segment_octets(a) + Self::segment_octets(b)
            + Self::segment_octets(c) + Self::segment_octets(d) + Self::segment_octets(e)
            + Self::segment_octets(f) + Self::segment_octets(g) + Self::segment_octets(h));
        ip
    }

    /// The sixteen octets of the address.
    pub fn octets(&self) -> (octets: [u8; 16])
        ensures
            octets == self.octets,
    {
        self.octets
    }
}

impl SocketAddr {
    /// The IPv4 address 0.0.0.0 with port 0, which names no socket.
    pub open spec fn unspecified_value() -> SocketAddr {
        SocketAddr::V4(SocketAddrV4 { ip: Ipv4Addr { octets: [0u8, 0u8, 0u8, 0u8] }, port: 0 })
    }

    /// The IPv4 address 0.0.0.0 with port 0, which names no socket.
    pub fn unspecified() -> (addr: SocketAddr)
        ensures
            addr == Self::unspecified_value(),
    {
        SocketAddr::V4(SocketAddrV4 { ip: Ipv4Addr { octets: [0u8, 0u8, 0u8, 0u8] }, port: 0 })
    }
}

impl SocketAddrV4 {
    /// The socket address of `ip` and `port`.
    pub fn new(ip: Ipv4Addr, port: u16) -> (addr: SocketAddrV4)
        ensures
            addr == (SocketAddrV4 { ip, port }),
    {
        SocketAddrV4 { ip, port }
    }
}

impl SocketAddrV6 {
    /// The socket address of `ip` and `port`, with a flow label and a scope.
    pub fn new(ip: Ipv6Addr, port: u16, flowinfo: u32, scope_id: u32) -> (addr: SocketAddrV6)
        ensures
            addr == (SocketAddrV6 { ip, port, flowinfo, scope_id }),
    {
        SocketAddrV6 { ip, port, flowinfo, scope_id }
    }
}

} // verus!
