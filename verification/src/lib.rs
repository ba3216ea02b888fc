//! Marshalling for socket handles.
//!
//! A socket handle forwards each of its operations to one system call. What
//! goes into such a call and what comes out of it has a fixed layout in
//! memory: addresses, option values, durations, return codes. This crate
//! holds that layer as functions on plain values, each with a contract:
//! what is handed to the system for a request, and what a reply means. The
//! system calls themselves are made by the code that owns the descriptor.
//!
//! The layouts and constants are those of Winsock, whose hosts store
//! integers least significant byte first.
//!
//! - [`sockaddr`] lays socket addresses out and reads them back.
//! - [`sockopt`] builds the requests that set options and interprets the
//!   answers to reading them; [`linger`] and [`keepalive`] hold the two
//!   options that are structures, and [`time`] the encoding of timeouts.
//! - [`transfer`] and [`control`] say what receiving, sending and the
//!   managing calls take, and what they return means.
//! - [`setup`] decides, call by call, how a descriptor is obtained.
//! - [`utils`] and [`layout`] hold integers in network and in host order.

use vstd::prelude::*;
use vstd::std_specs::convert::FromSpecImpl;

pub mod error;
pub mod utils;
pub mod layout;
pub mod addr;
pub mod sockaddr;
pub mod time;
pub mod linger;
pub mod keepalive;
pub mod sockopt;
pub mod setup;
pub mod control;
pub mod transfer;

pub use crate::addr::{Ipv4Addr, Ipv6Addr, SocketAddr, SocketAddrV4, SocketAddrV6};
pub use crate::control::Shutdown;
pub use crate::error::Error;
pub use crate::time::Duration;
pub use crate::utils::NetInt;
use crate::sockaddr::{AF_INET, AF_INET6};

verus! {

/// The type of a socket that carries a reliable stream of bytes.
pub const SOCK_STREAM: i32 = 1;

/// The type of a socket that carries datagrams.
pub const SOCK_DGRAM: i32 = 2;

/// The type of a socket that gives access to the protocol below.
pub const SOCK_RAW: i32 = 3;

/// The type of a socket that carries a reliable sequence of packets.
pub const SOCK_SEQPACKET: i32 = 5;

/// The address family of a socket: the communication domain that socket
/// creation takes, as the integer the system knows it by.
#[derive(Clone, Copy, Debug, PartialEq, Eq, Structural)]
pub struct Domain(i32);

/// The communication semantics of a socket, as the integer the system
/// knows them by.
#[derive(Clone, Copy, Debug, PartialEq, Eq, Structural)]
pub struct Type(i32);

/// The protocol of a socket, as the integer the system knows it by.
#[derive(Clone, Copy, Debug, PartialEq, Eq, Structural)]
pub struct Protocol(i32);

impl View for Domain {
    type V = i32;

    closed spec fn view(&self) -> i32 {
        self.0
    }
}

impl View for Type {
    type V = i32;

    closed spec fn view(&self) -> i32 {
        self.0
    }
}

impl View for Protocol {
    type V = i32;

    closed spec fn view(&self) -> i32 {
        self.0
    }
}

impl Domain {
    /// The domain of IPv4.
    pub fn ipv4() -> (d: Domain)
        ensures
            d@ == AF_INET,
    {
        Domain(AF_INET)
    }

    /// The domain of IPv6.
    pub fn ipv6() -> (d: Domain)
        ensures
            d@ == AF_INET6,
    {
        Domain(AF_INET6)
    }
}

impl Type {
    /// The type of a socket that carries a reliable stream of bytes.
    pub fn stream() -> (t: Type)
        ensures
            t@ == SOCK_STREAM,
    {
        Type(SOCK_STREAM)
    }

    /// The type of a socket that carries datagrams.
    pub fn dgram() -> (t: Type)
        ensures
            t@ == SOCK_DGRAM,
    {
        Type(SOCK_DGRAM)
    }

    /// The type of a socket that carries a reliable sequence of packets.
    pub fn seqpacket() -> (t: Type)
        ensures
            t@ == SOCK_SEQPACKET,
    {
        Type(SOCK_SEQPACKET)
    }

    /// The type of a socket that gives access to the protocol below.
    pub fn raw() -> (t: Type)
        ensures
            t@ == SOCK_RAW,
    {
        Type(SOCK_RAW)
    }
}

impl From<i32> for Domain {
    fn from(a: i32) -> (d: Domain)
        ensures
            d@ == a,
    {
        Domain(a)
    }
}

impl FromSpecImpl<i32> for Domain {
    open spec fn obeys_from_spec() -> bool {
        true
    }

    closed spec fn from_spec(a: i32) -> Domain {
        Domain(a)
    }
}

impl From<Domain> for i32 {
    fn from(a: Domain) -> (raw: i32) {
        a.0
    }
}

impl FromSpecImpl<Domain> for i32 {
    open spec fn obeys_from_spec() -> bool {
        true
    }

    open spec fn from_spec(a: Domain) -> i32 {
        a@
    }
}

impl From<i32> for Type {
    fn from(a: i32) -> (t: Type)
        ensures
            t@ == a,
    {
        Type(a)
    }
}

impl FromSpecImpl<i32> for Type {
    open spec fn obeys_from_spec() -> bool {
        true
    }

    closed spec fn from_spec(a: i32) -> Type {
        Type(a)
    }
}

impl From<Type> for i32 {
    fn from(a: Type) -> (raw: i32) {
        a.0
    }
}

impl FromSpecImpl<Type> for i32 {
    open spec fn obeys_from_spec() -> bool {
        true
    }

    open spec fn from_spec(a: Type) -> i32 {
        a@
    }
}

impl From<i32> for Protocol {
    fn from(a: i32) -> (p: Protocol)
        ensures
            p@ == a,
    {
        Protocol(a)
    }
}

impl FromSpecImpl<i32> for Protocol {
    open spec fn obeys_from_spec() -> bool {
        true
    }

    closed spec fn from_spec(a: i32) -> Protocol {
        Protocol(a)
    }
}

impl From<Protocol> for i32 {
    fn from(a: Protocol) -> (raw: i32) {
        a.0
    }
}

impl FromSpecImpl<Protocol> for i32 {
    open spec fn obeys_from_spec() -> bool {
        true
    }

    open spec fn from_spec(a: Protocol) -> i32 {
        a@
    }
}

/// Converts an integer from host to network byte order.
///
/// The result is the integer as it lies in memory and travels on the wire:
/// its bytes, most significant first.
pub fn hton<const N: usize, I: NetInt<N>>(i: I) -> (bytes: [u8; N])
    ensures
        bytes@ == i.be_bytes(),
{
    i.to_be()
}

/// Converts an integer from network to host byte order.
pub fn ntoh<const N: usize, I: NetInt<N>>(bytes: [u8; N]) -> (i: I)
    ensures
        i == I::from_be_bytes(bytes@),
{
    I::from_be(bytes)
}

/// Converting an integer to network byte order and back gives the integer,
/// and converting bytes to an integer and back gives the bytes.
pub proof fn lemma_byte_order_round_trip<const N: usize, I: NetInt<N>>(i: I, bytes: Seq<u8>)
    requires
        bytes.len() == N,
    ensures
        I::from_be_bytes(i.be_bytes()) == i,
        I::from_be_bytes(bytes).be_bytes() == bytes,
{
    I::be_bytes_round_trip(i, bytes);
}

} // verus!
