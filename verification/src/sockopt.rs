//! Socket options: what is handed to the system to set one, and what the
//! system's answer to reading one means.
//!
//! An option is named by a level and a number, and its value is a small
//! structure of fixed size that is copied in and out as it lies in memory.

use vstd::prelude::*;
use crate::addr::{Ipv4Addr, Ipv6Addr};
use crate::error::Error;
use crate::layout::{
    le32, le32_at, lemma_le_round_trip, read_le32, signed, to_le32, to_signed, to_widened, widened,
};
use crate::linger::{
    dur2linger, lemma_linger_round_trip, linger2dur, linger_of, linger_value, Linger,
};
use crate::sockaddr::{to_in6_addr, to_s_addr};
use crate::time::{
    dur2ms, lemma_timeout_round_trip, millis_value, ms2dur, timeout_millis, timeout_value, Duration,
    INFINITE, NANOS_PER_MILLI, NANOS_PER_SEC,
};

verus! {

/// The level of the options of the socket itself.
pub const SOL_SOCKET: i32 = 0xffff;

/// The level of the options of IPv4.
pub const IPPROTO_IP: i32 = 0;

/// The level of the options of TCP.
pub const IPPROTO_TCP: i32 = 6;

/// The level of the options of IPv6.
pub const IPPROTO_IPV6: i32 = 41;

/// Whether binding to an address in use is allowed.
pub const SO_REUSEADDR: i32 = 0x0004;

/// Whether sending to a broadcast address is allowed.
pub const SO_BROADCAST: i32 = 0x0020;

/// Whether, and for how long, closing waits for pending writes.
pub const SO_LINGER: i32 = 0x0080;

/// The size of the send buffer.
pub const SO_SNDBUF: i32 = 0x1001;

/// The size of the receive buffer.
pub const SO_RCVBUF: i32 = 0x1002;

/// The timeout of sends, in milliseconds.
pub const SO_SNDTIMEO: i32 = 0x1005;

/// The timeout of receives, in milliseconds.
pub const SO_RCVTIMEO: i32 = 0x1006;

/// The error that is pending on the socket; reading it clears it.
pub const SO_ERROR: i32 = 0x1007;

/// Whether small segments are sent without delay.
pub const TCP_NODELAY: i32 = 0x0001;

/// The time-to-live of outgoing packets.
pub const IP_TTL: i32 = 4;

/// The time-to-live of outgoing multicast packets.
pub const IP_MULTICAST_TTL: i32 = 10;

/// Whether multicast packets loop back to the sender.
pub const IP_MULTICAST_LOOP: i32 = 11;

/// Joins a multicast group.
pub const IP_ADD_MEMBERSHIP: i32 = 12;

/// Leaves a multicast group.
pub const IP_DROP_MEMBERSHIP: i32 = 13;

/// Whether IPv6 multicast packets loop back to the sender.
pub const IPV6_MULTICAST_LOOP: i32 = 11;

/// Joins an IPv6 multicast group.
pub const IPV6_ADD_MEMBERSHIP: i32 = 12;

/// Leaves an IPv6 multicast group.
pub const IPV6_DROP_MEMBERSHIP: i32 = 13;

/// Whether an IPv6 socket refuses IPv4 traffic.
pub const IPV6_V6ONLY: i32 = 27;

/// The options that a socket handle sets and reads.
#[derive(Clone, Copy, Debug, PartialEq, Eq, Structural)]
pub enum SockOpt {
    /// The time-to-live of outgoing IPv4 packets.
    Ttl,
    /// Whether an IPv6 socket refuses IPv4 traffic.
    OnlyV6,
    /// The timeout of reads.
    ReadTimeout,
    /// The timeout of writes.
    WriteTimeout,
    /// Whether small TCP segments are sent without delay.
    NoDelay,
    /// Whether sending to a broadcast address is allowed.
    Broadcast,
    /// Whether IPv4 multicast packets loop back.
    MulticastLoopV4,
    /// The time-to-live of outgoing IPv4 multicast packets.
    MulticastTtlV4,
    /// Whether IPv6 multicast packets loop back.
    MulticastLoopV6,
    /// Membership of an IPv4 multicast group, to be taken up.
    JoinMulticastV4,
    /// Membership of an IPv6 multicast group, to be taken up.
    JoinMulticastV6,
    /// Membership of an IPv4 multicast group, to be given up.
    LeaveMulticastV4,
    /// Membership of an IPv6 multicast group, to be given up.
    LeaveMulticastV6,
    /// Whether, and for how long, closing waits for pending writes.
    Linger,
    /// Whether binding to an address in use is allowed.
    ReuseAddress,
    /// The size of the receive buffer.
    RecvBufferSize,
    /// The size of the send buffer.
    SendBufferSize,
    /// The error that is pending on the socket.
    Error,
}

impl SockOpt {
    /// The level at which the system knows the option.
    pub open spec fn level_of(self) -> i32 {
        match self {
            SockOpt::Ttl => IPPROTO_IP,
            SockOpt::OnlyV6 => IPPROTO_IPV6,
            SockOpt::ReadTimeout => SOL_SOCKET,
            SockOpt::WriteTimeout => SOL_SOCKET,
            SockOpt::NoDelay => IPPROTO_TCP,
            SockOpt::Broadcast => SOL_SOCKET,
            SockOpt::MulticastLoopV4 => IPPROTO_IP,
            SockOpt::MulticastTtlV4 => IPPROTO_IP,
            SockOpt::MulticastLoopV6 => IPPROTO_IPV6,
            SockOpt::JoinMulticastV4 => IPPROTO_IP,
            SockOpt::JoinMulticastV6 => IPPROTO_IPV6,
            SockOpt::LeaveMulticastV4 => IPPROTO_IP,
            SockOpt::LeaveMulticastV6 => IPPROTO_IPV6,
            SockOpt::Linger => SOL_SOCKET,
            SockOpt::ReuseAddress => SOL_SOCKET,
            SockOpt::RecvBufferSize => SOL_SOCKET,
            SockOpt::SendBufferSize => SOL_SOCKET,
            SockOpt::Error => SOL_SOCKET,
        }
    }

    /// The number of the option at its level.
    pub open spec fn name_of(self) -> i32 {
        match self {
            SockOpt::Ttl => IP_TTL,
            SockOpt::OnlyV6 => IPV6_V6ONLY,
            SockOpt::ReadTimeout => SO_RCVTIMEO,
            SockOpt::WriteTimeout => SO_SNDTIMEO,
            SockOpt::NoDelay => TCP_NODELAY,
            SockOpt::Broadcast => SO_BROADCAST,
            SockOpt::MulticastLoopV4 => IP_MULTICAST_LOOP,
            SockOpt::MulticastTtlV4 => IP_MULTICAST_TTL,
            SockOpt::MulticastLoopV6 => IPV6_MULTICAST_LOOP,
            SockOpt::JoinMulticastV4 => IP_ADD_MEMBERSHIP,
            SockOpt::JoinMulticastV6 => IPV6_ADD_MEMBERSHIP,
            SockOpt::LeaveMulticastV4 => IP_DROP_MEMBERSHIP,
            SockOpt::LeaveMulticastV6 => IPV6_DROP_MEMBERSHIP,
            SockOpt::Linger => SO_LINGER,
            SockOpt::ReuseAddress => SO_REUSEADDR,
            SockOpt::RecvBufferSize => SO_RCVBUF,
            SockOpt::SendBufferSize => SO_SNDBUF,
            SockOpt::Error => SO_ERROR,
        }
    }

    /// The size of the option's value in bytes: 8 for an IPv4 membership,
    /// 20 for an IPv6 membership, 4 for every other option.
    pub open spec fn len_of(self) -> usize {
        match self {
            SockOpt::JoinMulticastV4 => 8,
            SockOpt::LeaveMulticastV4 => 8,
            SockOpt::JoinMulticastV6 => 20,
            SockOpt::LeaveMulticastV6 => 20,
            _ => 4,
        }
    }

    /// The level at which the system knows the option.
    pub fn level(&self) -> (level: i32)
        ensures
            level == self.level_of(),
    {
        match *self {
            SockOpt::Ttl | SockOpt::MulticastLoopV4 | SockOpt::MulticastTtlV4
            | SockOpt::JoinMulticastV4 | SockOpt::LeaveMulticastV4 => IPPROTO_IP,
            SockOpt::OnlyV6 | SockOpt::MulticastLoopV6 | SockOpt::JoinMulticastV6
            | SockOpt::LeaveMulticastV6 => IPPROTO_IPV6,
            SockOpt::NoDelay => IPPROTO_TCP,
            _ => SOL_SOCKET,
        }
    }

    /// The number of the option at its level.
    pub fn name(&self) -> (name: i32)
        ensures
            name == self.name_of(),
    {
        match *self {
            SockOpt::Ttl => IP_TTL,
            SockOpt::OnlyV6 => IPV6_V6ONLY,
            SockOpt::ReadTimeout => SO_RCVTIMEO,
            SockOpt::WriteTimeout => SO_SNDTIMEO,
            SockOpt::NoDelay => TCP_NODELAY,
            SockOpt::Broadcast => SO_BROADCAST,
            SockOpt::MulticastLoopV4 => IP_MULTICAST_LOOP,
            SockOpt::MulticastTtlV4 => IP_MULTICAST_TTL,
            SockOpt::MulticastLoopV6 => IPV6_MULTICAST_LOOP,
            SockOpt::JoinMulticastV4 => IP_ADD_MEMBERSHIP,
            SockOpt::JoinMulticastV6 => IPV6_ADD_MEMBERSHIP,
            SockOpt::LeaveMulticastV4 => IP_DROP_MEMBERSHIP,
            SockOpt::LeaveMulticastV6 => IPV6_DROP_MEMBERSHIP,
            SockOpt::Linger => SO_LINGER,
            SockOpt::ReuseAddress => SO_REUSEADDR,
            SockOpt::RecvBufferSize => SO_RCVBUF,
            SockOpt::SendBufferSize => SO_SNDBUF,
            SockOpt::Error => SO_ERROR,
        }
    }

    /// The size of the option's value in bytes.
    pub fn len(&self) -> (len: usize)
        ensures
            len == self.len_of(),
    {
        match *self {
            SockOpt::JoinMulticastV4 | SockOpt::LeaveMulticastV4 => 8,
            SockOpt::JoinMulticastV6 | SockOpt::LeaveMulticastV6 => 20,
            _ => 4,
        }
    }
}

/// A request to set an option: the option, and its new value as it lies in
/// memory.
#[derive(Debug, PartialEq, Eq)]
pub struct SetOption {
    /// The option to set.
    pub opt: SockOpt,
    /// The new value, of the size of the option's value.
    pub payload: Vec<u8>,
}

impl SetOption {
    /// Whether the value that the request hands over has the size of the
    /// option's value.
    pub open spec fn wf(self) -> bool {
        self.payload@.len() == self.opt.len_of()
    }
}

/// The system's answer to reading an option.
#[derive(Debug, PartialEq, Eq)]
pub struct OptReply {
    /// What the call returned: zero when it succeeded.
    pub status: i32,
    /// The error code that the system has on record after the call.
    pub last_error: i32,
    /// How many bytes the call reports to have stored.
    pub len: i32,
    /// The buffer that the call stored the value in.
    pub value: Vec<u8>,
}

impl OptReply {
    /// Whether the reply can be an answer to reading `opt`: a call that
    /// succeeded was given a buffer of the size of the option's value and
    /// reports to have stored exactly that many bytes.
    pub open spec fn answers(self, opt: SockOpt) -> bool {
        self.status == 0 ==> self.len == opt.len_of() && self.value@.len() == opt.len_of()
    }

    /// What the reply gives where `value` is what its bytes stand for: the
    /// value, or the system's error where the call failed.
    pub open spec fn outcome<T>(self, value: T) -> Result<T, Error> {
        if self.status == 0 {
            Ok(value)
        } else {
            Err(Error::Os { code: self.last_error })
        }
    }

    /// Whether the reply can be an answer to reading `opt`.
    pub fn is_answer_to(&self, opt: SockOpt) -> (ok: bool)
        ensures
            ok == self.answers(opt),
    {
        self.status != 0 || (self.len == opt.len() as i32 && self.value.len() == opt.len())
    }
}

/// The value of an option that counts: the count in host order.
pub open spec fn count_payload(count: u32) -> Seq<u8> {
    le32(count)
}

/// The count that the value of an option holds.
pub open spec fn count_value(value: Seq<u8>) -> u32 {
    le32_at(value, 0)
}

/// The value of an option that is a switch: the integer one for on, zero
/// for off.
pub open spec fn flag_payload(on: bool) -> Seq<u8> {
    le32(if on { 1u32 } else { 0u32 })
}

/// The switch that the value of an option holds: on unless it is zero.
pub open spec fn flag_value(value: Seq<u8>) -> bool {
    le32_at(value, 0) != 0
}

/// The value of an option that is a size: the low 32 bits of the size.
pub open spec fn size_payload(size: usize) -> Seq<u8> {
    le32((size as int % 0x1_0000_0000) as u32)
}

/// The size that the value of an option holds: its signed integer, widened.
pub open spec fn size_value(value: Seq<u8>) -> usize {
    widened(signed(le32_at(value, 0)))
}

/// The value of an IPv4 membership: the group's address, then the address
/// of the interface.
pub open spec fn mreq_payload(multiaddr: Ipv4Addr, interface: Ipv4Addr) -> Seq<u8> {
    multiaddr.octets@ + interface.octets@
}

/// The value of an IPv6 membership: the group's address, then the index of
/// the interface in host order.
pub open spec fn mreq6_payload(multiaddr: Ipv6Addr, interface: u32) -> Seq<u8> {
    multiaddr.octets@ + le32(interface)
}

fn count_option(opt: SockOpt, count: u32) -> (set: SetOption)
    ensures
        set.opt == opt,
        set.payload@ == count_payload(count),
{
    let bytes = to_le32(count);
    let payload = vec![bytes[0], bytes[1], bytes[2], bytes[3]];
    assert(payload@ =~= le32(count));
    SetOption { opt, payload }
}

fn flag_option(opt: SockOpt, on: bool) -> (set: SetOption)
    ensures
        set.opt == opt,
        set.payload@ == flag_payload(on),
{
    count_option(opt, if on { 1 } else { 0 })
}

fn size_option(opt: SockOpt, size: usize) -> (set: SetOption)
    ensures
        set.opt == opt,
        set.payload@ == size_payload(size),
{
    count_option(opt, (size as u64 % 0x1_0000_0000) as u32)
}

fn timeout_option(opt: SockOpt, dur: Option<Duration>) -> (set: Result<SetOption, Error>)
    ensures
        match timeout_value(dur) {
            Ok(ms) => set matches Ok(s) && s.opt == opt && s.payload@ == count_payload(ms),
            Err(e) => set == Err::<SetOption, Error>(e),
        },
{
    match dur2ms(dur) {
        Ok(ms) => Ok(count_option(opt, ms)),
        Err(e) => Err(e),
    }
}

fn mreq_option(opt: SockOpt, multiaddr: &Ipv4Addr, interface: &Ipv4Addr) -> (set: SetOption)
    ensures
        set.opt == opt,
        set.payload@ == mreq_payload(*multiaddr, *interface),
{
    let m = to_s_addr(multiaddr);
    let i = to_s_addr(interface);
    let payload = vec![m[0], m[1], m[2], m[3], i[0], i[1], i[2], i[3]];
    assert(payload@ =~= mreq_payload(*multiaddr, *interface));
    SetOption { opt, payload }
}

fn mreq6_option(opt: SockOpt, multiaddr: &Ipv6Addr, interface: u32) -> (set: SetOption)
    ensures
        set.opt == opt,
        set.payload@ == mreq6_payload(*multiaddr, interface),
{
    let m = to_in6_addr(multiaddr);
    let i = to_le32(interface);
    let payload = vec![
        m[0],
        m[1],
        m[2],
        m[3],
        m[4],
        m[5],
        m[6],
        m[7],
        m[8],
        m[9],
        m[10],
        m[11],
        m[12],
        m[13],
        m[14],
        m[15],
        i[0],
        i[1],
        i[2],
        i[3],
    ];
    assert(payload@ =~= mreq6_payload(*multiaddr, interface));
    SetOption { opt, payload }
}

fn count_reply(reply: &OptReply) -> (r: Result<u32, Error>)
    requires
        reply.status == 0 ==> reply.value@.len() == 4,
    ensures
        r == reply.outcome(count_value(reply.value@)),
{
    if reply.status == 0 {
        Ok(read_le32(reply.value.as_slice(), 0))
    } else {
        Err(Error::Os { code: reply.last_error })
    }
}

fn flag_reply(reply: &OptReply) -> (r: Result<bool, Error>)
    requires
        reply.status == 0 ==> reply.value@.len() == 4,
    ensures
        r == reply.outcome(flag_value(reply.value@)),
{
    match count_reply(reply) {
        Ok(raw) => Ok(raw != 0),
        Err(e) => Err(e),
    }
}

fn size_reply(reply: &OptReply) -> (r: Result<usize, Error>)
    requires
        reply.status == 0 ==> reply.value@.len() == 4,
    ensures
        r == reply.outcome(size_value(reply.value@)),
{
    match count_reply(reply) {
        Ok(raw) => Ok(to_widened(to_signed(raw))),
        Err(e) => Err(e),
    }
}

fn timeout_reply(reply: &OptReply) -> (r: Result<Option<Duration>, Error>)
    requires
        reply.status == 0 ==> reply.value@.len() == 4,
    ensures
        r is Ok <==> reply.status == 0,
        r matches Ok(dur) ==> millis_value(count_value(reply.value@), dur),
        r matches Err(e) ==> e == (Error::Os { code: reply.last_error }),
{
    match count_reply(reply) {
        Ok(raw) => Ok(ms2dur(raw)),
        Err(e) => Err(e),
    }
}

/// The request that sets the time-to-live of outgoing IPv4 packets.
pub fn set_ttl(ttl: u32) -> (set: SetOption)
    ensures
        set.opt == SockOpt::Ttl,
        set.payload@ == count_payload(ttl),
        set.wf(),
{
    count_option(SockOpt::Ttl, ttl)
}

/// The time-to-live of outgoing IPv4 packets, from the system's answer.
pub fn ttl(reply: &OptReply) -> (r: Result<u32, Error>)
    requires
        reply.answers(SockOpt::Ttl),
    ensures
        r == reply.outcome(count_value(reply.value@)),
{
    count_reply(reply)
}

/// The request that makes an IPv6 socket refuse or accept IPv4 traffic.
pub fn set_only_v6(only_v6: bool) -> (set: SetOption)
    ensures
        set.opt == SockOpt::OnlyV6,
        set.payload@ == flag_payload(only_v6),
        set.wf(),
{
    flag_option(SockOpt::OnlyV6, only_v6)
}

/// Whether an IPv6 socket refuses IPv4 traffic, from the system's answer.
pub fn only_v6(reply: &OptReply) -> (r: Result<bool, Error>)
    requires
        reply.answers(SockOpt::OnlyV6),
    ensures
        r == reply.outcome(flag_value(reply.value@)),
{
    flag_reply(reply)
}

/// The request that sets the timeout of reads. No timeout clears it; a
/// timeout of no length is refused as an invalid input.
pub fn set_read_timeout(dur: Option<Duration>) -> (set: Result<SetOption, Error>)
    ensures
        match timeout_value(dur) {
            Ok(ms) => set matches Ok(s) && s.opt == SockOpt::ReadTimeout && s.payload@
                == count_payload(ms) && s.wf(),
            Err(e) => set == Err::<SetOption, Error>(e),
        },
        set is Err <==> (dur matches Some(d) && d.nanos() == 0),
{
    timeout_option(SockOpt::ReadTimeout, dur)
}

/// The timeout of reads, from the system's answer.
pub fn read_timeout(reply: &OptReply) -> (r: Result<Option<Duration>, Error>)
    requires
        reply.answers(SockOpt::ReadTimeout),
    ensures
        r is Ok <==> reply.status == 0,
        r matches Ok(dur) ==> millis_value(count_value(reply.value@), dur),
        r matches Err(e) ==> e == (Error::Os { code: reply.last_error }),
{
    timeout_reply(reply)
}

/// The request that sets the timeout of writes. No timeout clears it; a
/// timeout of no length is refused as an invalid input.
pub fn set_write_timeout(dur: Option<Duration>) -> (set: Result<SetOption, Error>)
    ensures
        match timeout_value(dur) {
            Ok(ms) => set matches Ok(s) && s.opt == SockOpt::WriteTimeout && s.payload@
                == count_payload(ms) && s.wf(),
            Err(e) => set == Err::<SetOption, Error>(e),
        },
        set is Err <==> (dur matches Some(d) && d.nanos() == 0),
{
    timeout_option(SockOpt::WriteTimeout, dur)
}

/// The timeout of writes, from the system's answer.
pub fn write_timeout(reply: &OptReply) -> (r: Result<Option<Duration>, Error>)
    requires
        reply.answers(SockOpt::WriteTimeout),
    ensures
        r is Ok <==> reply.status == 0,
        r matches Ok(dur) ==> millis_value(count_value(reply.value@), dur),
        r matches Err(e) ==> e == (Error::Os { code: reply.last_error }),
{
    timeout_reply(reply)
}

/// The request that switches the delaying of small TCP segments off or on.
pub fn set_nodelay(nodelay: bool) -> (set: SetOption)
    ensures
        set.opt == SockOpt::NoDelay,
        set.payload@ == flag_payload(nodelay),
        set.wf(),
{
    flag_option(SockOpt::NoDelay, nodelay)
}

/// Whether small TCP segments are sent without delay, from the system's
/// answer.
pub fn nodelay(reply: &OptReply) -> (r: Result<bool, Error>)
    requires
        reply.answers(SockOpt::NoDelay),
    ensures
        r == reply.outcome(flag_value(reply.value@)),
{
    flag_reply(reply)
}

/// The request that allows or forbids sending to a broadcast address.
pub fn set_broadcast(on: bool) -> (set: SetOption)
    ensures
        set.opt == SockOpt::Broadcast,
        set.payload@ == flag_payload(on),
        set.wf(),
{
    flag_option(SockOpt::Broadcast, on)
}

/// Whether sending to a broadcast address is allowed, from the system's
/// answer.
pub fn get_broadcast(reply: &OptReply) -> (r: Result<bool, Error>)
    requires
        reply.answers(SockOpt::Broadcast),
    ensures
        r == reply.outcome(flag_value(reply.value@)),
{
    flag_reply(reply)
}

/// The request that makes IPv4 multicast packets loop back, or not.
pub fn set_multicast_loop_v4(multicast_loop_v4: bool) -> (set: SetOption)
    ensures
        set.opt == SockOpt::MulticastLoopV4,
        set.payload@ == flag_payload(multicast_loop_v4),
        set.wf(),
{
    flag_option(SockOpt::MulticastLoopV4, multicast_loop_v4)
}

/// Whether IPv4 multicast packets loop back, from the system's answer.
pub fn multicast_loop_v4(reply: &OptReply) -> (r: Result<bool, Error>)
    requires
        reply.answers(SockOpt::MulticastLoopV4),
    ensures
        r == reply.outcome(flag_value(reply.value@)),
{
    flag_reply(reply)
}

/// The request that sets the time-to-live of outgoing IPv4 multicast
/// packets.
pub fn set_multicast_ttl_v4(multicast_ttl_v4: u32) -> (set: SetOption)
    ensures
        set.opt == SockOpt::MulticastTtlV4,
        set.payload@ == count_payload(multicast_ttl_v4),
        set.wf(),
{
    count_option(SockOpt::MulticastTtlV4, multicast_ttl_v4)
}

/// The time-to-live of outgoing IPv4 multicast packets, from the system's
/// answer.
pub fn multicast_ttl_v4(reply: &OptReply) -> (r: Result<u32, Error>)
    requires
        reply.answers(SockOpt::MulticastTtlV4),
    ensures
        r == reply.outcome(count_value(reply.value@)),
{
    count_reply(reply)
}

/// The request that makes IPv6 multicast packets loop back, or not.
pub fn set_multicast_loop_v6(multicast_loop_v6: bool) -> (set: SetOption)
    ensures
        set.opt == SockOpt::MulticastLoopV6,
        set.payload@ == flag_payload(multicast_loop_v6),
        set.wf(),
{
    flag_option(SockOpt::MulticastLoopV6, multicast_loop_v6)
}

/// Whether IPv6 multicast packets loop back, from the system's answer.
pub fn multicast_loop_v6(reply: &OptReply) -> (r: Result<bool, Error>)
    requires
        reply.answers(SockOpt::MulticastLoopV6),
    ensures
        r == reply.outcome(flag_value(reply.value@)),
{
    flag_reply(reply)
}

/// The request that joins the IPv4 multicast group `multiaddr` on the
/// interface with the address `interface`.
pub fn join_multicast_v4(multiaddr: &Ipv4Addr, interface: &Ipv4Addr) -> (set: SetOption)
    ensures
        set.opt == SockOpt::JoinMulticastV4,
        set.payload@ == mreq_payload(*multiaddr, *interface),
        set.wf(),
{
    mreq_option(SockOpt::JoinMulticastV4, multiaddr, interface)
}

/// The request that joins the IPv6 multicast group `multiaddr` on the
/// interface with the index `interface`.
pub fn join_multicast_v6(multiaddr: &Ipv6Addr, interface: u32) -> (set: SetOption)
    ensures
        set.opt == SockOpt::JoinMulticastV6,
        set.payload@ == mreq6_payload(*multiaddr, interface),
        set.wf(),
{
    mreq6_option(SockOpt::JoinMulticastV6, multiaddr, interface)
}

/// The request that leaves the IPv4 multicast group `multiaddr` on the
/// interface with the address `interface`.
pub fn leave_multicast_v4(multiaddr: &Ipv4Addr, interface: &Ipv4Addr) -> (set: SetOption)
    ensures
        set.opt == SockOpt::LeaveMulticastV4,
        set.payload@ == mreq_payload(*multiaddr, *interface),
        set.wf(),
{
    mreq_option(SockOpt::LeaveMulticastV4, multiaddr, interface)
}

/// The request that leaves the IPv6 multicast group `multiaddr` on the
/// interface with the index `interface`.
pub fn leave_multicast_v6(multiaddr: &Ipv6Addr, interface: u32) -> (set: SetOption)
    ensures
        set.opt == SockOpt::LeaveMulticastV6,
        set.payload@ == mreq6_payload(*multiaddr, interface),
        set.wf(),
{
    mreq6_option(SockOpt::LeaveMulticastV6, multiaddr, interface)
}

/// The request that sets the linger time; none switches lingering off.
pub fn set_linger(dur: Option<Duration>) -> (set: SetOption)
    ensures
        set.opt == SockOpt::Linger,
        set.payload@ == linger_of(dur).bytes(),
        set.wf(),
{
    let bytes = dur2linger(dur).to_bytes();
    let payload = vec![bytes[0], bytes[1], bytes[2], bytes[3]];
    assert(payload@ =~= linger_of(dur).bytes());
    SetOption { opt: SockOpt::Linger, payload }
}

/// The linger time, from the system's answer.
pub fn linger(reply: &OptReply) -> (r: Result<Option<Duration>, Error>)
    requires
        reply.answers(SockOpt::Linger),
    ensures
        r is Ok <==> reply.status == 0,
        r matches Ok(dur) ==> linger_value(Linger::at(reply.value@), dur),
        r matches Err(e) ==> e == (Error::Os { code: reply.last_error }),
{
    if reply.status == 0 {
        Ok(linger2dur(Linger::from_bytes(reply.value.as_slice())))
    } else {
        Err(Error::Os { code: reply.last_error })
    }
}

/// The request that allows or forbids binding to an address in use.
pub fn set_reuse_address(reuse: bool) -> (set: SetOption)
    ensures
        set.opt == SockOpt::ReuseAddress,
        set.payload@ == flag_payload(reuse),
        set.wf(),
{
    flag_option(SockOpt::ReuseAddress, reuse)
}

/// Whether binding to an address in use is allowed, from the system's
/// answer.
pub fn reuse_address(reply: &OptReply) -> (r: Result<bool, Error>)
    requires
        reply.answers(SockOpt::ReuseAddress),
    ensures
        r == reply.outcome(flag_value(reply.value@)),
{
    flag_reply(reply)
}

/// The size of the receive buffer, from the system's answer.
pub fn recv_buffer_size(reply: &OptReply) -> (r: Result<usize, Error>)
    requires
        reply.answers(SockOpt::RecvBufferSize),
    ensures
        r == reply.outcome(size_value(reply.value@)),
{
    size_reply(reply)
}

/// The request that sets the size of the receive buffer.
pub fn set_recv_buffer_size(size: usize) -> (set: SetOption)
    ensures
        set.opt == SockOpt::RecvBufferSize,
        set.payload@ == size_payload(size),
        set.wf(),
{
    size_option(SockOpt::RecvBufferSize, size)
}

/// The size of the send buffer, from the system's answer.
pub fn send_buffer_size(reply: &OptReply) -> (r: Result<usize, Error>)
    requires
        reply.answers(SockOpt::SendBufferSize),
    ensures
        r == reply.outcome(size_value(reply.value@)),
{
    size_reply(reply)
}

/// The request that sets the size of the send buffer.
pub fn set_send_buffer_size(size: usize) -> (set: SetOption)
    ensures
        set.opt == SockOpt::SendBufferSize,
        set.payload@ == size_payload(size),
        set.wf(),
{
    size_option(SockOpt::SendBufferSize, size)
}

/// The error that is pending on the socket: none where the option holds
/// zero, else the error with the code it holds.
pub open spec fn pending_error(value: Seq<u8>) -> Option<Error> {
    if le32_at(value, 0) == 0 {
        None
    } else {
        Some(Error::Os { code: signed(le32_at(value, 0)) })
    }
}

/// The error that was pending on the socket, from the system's answer to
/// reading it, which also clears it.
pub fn take_error(reply: &OptReply) -> (r: Result<Option<Error>, Error>)
    requires
        reply.answers(SockOpt::Error),
    ensures
        r == reply.outcome(pending_error(reply.value@)),
{
    match count_reply(reply) {
        Ok(raw) => if raw == 0 {
            Ok(None)
        } else {
            Ok(Some(Error::Os { code: to_signed(raw) }))
        },
        Err(e) => Err(e),
    }
}

impl OptReply {
    /// Whether the reply is the answer of a system that kept the option as
    /// a request handed it over: the call succeeded and stored the bytes
    /// of the request.
    pub open spec fn echoes(self, payload: Seq<u8>) -> bool {
        self.status == 0 && self.len == payload.len() && self.value@ == payload
    }
}

/// Setting a switch and reading it back gives the switch that was set:
/// the answer that holds the bytes of the request reads as `on`.
///
/// The switches are the options whose request holds `flag_payload` and
/// whose answer is read by `flag_value`: `set_only_v6` and `only_v6`,
/// `set_nodelay` and `nodelay`, `set_broadcast` and `get_broadcast`,
/// `set_multicast_loop_v4` and `multicast_loop_v4`,
/// `set_multicast_loop_v6` and `multicast_loop_v6`, `set_reuse_address`
/// and `reuse_address`.
pub proof fn lemma_flag_set_then_get(on: bool, reply: OptReply)
    requires
        reply.echoes(flag_payload(on)),
    ensures
        reply.value@.len() == 4,
        reply.outcome(flag_value(reply.value@)) == Ok::<bool, Error>(on),
{
    lemma_le_round_trip(0, if on { 1u32 } else { 0u32 });
}

/// Setting a count and reading it back gives the count that was set.
///
/// The counts are the options whose request holds `count_payload` and
/// whose answer is read by `count_value`: `set_ttl` and `ttl`,
/// `set_multicast_ttl_v4` and `multicast_ttl_v4`.
pub proof fn lemma_count_set_then_get(count: u32, reply: OptReply)
    requires
        reply.echoes(count_payload(count)),
    ensures
        reply.value@.len() == 4,
        reply.outcome(count_value(reply.value@)) == Ok::<u32, Error>(count),
{
    lemma_le_round_trip(0, count);
}

/// Setting a size that a signed 32-bit integer can hold and reading it
/// back gives the size that was set. A larger size is not kept: the
/// request holds its low 32 bits only.
///
/// The sizes are `set_recv_buffer_size` and `recv_buffer_size`,
/// `set_send_buffer_size` and `send_buffer_size`.
pub proof fn lemma_size_set_then_get(size: usize, reply: OptReply)
    requires
        size <= i32::MAX,
        reply.echoes(size_payload(size)),
    ensures
        reply.value@.len() == 4,
        reply.outcome(size_value(reply.value@)) == Ok::<usize, Error>(size),
{
    let low: u32 = size as u32;
    assert(size as int % 0x1_0000_0000 == size as int) by {
        vstd::arithmetic::div_mod::lemma_small_mod(size as nat, 0x1_0000_0000);
    }
    assert(size_payload(size) == le32(low));
    lemma_le_round_trip(0, low);
    assert(signed(low) == low as i32);
    assert(widened(low as i32) == size);
}

/// Setting no timeout and reading it back gives no timeout: setting none
/// is never refused, and the answer that holds the bytes of that request
/// reads as none.
pub proof fn lemma_timeout_cleared_then_get(reply: OptReply, back: Option<Duration>)
    requires
        reply.echoes(count_payload(0)),
        millis_value(count_value(reply.value@), back),
    ensures
        timeout_value(None) == Ok::<u32, Error>(0),
        back is None,
{
    lemma_le_round_trip(0, 0);
}

/// Setting a timeout of whole milliseconds that the count can hold and
/// reading it back gives the timeout that was set.
pub proof fn lemma_timeout_set_then_get(d: Duration, reply: OptReply, back: Option<Duration>)
    requires
        d.subsec() < NANOS_PER_SEC,
        d.subsec() % NANOS_PER_MILLI == 0,
        0 < d.nanos() <= INFINITE as nat * NANOS_PER_MILLI as nat,
        reply.echoes(count_payload(timeout_millis(d))),
        millis_value(count_value(reply.value@), back),
    ensures
        timeout_value(Some(d)) == Ok::<u32, Error>(timeout_millis(d)),
        back == Some(d),
{
    lemma_le_round_trip(0, timeout_millis(d));
    lemma_timeout_round_trip(d, back);
}

/// Setting a linger time of whole seconds that fit in 16 bits, or none,
/// and reading it back gives what was set.
pub proof fn lemma_linger_set_then_get(
    dur: Option<Duration>,
    reply: OptReply,
    back: Option<Duration>,
)
    requires
        dur matches Some(d) ==> d.secs() < 0x1_0000 && d.subsec() == 0,
        reply.echoes(linger_of(dur).bytes()),
        linger_value(Linger::at(reply.value@), back),
    ensures
        back == dur,
{
    Linger::lemma_bytes_round_trip(linger_of(dur));
    lemma_linger_round_trip(dur, back);
}

} // verus!
