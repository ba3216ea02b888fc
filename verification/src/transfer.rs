//! Receiving and sending: what the calls take, and what their outcome
//! means.

use vstd::prelude::*;
use crate::addr::SocketAddr;
use crate::error::Error;
use crate::layout::{to_widened, widened};
use crate::sockaddr::{
    addr2raw, raw2addr, raw_addr, raw_addr_fits, raw_addr_len_ok, raw_addr_value, raw_family,
    read_addr, AF_INET, AF_INET6, SOCKADDR_STORAGE_LEN,
};

verus! {

/// What a transfer returns where it fails.
pub const SOCKET_ERROR: i32 = -1;

/// The flag that makes a receive leave the data in place.
pub const MSG_PEEK: i32 = 0x2;

/// The error of a receive on a socket whose receiving side was shut down.
pub const WSAESHUTDOWN: i32 = 10058;

/// What a transfer is called with, besides the buffer.
#[derive(Clone, Copy, Debug, PartialEq, Eq, Structural)]
pub struct Transfer {
    /// How many bytes of the buffer the call may use.
    pub len: i32,
    /// The flags of the call.
    pub flags: i32,
}

/// A buffer length as the calls take it: the length itself, or the largest
/// length they take where it is more.
pub open spec fn clamped(input: usize) -> i32 {
    if input <= i32::MAX {
        input as i32
    } else {
        i32::MAX
    }
}

/// Limits a buffer length to what the calls take.
pub fn clamp(input: usize) -> (len: i32)
    ensures
        len == clamped(input),
        0 <= len <= input,
{
    if input <= i32::MAX as usize {
        input as i32
    } else {
        i32::MAX
    }
}

/// What a receive into a buffer of `buf_len` bytes is called with.
pub fn recv(buf_len: usize) -> (call: Transfer)
    ensures
        call == (Transfer { len: clamped(buf_len), flags: 0 }),
{
    Transfer { len: clamp(buf_len), flags: 0 }
}

/// What a receive that leaves the data in place is called with.
pub fn peek(buf_len: usize) -> (call: Transfer)
    ensures
        call == (Transfer { len: clamped(buf_len), flags: MSG_PEEK }),
{
    Transfer { len: clamp(buf_len), flags: MSG_PEEK }
}

/// What a receive that also reports the sender is called with.
pub fn recv_from(buf_len: usize) -> (call: Transfer)
    ensures
        call == (Transfer { len: clamped(buf_len), flags: 0 }),
{
    recv(buf_len)
}

/// What a receive that reports the sender and leaves the data in place is
/// called with.
pub fn peek_from(buf_len: usize) -> (call: Transfer)
    ensures
        call == (Transfer { len: clamped(buf_len), flags: MSG_PEEK }),
{
    peek(buf_len)
}

/// What a send from a buffer of `buf_len` bytes is called with.
pub fn send(buf_len: usize) -> (call: Transfer)
    ensures
        call == (Transfer { len: clamped(buf_len), flags: 0 }),
{
    Transfer { len: clamp(buf_len), flags: 0 }
}

/// What a send to the address `addr` is called with: the transfer, and
/// the address in raw form.
pub fn send_to(buf_len: usize, addr: &SocketAddr) -> (call: (Transfer, Vec<u8>))
    ensures
        call.0 == (Transfer { len: clamped(buf_len), flags: 0 }),
        call.1@ == raw_addr(*addr),
{
    (send(buf_len), addr2raw(addr))
}

/// How many bytes a receive gave, where the call returned `n`: none where
/// it failed because the receiving side was shut down, which counts as the
/// end of the data; the system's error where it failed otherwise; else
/// `n`.
pub open spec fn received_value(n: i32, last_error: i32) -> Result<usize, Error> {
    if n == SOCKET_ERROR && last_error == WSAESHUTDOWN {
        Ok(0usize)
    } else if n == SOCKET_ERROR {
        Err(Error::Os { code: last_error })
    } else {
        Ok(widened(n))
    }
}

/// Interprets what a receive returned, with or without the flag that
/// leaves the data in place.
pub fn received(n: i32, last_error: i32) -> (r: Result<usize, Error>)
    ensures
        r == received_value(n, last_error),
        r is Err <==> n == SOCKET_ERROR && last_error != WSAESHUTDOWN,
{
    if n == SOCKET_ERROR {
        if last_error == WSAESHUTDOWN {
            Ok(0)
        } else {
            Err(Error::Os { code: last_error })
        }
    } else {
        Ok(to_widened(n))
    }
}

/// The sender that a receive reports where it found the receiving side
/// shut down: the address that the storage holds, or, where it holds none
/// of IPv4 or IPv6, the address that names no socket.
pub open spec fn sender_after_shutdown(storage: Seq<u8>) -> SocketAddr {
    match raw_addr_value(storage) {
        Ok(addr) => addr,
        Err(_) => SocketAddr::unspecified_value(),
    }
}

/// What a receive that reports the sender gives, where the call returned
/// `n`: no bytes where it failed because the receiving side was shut down,
/// which counts as the end of the data whatever the storage holds; the
/// system's error where it failed otherwise; else `n` with the address
/// that the call stored, of which a family that is neither IPv4 nor IPv6
/// is refused.
pub open spec fn received_from_value(n: i32, last_error: i32, storage: Seq<u8>) -> Result<
    (usize, SocketAddr),
    Error,
> {
    if n == SOCKET_ERROR && last_error == WSAESHUTDOWN {
        Ok((0usize, sender_after_shutdown(storage)))
    } else if n == SOCKET_ERROR {
        Err(Error::Os { code: last_error })
    } else {
        match raw_addr_value(storage) {
            Ok(addr) => Ok((widened(n), addr)),
            Err(e) => Err(e),
        }
    }
}

/// Whether the outcome of a receive that reports the sender can be
/// interpreted: where the call succeeded, the length it reported is enough
/// for the address whose family it stored.
pub open spec fn received_from_fits(n: i32, storage: Seq<u8>, len: int) -> bool {
    n != SOCKET_ERROR ==> raw_addr_fits(storage, len)
}

/// Whether the outcome of a receive that reports the sender can be
/// interpreted.
pub fn received_from_len_ok(
    n: i32,
    storage: &[u8; SOCKADDR_STORAGE_LEN],
    addrlen: i32,
) -> (ok: bool)
    ensures
        ok == received_from_fits(n, storage@, addrlen as int),
{
    n == SOCKET_ERROR || raw_addr_len_ok(storage, addrlen)
}

/// Interprets what a receive that reports the sender returned. `storage`
/// is what the call filled, and `addrlen` the length it reported.
///
/// A shutdown of the receiving side is never an error: it gives no bytes,
/// from the sender that the storage names or else from no one.
pub fn received_from(
    n: i32,
    last_error: i32,
    storage: &[u8; SOCKADDR_STORAGE_LEN],
    addrlen: i32,
) -> (r: Result<(usize, SocketAddr), Error>)
    requires
        received_from_fits(n, storage@, addrlen as int),
    ensures
        r == received_from_value(n, last_error, storage@),
        n == SOCKET_ERROR && last_error == WSAESHUTDOWN ==> (r matches Ok(got) && got.0 == 0),
        r is Err <==> (n == SOCKET_ERROR && last_error != WSAESHUTDOWN) || (n != SOCKET_ERROR
            && raw_family(storage@) != AF_INET && raw_family(storage@) != AF_INET6),
{
    if n == SOCKET_ERROR {
        if last_error == WSAESHUTDOWN {
            let sender = match read_addr(storage) {
                Ok(addr) => addr,
                Err(_) => SocketAddr::unspecified(),
            };
            Ok((0, sender))
        } else {
            Err(Error::Os { code: last_error })
        }
    } else {
        match raw2addr(storage, addrlen) {
            Ok(addr) => Ok((to_widened(n), addr)),
            Err(e) => Err(e),
        }
    }
}

/// How many bytes a send took, where the call returned `n`: the system's
/// error where it failed, else `n`, which may be less than was offered.
pub open spec fn sent_value(n: i32, last_error: i32) -> Result<usize, Error> {
    if n == SOCKET_ERROR {
        Err(Error::Os { code: last_error })
    } else {
        Ok(widened(n))
    }
}

/// Interprets what a send returned.
pub fn sent(n: i32, last_error: i32) -> (r: Result<usize, Error>)
    ensures
        r == sent_value(n, last_error),
        r is Err <==> n == SOCKET_ERROR,
{
    if n == SOCKET_ERROR {
        Err(Error::Os { code: last_error })
    } else {
        Ok(to_widened(n))
    }
}

/// A transfer never asks for more than the buffer holds, and takes the
/// whole buffer unless that is more than a call can take.
pub proof fn lemma_clamped_within(buf_len: usize)
    ensures
        0 <= clamped(buf_len) <= buf_len,
        buf_len <= i32::MAX ==> clamped(buf_len) == buf_len,
        buf_len > i32::MAX ==> clamped(buf_len) == i32::MAX,
{
}

} // verus!
