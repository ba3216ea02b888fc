//! The calls that manage a socket: what they take, and what their outcome
//! means.

use vstd::prelude::*;
use crate::addr::SocketAddr;
use crate::error::Error;
use crate::layout::{signed, to_signed};
use crate::sockaddr::{
    raw2addr, raw_addr_fits, raw_addr_len_ok, raw_addr_value, raw_family, AF_INET, AF_INET6,
    SOCKADDR_STORAGE_LEN,
};

verus! {

/// Shut down the receiving side.
pub const SD_RECEIVE: i32 = 0;

/// Shut down the sending side.
pub const SD_SEND: i32 = 1;

/// Shut down both sides.
pub const SD_BOTH: i32 = 2;

/// The control command that switches non-blocking mode.
pub const FIONBIO: u32 = 0x8004_667e;

/// Which side of a connection to shut down.
#[derive(Clone, Copy, Debug, PartialEq, Eq, Structural)]
pub enum Shutdown {
    /// The reading side: further receives are refused.
    Read,
    /// The writing side: further sends are refused.
    Write,
    /// Both sides.
    Both,
}

/// A control command with its argument.
#[derive(Clone, Copy, Debug, PartialEq, Eq, Structural)]
pub struct Ioctl {
    /// The command, as the signed integer that the call takes.
    pub cmd: i32,
    /// The argument that the call reads.
    pub arg: u32,
}

/// What a call that returns a status gives: nothing where the status is
/// zero, else the error that the system has on record.
pub open spec fn status_value(status: i32, last_error: i32) -> Result<(), Error> {
    if status == 0 {
        Ok(())
    } else {
        Err(Error::Os { code: last_error })
    }
}

/// Interprets the status that a call returned. Binding, listening,
/// connecting, shutting down, setting an option and control commands all
/// report their outcome this way.
pub fn status(ret: i32, last_error: i32) -> (r: Result<(), Error>)
    ensures
        r == status_value(ret, last_error),
        r is Err <==> ret != 0,
{
    if ret == 0 {
        Ok(())
    } else {
        Err(Error::Os { code: last_error })
    }
}

/// The integer by which the system knows a direction of shutdown.
pub open spec fn shutdown_how(how: Shutdown) -> i32 {
    match how {
        Shutdown::Write => SD_SEND,
        Shutdown::Read => SD_RECEIVE,
        Shutdown::Both => SD_BOTH,
    }
}

/// What the shutdown call takes for a direction.
pub fn shutdown(how: Shutdown) -> (raw: i32)
    ensures
        raw == shutdown_how(how),
{
    match how {
        Shutdown::Write => SD_SEND,
        Shutdown::Read => SD_RECEIVE,
        Shutdown::Both => SD_BOTH,
    }
}

/// The control command that switches non-blocking mode on or off: the
/// command, and one for on or zero for off as its argument.
pub fn set_nonblocking(nonblocking: bool) -> (ioctl: Ioctl)
    ensures
        ioctl.cmd == signed(FIONBIO),
        ioctl.arg == (if nonblocking { 1u32 } else { 0u32 }),
{
    Ioctl { cmd: to_signed(FIONBIO), arg: if nonblocking { 1 } else { 0 } }
}

/// What asking for the local or the peer address gives: the system's
/// error where the call failed, else the address that it stored.
pub open spec fn sockname_value(status: i32, last_error: i32, storage: Seq<u8>) -> Result<
    SocketAddr,
    Error,
> {
    if status != 0 {
        Err(Error::Os { code: last_error })
    } else {
        raw_addr_value(storage)
    }
}

/// Whether the outcome of asking for an address can be interpreted: where
/// the call succeeded, the length it reported is enough for the address
/// whose family it stored.
pub open spec fn sockname_fits(status: i32, storage: Seq<u8>, len: int) -> bool {
    status == 0 ==> raw_addr_fits(storage, len)
}

/// Whether the outcome of asking for an address can be interpreted.
pub fn sockname_len_ok(status: i32, storage: &[u8; SOCKADDR_STORAGE_LEN], len: i32) -> (ok: bool)
    ensures
        ok == sockname_fits(status, storage@, len as int),
{
    status != 0 || raw_addr_len_ok(storage, len)
}

/// Interprets the outcome of asking for the local or the peer address.
/// `storage` is what the call filled, and `len` the length it reported.
pub fn sockname(
    status: i32,
    last_error: i32,
    storage: &[u8; SOCKADDR_STORAGE_LEN],
    len: i32,
) -> (r: Result<SocketAddr, Error>)
    requires
        sockname_fits(status, storage@, len as int),
    ensures
        r == sockname_value(status, last_error, storage@),
        r is Ok <==> status == 0 && (raw_family(storage@) == AF_INET || raw_family(storage@)
            == AF_INET6),
{
    if status != 0 {
        return Err(Error::Os { code: last_error });
    }
    raw2addr(storage, len)
}

} // verus!
