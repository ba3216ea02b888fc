//! The errors that socket operations report.

use vstd::prelude::*;

verus! {

/// Why a socket operation failed.
///
/// A failed system call is reported with the code the platform recorded for
/// it. An argument that is refused before any system call is made is an
/// invalid input.
#[derive(Clone, Copy, Debug, PartialEq, Eq, Structural)]
pub enum Error {
    /// A system call failed; `code` is the platform's error code for it.
    Os { code: i32 },
    /// An address whose family is neither IPv4 nor IPv6.
    UnsupportedFamily,
    /// A timeout of zero length, which the platform cannot tell from "no timeout".
    ZeroTimeout,
}

impl Error {
    /// The error of a failed system call.
    pub fn from_raw_os_error(code: i32) -> (e: Error)
        ensures
            e == (Error::Os { code }),
    {
        Error::Os { code }
    }

    /// The platform's error code, for the error of a failed system call.
    pub fn raw_os_error(&self) -> (code: Option<i32>)
        ensures
            code == match *self {
                Error::Os { code } => Some(code),
                _ => None::<i32>,
            },
    {
        match *self {
            Error::Os { code } => Some(code),
            _ => None,
        }
    }

    /// Whether the error refuses an argument, as opposed to reporting a
    /// failed system call.
    pub open spec fn invalid_input(self) -> bool {
        self is UnsupportedFamily || self is ZeroTimeout
    }

    /// Whether the error refuses an argument.
    pub fn is_invalid_input(&self) -> (b: bool)
        ensures
            b == self.invalid_input(),
    {
        match *self {
            Error::Os { .. } => false,
            _ => true,
        }
    }

    /// A short description of the error.
    pub fn message(&self) -> (m: &'static str)
        ensures
            m@ == match *self {
                Error::Os { .. } => "operating system error"@,
                Error::UnsupportedFamily => "invalid argument"@,
                Error::ZeroTimeout => "cannot set a 0 duration timeout"@,
            },
    {
        match *self {
            Error::Os { .. } => "operating system error",
            Error::UnsupportedFamily => "invalid argument",
            Error::ZeroTimeout => "cannot set a 0 duration timeout",
        }
    }
}

} // verus!
