//! Obtaining a descriptor: by creating a socket, by accepting a connection,
//! or by duplicating a descriptor.
//!
//! Each of the three takes more than one system call, and what is done next
//! depends on how the last call went. The decisions are a state machine:
//! its state names the call that is to be made, the caller makes that call
//! and hands back how it went, and the machine moves on. A descriptor is
//! handed out only once it has been made non-inheritable, and one that
//! cannot be made so is closed. So is an accepted descriptor whose peer
//! has no address that can be named.

use vstd::prelude::*;
use crate::addr::SocketAddr;
use crate::error::Error;
use crate::sockaddr::{
    raw2addr, raw_addr_fits, raw_addr_value, raw_family, AF_INET, AF_INET6, SOCKADDR_STORAGE_LEN,
};
use crate::{Domain, Protocol, Type};

verus! {

/// What socket creation returns where it fails.
pub const INVALID_SOCKET: usize = usize::MAX;

/// The creation flag that asks for a socket that supports overlapped
/// operations.
pub const WSA_FLAG_OVERLAPPED: u32 = 0x01;

/// The handle flag that makes child processes inherit the handle.
pub const HANDLE_FLAG_INHERIT: u32 = 0x0000_0001;

/// How far obtaining a descriptor has come. But for the two last states, a
/// state names a system call that is to be made.
#[derive(Clone, Copy, Debug, PartialEq, Eq, Structural)]
pub enum State {
    /// The network subsystem is to be initialised, once per process, before
    /// the first socket is created.
    Starting { family: i32, ty: i32, protocol: i32 },
    /// The protocol information of `source` is to be fetched.
    Duplicating { source: usize },
    /// A socket is to be created: from the protocol information that was
    /// fetched where `duplicate` holds, else from the three integers.
    Creating { family: i32, ty: i32, protocol: i32, duplicate: bool },
    /// A connection is to be accepted on `listener`.
    Accepting { listener: usize },
    /// The new descriptor `socket` is to be made non-inheritable.
    Marking { socket: usize },
    /// The descriptor `socket` could not be made non-inheritable and is to
    /// be closed.
    Closing { socket: usize, error: Error },
    /// The descriptor `socket` is the caller's.
    Ready { socket: usize },
    /// No descriptor was obtained.
    Failed { error: Error },
}

/// What the caller is to do in a state.
#[derive(Clone, Copy, Debug, PartialEq, Eq, Structural)]
pub enum Action {
    /// Initialise the network subsystem unless that has been done.
    Init,
    /// Fetch the protocol information of `source` for this process.
    Duplicate { source: usize },
    /// Create a socket with these arguments, from the protocol information
    /// that was fetched where `duplicate` holds.
    Create { family: i32, ty: i32, protocol: i32, duplicate: bool, flags: u32 },
    /// Accept a connection on `listener`.
    Accept { listener: usize },
    /// Set the handle flags under `mask` of `socket` to `flags`.
    Mark { socket: usize, mask: u32, flags: u32 },
    /// Close `socket`.
    Close { socket: usize },
    /// Take `socket` into ownership.
    Return { socket: usize },
    /// Report `error`.
    Fail { error: Error },
}

/// How a system call went.
#[derive(Clone, Copy, Debug, PartialEq, Eq, Structural)]
pub enum Event {
    /// The network subsystem is initialised.
    Initialized,
    /// Fetching the protocol information returned `status`, and the
    /// information names these three integers.
    Duplicated { status: i32, last_error: i32, family: i32, ty: i32, protocol: i32 },
    /// Creating or accepting returned `socket`.
    Opened { socket: usize, last_error: i32 },
    /// Setting the handle flags returned `status`.
    Marked { status: i32, last_error: i32 },
    /// The descriptor was closed.
    Closed,
}

impl State {
    /// What the caller is to do in this state.
    pub open spec fn action_of(self) -> Action {
        match self {
            State::Starting { .. } => Action::Init,
            State::Duplicating { source } => Action::Duplicate { source },
            State::Creating { family, ty, protocol, duplicate } => Action::Create {
                family,
                ty,
                protocol,
                duplicate,
                flags: WSA_FLAG_OVERLAPPED,
            },
            State::Accepting { listener } => Action::Accept { listener },
            State::Marking { socket } => Action::Mark {
                socket,
                mask: HANDLE_FLAG_INHERIT,
                flags: 0,
            },
            State::Closing { socket, .. } => Action::Close { socket },
            State::Ready { socket } => Action::Return { socket },
            State::Failed { error } => Action::Fail { error },
        }
    }

    /// The state after `event`. An event that does not answer the call
    /// that the state names changes nothing.
    pub open spec fn next(self, event: Event) -> State {
        match (self, event) {
            (State::Starting { family, ty, protocol }, Event::Initialized) => State::Creating {
                family,
                ty,
                protocol,
                duplicate: false,
            },
            (
                State::Duplicating { .. },
                Event::Duplicated { status, last_error, family, ty, protocol },
            ) => if status != 0 {
                State::Failed { error: Error::Os { code: last_error } }
            } else {
                State::Creating { family, ty, protocol, duplicate: true }
            },
            (State::Creating { .. }, Event::Opened { socket, last_error }) => opened(
                socket,
                last_error,
            ),
            (State::Accepting { .. }, Event::Opened { socket, last_error }) => opened(
                socket,
                last_error,
            ),
            (State::Marking { socket }, Event::Marked { status, last_error }) => if status == 0 {
                State::Closing { socket, error: Error::Os { code: last_error } }
            } else {
                State::Ready { socket }
            },
            (State::Closing { error, .. }, Event::Closed) => State::Failed { error },
            _ => self,
        }
    }

    /// The state after a run of events, one after the other.
    pub open spec fn run(self, events: Seq<Event>) -> State
        decreases events.len(),
    {
        if events.len() == 0 {
            self
        } else {
            self.next(events[0]).run(events.drop_first())
        }
    }

    /// The descriptor that was obtained and is neither closed nor handed
    /// out yet.
    pub open spec fn held(self) -> Option<usize> {
        match self {
            State::Marking { socket } => Some(socket),
            State::Closing { socket, .. } => Some(socket),
            _ => None,
        }
    }

    /// How many system calls are still to be made at most.
    pub open spec fn calls_left(self) -> nat {
        match self {
            State::Starting { .. } => 4,
            State::Duplicating { .. } => 4,
            State::Creating { .. } => 3,
            State::Accepting { .. } => 3,
            State::Marking { .. } => 2,
            State::Closing { .. } => 1,
            State::Ready { .. } => 0,
            State::Failed { .. } => 0,
        }
    }

    /// Whether `event` answers the call that the state names.
    pub open spec fn expects(self, event: Event) -> bool {
        match (self, event) {
            (State::Starting { .. }, Event::Initialized) => true,
            (State::Duplicating { .. }, Event::Duplicated { .. }) => true,
            (State::Creating { .. }, Event::Opened { .. }) => true,
            (State::Accepting { .. }, Event::Opened { .. }) => true,
            (State::Marking { .. }, Event::Marked { .. }) => true,
            (State::Closing { .. }, Event::Closed) => true,
            _ => false,
        }
    }

    /// Starts the creation of a socket. No protocol stands for the
    /// default protocol of the domain and type, which is zero.
    pub fn new(domain: Domain, ty: Type, protocol: Option<Protocol>) -> (state: State)
        ensures
            state == (State::Starting {
                family: domain@,
                ty: ty@,
                protocol: match protocol {
                    Some(p) => p@,
                    None => 0,
                },
            }),
    {
        let protocol = match protocol {
            Some(p) => i32::from(p),
            None => 0,
        };
        State::Starting { family: i32::from(domain), ty: i32::from(ty), protocol }
    }

    /// Starts the acceptance of a connection on `listener`.
    pub fn accept(listener: usize) -> (state: State)
        ensures
            state == (State::Accepting { listener }),
    {
        State::Accepting { listener }
    }

    /// Starts the duplication of the descriptor `source`.
    pub fn try_clone(source: usize) -> (state: State)
        ensures
            state == (State::Duplicating { source }),
    {
        State::Duplicating { source }
    }

    /// What the caller is to do in this state.
    pub fn action(&self) -> (action: Action)
        ensures
            action == self.action_of(),
    {
        match *self {
            State::Starting { .. } => Action::Init,
            State::Duplicating { source } => Action::Duplicate { source },
            State::Creating { family, ty, protocol, duplicate } => Action::Create {
                family,
                ty,
                protocol,
                duplicate,
                flags: WSA_FLAG_OVERLAPPED,
            },
            State::Accepting { listener } => Action::Accept { listener },
            State::Marking { socket } => Action::Mark {
                socket,
                mask: HANDLE_FLAG_INHERIT,
                flags: 0,
            },
            State::Closing { socket, .. } => Action::Close { socket },
            State::Ready { socket } => Action::Return { socket },
            State::Failed { error } => Action::Fail { error },
        }
    }
}

/// The state after creating or accepting returned `socket`: failed with
/// the system's error where it is the invalid descriptor, else the
/// descriptor is to be made non-inheritable.
pub open spec fn opened(socket: usize, last_error: i32) -> State {
    if socket == INVALID_SOCKET {
        State::Failed { error: Error::Os { code: last_error } }
    } else {
        State::Marking { socket }
    }
}

/// Moves on from `state` on `event`, and says what the caller is to do
/// next.
pub fn step(state: State, event: Event) -> (next: (State, Action))
    ensures
        next.0 == state.next(event),
        next.1 == next.0.action_of(),
{
    let next = match (state, event) {
        (State::Starting { family, ty, protocol }, Event::Initialized) => State::Creating {
            family,
            ty,
            protocol,
            duplicate: false,
        },
        (
            State::Duplicating { .. },
            Event::Duplicated { status, last_error, family, ty, protocol },
        ) => {
            if status != 0 {
                State::Failed { error: Error::Os { code: last_error } }
            } else {
                State::Creating { family, ty, protocol, duplicate: true }
            }
        },
        (State::Creating { .. }, Event::Opened { socket, last_error })
        | (State::Accepting { .. }, Event::Opened { socket, last_error }) => {
            if socket == INVALID_SOCKET {
                State::Failed { error: Error::Os { code: last_error } }
            } else {
                State::Marking { socket }
            }
        },
        (State::Marking { socket }, Event::Marked { status, last_error }) => {
            if status == 0 {
                State::Closing { socket, error: Error::Os { code: last_error } }
            } else {
                State::Ready { socket }
            }
        },
        (State::Closing { error, .. }, Event::Closed) => State::Failed { error },
        (state, _) => state,
    };
    (next, next.action())
}

/// What accepting ends in, once the accepted descriptor `socket` has been
/// made non-inheritable and stands ready: the descriptor with the address
/// of its peer, or, where the peer's family is neither IPv4 nor IPv6, the
/// refusal of that family together with the request to close the
/// descriptor, which is then no one's.
pub open spec fn accepted_value(socket: usize, storage: Seq<u8>) -> Result<
    (usize, SocketAddr),
    (Action, Error),
> {
    match raw_addr_value(storage) {
        Ok(addr) => Ok((socket, addr)),
        Err(e) => Err((Action::Close { socket }, e)),
    }
}

/// Ends the acceptance of a connection: reads the address of the peer that
/// accepting stored, and has the accepted descriptor closed where that
/// address is refused. `storage` is what accepting filled, and `len` the
/// length it reported.
pub fn accepted(socket: usize, storage: &[u8; SOCKADDR_STORAGE_LEN], len: i32) -> (r: Result<
    (usize, SocketAddr),
    (Action, Error),
>)
    requires
        raw_addr_fits(storage@, len as int),
    ensures
        r == accepted_value(socket, storage@),
        r is Ok <==> raw_family(storage@) == AF_INET || raw_family(storage@) == AF_INET6,
        r matches Err(refusal) ==> refusal.0 == (Action::Close { socket }) && refusal.1
            == Error::UnsupportedFamily,
{
    match raw2addr(storage, len) {
        Ok(addr) => Ok((socket, addr)),
        Err(e) => Err((Action::Close { socket }, e)),
    }
}

/// A descriptor becomes the caller's only by having been made
/// non-inheritable: the machine reaches `Ready` from no state but
/// `Marking`, with the same descriptor, on the success of setting its
/// handle flags.
pub proof fn lemma_ready_only_when_marked(state: State, event: Event)
    requires
        state.next(event) is Ready,
        !(state is Ready),
    ensures
        state == (State::Marking { socket: state.next(event)->Ready_socket }),
        event matches Event::Marked { status, .. } && status != 0,
{
}

/// No descriptor is lost: one that the machine holds is still held after
/// an event, or has become the caller's, or has just been closed.
pub proof fn lemma_no_descriptor_lost(state: State, event: Event)
    requires
        state.held() is Some,
    ensures
        state.next(event).held() == state.held() || state.next(event) == (State::Ready {
            socket: state.held().unwrap(),
        }) || (state is Closing && event is Closed),
{
}

/// A failure leaves no descriptor open: the machine fails only where
/// fetching, creating or accepting failed, in which case there was no
/// descriptor, or after it closed the descriptor that could not be made
/// non-inheritable, and then with the error of that attempt.
pub proof fn lemma_failed_holds_nothing(state: State, event: Event)
    requires
        state.next(event) is Failed,
        !(state is Failed),
    ensures
        state.next(event).held() is None,
        state.held() is Some ==> event is Closed && state == (State::Closing {
            socket: state.held().unwrap(),
            error: state.next(event)->Failed_error,
        }),
{
}

/// However a run goes, a descriptor becomes the caller's only after the
/// system reported that its handle flags were set: a run that ends in
/// `Ready`, and did not start there, holds such a report.
pub proof fn lemma_run_ready_was_marked(start: State, events: Seq<Event>)
    requires
        !(start is Ready),
        start.run(events) is Ready,
    ensures
        exists|i: int|
            0 <= i < events.len() && (#[trigger] events[i] matches Event::Marked { status, .. }
                && status != 0),
    decreases events.len(),
{
    if events.len() > 0 {
        let next = start.next(events[0]);
        if next is Ready {
            lemma_ready_only_when_marked(start, events[0]);
            assert(events[0] matches Event::Marked { status, .. } && status != 0);
        } else {
            let rest = events.drop_first();
            lemma_run_ready_was_marked(next, rest);
            let i = choose|i: int|
                0 <= i < rest.len() && (#[trigger] rest[i] matches Event::Marked { status, .. }
                    && status != 0);
            assert(events[i + 1] == rest[i]);
        }
    }
}

/// Every answer brings the end nearer: an event that answers the call
/// that the state names leaves fewer calls to be made, so that a
/// descriptor is obtained, or not, after four calls at most.
pub proof fn lemma_progress(state: State, event: Event)
    requires
        state.expects(event),
    ensures
        state.next(event).calls_left() < state.calls_left(),
        state.calls_left() <= 4,
{
}

} // verus!
