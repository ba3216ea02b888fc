//! TCP keepalive, which is set and read through a control code of its own.

use vstd::prelude::*;
use crate::error::Error;
use crate::layout::{le32, le32_at, lemma_le32_at, read_le32, to_le32};
use crate::time::{
    dur2ms, lemma_timeout_round_trip, millis_value, ms2dur, timeout_millis, timeout_value, Duration,
    INFINITE, NANOS_PER_MILLI, NANOS_PER_SEC,
};

verus! {

/// The control code that sets and reads the keepalive values.
pub const SIO_KEEPALIVE_VALS: u32 = 0x9800_0004;

/// The size of a `tcp_keepalive` structure.
pub const TCP_KEEPALIVE_LEN: usize = 12;

/// The `tcp_keepalive` structure: a switch, the idle time before the first
/// probe and the time between probes, both in milliseconds.
#[derive(Clone, Copy, Debug, PartialEq, Eq, Structural)]
pub struct TcpKeepalive {
    pub onoff: u32,
    pub keepalivetime: u32,
    pub keepaliveinterval: u32,
}

impl TcpKeepalive {
    /// The structure as it lies in memory: the three fields in host order.
    pub open spec fn bytes(self) -> Seq<u8> {
        le32(self.onoff) + le32(self.keepalivetime) + le32(self.keepaliveinterval)
    }

    /// The structure that lies at the start of `bytes`.
    pub open spec fn at(bytes: Seq<u8>) -> TcpKeepalive {
        TcpKeepalive {
            onoff: le32_at(bytes, 0),
            keepalivetime: le32_at(bytes, 4),
            keepaliveinterval: le32_at(bytes, 8),
        }
    }

    /// Lays the structure out as the system takes it.
    pub fn to_bytes(&self) -> (bytes: [u8; 12])
        ensures
            bytes@ == self.bytes(),
    {
        let a = to_le32(self.onoff);
        let b = to_le32(self.keepalivetime);
        let c = to_le32(self.keepaliveinterval);
        let bytes = [a[0], a[1], a[2], a[3], b[0], b[1], b[2], b[3], c[0], c[1], c[2], c[3]];
        assert(bytes@ =~= self.bytes());
        bytes
    }

    /// Reads the structure that the system stored.
    pub fn from_bytes(bytes: &[u8]) -> (ka: TcpKeepalive)
        requires
            bytes@.len() >= TCP_KEEPALIVE_LEN,
        ensures
            ka == TcpKeepalive::at(bytes@),
    {
        TcpKeepalive {
            onoff: read_le32(bytes, 0),
            keepalivetime: read_le32(bytes, 4),
            keepaliveinterval: read_le32(bytes, 8),
        }
    }

    /// Reading a structure back from where it was laid out gives the
    /// structure.
    pub proof fn lemma_bytes_round_trip(ka: TcpKeepalive)
        ensures
            ka.bytes().len() == TCP_KEEPALIVE_LEN,
            TcpKeepalive::at(ka.bytes()) == ka,
    {
        let bytes = ka.bytes();
        assert(bytes.subrange(0, 4) =~= le32(ka.onoff));
        assert(bytes.subrange(4, 8) =~= le32(ka.keepalivetime));
        assert(bytes.subrange(8, 12) =~= le32(ka.keepaliveinterval));
        lemma_le32_at(bytes, 0, ka.onoff);
        lemma_le32_at(bytes, 4, ka.keepalivetime);
        lemma_le32_at(bytes, 8, ka.keepaliveinterval);
    }
}

/// The structure that sets keepalive: switched off for none, else switched
/// on with the time, as a count of milliseconds, for both the idle time and
/// the interval. A time of no length is refused.
pub open spec fn keepalive_request(keepalive: Option<Duration>) -> Result<TcpKeepalive, Error> {
    match timeout_value(keepalive) {
        Ok(ms) => Ok(
            TcpKeepalive {
                onoff: if keepalive is Some {
                    1u32
                } else {
                    0u32
                },
                keepalivetime: ms,
                keepaliveinterval: ms,
            },
        ),
        Err(e) => Err(e),
    }
}

/// Builds the structure that sets keepalive to `keepalive`.
pub fn set_keepalive(keepalive: Option<Duration>) -> (ka: Result<TcpKeepalive, Error>)
    ensures
        ka == keepalive_request(keepalive),
        ka is Err <==> (keepalive matches Some(d) && d.nanos() == 0),
{
    let ms = match dur2ms(keepalive) {
        Ok(ms) => ms,
        Err(e) => {
            return Err(e);
        },
    };
    Ok(
        TcpKeepalive {
            onoff: if keepalive.is_some() {
                1
            } else {
                0
            },
            keepalivetime: ms,
            keepaliveinterval: ms,
        },
    )
}

/// Whether `reply` is what reading keepalive gives, where the control call
/// returned `status`, the system recorded `last_error`, and the call left
/// `ka` behind: the system's error where the call failed; no keepalive
/// where it is switched off or its interval is zero; else the interval.
pub open spec fn keepalive_value(
    status: i32,
    last_error: i32,
    ka: TcpKeepalive,
    reply: Result<Option<Duration>, Error>,
) -> bool {
    if status != 0 {
        reply == Err::<Option<Duration>, Error>(Error::Os { code: last_error })
    } else if ka.onoff == 0 {
        reply == Ok::<Option<Duration>, Error>(None)
    } else {
        &&& reply matches Ok(dur)
        &&& millis_value(ka.keepaliveinterval, dur)
    }
}

/// Interprets the outcome of the control call that reads keepalive.
pub fn keepalive(status: i32, last_error: i32, ka: &TcpKeepalive) -> (reply: Result<
    Option<Duration>,
    Error,
>)
    ensures
        keepalive_value(status, last_error, *ka, reply),
{
    if status == 0 {
        Ok(
            if ka.onoff == 0 {
                None
            } else if ka.keepaliveinterval == 0 {
                None
            } else {
                ms2dur(ka.keepaliveinterval)
            },
        )
    } else {
        Err(Error::Os { code: last_error })
    }
}

/// Setting a keepalive time of whole milliseconds that the count can hold,
/// or none, and reading it back gives what was set: the answer of a call
/// that succeeded and left the structure of the request behind is the
/// time that was asked for.
pub proof fn lemma_keepalive_set_then_get(
    keepalive: Option<Duration>,
    last_error: i32,
    back: Result<Option<Duration>, Error>,
)
    requires
        keepalive matches Some(d) ==> d.subsec() < NANOS_PER_SEC && d.subsec() % NANOS_PER_MILLI
            == 0 && 0 < d.nanos() <= INFINITE as nat * NANOS_PER_MILLI as nat,
        keepalive_request(keepalive) matches Ok(ka) && keepalive_value(0, last_error, ka, back),
    ensures
        back == Ok::<Option<Duration>, Error>(keepalive),
{
    if let Some(d) = keepalive {
        let ka = keepalive_request(keepalive).unwrap();
        assert(ka.keepaliveinterval == timeout_millis(d));
        lemma_timeout_round_trip(d, back.unwrap());
    }
}

} // verus!
