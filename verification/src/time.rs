//! Durations, and timeouts as counts of milliseconds.
//!
//! The system keeps a timeout as a 32-bit count of milliseconds in which
//! zero stands for "no timeout" and the largest count for "never".

use vstd::prelude::*;
use crate::error::Error;

verus! {

/// Nanoseconds in a second.
pub const NANOS_PER_SEC: u32 = 1_000_000_000;

/// Nanoseconds in a millisecond.
pub const NANOS_PER_MILLI: u32 = 1_000_000;

/// Milliseconds in a second.
pub const MILLIS_PER_SEC: u32 = 1_000;

/// The count of milliseconds that stands for "never time out".
pub const INFINITE: u32 = 0xFFFF_FFFF;

/// A span of time: whole seconds and a fraction of a second in nanoseconds.
#[derive(Clone, Copy, Debug, PartialEq, Eq, Structural)]
pub struct Duration {
    secs: u64,
    nanos: u32,
}

impl Duration {
    #[verifier::type_invariant]
    spec fn well_formed(self) -> bool {
        self.nanos < NANOS_PER_SEC
    }

    /// The whole seconds of the span.
    pub closed spec fn secs(self) -> u64 {
        self.secs
    }

    /// The fraction of a second of the span, in nanoseconds.
    pub closed spec fn subsec(self) -> u32 {
        self.nanos
    }

    /// The whole span in nanoseconds.
    pub open spec fn nanos(self) -> nat {
        self.secs() as nat * NANOS_PER_SEC as nat + self.subsec() as nat
    }

    /// The span of `secs` seconds and `nanos` nanoseconds. Whole seconds
    /// among the nanoseconds are carried over into the seconds.
    pub fn new(secs: u64, nanos: u32) -> (d: Duration)
        requires
            secs + nanos / NANOS_PER_SEC <= u64::MAX,
        ensures
            d.secs() == secs + nanos / NANOS_PER_SEC,
            d.subsec() == nanos % NANOS_PER_SEC,
            d.nanos() == secs as nat * NANOS_PER_SEC as nat + nanos as nat,
    {
        Duration { secs: secs + (nanos / NANOS_PER_SEC) as u64, nanos: nanos % NANOS_PER_SEC }
    }

    /// The span of `secs` whole seconds.
    pub fn from_secs(secs: u64) -> (d: Duration)
        ensures
            d.secs() == secs,
            d.subsec() == 0,
    {
        Duration { secs, nanos: 0 }
    }

    /// The span of `millis` milliseconds.
    pub fn from_millis(millis: u64) -> (d: Duration)
        ensures
            d.secs() == millis / MILLIS_PER_SEC as u64,
            d.subsec() == (millis % MILLIS_PER_SEC as u64) * NANOS_PER_MILLI,
            d.nanos() == millis as nat * NANOS_PER_MILLI as nat,
    {
        let secs = millis / MILLIS_PER_SEC as u64;
        let nanos = (millis % MILLIS_PER_SEC as u64) as u32 * NANOS_PER_MILLI;
        Duration { secs, nanos }
    }

    /// The whole seconds of the span.
    pub fn as_secs(&self) -> (secs: u64)
        ensures
            secs == self.secs(),
    {
        self.secs
    }

    /// The fraction of a second of the span, in nanoseconds.
    pub fn subsec_nanos(&self) -> (nanos: u32)
        ensures
            nanos == self.subsec(),
            nanos < NANOS_PER_SEC,
    {
        proof {
            use_type_invariant(self);
        }
        self.nanos
    }

    /// Two spans with the same seconds and the same fraction are the same
    /// span.
    pub proof fn lemma_same_parts(a: Duration, b: Duration)
        requires
            a.secs() == b.secs(),
            a.subsec() == b.subsec(),
        ensures
            a == b,
    {
    }
}

/// The span in milliseconds, a started millisecond counting as a whole one.
pub open spec fn millis_rounded_up(d: Duration) -> nat {
    (d.nanos() + (NANOS_PER_MILLI - 1) as nat) / NANOS_PER_MILLI as nat
}

/// The count of milliseconds that the system takes for a timeout of `d`:
/// the span rounded up to whole milliseconds, and "never" where that is
/// more than the count can hold.
pub open spec fn timeout_millis(d: Duration) -> u32 {
    if millis_rounded_up(d) > INFINITE {
        INFINITE
    } else {
        millis_rounded_up(d) as u32
    }
}

/// What the system is given for a timeout: zero for none, else the count
/// of milliseconds. A timeout of no length is refused, because the system
/// would read it as "no timeout".
pub open spec fn timeout_value(dur: Option<Duration>) -> Result<u32, Error> {
    match dur {
        None => Ok(0u32),
        Some(d) => if d.nanos() == 0 {
            Err(Error::ZeroTimeout)
        } else {
            Ok(timeout_millis(d))
        },
    }
}

proof fn lemma_millis_rounded_up(secs: u64, subsec: u32)
    requires
        subsec < NANOS_PER_SEC,
    ensures
        (secs as nat * 1_000_000_000 + subsec as nat + 999_999) / 1_000_000 == secs * 1000 + subsec
            / 1_000_000 + (if subsec % 1_000_000 > 0 {
            1int
        } else {
            0int
        }),
{
    let q = subsec as int / 1_000_000;
    let r = subsec as int % 1_000_000;
    let n = secs as int * 1_000_000_000 + subsec as int + 999_999;
    let up: int = if r > 0 { 1 } else { 0 };
    let m = secs as int * 1000 + q + up;
    assert(n == m * 1_000_000 + (r + 999_999 - up * 1_000_000));
    assert(0 <= r + 999_999 - up * 1_000_000 < 1_000_000);
    vstd::arithmetic::div_mod::lemma_fundamental_div_mod_converse(
        n,
        1_000_000,
        m,
        r + 999_999 - up * 1_000_000,
    );
}

/// Encodes a timeout as the count of milliseconds that the system takes.
///
/// No timeout is zero. A span is rounded up to whole milliseconds, and a
/// span of more milliseconds than the count can hold becomes "never". A
/// span of no length is refused as an invalid input.
pub fn dur2ms(dur: Option<Duration>) -> (ms: Result<u32, Error>)
    ensures
        ms == timeout_value(dur),
        ms is Err <==> (dur matches Some(d) && d.nanos() == 0),
{
    match dur {
        Some(dur) => {
            let secs = dur.as_secs();
            let subsec = dur.subsec_nanos();
            proof {
                lemma_millis_rounded_up(secs, subsec);
            }
            let whole = match secs.checked_mul(1000) {
                Some(ms) => ms.checked_add((subsec / 1_000_000) as u64),
                None => None,
            };
            let up: u64 = if subsec % 1_000_000 > 0 {
                1
            } else {
                0
            };
            let rounded = match whole {
                Some(ms) => ms.checked_add(up),
                None => None,
            };
            let ms: u32 = match rounded {
                Some(ms) => if ms > INFINITE as u64 {
                    INFINITE
                } else {
                    ms as u32
                },
                None => INFINITE,
            };
            if ms == 0 {
                return Err(Error::ZeroTimeout);
            }
            Ok(ms)
        },
        None => Ok(0),
    }
}

/// The timeout that a count of milliseconds stands for.
pub open spec fn millis_value(raw: u32, dur: Option<Duration>) -> bool {
    if raw == 0 {
        dur is None
    } else {
        &&& dur matches Some(d)
        &&& d.secs() == raw / MILLIS_PER_SEC
        &&& d.subsec() == (raw % MILLIS_PER_SEC) * NANOS_PER_MILLI
    }
}

/// Decodes the count of milliseconds that the system keeps for a timeout:
/// zero is no timeout, any other count is that many milliseconds.
pub fn ms2dur(raw: u32) -> (dur: Option<Duration>)
    ensures
        millis_value(raw, dur),
        raw == 0 <==> dur is None,
        dur matches Some(d) ==> d.nanos() == raw as nat * NANOS_PER_MILLI as nat,
{
    if raw == 0 {
        None
    } else {
        let secs = raw / 1000;
        let nsec = (raw % 1000) * 1_000_000;
        Some(Duration::new(secs as u64, nsec))
    }
}

/// A count of milliseconds that is decoded and encoded again is unchanged.
/// In particular no timeout stays no timeout, and "never" stays "never".
pub proof fn lemma_millis_round_trip(raw: u32, dur: Option<Duration>)
    requires
        millis_value(raw, dur),
    ensures
        timeout_value(dur) == Ok::<u32, Error>(raw),
{
    if raw != 0 {
        let d = dur.unwrap();
        assert(raw as int == (raw as int / 1000) * 1000 + raw as int % 1000);
        assert(d.nanos() == raw as nat * 1_000_000);
        vstd::arithmetic::div_mod::lemma_fundamental_div_mod_converse(
            raw as int * 1_000_000 + 999_999,
            1_000_000,
            raw as int,
            999_999,
        );
        assert(millis_rounded_up(d) == raw as nat);
    }
}

/// A timeout of whole milliseconds that the count can hold is encoded and
/// decoded without loss.
pub proof fn lemma_timeout_round_trip(d: Duration, back: Option<Duration>)
    requires
        d.subsec() < NANOS_PER_SEC,
        d.subsec() % NANOS_PER_MILLI == 0,
        0 < d.nanos() <= INFINITE as nat * NANOS_PER_MILLI as nat,
        millis_value(timeout_millis(d), back),
    ensures
        back == Some(d),
{
    lemma_millis_rounded_up(d.secs(), d.subsec());
    let whole = d.subsec() as int / 1_000_000;
    let ms = d.secs() as int * 1000 + whole;
    assert(d.subsec() as int == whole * 1_000_000);
    assert(timeout_millis(d) == ms);
    vstd::arithmetic::div_mod::lemma_fundamental_div_mod_converse(
        ms,
        1000,
        d.secs() as int,
        whole,
    );
    let b = back.unwrap();
    assert(b.secs() == d.secs());
    assert(b.subsec() == d.subsec());
    Duration::lemma_same_parts(b, d);
}

} // verus!
