//! The linger option: whether, and for how long, closing a socket waits
//! for pending writes.

use vstd::prelude::*;
use crate::layout::{le16, le16_at, lemma_le16_at, read_le16, to_le16};
use crate::time::Duration;

verus! {

/// The size of a `linger` structure.
pub const LINGER_LEN: usize = 4;

/// The `linger` structure: a switch, and a time in seconds.
#[derive(Clone, Copy, Debug, PartialEq, Eq, Structural)]
pub struct Linger {
    /// Zero when closing does not linger.
    pub l_onoff: u16,
    /// How long closing lingers, in seconds.
    pub l_linger: u16,
}

impl Linger {
    /// The structure as it lies in memory: both fields in host order.
    pub open spec fn bytes(self) -> Seq<u8> {
        le16(self.l_onoff) + le16(self.l_linger)
    }

    /// The structure that lies at the start of `bytes`.
    pub open spec fn at(bytes: Seq<u8>) -> Linger {
        Linger { l_onoff: le16_at(bytes, 0), l_linger: le16_at(bytes, 2) }
    }

    /// Lays the structure out as the system takes it.
    pub fn to_bytes(&self) -> (bytes: [u8; 4])
        ensures
            bytes@ == self.bytes(),
    {
        let onoff = to_le16(self.l_onoff);
        let linger = to_le16(self.l_linger);
        let bytes = [onoff[0], onoff[1], linger[0], linger[1]];
        assert(bytes@ =~= self.bytes());
        bytes
    }

    /// Reads the structure that the system stored.
    pub fn from_bytes(bytes: &[u8]) -> (l: Linger)
        requires
            bytes@.len() >= LINGER_LEN,
        ensures
            l == Linger::at(bytes@),
    {
        Linger { l_onoff: read_le16(bytes, 0), l_linger: read_le16(bytes, 2) }
    }

    /// Reading a structure back from where it was laid out gives the
    /// structure.
    pub proof fn lemma_bytes_round_trip(l: Linger)
        ensures
            l.bytes().len() == LINGER_LEN,
            Linger::at(l.bytes()) == l,
    {
        let bytes = l.bytes();
        assert(bytes.subrange(0, 2) =~= le16(l.l_onoff));
        assert(bytes.subrange(2, 4) =~= le16(l.l_linger));
        lemma_le16_at(bytes, 0, l.l_onoff);
        lemma_le16_at(bytes, 2, l.l_linger);
    }
}

/// The `linger` structure for a linger time: switched off for none, else
/// switched on with the whole seconds of the time, of which the structure
/// keeps the low 16 bits.
pub open spec fn linger_of(dur: Option<Duration>) -> Linger {
    match dur {
        Some(d) => Linger { l_onoff: 1, l_linger: (d.secs() % 0x1_0000) as u16 },
        None => Linger { l_onoff: 0, l_linger: 0 },
    }
}

/// Whether `dur` is the linger time that a `linger` structure stands for:
/// none when it is switched off, else its time in whole seconds.
pub open spec fn linger_value(linger: Linger, dur: Option<Duration>) -> bool {
    if linger.l_onoff == 0 {
        dur is None
    } else {
        &&& dur matches Some(d)
        &&& d.secs() == linger.l_linger
        &&& d.subsec() == 0
    }
}

/// Decodes a `linger` structure into the linger time it stands for.
pub fn linger2dur(linger_opt: Linger) -> (dur: Option<Duration>)
    ensures
        linger_value(linger_opt, dur),
{
    if linger_opt.l_onoff == 0 {
        None
    } else {
        Some(Duration::from_secs(linger_opt.l_linger as u64))
    }
}

/// Encodes a linger time as a `linger` structure.
pub fn dur2linger(dur: Option<Duration>) -> (linger: Linger)
    ensures
        linger == linger_of(dur),
{
    match dur {
        Some(d) => Linger { l_onoff: 1, l_linger: (d.as_secs() % 0x1_0000) as u16 },
        None => Linger { l_onoff: 0, l_linger: 0 },
    }
}

/// A linger time of whole seconds that fit in 16 bits, and no linger time,
/// are encoded and decoded without loss.
pub proof fn lemma_linger_round_trip(dur: Option<Duration>, back: Option<Duration>)
    requires
        dur matches Some(d) ==> d.secs() < 0x1_0000 && d.subsec() == 0,
        linger_value(linger_of(dur), back),
    ensures
        back == dur,
{
    if let Some(d) = dur {
        vstd::arithmetic::div_mod::lemma_small_mod(d.secs() as nat, 0x1_0000);
        assert(linger_of(dur).l_linger == d.secs());
        Duration::lemma_same_parts(back.unwrap(), d);
    }
}

} // verus!
