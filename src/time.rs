//! Time base: frequencies, timestamps, differential timestamps and the rollover-tracking
//! instant of the streaming protocol.
use vstd::prelude::*;

verus! {

/// Frequency of the clock used as time base; zero when unknown.
#[derive(Copy, Clone, Debug, PartialEq, Eq, Structural)]
pub struct Frequency(pub u32);

impl Frequency {
    pub fn is_unitless(&self) -> (r: bool)
        ensures
            r == (self.0 == 0),
    {
        self.0 == 0
    }

    pub fn get_raw(&self) -> (r: u32)
        ensures
            r == self.0,
    {
        self.0
    }
}

/// A number of ticks spent waiting.
#[derive(Copy, Clone, Debug, PartialEq, Eq, Structural)]
pub struct Ticks(pub u32);

/// A point in time, in ticks.
#[derive(Copy, Clone, Debug, PartialEq, Eq, Structural)]
pub struct Timestamp(pub u64);

impl Timestamp {
    pub fn zero() -> (r: Self)
        ensures
            r.0 == 0,
    {
        Timestamp(0)
    }

    pub fn get_raw(&self) -> (r: u64)
        ensures
            r == self.0,
    {
        self.0
    }

    pub fn ticks(&self) -> (r: u64)
        ensures
            r == self.0,
    {
        self.0
    }

    /// The timestamp `dt` ticks later.
    pub fn add(self, dt: DifferentialTimestamp) -> (r: Timestamp)
        requires
            self.0 + dt.0 <= u64::MAX,
        ensures
            r.0 == self.0 + dt.0,
    {
        Timestamp(self.0 + dt.0 as u64)
    }

    /// Moves the timestamp `dt` ticks later.
    pub fn add_assign(&mut self, dt: DifferentialTimestamp)
        requires
            old(self).0 + dt.0 <= u64::MAX,
        ensures
            final(self).0 == old(self).0 + dt.0,
    {
        self.0 = self.0 + dt.0 as u64;
    }
}

/// Ticks since the previous event.
#[derive(Copy, Clone, Debug, PartialEq, Eq, Structural)]
pub struct DifferentialTimestamp(pub u32);

/// The low 8 bits of a differential timestamp, as carried by an event.
#[derive(Copy, Clone, Debug, PartialEq, Eq, Structural)]
pub struct Dts8(pub u8);

/// The low 16 bits of a differential timestamp, as carried by an event.
#[derive(Copy, Clone, Debug, PartialEq, Eq, Structural)]
pub struct Dts16(pub u16);

impl DifferentialTimestamp {
    pub fn ticks(&self) -> (r: u32)
        ensures
            r == self.0,
    {
        self.0
    }

    /// From an XTS8 record: its 8-bit fragment is the top byte and its 16-bit fragment
    /// the two bytes below; the next event supplies the low byte.
    pub fn from_xts8(xts_8: u8, xts_16: u16) -> (r: Self)
        ensures
            r.0 == xts_8 as int * 0x100_0000 + xts_16 as int * 0x100,
    {
        DifferentialTimestamp(xts_8 as u32 * 0x100_0000 + xts_16 as u32 * 0x100)
    }

    /// From an XTS16 record: its fragment is the top two bytes; the next event supplies
    /// the low two.
    pub fn from_xts16(xts_16: u16) -> (r: Self)
        ensures
            r.0 == xts_16 as int * 0x1_0000,
    {
        DifferentialTimestamp(xts_16 as u32 * 0x1_0000)
    }

    pub fn zero() -> (r: Self)
        ensures
            r.0 == 0,
    {
        DifferentialTimestamp(0)
    }

    pub fn clear(&mut self)
        ensures
            final(self).0 == 0,
    {
        self.0 = 0;
    }

    /// Adds the 8-bit fragment an event carries.
    pub fn add_dts8(&mut self, dts: Dts8)
        requires
            old(self).0 + dts.0 <= u32::MAX,
        ensures
            final(self).0 == old(self).0 + dts.0,
    {
        self.0 = self.0 + dts.0 as u32;
    }

    /// Adds the 16-bit fragment an event carries.
    pub fn add_dts16(&mut self, dts: Dts16)
        requires
            old(self).0 + dts.0 <= u32::MAX,
        ensures
            final(self).0 == old(self).0 + dts.0,
    {
        self.0 = self.0 + dts.0 as u32;
    }
}

/// A 64-bit tick count rebuilt from 32-bit streaming timestamps by counting rollovers.
#[derive(Copy, Clone, Debug, PartialEq, Eq, Structural)]
pub struct StreamingInstant {
    /// The last 32-bit wire timestamp.
    pub lower: u32,
    /// How many times the wire timestamp has rolled over.
    pub upper: u32,
}

impl StreamingInstant {
    /// The 64-bit tick count.
    pub open spec fn ticks(self) -> int {
        self.upper as int * 0x1_0000_0000 + self.lower as int
    }

    /// The number of rollovers seen so far.
    pub open spec fn rollovers(self) -> u32 {
        self.upper
    }

    /// The last 32-bit timestamp seen.
    pub open spec fn last(self) -> u32 {
        self.lower
    }

    pub fn zero() -> (r: Self)
        ensures
            r.ticks() == 0,
            r.rollovers() == 0,
            r.last() == 0,
    {
        StreamingInstant { lower: 0, upper: 0 }
    }

    /// Takes the next wire timestamp (its low 32 bits) and returns the 64-bit instant:
    /// a value below the previous one counts as a rollover.
    pub fn elapsed(&mut self, now: Timestamp) -> (r: Timestamp)
        requires
            ((now.0 % 0x1_0000_0000) as u32) < old(self).last() ==> old(self).rollovers() < u32::MAX,
        ensures
            final(self).last() == (now.0 % 0x1_0000_0000) as u32,
            final(self).rollovers() == if ((now.0 % 0x1_0000_0000) as u32) < old(self).last() {
                old(self).rollovers() + 1
            } else {
                old(self).rollovers() as int
            },
            r.0 == final(self).ticks(),
            r.0 == final(self).rollovers() as int * 0x1_0000_0000 + ((now.0 % 0x1_0000_0000) as u32) as int,
            final(self).ticks() >= old(self).ticks(),
    {
        let now = (now.0 % 0x1_0000_0000) as u32;
        if now < self.lower {
            self.upper = self.upper + 1;
        }
        self.lower = now;
        self.to_timestamp()
    }

    pub fn to_timestamp(&self) -> (r: Timestamp)
        ensures
            r.0 == self.ticks(),
            r.0 == self.upper as int * 0x1_0000_0000 + self.lower as int,
    {
        Timestamp(self.upper as u64 * 0x1_0000_0000 + self.lower as u64)
    }
}

} // verus!
