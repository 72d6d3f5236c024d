//! The timestamp configuration block that follows the streaming header.
use vstd::prelude::*;
use crate::bytes::{read_u32, u32_at};
use crate::streaming::error::Error;
use crate::time::{Frequency, Timestamp};
use crate::types::{spec_timer_counter, Endianness, TimerCounter};

verus! {

/// Bytes of the timestamp block.
pub const TIMESTAMP_INFO_SIZE: usize = 28;

/// Time base of a streaming trace.
#[derive(Copy, Clone, Debug, PartialEq, Eq, Structural)]
pub struct TimestampInfo {
    pub timer_type: TimerCounter,
    pub timer_frequency: Frequency,
    pub timer_period: u32,
    pub timer_wraparounds: u32,
    pub os_tick_rate_hz: Frequency,
    pub latest_timestamp: Timestamp,
    pub os_tick_count: u32,
}

/// The block at `pos` decodes to `t`; versions 10 and 12 put the frequency before the
/// period, later ones after it.
pub open spec fn timestamp_info_matches(t: TimestampInfo, data: Seq<u8>, pos: int, e: Endianness, format_version: u16) -> bool {
    let w = |i: int| u32_at(data, pos + 4 * i, e);
    let early = format_version == 10 || format_version == 12;
    &&& spec_timer_counter(w(0)) == Some(t.timer_type)
    &&& t.timer_frequency == Frequency(if early { w(1) } else { w(2) })
    &&& t.timer_period == if early { w(2) } else { w(1) }
    &&& t.timer_wraparounds == w(3)
    &&& t.os_tick_rate_hz == Frequency(w(4))
    &&& t.latest_timestamp == Timestamp(w(5) as u64)
    &&& t.os_tick_count == w(6)
}

/// Where decoding a timestamp block at `pos` fails, if it does.
pub open spec fn timestamp_info_failure(data: Seq<u8>, pos: int, e: Endianness) -> Option<Error> {
    if pos + 4 > data.len() {
        Some(Error::Io)
    } else if spec_timer_counter(u32_at(data, pos, e)) is None {
        Some(Error::InvalidTimerCounter(u32_at(data, pos, e)))
    } else if pos + TIMESTAMP_INFO_SIZE > data.len() {
        Some(Error::Io)
    } else {
        None
    }
}

impl TimestampInfo {
    /// Decodes the block at `pos`; returns it with the position after it.
    pub fn read(data: &[u8], pos: usize, e: Endianness, format_version: u16) -> (r: Result<(TimestampInfo, usize), Error>)
        ensures
            pos + 4 > data@.len() ==> r == Err::<(TimestampInfo, usize), Error>(Error::Io),
            pos + 4 <= data@.len() && spec_timer_counter(u32_at(data@, pos as int, e)) is None ==> r == Err::<
                (TimestampInfo, usize),
                Error,
            >(Error::InvalidTimerCounter(u32_at(data@, pos as int, e))),
            pos + 4 <= data@.len() && spec_timer_counter(u32_at(data@, pos as int, e)) is Some
                && pos + TIMESTAMP_INFO_SIZE > data@.len() ==> r == Err::<(TimestampInfo, usize), Error>(
                Error::Io,
            ),
            pos + TIMESTAMP_INFO_SIZE <= data@.len() && spec_timer_counter(u32_at(data@, pos as int, e)) is Some
                ==> (r matches Ok((t, np)) && np == pos + TIMESTAMP_INFO_SIZE && timestamp_info_matches(
                t,
                data@,
                pos as int,
                e,
                format_version,
            )),
    {
        let hwtc_type = match read_u32(data, pos, e) {
            Some(v) => v,
            None => return Err(Error::Io),
        };
        let timer_type = match TimerCounter::from_hwtc_type(hwtc_type) {
            Some(t) => t,
            None => return Err(Error::InvalidTimerCounter(hwtc_type)),
        };
        if data.len() - pos < TIMESTAMP_INFO_SIZE {
            return Err(Error::Io);
        }
        let w1 = read_u32(data, pos + 4, e).unwrap();
        let w2 = read_u32(data, pos + 8, e).unwrap();
        let early = format_version == 10 || format_version == 12;
        let t = TimestampInfo {
            timer_type,
            timer_frequency: Frequency(if early { w1 } else { w2 }),
            timer_period: if early { w2 } else { w1 },
            timer_wraparounds: read_u32(data, pos + 12, e).unwrap(),
            os_tick_rate_hz: Frequency(read_u32(data, pos + 16, e).unwrap()),
            latest_timestamp: Timestamp(read_u32(data, pos + 20, e).unwrap() as u64),
            os_tick_count: read_u32(data, pos + 24, e).unwrap(),
        };
        Ok((t, pos + TIMESTAMP_INFO_SIZE))
    }
}

} // verus!
