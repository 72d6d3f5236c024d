//! Everything a streaming trace declares before its events, and the decoder that reads
//! the events after it.
use vstd::prelude::*;
use crate::streaming::entry_table::{
    entry_matches, entry_table_outcome, heap_of_states, table_after_records, Entry, EntryTable,
    SYSTEM_HEAP_SYMBOL,
};
use crate::streaming::error::Error;
use crate::streaming::event::{EventCode, EventId};
use crate::streaming::events::Event;
use crate::streaming::header_info::{header_failure, header_matches, is_psf_at, psf_endianness, HeaderInfo, HEADER_BODY_SIZE};
use crate::bytes::u32_at;
use crate::streaming::parser::{code_at, next_event_post, EventParser};
use crate::streaming::timestamp_info::{
    timestamp_info_failure, timestamp_info_matches, TimestampInfo, TIMESTAMP_INFO_SIZE,
};
use crate::bytes::read_u16;
use crate::types::{Endianness, Heap, Protocol};

verus! {

/// The decoded start of a streaming trace, with the state needed to decode its events.
#[derive(Clone, Debug)]
pub struct RecorderData {
    pub protocol: Protocol,
    pub header: HeaderInfo,
    pub timestamp_info: TimestampInfo,
    pub entry_table: EntryTable,
    pub parser: EventParser,
}

/// The heap held by the table's "System Heap" entry of smallest handle, or an empty heap
/// when there is none.
pub open spec fn heap_from_table(t: Map<u32, Entry>, heap: Heap) -> bool {
    if exists|k: u32| #[trigger] t.contains_key(k) && entry_matches(t[k], SYSTEM_HEAP_SYMBOL@, None) {
        exists|k: u32| #[trigger] t.contains_key(k) && entry_matches(t[k], SYSTEM_HEAP_SYMBOL@, None)
            && heap == heap_of_states(t[k].states) && forall|j: u32| #[trigger] t.contains_key(j)
            && entry_matches(t[j], SYSTEM_HEAP_SYMBOL@, None) ==> k <= j
    } else {
        heap == (Heap { current: 0, high_water_mark: 0, max: 0 })
    }
}

/// What decoding the timestamp block and entry table at `pos`, after `header`, gives:
/// the first failure, or recorder data holding exactly what the bytes say, with the
/// position of the first event.
pub open spec fn trace_start_post(
    header: HeaderInfo,
    data: Seq<u8>,
    pos: int,
    r: Result<(RecorderData, usize), Error>,
) -> bool {
    let e = header.endianness;
    let tp = pos + TIMESTAMP_INFO_SIZE;
    match timestamp_info_failure(data, pos, e) {
        Some(x) => r == Err::<(RecorderData, usize), Error>(x),
        None => match entry_table_outcome(data, tp, e) {
            Err(x) => r == Err::<(RecorderData, usize), Error>(x),
            Ok(end) => r matches Ok((rd, np)) && np == end && rd.wf() && rd.protocol == Protocol::Streaming
                && rd.header == header && timestamp_info_matches(
                rd.timestamp_info,
                data,
                pos,
                e,
                header.format_version,
            ) && table_after_records(
                rd.entry_table@,
                data,
                tp + 12,
                u32_at(data, tp, e) as int,
                e,
                u32_at(data, tp + 4, e),
                u32_at(data, tp + 8, e),
            ) && heap_from_table(rd.entry_table@, rd.heap()) && rd.custom_printf_event_id().is_none(),
        },
    }
}

impl RecorderData {
    /// The entry table is well formed and the decoder reads the header's byte order.
    pub closed spec fn wf(&self) -> bool {
        &&& self.entry_table.wf()
        &&& self.parser.endianness() == self.header.endianness
    }

    /// The heap as tracked so far.
    pub closed spec fn heap(&self) -> Heap {
        self.parser.heap()
    }

    /// The event ID of custom printf events, when enabled.
    pub closed spec fn custom_printf_event_id(&self) -> Option<EventId> {
        self.parser.custom_printf_event_id()
    }

    /// Finds the first PSF word at or after `pos` and decodes the trace start there.
    /// Returns the recorder data and the position of the first event.
    pub fn find(data: &[u8], pos: usize) -> (r: Result<(RecorderData, usize), Error>)
        ensures
            r matches Ok((rd, np)) ==> rd.wf() && rd.protocol == Protocol::Streaming && pos <= np
                <= data@.len() && exists|at: int| pos <= at && is_psf_at(data@, at) && header_matches(
                rd.header,
                data@,
                at + 4,
                psf_endianness(u32_at(data@, at, Endianness::Little)).unwrap(),
            ),
            (forall|i: int| pos <= i ==> !#[trigger] is_psf_at(data@, i)) ==> r is Err,
            r matches Ok((rd, _)) ==> exists|at: int| pos <= at && is_psf_at(data@, at) && (forall|i: int|
                pos <= i < at ==> !#[trigger] is_psf_at(data@, i)) && trace_start_post(
                rd.header,
                data@,
                at + 4 + HEADER_BODY_SIZE,
                r,
            ),
            forall|at: int|
                pos <= at && #[trigger] is_psf_at(data@, at) && (forall|i: int| pos <= i < at ==> !#[trigger] is_psf_at(data@, i))
                    && header_failure(
                    data@,
                    at + 4,
                    psf_endianness(u32_at(data@, at, Endianness::Little)).unwrap(),
                ) is None ==> exists|h: HeaderInfo| #[trigger] header_matches(
                    h,
                    data@,
                    at + 4,
                    psf_endianness(u32_at(data@, at, Endianness::Little)).unwrap(),
                ) && trace_start_post(h, data@, at + 4 + HEADER_BODY_SIZE, r),
    {
        let found = HeaderInfo::find(data, pos);
        let (header, at, p) = match found {
            Ok(x) => x,
            Err(x) => {
                return Err(x);
            },
        };
        let r = Self::read_common(header, data, p);
        proof {
            assert forall|a: int|
                pos <= a && #[trigger] is_psf_at(data@, a) && (forall|i: int| pos <= i < a ==> !#[trigger] is_psf_at(data@, i))
                implies a == at by {
                if a < at {
                    assert(!is_psf_at(data@, a));
                }
                if at < a {
                    assert(!is_psf_at(data@, at as int));
                }
            }
        }
        assert(forall|i: int| pos <= i < at ==> !#[trigger] is_psf_at(data@, i));
        r
    }

    /// Decodes the trace start at `pos`, PSF word first.
    pub fn read(data: &[u8], pos: usize) -> (r: Result<(RecorderData, usize), Error>)
        ensures
            r matches Ok((rd, np)) ==> rd.wf() && rd.protocol == Protocol::Streaming && pos <= np
                <= data@.len() && pos + 4 <= data@.len() && psf_endianness(
                u32_at(data@, pos as int, Endianness::Little),
            ) == Some(rd.header.endianness) && header_matches(
                rd.header,
                data@,
                pos + 4,
                rd.header.endianness,
            ),
            pos + 4 > data@.len() ==> r == Err::<(RecorderData, usize), Error>(Error::Io),
            pos + 4 <= data@.len() ==> match psf_endianness(u32_at(data@, pos as int, Endianness::Little)) {
                None => r == Err::<(RecorderData, usize), Error>(
                    Error::PSFEndiannessIdentifier(u32_at(data@, pos as int, Endianness::Little)),
                ),
                Some(e) => match header_failure(data@, pos + 4, e) {
                    Some(x) => r == Err::<(RecorderData, usize), Error>(x),
                    None => exists|h: HeaderInfo| #[trigger] header_matches(h, data@, pos + 4, e)
                        && trace_start_post(h, data@, pos + 4 + HEADER_BODY_SIZE, r),
                },
            },
    {
        let (header, p) = HeaderInfo::read(data, pos)?;
        let r = Self::read_common(header, data, p);
        assert(header_matches(header, data@, pos + 4, header.endianness));
        r
    }

    /// Decodes the trace start at `pos`, the PSF word having been read already: this is
    /// how decoding resumes after `TraceRestarted`.
    pub fn read_with_endianness(endianness: Endianness, data: &[u8], pos: usize) -> (r: Result<
        (RecorderData, usize),
        Error,
    >)
        ensures
            header_failure(data@, pos as int, endianness) matches Some(x) ==> r == Err::<
                (RecorderData, usize),
                Error,
            >(x),
            header_failure(data@, pos as int, endianness) is None ==> exists|h: HeaderInfo|
                #[trigger] header_matches(h, data@, pos as int, endianness) && trace_start_post(
                h,
                data@,
                pos + HEADER_BODY_SIZE,
                r,
            ),
            r matches Ok((rd, np)) ==> rd.wf() && rd.protocol == Protocol::Streaming
                && header_matches(rd.header, data@, pos as int, endianness) && pos + HEADER_BODY_SIZE
                <= np <= data@.len(),
    {
        let (header, p) = HeaderInfo::read_with_endianness(endianness, data, pos)?;
        let r = Self::read_common(header, data, p);
        assert(header_matches(header, data@, pos as int, endianness));
        r
    }

    /// Decodes the timestamp block and the entry table that follow the header; the
    /// tracked heap starts from the table's "System Heap" entry, or empty.
    fn read_common(header: HeaderInfo, data: &[u8], pos: usize) -> (r: Result<(RecorderData, usize), Error>)
        ensures
            trace_start_post(header, data@, pos as int, r),
            r matches Ok((rd, np)) ==> pos <= np <= data@.len(),
    {
        let (timestamp_info, p) = TimestampInfo::read(data, pos, header.endianness, header.format_version)?;
        let (entry_table, q) = EntryTable::read(data, p, header.endianness)?;
        let heap = match entry_table.system_heap() {
            Some(h) => h,
            None => Heap { current: 0, high_water_mark: 0, max: 0 },
        };
        let parser = EventParser::new(header.endianness, heap);
        Ok((RecorderData { protocol: Protocol::Streaming, header, timestamp_info, entry_table, parser }, q))
    }

    pub fn system_heap(&self) -> (r: &Heap)
        ensures
            *r == self.heap(),
    {
        self.parser.system_heap()
    }

    pub fn set_custom_printf_event_id(&mut self, custom_printf_event_id: EventId)
        requires
            old(self).wf(),
        ensures
            final(self).wf(),
            final(self).custom_printf_event_id() == Some(custom_printf_event_id),
            final(self).heap() == old(self).heap(),
    {
        self.parser.set_custom_printf_event_id(custom_printf_event_id);
    }

    /// The position after the record at `pos`, going by the parameter count in its code
    /// (custom printf events carry more): where decoding resumes after an event that
    /// failed. `None` when the data ends first.
    pub fn record_end(&self, data: &[u8], pos: usize) -> (r: Option<usize>)
        ensures
            match r {
                Some(end) => end == pos + 8 + 4 * (code_at(data@, pos as int, self.header.endianness) / 0x1000)
                    && end <= data@.len(),
                None => pos + 2 > data@.len() || pos + 8 + 4 * (code_at(data@, pos as int, self.header.endianness)
                    / 0x1000) > data@.len(),
            },
    {
        let code = match read_u16(data, pos, self.header.endianness) {
            Some(c) => c,
            None => return None,
        };
        let len: usize = 8 + 4 * (code / 0x1000) as usize;
        if data.len() - pos < len {
            return None;
        }
        Some(pos + len)
    }

    /// Decodes the event at `pos`; see `EventParser::next_event`.
    pub fn read_event(&mut self, data: &[u8], pos: usize) -> (r: Result<Option<(EventCode, Event, usize)>, Error>)
        requires
            old(self).wf(),
        ensures
            final(self).wf(),
            final(self).header == old(self).header,
            next_event_post(
                old(self).parser,
                final(self).parser,
                old(self).entry_table@,
                final(self).entry_table@,
                data@,
                pos as int,
                r,
            ),
    {
        self.parser.next_event(data, pos, &mut self.entry_table)
    }
}

} // verus!
