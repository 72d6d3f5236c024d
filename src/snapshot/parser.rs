//! The snapshot event decoder.
use vstd::prelude::*;
use crate::bytes::{u16_of, read_u16};
use crate::format::{args_match, error_matches, format_spec, format_symbol_string, SymbolLookup};
use crate::snapshot::event::{spec_event_type, EventCode, EventRecord, EventType};
use crate::snapshot::events::{spec_event_timestamp, Event, IsrEvent, IsrName, TaskName, LowPowerEvent, TaskEvent, UserEvent};
use crate::snapshot::object_properties::{display_text, ObjectPropertyTable};
use crate::snapshot::event::spec_class_of_code;
use crate::snapshot::symbol_table::SymbolTable;
use crate::time::{DifferentialTimestamp, Dts16, Dts8, Timestamp};
use crate::types::{
    Endianness, FormatString, FormattedStringError, ObjectClass, ObjectHandle,
    Protocol, UserEventChannel, MAX_USER_EVENT_ARG_RECORDS,
};

verus! {

/// Why an event record could not be decoded.
#[derive(Clone, Debug, PartialEq, Eq)]
pub enum ParseError {
    /// A user event names the zero symbol index as its format string.
    InvalidSymbolTableIndex,
    /// A user event's format string index is not in the symbol table.
    FormatSymbolLookup(ObjectHandle),
    /// A user event's channel index is not in the symbol table.
    ChannelSymbolLookup(ObjectHandle),
    /// A user event's arguments could not be decoded.
    FormattedString(FormattedStringError),
    /// An event carries the zero handle.
    InvalidObjectHandle,
    /// An event names a handle the object property table lacks.
    ObjectLookup(ObjectHandle),
    /// The accumulated time would no longer fit its 64 bits, or a differential
    /// timestamp its 32.
    TimestampOverflow,
}

/// Where a record keeps its differential timestamp, by event type.
#[derive(Copy, Clone, Debug, PartialEq, Eq, Structural)]
pub enum DtsShape {
    /// 16 bits in bytes 2 and 3 (task switches, ISRs, low power).
    Dts16,
    /// 8 bits in byte 2, after an object handle in byte 1.
    Dts8Handle,
    /// 8 bits in byte 3, after a handle and a parameter.
    Dts8Param,
    /// 8 bits in byte 1.
    Dts8First,
    /// The high parts of the next event's timestamp.
    Xts8,
    Xts16,
    /// The start of a user event.
    User,
    /// No time and no output.
    Skip,
    /// No time; the record is passed on as `Unknown`.
    Untimed,
}

/// The shape of a record of the given type.
pub open spec fn dts_shape(t: EventType) -> DtsShape {
    match t {
        EventType::TaskSwitchIsrBegin | EventType::TaskSwitchIsrResume | EventType::TaskReady
        | EventType::TaskSwitchTaskBegin | EventType::TaskSwitchTaskResume
        | EventType::LowPowerBegin | EventType::LowPowerEnd => DtsShape::Dts16,
        EventType::CreateObject(_) | EventType::Send(_) | EventType::Receive(_)
        | EventType::SendFromIsr(_) | EventType::ReceiveFromIsr(_) | EventType::SendFailed(_)
        | EventType::ReceiveFailed(_) | EventType::SendFromIsrFailed(_)
        | EventType::ReceiveFromIsrFailed(_) | EventType::ReceiveBlock(_) | EventType::SendBlock(_)
        | EventType::Peek(_) | EventType::DeleteObject(_) | EventType::TaskSuspend
        | EventType::TaskResume | EventType::TaskResumeFromIsr | EventType::PendFuncCall
        | EventType::PendFuncCallFromIsr | EventType::PendFuncCallFailed
        | EventType::PendFuncCallFromIsrFailed | EventType::TimerCreate
        | EventType::TimerDeleteObject | EventType::EventGroupCreate
        | EventType::EventGroupDeleteObject | EventType::TaskNotify | EventType::TaskNotifyFromIsr
        | EventType::TaskNotifyGiveFromIsr | EventType::TimerExpired | EventType::QueuePeekBlock
        | EventType::SemaphortPeekBlock | EventType::MutexPeekBlock | EventType::QueuePeekFailed
        | EventType::SemaphortPeekFailed | EventType::MutexPeekFailed
        | EventType::StreambufferReset | EventType::MessagebufferReset => DtsShape::Dts8Handle,
        EventType::TaskPrioritySet | EventType::TaskPriorityInherit
        | EventType::TaskPriorityDisinherit | EventType::TimerStart | EventType::TimerReset
        | EventType::TimerStop | EventType::TimerChangePeriod | EventType::TimerStartFromIsr
        | EventType::TimerResetFromIsr | EventType::TimerStopFromIsr | EventType::TimerStartFailed
        | EventType::TimerResetFailed | EventType::TimerStopFailed
        | EventType::TimerChangePeriodFailed | EventType::TimerDeleteFailed
        | EventType::TimerStartFromIsrFailed | EventType::TimerResetFromIsrFailed
        | EventType::TimerStopFromIsrFailed | EventType::EventGroupSyncBlock
        | EventType::EventGroupSyncEnd | EventType::EventGroupWaitBitsBlock
        | EventType::EventGroupWaitBitsEnd | EventType::EventGroupClearBits
        | EventType::EventGroupClearBitsFromIsr | EventType::EventGroupSetBits
        | EventType::EventGroupSyncEndFailed | EventType::EventGroupWaitBitsEndFailed
        | EventType::EventGroupSetBitsFromIsr | EventType::EventGroupSetBitsFromIsrFailed
        | EventType::TaskInstanceFinishedNextKse | EventType::TaskInstanceFinishedDirect
        | EventType::TaskNotifyTake | EventType::TaskNotifyTakeBlock
        | EventType::TaskNotifyTakeFailed | EventType::TaskNotifyWait
        | EventType::TaskNotifyWaitBlock | EventType::TaskNotifyWaitFailed
        | EventType::UnusedStack => DtsShape::Dts8Param,
        EventType::NewTime | EventType::CreateObjectFailed(_) | EventType::TaskDelayUntil
        | EventType::TaskDelay | EventType::TimerCreateFailed | EventType::EventGroupCreateFailed
        | EventType::MemoryMallocSize | EventType::MemoryFreeSize
        | EventType::MemoryMallocSizeFailed => DtsShape::Dts8First,
        EventType::Xts8 => DtsShape::Xts8,
        EventType::Xts16 => DtsShape::Xts16,
        EventType::UserEvent(_) => DtsShape::User,
        EventType::EventBeingWritten => DtsShape::Skip,
        _ => DtsShape::Untimed,
    }
}

/// The differential timestamp fragment a timed record carries.
pub open spec fn record_dts(shape: DtsShape, r: [u8; 4], e: Endianness) -> int {
    match shape {
        DtsShape::Dts16 => u16_of(r[2], r[3], e) as int,
        DtsShape::Dts8Handle => r[2] as int,
        DtsShape::Dts8Param => r[3] as int,
        DtsShape::Dts8First => r[1] as int,
        _ => 0,
    }
}

/// Decoder state: the clock and any user event being reassembled.
#[derive(Clone, Debug)]
pub struct EventParser {
    endianness: Endianness,
    accumulated_time: Timestamp,
    dts_for_next_event: DifferentialTimestamp,
    user_arg_record_count: usize,
    user_event_records: Vec<EventRecord>,
}

impl EventParser {
    /// A user event under reassembly never holds more records than it needs.
    pub closed spec fn wf(&self) -> bool {
        &&& self.user_arg_record_count <= MAX_USER_EVENT_ARG_RECORDS
        &&& self.user_event_records@.len() <= self.user_arg_record_count
    }

    /// The time of the last timed event.
    pub closed spec fn accumulated_time(&self) -> u64 {
        self.accumulated_time.0
    }

    /// The high parts collected for the next timed event.
    pub closed spec fn dts_for_next_event(&self) -> u32 {
        self.dts_for_next_event.0
    }

    /// Whether records are being collected for a user event.
    pub closed spec fn capturing(&self) -> bool {
        self.user_event_records@.len() > 0
    }

    /// The records of the user event under reassembly.
    pub closed spec fn pending_records(&self) -> Seq<EventRecord> {
        self.user_event_records@
    }

    /// How many more records the user event under reassembly needs.
    pub closed spec fn records_missing(&self) -> int {
        self.user_arg_record_count + 1 - self.user_event_records@.len()
    }

    /// Byte order of the records.
    pub closed spec fn endianness(&self) -> Endianness {
        self.endianness
    }

    pub fn new(endianness: Endianness) -> (r: Self)
        ensures
            r.wf(),
            r.endianness() == endianness,
            r.accumulated_time() == 0,
            r.dts_for_next_event() == 0,
            !r.capturing(),
    {
        EventParser {
            endianness,
            accumulated_time: Timestamp(0),
            dts_for_next_event: DifferentialTimestamp(0),
            user_arg_record_count: 0,
            user_event_records: Vec::new(),
        }
    }

    /// Folds the fragment of a timed event into the clock and returns the event's time.
    fn get_timestamp(&mut self, dts: u32) -> (r: Result<Timestamp, ParseError>)
        requires
            dts <= 0xFFFF,
        ensures
            final(self).endianness() == old(self).endianness(),
            final(self).user_event_records == old(self).user_event_records,
            final(self).user_arg_record_count == old(self).user_arg_record_count,
            old(self).dts_for_next_event() + dts + old(self).accumulated_time() <= u64::MAX
                && old(self).dts_for_next_event() + dts <= u32::MAX ==> (r matches Ok(t) && t.0
                == old(self).accumulated_time() + old(self).dts_for_next_event() + dts
                && final(self).accumulated_time() == t.0 && final(self).dts_for_next_event() == 0),
            !(old(self).dts_for_next_event() + dts + old(self).accumulated_time() <= u64::MAX
                && old(self).dts_for_next_event() + dts <= u32::MAX) ==> r == Err::<Timestamp, ParseError>(
                ParseError::TimestampOverflow,
            ),
    {
        if self.dts_for_next_event.0 > u32::MAX - dts {
            return Err(ParseError::TimestampOverflow);
        }
        if dts <= 0xFF {
            self.dts_for_next_event.add_dts8(Dts8(dts as u8));
        } else {
            self.dts_for_next_event.add_dts16(Dts16(dts as u16));
        }
        if self.accumulated_time.0 > u64::MAX - self.dts_for_next_event.0 as u64 {
            return Err(ParseError::TimestampOverflow);
        }
        self.accumulated_time.add_assign(self.dts_for_next_event);
        self.dts_for_next_event.clear();
        Ok(self.accumulated_time)
    }
}

/// The bytes of a run of records, one after another.
pub open spec fn record_bytes(rs: Seq<EventRecord>) -> Seq<u8>
    decreases rs.len(),
{
    if rs.len() == 0 {
        seq![]
    } else {
        record_bytes(rs.drop_last()) + rs.last().0@
    }
}

/// What a complete user event (its base record followed by its argument records) decodes
/// to, from the decoder state before (`acc`, `next`) and the symbol table: the format
/// string is the symbol at the base record's 16-bit index, the text and arguments are
/// what the formatter makes of it over the argument records' bytes, the channel is the
/// symbol that the format entry's channel index names (the default channel when there is
/// none), and the time advances by the base record's 8-bit fragment.
pub open spec fn user_event_result(
    records: Seq<EventRecord>,
    e: Endianness,
    acc: u64,
    next: u32,
    table: SymbolTable,
    r: Result<Option<(EventType, Event)>, ParseError>,
) -> bool {
    let base = records[0].0;
    let idx = u16_of(base[2], base[3], e) as u32;
    let syms = table.view();
    if idx == 0 {
        r == Err::<Option<(EventType, Event)>, ParseError>(ParseError::InvalidSymbolTableIndex)
    } else if !syms.contains_key(idx) {
        r matches Err(ParseError::FormatSymbolLookup(h)) && h.id() == idx
    } else {
        let entry = syms[idx];
        match format_spec(table.symbol_map(), Protocol::Snapshot, e, entry.symbol.0@, record_bytes(records.drop_first())) {
            Err(f) => r matches Err(ParseError::FormattedString(x)) && error_matches(x, f),
            Ok((pieces, specs)) => (next + base[1] <= u32::MAX && acc + next + base[1] <= u64::MAX ==> r is Ok)
                && (r is Ok ==> (r matches Ok(Some((t, Event::User(u)))) && t == spec_event_type(base[0])
                && u.format_string.0@ == entry.symbol.0@ && u.formatted_string.pieces_view() == pieces
                && args_match(u.args@, specs, table.symbol_map()) && u.timestamp.0 == acc + next + base[1]
                && match entry.channel_index {
                    Some(ci) if syms.contains_key(ci.id()) => (u.channel matches UserEventChannel::Custom(c)
                        && c@ == syms[ci.id()].symbol.0@),
                    _ => u.channel == UserEventChannel::Default,
                })),
        }
    }
}

/// The high part an XTS8 record gives: its byte 1 on top, its 16-bit field below.
pub open spec fn xts8_dts(r: [u8; 4], e: Endianness) -> int {
    r[1] as int * 0x100_0000 + u16_of(r[2], r[3], e) as int * 0x100
}

/// The high part an XTS16 record gives: its 16-bit field on top.
pub open spec fn xts16_dts(r: [u8; 4], e: Endianness) -> int {
    u16_of(r[2], r[3], e) as int * 0x1_0000
}

/// The event variant a record of the given type decodes to: the typed task, ISR and
/// low-power events, task creation for the task class, user events, and `Unknown` with
/// the record itself for everything else.
pub open spec fn event_of_type(ev: Event, t: EventType, record: EventRecord) -> bool {
    match t {
        EventType::TaskSwitchIsrBegin => ev is IsrBegin,
        EventType::TaskSwitchIsrResume => ev is IsrResume,
        EventType::TaskReady => ev is TaskReady,
        EventType::TaskSwitchTaskBegin => ev is TaskBegin,
        EventType::TaskSwitchTaskResume => ev is TaskResume,
        EventType::LowPowerBegin => ev is LowPowerBegin,
        EventType::LowPowerEnd => ev is LowPowerEnd,
        EventType::CreateObject(occ) => if spec_class_of_code(occ.0) == ObjectClass::Task {
            ev is TaskCreate
        } else {
            ev matches Event::Unknown(_, rec) && rec == record
        },
        EventType::UserEvent(_) => ev is User,
        _ => ev matches Event::Unknown(_, rec) && rec == record,
    }
}

/// A timed record decodes: the clock does not overflow, and the object it names (where it
/// names one) has a non-zero handle present in its class's table.
pub open spec fn timed_record_ok(
    t: EventType,
    r: [u8; 4],
    e: Endianness,
    acc: u64,
    next: u32,
    props: ObjectPropertyTable,
) -> bool {
    let shape = dts_shape(t);
    let dts = record_dts(shape, r, e);
    &&& next + dts <= u32::MAX
    &&& acc + next + dts <= u64::MAX
    &&& match t {
        EventType::TaskSwitchIsrBegin | EventType::TaskSwitchIsrResume => r[1] != 0
            && props.isr_object_properties@.contains_key(r[1] as u32),
        EventType::TaskReady | EventType::TaskSwitchTaskBegin | EventType::TaskSwitchTaskResume => r[1] != 0
            && props.task_object_properties@.contains_key(r[1] as u32),
        EventType::CreateObject(occ) => r[1] != 0 && (spec_class_of_code(occ.0) == ObjectClass::Task
            ==> props.task_object_properties@.contains_key(r[1] as u32)),
        _ => shape == DtsShape::Dts8Handle ==> r[1] != 0,
    }
}

/// What decoding one record does, from the decoder state before to the one after, with
/// result `r`: see `EventParser::parse`.
pub open spec fn parse_post(
    old_p: EventParser,
    new_p: EventParser,
    obj_props: ObjectPropertyTable,
    symbol_table: SymbolTable,
    record: EventRecord,
    r: Result<Option<(EventType, Event)>, ParseError>,
) -> bool {
    &&& (new_p.wf())
    &&& (new_p.endianness() == old_p.endianness())
    &&& (r matches Ok(Some((_, ev))) ==> match ev {
        Event::IsrBegin(x) | Event::IsrResume(x) => x.handle.id() == record.0[1]
            && obj_props.isr_object_properties@.contains_key(record.0[1] as u32) && x.name.0@
            == display_text(obj_props.isr_object_properties@[record.0[1] as u32]),
        Event::TaskBegin(x) | Event::TaskReady(x) | Event::TaskResume(x) | Event::TaskCreate(x) =>
            x.handle.id() == record.0[1] && obj_props.task_object_properties@.contains_key(
            record.0[1] as u32,
        ) && x.name.0@ == display_text(obj_props.task_object_properties@[record.0[1] as u32]),
        Event::Unknown(_, rec) => rec == record,
        _ => true,
    })
    &&& (old_p.capturing() && old_p.records_missing() > 1 ==> r == Ok::<
        Option<(EventType, Event)>,
        ParseError,
    >(None) && new_p.capturing() && new_p.records_missing() == old_p.records_missing() - 1
        && new_p.pending_records() == old_p.pending_records().push(record)
        && new_p.accumulated_time() == old_p.accumulated_time()
        && new_p.dts_for_next_event() == old_p.dts_for_next_event())
    &&& (old_p.capturing() && old_p.records_missing() == 1 ==> user_event_result(
        old_p.pending_records().push(record),
        old_p.endianness(),
        old_p.accumulated_time(),
        old_p.dts_for_next_event(),
        symbol_table,
        r,
    ) && !new_p.capturing())
    &&& (!old_p.capturing() && record.0[0] == 0x98 ==> user_event_result(
        seq![record],
        old_p.endianness(),
        old_p.accumulated_time(),
        old_p.dts_for_next_event(),
        symbol_table,
        r,
    ) && !new_p.capturing())
    &&& (!old_p.capturing() && !(dts_shape(spec_event_type(record.0[0])) is User) ==> !new_p.capturing())
    &&& (!old_p.capturing() ==> (r matches Ok(Some((rt, ev))) ==> rt == spec_event_type(record.0[0])
        && event_of_type(ev, rt, record)))
    &&& (!old_p.capturing() ==> {
        let t = spec_event_type(record.0[0]);
        let shape = dts_shape(t);
        let e = old_p.endianness();
        let acc = old_p.accumulated_time();
        let next = old_p.dts_for_next_event();
        match shape {
            DtsShape::Xts8 => r == Ok::<Option<(EventType, Event)>, ParseError>(None)
                && new_p.dts_for_next_event() == xts8_dts(record.0, e)
                && new_p.accumulated_time() == acc,
            DtsShape::Xts16 => r == Ok::<Option<(EventType, Event)>, ParseError>(None)
                && new_p.dts_for_next_event() == xts16_dts(record.0, e)
                && new_p.accumulated_time() == acc,
            DtsShape::Skip => r == Ok::<Option<(EventType, Event)>, ParseError>(None)
                && new_p.dts_for_next_event() == next
                && new_p.accumulated_time() == acc,
            DtsShape::Untimed => r == Ok::<Option<(EventType, Event)>, ParseError>(
                Some((t, Event::Unknown(Timestamp(acc), record))),
            ) && new_p.dts_for_next_event() == next && new_p.accumulated_time() == acc,
            DtsShape::User => (record.0[0] > 0x98 ==> (r == Ok::<Option<(EventType, Event)>, ParseError>(
                None,
            ) && new_p.capturing() && new_p.records_missing() == record.0[0] - 0x98
                && new_p.pending_records() == seq![record] && new_p.accumulated_time() == acc
                && new_p.dts_for_next_event() == next)) && (r matches Ok(Some((_, ev))) ==> ev is User),
            _ => (timed_record_ok(t, record.0, e, acc, next, obj_props) ==> r is Ok) && (r is Ok ==> (r matches Ok(Some((rt, ev))) && rt == t
                && new_p.accumulated_time() == acc + next + record_dts(shape, record.0, e)
                && new_p.dts_for_next_event() == 0 && spec_event_timestamp(ev).0
                == new_p.accumulated_time())) && ((shape == DtsShape::Dts8Handle
                && record.0[1] == 0) ==> r == Err::<Option<(EventType, Event)>, ParseError>(
                ParseError::InvalidObjectHandle,
            )),
        }
    })
}

impl EventParser {
    /// Decodes one record. XTS records, records being written and the argument records
    /// of a user event give no event. Timed records advance the clock by their fragment
    /// plus the high parts collected before them.
    pub fn parse(&mut self, obj_props: &ObjectPropertyTable, symbol_table: &SymbolTable, record: EventRecord) -> (r: Result<
        Option<(EventType, Event)>,
        ParseError,
    >)
        requires
            old(self).wf(),
            obj_props.wf(),
            symbol_table.wf(),
        ensures
            parse_post(*old(self), *final(self), *obj_props, *symbol_table, record, r),
    {
        self.parse_record(obj_props, symbol_table, record)
    }

    /// The body of `parse`.
    fn parse_record(&mut self, obj_props: &ObjectPropertyTable, symbol_table: &SymbolTable, record: EventRecord) -> (r: Result<
        Option<(EventType, Event)>,
        ParseError,
    >)
        requires
            old(self).wf(),
            obj_props.wf(),
            symbol_table.wf(),
        ensures
            final(self).wf(),
            final(self).endianness() == old(self).endianness(),
            r matches Ok(Some((_, ev))) ==> match ev {
                Event::IsrBegin(x) | Event::IsrResume(x) => x.handle.id() == record.0[1]
                    && obj_props.isr_object_properties@.contains_key(record.0[1] as u32) && x.name.0@
                    == display_text(obj_props.isr_object_properties@[record.0[1] as u32]),
                Event::TaskBegin(x) | Event::TaskReady(x) | Event::TaskResume(x) | Event::TaskCreate(x) =>
                    x.handle.id() == record.0[1] && obj_props.task_object_properties@.contains_key(
                    record.0[1] as u32,
                ) && x.name.0@ == display_text(obj_props.task_object_properties@[record.0[1] as u32]),
                Event::Unknown(_, rec) => rec == record,
                _ => true,
            },
            old(self).capturing() && old(self).records_missing() > 1 ==> r == Ok::<
                Option<(EventType, Event)>,
                ParseError,
            >(None) && final(self).capturing() && final(self).records_missing() == old(self).records_missing() - 1
                && final(self).pending_records() == old(self).pending_records().push(record)
                && final(self).accumulated_time() == old(self).accumulated_time()
                && final(self).dts_for_next_event() == old(self).dts_for_next_event(),
            old(self).capturing() && old(self).records_missing() == 1 ==> user_event_result(
                old(self).pending_records().push(record),
                old(self).endianness(),
                old(self).accumulated_time(),
                old(self).dts_for_next_event(),
                *symbol_table,
                r,
            ) && !final(self).capturing(),
            !old(self).capturing() && record.0[0] == 0x98 ==> user_event_result(
                seq![record],
                old(self).endianness(),
                old(self).accumulated_time(),
                old(self).dts_for_next_event(),
                *symbol_table,
                r,
            ) && !final(self).capturing(),
            !old(self).capturing() && !(dts_shape(spec_event_type(record.0[0])) is User) ==> !final(self).capturing(),
            !old(self).capturing() ==> (r matches Ok(Some((rt, ev))) ==> rt == spec_event_type(record.0[0])
                && event_of_type(ev, rt, record)),
            !old(self).capturing() ==> {
                let t = spec_event_type(record.0[0]);
                let shape = dts_shape(t);
                let e = old(self).endianness();
                let acc = old(self).accumulated_time();
                let next = old(self).dts_for_next_event();
                match shape {
                    DtsShape::Xts8 => r == Ok::<Option<(EventType, Event)>, ParseError>(None)
                        && final(self).dts_for_next_event() == xts8_dts(record.0, e)
                        && final(self).accumulated_time() == acc,
                    DtsShape::Xts16 => r == Ok::<Option<(EventType, Event)>, ParseError>(None)
                        && final(self).dts_for_next_event() == xts16_dts(record.0, e)
                        && final(self).accumulated_time() == acc,
                    DtsShape::Skip => r == Ok::<Option<(EventType, Event)>, ParseError>(None)
                        && final(self).dts_for_next_event() == next
                        && final(self).accumulated_time() == acc,
                    DtsShape::Untimed => r == Ok::<Option<(EventType, Event)>, ParseError>(
                        Some((t, Event::Unknown(Timestamp(acc), record))),
                    ) && final(self).dts_for_next_event() == next && final(self).accumulated_time() == acc,
                    DtsShape::User => (record.0[0] > 0x98 ==> (r == Ok::<Option<(EventType, Event)>, ParseError>(
                        None,
                    ) && final(self).capturing() && final(self).records_missing() == record.0[0] - 0x98
                        && final(self).pending_records() == seq![record] && final(self).accumulated_time() == acc
                        && final(self).dts_for_next_event() == next)) && (r matches Ok(Some((_, ev))) ==> ev is User),
                    _ => (timed_record_ok(t, record.0, e, acc, next, *obj_props) ==> r is Ok) && (r is Ok ==> (r matches Ok(Some((rt, ev))) && rt == t
                        && final(self).accumulated_time() == acc + next + record_dts(shape, record.0, e)
                        && final(self).dts_for_next_event() == 0 && spec_event_timestamp(ev).0
                        == final(self).accumulated_time())) && ((shape == DtsShape::Dts8Handle
                        && record.0[1] == 0) ==> r == Err::<Option<(EventType, Event)>, ParseError>(
                        ParseError::InvalidObjectHandle,
                    )),
                }
            },
    {
        let event_code = record.event_code();
        let event_type = EventType::from(event_code);
        if self.user_event_records.len() > 0 {
            self.user_event_records.push(record);
            return self.parse_user_event(symbol_table);
        }
        let e = self.endianness;
        let b = record.0;
        let field16 = read_u16(record.as_slice(), 2, e).unwrap() as u32;
        match event_type {
            EventType::TaskSwitchIsrBegin | EventType::TaskSwitchIsrResume => {
                let handle = match ObjectHandle::new(b[1] as u32) {
                    Some(h) => h,
                    None => return Err(ParseError::InvalidObjectHandle),
                };
                let obj = match obj_props.isr_object_properties.get(handle.get()) {
                    Some(o) => o,
                    None => return Err(ParseError::ObjectLookup(handle)),
                };
                let name = IsrName(obj.display_name().to_owned());
                let priority = obj.priority();
                let timestamp = self.get_timestamp(field16)?;
                let event = IsrEvent { handle, name, priority, timestamp };
                Ok(Some((event_type, match event_type {
                    EventType::TaskSwitchIsrBegin => Event::IsrBegin(event),
                    _ => Event::IsrResume(event),
                })))
            },
            EventType::TaskReady | EventType::TaskSwitchTaskBegin | EventType::TaskSwitchTaskResume => {
                let handle = match ObjectHandle::new(b[1] as u32) {
                    Some(h) => h,
                    None => return Err(ParseError::InvalidObjectHandle),
                };
                let obj = match obj_props.task_object_properties.get(handle.get()) {
                    Some(o) => o,
                    None => return Err(ParseError::ObjectLookup(handle)),
                };
                let name = TaskName(obj.display_name().to_owned());
                let state = obj.state();
                let priority = obj.current_priority();
                let timestamp = self.get_timestamp(field16)?;
                let event = TaskEvent { handle, name, state, priority, timestamp };
                Ok(Some((event_type, match event_type {
                    EventType::TaskReady => Event::TaskReady(event),
                    EventType::TaskSwitchTaskBegin => Event::TaskBegin(event),
                    _ => Event::TaskResume(event),
                })))
            },
            EventType::LowPowerBegin | EventType::LowPowerEnd => {
                let timestamp = self.get_timestamp(field16)?;
                let event = LowPowerEvent { timestamp };
                Ok(Some((event_type, match event_type {
                    EventType::LowPowerBegin => Event::LowPowerBegin(event),
                    _ => Event::LowPowerEnd(event),
                })))
            },
            EventType::CreateObject(occ) => {
                let handle = match ObjectHandle::new(b[1] as u32) {
                    Some(h) => h,
                    None => return Err(ParseError::InvalidObjectHandle),
                };
                let timestamp = self.get_timestamp(b[2] as u32)?;
                match occ.into_class() {
                    ObjectClass::Task => {
                        let obj = match obj_props.task_object_properties.get(handle.get()) {
                            Some(o) => o,
                            None => return Err(ParseError::ObjectLookup(handle)),
                        };
                        let event = TaskEvent {
                            handle,
                            name: TaskName(obj.display_name().to_owned()),
                            state: obj.state(),
                            priority: obj.current_priority(),
                            timestamp,
                        };
                        Ok(Some((event_type, Event::TaskCreate(event))))
                    },
                    _ => Ok(Some((event_type, Event::Unknown(timestamp, record)))),
                }
            },
            EventType::UserEvent(count) => {
                self.user_arg_record_count = count.0 as usize;
                self.user_event_records.push(record);
                self.parse_user_event(symbol_table)
            },
            EventType::Xts8 => {
                self.dts_for_next_event = DifferentialTimestamp::from_xts8(b[1], field16 as u16);
                Ok(None)
            },
            EventType::Xts16 => {
                self.dts_for_next_event = DifferentialTimestamp::from_xts16(field16 as u16);
                Ok(None)
            },
            EventType::EventBeingWritten => Ok(None),
            _ => {
                let shape = self.shape_of(event_type);
                let dts: u32 = match shape {
                    DtsShape::Dts8Handle => {
                        if b[1] == 0 {
                            return Err(ParseError::InvalidObjectHandle);
                        }
                        b[2] as u32
                    },
                    DtsShape::Dts8Param => b[3] as u32,
                    DtsShape::Dts8First => b[1] as u32,
                    _ => return Ok(Some((event_type, Event::Unknown(self.accumulated_time, record)))),
                };
                let timestamp = self.get_timestamp(dts)?;
                Ok(Some((event_type, Event::Unknown(timestamp, record))))
            },
        }
    }

    fn shape_of(&self, t: EventType) -> (r: DtsShape)
        ensures
            r == dts_shape(t),
    {
        match t {
            EventType::TaskSwitchIsrBegin | EventType::TaskSwitchIsrResume | EventType::TaskReady
            | EventType::TaskSwitchTaskBegin | EventType::TaskSwitchTaskResume
            | EventType::LowPowerBegin | EventType::LowPowerEnd => DtsShape::Dts16,
            EventType::CreateObject(_) | EventType::Send(_) | EventType::Receive(_)
            | EventType::SendFromIsr(_) | EventType::ReceiveFromIsr(_) | EventType::SendFailed(_)
            | EventType::ReceiveFailed(_) | EventType::SendFromIsrFailed(_)
            | EventType::ReceiveFromIsrFailed(_) | EventType::ReceiveBlock(_) | EventType::SendBlock(_)
            | EventType::Peek(_) | EventType::DeleteObject(_) | EventType::TaskSuspend
            | EventType::TaskResume | EventType::TaskResumeFromIsr | EventType::PendFuncCall
            | EventType::PendFuncCallFromIsr | EventType::PendFuncCallFailed
            | EventType::PendFuncCallFromIsrFailed | EventType::TimerCreate
            | EventType::TimerDeleteObject | EventType::EventGroupCreate
            | EventType::EventGroupDeleteObject | EventType::TaskNotify | EventType::TaskNotifyFromIsr
            | EventType::TaskNotifyGiveFromIsr | EventType::TimerExpired | EventType::QueuePeekBlock
            | EventType::SemaphortPeekBlock | EventType::MutexPeekBlock | EventType::QueuePeekFailed
            | EventType::SemaphortPeekFailed | EventType::MutexPeekFailed
            | EventType::StreambufferReset | EventType::MessagebufferReset => DtsShape::Dts8Handle,
            EventType::TaskPrioritySet | EventType::TaskPriorityInherit
            | EventType::TaskPriorityDisinherit | EventType::TimerStart | EventType::TimerReset
            | EventType::TimerStop | EventType::TimerChangePeriod | EventType::TimerStartFromIsr
            | EventType::TimerResetFromIsr | EventType::TimerStopFromIsr | EventType::TimerStartFailed
            | EventType::TimerResetFailed | EventType::TimerStopFailed
            | EventType::TimerChangePeriodFailed | EventType::TimerDeleteFailed
            | EventType::TimerStartFromIsrFailed | EventType::TimerResetFromIsrFailed
            | EventType::TimerStopFromIsrFailed | EventType::EventGroupSyncBlock
            | EventType::EventGroupSyncEnd | EventType::EventGroupWaitBitsBlock
            | EventType::EventGroupWaitBitsEnd | EventType::EventGroupClearBits
            | EventType::EventGroupClearBitsFromIsr | EventType::EventGroupSetBits
            | EventType::EventGroupSyncEndFailed | EventType::EventGroupWaitBitsEndFailed
            | EventType::EventGroupSetBitsFromIsr | EventType::EventGroupSetBitsFromIsrFailed
            | EventType::TaskInstanceFinishedNextKse | EventType::TaskInstanceFinishedDirect
            | EventType::TaskNotifyTake | EventType::TaskNotifyTakeBlock
            | EventType::TaskNotifyTakeFailed | EventType::TaskNotifyWait
            | EventType::TaskNotifyWaitBlock | EventType::TaskNotifyWaitFailed
            | EventType::UnusedStack => DtsShape::Dts8Param,
            EventType::NewTime | EventType::CreateObjectFailed(_) | EventType::TaskDelayUntil
            | EventType::TaskDelay | EventType::TimerCreateFailed | EventType::EventGroupCreateFailed
            | EventType::MemoryMallocSize | EventType::MemoryFreeSize
            | EventType::MemoryMallocSizeFailed => DtsShape::Dts8First,
            EventType::Xts8 => DtsShape::Xts8,
            EventType::Xts16 => DtsShape::Xts16,
            EventType::UserEvent(_) => DtsShape::User,
            EventType::EventBeingWritten => DtsShape::Skip,
            _ => DtsShape::Untimed,
        }
    }

    /// Decodes the user event being reassembled once all its records are in: the base
    /// record holds the 8-bit fragment and the format string's symbol index, the others
    /// the argument bytes. The collected records are dropped afterwards, also on error.
    fn parse_user_event(&mut self, symbol_table: &SymbolTable) -> (r: Result<Option<(EventType, Event)>, ParseError>)
        requires
            symbol_table.wf(),
            old(self).user_arg_record_count <= MAX_USER_EVENT_ARG_RECORDS,
            1 <= old(self).user_event_records@.len() <= old(self).user_arg_record_count + 1,
        ensures
            final(self).wf(),
            final(self).endianness() == old(self).endianness(),
            old(self).user_event_records@.len() < old(self).user_arg_record_count + 1 ==> r == Ok::<
                Option<(EventType, Event)>,
                ParseError,
            >(None) && final(self).user_event_records@ == old(self).user_event_records@
                && final(self).user_arg_record_count == old(self).user_arg_record_count
                && final(self).accumulated_time() == old(self).accumulated_time()
                && final(self).dts_for_next_event() == old(self).dts_for_next_event(),
            old(self).user_event_records@.len() == old(self).user_arg_record_count + 1 ==> user_event_result(
                old(self).user_event_records@,
                old(self).endianness(),
                old(self).accumulated_time(),
                old(self).dts_for_next_event(),
                *symbol_table,
                r,
            ) && !final(self).capturing(),
            r matches Ok(Some((_, ev))) ==> ev is User,
    {
        if self.user_event_records.len() < self.user_arg_record_count + 1 {
            return Ok(None);
        }
        let records = self.take_user_records();
        let e = self.endianness;
        let base = records[0];
        let event_type = EventType::from(EventCode(base.0[0]));
        let index = read_u16(base.as_slice(), 2, e).unwrap();
        let fmt_handle = match ObjectHandle::new(index as u32) {
            Some(h) => h,
            None => return Err(ParseError::InvalidSymbolTableIndex),
        };
        let entry = match symbol_table.get(fmt_handle) {
            Some(x) => x,
            None => return Err(ParseError::FormatSymbolLookup(fmt_handle)),
        };
        let channel = match entry.channel_index {
            Some(ci) => match symbol_table.get(ci) {
                Some(ce) => UserEventChannel::Custom(ce.symbol.0.clone()),
                None => UserEventChannel::Default,
            },
            None => UserEventChannel::Default,
        };
        let mut arg_bytes: Vec<u8> = Vec::new();
        let mut i: usize = 1;
        while i < records.len()
            invariant
                1 <= i <= records@.len(),
                arg_bytes@ == record_bytes(records@.subrange(1, i as int)),
            decreases records.len() - i,
        {
            let rec = records[i].0;
            arg_bytes.push(rec[0]);
            arg_bytes.push(rec[1]);
            arg_bytes.push(rec[2]);
            arg_bytes.push(rec[3]);
            i += 1;
            assert(records@.subrange(1, i as int).drop_last() =~= records@.subrange(1, i - 1));
            assert(arg_bytes@ =~= record_bytes(records@.subrange(1, i - 1)) + rec@);
        }
        assert(records@.subrange(1, records@.len() as int) =~= records@.drop_first());
        let fmt = &entry.symbol.0;
        let (formatted_string, args) = match format_symbol_string(
            symbol_table,
            Protocol::Snapshot,
            e,
            fmt.as_str(),
            arg_bytes.as_slice(),
        ) {
            Ok((fs, args)) => (fs, args),
            Err(x) => return Err(ParseError::FormattedString(x)),
        };
        let timestamp = self.get_timestamp(base.0[1] as u32)?;
        let event = UserEvent {
            timestamp,
            channel,
            format_string: FormatString(fmt.clone()),
            formatted_string,
            args,
        };
        Ok(Some((event_type, Event::User(event))))
    }

    /// Hands over the collected user event records and stops collecting.
    fn take_user_records(&mut self) -> (r: Vec<EventRecord>)
        ensures
            r@ == old(self).user_event_records@,
            final(self).user_event_records@.len() == 0,
            final(self).user_arg_record_count == 0,
            final(self).endianness() == old(self).endianness(),
            final(self).accumulated_time() == old(self).accumulated_time(),
            final(self).dts_for_next_event() == old(self).dts_for_next_event(),
    {
        let mut r: Vec<EventRecord> = Vec::new();
        let mut i: usize = 0;
        while i < self.user_event_records.len()
            invariant
                i <= self.user_event_records@.len(),
                self.user_event_records@ == old(self).user_event_records@,
                r@ == self.user_event_records@.take(i as int),
            decreases self.user_event_records.len() - i,
        {
            r.push(self.user_event_records[i]);
            i += 1;
            assert(r@ =~= self.user_event_records@.take(i as int));
        }
        assert(r@ =~= old(self).user_event_records@);
        self.user_event_records.clear();
        self.user_arg_record_count = 0;
        r
    }
}

} // verus!
