//! The streaming event decoder: one variable-length record at a time, updating the entry
//! table and the heap as the events say.
use vstd::prelude::*;
use vstd::slice::slice_subrange;
use crate::bytes::{read_u16, read_u32, u16_at, u32_at};
use crate::streaming::entry_table::{entry_symbol, entry_symbols, Entry};
use crate::text::trimmed_text;
use crate::format::{args_match, error_matches, format_spec, format_symbol_string, FormattedString, SymbolLookup};
use crate::streaming::entry_table::EntryTable;
use crate::streaming::error::Error;
use crate::streaming::event::{
    spec_event_type, spec_expected_parameter_count, EventCode, EventCount, EventId,
    EventParameterCount, EventType, FIXED_USER_EVENT_ID,
};
use crate::streaming::events::{
    spec_event_count, spec_timestamp, BaseEvent, Event, EventGroupCreateEvent, EventGroupEvent,
    IsrEvent, MemoryEvent, MessageBufferBlockEvent, MessageBufferCreateEvent, MessageBufferEvent,
    MutexCreateEvent, MutexEvent, ObjectNameEvent, QueueCreateEvent, QueueEvent,
    SemaphoreCreateEvent, SemaphoreEvent, StateMachineCreateEvent, StateMachineStateChangeEvent,
    StateMachineStateCreateEvent, TaskEvent, TaskNotifyEvent, TraceStartEvent, TsConfigEvent,
    UnusedStackEvent, UserEvent,
};
use crate::streaming::header_info::{PSF_BIG_ENDIAN, PSF_LITTLE_ENDIAN};
use crate::time::{Frequency, Ticks, Timestamp};
use crate::types::{
    spec_timer_counter, Endianness, FormatString, Heap, ObjectClass, ObjectHandle, ObjectName, Priority, Protocol,
    SymbolString, TimerCounter, TrimmedString, UserEventArgRecordCount, UserEventChannel,
};

verus! {

/// Decoder state kept across events.
#[derive(Clone, Debug)]
pub struct EventParser {
    endianness: Endianness,
    heap: Heap,
    custom_printf_event_id: Option<EventId>,
}

/// Reads the next 32-bit word at `*p` and moves past it.
fn word(data: &[u8], p: &mut usize, e: Endianness) -> (r: Result<u32, Error>)
    ensures
        old(p) + 4 <= data@.len() ==> r == Ok::<u32, Error>(u32_at(data@, *old(p) as int, e))
            && *final(p) == *old(p) + 4,
        old(p) + 4 > data@.len() ==> r == Err::<u32, Error>(Error::Io),
        *final(p) <= data@.len() || *final(p) == *old(p),
{
    match read_u32(data, *p, e) {
        Some(v) => {
            *p = *p + 4;
            Ok(v)
        },
        None => Err(Error::Io),
    }
}

/// Reads a non-zero object handle word.
fn object_handle(data: &[u8], p: &mut usize, e: Endianness, id: EventId) -> (r: Result<ObjectHandle, Error>)
    ensures
        old(p) + 4 > data@.len() ==> r == Err::<ObjectHandle, Error>(Error::Io),
        old(p) + 4 <= data@.len() ==> *final(p) == *old(p) + 4 && match r {
            Ok(h) => h.id() == u32_at(data@, *old(p) as int, e) && h.id() != 0,
            Err(x) => x == Error::InvalidObjectHandle(id) && u32_at(data@, *old(p) as int, e) == 0,
        },
        *final(p) <= data@.len() || *final(p) == *old(p),
{
    let w = word(data, p, e)?;
    match ObjectHandle::new(w) {
        Some(h) => Ok(h),
        None => Err(Error::InvalidObjectHandle(id)),
    }
}

/// Reads a zero-padded string of `len` bytes.
fn read_string(data: &[u8], p: &mut usize, len: usize) -> (r: Result<TrimmedString, Error>)
    ensures
        old(p) + len <= data@.len() ==> *final(p) == *old(p) + len && (r matches Ok(t) && t.0@
            == trimmed_text(data@.subrange(*old(p) as int, old(p) + len))),
        old(p) + len > data@.len() ==> r == Err::<TrimmedString, Error>(Error::Io),
        *final(p) <= data@.len() || *final(p) == *old(p),
{
    if *p > data.len() || data.len() - *p < len {
        return Err(Error::Io);
    }
    let raw = slice_subrange(data, *p, *p + len);
    *p = *p + len;
    Ok(TrimmedString::from_raw(raw))
}

/// Copies `len` bytes at `*p`.
fn read_bytes(data: &[u8], p: &mut usize, len: usize) -> (r: Result<Vec<u8>, Error>)
    ensures
        old(p) + len <= data@.len() ==> *final(p) == *old(p) + len && (r matches Ok(v) && v@
            == data@.subrange(*old(p) as int, old(p) + len)),
        old(p) + len > data@.len() ==> r == Err::<Vec<u8>, Error>(Error::Io),
        *final(p) <= data@.len() || *final(p) == *old(p),
{
    if *p > data.len() || data.len() - *p < len {
        return Err(Error::Io);
    }
    let raw = slice_subrange(data, *p, *p + len);
    *p = *p + len;
    Ok(vstd::slice::slice_to_vec(raw))
}

/// The name of an object, if the table has one.
fn name_of(table: &EntryTable, h: ObjectHandle) -> (r: Option<ObjectName>)
    requires
        table.wf(),
    ensures
        opt_name_is(r, table@, h.id()),
{
    match table.symbol(h) {
        Some(s) => Some(ObjectName(s.0.clone())),
        None => None,
    }
}

/// The name of an object, which the table must have.
fn required_name(table: &EntryTable, h: ObjectHandle) -> (r: Result<ObjectName, Error>)
    requires
        table.wf(),
    ensures
        r is Err ==> r == Err::<ObjectName, Error>(Error::ObjectLookup(h)),
        r is Err <==> !has_symbol(table@, h.id()),
        r matches Ok(n) ==> name_is(n, table@, h.id()),
{
    match table.symbol(h) {
        Some(s) => Ok(ObjectName(s.0.clone())),
        None => Err(Error::ObjectLookup(h)),
    }
}

/// The channel that a handle names: the symbol under it, or the default channel.
fn channel_of(table: &EntryTable, h: ObjectHandle) -> (r: UserEventChannel)
    requires
        table.wf(),
    ensures
        channel_matches(r, table@, h.id()),
{
    match table.symbol(h) {
        Some(s) => UserEventChannel::Custom(s.0.clone()),
        None => UserEventChannel::Default,
    }
}

/// The event variant that an event type decodes to: types without a typed decoder give
/// `Unknown`, and unmapped IDs may also be custom printf user events.
pub open spec fn event_has_type(ev: Event, t: EventType) -> bool {
    match t {
        EventType::TraceStart => ev is TraceStart,
        EventType::TsConfig => ev is TsConfig,
        EventType::ObjectName => ev is ObjectName,
        EventType::TaskPriority => ev is TaskPriority,
        EventType::TaskPriorityInherit => ev is TaskPriorityInherit,
        EventType::TaskPriorityDisinherit => ev is TaskPriorityDisinherit,
        EventType::DefineIsr => ev is IsrDefine,
        EventType::TaskCreate => ev is TaskCreate,
        EventType::TaskReady => ev is TaskReady,
        EventType::TaskSwitchIsrBegin => ev is IsrBegin,
        EventType::TaskSwitchIsrResume => ev is IsrResume,
        EventType::TaskSwitchTaskBegin => ev is TaskBegin,
        EventType::TaskSwitchTaskResume => ev is TaskResume,
        EventType::TaskActivate => ev is TaskActivate,
        EventType::TaskNotify => ev is TaskNotify,
        EventType::TaskNotifyWait => ev is TaskNotifyWait,
        EventType::TaskNotifyWaitBlock => ev is TaskNotifyWaitBlock,
        EventType::TaskNotifyFromIsr => ev is TaskNotifyFromIsr,
        EventType::MemoryAlloc => ev is MemoryAlloc,
        EventType::MemoryFree => ev is MemoryFree,
        EventType::QueueCreate => ev is QueueCreate,
        EventType::QueueSend => ev is QueueSend,
        EventType::QueueSendBlock => ev is QueueSendBlock,
        EventType::QueueSendFromIsr => ev is QueueSendFromIsr,
        EventType::QueueReceive => ev is QueueReceive,
        EventType::QueueReceiveBlock => ev is QueueReceiveBlock,
        EventType::QueueReceiveFromIsr => ev is QueueReceiveFromIsr,
        EventType::QueuePeek => ev is QueuePeek,
        EventType::QueuePeekBlock => ev is QueuePeekBlock,
        EventType::QueueSendFront => ev is QueueSendFront,
        EventType::QueueSendFrontBlock => ev is QueueSendFrontBlock,
        EventType::QueueSendFrontFromIsr => ev is QueueSendFrontFromIsr,
        EventType::MutexCreate => ev is MutexCreate,
        EventType::MutexGive => ev is MutexGive,
        EventType::MutexGiveBlock => ev is MutexGiveBlock,
        EventType::MutexGiveRecursive => ev is MutexGiveRecursive,
        EventType::MutexTake => ev is MutexTake,
        EventType::MutexTakeBlock => ev is MutexTakeBlock,
        EventType::MutexTakeRecursive => ev is MutexTakeRecursive,
        EventType::MutexTakeRecursiveBlock => ev is MutexTakeRecursiveBlock,
        EventType::SemaphoreBinaryCreate => ev is SemaphoreBinaryCreate,
        EventType::SemaphoreCountingCreate => ev is SemaphoreCountingCreate,
        EventType::SemaphoreGive => ev is SemaphoreGive,
        EventType::SemaphoreGiveBlock => ev is SemaphoreGiveBlock,
        EventType::SemaphoreGiveFromIsr => ev is SemaphoreGiveFromIsr,
        EventType::SemaphoreTake => ev is SemaphoreTake,
        EventType::SemaphoreTakeBlock => ev is SemaphoreTakeBlock,
        EventType::SemaphoreTakeFromIsr => ev is SemaphoreTakeFromIsr,
        EventType::SemaphorePeek => ev is SemaphorePeek,
        EventType::SemaphorePeekBlock => ev is SemaphorePeekBlock,
        EventType::EventGroupCreate => ev is EventGroupCreate,
        EventType::EventGroupSync => ev is EventGroupSync,
        EventType::EventGroupWaitBits => ev is EventGroupWaitBits,
        EventType::EventGroupClearBits => ev is EventGroupClearBits,
        EventType::EventGroupClearBitsFromIsr => ev is EventGroupClearBitsFromIsr,
        EventType::EventGroupSetBits => ev is EventGroupSetBits,
        EventType::EventGroupSetBitsFromIsr => ev is EventGroupSetBitsFromIsr,
        EventType::EventGroupSyncBlock => ev is EventGroupSyncBlock,
        EventType::EventGroupWaitBitsBlock => ev is EventGroupWaitBitsBlock,
        EventType::MessageBufferCreate => ev is MessageBufferCreate,
        EventType::MessageBufferSend => ev is MessageBufferSend,
        EventType::MessageBufferSendBlock => ev is MessageBufferSendBlock,
        EventType::MessageBufferReceive => ev is MessageBufferReceive,
        EventType::MessageBufferReceiveBlock => ev is MessageBufferReceiveBlock,
        EventType::MessageBufferSendFromIsr => ev is MessageBufferSendFromIsr,
        EventType::MessageBufferReceiveFromIsr => ev is MessageBufferReceiveFromIsr,
        EventType::MessageBufferReset => ev is MessageBufferReset,
        EventType::StateMachineStateCreate => ev is StateMachineStateCreate,
        EventType::StateMachineCreate => ev is StateMachineCreate,
        EventType::StateMachineStateChange => ev is StateMachineStateChange,
        EventType::UnusedStack => ev is UnusedStack,
        EventType::UserEvent(_) => ev is User,
        EventType::Unknown(_) => ev is Unknown || ev is User,
        _ => ev is Unknown,
    }
}

/// The entry under `h` has a symbol.
pub open spec fn has_symbol(t: Map<u32, Entry>, h: u32) -> bool {
    t.contains_key(h) && t[h].symbol is Some
}

/// Event types whose first parameter names an object that must already have a name.
pub open spec fn needs_name(t: EventType) -> bool {
    match t {
        EventType::TraceStart | EventType::TaskPriority | EventType::TaskPriorityInherit
        | EventType::TaskPriorityDisinherit | EventType::TaskCreate | EventType::TaskReady
        | EventType::TaskSwitchTaskBegin | EventType::TaskSwitchTaskResume
        | EventType::TaskSwitchIsrBegin | EventType::TaskSwitchIsrResume | EventType::TaskActivate
        | EventType::StateMachineCreate | EventType::StateMachineStateCreate
        | EventType::StateMachineStateChange | EventType::UnusedStack => true,
        _ => false,
    }
}

/// Event types whose second parameter is an object handle too, which must be named.
pub open spec fn two_handles(t: EventType) -> bool {
    t is StateMachineStateCreate || t is StateMachineStateChange
}

/// Event types whose first parameter is an object handle.
pub open spec fn has_handle(t: EventType) -> bool {
    !(t is TsConfig || t is MemoryAlloc || t is MemoryFree)
}

/// Event types that create or update entries of the table.
pub open spec fn mutates_table(t: EventType) -> bool {
    match t {
        EventType::ObjectName | EventType::TaskPriority | EventType::TaskPriorityInherit
        | EventType::TaskPriorityDisinherit | EventType::DefineIsr | EventType::TaskCreate
        | EventType::TaskReady | EventType::TaskSwitchTaskBegin | EventType::TaskSwitchTaskResume
        | EventType::TaskSwitchIsrBegin | EventType::TaskSwitchIsrResume | EventType::TaskActivate
        | EventType::TaskNotify | EventType::TaskNotifyFromIsr | EventType::TaskNotifyWait
        | EventType::TaskNotifyWaitBlock | EventType::QueueCreate | EventType::MutexCreate
        | EventType::MutexGive | EventType::MutexGiveBlock | EventType::MutexGiveRecursive
        | EventType::MutexTake | EventType::MutexTakeBlock | EventType::MutexTakeRecursive
        | EventType::MutexTakeRecursiveBlock | EventType::SemaphoreBinaryCreate
        | EventType::SemaphoreCountingCreate | EventType::EventGroupCreate
        | EventType::MessageBufferCreate | EventType::StateMachineCreate
        | EventType::StateMachineStateCreate | EventType::StateMachineStateChange => true,
        _ => false,
    }
}

/// The parameter count fits the event type: the fixed count where there is one, and the
/// accepted range for the types whose count varies.
pub open spec fn params_fit(t: EventType, n: int) -> bool {
    match t {
        EventType::TsConfig => n == 4 || n == 5,
        EventType::ObjectName => n >= 1,
        EventType::DefineIsr => n >= 2,
        EventType::TaskActivate => n == 1 || n == 2,
        _ => spec_expected_parameter_count(t) == Some(n as usize),
    }
}

/// Event types decoded into a typed kernel event (all but memory, user and raw events).
pub open spec fn typed_kernel(t: EventType) -> bool {
    match t {
        EventType::DefineIsr | EventType::EventGroupClearBits | EventType::EventGroupClearBitsFromIsr | EventType::EventGroupCreate | EventType::EventGroupSetBits | EventType::EventGroupSetBitsFromIsr | EventType::EventGroupSync | EventType::EventGroupSyncBlock | EventType::EventGroupWaitBits | EventType::EventGroupWaitBitsBlock | EventType::MessageBufferCreate | EventType::MessageBufferReceive | EventType::MessageBufferReceiveBlock | EventType::MessageBufferReceiveFromIsr | EventType::MessageBufferReset | EventType::MessageBufferSend | EventType::MessageBufferSendBlock | EventType::MessageBufferSendFromIsr | EventType::MutexCreate | EventType::MutexGive | EventType::MutexGiveBlock | EventType::MutexGiveRecursive | EventType::MutexTake | EventType::MutexTakeBlock | EventType::MutexTakeRecursive | EventType::MutexTakeRecursiveBlock | EventType::ObjectName | EventType::QueueCreate | EventType::QueuePeek | EventType::QueuePeekBlock | EventType::QueueReceive | EventType::QueueReceiveBlock | EventType::QueueReceiveFromIsr | EventType::QueueSend | EventType::QueueSendBlock | EventType::QueueSendFromIsr | EventType::QueueSendFront | EventType::QueueSendFrontBlock | EventType::QueueSendFrontFromIsr | EventType::SemaphoreBinaryCreate | EventType::SemaphoreCountingCreate | EventType::SemaphoreGive | EventType::SemaphoreGiveBlock | EventType::SemaphoreGiveFromIsr | EventType::SemaphorePeek | EventType::SemaphorePeekBlock | EventType::SemaphoreTake | EventType::SemaphoreTakeBlock | EventType::SemaphoreTakeFromIsr | EventType::StateMachineCreate | EventType::StateMachineStateChange | EventType::StateMachineStateCreate | EventType::TaskActivate | EventType::TaskCreate | EventType::TaskNotify | EventType::TaskNotifyFromIsr | EventType::TaskNotifyWait | EventType::TaskNotifyWaitBlock | EventType::TaskPriority | EventType::TaskPriorityDisinherit | EventType::TaskPriorityInherit | EventType::TaskReady | EventType::TaskSwitchIsrBegin | EventType::TaskSwitchIsrResume | EventType::TaskSwitchTaskBegin | EventType::TaskSwitchTaskResume | EventType::TraceStart | EventType::TsConfig | EventType::UnusedStack => true,
        _ => false,
    }
}

/// Event types decoded as raw records: no typed decoder, no user event, and not the
/// custom printf ID.
pub open spec fn raw_event_type(t: EventType, id: EventId, custom: Option<EventId>) -> bool {
    !typed_kernel(t) && !(t is MemoryAlloc) && !(t is MemoryFree) && !(t is UserEvent)
        && !(t is Unknown && custom == Some(id))
}

/// A record of a typed kernel event decodes: its parameters fit and are all there, its
/// handles are non-zero, its timer type is known, and the objects it names have names.
pub open spec fn typed_record_ok(
    t: EventType,
    data: Seq<u8>,
    p: int,
    e: Endianness,
    n: int,
    table: Map<u32, Entry>,
) -> bool {
    let w = |k: int| u32_at(data, p + 4 * k, e);
    &&& params_fit(t, n)
    &&& p + 4 * n <= data.len()
    &&& has_handle(t) ==> w(0) != 0
    &&& two_handles(t) ==> w(1) != 0 && has_symbol(table, w(1))
    &&& t is TsConfig ==> spec_timer_counter(w(2)) is Some
    &&& needs_name(t) ==> has_symbol(table, w(0))
}

/// The name is the symbol of the entry under `h`.
pub open spec fn name_is(n: ObjectName, t: Map<u32, Entry>, h: u32) -> bool {
    t.contains_key(h) && entry_symbol(t[h]) == Some(n.0@)
}

/// The optional name is the symbol of the entry under `h`, or absent when it has none.
pub open spec fn opt_name_is(n: Option<ObjectName>, t: Map<u32, Entry>, h: u32) -> bool {
    match n {
        Some(x) => name_is(x, t, h),
        None => !has_symbol(t, h),
    }
}

/// The names an event carries are the symbols of the objects its parameters name, in
/// the table as it stands after the event.
pub open spec fn names_match(ev: Event, t: Map<u32, Entry>, data: Seq<u8>, p: int, e: Endianness) -> bool {
    let w = |k: int| u32_at(data, p + 4 * k, e);
    match ev {
        Event::TraceStart(x) => name_is(x.current_task, t, w(0)),
        Event::TaskPriority(x) | Event::TaskPriorityInherit(x) | Event::TaskPriorityDisinherit(x)
        | Event::TaskCreate(x) | Event::TaskReady(x) | Event::TaskBegin(x) | Event::TaskResume(x)
        | Event::TaskActivate(x) => name_is(x.name, t, w(0)),
        Event::IsrDefine(x) | Event::IsrBegin(x) | Event::IsrResume(x) => name_is(x.name, t, w(0)),
        Event::TaskNotify(x) | Event::TaskNotifyFromIsr(x) | Event::TaskNotifyWait(x)
        | Event::TaskNotifyWaitBlock(x) => opt_name_is(x.task_name, t, w(0)),
        Event::QueueCreate(x) => opt_name_is(x.name, t, w(0)),
        Event::QueueSend(x) | Event::QueueSendBlock(x) | Event::QueueSendFromIsr(x)
        | Event::QueueReceiveFromIsr(x) | Event::QueueSendFront(x) | Event::QueueSendFrontBlock(x)
        | Event::QueueSendFrontFromIsr(x) | Event::QueueReceive(x) | Event::QueueReceiveBlock(x)
        | Event::QueuePeek(x) | Event::QueuePeekBlock(x) => opt_name_is(x.name, t, w(0)),
        Event::MutexCreate(x) => opt_name_is(x.name, t, w(0)),
        Event::MutexGive(x) | Event::MutexGiveBlock(x) | Event::MutexGiveRecursive(x) | Event::MutexTake(x)
        | Event::MutexTakeBlock(x) | Event::MutexTakeRecursive(x) | Event::MutexTakeRecursiveBlock(x) =>
            opt_name_is(x.name, t, w(0)),
        Event::SemaphoreBinaryCreate(x) | Event::SemaphoreCountingCreate(x) => opt_name_is(x.name, t, w(0)),
        Event::SemaphoreGive(x) | Event::SemaphoreGiveBlock(x) | Event::SemaphoreGiveFromIsr(x)
        | Event::SemaphoreTakeFromIsr(x) | Event::SemaphoreTake(x) | Event::SemaphoreTakeBlock(x)
        | Event::SemaphorePeek(x) | Event::SemaphorePeekBlock(x) => opt_name_is(x.name, t, w(0)),
        Event::EventGroupCreate(x) => opt_name_is(x.name, t, w(0)),
        Event::EventGroupSync(x) | Event::EventGroupWaitBits(x) | Event::EventGroupClearBits(x)
        | Event::EventGroupClearBitsFromIsr(x) | Event::EventGroupSetBits(x) | Event::EventGroupSetBitsFromIsr(x)
        | Event::EventGroupSyncBlock(x) | Event::EventGroupWaitBitsBlock(x) => opt_name_is(x.name, t, w(0)),
        Event::MessageBufferCreate(x) => opt_name_is(x.name, t, w(0)),
        Event::MessageBufferSend(x) | Event::MessageBufferReceive(x) | Event::MessageBufferSendFromIsr(x)
        | Event::MessageBufferReceiveFromIsr(x) | Event::MessageBufferReset(x) => opt_name_is(x.name, t, w(0)),
        Event::MessageBufferSendBlock(x) | Event::MessageBufferReceiveBlock(x) => opt_name_is(x.name, t, w(0)),
        Event::StateMachineCreate(x) => name_is(x.name, t, w(0)),
        Event::StateMachineStateCreate(x) => name_is(x.state, t, w(0)),
        Event::StateMachineStateChange(x) => name_is(x.name, t, w(0)) && name_is(x.state, t, w(1)),
        Event::UnusedStack(x) => name_is(x.task, t, w(0)),
        Event::ObjectName(x) => t.contains_key(w(0)) && entry_symbol(t[w(0)]) == Some(x.name.0@),
        _ => true,
    }
}

/// The channel is the symbol under `h`, or the default channel when there is none.
pub open spec fn channel_matches(c: UserEventChannel, t: Map<u32, Entry>, h: u32) -> bool {
    match c {
        UserEventChannel::Custom(s) => has_symbol(t, h) && entry_symbol(t[h]) == Some(s@),
        UserEventChannel::Default => !has_symbol(t, h),
    }
}

/// What a user event holds for format text `fmt` over argument bytes `args`: the format
/// string itself, and the formatter's pieces and arguments.
pub open spec fn user_text_matches(
    u: UserEvent,
    fmt: Seq<char>,
    args: Seq<u8>,
    syms: Map<u32, Seq<char>>,
    e: Endianness,
) -> bool {
    &&& u.format_string.0@ == fmt
    &&& match format_spec(syms, Protocol::Streaming, e, fmt, args) {
        Ok((pieces, specs)) => u.formatted_string.pieces_view() == pieces && args_match(u.args@, specs, syms),
        Err(_) => false,
    }
}

/// For a user event record at `p` whose layout is complete and whose handles are
/// valid: the format text, the argument bytes and the position after the record. Custom
/// printf events carry their lengths; variable user events carry the format string inline
/// after their argument words; fixed user events name it by a symbol handle.
pub open spec fn user_layout(
    t: Map<u32, Entry>,
    e: Endianness,
    id: u16,
    n: int,
    custom: Option<EventId>,
    data: Seq<u8>,
    p: int,
) -> Option<(Seq<char>, Seq<u8>, int)> {
    let et = spec_event_type(id);
    let h = u32_at(data, p, e);
    if et is Unknown && custom == Some(EventId(id)) {
        let al = u16_at(data, p + 4, e) as int;
        let fl = u16_at(data, p + 6, e) as int;
        if n == 0 && p + 8 <= data.len() && h != 0 && p + 8 + 4 * al + fl <= data.len() {
            Some((
                trimmed_text(data.subrange(p + 8 + 4 * al, p + 8 + 4 * al + fl)),
                data.subrange(p + 8, p + 8 + 4 * al),
                p + 8 + 4 * al + fl,
            ))
        } else {
            None
        }
    } else if 0x90 <= id <= 0x9F {
        let raw = id - 0x90;
        if !(id >= FIXED_USER_EVENT_ID && raw >= n) {
            let nf = if raw != 0 { raw - 1 } else { 0 };
            if n >= 1 && raw < n && p + 4 * n <= data.len() && h != 0 {
                Some((
                    trimmed_text(data.subrange(p + 4 + 4 * nf, p + 4 * n)),
                    data.subrange(p + 4, p + 4 + 4 * nf),
                    p + 4 * n,
                ))
            } else {
                None
            }
        } else {
            let ac = id - FIXED_USER_EVENT_ID;
            let f = u32_at(data, p + 4, e);
            if ac < n && p + 8 + 4 * ac <= data.len() && h != 0 && f != 0 && has_symbol(t, f) {
                Some((entry_symbol(t[f]).unwrap(), data.subrange(p + 8, p + 8 + 4 * ac), p + 8 + 4 * ac))
            } else {
                None
            }
        }
    } else {
        None
    }
}

/// The fields of a decoded event hold the parameter words of its record, the `k`-th
/// word standing at `p + 4 * k`.
pub open spec fn payload_matches(ev: Event, data: Seq<u8>, p: int, e: Endianness) -> bool {
    let w = |k: int| u32_at(data, p + 4 * k, e);
    match ev {
        Event::TraceStart(x) => x.current_task_handle.id() == w(0),
        Event::TsConfig(x) => x.frequency.0 == w(0) && x.tick_rate_hz == w(1) && spec_timer_counter(w(2))
            == Some(x.hwtc_type) && x.isr_chaining_threshold == w(3),
        Event::ObjectName(x) => x.handle.id() == w(0),
        Event::TaskPriority(x) | Event::TaskPriorityInherit(x) | Event::TaskPriorityDisinherit(x)
        | Event::TaskCreate(x) => x.handle.id() == w(0) && x.priority.0 == w(1),
        Event::IsrDefine(x) => x.handle.id() == w(0) && x.priority.0 == w(1),
        Event::TaskReady(x) | Event::TaskBegin(x) | Event::TaskResume(x) | Event::TaskActivate(x) => x.handle.id()
            == w(0),
        Event::IsrBegin(x) | Event::IsrResume(x) => x.handle.id() == w(0),
        Event::TaskNotify(x) | Event::TaskNotifyFromIsr(x) => x.handle.id() == w(0) && x.ticks_to_wait.is_none(),
        Event::TaskNotifyWait(x) | Event::TaskNotifyWaitBlock(x) => x.handle.id() == w(0) && x.ticks_to_wait
            == Some(Ticks(w(1))),
        Event::MemoryAlloc(x) | Event::MemoryFree(x) => x.address == w(0) && x.size == w(1),
        Event::QueueCreate(x) => x.handle.id() == w(0) && x.queue_length == w(1),
        Event::QueueSend(x) | Event::QueueSendBlock(x) | Event::QueueSendFromIsr(x)
        | Event::QueueReceiveFromIsr(x) | Event::QueueSendFront(x) | Event::QueueSendFrontBlock(x)
        | Event::QueueSendFrontFromIsr(x) => x.handle.id() == w(0) && x.ticks_to_wait.is_none()
            && x.messages_waiting == w(1),
        Event::QueueReceive(x) | Event::QueueReceiveBlock(x) | Event::QueuePeek(x) | Event::QueuePeekBlock(x) =>
            x.handle.id() == w(0) && x.ticks_to_wait == Some(Ticks(w(1))) && x.messages_waiting == w(2),
        Event::MutexCreate(x) => x.handle.id() == w(0),
        Event::MutexGive(x) | Event::MutexGiveBlock(x) | Event::MutexGiveRecursive(x) => x.handle.id() == w(0)
            && x.ticks_to_wait.is_none(),
        Event::MutexTake(x) | Event::MutexTakeBlock(x) | Event::MutexTakeRecursive(x)
        | Event::MutexTakeRecursiveBlock(x) => x.handle.id() == w(0) && x.ticks_to_wait == Some(Ticks(w(1))),
        Event::SemaphoreBinaryCreate(x) => x.handle.id() == w(0) && x.count.is_none(),
        Event::SemaphoreCountingCreate(x) => x.handle.id() == w(0) && x.count == Some(w(1)),
        Event::SemaphoreGive(x) | Event::SemaphoreGiveBlock(x) | Event::SemaphoreGiveFromIsr(x)
        | Event::SemaphoreTakeFromIsr(x) => x.handle.id() == w(0) && x.ticks_to_wait.is_none() && x.count == w(1),
        Event::SemaphoreTake(x) | Event::SemaphoreTakeBlock(x) | Event::SemaphorePeek(x)
        | Event::SemaphorePeekBlock(x) => x.handle.id() == w(0) && x.ticks_to_wait == Some(Ticks(w(1)))
            && x.count == w(2),
        Event::EventGroupCreate(x) => x.handle.id() == w(0) && x.event_bits == w(1),
        Event::EventGroupSync(x) | Event::EventGroupWaitBits(x) | Event::EventGroupClearBits(x)
        | Event::EventGroupClearBitsFromIsr(x) | Event::EventGroupSetBits(x) | Event::EventGroupSetBitsFromIsr(x)
        | Event::EventGroupSyncBlock(x) | Event::EventGroupWaitBitsBlock(x) => x.handle.id() == w(0) && x.bits
            == w(1),
        Event::MessageBufferCreate(x) => x.handle.id() == w(0) && x.buffer_size == w(1),
        Event::MessageBufferSend(x) | Event::MessageBufferReceive(x) | Event::MessageBufferSendFromIsr(x)
        | Event::MessageBufferReceiveFromIsr(x) | Event::MessageBufferReset(x) => x.handle.id() == w(0)
            && x.bytes_in_buffer == w(1),
        Event::MessageBufferSendBlock(x) | Event::MessageBufferReceiveBlock(x) => x.handle.id() == w(0),
        Event::StateMachineCreate(x) => x.handle.id() == w(0),
        Event::StateMachineStateCreate(x) => x.handle.id() == w(0),
        Event::StateMachineStateChange(x) => x.handle.id() == w(0) && x.state_handle.id() == w(1),
        Event::UnusedStack(x) => x.handle.id() == w(0) && x.low_mark == w(1),
        Event::User(_) => true,
        Event::Unknown(_) => true,
    }
}

/// The class that an event of the given type records for the object in its first
/// parameter, if any.
pub open spec fn class_assigned(t: EventType) -> Option<ObjectClass> {
    match t {
        EventType::TaskCreate => Some(ObjectClass::Task),
        EventType::DefineIsr => Some(ObjectClass::Isr),
        EventType::QueueCreate => Some(ObjectClass::Queue),
        EventType::MutexCreate | EventType::MutexGive | EventType::MutexGiveBlock
        | EventType::MutexGiveRecursive | EventType::MutexTake | EventType::MutexTakeBlock
        | EventType::MutexTakeRecursive | EventType::MutexTakeRecursiveBlock => Some(ObjectClass::Mutex),
        EventType::SemaphoreBinaryCreate | EventType::SemaphoreCountingCreate => Some(ObjectClass::Semaphore),
        EventType::EventGroupCreate => Some(ObjectClass::EventGroup),
        EventType::MessageBufferCreate => Some(ObjectClass::MessageBuffer),
        EventType::StateMachineCreate | EventType::StateMachineStateCreate => Some(ObjectClass::StateMachine),
        _ => None,
    }
}

/// Decodes the events that create, name and prioritise tasks and ISRs.
fn decode_task_setup(
    data: &[u8],
    p: usize,
    table: &mut EntryTable,
    e: Endianness,
    event_type: EventType,
    event_id: EventId,
    num_params: EventParameterCount,
    event_count: EventCount,
    timestamp: Timestamp,
) -> (r: Result<(Event, usize), Error>)
    requires
        old(table).wf(),
        p <= data@.len(),
        num_params.0 <= 15,
        event_type is TraceStart || event_type is TsConfig || event_type is ObjectName || event_type is TaskPriority || event_type is TaskPriorityInherit || event_type is TaskPriorityDisinherit || event_type is DefineIsr || event_type is TaskCreate,
    ensures
        final(table).wf(),
        r matches Ok((ev, np)) ==> spec_event_count(ev) == event_count && spec_timestamp(ev)
            == timestamp && p <= np <= data@.len() && !(ev is MemoryAlloc) && !(ev is MemoryFree)
            && event_has_type(ev, event_type) && payload_matches(ev, data@, p as int, e)
            && names_match(ev, final(table)@, data@, p as int, e),
        r is Ok && class_assigned(event_type) is Some ==> final(table)@.contains_key(u32_at(data@, p as int, e))
            && final(table)@[u32_at(data@, p as int, e)].class == class_assigned(event_type),
        typed_record_ok(event_type, data@, p as int, e, num_params.0 as int, old(table)@) ==> r is Ok,
        has_handle(event_type) && params_fit(event_type, num_params.0 as int) && p + 4 <= data@.len()
            && u32_at(data@, p as int, e) == 0 ==> r == Err::<(Event, usize), Error>(
            Error::InvalidObjectHandle(event_id),
        ),
        has_handle(event_type) && p + 4 > data@.len() && params_fit(event_type, num_params.0 as int)
            ==> r == Err::<(Event, usize), Error>(Error::Io),
        !mutates_table(event_type) ==> final(table)@ == old(table)@,
        mutates_table(event_type) && !two_handles(event_type) && r is Ok ==> final(table)@ == old(table)@.insert(
            u32_at(data@, p as int, e),
            final(table)@[u32_at(data@, p as int, e)],
        ),
        event_type is ObjectName && r is Ok && old(table)@.contains_key(u32_at(data@, p as int, e)) ==> ({
            let (a, b) = (old(table)@[u32_at(data@, p as int, e)], final(table)@[u32_at(data@, p as int, e)]);
            a.class == b.class && a.states == b.states && a.options == b.options
        }),
        r is Ok && (event_type is TaskPriority || event_type is TaskPriorityInherit
            || event_type is TaskPriorityDisinherit || event_type is TaskCreate || event_type is DefineIsr)
            ==> final(table)@[u32_at(data@, p as int, e)].states.0[0] == u32_at(data@, p + 4, e),
        r matches Ok((Event::ObjectName(o), _)) ==> entry_symbol(final(table)@[u32_at(data@, p as int, e)])
            == Some(trimmed_text(data@.subrange(p + 4, p + 4 * num_params.0))) && o.name.0@ == trimmed_text(
            data@.subrange(p + 4, p + 4 * num_params.0),
        ),
{
    let mut q: usize = p;
    match event_type {
        EventType::TraceStart => {
            let handle = object_handle(data, &mut q, e, event_id)?;
            let name = required_name(table, handle)?;
            let event = TraceStartEvent { event_count, timestamp, current_task_handle: handle, current_task: name };
            Ok((Event::TraceStart(event), q))
        },
        EventType::TsConfig => {
            let uses_custom_timer = if num_params.0 == 4 {
                false
            } else if num_params.0 == 5 {
                true
            } else {
                return Err(Error::InvalidEventParameterCount(event_id, 4, num_params));
            };
            let frequency = Frequency(word(data, &mut q, e)?);
            let tick_rate_hz = word(data, &mut q, e)?;
            let hwtc_type = word(data, &mut q, e)?;
            let isr_chaining_threshold = word(data, &mut q, e)?;
            let htc_period = if uses_custom_timer {
                Some(word(data, &mut q, e)?)
            } else {
                None
            };
            let hwtc = match TimerCounter::from_hwtc_type(hwtc_type) {
                Some(t) => t,
                None => return Err(Error::InvalidTimerCounter(hwtc_type)),
            };
            let event = TsConfigEvent {
                event_count,
                timestamp,
                frequency,
                tick_rate_hz,
                hwtc_type: hwtc,
                isr_chaining_threshold,
                htc_period,
            };
            Ok((Event::TsConfig(event), q))
        },
        EventType::ObjectName => {
            if num_params.0 < 1 {
                return Err(Error::InvalidEventParameterCount(event_id, 1, num_params));
            }
            let handle = object_handle(data, &mut q, e, event_id)?;
            let symbol = read_string(data, &mut q, (num_params.0 as usize - 1) * 4)?.into_symbol();
            let entry = table.entry(handle);
            entry.set_symbol(SymbolString(symbol.0.clone()));
            let event = ObjectNameEvent { event_count, timestamp, handle, name: symbol };
            Ok((Event::ObjectName(event), q))
        },
        EventType::TaskPriority | EventType::TaskPriorityInherit | EventType::TaskPriorityDisinherit => {
            let handle = object_handle(data, &mut q, e, event_id)?;
            let priority = Priority(word(data, &mut q, e)?);
            let entry = table.entry(handle);
            entry.states.set_priority(priority);
            let name = required_name(table, handle)?;
            let event = TaskEvent { event_count, timestamp, handle, name, priority };
            Ok((
                match event_type {
                    EventType::TaskPriority => Event::TaskPriority(event),
                    EventType::TaskPriorityInherit => Event::TaskPriorityInherit(event),
                    _ => Event::TaskPriorityDisinherit(event),
                },
                q,
            ))
        },
        EventType::DefineIsr => {
            if num_params.0 < 2 {
                return Err(Error::InvalidEventParameterCount(event_id, 2, num_params));
            }
            let handle = object_handle(data, &mut q, e, event_id)?;
            let priority = Priority(word(data, &mut q, e)?);
            let symbol = read_string(data, &mut q, (num_params.0 as usize - 2) * 4)?.into_symbol();
            let entry = table.entry(handle);
            entry.states.set_priority(priority);
            entry.set_symbol(SymbolString(symbol.0.clone()));
            entry.set_class(ObjectClass::Isr);
            let event = IsrEvent { event_count, timestamp, handle, name: ObjectName::from_symbol(symbol), priority };
            Ok((Event::IsrDefine(event), q))
        },
        EventType::TaskCreate => {
            let handle = object_handle(data, &mut q, e, event_id)?;
            let priority = Priority(word(data, &mut q, e)?);
            let entry = table.entry(handle);
            entry.states.set_priority(priority);
            entry.set_class(ObjectClass::Task);
            let name = required_name(table, handle)?;
            let event = TaskEvent { event_count, timestamp, handle, name, priority };
            Ok((Event::TaskCreate(event), q))
        },
        _ => {
            assert(false);
            Err(Error::Io)
        },
    }
}

/// Decodes task and ISR scheduling and notification events.
fn decode_task_run(
    data: &[u8],
    p: usize,
    table: &mut EntryTable,
    e: Endianness,
    event_type: EventType,
    event_id: EventId,
    num_params: EventParameterCount,
    event_count: EventCount,
    timestamp: Timestamp,
) -> (r: Result<(Event, usize), Error>)
    requires
        old(table).wf(),
        p <= data@.len(),
        num_params.0 <= 15,
        event_type is TaskReady || event_type is TaskSwitchTaskResume || event_type is TaskSwitchTaskBegin || event_type is TaskSwitchIsrBegin || event_type is TaskSwitchIsrResume || event_type is TaskActivate || event_type is TaskNotify || event_type is TaskNotifyFromIsr || event_type is TaskNotifyWait || event_type is TaskNotifyWaitBlock,
    ensures
        final(table).wf(),
        r matches Ok((ev, np)) ==> spec_event_count(ev) == event_count && spec_timestamp(ev)
            == timestamp && p <= np <= data@.len() && !(ev is MemoryAlloc) && !(ev is MemoryFree)
            && event_has_type(ev, event_type) && payload_matches(ev, data@, p as int, e)
            && names_match(ev, final(table)@, data@, p as int, e),
        r is Ok && class_assigned(event_type) is Some ==> final(table)@.contains_key(u32_at(data@, p as int, e))
            && final(table)@[u32_at(data@, p as int, e)].class == class_assigned(event_type),
        typed_record_ok(event_type, data@, p as int, e, num_params.0 as int, old(table)@) ==> r is Ok,
        has_handle(event_type) && params_fit(event_type, num_params.0 as int) && p + 4 <= data@.len()
            && u32_at(data@, p as int, e) == 0 ==> r == Err::<(Event, usize), Error>(
            Error::InvalidObjectHandle(event_id),
        ),
        has_handle(event_type) && p + 4 > data@.len() && params_fit(event_type, num_params.0 as int)
            ==> r == Err::<(Event, usize), Error>(Error::Io),
        !mutates_table(event_type) ==> final(table)@ == old(table)@,
        mutates_table(event_type) && !two_handles(event_type) && r is Ok ==> final(table)@ == old(table)@.insert(
            u32_at(data@, p as int, e),
            final(table)@[u32_at(data@, p as int, e)],
        ),
        event_type is ObjectName && r is Ok && old(table)@.contains_key(u32_at(data@, p as int, e)) ==> ({
            let (a, b) = (old(table)@[u32_at(data@, p as int, e)], final(table)@[u32_at(data@, p as int, e)]);
            a.class == b.class && a.states == b.states && a.options == b.options
        }),
{
    let mut q: usize = p;
    match event_type {
        EventType::TaskReady | EventType::TaskSwitchTaskResume | EventType::TaskSwitchTaskBegin => {
            let handle = object_handle(data, &mut q, e, event_id)?;
            let priority = table.entry(handle).states.priority();
            let name = required_name(table, handle)?;
            let event = TaskEvent { event_count, timestamp, handle, name, priority };
            Ok((
                match event_type {
                    EventType::TaskReady => Event::TaskReady(event),
                    EventType::TaskSwitchTaskBegin => Event::TaskBegin(event),
                    _ => Event::TaskResume(event),
                },
                q,
            ))
        },
        EventType::TaskSwitchIsrBegin | EventType::TaskSwitchIsrResume => {
            let handle = object_handle(data, &mut q, e, event_id)?;
            let priority = table.entry(handle).states.priority();
            let name = required_name(table, handle)?;
            let event = IsrEvent { event_count, timestamp, handle, name, priority };
            Ok((
                match event_type {
                    EventType::TaskSwitchIsrBegin => Event::IsrBegin(event),
                    _ => Event::IsrResume(event),
                },
                q,
            ))
        },
        EventType::TaskActivate => {
            if num_params.0 != 1 && num_params.0 != 2 {
                return Err(Error::InvalidEventParameterCount(event_id, 1, num_params));
            }
            let handle = object_handle(data, &mut q, e, event_id)?;
            if num_params.0 == 2 {
                let priority = Priority(word(data, &mut q, e)?);
                table.entry(handle).states.set_priority(priority);
            }
            let priority = table.entry(handle).states.priority();
            let name = required_name(table, handle)?;
            let event = TaskEvent { event_count, timestamp, handle, name, priority };
            Ok((Event::TaskActivate(event), q))
        },
        EventType::TaskNotify | EventType::TaskNotifyFromIsr | EventType::TaskNotifyWait
        | EventType::TaskNotifyWaitBlock => {
            let handle = object_handle(data, &mut q, e, event_id)?;
            let waits = match event_type {
                EventType::TaskNotifyWait | EventType::TaskNotifyWaitBlock => true,
                _ => false,
            };
            let ticks_to_wait = if waits {
                Some(Ticks(word(data, &mut q, e)?))
            } else {
                None
            };
            let _ = table.entry(handle);
            let event = TaskNotifyEvent { event_count, timestamp, handle, task_name: name_of(table, handle), ticks_to_wait };
            Ok((
                match event_type {
                    EventType::TaskNotify => Event::TaskNotify(event),
                    EventType::TaskNotifyFromIsr => Event::TaskNotifyFromIsr(event),
                    EventType::TaskNotifyWait => Event::TaskNotifyWait(event),
                    _ => Event::TaskNotifyWaitBlock(event),
                },
                q,
            ))
        },
        _ => {
            assert(false);
            Err(Error::Io)
        },
    }
}

/// Decodes queue and mutex events.
fn decode_queue_mutex(
    data: &[u8],
    p: usize,
    table: &mut EntryTable,
    e: Endianness,
    event_type: EventType,
    event_id: EventId,
    num_params: EventParameterCount,
    event_count: EventCount,
    timestamp: Timestamp,
) -> (r: Result<(Event, usize), Error>)
    requires
        old(table).wf(),
        p <= data@.len(),
        num_params.0 <= 15,
        event_type is QueueCreate || event_type is QueueSend || event_type is QueueSendBlock || event_type is QueueSendFromIsr || event_type is QueueReceiveFromIsr || event_type is QueueSendFront || event_type is QueueSendFrontBlock || event_type is QueueSendFrontFromIsr || event_type is QueueReceive || event_type is QueueReceiveBlock || event_type is QueuePeek || event_type is QueuePeekBlock || event_type is MutexCreate || event_type is MutexGive || event_type is MutexGiveBlock || event_type is MutexGiveRecursive || event_type is MutexTake || event_type is MutexTakeBlock || event_type is MutexTakeRecursive || event_type is MutexTakeRecursiveBlock,
    ensures
        final(table).wf(),
        r matches Ok((ev, np)) ==> spec_event_count(ev) == event_count && spec_timestamp(ev)
            == timestamp && p <= np <= data@.len() && !(ev is MemoryAlloc) && !(ev is MemoryFree)
            && event_has_type(ev, event_type) && payload_matches(ev, data@, p as int, e)
            && names_match(ev, final(table)@, data@, p as int, e),
        r is Ok && class_assigned(event_type) is Some ==> final(table)@.contains_key(u32_at(data@, p as int, e))
            && final(table)@[u32_at(data@, p as int, e)].class == class_assigned(event_type),
        typed_record_ok(event_type, data@, p as int, e, num_params.0 as int, old(table)@) ==> r is Ok,
        has_handle(event_type) && params_fit(event_type, num_params.0 as int) && p + 4 <= data@.len()
            && u32_at(data@, p as int, e) == 0 ==> r == Err::<(Event, usize), Error>(
            Error::InvalidObjectHandle(event_id),
        ),
        has_handle(event_type) && p + 4 > data@.len() && params_fit(event_type, num_params.0 as int)
            ==> r == Err::<(Event, usize), Error>(Error::Io),
        !mutates_table(event_type) ==> final(table)@ == old(table)@,
        mutates_table(event_type) && !two_handles(event_type) && r is Ok ==> final(table)@ == old(table)@.insert(
            u32_at(data@, p as int, e),
            final(table)@[u32_at(data@, p as int, e)],
        ),
        event_type is ObjectName && r is Ok && old(table)@.contains_key(u32_at(data@, p as int, e)) ==> ({
            let (a, b) = (old(table)@[u32_at(data@, p as int, e)], final(table)@[u32_at(data@, p as int, e)]);
            a.class == b.class && a.states == b.states && a.options == b.options
        }),
{
    let mut q: usize = p;
    match event_type {
        EventType::QueueCreate => {
            let handle = object_handle(data, &mut q, e, event_id)?;
            let queue_length = word(data, &mut q, e)?;
            table.entry(handle).set_class(ObjectClass::Queue);
            let event = QueueCreateEvent { event_count, timestamp, handle, name: name_of(table, handle), queue_length };
            Ok((Event::QueueCreate(event), q))
        },
        EventType::QueueSend | EventType::QueueSendBlock | EventType::QueueSendFromIsr
        | EventType::QueueReceiveFromIsr | EventType::QueueSendFront
        | EventType::QueueSendFrontBlock | EventType::QueueSendFrontFromIsr
        | EventType::QueueReceive | EventType::QueueReceiveBlock | EventType::QueuePeek
        | EventType::QueuePeekBlock => {
            let handle = object_handle(data, &mut q, e, event_id)?;
            let waits = match event_type {
                EventType::QueueReceive | EventType::QueueReceiveBlock | EventType::QueuePeek
                | EventType::QueuePeekBlock => true,
                _ => false,
            };
            let ticks_to_wait = if waits {
                Some(Ticks(word(data, &mut q, e)?))
            } else {
                None
            };
            let messages_waiting = word(data, &mut q, e)?;
            let event = QueueEvent { event_count, timestamp, handle, name: name_of(table, handle), ticks_to_wait, messages_waiting };
            Ok((
                match event_type {
                    EventType::QueueSend => Event::QueueSend(event),
                    EventType::QueueSendBlock => Event::QueueSendBlock(event),
                    EventType::QueueSendFromIsr => Event::QueueSendFromIsr(event),
                    EventType::QueueReceiveFromIsr => Event::QueueReceiveFromIsr(event),
                    EventType::QueueSendFront => Event::QueueSendFront(event),
                    EventType::QueueSendFrontBlock => Event::QueueSendFrontBlock(event),
                    EventType::QueueSendFrontFromIsr => Event::QueueSendFrontFromIsr(event),
                    EventType::QueueReceive => Event::QueueReceive(event),
                    EventType::QueueReceiveBlock => Event::QueueReceiveBlock(event),
                    EventType::QueuePeek => Event::QueuePeek(event),
                    _ => Event::QueuePeekBlock(event),
                },
                q,
            ))
        },
        EventType::MutexCreate => {
            let handle = object_handle(data, &mut q, e, event_id)?;
            let _unused = word(data, &mut q, e)?;
            table.entry(handle).set_class(ObjectClass::Mutex);
            let event = MutexCreateEvent { event_count, timestamp, handle, name: name_of(table, handle) };
            Ok((Event::MutexCreate(event), q))
        },
        EventType::MutexGive | EventType::MutexGiveBlock | EventType::MutexGiveRecursive
        | EventType::MutexTake | EventType::MutexTakeBlock | EventType::MutexTakeRecursive
        | EventType::MutexTakeRecursiveBlock => {
            let handle = object_handle(data, &mut q, e, event_id)?;
            let waits = match event_type {
                EventType::MutexGive | EventType::MutexGiveBlock | EventType::MutexGiveRecursive => false,
                _ => true,
            };
            let ticks_to_wait = if waits {
                Some(Ticks(word(data, &mut q, e)?))
            } else {
                None
            };
            table.entry(handle).set_class(ObjectClass::Mutex);
            let event = MutexEvent { event_count, timestamp, handle, name: name_of(table, handle), ticks_to_wait };
            Ok((
                match event_type {
                    EventType::MutexGive => Event::MutexGive(event),
                    EventType::MutexGiveBlock => Event::MutexGiveBlock(event),
                    EventType::MutexGiveRecursive => Event::MutexGiveRecursive(event),
                    EventType::MutexTake => Event::MutexTake(event),
                    EventType::MutexTakeBlock => Event::MutexTakeBlock(event),
                    EventType::MutexTakeRecursive => Event::MutexTakeRecursive(event),
                    _ => Event::MutexTakeRecursiveBlock(event),
                },
                q,
            ))
        },
        _ => {
            assert(false);
            Err(Error::Io)
        },
    }
}

/// Decodes semaphore and event group events.
fn decode_semaphore_group(
    data: &[u8],
    p: usize,
    table: &mut EntryTable,
    e: Endianness,
    event_type: EventType,
    event_id: EventId,
    num_params: EventParameterCount,
    event_count: EventCount,
    timestamp: Timestamp,
) -> (r: Result<(Event, usize), Error>)
    requires
        old(table).wf(),
        p <= data@.len(),
        num_params.0 <= 15,
        event_type is SemaphoreBinaryCreate || event_type is SemaphoreCountingCreate || event_type is SemaphoreGive || event_type is SemaphoreGiveBlock || event_type is SemaphoreGiveFromIsr || event_type is SemaphoreTakeFromIsr || event_type is SemaphoreTake || event_type is SemaphoreTakeBlock || event_type is SemaphorePeek || event_type is SemaphorePeekBlock || event_type is EventGroupCreate || event_type is EventGroupSync || event_type is EventGroupWaitBits || event_type is EventGroupClearBits || event_type is EventGroupClearBitsFromIsr || event_type is EventGroupSetBits || event_type is EventGroupSetBitsFromIsr || event_type is EventGroupSyncBlock || event_type is EventGroupWaitBitsBlock,
    ensures
        final(table).wf(),
        r matches Ok((ev, np)) ==> spec_event_count(ev) == event_count && spec_timestamp(ev)
            == timestamp && p <= np <= data@.len() && !(ev is MemoryAlloc) && !(ev is MemoryFree)
            && event_has_type(ev, event_type) && payload_matches(ev, data@, p as int, e)
            && names_match(ev, final(table)@, data@, p as int, e),
        r is Ok && class_assigned(event_type) is Some ==> final(table)@.contains_key(u32_at(data@, p as int, e))
            && final(table)@[u32_at(data@, p as int, e)].class == class_assigned(event_type),
        typed_record_ok(event_type, data@, p as int, e, num_params.0 as int, old(table)@) ==> r is Ok,
        has_handle(event_type) && params_fit(event_type, num_params.0 as int) && p + 4 <= data@.len()
            && u32_at(data@, p as int, e) == 0 ==> r == Err::<(Event, usize), Error>(
            Error::InvalidObjectHandle(event_id),
        ),
        has_handle(event_type) && p + 4 > data@.len() && params_fit(event_type, num_params.0 as int)
            ==> r == Err::<(Event, usize), Error>(Error::Io),
        !mutates_table(event_type) ==> final(table)@ == old(table)@,
        mutates_table(event_type) && !two_handles(event_type) && r is Ok ==> final(table)@ == old(table)@.insert(
            u32_at(data@, p as int, e),
            final(table)@[u32_at(data@, p as int, e)],
        ),
        event_type is ObjectName && r is Ok && old(table)@.contains_key(u32_at(data@, p as int, e)) ==> ({
            let (a, b) = (old(table)@[u32_at(data@, p as int, e)], final(table)@[u32_at(data@, p as int, e)]);
            a.class == b.class && a.states == b.states && a.options == b.options
        }),
{
    let mut q: usize = p;
    match event_type {
        EventType::SemaphoreBinaryCreate | EventType::SemaphoreCountingCreate => {
            let handle = object_handle(data, &mut q, e, event_id)?;
            let w = word(data, &mut q, e)?;
            let counting = match event_type {
                EventType::SemaphoreCountingCreate => true,
                _ => false,
            };
            table.entry(handle).set_class(ObjectClass::Semaphore);
            let event = SemaphoreCreateEvent {
                event_count,
                timestamp,
                handle,
                name: name_of(table, handle),
                count: if counting { Some(w) } else { None },
            };
            Ok((
                if counting {
                    Event::SemaphoreCountingCreate(event)
                } else {
                    Event::SemaphoreBinaryCreate(event)
                },
                q,
            ))
        },
        EventType::SemaphoreGive | EventType::SemaphoreGiveBlock | EventType::SemaphoreGiveFromIsr
        | EventType::SemaphoreTakeFromIsr | EventType::SemaphoreTake | EventType::SemaphoreTakeBlock
        | EventType::SemaphorePeek | EventType::SemaphorePeekBlock => {
            let handle = object_handle(data, &mut q, e, event_id)?;
            let waits = match event_type {
                EventType::SemaphoreTake | EventType::SemaphoreTakeBlock | EventType::SemaphorePeek
                | EventType::SemaphorePeekBlock => true,
                _ => false,
            };
            let ticks_to_wait = if waits {
                Some(Ticks(word(data, &mut q, e)?))
            } else {
                None
            };
            let count = word(data, &mut q, e)?;
            let event = SemaphoreEvent { event_count, timestamp, handle, name: name_of(table, handle), ticks_to_wait, count };
            Ok((
                match event_type {
                    EventType::SemaphoreGive => Event::SemaphoreGive(event),
                    EventType::SemaphoreGiveBlock => Event::SemaphoreGiveBlock(event),
                    EventType::SemaphoreGiveFromIsr => Event::SemaphoreGiveFromIsr(event),
                    EventType::SemaphoreTakeFromIsr => Event::SemaphoreTakeFromIsr(event),
                    EventType::SemaphoreTake => Event::SemaphoreTake(event),
                    EventType::SemaphoreTakeBlock => Event::SemaphoreTakeBlock(event),
                    EventType::SemaphorePeek => Event::SemaphorePeek(event),
                    _ => Event::SemaphorePeekBlock(event),
                },
                q,
            ))
        },
        EventType::EventGroupCreate => {
            let handle = object_handle(data, &mut q, e, event_id)?;
            let event_bits = word(data, &mut q, e)?;
            table.entry(handle).set_class(ObjectClass::EventGroup);
            let event = EventGroupCreateEvent { event_count, timestamp, handle, name: name_of(table, handle), event_bits };
            Ok((Event::EventGroupCreate(event), q))
        },
        EventType::EventGroupSync | EventType::EventGroupWaitBits | EventType::EventGroupClearBits
        | EventType::EventGroupClearBitsFromIsr | EventType::EventGroupSetBits
        | EventType::EventGroupSetBitsFromIsr | EventType::EventGroupSyncBlock
        | EventType::EventGroupWaitBitsBlock => {
            let handle = object_handle(data, &mut q, e, event_id)?;
            let bits = word(data, &mut q, e)?;
            let event = EventGroupEvent { event_count, timestamp, handle, name: name_of(table, handle), bits };
            Ok((
                match event_type {
                    EventType::EventGroupSync => Event::EventGroupSync(event),
                    EventType::EventGroupWaitBits => Event::EventGroupWaitBits(event),
                    EventType::EventGroupClearBits => Event::EventGroupClearBits(event),
                    EventType::EventGroupClearBitsFromIsr => Event::EventGroupClearBitsFromIsr(event),
                    EventType::EventGroupSetBits => Event::EventGroupSetBits(event),
                    EventType::EventGroupSetBitsFromIsr => Event::EventGroupSetBitsFromIsr(event),
                    EventType::EventGroupSyncBlock => Event::EventGroupSyncBlock(event),
                    _ => Event::EventGroupWaitBitsBlock(event),
                },
                q,
            ))
        },
        _ => {
            assert(false);
            Err(Error::Io)
        },
    }
}

/// Decodes message buffer, state machine and stack events.
fn decode_buffer_machine(
    data: &[u8],
    p: usize,
    table: &mut EntryTable,
    e: Endianness,
    event_type: EventType,
    event_id: EventId,
    num_params: EventParameterCount,
    event_count: EventCount,
    timestamp: Timestamp,
) -> (r: Result<(Event, usize), Error>)
    requires
        old(table).wf(),
        p <= data@.len(),
        num_params.0 <= 15,
        event_type is MessageBufferCreate || event_type is MessageBufferSend || event_type is MessageBufferReceive || event_type is MessageBufferSendFromIsr || event_type is MessageBufferReceiveFromIsr || event_type is MessageBufferReset || event_type is MessageBufferSendBlock || event_type is MessageBufferReceiveBlock || event_type is StateMachineCreate || event_type is StateMachineStateCreate || event_type is StateMachineStateChange || event_type is UnusedStack,
    ensures
        final(table).wf(),
        r matches Ok((ev, np)) ==> spec_event_count(ev) == event_count && spec_timestamp(ev)
            == timestamp && p <= np <= data@.len() && !(ev is MemoryAlloc) && !(ev is MemoryFree)
            && event_has_type(ev, event_type) && payload_matches(ev, data@, p as int, e)
            && names_match(ev, final(table)@, data@, p as int, e),
        r is Ok && class_assigned(event_type) is Some ==> final(table)@.contains_key(u32_at(data@, p as int, e))
            && final(table)@[u32_at(data@, p as int, e)].class == class_assigned(event_type),
        typed_record_ok(event_type, data@, p as int, e, num_params.0 as int, old(table)@) ==> r is Ok,
        has_handle(event_type) && params_fit(event_type, num_params.0 as int) && p + 4 <= data@.len()
            && u32_at(data@, p as int, e) == 0 ==> r == Err::<(Event, usize), Error>(
            Error::InvalidObjectHandle(event_id),
        ),
        has_handle(event_type) && p + 4 > data@.len() && params_fit(event_type, num_params.0 as int)
            ==> r == Err::<(Event, usize), Error>(Error::Io),
        !mutates_table(event_type) ==> final(table)@ == old(table)@,
        mutates_table(event_type) && !two_handles(event_type) && r is Ok ==> final(table)@ == old(table)@.insert(
            u32_at(data@, p as int, e),
            final(table)@[u32_at(data@, p as int, e)],
        ),
        event_type is ObjectName && r is Ok && old(table)@.contains_key(u32_at(data@, p as int, e)) ==> ({
            let (a, b) = (old(table)@[u32_at(data@, p as int, e)], final(table)@[u32_at(data@, p as int, e)]);
            a.class == b.class && a.states == b.states && a.options == b.options
        }),
{
    let mut q: usize = p;
    match event_type {
        EventType::MessageBufferCreate => {
            let handle = object_handle(data, &mut q, e, event_id)?;
            let buffer_size = word(data, &mut q, e)?;
            table.entry(handle).set_class(ObjectClass::MessageBuffer);
            let event = MessageBufferCreateEvent { event_count, timestamp, handle, name: name_of(table, handle), buffer_size };
            Ok((Event::MessageBufferCreate(event), q))
        },
        EventType::MessageBufferSend | EventType::MessageBufferReceive
        | EventType::MessageBufferSendFromIsr | EventType::MessageBufferReceiveFromIsr
        | EventType::MessageBufferReset => {
            let handle = object_handle(data, &mut q, e, event_id)?;
            let bytes_in_buffer = word(data, &mut q, e)?;
            let event = MessageBufferEvent { event_count, timestamp, handle, name: name_of(table, handle), bytes_in_buffer };
            Ok((
                match event_type {
                    EventType::MessageBufferSend => Event::MessageBufferSend(event),
                    EventType::MessageBufferReceive => Event::MessageBufferReceive(event),
                    EventType::MessageBufferSendFromIsr => Event::MessageBufferSendFromIsr(event),
                    EventType::MessageBufferReceiveFromIsr => Event::MessageBufferReceiveFromIsr(event),
                    _ => Event::MessageBufferReset(event),
                },
                q,
            ))
        },
        EventType::MessageBufferSendBlock | EventType::MessageBufferReceiveBlock => {
            let handle = object_handle(data, &mut q, e, event_id)?;
            let event = MessageBufferBlockEvent { event_count, timestamp, handle, name: name_of(table, handle) };
            Ok((
                match event_type {
                    EventType::MessageBufferSendBlock => Event::MessageBufferSendBlock(event),
                    _ => Event::MessageBufferReceiveBlock(event),
                },
                q,
            ))
        },
        EventType::StateMachineCreate => {
            let handle = object_handle(data, &mut q, e, event_id)?;
            let _unused = word(data, &mut q, e)?;
            table.entry(handle).set_class(ObjectClass::StateMachine);
            let name = required_name(table, handle)?;
            let event = StateMachineCreateEvent { event_count, timestamp, handle, name };
            Ok((Event::StateMachineCreate(event), q))
        },
        EventType::StateMachineStateCreate => {
            let state_handle = object_handle(data, &mut q, e, event_id)?;
            let machine_handle = object_handle(data, &mut q, e, event_id)?;
            table.entry(state_handle).set_class(ObjectClass::StateMachine);
            let _ = table.entry(machine_handle);
            let _machine = required_name(table, machine_handle)?;
            let state = required_name(table, state_handle)?;
            let event = StateMachineStateCreateEvent { event_count, timestamp, handle: state_handle, state };
            Ok((Event::StateMachineStateCreate(event), q))
        },
        EventType::StateMachineStateChange => {
            let machine_handle = object_handle(data, &mut q, e, event_id)?;
            let state_handle = object_handle(data, &mut q, e, event_id)?;
            let _ = table.entry(machine_handle);
            let _ = table.entry(state_handle);
            let name = required_name(table, machine_handle)?;
            let state = required_name(table, state_handle)?;
            let event = StateMachineStateChangeEvent { event_count, timestamp, handle: machine_handle, name, state_handle, state };
            Ok((Event::StateMachineStateChange(event), q))
        },
        EventType::UnusedStack => {
            let handle = object_handle(data, &mut q, e, event_id)?;
            let low_mark = word(data, &mut q, e)?;
            let task = required_name(table, handle)?;
            let event = UnusedStackEvent { event_count, timestamp, handle, task, low_mark };
            Ok((Event::UnusedStack(event), q))
        },
        _ => {
            assert(false);
            Err(Error::Io)
        },
    }
}

impl EventParser {
    pub fn new(endianness: Endianness, heap: Heap) -> (r: Self)
        ensures
            r.endianness() == endianness,
            r.heap() == heap,
            r.custom_printf_event_id().is_none(),
    {
        EventParser { endianness, heap, custom_printf_event_id: None }
    }

    /// Byte order of the data.
    pub closed spec fn endianness(&self) -> Endianness {
        self.endianness
    }

    /// The heap as tracked so far.
    pub closed spec fn heap(&self) -> Heap {
        self.heap
    }

    /// The event ID of custom printf events, when enabled.
    pub closed spec fn custom_printf_event_id(&self) -> Option<EventId> {
        self.custom_printf_event_id
    }

    pub fn set_custom_printf_event_id(&mut self, custom_printf_event_id: EventId)
        ensures
            final(self).custom_printf_event_id() == Some(custom_printf_event_id),
            final(self).endianness() == old(self).endianness(),
            final(self).heap() == old(self).heap(),
    {
        self.custom_printf_event_id = Some(custom_printf_event_id);
    }

    pub fn system_heap(&self) -> (r: &Heap)
        ensures
            *r == self.heap(),
    {
        &self.heap
    }

    /// Decodes the record body at `p` for an event of type `t` with `n` parameters.
    #[verifier::rlimit(60)]
    fn decode_body(
        &mut self,
        data: &[u8],
        p: usize,
        table: &mut EntryTable,
        event_code: EventCode,
        event_count: EventCount,
        timestamp: Timestamp,
    ) -> (r: Result<(Event, usize), Error>)
        requires
            old(table).wf(),
            p <= data@.len(),
        ensures
            final(table).wf(),
            final(self).endianness() == old(self).endianness(),
            final(self).custom_printf_event_id() == old(self).custom_printf_event_id(),
            r matches Ok((ev, np)) ==> spec_event_count(ev) == event_count && spec_timestamp(ev)
                == timestamp && p <= np <= data@.len() && event_has_type(
                ev,
                spec_event_type((event_code.0 % 0x1000) as u16),
            ) && payload_matches(ev, data@, p as int, old(self).endianness()) && names_match(
                ev,
                final(table)@,
                data@,
                p as int,
                old(self).endianness(),
            ),
            ({
                let t = spec_event_type((event_code.0 % 0x1000) as u16);
                let h = u32_at(data@, p as int, old(self).endianness());
                r is Ok && class_assigned(t) is Some ==> final(table)@.contains_key(h)
                    && final(table)@[h].class == class_assigned(t)
            }),
            ({
                let t = spec_event_type((event_code.0 % 0x1000) as u16);
                let h = u32_at(data@, p as int, old(self).endianness());
                let name = trimmed_text(data@.subrange(p + 4, p + 4 * (event_code.0 / 0x1000)));
                &&& r is Ok && (t is TaskPriority || t is TaskPriorityInherit || t is TaskPriorityDisinherit
                    || t is TaskCreate || t is DefineIsr) ==> final(table)@[h].states.0[0] == u32_at(
                    data@,
                    p + 4,
                    old(self).endianness(),
                )
                &&& r matches Ok((Event::ObjectName(o), _)) ==> entry_symbol(final(table)@[h]) == Some(name)
                    && o.name.0@ == name
            }),
            r matches Ok((Event::MemoryAlloc(m), _)) ==> final(self).heap() == old(self).heap().after_alloc(
                m.size,
            ) && m.heap == final(self).heap(),
            r matches Ok((Event::MemoryFree(m), _)) ==> final(self).heap() == old(self).heap().after_free(
                m.size,
            ) && m.heap == final(self).heap(),
            !(r matches Ok((Event::MemoryAlloc(_), _))) && !(r matches Ok((Event::MemoryFree(_), _)))
                ==> final(self).heap() == old(self).heap(),
            ({
                let id = EventId(event_code.0 % 0x1000);
                let t = spec_event_type(id.0);
                let n = event_code.0 / 0x1000;
                let e = old(self).endianness();
                let h = u32_at(data@, p as int, e);
                &&& raw_event_type(t, id, old(self).custom_printf_event_id()) ==> {
                    &&& p + 4 * n > data@.len() ==> r == Err::<(Event, usize), Error>(Error::Io)
                    &&& p + 4 * n <= data@.len() ==> (r matches Ok((Event::Unknown(b), np)) && np == p + 4 * n
                        && b.code == event_code && b.parameters@.len() == n && forall|k: int|
                        0 <= k < n ==> #[trigger] b.parameters@[k] == u32_at(data@, p + 4 * k, e))
                }
                &&& typed_kernel(t) && typed_record_ok(t, data@, p as int, e, n as int, old(table)@) ==> r is Ok
                &&& user_layout(old(table)@, e, id.0, n as int, old(self).custom_printf_event_id(), data@, p as int) matches Some((fmt, args, end))
                    ==> match format_spec(entry_symbols(old(table)@), Protocol::Streaming, e, fmt, args) {
                    Ok(_) => r matches Ok((Event::User(u), np)) && np == end && user_text_matches(
                        u,
                        fmt,
                        args,
                        entry_symbols(old(table)@),
                        e,
                    ) && channel_matches(u.channel, old(table)@, h),
                    Err(f) => r matches Err(Error::FormattedString(x)) && error_matches(x, f),
                }
                &&& (t is MemoryAlloc || t is MemoryFree) && n == 2 && p + 8 <= data@.len() ==> r is Ok
                &&& !mutates_table(t) ==> final(table)@ == old(table)@
                &&& mutates_table(t) && !two_handles(t) && r is Ok ==> final(table)@ == old(table)@.insert(
                    h,
                    final(table)@[h],
                )
                &&& t is ObjectName && r is Ok && old(table)@.contains_key(h) ==> old(table)@[h].class
                    == final(table)@[h].class && old(table)@[h].states == final(table)@[h].states
                    && old(table)@[h].options == final(table)@[h].options
            }),
    {
        let e = self.endianness;
        let event_type = event_code.event_type();
        let event_id = event_code.event_id();
        let num_params = event_code.parameter_count();
        let mut q: usize = p;
        match event_type {
            EventType::MemoryAlloc | EventType::MemoryFree => {
                let address = word(data, &mut q, e)?;
                let size = word(data, &mut q, e)?;
                let alloc = match event_type {
                    EventType::MemoryAlloc => true,
                    _ => false,
                };
                if alloc {
                    self.heap.handle_alloc(size);
                } else {
                    self.heap.handle_free(size);
                }
                let event = MemoryEvent { event_count, timestamp, address, size, heap: self.heap };
                Ok((
                    if alloc {
                        Event::MemoryAlloc(event)
                    } else {
                        Event::MemoryFree(event)
                    },
                    q,
                ))
            },
            EventType::TraceStart | EventType::TsConfig | EventType::ObjectName | EventType::TaskPriority | EventType::TaskPriorityInherit | EventType::TaskPriorityDisinherit | EventType::DefineIsr | EventType::TaskCreate => decode_task_setup(
                data,
                q,
                table,
                e,
                event_type,
                event_id,
                num_params,
                event_count,
                timestamp,
            ),
            EventType::TaskReady | EventType::TaskSwitchTaskResume | EventType::TaskSwitchTaskBegin | EventType::TaskSwitchIsrBegin | EventType::TaskSwitchIsrResume | EventType::TaskActivate | EventType::TaskNotify | EventType::TaskNotifyFromIsr | EventType::TaskNotifyWait | EventType::TaskNotifyWaitBlock => decode_task_run(
                data,
                q,
                table,
                e,
                event_type,
                event_id,
                num_params,
                event_count,
                timestamp,
            ),
            EventType::QueueCreate | EventType::QueueSend | EventType::QueueSendBlock | EventType::QueueSendFromIsr | EventType::QueueReceiveFromIsr | EventType::QueueSendFront | EventType::QueueSendFrontBlock | EventType::QueueSendFrontFromIsr | EventType::QueueReceive | EventType::QueueReceiveBlock | EventType::QueuePeek | EventType::QueuePeekBlock | EventType::MutexCreate | EventType::MutexGive | EventType::MutexGiveBlock | EventType::MutexGiveRecursive | EventType::MutexTake | EventType::MutexTakeBlock | EventType::MutexTakeRecursive | EventType::MutexTakeRecursiveBlock => decode_queue_mutex(
                data,
                q,
                table,
                e,
                event_type,
                event_id,
                num_params,
                event_count,
                timestamp,
            ),
            EventType::SemaphoreBinaryCreate | EventType::SemaphoreCountingCreate | EventType::SemaphoreGive | EventType::SemaphoreGiveBlock | EventType::SemaphoreGiveFromIsr | EventType::SemaphoreTakeFromIsr | EventType::SemaphoreTake | EventType::SemaphoreTakeBlock | EventType::SemaphorePeek | EventType::SemaphorePeekBlock | EventType::EventGroupCreate | EventType::EventGroupSync | EventType::EventGroupWaitBits | EventType::EventGroupClearBits | EventType::EventGroupClearBitsFromIsr | EventType::EventGroupSetBits | EventType::EventGroupSetBitsFromIsr | EventType::EventGroupSyncBlock | EventType::EventGroupWaitBitsBlock => decode_semaphore_group(
                data,
                q,
                table,
                e,
                event_type,
                event_id,
                num_params,
                event_count,
                timestamp,
            ),
            EventType::MessageBufferCreate | EventType::MessageBufferSend | EventType::MessageBufferReceive | EventType::MessageBufferSendFromIsr | EventType::MessageBufferReceiveFromIsr | EventType::MessageBufferReset | EventType::MessageBufferSendBlock | EventType::MessageBufferReceiveBlock | EventType::StateMachineCreate | EventType::StateMachineStateCreate | EventType::StateMachineStateChange | EventType::UnusedStack => decode_buffer_machine(
                data,
                q,
                table,
                e,
                event_type,
                event_id,
                num_params,
                event_count,
                timestamp,
            ),
            EventType::UserEvent(raw_arg_count) => {
                self.decode_user_event(data, q, table, event_id, num_params, raw_arg_count, event_count, timestamp)
            },
            EventType::Unknown(_) => {
                let is_custom = match self.custom_printf_event_id {
                    Some(id) => id.0 == event_id.0,
                    None => false,
                };
                if is_custom {
                    self.decode_custom_printf(data, q, table, event_id, num_params, event_count, timestamp)
                } else {
                    self.decode_base(data, q, event_code, event_count, timestamp)
                }
            },
            _ => self.decode_base(data, q, event_code, event_count, timestamp),
        }
    }
}

/// Formats a user event string. An unsupported conversion leaves the format string as
/// the text (the formatter's own rule); a missing or zero `%s` symbol, or argument data
/// that ends too soon, is an error of the event.
fn format_user_string(
    table: &EntryTable,
    e: Endianness,
    format_string: &String,
    arg_data: &Vec<u8>,
) -> (r: Result<(FormattedString, Vec<crate::types::Argument>), Error>)
    requires
        table.wf(),
    ensures
        match format_spec(table.symbol_map(), Protocol::Streaming, e, format_string@, arg_data@) {
            Ok((pieces, specs)) => r matches Ok((fs, args)) && fs.pieces_view() == pieces && args_match(
                args@,
                specs,
                table.symbol_map(),
            ),
            Err(f) => r matches Err(Error::FormattedString(x)) && error_matches(x, f),
        },
{
    match format_symbol_string(table, Protocol::Streaming, e, format_string.as_str(), arg_data.as_slice()) {
        Ok((fs, args)) => Ok((fs, args)),
        Err(x) => Err(Error::FormattedString(x)),
    }
}

/// Reads the next 16-bit value at `*p` and moves past it.
fn half(data: &[u8], p: &mut usize, e: Endianness) -> (r: Result<u16, Error>)
    ensures
        old(p) + 2 <= data@.len() ==> r == Ok::<u16, Error>(u16_at(data@, *old(p) as int, e))
            && *final(p) == *old(p) + 2,
        old(p) + 2 > data@.len() ==> r == Err::<u16, Error>(Error::Io),
        *final(p) <= data@.len() || *final(p) == *old(p),
{
    match read_u16(data, *p, e) {
        Some(v) => {
            *p = *p + 2;
            Ok(v)
        },
        None => Err(Error::Io),
    }
}

impl EventParser {
    /// An event without a typed decoder: its raw parameter words.
    fn decode_base(
        &self,
        data: &[u8],
        p: usize,
        event_code: EventCode,
        event_count: EventCount,
        timestamp: Timestamp,
    ) -> (r: Result<(Event, usize), Error>)
        requires
            p <= data@.len(),
        ensures
            ({
                let n = event_code.0 / 0x1000;
                &&& p + 4 * n > data@.len() ==> r == Err::<(Event, usize), Error>(Error::Io)
                &&& p + 4 * n <= data@.len() ==> (r matches Ok((Event::Unknown(b), np)) && np == p + 4 * n
                    && b.code == event_code && b.event_count == event_count && b.timestamp == timestamp
                    && b.parameters@.len() == n && forall|k: int| 0 <= k < n ==> #[trigger] b.parameters@[k]
                    == u32_at(data@, p + 4 * k, self.endianness()))
            }),
    {
        let n = event_code.parameter_count().0 as usize;
        if data.len() - p < 4 * n {
            return Err(Error::Io);
        }
        let mut parameters: Vec<u32> = Vec::new();
        let mut k: usize = 0;
        while k < n
            invariant
                k <= n,
                n == event_code.0 / 0x1000,
                p + 4 * n <= data.len(),
                parameters@.len() == k,
                forall|j: int| 0 <= j < k ==> #[trigger] parameters@[j] == u32_at(data@, p + 4 * j, self.endianness()),
            decreases n - k,
        {
            parameters.push(read_u32(data, p + 4 * k, self.endianness).unwrap());
            k += 1;
        }
        let b = BaseEvent { code: event_code, event_count, timestamp, parameters };
        Ok((Event::Unknown(b), p + 4 * n))
    }

    /// A user event: channel, arguments and either an inline format string or, for
    /// fixed user events, the handle of one.
    fn decode_user_event(
        &self,
        data: &[u8],
        p: usize,
        table: &EntryTable,
        event_id: EventId,
        num_params: EventParameterCount,
        raw_arg_count: UserEventArgRecordCount,
        event_count: EventCount,
        timestamp: Timestamp,
    ) -> (r: Result<(Event, usize), Error>)
        requires
            table.wf(),
            p <= data@.len(),
            num_params.0 <= 15,
            0x90 <= event_id.0 <= 0x9F,
            raw_arg_count.0 == event_id.0 - 0x90,
        ensures
            r matches Ok((ev, np)) ==> spec_event_count(ev) == event_count && spec_timestamp(ev)
                == timestamp && p <= np <= data@.len() && ev is User,
            num_params.0 < 1 ==> r == Err::<(Event, usize), Error>(
                Error::InvalidEventParameterCount(event_id, 1, num_params),
            ),
            ({
                let e = self.endianness();
                let n = num_params.0 as int;
                let raw = raw_arg_count.0 as int;
                let fixed = event_id.0 >= FIXED_USER_EVENT_ID && raw >= n;
                let h = u32_at(data@, p as int, e);
                let nf = if raw != 0 { raw - 1 } else { 0 };
                let args = data@.subrange(p + 4, p + 4 + 4 * nf);
                let fmt = trimmed_text(data@.subrange(p + 4 + 4 * nf, p + 4 * n));
                !fixed && n >= 1 && raw < n && p + 4 * n <= data@.len() && h != 0 ==> match format_spec(
                    table.symbol_map(),
                    Protocol::Streaming,
                    e,
                    fmt,
                    args,
                ) {
                    Ok(_) => r matches Ok((Event::User(u), np)) && np == p + 4 * n && user_text_matches(
                        u,
                        fmt,
                        args,
                        table.symbol_map(),
                        e,
                    ) && channel_matches(u.channel, table@, h),
                    Err(f) => r matches Err(Error::FormattedString(x)) && error_matches(x, f),
                }
            }),
            ({
                let e = self.endianness();
                let n = num_params.0 as int;
                let ac = event_id.0 - FIXED_USER_EVENT_ID;
                let fixed = event_id.0 >= FIXED_USER_EVENT_ID && raw_arg_count.0 >= num_params.0;
                let h = u32_at(data@, p as int, e);
                let f = u32_at(data@, p + 4, e);
                let args = data@.subrange(p + 8, p + 8 + 4 * ac);
                fixed && ac < n && p + 8 + 4 * ac <= data@.len() && h != 0 && f != 0 && has_symbol(table@, f) ==> ({
                    let fmt = entry_symbol(table@[f]).unwrap();
                    match format_spec(table.symbol_map(), Protocol::Streaming, e, fmt, args) {
                        Ok(_) => r matches Ok((Event::User(u), np)) && np == p + 8 + 4 * ac && user_text_matches(
                            u,
                            fmt,
                            args,
                            table.symbol_map(),
                            e,
                        ) && channel_matches(u.channel, table@, h),
                        Err(x) => r matches Err(Error::FormattedString(y)) && error_matches(y, x),
                    }
                })
            }),
            ({
                let fixed = event_id.0 >= FIXED_USER_EVENT_ID && raw_arg_count.0 >= num_params.0;
                let arg_count = if fixed { event_id.0 - FIXED_USER_EVENT_ID } else { raw_arg_count.0 as int };
                num_params.0 >= 1 && arg_count >= num_params.0 ==> r == Err::<(Event, usize), Error>(
                    Error::InvalidEventParameterCount(event_id, arg_count as usize, num_params),
                )
            }),
    {
        let e = self.endianness;
        let n = num_params.0;
        if n < 1 {
            return Err(Error::InvalidEventParameterCount(event_id, 1, num_params));
        }
        let is_fixed = event_id.0 >= FIXED_USER_EVENT_ID && raw_arg_count.0 >= n;
        let arg_count: u8 = if is_fixed {
            (event_id.0 - FIXED_USER_EVENT_ID) as u8
        } else {
            raw_arg_count.0
        };
        if arg_count >= n {
            return Err(Error::InvalidEventParameterCount(event_id, arg_count as usize, num_params));
        }
        let mut q = p;
        let channel_handle = object_handle(data, &mut q, e, event_id)?;
        let channel = channel_of(table, channel_handle);
        let (format_string, arg_data) = if is_fixed {
            let fmt_handle = object_handle(data, &mut q, e, event_id)?;
            let arg_data = read_bytes(data, &mut q, arg_count as usize * 4)?;
            match table.symbol(fmt_handle) {
                Some(s) => (s.0.clone(), arg_data),
                None => {
                    let remaining: usize = if n >= arg_count + 2 {
                        (n - arg_count - 2) as usize
                    } else {
                        0
                    };
                    let _skipped = read_bytes(data, &mut q, remaining * 4)?;
                    return Err(Error::FixedUserEventFmtStringLookup(fmt_handle));
                },
            }
        } else {
            let not_fmt: usize = if arg_count != 0 {
                arg_count as usize - 1
            } else {
                0
            };
            let arg_data = read_bytes(data, &mut q, not_fmt * 4)?;
            let fmt = read_string(data, &mut q, (n as usize - 1 - not_fmt) * 4)?;
            (fmt.0, arg_data)
        };
        let (formatted_string, args) = format_user_string(table, e, &format_string, &arg_data)?;
        let event = UserEvent {
            event_count,
            timestamp,
            channel,
            format_string: FormatString(format_string),
            formatted_string,
            args,
        };
        Ok((Event::User(event), q))
    }

    /// A custom printf event: no parameters, then channel, argument length, format
    /// length, arguments and format string.
    fn decode_custom_printf(
        &self,
        data: &[u8],
        p: usize,
        table: &EntryTable,
        event_id: EventId,
        num_params: EventParameterCount,
        event_count: EventCount,
        timestamp: Timestamp,
    ) -> (r: Result<(Event, usize), Error>)
        requires
            table.wf(),
            p <= data@.len(),
        ensures
            r matches Ok((ev, np)) ==> spec_event_count(ev) == event_count && spec_timestamp(ev)
                == timestamp && p <= np <= data@.len() && ev is User,
            num_params.0 != 0 ==> r == Err::<(Event, usize), Error>(
                Error::InvalidEventParameterCount(event_id, 0, num_params),
            ),
            ({
                let e = self.endianness();
                let h = u32_at(data@, p as int, e);
                let al = u16_at(data@, p + 4, e) as int;
                let fl = u16_at(data@, p + 6, e) as int;
                let args = data@.subrange(p + 8, p + 8 + 4 * al);
                let fmt = trimmed_text(data@.subrange(p + 8 + 4 * al, p + 8 + 4 * al + fl));
                num_params.0 == 0 && p + 8 <= data@.len() && h != 0 && p + 8 + 4 * al + fl <= data@.len() ==> match format_spec(
                    table.symbol_map(),
                    Protocol::Streaming,
                    e,
                    fmt,
                    args,
                ) {
                    Ok(_) => r matches Ok((Event::User(u), np)) && np == p + 8 + 4 * al + fl
                        && user_text_matches(u, fmt, args, table.symbol_map(), e) && channel_matches(
                        u.channel,
                        table@,
                        h,
                    ),
                    Err(f) => r matches Err(Error::FormattedString(x)) && error_matches(x, f),
                }
            }),
    {
        let e = self.endianness;
        if num_params.0 != 0 {
            return Err(Error::InvalidEventParameterCount(event_id, 0, num_params));
        }
        let mut q = p;
        let channel_handle = object_handle(data, &mut q, e, event_id)?;
        let channel = channel_of(table, channel_handle);
        let args_len = half(data, &mut q, e)?;
        let fmt_len = half(data, &mut q, e)?;
        let arg_data = read_bytes(data, &mut q, args_len as usize * 4)?;
        let fmt = read_string(data, &mut q, fmt_len as usize)?;
        let (formatted_string, args) = format_user_string(table, e, &fmt.0, &arg_data)?;
        let event = UserEvent {
            event_count,
            timestamp,
            channel,
            format_string: FormatString(fmt.0),
            formatted_string,
            args,
        };
        Ok((Event::User(event), q))
    }
}

/// The event code at `pos` in the given byte order.
pub open spec fn code_at(data: Seq<u8>, pos: int, e: Endianness) -> u16 {
    u16_at(data, pos, e)
}

/// What decoding the record at `pos` does, from the decoder and table states before to
/// those after, with result `r`:
/// - fewer than four bytes left: `None`;
/// - a PSF word (read little-endian): `TraceRestarted` with its byte order;
/// - a header cut short: `Io`; a fixed parameter count that differs: the exact error;
///   none of these touches the table or the heap;
/// - otherwise an event with the record's code, count and timestamp, of the variant its
///   type names, whose fields hold the parameter words; typed kernel records that
///   `typed_record_ok` accepts and complete memory and raw records always succeed, raw
///   records keep their parameter words;
/// - the table changes only for types that `mutates_table` names, and then only at the
///   first handle; names, classes and priorities are recorded before the event is built;
/// - the heap follows allocations and frees, and nothing else.
pub open spec fn next_event_post(
    old_p: EventParser,
    new_p: EventParser,
    old_t: Map<u32, Entry>,
    new_t: Map<u32, Entry>,
    data: Seq<u8>,
    pos: int,
    r: Result<Option<(EventCode, Event, usize)>, Error>,
) -> bool {
    let e = old_p.endianness();
    let w = u32_at(data, pos, Endianness::Little);
    let code = code_at(data, pos, e);
    let id = (code % 0x1000) as u16;
    let t = spec_event_type(id);
    let n = code / 0x1000;
    let h = u32_at(data, pos + 8, e);
    &&& new_p.endianness() == old_p.endianness()
    &&& new_p.custom_printf_event_id() == old_p.custom_printf_event_id()
    &&& pos + 4 > data.len() ==> r == Ok::<Option<(EventCode, Event, usize)>, Error>(None)
    &&& pos + 4 <= data.len() ==> if w == PSF_LITTLE_ENDIAN {
        r == Err::<Option<(EventCode, Event, usize)>, Error>(Error::TraceRestarted(Endianness::Little))
            && new_t == old_t
    } else if w == PSF_BIG_ENDIAN {
        r == Err::<Option<(EventCode, Event, usize)>, Error>(Error::TraceRestarted(Endianness::Big))
            && new_t == old_t
    } else if pos + 8 > data.len() {
        r == Err::<Option<(EventCode, Event, usize)>, Error>(Error::Io) && new_t == old_t
    } else if spec_expected_parameter_count(t) is Some && spec_expected_parameter_count(t).unwrap() != n {
        r == Err::<Option<(EventCode, Event, usize)>, Error>(
            Error::InvalidEventParameterCount(
                EventId(id),
                spec_expected_parameter_count(t).unwrap(),
                EventParameterCount(n as u8),
            ),
        ) && new_t == old_t
    } else {
        &&& r is Ok ==> (r matches Ok(Some((c, ev, np))) && c == EventCode(code) && event_has_type(ev, t)
            && payload_matches(ev, data, pos + 8, e) && names_match(ev, new_t, data, pos + 8, e) && (
        ev matches Event::ObjectName(o) ==> entry_symbol(new_t[h]) == Some(
            trimmed_text(data.subrange(pos + 12, pos + 8 + 4 * n)),
        ) && o.name.0@ == trimmed_text(data.subrange(pos + 12, pos + 8 + 4 * n)))
            && (t is TaskPriority || t is TaskPriorityInherit || t is TaskPriorityDisinherit || t is TaskCreate
            || t is DefineIsr ==> new_t[h].states.0[0] == u32_at(data, pos + 12, e)) && (class_assigned(t) is Some ==> new_t.contains_key(h) && new_t[h].class == class_assigned(t))
            && spec_event_count(ev) == EventCount(u16_at(data, pos + 2, e)) && spec_timestamp(ev) == Timestamp(
            u32_at(data, pos + 4, e) as u64,
        ) && pos + 8 <= np <= data.len())
        &&& raw_event_type(t, EventId(id), old_p.custom_printf_event_id()) && pos + 8 + 4 * n <= data.len() ==> (
        r matches Ok(Some((c, Event::Unknown(b), np))) && np == pos + 8 + 4 * n && b.code == c
            && b.parameters@.len() == n && forall|k: int|
            0 <= k < n ==> #[trigger] b.parameters@[k] == u32_at(data, pos + 8 + 4 * k, e))
        &&& typed_kernel(t) && typed_record_ok(t, data, pos + 8, e, n as int, old_t) ==> r is Ok
        &&& user_layout(old_t, e, id, n as int, old_p.custom_printf_event_id(), data, pos + 8) matches Some((fmt, args, end))
            ==> match format_spec(entry_symbols(old_t), Protocol::Streaming, e, fmt, args) {
            Ok(_) => r matches Ok(Some((_, Event::User(u), np))) && np == end && user_text_matches(
                u,
                fmt,
                args,
                entry_symbols(old_t),
                e,
            ) && channel_matches(u.channel, old_t, h),
            Err(f) => r matches Err(Error::FormattedString(x)) && error_matches(x, f),
        }
        &&& (t is MemoryAlloc || t is MemoryFree) && pos + 16 <= data.len() ==> r is Ok
        &&& !mutates_table(t) ==> new_t == old_t
        &&& mutates_table(t) && !two_handles(t) && r is Ok ==> new_t == old_t.insert(h, new_t[h])
        &&& t is ObjectName && r is Ok && old_t.contains_key(h) ==> old_t[h].class == new_t[h].class
            && old_t[h].states == new_t[h].states && old_t[h].options == new_t[h].options
    }
    &&& r matches Ok(Some((_, Event::MemoryAlloc(m), _))) ==> new_p.heap() == old_p.heap().after_alloc(m.size)
        && m.heap == new_p.heap()
    &&& r matches Ok(Some((_, Event::MemoryFree(m), _))) ==> new_p.heap() == old_p.heap().after_free(m.size)
        && m.heap == new_p.heap()
    &&& !(r matches Ok(Some((_, Event::MemoryAlloc(_), _)))) && !(r matches Ok(Some((_, Event::MemoryFree(_), _))))
        ==> new_p.heap() == old_p.heap()
}

impl EventParser {
    /// Decodes the event record at `pos`. Returns `None` at the end of the data (fewer
    /// than four bytes left), `TraceRestarted` when the PSF word stands where a record
    /// should start, and otherwise the event code, the event and the position after the
    /// record. The entry table and the heap are updated as the event says.
    pub fn next_event(&mut self, data: &[u8], pos: usize, entry_table: &mut EntryTable) -> (r: Result<
        Option<(EventCode, Event, usize)>,
        Error,
    >)
        requires
            old(entry_table).wf(),
        ensures
            final(entry_table).wf(),
            next_event_post(*old(self), *final(self), old(entry_table)@, final(entry_table)@, data@, pos as int, r),
    {
        if pos > data.len() || data.len() - pos < 4 {
            return Ok(None);
        }
        let w = read_u32(data, pos, Endianness::Little).unwrap();
        if w == PSF_LITTLE_ENDIAN {
            return Err(Error::TraceRestarted(Endianness::Little));
        } else if w == PSF_BIG_ENDIAN {
            return Err(Error::TraceRestarted(Endianness::Big));
        }
        let e = self.endianness;
        let event_code = EventCode(read_u16(data, pos, e).unwrap());
        let event_count = EventCount(read_u16(data, pos + 2, e).unwrap());
        let ts = match read_u32(data, pos + 4, e) {
            Some(v) => v,
            None => return Err(Error::Io),
        };
        let timestamp = Timestamp(ts as u64);
        let event_type = event_code.event_type();
        let num_params = event_code.parameter_count();
        match event_type.expected_parameter_count() {
            Some(expected) => {
                if num_params.0 as usize != expected {
                    return Err(Error::InvalidEventParameterCount(event_code.event_id(), expected, num_params));
                }
            },
            None => {},
        }
        let (event, np) = self.decode_body(data, pos + 8, entry_table, event_code, event_count, timestamp)?;
        Ok(Some((event_code, event, np)))
    }
}

} // verus!
