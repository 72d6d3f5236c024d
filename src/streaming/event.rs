//! Event codes, event types and the event model of the streaming protocol.
use vstd::prelude::*;
use crate::types::UserEventArgRecordCount;

verus! {

/// Lowest event ID that may carry a fixed user event.
pub const FIXED_USER_EVENT_ID: u16 = 0x98;

/// The 16-bit sequence number of an event.
#[derive(Copy, Clone, Debug, PartialEq, Eq, Structural)]
pub struct EventCount(pub u16);

/// Number of 32-bit parameters of an event record.
#[derive(Copy, Clone, Debug, PartialEq, Eq, Structural)]
pub struct EventParameterCount(pub u8);

/// The largest parameter count an event code can carry.
pub const MAX_EVENT_PARAMETERS: usize = 15;

/// Event codes for streaming mode: the low 12 bits are the event ID, the high 4 bits
/// the parameter count.
#[derive(Copy, Clone, Debug, PartialEq, Eq, Structural)]
pub struct EventCode(pub u16);

/// Event IDs for streaming mode.
#[derive(Copy, Clone, Debug, PartialEq, Eq, Structural)]
pub struct EventId(pub u16);

impl EventCode {
    pub fn event_id(&self) -> (r: EventId)
        ensures
            r.0 == self.0 % 0x1000,
    {
        EventId(self.0 % 0x1000)
    }

    pub fn event_type(&self) -> (r: EventType)
        ensures
            r == spec_event_type((self.0 % 0x1000) as u16),
    {
        EventType::from(self.event_id())
    }

    /// The number of 32-bit parameters of the event.
    pub fn parameter_count(&self) -> (r: EventParameterCount)
        ensures
            r.0 == self.0 / 0x1000,
            r.0 <= 15,
    {
        EventParameterCount((self.0 / 0x1000) as u8)
    }
}

/// Event types of the streaming protocol.
#[derive(Copy, Clone, Debug, PartialEq, Eq, Structural)]
pub enum EventType {
    Null,
    TraceStart,
    TsConfig,
    ObjectName,
    TaskPriority,
    TaskPriorityInherit,
    TaskPriorityDisinherit,
    DefineIsr,
    TaskCreate,
    TaskCreateFailed,
    TaskReady,
    TaskSwitchIsrBegin,
    TaskSwitchIsrResume,
    TaskSwitchTaskBegin,
    TaskSwitchTaskResume,
    TaskActivate,
    TaskDelayUntil,
    TaskDelay,
    TaskSuspend,
    TaskResume,
    TaskResumeFromIsr,
    TaskNotify,
    TaskNotifyWait,
    TaskNotifyWaitFailed,
    TaskNotifyWaitBlock,
    TaskNotifyFromIsr,
    MemoryAlloc,
    MemoryFree,
    QueueCreate,
    QueueCreateFailed,
    QueueSend,
    QueueSendFailed,
    QueueSendBlock,
    QueueSendFromIsr,
    QueueSendFromIsrFailed,
    QueueReceive,
    QueueReceiveFailed,
    QueueReceiveBlock,
    QueueReceiveFromIsr,
    QueueReceiveFromIsrFailed,
    QueuePeek,
    QueuePeekFailed,
    QueuePeekBlock,
    QueueSendFront,
    QueueSendFrontBlock,
    QueueSendFrontFromIsr,
    MutexCreate,
    MutexCreateFailed,
    MutexGive,
    MutexGiveFailed,
    MutexGiveBlock,
    MutexGiveRecursive,
    MutexTake,
    MutexTakeFailed,
    MutexTakeBlock,
    MutexTakeRecursive,
    MutexTakeRecursiveBlock,
    SemaphoreBinaryCreate,
    SemaphoreBinaryCreateFailed,
    SemaphoreCountingCreate,
    SemaphoreCountingCreateFailed,
    SemaphoreGive,
    SemaphoreGiveFailed,
    SemaphoreGiveBlock,
    SemaphoreGiveFromIsr,
    SemaphoreGiveFromIsrFailed,
    SemaphoreTake,
    SemaphoreTakeFailed,
    SemaphoreTakeBlock,
    SemaphoreTakeFromIsr,
    SemaphoreTakeFromIsrFailed,
    SemaphorePeek,
    SemaphorePeekFailed,
    SemaphorePeekBlock,
    TimerCreate,
    TimerStart,
    TimerReset,
    TimerStop,
    TimerExpired,
    EventGroupCreate,
    EventGroupCreateFailed,
    EventGroupSync,
    EventGroupWaitBits,
    EventGroupClearBits,
    EventGroupClearBitsFromIsr,
    EventGroupSetBits,
    EventGroupSetBitsFromIsr,
    EventGroupSyncBlock,
    EventGroupWaitBitsBlock,
    EventGroupSyncFailed,
    EventGroupWaitBitsFailed,
    MessageBufferCreate,
    MessageBufferCreateFailed,
    MessageBufferSend,
    MessageBufferSendBlock,
    MessageBufferSendFailed,
    MessageBufferReceive,
    MessageBufferReceiveBlock,
    MessageBufferReceiveFailed,
    MessageBufferSendFromIsr,
    MessageBufferSendFromIsrFailed,
    MessageBufferReceiveFromIsr,
    MessageBufferReceiveFromIsrFailed,
    MessageBufferReset,
    StateMachineStateCreate,
    StateMachineCreate,
    StateMachineStateChange,
    UnusedStack,
    /// IDs 0x90 to 0x9F: the low nibble is the argument word count.
    UserEvent(UserEventArgRecordCount),
    /// An ID outside the closed mapping.
    Unknown(EventId),
}

/// The event type that an event ID stands for.
pub open spec fn spec_event_type(id: u16) -> EventType {
    if 0x90 <= id <= 0x9F {
        EventType::UserEvent(UserEventArgRecordCount((id - 0x90) as u8))
    } else {
        match id {
            0x00 => EventType::Null,
            0x01 => EventType::TraceStart,
            0x02 => EventType::TsConfig,
            0x03 => EventType::ObjectName,
            0x04 => EventType::TaskPriority,
            0x05 => EventType::TaskPriorityInherit,
            0x06 => EventType::TaskPriorityDisinherit,
            0x07 => EventType::DefineIsr,
            0x10 => EventType::TaskCreate,
            0x40 => EventType::TaskCreateFailed,
            0x30 => EventType::TaskReady,
            0x33 => EventType::TaskSwitchIsrBegin,
            0x34 => EventType::TaskSwitchIsrResume,
            0x35 => EventType::TaskSwitchTaskBegin,
            0x36 => EventType::TaskSwitchTaskResume,
            0x37 => EventType::TaskActivate,
            0x79 => EventType::TaskDelayUntil,
            0x7A => EventType::TaskDelay,
            0x7B => EventType::TaskSuspend,
            0x7C => EventType::TaskResume,
            0x7D => EventType::TaskResumeFromIsr,
            0xC9 => EventType::TaskNotify,
            0xCA => EventType::TaskNotifyWait,
            0xCC => EventType::TaskNotifyWaitFailed,
            0xCB => EventType::TaskNotifyWaitBlock,
            0xCD => EventType::TaskNotifyFromIsr,
            0x38 => EventType::MemoryAlloc,
            0x39 => EventType::MemoryFree,
            0x11 => EventType::QueueCreate,
            0x41 => EventType::QueueCreateFailed,
            0x50 => EventType::QueueSend,
            0x53 => EventType::QueueSendFailed,
            0x56 => EventType::QueueSendBlock,
            0x59 => EventType::QueueSendFromIsr,
            0x5C => EventType::QueueSendFromIsrFailed,
            0x60 => EventType::QueueReceive,
            0x63 => EventType::QueueReceiveFailed,
            0x66 => EventType::QueueReceiveBlock,
            0x69 => EventType::QueueReceiveFromIsr,
            0x6C => EventType::QueueReceiveFromIsrFailed,
            0x70 => EventType::QueuePeek,
            0x73 => EventType::QueuePeekFailed,
            0x76 => EventType::QueuePeekBlock,
            0xC0 => EventType::QueueSendFront,
            0xC2 => EventType::QueueSendFrontBlock,
            0xC3 => EventType::QueueSendFrontFromIsr,
            0x13 => EventType::MutexCreate,
            0x43 => EventType::MutexCreateFailed,
            0x52 => EventType::MutexGive,
            0x55 => EventType::MutexGiveFailed,
            0x58 => EventType::MutexGiveBlock,
            0xC5 => EventType::MutexGiveRecursive,
            0x62 => EventType::MutexTake,
            0x65 => EventType::MutexTakeFailed,
            0x68 => EventType::MutexTakeBlock,
            0xC7 => EventType::MutexTakeRecursive,
            0xF6 => EventType::MutexTakeRecursiveBlock,
            0x12 => EventType::SemaphoreBinaryCreate,
            0x42 => EventType::SemaphoreBinaryCreateFailed,
            0x16 => EventType::SemaphoreCountingCreate,
            0x46 => EventType::SemaphoreCountingCreateFailed,
            0x51 => EventType::SemaphoreGive,
            0x54 => EventType::SemaphoreGiveFailed,
            0x57 => EventType::SemaphoreGiveBlock,
            0x5A => EventType::SemaphoreGiveFromIsr,
            0x5D => EventType::SemaphoreGiveFromIsrFailed,
            0x61 => EventType::SemaphoreTake,
            0x64 => EventType::SemaphoreTakeFailed,
            0x67 => EventType::SemaphoreTakeBlock,
            0x6A => EventType::SemaphoreTakeFromIsr,
            0x6D => EventType::SemaphoreTakeFromIsrFailed,
            0x71 => EventType::SemaphorePeek,
            0x74 => EventType::SemaphorePeekFailed,
            0x77 => EventType::SemaphorePeekBlock,
            0x14 => EventType::TimerCreate,
            0xA0 => EventType::TimerStart,
            0xA1 => EventType::TimerReset,
            0xA2 => EventType::TimerStop,
            0xD2 => EventType::TimerExpired,
            0x15 => EventType::EventGroupCreate,
            0x45 => EventType::EventGroupCreateFailed,
            0xB0 => EventType::EventGroupSync,
            0xB1 => EventType::EventGroupWaitBits,
            0xB2 => EventType::EventGroupClearBits,
            0xB3 => EventType::EventGroupClearBitsFromIsr,
            0xB4 => EventType::EventGroupSetBits,
            0xB5 => EventType::EventGroupSetBitsFromIsr,
            0xB6 => EventType::EventGroupSyncBlock,
            0xB7 => EventType::EventGroupWaitBitsBlock,
            0xB8 => EventType::EventGroupSyncFailed,
            0xB9 => EventType::EventGroupWaitBitsFailed,
            0x19 => EventType::MessageBufferCreate,
            0x4A => EventType::MessageBufferCreateFailed,
            0xDE => EventType::MessageBufferSend,
            0xDF => EventType::MessageBufferSendBlock,
            0xE0 => EventType::MessageBufferSendFailed,
            0xE1 => EventType::MessageBufferReceive,
            0xE2 => EventType::MessageBufferReceiveBlock,
            0xE3 => EventType::MessageBufferReceiveFailed,
            0xE4 => EventType::MessageBufferSendFromIsr,
            0xE5 => EventType::MessageBufferSendFromIsrFailed,
            0xE6 => EventType::MessageBufferReceiveFromIsr,
            0xE7 => EventType::MessageBufferReceiveFromIsrFailed,
            0xE8 => EventType::MessageBufferReset,
            0xEC => EventType::StateMachineStateCreate,
            0xED => EventType::StateMachineCreate,
            0xEE => EventType::StateMachineStateChange,
            0xEB => EventType::UnusedStack,
            _ => EventType::Unknown(EventId(id)),
        }
    }
}

/// The event ID of an event type.
pub open spec fn spec_event_id(t: EventType) -> u16 {
    match t {
        EventType::Null => 0x00,
        EventType::TraceStart => 0x01,
        EventType::TsConfig => 0x02,
        EventType::ObjectName => 0x03,
        EventType::TaskPriority => 0x04,
        EventType::TaskPriorityInherit => 0x05,
        EventType::TaskPriorityDisinherit => 0x06,
        EventType::DefineIsr => 0x07,
        EventType::TaskCreate => 0x10,
        EventType::TaskCreateFailed => 0x40,
        EventType::TaskReady => 0x30,
        EventType::TaskSwitchIsrBegin => 0x33,
        EventType::TaskSwitchIsrResume => 0x34,
        EventType::TaskSwitchTaskBegin => 0x35,
        EventType::TaskSwitchTaskResume => 0x36,
        EventType::TaskActivate => 0x37,
        EventType::TaskDelayUntil => 0x79,
        EventType::TaskDelay => 0x7A,
        EventType::TaskSuspend => 0x7B,
        EventType::TaskResume => 0x7C,
        EventType::TaskResumeFromIsr => 0x7D,
        EventType::TaskNotify => 0xC9,
        EventType::TaskNotifyWait => 0xCA,
        EventType::TaskNotifyWaitFailed => 0xCC,
        EventType::TaskNotifyWaitBlock => 0xCB,
        EventType::TaskNotifyFromIsr => 0xCD,
        EventType::MemoryAlloc => 0x38,
        EventType::MemoryFree => 0x39,
        EventType::QueueCreate => 0x11,
        EventType::QueueCreateFailed => 0x41,
        EventType::QueueSend => 0x50,
        EventType::QueueSendFailed => 0x53,
        EventType::QueueSendBlock => 0x56,
        EventType::QueueSendFromIsr => 0x59,
        EventType::QueueSendFromIsrFailed => 0x5C,
        EventType::QueueReceive => 0x60,
        EventType::QueueReceiveFailed => 0x63,
        EventType::QueueReceiveBlock => 0x66,
        EventType::QueueReceiveFromIsr => 0x69,
        EventType::QueueReceiveFromIsrFailed => 0x6C,
        EventType::QueuePeek => 0x70,
        EventType::QueuePeekFailed => 0x73,
        EventType::QueuePeekBlock => 0x76,
        EventType::QueueSendFront => 0xC0,
        EventType::QueueSendFrontBlock => 0xC2,
        EventType::QueueSendFrontFromIsr => 0xC3,
        EventType::MutexCreate => 0x13,
        EventType::MutexCreateFailed => 0x43,
        EventType::MutexGive => 0x52,
        EventType::MutexGiveFailed => 0x55,
        EventType::MutexGiveBlock => 0x58,
        EventType::MutexGiveRecursive => 0xC5,
        EventType::MutexTake => 0x62,
        EventType::MutexTakeFailed => 0x65,
        EventType::MutexTakeBlock => 0x68,
        EventType::MutexTakeRecursive => 0xC7,
        EventType::MutexTakeRecursiveBlock => 0xF6,
        EventType::SemaphoreBinaryCreate => 0x12,
        EventType::SemaphoreBinaryCreateFailed => 0x42,
        EventType::SemaphoreCountingCreate => 0x16,
        EventType::SemaphoreCountingCreateFailed => 0x46,
        EventType::SemaphoreGive => 0x51,
        EventType::SemaphoreGiveFailed => 0x54,
        EventType::SemaphoreGiveBlock => 0x57,
        EventType::SemaphoreGiveFromIsr => 0x5A,
        EventType::SemaphoreGiveFromIsrFailed => 0x5D,
        EventType::SemaphoreTake => 0x61,
        EventType::SemaphoreTakeFailed => 0x64,
        EventType::SemaphoreTakeBlock => 0x67,
        EventType::SemaphoreTakeFromIsr => 0x6A,
        EventType::SemaphoreTakeFromIsrFailed => 0x6D,
        EventType::SemaphorePeek => 0x71,
        EventType::SemaphorePeekFailed => 0x74,
        EventType::SemaphorePeekBlock => 0x77,
        EventType::TimerCreate => 0x14,
        EventType::TimerStart => 0xA0,
        EventType::TimerReset => 0xA1,
        EventType::TimerStop => 0xA2,
        EventType::TimerExpired => 0xD2,
        EventType::EventGroupCreate => 0x15,
        EventType::EventGroupCreateFailed => 0x45,
        EventType::EventGroupSync => 0xB0,
        EventType::EventGroupWaitBits => 0xB1,
        EventType::EventGroupClearBits => 0xB2,
        EventType::EventGroupClearBitsFromIsr => 0xB3,
        EventType::EventGroupSetBits => 0xB4,
        EventType::EventGroupSetBitsFromIsr => 0xB5,
        EventType::EventGroupSyncBlock => 0xB6,
        EventType::EventGroupWaitBitsBlock => 0xB7,
        EventType::EventGroupSyncFailed => 0xB8,
        EventType::EventGroupWaitBitsFailed => 0xB9,
        EventType::MessageBufferCreate => 0x19,
        EventType::MessageBufferCreateFailed => 0x4A,
        EventType::MessageBufferSend => 0xDE,
        EventType::MessageBufferSendBlock => 0xDF,
        EventType::MessageBufferSendFailed => 0xE0,
        EventType::MessageBufferReceive => 0xE1,
        EventType::MessageBufferReceiveBlock => 0xE2,
        EventType::MessageBufferReceiveFailed => 0xE3,
        EventType::MessageBufferSendFromIsr => 0xE4,
        EventType::MessageBufferSendFromIsrFailed => 0xE5,
        EventType::MessageBufferReceiveFromIsr => 0xE6,
        EventType::MessageBufferReceiveFromIsrFailed => 0xE7,
        EventType::MessageBufferReset => 0xE8,
        EventType::StateMachineStateCreate => 0xEC,
        EventType::StateMachineCreate => 0xED,
        EventType::StateMachineStateChange => 0xEE,
        EventType::UnusedStack => 0xEB,
        EventType::UserEvent(c) => (0x90 + c.0) as u16,
        EventType::Unknown(id) => id.0,
    }
}

impl From<EventId> for EventType {
    fn from(id: EventId) -> (r: EventType) {
        let raw = id.0;
        if 0x90 <= raw && raw <= 0x9F {
            return EventType::UserEvent(UserEventArgRecordCount((raw - 0x90) as u8));
        }
        match raw {
            0x00 => EventType::Null,
            0x01 => EventType::TraceStart,
            0x02 => EventType::TsConfig,
            0x03 => EventType::ObjectName,
            0x04 => EventType::TaskPriority,
            0x05 => EventType::TaskPriorityInherit,
            0x06 => EventType::TaskPriorityDisinherit,
            0x07 => EventType::DefineIsr,
            0x10 => EventType::TaskCreate,
            0x40 => EventType::TaskCreateFailed,
            0x30 => EventType::TaskReady,
            0x33 => EventType::TaskSwitchIsrBegin,
            0x34 => EventType::TaskSwitchIsrResume,
            0x35 => EventType::TaskSwitchTaskBegin,
            0x36 => EventType::TaskSwitchTaskResume,
            0x37 => EventType::TaskActivate,
            0x79 => EventType::TaskDelayUntil,
            0x7A => EventType::TaskDelay,
            0x7B => EventType::TaskSuspend,
            0x7C => EventType::TaskResume,
            0x7D => EventType::TaskResumeFromIsr,
            0xC9 => EventType::TaskNotify,
            0xCA => EventType::TaskNotifyWait,
            0xCC => EventType::TaskNotifyWaitFailed,
            0xCB => EventType::TaskNotifyWaitBlock,
            0xCD => EventType::TaskNotifyFromIsr,
            0x38 => EventType::MemoryAlloc,
            0x39 => EventType::MemoryFree,
            0x11 => EventType::QueueCreate,
            0x41 => EventType::QueueCreateFailed,
            0x50 => EventType::QueueSend,
            0x53 => EventType::QueueSendFailed,
            0x56 => EventType::QueueSendBlock,
            0x59 => EventType::QueueSendFromIsr,
            0x5C => EventType::QueueSendFromIsrFailed,
            0x60 => EventType::QueueReceive,
            0x63 => EventType::QueueReceiveFailed,
            0x66 => EventType::QueueReceiveBlock,
            0x69 => EventType::QueueReceiveFromIsr,
            0x6C => EventType::QueueReceiveFromIsrFailed,
            0x70 => EventType::QueuePeek,
            0x73 => EventType::QueuePeekFailed,
            0x76 => EventType::QueuePeekBlock,
            0xC0 => EventType::QueueSendFront,
            0xC2 => EventType::QueueSendFrontBlock,
            0xC3 => EventType::QueueSendFrontFromIsr,
            0x13 => EventType::MutexCreate,
            0x43 => EventType::MutexCreateFailed,
            0x52 => EventType::MutexGive,
            0x55 => EventType::MutexGiveFailed,
            0x58 => EventType::MutexGiveBlock,
            0xC5 => EventType::MutexGiveRecursive,
            0x62 => EventType::MutexTake,
            0x65 => EventType::MutexTakeFailed,
            0x68 => EventType::MutexTakeBlock,
            0xC7 => EventType::MutexTakeRecursive,
            0xF6 => EventType::MutexTakeRecursiveBlock,
            0x12 => EventType::SemaphoreBinaryCreate,
            0x42 => EventType::SemaphoreBinaryCreateFailed,
            0x16 => EventType::SemaphoreCountingCreate,
            0x46 => EventType::SemaphoreCountingCreateFailed,
            0x51 => EventType::SemaphoreGive,
            0x54 => EventType::SemaphoreGiveFailed,
            0x57 => EventType::SemaphoreGiveBlock,
            0x5A => EventType::SemaphoreGiveFromIsr,
            0x5D => EventType::SemaphoreGiveFromIsrFailed,
            0x61 => EventType::SemaphoreTake,
            0x64 => EventType::SemaphoreTakeFailed,
            0x67 => EventType::SemaphoreTakeBlock,
            0x6A => EventType::SemaphoreTakeFromIsr,
            0x6D => EventType::SemaphoreTakeFromIsrFailed,
            0x71 => EventType::SemaphorePeek,
            0x74 => EventType::SemaphorePeekFailed,
            0x77 => EventType::SemaphorePeekBlock,
            0x14 => EventType::TimerCreate,
            0xA0 => EventType::TimerStart,
            0xA1 => EventType::TimerReset,
            0xA2 => EventType::TimerStop,
            0xD2 => EventType::TimerExpired,
            0x15 => EventType::EventGroupCreate,
            0x45 => EventType::EventGroupCreateFailed,
            0xB0 => EventType::EventGroupSync,
            0xB1 => EventType::EventGroupWaitBits,
            0xB2 => EventType::EventGroupClearBits,
            0xB3 => EventType::EventGroupClearBitsFromIsr,
            0xB4 => EventType::EventGroupSetBits,
            0xB5 => EventType::EventGroupSetBitsFromIsr,
            0xB6 => EventType::EventGroupSyncBlock,
            0xB7 => EventType::EventGroupWaitBitsBlock,
            0xB8 => EventType::EventGroupSyncFailed,
            0xB9 => EventType::EventGroupWaitBitsFailed,
            0x19 => EventType::MessageBufferCreate,
            0x4A => EventType::MessageBufferCreateFailed,
            0xDE => EventType::MessageBufferSend,
            0xDF => EventType::MessageBufferSendBlock,
            0xE0 => EventType::MessageBufferSendFailed,
            0xE1 => EventType::MessageBufferReceive,
            0xE2 => EventType::MessageBufferReceiveBlock,
            0xE3 => EventType::MessageBufferReceiveFailed,
            0xE4 => EventType::MessageBufferSendFromIsr,
            0xE5 => EventType::MessageBufferSendFromIsrFailed,
            0xE6 => EventType::MessageBufferReceiveFromIsr,
            0xE7 => EventType::MessageBufferReceiveFromIsrFailed,
            0xE8 => EventType::MessageBufferReset,
            0xEC => EventType::StateMachineStateCreate,
            0xED => EventType::StateMachineCreate,
            0xEE => EventType::StateMachineStateChange,
            0xEB => EventType::UnusedStack,
            _ => EventType::Unknown(id),
        }
    }
}

impl vstd::std_specs::convert::FromSpecImpl<EventId> for EventType {
    open spec fn obeys_from_spec() -> bool {
        true
    }

    open spec fn from_spec(id: EventId) -> EventType {
        spec_event_type(id.0)
    }
}

impl From<EventType> for EventId {
    fn from(t: EventType) -> (r: EventId) {
        let id: u16 = match t {
            EventType::Null => 0x00,
            EventType::TraceStart => 0x01,
            EventType::TsConfig => 0x02,
            EventType::ObjectName => 0x03,
            EventType::TaskPriority => 0x04,
            EventType::TaskPriorityInherit => 0x05,
            EventType::TaskPriorityDisinherit => 0x06,
            EventType::DefineIsr => 0x07,
            EventType::TaskCreate => 0x10,
            EventType::TaskCreateFailed => 0x40,
            EventType::TaskReady => 0x30,
            EventType::TaskSwitchIsrBegin => 0x33,
            EventType::TaskSwitchIsrResume => 0x34,
            EventType::TaskSwitchTaskBegin => 0x35,
            EventType::TaskSwitchTaskResume => 0x36,
            EventType::TaskActivate => 0x37,
            EventType::TaskDelayUntil => 0x79,
            EventType::TaskDelay => 0x7A,
            EventType::TaskSuspend => 0x7B,
            EventType::TaskResume => 0x7C,
            EventType::TaskResumeFromIsr => 0x7D,
            EventType::TaskNotify => 0xC9,
            EventType::TaskNotifyWait => 0xCA,
            EventType::TaskNotifyWaitFailed => 0xCC,
            EventType::TaskNotifyWaitBlock => 0xCB,
            EventType::TaskNotifyFromIsr => 0xCD,
            EventType::MemoryAlloc => 0x38,
            EventType::MemoryFree => 0x39,
            EventType::QueueCreate => 0x11,
            EventType::QueueCreateFailed => 0x41,
            EventType::QueueSend => 0x50,
            EventType::QueueSendFailed => 0x53,
            EventType::QueueSendBlock => 0x56,
            EventType::QueueSendFromIsr => 0x59,
            EventType::QueueSendFromIsrFailed => 0x5C,
            EventType::QueueReceive => 0x60,
            EventType::QueueReceiveFailed => 0x63,
            EventType::QueueReceiveBlock => 0x66,
            EventType::QueueReceiveFromIsr => 0x69,
            EventType::QueueReceiveFromIsrFailed => 0x6C,
            EventType::QueuePeek => 0x70,
            EventType::QueuePeekFailed => 0x73,
            EventType::QueuePeekBlock => 0x76,
            EventType::QueueSendFront => 0xC0,
            EventType::QueueSendFrontBlock => 0xC2,
            EventType::QueueSendFrontFromIsr => 0xC3,
            EventType::MutexCreate => 0x13,
            EventType::MutexCreateFailed => 0x43,
            EventType::MutexGive => 0x52,
            EventType::MutexGiveFailed => 0x55,
            EventType::MutexGiveBlock => 0x58,
            EventType::MutexGiveRecursive => 0xC5,
            EventType::MutexTake => 0x62,
            EventType::MutexTakeFailed => 0x65,
            EventType::MutexTakeBlock => 0x68,
            EventType::MutexTakeRecursive => 0xC7,
            EventType::MutexTakeRecursiveBlock => 0xF6,
            EventType::SemaphoreBinaryCreate => 0x12,
            EventType::SemaphoreBinaryCreateFailed => 0x42,
            EventType::SemaphoreCountingCreate => 0x16,
            EventType::SemaphoreCountingCreateFailed => 0x46,
            EventType::SemaphoreGive => 0x51,
            EventType::SemaphoreGiveFailed => 0x54,
            EventType::SemaphoreGiveBlock => 0x57,
            EventType::SemaphoreGiveFromIsr => 0x5A,
            EventType::SemaphoreGiveFromIsrFailed => 0x5D,
            EventType::SemaphoreTake => 0x61,
            EventType::SemaphoreTakeFailed => 0x64,
            EventType::SemaphoreTakeBlock => 0x67,
            EventType::SemaphoreTakeFromIsr => 0x6A,
            EventType::SemaphoreTakeFromIsrFailed => 0x6D,
            EventType::SemaphorePeek => 0x71,
            EventType::SemaphorePeekFailed => 0x74,
            EventType::SemaphorePeekBlock => 0x77,
            EventType::TimerCreate => 0x14,
            EventType::TimerStart => 0xA0,
            EventType::TimerReset => 0xA1,
            EventType::TimerStop => 0xA2,
            EventType::TimerExpired => 0xD2,
            EventType::EventGroupCreate => 0x15,
            EventType::EventGroupCreateFailed => 0x45,
            EventType::EventGroupSync => 0xB0,
            EventType::EventGroupWaitBits => 0xB1,
            EventType::EventGroupClearBits => 0xB2,
            EventType::EventGroupClearBitsFromIsr => 0xB3,
            EventType::EventGroupSetBits => 0xB4,
            EventType::EventGroupSetBitsFromIsr => 0xB5,
            EventType::EventGroupSyncBlock => 0xB6,
            EventType::EventGroupWaitBitsBlock => 0xB7,
            EventType::EventGroupSyncFailed => 0xB8,
            EventType::EventGroupWaitBitsFailed => 0xB9,
            EventType::MessageBufferCreate => 0x19,
            EventType::MessageBufferCreateFailed => 0x4A,
            EventType::MessageBufferSend => 0xDE,
            EventType::MessageBufferSendBlock => 0xDF,
            EventType::MessageBufferSendFailed => 0xE0,
            EventType::MessageBufferReceive => 0xE1,
            EventType::MessageBufferReceiveBlock => 0xE2,
            EventType::MessageBufferReceiveFailed => 0xE3,
            EventType::MessageBufferSendFromIsr => 0xE4,
            EventType::MessageBufferSendFromIsrFailed => 0xE5,
            EventType::MessageBufferReceiveFromIsr => 0xE6,
            EventType::MessageBufferReceiveFromIsrFailed => 0xE7,
            EventType::MessageBufferReset => 0xE8,
            EventType::StateMachineStateCreate => 0xEC,
            EventType::StateMachineCreate => 0xED,
            EventType::StateMachineStateChange => 0xEE,
            EventType::UnusedStack => 0xEB,
            EventType::UserEvent(c) => 0x90 + c.0 as u16,
            EventType::Unknown(id) => id.0,
        };
        EventId(id)
    }
}
impl vstd::std_specs::convert::FromSpecImpl<EventType> for EventId {
    open spec fn obeys_from_spec() -> bool {
        true
    }

    open spec fn from_spec(t: EventType) -> EventId {
        EventId(spec_event_id(t))
    }
}

/// Every event ID maps to an event type that maps back to the same ID: nothing is lost,
/// and IDs outside the mapping come back through `Unknown`.
pub proof fn lemma_event_id_round_trip(id: u16)
    ensures
        spec_event_id(spec_event_type(id)) == id,
{
}


/// The parameter count an event type requires, or `None` where it varies (or is not
/// checked).
pub open spec fn spec_expected_parameter_count(t: EventType) -> Option<usize> {
    match t {
        EventType::Null => Some(0),
        EventType::TraceStart => Some(1),
        EventType::TaskPriority | EventType::TaskPriorityInherit
        | EventType::TaskPriorityDisinherit => Some(2),
        EventType::TaskCreate | EventType::QueueCreate | EventType::MutexCreate
        | EventType::SemaphoreCountingCreate | EventType::SemaphoreBinaryCreate => Some(2),
        EventType::TaskReady | EventType::TaskSwitchIsrBegin | EventType::TaskSwitchIsrResume
        | EventType::TaskSwitchTaskBegin | EventType::TaskSwitchTaskResume => Some(1),
        EventType::TaskNotify | EventType::TaskNotifyFromIsr => Some(1),
        EventType::TaskNotifyWait | EventType::TaskNotifyWaitBlock => Some(2),
        EventType::MemoryAlloc | EventType::MemoryFree => Some(2),
        EventType::QueueSend | EventType::QueueSendBlock | EventType::QueueSendFromIsr
        | EventType::QueueReceiveFromIsr | EventType::QueueSendFront
        | EventType::QueueSendFrontBlock | EventType::QueueSendFrontFromIsr => Some(2),
        EventType::QueueReceive | EventType::QueueReceiveBlock | EventType::QueuePeek
        | EventType::QueuePeekBlock => Some(3),
        EventType::MutexGive | EventType::MutexGiveBlock | EventType::MutexGiveRecursive => Some(
            1,
        ),
        EventType::MutexTake | EventType::MutexTakeBlock | EventType::MutexTakeRecursive
        | EventType::MutexTakeRecursiveBlock => Some(2),
        EventType::SemaphoreGive | EventType::SemaphoreGiveBlock
        | EventType::SemaphoreGiveFromIsr | EventType::SemaphoreTakeFromIsr => Some(2),
        EventType::SemaphoreTake | EventType::SemaphoreTakeBlock | EventType::SemaphorePeek
        | EventType::SemaphorePeekBlock => Some(3),
        EventType::UnusedStack => Some(2),
        EventType::EventGroupCreate | EventType::EventGroupSync | EventType::EventGroupWaitBits
        | EventType::EventGroupClearBits | EventType::EventGroupClearBitsFromIsr
        | EventType::EventGroupSetBits | EventType::EventGroupSetBitsFromIsr
        | EventType::EventGroupSyncBlock | EventType::EventGroupWaitBitsBlock => Some(2),
        EventType::MessageBufferCreate | EventType::MessageBufferSend
        | EventType::MessageBufferReceive | EventType::MessageBufferSendFromIsr
        | EventType::MessageBufferReceiveFromIsr | EventType::MessageBufferReset => Some(2),
        EventType::MessageBufferSendBlock | EventType::MessageBufferReceiveBlock => Some(1),
        EventType::StateMachineCreate | EventType::StateMachineStateCreate
        | EventType::StateMachineStateChange => Some(2),
        _ => None,
    }
}

impl EventType {
    /// The number of parameters the event type requires, `None` for types with a
    /// variable number.
    pub fn expected_parameter_count(&self) -> (r: Option<usize>)
        ensures
            r == spec_expected_parameter_count(*self),
    {
        match self {
            EventType::Null => Some(0),
            EventType::TraceStart => Some(1),
            EventType::TaskPriority | EventType::TaskPriorityInherit
            | EventType::TaskPriorityDisinherit => Some(2),
            EventType::TaskCreate | EventType::QueueCreate | EventType::MutexCreate
            | EventType::SemaphoreCountingCreate | EventType::SemaphoreBinaryCreate => Some(2),
            EventType::TaskReady | EventType::TaskSwitchIsrBegin
            | EventType::TaskSwitchIsrResume | EventType::TaskSwitchTaskBegin
            | EventType::TaskSwitchTaskResume => Some(1),
            EventType::TaskNotify | EventType::TaskNotifyFromIsr => Some(1),
            EventType::TaskNotifyWait | EventType::TaskNotifyWaitBlock => Some(2),
            EventType::MemoryAlloc | EventType::MemoryFree => Some(2),
            EventType::QueueSend | EventType::QueueSendBlock | EventType::QueueSendFromIsr
            | EventType::QueueReceiveFromIsr | EventType::QueueSendFront
            | EventType::QueueSendFrontBlock | EventType::QueueSendFrontFromIsr => Some(2),
            EventType::QueueReceive | EventType::QueueReceiveBlock | EventType::QueuePeek
            | EventType::QueuePeekBlock => Some(3),
            EventType::MutexGive | EventType::MutexGiveBlock
            | EventType::MutexGiveRecursive => Some(1),
            EventType::MutexTake | EventType::MutexTakeBlock | EventType::MutexTakeRecursive
            | EventType::MutexTakeRecursiveBlock => Some(2),
            EventType::SemaphoreGive | EventType::SemaphoreGiveBlock
            | EventType::SemaphoreGiveFromIsr | EventType::SemaphoreTakeFromIsr => Some(2),
            EventType::SemaphoreTake | EventType::SemaphoreTakeBlock | EventType::SemaphorePeek
            | EventType::SemaphorePeekBlock => Some(3),
            EventType::UnusedStack => Some(2),
            EventType::EventGroupCreate | EventType::EventGroupSync
            | EventType::EventGroupWaitBits | EventType::EventGroupClearBits
            | EventType::EventGroupClearBitsFromIsr | EventType::EventGroupSetBits
            | EventType::EventGroupSetBitsFromIsr | EventType::EventGroupSyncBlock
            | EventType::EventGroupWaitBitsBlock => Some(2),
            EventType::MessageBufferCreate | EventType::MessageBufferSend
            | EventType::MessageBufferReceive | EventType::MessageBufferSendFromIsr
            | EventType::MessageBufferReceiveFromIsr | EventType::MessageBufferReset => Some(2),
            EventType::MessageBufferSendBlock | EventType::MessageBufferReceiveBlock => Some(1),
            EventType::StateMachineCreate | EventType::StateMachineStateCreate
            | EventType::StateMachineStateChange => Some(2),
            _ => None,
        }
    }
}

/// Event counter that tracks rollovers of the 16-bit wire count and reports gaps.
#[derive(Copy, Clone, Debug, PartialEq, Eq, Structural)]
pub struct TrackingEventCounter {
    /// The last 16-bit wire count.
    pub count: u16,
    /// How many times the wire count has rolled over.
    pub rollovers: u32,
}

/// Events lost between two updates of a tracking counter.
pub type DroppedEventCount = u64;

impl TrackingEventCounter {
    /// The absolute count: rollovers above the 16-bit wire count.
    pub open spec fn spec_count(self) -> int {
        self.rollovers as int * 0x1_0000 + self.count as int
    }

    /// The number of rollovers seen.
    pub open spec fn spec_rollovers(self) -> u32 {
        self.rollovers
    }

    /// The last wire count seen.
    pub open spec fn spec_wire_count(self) -> u16 {
        self.count
    }

    /// The counter after an update with a wire count: a count that does not go up is a
    /// rollover.
    pub open spec fn after_update(self, c: u16) -> TrackingEventCounter {
        TrackingEventCounter {
            count: c,
            rollovers: if c <= self.count {
                (self.rollovers + 1) as u32
            } else {
                self.rollovers
            },
        }
    }

    /// The events lost before an update: the gap in the absolute count, less the event
    /// itself.
    pub open spec fn dropped_by_update(self, c: u16) -> nat {
        (self.after_update(c).spec_count() - self.spec_count() - 1) as nat
    }

    /// Whether the update needs one more rollover than the counter can hold.
    pub open spec fn can_update(self, c: u16) -> bool {
        c <= self.spec_wire_count() ==> self.spec_rollovers() < u32::MAX
    }

    /// A counter at zero.
    pub fn zero() -> (r: Self)
        ensures
            r.spec_count() == 0,
            r.spec_rollovers() == 0,
    {
        TrackingEventCounter { count: 0, rollovers: 0 }
    }

    /// Restarts from a wire count, forgetting the rollovers.
    pub fn set_initial_count(&mut self, count: EventCount)
        ensures
            final(self).spec_count() == count.0,
            final(self).spec_wire_count() == count.0,
            final(self).spec_rollovers() == 0,
    {
        self.count = count.0;
        self.rollovers = 0;
    }

    /// Takes the next wire count and returns the number of events missed since the
    /// previous one, if any.
    pub fn update(&mut self, event_count: EventCount) -> (r: Option<DroppedEventCount>)
        requires
            old(self).can_update(event_count.0),
        ensures
            *final(self) == old(self).after_update(event_count.0),
            final(self).spec_count() > old(self).spec_count(),
            r == if old(self).dropped_by_update(event_count.0) == 0 {
                None::<u64>
            } else {
                Some(old(self).dropped_by_update(event_count.0) as u64)
            },
    {
        let prev_count = self.count();
        if event_count.0 <= self.count {
            self.rollovers = self.rollovers + 1;
        }
        self.count = event_count.0;
        let diff = self.count() - prev_count;
        if diff != 1 {
            Some(diff - 1)
        } else {
            None
        }
    }

    /// The absolute count.
    pub fn count(&self) -> (r: u64)
        ensures
            r == self.spec_count(),
    {
        self.rollovers as u64 * 0x1_0000 + self.count as u64
    }

    /// The counter after updates with each wire count in turn.
    pub open spec fn after_updates(self, counts: Seq<u16>) -> TrackingEventCounter
        decreases counts.len(),
    {
        if counts.len() == 0 {
            self
        } else {
            self.after_updates(counts.drop_last()).after_update(counts.last())
        }
    }

    /// The events reported lost over updates with each wire count in turn.
    pub open spec fn dropped_by_updates(self, counts: Seq<u16>) -> nat
        decreases counts.len(),
    {
        if counts.len() == 0 {
            0
        } else {
            self.dropped_by_updates(counts.drop_last()) + self.after_updates(
                counts.drop_last(),
            ).dropped_by_update(counts.last())
        }
    }
}

/// Over any sequence of updates that the rollover counter can hold, the events reported
/// lost plus the events seen add up to the growth of the absolute count.
pub proof fn lemma_counter_accounting(c: TrackingEventCounter, counts: Seq<u16>)
    requires
        c.spec_rollovers() as int + counts.len() <= u32::MAX as int,
    ensures
        c.dropped_by_updates(counts) + counts.len() == c.after_updates(counts).spec_count()
            - c.spec_count(),
        c.after_updates(counts).spec_rollovers() <= c.spec_rollovers() + counts.len(),
    decreases counts.len(),
{
    if counts.len() > 0 {
        lemma_counter_accounting(c, counts.drop_last());
    }
}

} // verus!
