//! Event records, event codes and event types of the snapshot protocol.
use vstd::prelude::*;
use crate::types::{class_index, ObjectClass, UserEventArgRecordCount};

verus! {

/// Size in bytes of an event record.
pub const EVENT_RECORD_SIZE: usize = 4;

/// One 4-byte event record; its first byte is the event code.
#[derive(Copy, Clone, Debug, PartialEq, Eq)]
pub struct EventRecord(pub [u8; 4]);

impl EventRecord {
    pub fn new(record: [u8; 4]) -> (r: Self)
        ensures
            r.0 == record,
    {
        EventRecord(record)
    }

    pub fn as_slice(&self) -> (r: &[u8])
        ensures
            r@ == self.0@,
    {
        self.0.as_slice()
    }

    pub fn event_code(&self) -> (r: EventCode)
        ensures
            r.0 == self.0[0],
    {
        EventCode(self.0[0])
    }
}

/// Event codes for snapshot mode.
#[derive(Copy, Clone, Debug, PartialEq, Eq, Structural)]
pub struct EventCode(pub u8);

/// The object class carried in the low three bits of a class-indexed event code.
#[derive(Copy, Clone, Debug, PartialEq, Eq, Structural)]
pub struct ObjectClassCode(pub u8);

/// The class that a class code names; code 7 (and anything above) stands for stream
/// buffers, since three bits cannot name message buffers.
pub open spec fn spec_class_of_code(c: u8) -> ObjectClass {
    if c == 0 {
        ObjectClass::Queue
    } else if c == 1 {
        ObjectClass::Semaphore
    } else if c == 2 {
        ObjectClass::Mutex
    } else if c == 3 {
        ObjectClass::Task
    } else if c == 4 {
        ObjectClass::Isr
    } else if c == 5 {
        ObjectClass::Timer
    } else if c == 6 {
        ObjectClass::EventGroup
    } else {
        ObjectClass::StreamBuffer
    }
}

impl ObjectClassCode {
    /// The class code in the low three bits of an event code.
    pub fn from_raw(ec: u8) -> (r: Self)
        ensures
            r.0 == ec % 8,
    {
        ObjectClassCode(ec % 8)
    }

    pub fn into_raw(self) -> (r: u8)
        ensures
            r == self.0,
    {
        self.0
    }

    pub fn into_class(self) -> (r: ObjectClass)
        ensures
            r == spec_class_of_code(self.0),
    {
        if self.0 == 0 {
            ObjectClass::Queue
        } else if self.0 == 1 {
            ObjectClass::Semaphore
        } else if self.0 == 2 {
            ObjectClass::Mutex
        } else if self.0 == 3 {
            ObjectClass::Task
        } else if self.0 == 4 {
            ObjectClass::Isr
        } else if self.0 == 5 {
            ObjectClass::Timer
        } else if self.0 == 6 {
            ObjectClass::EventGroup
        } else {
            ObjectClass::StreamBuffer
        }
    }
}

/// Each class code 0 to 7 names the class whose index is that code.
pub proof fn lemma_class_code_round_trip(c: u8)
    requires
        c <= 7,
    ensures
        class_index(spec_class_of_code(c)) == c,
{
}

/// Event types of the snapshot protocol.
#[derive(Copy, Clone, Debug, PartialEq, Eq, Structural)]
pub enum EventType {
    Null,
    Xps,
    TaskReady,
    NewTime,
    TaskSwitchIsrBegin,
    TaskSwitchIsrResume,
    TaskSwitchTaskBegin,
    TaskSwitchTaskResume,
    ObjectCloseName(ObjectClassCode),
    ObjectCloseProperty(ObjectClassCode),
    CreateObject(ObjectClassCode),
    Send(ObjectClassCode),
    Receive(ObjectClassCode),
    SendFromIsr(ObjectClassCode),
    ReceiveFromIsr(ObjectClassCode),
    CreateObjectFailed(ObjectClassCode),
    SendFailed(ObjectClassCode),
    ReceiveFailed(ObjectClassCode),
    SendFromIsrFailed(ObjectClassCode),
    ReceiveFromIsrFailed(ObjectClassCode),
    ReceiveBlock(ObjectClassCode),
    SendBlock(ObjectClassCode),
    Peek(ObjectClassCode),
    DeleteObject(ObjectClassCode),
    TaskDelayUntil,
    TaskDelay,
    TaskSuspend,
    TaskResume,
    TaskResumeFromIsr,
    TaskPrioritySet,
    TaskPriorityInherit,
    TaskPriorityDisinherit,
    PendFuncCall,
    PendFuncCallFromIsr,
    PendFuncCallFailed,
    PendFuncCallFromIsrFailed,
    MemoryMallocSize,
    MemoryMallocAddress,
    MemoryFreeSize,
    MemoryFreeAddress,
    UserEvent(UserEventArgRecordCount),
    Xts8,
    Xts16,
    EventBeingWritten,
    ReservedDummyCode,
    LowPowerBegin,
    LowPowerEnd,
    Xid,
    Xts16l,
    TimerCreate,
    TimerStart,
    TimerReset,
    TimerStop,
    TimerChangePeriod,
    TimerDeleteObject,
    TimerStartFromIsr,
    TimerResetFromIsr,
    TimerStopFromIsr,
    TimerCreateFailed,
    TimerStartFailed,
    TimerResetFailed,
    TimerStopFailed,
    TimerChangePeriodFailed,
    TimerDeleteFailed,
    TimerStartFromIsrFailed,
    TimerResetFromIsrFailed,
    TimerStopFromIsrFailed,
    EventGroupCreate,
    EventGroupCreateFailed,
    EventGroupSyncBlock,
    EventGroupSyncEnd,
    EventGroupWaitBitsBlock,
    EventGroupWaitBitsEnd,
    EventGroupClearBits,
    EventGroupClearBitsFromIsr,
    EventGroupSetBits,
    EventGroupDeleteObject,
    EventGroupSyncEndFailed,
    EventGroupWaitBitsEndFailed,
    EventGroupSetBitsFromIsr,
    EventGroupSetBitsFromIsrFailed,
    TaskInstanceFinishedNextKse,
    TaskInstanceFinishedDirect,
    TaskNotify,
    TaskNotifyTake,
    TaskNotifyTakeBlock,
    TaskNotifyTakeFailed,
    TaskNotifyWait,
    TaskNotifyWaitBlock,
    TaskNotifyWaitFailed,
    TaskNotifyFromIsr,
    TaskNotifyGiveFromIsr,
    TimerExpired,
    QueuePeekBlock,
    SemaphortPeekBlock,
    MutexPeekBlock,
    QueuePeekFailed,
    SemaphortPeekFailed,
    MutexPeekFailed,
    StreambufferReset,
    MessagebufferReset,
    StreambufferObjectCloseName,
    MessagebufferObjectCloseName,
    StreambufferObjectCloseProperty,
    MessagebufferObjectCloseProperty,
    MemoryMallocSizeFailed,
    MemoryFreeAddressFailed,
    UnusedStack,
    Unknown(EventCode),
}

/// The event type of an event code.
pub open spec fn spec_event_type(c: u8) -> EventType {
    if 0x08 <= c <= 0x0F {
        EventType::ObjectCloseName(ObjectClassCode(c % 8))
    } else if 0x10 <= c <= 0x17 {
        EventType::ObjectCloseProperty(ObjectClassCode(c % 8))
    } else if 0x18 <= c <= 0x1F {
        EventType::CreateObject(ObjectClassCode(c % 8))
    } else if 0x20 <= c <= 0x27 {
        EventType::Send(ObjectClassCode(c % 8))
    } else if 0x28 <= c <= 0x2F {
        EventType::Receive(ObjectClassCode(c % 8))
    } else if 0x30 <= c <= 0x37 {
        EventType::SendFromIsr(ObjectClassCode(c % 8))
    } else if 0x38 <= c <= 0x3F {
        EventType::ReceiveFromIsr(ObjectClassCode(c % 8))
    } else if 0x40 <= c <= 0x47 {
        EventType::CreateObjectFailed(ObjectClassCode(c % 8))
    } else if 0x48 <= c <= 0x4F {
        EventType::SendFailed(ObjectClassCode(c % 8))
    } else if 0x50 <= c <= 0x57 {
        EventType::ReceiveFailed(ObjectClassCode(c % 8))
    } else if 0x58 <= c <= 0x5F {
        EventType::SendFromIsrFailed(ObjectClassCode(c % 8))
    } else if 0x60 <= c <= 0x67 {
        EventType::ReceiveFromIsrFailed(ObjectClassCode(c % 8))
    } else if 0x68 <= c <= 0x6F {
        EventType::ReceiveBlock(ObjectClassCode(c % 8))
    } else if 0x70 <= c <= 0x77 {
        EventType::SendBlock(ObjectClassCode(c % 8))
    } else if 0x78 <= c <= 0x7F {
        EventType::Peek(ObjectClassCode(c % 8))
    } else if 0x80 <= c <= 0x87 {
        EventType::DeleteObject(ObjectClassCode(c % 8))
    } else if 0x98 <= c <= 0xA7 {
        EventType::UserEvent(UserEventArgRecordCount((c - 0x98) as u8))
    } else {
        match c {
            0x00 => EventType::Null,
            0x01 => EventType::Xps,
            0x02 => EventType::TaskReady,
            0x03 => EventType::NewTime,
            0x04 => EventType::TaskSwitchIsrBegin,
            0x05 => EventType::TaskSwitchIsrResume,
            0x06 => EventType::TaskSwitchTaskBegin,
            0x07 => EventType::TaskSwitchTaskResume,
            0x88 => EventType::TaskDelayUntil,
            0x89 => EventType::TaskDelay,
            0x8A => EventType::TaskSuspend,
            0x8B => EventType::TaskResume,
            0x8C => EventType::TaskResumeFromIsr,
            0x8D => EventType::TaskPrioritySet,
            0x8E => EventType::TaskPriorityInherit,
            0x8F => EventType::TaskPriorityDisinherit,
            0x90 => EventType::PendFuncCall,
            0x91 => EventType::PendFuncCallFromIsr,
            0x92 => EventType::PendFuncCallFailed,
            0x93 => EventType::PendFuncCallFromIsrFailed,
            0x94 => EventType::MemoryMallocSize,
            0x95 => EventType::MemoryMallocAddress,
            0x96 => EventType::MemoryFreeSize,
            0x97 => EventType::MemoryFreeAddress,
            0xA8 => EventType::Xts8,
            0xA9 => EventType::Xts16,
            0xAA => EventType::EventBeingWritten,
            0xAB => EventType::ReservedDummyCode,
            0xAC => EventType::LowPowerBegin,
            0xAD => EventType::LowPowerEnd,
            0xAE => EventType::Xid,
            0xAF => EventType::Xts16l,
            0xB0 => EventType::TimerCreate,
            0xB1 => EventType::TimerStart,
            0xB2 => EventType::TimerReset,
            0xB3 => EventType::TimerStop,
            0xB4 => EventType::TimerChangePeriod,
            0xB5 => EventType::TimerDeleteObject,
            0xB6 => EventType::TimerStartFromIsr,
            0xB7 => EventType::TimerResetFromIsr,
            0xB8 => EventType::TimerStopFromIsr,
            0xB9 => EventType::TimerCreateFailed,
            0xBA => EventType::TimerStartFailed,
            0xBB => EventType::TimerResetFailed,
            0xBC => EventType::TimerStopFailed,
            0xBD => EventType::TimerChangePeriodFailed,
            0xBE => EventType::TimerDeleteFailed,
            0xBF => EventType::TimerStartFromIsrFailed,
            0xC0 => EventType::TimerResetFromIsrFailed,
            0xC1 => EventType::TimerStopFromIsrFailed,
            0xC2 => EventType::EventGroupCreate,
            0xC3 => EventType::EventGroupCreateFailed,
            0xC4 => EventType::EventGroupSyncBlock,
            0xC5 => EventType::EventGroupSyncEnd,
            0xC6 => EventType::EventGroupWaitBitsBlock,
            0xC7 => EventType::EventGroupWaitBitsEnd,
            0xC8 => EventType::EventGroupClearBits,
            0xC9 => EventType::EventGroupClearBitsFromIsr,
            0xCA => EventType::EventGroupSetBits,
            0xCB => EventType::EventGroupDeleteObject,
            0xCC => EventType::EventGroupSyncEndFailed,
            0xCD => EventType::EventGroupWaitBitsEndFailed,
            0xCE => EventType::EventGroupSetBitsFromIsr,
            0xCF => EventType::EventGroupSetBitsFromIsrFailed,
            0xD0 => EventType::TaskInstanceFinishedNextKse,
            0xD1 => EventType::TaskInstanceFinishedDirect,
            0xD2 => EventType::TaskNotify,
            0xD3 => EventType::TaskNotifyTake,
            0xD4 => EventType::TaskNotifyTakeBlock,
            0xD5 => EventType::TaskNotifyTakeFailed,
            0xD6 => EventType::TaskNotifyWait,
            0xD7 => EventType::TaskNotifyWaitBlock,
            0xD8 => EventType::TaskNotifyWaitFailed,
            0xD9 => EventType::TaskNotifyFromIsr,
            0xDA => EventType::TaskNotifyGiveFromIsr,
            0xDB => EventType::TimerExpired,
            0xDC => EventType::QueuePeekBlock,
            0xDD => EventType::SemaphortPeekBlock,
            0xDE => EventType::MutexPeekBlock,
            0xDF => EventType::QueuePeekFailed,
            0xE0 => EventType::SemaphortPeekFailed,
            0xE1 => EventType::MutexPeekFailed,
            0xE2 => EventType::StreambufferReset,
            0xE3 => EventType::MessagebufferReset,
            0xE4 => EventType::StreambufferObjectCloseName,
            0xE5 => EventType::MessagebufferObjectCloseName,
            0xE6 => EventType::StreambufferObjectCloseProperty,
            0xE7 => EventType::MessagebufferObjectCloseProperty,
            0xE8 => EventType::MemoryMallocSizeFailed,
            0xE9 => EventType::MemoryFreeAddressFailed,
            0xEA => EventType::UnusedStack,
            _ => EventType::Unknown(EventCode(c)),
        }
    }
}

/// The event code of an event type.
pub open spec fn spec_event_code(t: EventType) -> u8 {
    match t {
        EventType::Null => 0x00,
        EventType::Xps => 0x01,
        EventType::TaskReady => 0x02,
        EventType::NewTime => 0x03,
        EventType::TaskSwitchIsrBegin => 0x04,
        EventType::TaskSwitchIsrResume => 0x05,
        EventType::TaskSwitchTaskBegin => 0x06,
        EventType::TaskSwitchTaskResume => 0x07,
        EventType::TaskDelayUntil => 0x88,
        EventType::TaskDelay => 0x89,
        EventType::TaskSuspend => 0x8A,
        EventType::TaskResume => 0x8B,
        EventType::TaskResumeFromIsr => 0x8C,
        EventType::TaskPrioritySet => 0x8D,
        EventType::TaskPriorityInherit => 0x8E,
        EventType::TaskPriorityDisinherit => 0x8F,
        EventType::PendFuncCall => 0x90,
        EventType::PendFuncCallFromIsr => 0x91,
        EventType::PendFuncCallFailed => 0x92,
        EventType::PendFuncCallFromIsrFailed => 0x93,
        EventType::MemoryMallocSize => 0x94,
        EventType::MemoryMallocAddress => 0x95,
        EventType::MemoryFreeSize => 0x96,
        EventType::MemoryFreeAddress => 0x97,
        EventType::Xts8 => 0xA8,
        EventType::Xts16 => 0xA9,
        EventType::EventBeingWritten => 0xAA,
        EventType::ReservedDummyCode => 0xAB,
        EventType::LowPowerBegin => 0xAC,
        EventType::LowPowerEnd => 0xAD,
        EventType::Xid => 0xAE,
        EventType::Xts16l => 0xAF,
        EventType::TimerCreate => 0xB0,
        EventType::TimerStart => 0xB1,
        EventType::TimerReset => 0xB2,
        EventType::TimerStop => 0xB3,
        EventType::TimerChangePeriod => 0xB4,
        EventType::TimerDeleteObject => 0xB5,
        EventType::TimerStartFromIsr => 0xB6,
        EventType::TimerResetFromIsr => 0xB7,
        EventType::TimerStopFromIsr => 0xB8,
        EventType::TimerCreateFailed => 0xB9,
        EventType::TimerStartFailed => 0xBA,
        EventType::TimerResetFailed => 0xBB,
        EventType::TimerStopFailed => 0xBC,
        EventType::TimerChangePeriodFailed => 0xBD,
        EventType::TimerDeleteFailed => 0xBE,
        EventType::TimerStartFromIsrFailed => 0xBF,
        EventType::TimerResetFromIsrFailed => 0xC0,
        EventType::TimerStopFromIsrFailed => 0xC1,
        EventType::EventGroupCreate => 0xC2,
        EventType::EventGroupCreateFailed => 0xC3,
        EventType::EventGroupSyncBlock => 0xC4,
        EventType::EventGroupSyncEnd => 0xC5,
        EventType::EventGroupWaitBitsBlock => 0xC6,
        EventType::EventGroupWaitBitsEnd => 0xC7,
        EventType::EventGroupClearBits => 0xC8,
        EventType::EventGroupClearBitsFromIsr => 0xC9,
        EventType::EventGroupSetBits => 0xCA,
        EventType::EventGroupDeleteObject => 0xCB,
        EventType::EventGroupSyncEndFailed => 0xCC,
        EventType::EventGroupWaitBitsEndFailed => 0xCD,
        EventType::EventGroupSetBitsFromIsr => 0xCE,
        EventType::EventGroupSetBitsFromIsrFailed => 0xCF,
        EventType::TaskInstanceFinishedNextKse => 0xD0,
        EventType::TaskInstanceFinishedDirect => 0xD1,
        EventType::TaskNotify => 0xD2,
        EventType::TaskNotifyTake => 0xD3,
        EventType::TaskNotifyTakeBlock => 0xD4,
        EventType::TaskNotifyTakeFailed => 0xD5,
        EventType::TaskNotifyWait => 0xD6,
        EventType::TaskNotifyWaitBlock => 0xD7,
        EventType::TaskNotifyWaitFailed => 0xD8,
        EventType::TaskNotifyFromIsr => 0xD9,
        EventType::TaskNotifyGiveFromIsr => 0xDA,
        EventType::TimerExpired => 0xDB,
        EventType::QueuePeekBlock => 0xDC,
        EventType::SemaphortPeekBlock => 0xDD,
        EventType::MutexPeekBlock => 0xDE,
        EventType::QueuePeekFailed => 0xDF,
        EventType::SemaphortPeekFailed => 0xE0,
        EventType::MutexPeekFailed => 0xE1,
        EventType::StreambufferReset => 0xE2,
        EventType::MessagebufferReset => 0xE3,
        EventType::StreambufferObjectCloseName => 0xE4,
        EventType::MessagebufferObjectCloseName => 0xE5,
        EventType::StreambufferObjectCloseProperty => 0xE6,
        EventType::MessagebufferObjectCloseProperty => 0xE7,
        EventType::MemoryMallocSizeFailed => 0xE8,
        EventType::MemoryFreeAddressFailed => 0xE9,
        EventType::UnusedStack => 0xEA,
        EventType::ObjectCloseName(occ) => (0x08 + occ.0 % 8) as u8,
        EventType::ObjectCloseProperty(occ) => (0x10 + occ.0 % 8) as u8,
        EventType::CreateObject(occ) => (0x18 + occ.0 % 8) as u8,
        EventType::Send(occ) => (0x20 + occ.0 % 8) as u8,
        EventType::Receive(occ) => (0x28 + occ.0 % 8) as u8,
        EventType::SendFromIsr(occ) => (0x30 + occ.0 % 8) as u8,
        EventType::ReceiveFromIsr(occ) => (0x38 + occ.0 % 8) as u8,
        EventType::CreateObjectFailed(occ) => (0x40 + occ.0 % 8) as u8,
        EventType::SendFailed(occ) => (0x48 + occ.0 % 8) as u8,
        EventType::ReceiveFailed(occ) => (0x50 + occ.0 % 8) as u8,
        EventType::SendFromIsrFailed(occ) => (0x58 + occ.0 % 8) as u8,
        EventType::ReceiveFromIsrFailed(occ) => (0x60 + occ.0 % 8) as u8,
        EventType::ReceiveBlock(occ) => (0x68 + occ.0 % 8) as u8,
        EventType::SendBlock(occ) => (0x70 + occ.0 % 8) as u8,
        EventType::Peek(occ) => (0x78 + occ.0 % 8) as u8,
        EventType::DeleteObject(occ) => (0x80 + occ.0 % 8) as u8,
        EventType::UserEvent(c) => (0x98 + c.0 % 16) as u8,
        EventType::Unknown(c) => c.0,
    }
}

impl From<EventCode> for EventType {
    fn from(ec: EventCode) -> (r: EventType) {
        let c = ec.0;
        if 0x08 <= c && c <= 0x0F {
            EventType::ObjectCloseName(ObjectClassCode::from_raw(c))
        } else if 0x10 <= c && c <= 0x17 {
            EventType::ObjectCloseProperty(ObjectClassCode::from_raw(c))
        } else if 0x18 <= c && c <= 0x1F {
            EventType::CreateObject(ObjectClassCode::from_raw(c))
        } else if 0x20 <= c && c <= 0x27 {
            EventType::Send(ObjectClassCode::from_raw(c))
        } else if 0x28 <= c && c <= 0x2F {
            EventType::Receive(ObjectClassCode::from_raw(c))
        } else if 0x30 <= c && c <= 0x37 {
            EventType::SendFromIsr(ObjectClassCode::from_raw(c))
        } else if 0x38 <= c && c <= 0x3F {
            EventType::ReceiveFromIsr(ObjectClassCode::from_raw(c))
        } else if 0x40 <= c && c <= 0x47 {
            EventType::CreateObjectFailed(ObjectClassCode::from_raw(c))
        } else if 0x48 <= c && c <= 0x4F {
            EventType::SendFailed(ObjectClassCode::from_raw(c))
        } else if 0x50 <= c && c <= 0x57 {
            EventType::ReceiveFailed(ObjectClassCode::from_raw(c))
        } else if 0x58 <= c && c <= 0x5F {
            EventType::SendFromIsrFailed(ObjectClassCode::from_raw(c))
        } else if 0x60 <= c && c <= 0x67 {
            EventType::ReceiveFromIsrFailed(ObjectClassCode::from_raw(c))
        } else if 0x68 <= c && c <= 0x6F {
            EventType::ReceiveBlock(ObjectClassCode::from_raw(c))
        } else if 0x70 <= c && c <= 0x77 {
            EventType::SendBlock(ObjectClassCode::from_raw(c))
        } else if 0x78 <= c && c <= 0x7F {
            EventType::Peek(ObjectClassCode::from_raw(c))
        } else if 0x80 <= c && c <= 0x87 {
            EventType::DeleteObject(ObjectClassCode::from_raw(c))
        } else if 0x98 <= c && c <= 0xA7 {
            EventType::UserEvent(UserEventArgRecordCount(c - 0x98))
        } else {
            match c {
                0x00 => EventType::Null,
                0x01 => EventType::Xps,
                0x02 => EventType::TaskReady,
                0x03 => EventType::NewTime,
                0x04 => EventType::TaskSwitchIsrBegin,
                0x05 => EventType::TaskSwitchIsrResume,
                0x06 => EventType::TaskSwitchTaskBegin,
                0x07 => EventType::TaskSwitchTaskResume,
                0x88 => EventType::TaskDelayUntil,
                0x89 => EventType::TaskDelay,
                0x8A => EventType::TaskSuspend,
                0x8B => EventType::TaskResume,
                0x8C => EventType::TaskResumeFromIsr,
                0x8D => EventType::TaskPrioritySet,
                0x8E => EventType::TaskPriorityInherit,
                0x8F => EventType::TaskPriorityDisinherit,
                0x90 => EventType::PendFuncCall,
                0x91 => EventType::PendFuncCallFromIsr,
                0x92 => EventType::PendFuncCallFailed,
                0x93 => EventType::PendFuncCallFromIsrFailed,
                0x94 => EventType::MemoryMallocSize,
                0x95 => EventType::MemoryMallocAddress,
                0x96 => EventType::MemoryFreeSize,
                0x97 => EventType::MemoryFreeAddress,
                0xA8 => EventType::Xts8,
                0xA9 => EventType::Xts16,
                0xAA => EventType::EventBeingWritten,
                0xAB => EventType::ReservedDummyCode,
                0xAC => EventType::LowPowerBegin,
                0xAD => EventType::LowPowerEnd,
                0xAE => EventType::Xid,
                0xAF => EventType::Xts16l,
                0xB0 => EventType::TimerCreate,
                0xB1 => EventType::TimerStart,
                0xB2 => EventType::TimerReset,
                0xB3 => EventType::TimerStop,
                0xB4 => EventType::TimerChangePeriod,
                0xB5 => EventType::TimerDeleteObject,
                0xB6 => EventType::TimerStartFromIsr,
                0xB7 => EventType::TimerResetFromIsr,
                0xB8 => EventType::TimerStopFromIsr,
                0xB9 => EventType::TimerCreateFailed,
                0xBA => EventType::TimerStartFailed,
                0xBB => EventType::TimerResetFailed,
                0xBC => EventType::TimerStopFailed,
                0xBD => EventType::TimerChangePeriodFailed,
                0xBE => EventType::TimerDeleteFailed,
                0xBF => EventType::TimerStartFromIsrFailed,
                0xC0 => EventType::TimerResetFromIsrFailed,
                0xC1 => EventType::TimerStopFromIsrFailed,
                0xC2 => EventType::EventGroupCreate,
                0xC3 => EventType::EventGroupCreateFailed,
                0xC4 => EventType::EventGroupSyncBlock,
                0xC5 => EventType::EventGroupSyncEnd,
                0xC6 => EventType::EventGroupWaitBitsBlock,
                0xC7 => EventType::EventGroupWaitBitsEnd,
                0xC8 => EventType::EventGroupClearBits,
                0xC9 => EventType::EventGroupClearBitsFromIsr,
                0xCA => EventType::EventGroupSetBits,
                0xCB => EventType::EventGroupDeleteObject,
                0xCC => EventType::EventGroupSyncEndFailed,
                0xCD => EventType::EventGroupWaitBitsEndFailed,
                0xCE => EventType::EventGroupSetBitsFromIsr,
                0xCF => EventType::EventGroupSetBitsFromIsrFailed,
                0xD0 => EventType::TaskInstanceFinishedNextKse,
                0xD1 => EventType::TaskInstanceFinishedDirect,
                0xD2 => EventType::TaskNotify,
                0xD3 => EventType::TaskNotifyTake,
                0xD4 => EventType::TaskNotifyTakeBlock,
                0xD5 => EventType::TaskNotifyTakeFailed,
                0xD6 => EventType::TaskNotifyWait,
                0xD7 => EventType::TaskNotifyWaitBlock,
                0xD8 => EventType::TaskNotifyWaitFailed,
                0xD9 => EventType::TaskNotifyFromIsr,
                0xDA => EventType::TaskNotifyGiveFromIsr,
                0xDB => EventType::TimerExpired,
                0xDC => EventType::QueuePeekBlock,
                0xDD => EventType::SemaphortPeekBlock,
                0xDE => EventType::MutexPeekBlock,
                0xDF => EventType::QueuePeekFailed,
                0xE0 => EventType::SemaphortPeekFailed,
                0xE1 => EventType::MutexPeekFailed,
                0xE2 => EventType::StreambufferReset,
                0xE3 => EventType::MessagebufferReset,
                0xE4 => EventType::StreambufferObjectCloseName,
                0xE5 => EventType::MessagebufferObjectCloseName,
                0xE6 => EventType::StreambufferObjectCloseProperty,
                0xE7 => EventType::MessagebufferObjectCloseProperty,
                0xE8 => EventType::MemoryMallocSizeFailed,
                0xE9 => EventType::MemoryFreeAddressFailed,
                0xEA => EventType::UnusedStack,
                _ => EventType::Unknown(ec),
            }
        }
    }
}

impl vstd::std_specs::convert::FromSpecImpl<EventCode> for EventType {
    open spec fn obeys_from_spec() -> bool {
        true
    }

    open spec fn from_spec(c: EventCode) -> EventType {
        spec_event_type(c.0)
    }
}

impl From<EventType> for EventCode {
    fn from(t: EventType) -> (r: EventCode) {
        let c: u8 = match t {
            EventType::Null => 0x00,
            EventType::Xps => 0x01,
            EventType::TaskReady => 0x02,
            EventType::NewTime => 0x03,
            EventType::TaskSwitchIsrBegin => 0x04,
            EventType::TaskSwitchIsrResume => 0x05,
            EventType::TaskSwitchTaskBegin => 0x06,
            EventType::TaskSwitchTaskResume => 0x07,
            EventType::TaskDelayUntil => 0x88,
            EventType::TaskDelay => 0x89,
            EventType::TaskSuspend => 0x8A,
            EventType::TaskResume => 0x8B,
            EventType::TaskResumeFromIsr => 0x8C,
            EventType::TaskPrioritySet => 0x8D,
            EventType::TaskPriorityInherit => 0x8E,
            EventType::TaskPriorityDisinherit => 0x8F,
            EventType::PendFuncCall => 0x90,
            EventType::PendFuncCallFromIsr => 0x91,
            EventType::PendFuncCallFailed => 0x92,
            EventType::PendFuncCallFromIsrFailed => 0x93,
            EventType::MemoryMallocSize => 0x94,
            EventType::MemoryMallocAddress => 0x95,
            EventType::MemoryFreeSize => 0x96,
            EventType::MemoryFreeAddress => 0x97,
            EventType::Xts8 => 0xA8,
            EventType::Xts16 => 0xA9,
            EventType::EventBeingWritten => 0xAA,
            EventType::ReservedDummyCode => 0xAB,
            EventType::LowPowerBegin => 0xAC,
            EventType::LowPowerEnd => 0xAD,
            EventType::Xid => 0xAE,
            EventType::Xts16l => 0xAF,
            EventType::TimerCreate => 0xB0,
            EventType::TimerStart => 0xB1,
            EventType::TimerReset => 0xB2,
            EventType::TimerStop => 0xB3,
            EventType::TimerChangePeriod => 0xB4,
            EventType::TimerDeleteObject => 0xB5,
            EventType::TimerStartFromIsr => 0xB6,
            EventType::TimerResetFromIsr => 0xB7,
            EventType::TimerStopFromIsr => 0xB8,
            EventType::TimerCreateFailed => 0xB9,
            EventType::TimerStartFailed => 0xBA,
            EventType::TimerResetFailed => 0xBB,
            EventType::TimerStopFailed => 0xBC,
            EventType::TimerChangePeriodFailed => 0xBD,
            EventType::TimerDeleteFailed => 0xBE,
            EventType::TimerStartFromIsrFailed => 0xBF,
            EventType::TimerResetFromIsrFailed => 0xC0,
            EventType::TimerStopFromIsrFailed => 0xC1,
            EventType::EventGroupCreate => 0xC2,
            EventType::EventGroupCreateFailed => 0xC3,
            EventType::EventGroupSyncBlock => 0xC4,
            EventType::EventGroupSyncEnd => 0xC5,
            EventType::EventGroupWaitBitsBlock => 0xC6,
            EventType::EventGroupWaitBitsEnd => 0xC7,
            EventType::EventGroupClearBits => 0xC8,
            EventType::EventGroupClearBitsFromIsr => 0xC9,
            EventType::EventGroupSetBits => 0xCA,
            EventType::EventGroupDeleteObject => 0xCB,
            EventType::EventGroupSyncEndFailed => 0xCC,
            EventType::EventGroupWaitBitsEndFailed => 0xCD,
            EventType::EventGroupSetBitsFromIsr => 0xCE,
            EventType::EventGroupSetBitsFromIsrFailed => 0xCF,
            EventType::TaskInstanceFinishedNextKse => 0xD0,
            EventType::TaskInstanceFinishedDirect => 0xD1,
            EventType::TaskNotify => 0xD2,
            EventType::TaskNotifyTake => 0xD3,
            EventType::TaskNotifyTakeBlock => 0xD4,
            EventType::TaskNotifyTakeFailed => 0xD5,
            EventType::TaskNotifyWait => 0xD6,
            EventType::TaskNotifyWaitBlock => 0xD7,
            EventType::TaskNotifyWaitFailed => 0xD8,
            EventType::TaskNotifyFromIsr => 0xD9,
            EventType::TaskNotifyGiveFromIsr => 0xDA,
            EventType::TimerExpired => 0xDB,
            EventType::QueuePeekBlock => 0xDC,
            EventType::SemaphortPeekBlock => 0xDD,
            EventType::MutexPeekBlock => 0xDE,
            EventType::QueuePeekFailed => 0xDF,
            EventType::SemaphortPeekFailed => 0xE0,
            EventType::MutexPeekFailed => 0xE1,
            EventType::StreambufferReset => 0xE2,
            EventType::MessagebufferReset => 0xE3,
            EventType::StreambufferObjectCloseName => 0xE4,
            EventType::MessagebufferObjectCloseName => 0xE5,
            EventType::StreambufferObjectCloseProperty => 0xE6,
            EventType::MessagebufferObjectCloseProperty => 0xE7,
            EventType::MemoryMallocSizeFailed => 0xE8,
            EventType::MemoryFreeAddressFailed => 0xE9,
            EventType::UnusedStack => 0xEA,
            EventType::ObjectCloseName(occ) => 0x08 + occ.0 % 8,
            EventType::ObjectCloseProperty(occ) => 0x10 + occ.0 % 8,
            EventType::CreateObject(occ) => 0x18 + occ.0 % 8,
            EventType::Send(occ) => 0x20 + occ.0 % 8,
            EventType::Receive(occ) => 0x28 + occ.0 % 8,
            EventType::SendFromIsr(occ) => 0x30 + occ.0 % 8,
            EventType::ReceiveFromIsr(occ) => 0x38 + occ.0 % 8,
            EventType::CreateObjectFailed(occ) => 0x40 + occ.0 % 8,
            EventType::SendFailed(occ) => 0x48 + occ.0 % 8,
            EventType::ReceiveFailed(occ) => 0x50 + occ.0 % 8,
            EventType::SendFromIsrFailed(occ) => 0x58 + occ.0 % 8,
            EventType::ReceiveFromIsrFailed(occ) => 0x60 + occ.0 % 8,
            EventType::ReceiveBlock(occ) => 0x68 + occ.0 % 8,
            EventType::SendBlock(occ) => 0x70 + occ.0 % 8,
            EventType::Peek(occ) => 0x78 + occ.0 % 8,
            EventType::DeleteObject(occ) => 0x80 + occ.0 % 8,
            EventType::UserEvent(c) => 0x98 + c.0 % 16,
            EventType::Unknown(c) => c.0,
        };
        EventCode(c)
    }
}

impl vstd::std_specs::convert::FromSpecImpl<EventType> for EventCode {
    open spec fn obeys_from_spec() -> bool {
        true
    }

    open spec fn from_spec(t: EventType) -> EventCode {
        EventCode(spec_event_code(t))
    }
}

/// Every event code maps to an event type that maps back to the same code.
#[verifier::rlimit(50)]
pub proof fn lemma_event_code_round_trip(c: u8)
    ensures
        spec_event_code(spec_event_type(c)) == c,
{
    assert(c == (c / 8) * 8 + c % 8);
    if 0x08 <= c <= 0x87 {
        assert((c % 8) % 8 == c % 8);
    } else if 0x98 <= c <= 0xA7 {
        assert((c - 0x98) as u8 % 16 == c - 0x98);
    }
}

} // verus!
