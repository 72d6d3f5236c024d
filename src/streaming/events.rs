//! The typed events of the streaming protocol.
use vstd::prelude::*;
use crate::format::FormattedString;
use crate::streaming::event::{EventCode, EventCount};
use crate::time::{Frequency, Ticks, Timestamp};
use crate::types::{
    Argument, FormatString, Heap, ObjectHandle, ObjectName, Priority, SymbolString, TimerCounter,
    UserEventChannel,
};

verus! {

/// An event the model has no typed decoder for: its code, count, timestamp and raw parameters.
#[derive(Clone, Debug, PartialEq, Eq)]
pub struct BaseEvent {
    pub code: EventCode,
    pub event_count: EventCount,
    pub timestamp: Timestamp,
    pub parameters: Vec<u32>,
}


/// The trace started, with the task that was running.
#[derive(Clone, Debug, PartialEq, Eq)]
pub struct TraceStartEvent {
    pub event_count: EventCount,
    pub timestamp: Timestamp,
    pub current_task_handle: ObjectHandle,
    pub current_task: ObjectName,
}


/// Timestamp configuration.
#[derive(Clone, Debug, PartialEq, Eq)]
pub struct TsConfigEvent {
    pub event_count: EventCount,
    pub timestamp: Timestamp,
    pub frequency: Frequency,
    pub tick_rate_hz: u32,
    pub hwtc_type: TimerCounter,
    pub isr_chaining_threshold: u32,
    pub htc_period: Option<u32>,
}


/// An object got a name.
#[derive(Clone, Debug, PartialEq, Eq)]
pub struct ObjectNameEvent {
    pub event_count: EventCount,
    pub timestamp: Timestamp,
    pub handle: ObjectHandle,
    pub name: SymbolString,
}


/// A task event, with the task's name and priority.
#[derive(Clone, Debug, PartialEq, Eq)]
pub struct TaskEvent {
    pub event_count: EventCount,
    pub timestamp: Timestamp,
    pub handle: ObjectHandle,
    pub name: ObjectName,
    pub priority: Priority,
}

pub type TaskCreateEvent = TaskEvent;
pub type TaskReadyEvent = TaskEvent;
pub type TaskPriorityEvent = TaskEvent;
pub type TaskPriorityInheritEvent = TaskEvent;
pub type TaskPriorityDisinheritEvent = TaskEvent;
pub type TaskBeginEvent = TaskEvent;
pub type TaskResumeEvent = TaskEvent;
pub type TaskActivateEvent = TaskEvent;

/// An ISR event, with the ISR's name and priority.
#[derive(Clone, Debug, PartialEq, Eq)]
pub struct IsrEvent {
    pub event_count: EventCount,
    pub timestamp: Timestamp,
    pub handle: ObjectHandle,
    pub name: ObjectName,
    pub priority: Priority,
}

pub type IsrDefineEvent = IsrEvent;
pub type IsrBeginEvent = IsrEvent;
pub type IsrResumeEvent = IsrEvent;

/// A task notification; the handle is the notified task, or the waiting task for waits.
#[derive(Clone, Debug, PartialEq, Eq)]
pub struct TaskNotifyEvent {
    pub event_count: EventCount,
    pub timestamp: Timestamp,
    pub handle: ObjectHandle,
    pub task_name: Option<ObjectName>,
    pub ticks_to_wait: Option<Ticks>,
}

pub type TaskNotifyFromIsrEvent = TaskNotifyEvent;
pub type TaskNotifyWaitEvent = TaskNotifyEvent;
pub type TaskNotifyWaitBlockEvent = TaskNotifyEvent;

/// A heap allocation or free, with the heap after it.
#[derive(Clone, Debug, PartialEq, Eq)]
pub struct MemoryEvent {
    pub event_count: EventCount,
    pub timestamp: Timestamp,
    pub address: u32,
    pub size: u32,
    pub heap: Heap,
}

pub type MemoryAllocEvent = MemoryEvent;
pub type MemoryFreeEvent = MemoryEvent;

/// A queue was created.
#[derive(Clone, Debug, PartialEq, Eq)]
pub struct QueueCreateEvent {
    pub event_count: EventCount,
    pub timestamp: Timestamp,
    pub handle: ObjectHandle,
    pub name: Option<ObjectName>,
    pub queue_length: u32,
}

/// A queue operation.
#[derive(Clone, Debug, PartialEq, Eq)]
pub struct QueueEvent {
    pub event_count: EventCount,
    pub timestamp: Timestamp,
    pub handle: ObjectHandle,
    pub name: Option<ObjectName>,
    pub ticks_to_wait: Option<Ticks>,
    pub messages_waiting: u32,
}

pub type QueueSendEvent = QueueEvent;
pub type QueueSendBlockEvent = QueueEvent;
pub type QueueSendFromIsrEvent = QueueEvent;
pub type QueueSendFrontEvent = QueueEvent;
pub type QueueSendFrontBlockEvent = QueueEvent;
pub type QueueSendFrontFromIsrEvent = QueueEvent;
pub type QueueReceiveEvent = QueueEvent;
pub type QueueReceiveBlockEvent = QueueEvent;
pub type QueueReceiveFromIsrEvent = QueueEvent;
pub type QueuePeekEvent = QueueEvent;
pub type QueuePeekBlockEvent = QueueEvent;

/// A mutex was created.
#[derive(Clone, Debug, PartialEq, Eq)]
pub struct MutexCreateEvent {
    pub event_count: EventCount,
    pub timestamp: Timestamp,
    pub handle: ObjectHandle,
    pub name: Option<ObjectName>,
}

/// A mutex operation.
#[derive(Clone, Debug, PartialEq, Eq)]
pub struct MutexEvent {
    pub event_count: EventCount,
    pub timestamp: Timestamp,
    pub handle: ObjectHandle,
    pub name: Option<ObjectName>,
    pub ticks_to_wait: Option<Ticks>,
}

pub type MutexGiveEvent = MutexEvent;
pub type MutexGiveBlockEvent = MutexEvent;
pub type MutexGiveRecursiveEvent = MutexEvent;
pub type MutexTakeEvent = MutexEvent;
pub type MutexTakeBlockEvent = MutexEvent;
pub type MutexTakeRecursiveEvent = MutexEvent;
pub type MutexTakeRecursiveBlockEvent = MutexEvent;

/// A semaphore was created (with its initial count when counting).
#[derive(Clone, Debug, PartialEq, Eq)]
pub struct SemaphoreCreateEvent {
    pub event_count: EventCount,
    pub timestamp: Timestamp,
    pub handle: ObjectHandle,
    pub name: Option<ObjectName>,
    pub count: Option<u32>,
}

/// A semaphore operation.
#[derive(Clone, Debug, PartialEq, Eq)]
pub struct SemaphoreEvent {
    pub event_count: EventCount,
    pub timestamp: Timestamp,
    pub handle: ObjectHandle,
    pub name: Option<ObjectName>,
    pub ticks_to_wait: Option<Ticks>,
    pub count: u32,
}

pub type SemaphoreGiveEvent = SemaphoreEvent;
pub type SemaphoreGiveBlockEvent = SemaphoreEvent;
pub type SemaphoreGiveFromIsrEvent = SemaphoreEvent;
pub type SemaphoreTakeEvent = SemaphoreEvent;
pub type SemaphoreTakeBlockEvent = SemaphoreEvent;
pub type SemaphoreTakeFromIsrEvent = SemaphoreEvent;
pub type SemaphorePeekEvent = SemaphoreEvent;
pub type SemaphorePeekBlockEvent = SemaphoreEvent;

/// An event group was created.
#[derive(Clone, Debug, PartialEq, Eq)]
pub struct EventGroupCreateEvent {
    pub event_count: EventCount,
    pub timestamp: Timestamp,
    pub handle: ObjectHandle,
    pub name: Option<ObjectName>,
    pub event_bits: u32,
}

/// An event group operation; `bits` are the bits waited for or cleared.
#[derive(Clone, Debug, PartialEq, Eq)]
pub struct EventGroupEvent {
    pub event_count: EventCount,
    pub timestamp: Timestamp,
    pub handle: ObjectHandle,
    pub name: Option<ObjectName>,
    pub bits: u32,
}

pub type EventGroupSyncEvent = EventGroupEvent;
pub type EventGroupWaitBitsEvent = EventGroupEvent;
pub type EventGroupClearBitsEvent = EventGroupEvent;
pub type EventGroupClearBitsFromIsrEvent = EventGroupEvent;
pub type EventGroupSetBitsEvent = EventGroupEvent;
pub type EventGroupSetBitsFromIsrEvent = EventGroupEvent;
pub type EventGroupSyncBlockEvent = EventGroupEvent;
pub type EventGroupWaitBitsBlockEvent = EventGroupEvent;

/// A message buffer was created.
#[derive(Clone, Debug, PartialEq, Eq)]
pub struct MessageBufferCreateEvent {
    pub event_count: EventCount,
    pub timestamp: Timestamp,
    pub handle: ObjectHandle,
    pub name: Option<ObjectName>,
    pub buffer_size: u32,
}

/// A message buffer operation.
#[derive(Clone, Debug, PartialEq, Eq)]
pub struct MessageBufferEvent {
    pub event_count: EventCount,
    pub timestamp: Timestamp,
    pub handle: ObjectHandle,
    pub name: Option<ObjectName>,
    pub bytes_in_buffer: u32,
}

/// A message buffer operation blocked.
#[derive(Clone, Debug, PartialEq, Eq)]
pub struct MessageBufferBlockEvent {
    pub event_count: EventCount,
    pub timestamp: Timestamp,
    pub handle: ObjectHandle,
    pub name: Option<ObjectName>,
}

pub type MessageBufferSendEvent = MessageBufferEvent;
pub type MessageBufferSendBlockEvent = MessageBufferBlockEvent;
pub type MessageBufferSendFromIsrEvent = MessageBufferEvent;
pub type MessageBufferReceiveEvent = MessageBufferEvent;
pub type MessageBufferReceiveBlockEvent = MessageBufferBlockEvent;
pub type MessageBufferReceiveFromIsrEvent = MessageBufferEvent;
pub type MessageBufferResetEvent = MessageBufferEvent;

/// A state machine was created.
#[derive(Clone, Debug, PartialEq, Eq)]
pub struct StateMachineCreateEvent {
    pub event_count: EventCount,
    pub timestamp: Timestamp,
    pub handle: ObjectHandle,
    pub name: ObjectName,
}

/// A state of a state machine was created.
#[derive(Clone, Debug, PartialEq, Eq)]
pub struct StateMachineStateCreateEvent {
    pub event_count: EventCount,
    pub timestamp: Timestamp,
    pub handle: ObjectHandle,
    pub state: ObjectName,
}

/// A state machine changed state.
#[derive(Clone, Debug, PartialEq, Eq)]
pub struct StateMachineStateChangeEvent {
    pub event_count: EventCount,
    pub timestamp: Timestamp,
    pub handle: ObjectHandle,
    pub name: ObjectName,
    pub state_handle: ObjectHandle,
    pub state: ObjectName,
}


/// The low-water mark of a task's stack.
#[derive(Clone, Debug, PartialEq, Eq)]
pub struct UnusedStackEvent {
    pub event_count: EventCount,
    pub timestamp: Timestamp,
    pub handle: ObjectHandle,
    pub task: ObjectName,
    pub low_mark: u32,
}


/// A user event: channel, format string, formatted text and arguments.
#[derive(Clone, Debug, PartialEq, Eq)]
pub struct UserEvent {
    pub event_count: EventCount,
    pub timestamp: Timestamp,
    pub channel: UserEventChannel,
    pub format_string: FormatString,
    pub formatted_string: FormattedString,
    pub args: Vec<Argument>,
}


/// A decoded streaming event.
#[derive(Clone, Debug, PartialEq, Eq)]
pub enum Event {
    TraceStart(TraceStartEvent),
    TsConfig(TsConfigEvent),
    ObjectName(ObjectNameEvent),
    TaskPriority(TaskPriorityEvent),
    TaskPriorityInherit(TaskPriorityInheritEvent),
    TaskPriorityDisinherit(TaskPriorityDisinheritEvent),
    IsrDefine(IsrDefineEvent),
    TaskCreate(TaskCreateEvent),
    QueueCreate(QueueCreateEvent),
    MutexCreate(MutexCreateEvent),
    SemaphoreBinaryCreate(SemaphoreCreateEvent),
    SemaphoreCountingCreate(SemaphoreCreateEvent),
    TaskReady(TaskReadyEvent),
    IsrBegin(IsrBeginEvent),
    IsrResume(IsrResumeEvent),
    TaskBegin(TaskBeginEvent),
    TaskResume(TaskResumeEvent),
    TaskActivate(TaskActivateEvent),
    TaskNotify(TaskNotifyEvent),
    TaskNotifyFromIsr(TaskNotifyFromIsrEvent),
    TaskNotifyWait(TaskNotifyWaitEvent),
    TaskNotifyWaitBlock(TaskNotifyWaitBlockEvent),
    MemoryAlloc(MemoryAllocEvent),
    MemoryFree(MemoryFreeEvent),
    QueueSend(QueueSendEvent),
    QueueSendBlock(QueueSendBlockEvent),
    QueueSendFromIsr(QueueSendFromIsrEvent),
    QueueReceive(QueueReceiveEvent),
    QueueReceiveBlock(QueueReceiveBlockEvent),
    QueueReceiveFromIsr(QueueReceiveFromIsrEvent),
    QueuePeek(QueuePeekEvent),
    QueuePeekBlock(QueuePeekBlockEvent),
    QueueSendFront(QueueSendFrontEvent),
    QueueSendFrontBlock(QueueSendFrontBlockEvent),
    QueueSendFrontFromIsr(QueueSendFrontFromIsrEvent),
    MutexGive(MutexGiveEvent),
    MutexGiveBlock(MutexGiveBlockEvent),
    MutexGiveRecursive(MutexGiveRecursiveEvent),
    MutexTake(MutexTakeEvent),
    MutexTakeBlock(MutexTakeBlockEvent),
    MutexTakeRecursive(MutexTakeRecursiveEvent),
    MutexTakeRecursiveBlock(MutexTakeRecursiveBlockEvent),
    SemaphoreGive(SemaphoreGiveEvent),
    SemaphoreGiveBlock(SemaphoreGiveBlockEvent),
    SemaphoreGiveFromIsr(SemaphoreGiveFromIsrEvent),
    SemaphoreTake(SemaphoreTakeEvent),
    SemaphoreTakeBlock(SemaphoreTakeBlockEvent),
    SemaphoreTakeFromIsr(SemaphoreTakeFromIsrEvent),
    SemaphorePeek(SemaphorePeekEvent),
    SemaphorePeekBlock(SemaphorePeekBlockEvent),
    EventGroupCreate(EventGroupCreateEvent),
    EventGroupSync(EventGroupSyncEvent),
    EventGroupWaitBits(EventGroupWaitBitsEvent),
    EventGroupClearBits(EventGroupClearBitsEvent),
    EventGroupClearBitsFromIsr(EventGroupClearBitsFromIsrEvent),
    EventGroupSetBits(EventGroupSetBitsEvent),
    EventGroupSetBitsFromIsr(EventGroupSetBitsFromIsrEvent),
    EventGroupSyncBlock(EventGroupSyncBlockEvent),
    EventGroupWaitBitsBlock(EventGroupWaitBitsBlockEvent),
    MessageBufferCreate(MessageBufferCreateEvent),
    MessageBufferSend(MessageBufferSendEvent),
    MessageBufferReceive(MessageBufferReceiveEvent),
    MessageBufferSendFromIsr(MessageBufferSendFromIsrEvent),
    MessageBufferReceiveFromIsr(MessageBufferReceiveFromIsrEvent),
    MessageBufferReset(MessageBufferResetEvent),
    MessageBufferSendBlock(MessageBufferSendBlockEvent),
    MessageBufferReceiveBlock(MessageBufferReceiveBlockEvent),
    StateMachineCreate(StateMachineCreateEvent),
    StateMachineStateCreate(StateMachineStateCreateEvent),
    StateMachineStateChange(StateMachineStateChangeEvent),
    User(UserEvent),
    UnusedStack(UnusedStackEvent),
    Unknown(BaseEvent),
}

/// The event count of an event.
pub open spec fn spec_event_count(ev: Event) -> EventCount {
    match ev {
        Event::TraceStart(e) => e.event_count,
        Event::TsConfig(e) => e.event_count,
        Event::ObjectName(e) => e.event_count,
        Event::TaskPriority(e) => e.event_count,
        Event::TaskPriorityInherit(e) => e.event_count,
        Event::TaskPriorityDisinherit(e) => e.event_count,
        Event::IsrDefine(e) => e.event_count,
        Event::TaskCreate(e) => e.event_count,
        Event::QueueCreate(e) => e.event_count,
        Event::MutexCreate(e) => e.event_count,
        Event::SemaphoreBinaryCreate(e) => e.event_count,
        Event::SemaphoreCountingCreate(e) => e.event_count,
        Event::TaskReady(e) => e.event_count,
        Event::IsrBegin(e) => e.event_count,
        Event::IsrResume(e) => e.event_count,
        Event::TaskBegin(e) => e.event_count,
        Event::TaskResume(e) => e.event_count,
        Event::TaskActivate(e) => e.event_count,
        Event::TaskNotify(e) => e.event_count,
        Event::TaskNotifyFromIsr(e) => e.event_count,
        Event::TaskNotifyWait(e) => e.event_count,
        Event::TaskNotifyWaitBlock(e) => e.event_count,
        Event::MemoryAlloc(e) => e.event_count,
        Event::MemoryFree(e) => e.event_count,
        Event::QueueSend(e) => e.event_count,
        Event::QueueSendBlock(e) => e.event_count,
        Event::QueueSendFromIsr(e) => e.event_count,
        Event::QueueReceive(e) => e.event_count,
        Event::QueueReceiveBlock(e) => e.event_count,
        Event::QueueReceiveFromIsr(e) => e.event_count,
        Event::QueuePeek(e) => e.event_count,
        Event::QueuePeekBlock(e) => e.event_count,
        Event::QueueSendFront(e) => e.event_count,
        Event::QueueSendFrontBlock(e) => e.event_count,
        Event::QueueSendFrontFromIsr(e) => e.event_count,
        Event::MutexGive(e) => e.event_count,
        Event::MutexGiveBlock(e) => e.event_count,
        Event::MutexGiveRecursive(e) => e.event_count,
        Event::MutexTake(e) => e.event_count,
        Event::MutexTakeBlock(e) => e.event_count,
        Event::MutexTakeRecursive(e) => e.event_count,
        Event::MutexTakeRecursiveBlock(e) => e.event_count,
        Event::SemaphoreGive(e) => e.event_count,
        Event::SemaphoreGiveBlock(e) => e.event_count,
        Event::SemaphoreGiveFromIsr(e) => e.event_count,
        Event::SemaphoreTake(e) => e.event_count,
        Event::SemaphoreTakeBlock(e) => e.event_count,
        Event::SemaphoreTakeFromIsr(e) => e.event_count,
        Event::SemaphorePeek(e) => e.event_count,
        Event::SemaphorePeekBlock(e) => e.event_count,
        Event::EventGroupCreate(e) => e.event_count,
        Event::EventGroupSync(e) => e.event_count,
        Event::EventGroupWaitBits(e) => e.event_count,
        Event::EventGroupClearBits(e) => e.event_count,
        Event::EventGroupClearBitsFromIsr(e) => e.event_count,
        Event::EventGroupSetBits(e) => e.event_count,
        Event::EventGroupSetBitsFromIsr(e) => e.event_count,
        Event::EventGroupSyncBlock(e) => e.event_count,
        Event::EventGroupWaitBitsBlock(e) => e.event_count,
        Event::MessageBufferCreate(e) => e.event_count,
        Event::MessageBufferSend(e) => e.event_count,
        Event::MessageBufferReceive(e) => e.event_count,
        Event::MessageBufferSendFromIsr(e) => e.event_count,
        Event::MessageBufferReceiveFromIsr(e) => e.event_count,
        Event::MessageBufferReset(e) => e.event_count,
        Event::MessageBufferSendBlock(e) => e.event_count,
        Event::MessageBufferReceiveBlock(e) => e.event_count,
        Event::StateMachineCreate(e) => e.event_count,
        Event::StateMachineStateCreate(e) => e.event_count,
        Event::StateMachineStateChange(e) => e.event_count,
        Event::User(e) => e.event_count,
        Event::UnusedStack(e) => e.event_count,
        Event::Unknown(e) => e.event_count,
    }
}

/// The timestamp of an event.
pub open spec fn spec_timestamp(ev: Event) -> Timestamp {
    match ev {
        Event::TraceStart(e) => e.timestamp,
        Event::TsConfig(e) => e.timestamp,
        Event::ObjectName(e) => e.timestamp,
        Event::TaskPriority(e) => e.timestamp,
        Event::TaskPriorityInherit(e) => e.timestamp,
        Event::TaskPriorityDisinherit(e) => e.timestamp,
        Event::IsrDefine(e) => e.timestamp,
        Event::TaskCreate(e) => e.timestamp,
        Event::QueueCreate(e) => e.timestamp,
        Event::MutexCreate(e) => e.timestamp,
        Event::SemaphoreBinaryCreate(e) => e.timestamp,
        Event::SemaphoreCountingCreate(e) => e.timestamp,
        Event::TaskReady(e) => e.timestamp,
        Event::IsrBegin(e) => e.timestamp,
        Event::IsrResume(e) => e.timestamp,
        Event::TaskBegin(e) => e.timestamp,
        Event::TaskResume(e) => e.timestamp,
        Event::TaskActivate(e) => e.timestamp,
        Event::TaskNotify(e) => e.timestamp,
        Event::TaskNotifyFromIsr(e) => e.timestamp,
        Event::TaskNotifyWait(e) => e.timestamp,
        Event::TaskNotifyWaitBlock(e) => e.timestamp,
        Event::MemoryAlloc(e) => e.timestamp,
        Event::MemoryFree(e) => e.timestamp,
        Event::QueueSend(e) => e.timestamp,
        Event::QueueSendBlock(e) => e.timestamp,
        Event::QueueSendFromIsr(e) => e.timestamp,
        Event::QueueReceive(e) => e.timestamp,
        Event::QueueReceiveBlock(e) => e.timestamp,
        Event::QueueReceiveFromIsr(e) => e.timestamp,
        Event::QueuePeek(e) => e.timestamp,
        Event::QueuePeekBlock(e) => e.timestamp,
        Event::QueueSendFront(e) => e.timestamp,
        Event::QueueSendFrontBlock(e) => e.timestamp,
        Event::QueueSendFrontFromIsr(e) => e.timestamp,
        Event::MutexGive(e) => e.timestamp,
        Event::MutexGiveBlock(e) => e.timestamp,
        Event::MutexGiveRecursive(e) => e.timestamp,
        Event::MutexTake(e) => e.timestamp,
        Event::MutexTakeBlock(e) => e.timestamp,
        Event::MutexTakeRecursive(e) => e.timestamp,
        Event::MutexTakeRecursiveBlock(e) => e.timestamp,
        Event::SemaphoreGive(e) => e.timestamp,
        Event::SemaphoreGiveBlock(e) => e.timestamp,
        Event::SemaphoreGiveFromIsr(e) => e.timestamp,
        Event::SemaphoreTake(e) => e.timestamp,
        Event::SemaphoreTakeBlock(e) => e.timestamp,
        Event::SemaphoreTakeFromIsr(e) => e.timestamp,
        Event::SemaphorePeek(e) => e.timestamp,
        Event::SemaphorePeekBlock(e) => e.timestamp,
        Event::EventGroupCreate(e) => e.timestamp,
        Event::EventGroupSync(e) => e.timestamp,
        Event::EventGroupWaitBits(e) => e.timestamp,
        Event::EventGroupClearBits(e) => e.timestamp,
        Event::EventGroupClearBitsFromIsr(e) => e.timestamp,
        Event::EventGroupSetBits(e) => e.timestamp,
        Event::EventGroupSetBitsFromIsr(e) => e.timestamp,
        Event::EventGroupSyncBlock(e) => e.timestamp,
        Event::EventGroupWaitBitsBlock(e) => e.timestamp,
        Event::MessageBufferCreate(e) => e.timestamp,
        Event::MessageBufferSend(e) => e.timestamp,
        Event::MessageBufferReceive(e) => e.timestamp,
        Event::MessageBufferSendFromIsr(e) => e.timestamp,
        Event::MessageBufferReceiveFromIsr(e) => e.timestamp,
        Event::MessageBufferReset(e) => e.timestamp,
        Event::MessageBufferSendBlock(e) => e.timestamp,
        Event::MessageBufferReceiveBlock(e) => e.timestamp,
        Event::StateMachineCreate(e) => e.timestamp,
        Event::StateMachineStateCreate(e) => e.timestamp,
        Event::StateMachineStateChange(e) => e.timestamp,
        Event::User(e) => e.timestamp,
        Event::UnusedStack(e) => e.timestamp,
        Event::Unknown(e) => e.timestamp,
    }
}

impl Event {
    /// The sequence number of the event.
    pub fn event_count(&self) -> (r: EventCount)
        ensures
            r == spec_event_count(*self),
    {
        match self {
            Event::TraceStart(e) => e.event_count,
            Event::TsConfig(e) => e.event_count,
            Event::ObjectName(e) => e.event_count,
            Event::TaskPriority(e) => e.event_count,
            Event::TaskPriorityInherit(e) => e.event_count,
            Event::TaskPriorityDisinherit(e) => e.event_count,
            Event::IsrDefine(e) => e.event_count,
            Event::TaskCreate(e) => e.event_count,
            Event::QueueCreate(e) => e.event_count,
            Event::MutexCreate(e) => e.event_count,
            Event::SemaphoreBinaryCreate(e) => e.event_count,
            Event::SemaphoreCountingCreate(e) => e.event_count,
            Event::TaskReady(e) => e.event_count,
            Event::IsrBegin(e) => e.event_count,
            Event::IsrResume(e) => e.event_count,
            Event::TaskBegin(e) => e.event_count,
            Event::TaskResume(e) => e.event_count,
            Event::TaskActivate(e) => e.event_count,
            Event::TaskNotify(e) => e.event_count,
            Event::TaskNotifyFromIsr(e) => e.event_count,
            Event::TaskNotifyWait(e) => e.event_count,
            Event::TaskNotifyWaitBlock(e) => e.event_count,
            Event::MemoryAlloc(e) => e.event_count,
            Event::MemoryFree(e) => e.event_count,
            Event::QueueSend(e) => e.event_count,
            Event::QueueSendBlock(e) => e.event_count,
            Event::QueueSendFromIsr(e) => e.event_count,
            Event::QueueReceive(e) => e.event_count,
            Event::QueueReceiveBlock(e) => e.event_count,
            Event::QueueReceiveFromIsr(e) => e.event_count,
            Event::QueuePeek(e) => e.event_count,
            Event::QueuePeekBlock(e) => e.event_count,
            Event::QueueSendFront(e) => e.event_count,
            Event::QueueSendFrontBlock(e) => e.event_count,
            Event::QueueSendFrontFromIsr(e) => e.event_count,
            Event::MutexGive(e) => e.event_count,
            Event::MutexGiveBlock(e) => e.event_count,
            Event::MutexGiveRecursive(e) => e.event_count,
            Event::MutexTake(e) => e.event_count,
            Event::MutexTakeBlock(e) => e.event_count,
            Event::MutexTakeRecursive(e) => e.event_count,
            Event::MutexTakeRecursiveBlock(e) => e.event_count,
            Event::SemaphoreGive(e) => e.event_count,
            Event::SemaphoreGiveBlock(e) => e.event_count,
            Event::SemaphoreGiveFromIsr(e) => e.event_count,
            Event::SemaphoreTake(e) => e.event_count,
            Event::SemaphoreTakeBlock(e) => e.event_count,
            Event::SemaphoreTakeFromIsr(e) => e.event_count,
            Event::SemaphorePeek(e) => e.event_count,
            Event::SemaphorePeekBlock(e) => e.event_count,
            Event::EventGroupCreate(e) => e.event_count,
            Event::EventGroupSync(e) => e.event_count,
            Event::EventGroupWaitBits(e) => e.event_count,
            Event::EventGroupClearBits(e) => e.event_count,
            Event::EventGroupClearBitsFromIsr(e) => e.event_count,
            Event::EventGroupSetBits(e) => e.event_count,
            Event::EventGroupSetBitsFromIsr(e) => e.event_count,
            Event::EventGroupSyncBlock(e) => e.event_count,
            Event::EventGroupWaitBitsBlock(e) => e.event_count,
            Event::MessageBufferCreate(e) => e.event_count,
            Event::MessageBufferSend(e) => e.event_count,
            Event::MessageBufferReceive(e) => e.event_count,
            Event::MessageBufferSendFromIsr(e) => e.event_count,
            Event::MessageBufferReceiveFromIsr(e) => e.event_count,
            Event::MessageBufferReset(e) => e.event_count,
            Event::MessageBufferSendBlock(e) => e.event_count,
            Event::MessageBufferReceiveBlock(e) => e.event_count,
            Event::StateMachineCreate(e) => e.event_count,
            Event::StateMachineStateCreate(e) => e.event_count,
            Event::StateMachineStateChange(e) => e.event_count,
            Event::User(e) => e.event_count,
            Event::UnusedStack(e) => e.event_count,
            Event::Unknown(e) => e.event_count,
        }
    }

    /// The timestamp of the event.
    pub fn timestamp(&self) -> (r: Timestamp)
        ensures
            r == spec_timestamp(*self),
    {
        match self {
            Event::TraceStart(e) => e.timestamp,
            Event::TsConfig(e) => e.timestamp,
            Event::ObjectName(e) => e.timestamp,
            Event::TaskPriority(e) => e.timestamp,
            Event::TaskPriorityInherit(e) => e.timestamp,
            Event::TaskPriorityDisinherit(e) => e.timestamp,
            Event::IsrDefine(e) => e.timestamp,
            Event::TaskCreate(e) => e.timestamp,
            Event::QueueCreate(e) => e.timestamp,
            Event::MutexCreate(e) => e.timestamp,
            Event::SemaphoreBinaryCreate(e) => e.timestamp,
            Event::SemaphoreCountingCreate(e) => e.timestamp,
            Event::TaskReady(e) => e.timestamp,
            Event::IsrBegin(e) => e.timestamp,
            Event::IsrResume(e) => e.timestamp,
            Event::TaskBegin(e) => e.timestamp,
            Event::TaskResume(e) => e.timestamp,
            Event::TaskActivate(e) => e.timestamp,
            Event::TaskNotify(e) => e.timestamp,
            Event::TaskNotifyFromIsr(e) => e.timestamp,
            Event::TaskNotifyWait(e) => e.timestamp,
            Event::TaskNotifyWaitBlock(e) => e.timestamp,
            Event::MemoryAlloc(e) => e.timestamp,
            Event::MemoryFree(e) => e.timestamp,
            Event::QueueSend(e) => e.timestamp,
            Event::QueueSendBlock(e) => e.timestamp,
            Event::QueueSendFromIsr(e) => e.timestamp,
            Event::QueueReceive(e) => e.timestamp,
            Event::QueueReceiveBlock(e) => e.timestamp,
            Event::QueueReceiveFromIsr(e) => e.timestamp,
            Event::QueuePeek(e) => e.timestamp,
            Event::QueuePeekBlock(e) => e.timestamp,
            Event::QueueSendFront(e) => e.timestamp,
            Event::QueueSendFrontBlock(e) => e.timestamp,
            Event::QueueSendFrontFromIsr(e) => e.timestamp,
            Event::MutexGive(e) => e.timestamp,
            Event::MutexGiveBlock(e) => e.timestamp,
            Event::MutexGiveRecursive(e) => e.timestamp,
            Event::MutexTake(e) => e.timestamp,
            Event::MutexTakeBlock(e) => e.timestamp,
            Event::MutexTakeRecursive(e) => e.timestamp,
            Event::MutexTakeRecursiveBlock(e) => e.timestamp,
            Event::SemaphoreGive(e) => e.timestamp,
            Event::SemaphoreGiveBlock(e) => e.timestamp,
            Event::SemaphoreGiveFromIsr(e) => e.timestamp,
            Event::SemaphoreTake(e) => e.timestamp,
            Event::SemaphoreTakeBlock(e) => e.timestamp,
            Event::SemaphoreTakeFromIsr(e) => e.timestamp,
            Event::SemaphorePeek(e) => e.timestamp,
            Event::SemaphorePeekBlock(e) => e.timestamp,
            Event::EventGroupCreate(e) => e.timestamp,
            Event::EventGroupSync(e) => e.timestamp,
            Event::EventGroupWaitBits(e) => e.timestamp,
            Event::EventGroupClearBits(e) => e.timestamp,
            Event::EventGroupClearBitsFromIsr(e) => e.timestamp,
            Event::EventGroupSetBits(e) => e.timestamp,
            Event::EventGroupSetBitsFromIsr(e) => e.timestamp,
            Event::EventGroupSyncBlock(e) => e.timestamp,
            Event::EventGroupWaitBitsBlock(e) => e.timestamp,
            Event::MessageBufferCreate(e) => e.timestamp,
            Event::MessageBufferSend(e) => e.timestamp,
            Event::MessageBufferReceive(e) => e.timestamp,
            Event::MessageBufferSendFromIsr(e) => e.timestamp,
            Event::MessageBufferReceiveFromIsr(e) => e.timestamp,
            Event::MessageBufferReset(e) => e.timestamp,
            Event::MessageBufferSendBlock(e) => e.timestamp,
            Event::MessageBufferReceiveBlock(e) => e.timestamp,
            Event::StateMachineCreate(e) => e.timestamp,
            Event::StateMachineStateCreate(e) => e.timestamp,
            Event::StateMachineStateChange(e) => e.timestamp,
            Event::User(e) => e.timestamp,
            Event::UnusedStack(e) => e.timestamp,
            Event::Unknown(e) => e.timestamp,
        }
    }

}
impl BaseEvent {
    /// The raw parameter words.
    pub fn parameters(&self) -> (r: &[u32])
        ensures
            r@ == self.parameters@,
    {
        self.parameters.as_slice()
    }
}

} // verus!
