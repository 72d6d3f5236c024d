//! The typed events of the snapshot protocol.
use vstd::prelude::*;
use crate::format::FormattedString;
use crate::snapshot::event::EventRecord;
use crate::snapshot::object_properties::TaskState;
use crate::time::Timestamp;
use crate::types::{Argument, FormatString, ObjectHandle, Priority, UserEventChannel};

verus! {

/// The display name of a task in the snapshot object table.
#[derive(Clone, Debug, PartialEq, Eq)]
pub struct TaskName(pub String);

/// The display name of an interrupt service routine in the snapshot object table.
#[derive(Clone, Debug, PartialEq, Eq)]
pub struct IsrName(pub String);

/// A task event, with the task's name, state and priority from the object table.
#[derive(Clone, Debug, PartialEq, Eq)]
pub struct TaskEvent {
    pub handle: ObjectHandle,
    pub name: TaskName,
    pub state: TaskState,
    pub priority: Priority,
    pub timestamp: Timestamp,
}

pub type TaskBeginEvent = TaskEvent;
pub type TaskReadyEvent = TaskEvent;
pub type TaskResumeEvent = TaskEvent;

/// An ISR event, with the ISR's name and priority from the object table.
#[derive(Clone, Debug, PartialEq, Eq)]
pub struct IsrEvent {
    pub handle: ObjectHandle,
    pub name: IsrName,
    pub priority: Priority,
    pub timestamp: Timestamp,
}

pub type IsrBeginEvent = IsrEvent;
pub type IsrResumeEvent = IsrEvent;

/// Entry into or exit from low-power mode.
#[derive(Clone, Debug, PartialEq, Eq)]
pub struct LowPowerEvent {
    pub timestamp: Timestamp,
}

pub type LowPowerBeginEvent = LowPowerEvent;
pub type LowPowerEndEvent = LowPowerEvent;

/// A user event: channel, format string, formatted text and arguments.
#[derive(Clone, Debug, PartialEq, Eq)]
pub struct UserEvent {
    pub timestamp: Timestamp,
    pub channel: UserEventChannel,
    pub format_string: FormatString,
    pub formatted_string: FormattedString,
    pub args: Vec<Argument>,
}

/// A decoded snapshot event. `Unknown` carries the time and the raw record of every
/// event without a typed decoder, known codes included: such records still advance the
/// clock.
#[derive(Clone, Debug, PartialEq, Eq)]
pub enum Event {
    IsrBegin(IsrBeginEvent),
    IsrResume(IsrResumeEvent),
    TaskBegin(TaskBeginEvent),
    TaskReady(TaskReadyEvent),
    TaskResume(TaskResumeEvent),
    TaskCreate(TaskEvent),
    LowPowerBegin(LowPowerBeginEvent),
    LowPowerEnd(LowPowerEndEvent),
    User(UserEvent),
    Unknown(Timestamp, EventRecord),
}

/// The timestamp of an event.
pub open spec fn spec_event_timestamp(ev: Event) -> Timestamp {
    match ev {
        Event::IsrBegin(e) => e.timestamp,
        Event::IsrResume(e) => e.timestamp,
        Event::TaskBegin(e) => e.timestamp,
        Event::TaskReady(e) => e.timestamp,
        Event::TaskResume(e) => e.timestamp,
        Event::TaskCreate(e) => e.timestamp,
        Event::LowPowerBegin(e) => e.timestamp,
        Event::LowPowerEnd(e) => e.timestamp,
        Event::User(e) => e.timestamp,
        Event::Unknown(t, _) => t,
    }
}

impl Event {
    pub fn timestamp(&self) -> (r: Timestamp)
        ensures
            r == spec_event_timestamp(*self),
    {
        match self {
            Event::IsrBegin(e) => e.timestamp,
            Event::IsrResume(e) => e.timestamp,
            Event::TaskBegin(e) => e.timestamp,
            Event::TaskReady(e) => e.timestamp,
            Event::TaskResume(e) => e.timestamp,
            Event::TaskCreate(e) => e.timestamp,
            Event::LowPowerBegin(e) => e.timestamp,
            Event::LowPowerEnd(e) => e.timestamp,
            Event::User(e) => e.timestamp,
            Event::Unknown(t, _) => *t,
        }
    }
}

} // verus!
