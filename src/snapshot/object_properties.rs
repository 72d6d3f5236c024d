//! The snapshot object property table: per class, the objects by handle.
use vstd::prelude::*;
use core::marker::PhantomData;
use crate::handle_map::HandleMap;
use crate::types::{ObjectClass, Priority, UNNAMED_OBJECT};

verus! {

/// A marker type that names an object class.
pub trait ObjectClassExt {
    /// The class the marker names.
    spec fn spec_class() -> ObjectClass;

    fn class() -> (r: ObjectClass)
        ensures
            r == Self::spec_class(),
    ;
}

/// A named object with its raw property bytes.
#[derive(Debug)]
pub struct ObjectProperties<C> {
    name: Option<String>,
    properties: [u8; 4],
    _class: PhantomData<C>,
}

/// The name shown for an object: its name, or the placeholder for unnamed objects.
pub open spec fn display_text<C>(o: ObjectProperties<C>) -> Seq<char> {
    match o.spec_name() {
        Some(s) => s,
        None => UNNAMED_OBJECT@,
    }
}

impl<C> ObjectProperties<C> {
    /// The object's name, if it has one.
    pub closed spec fn spec_name(&self) -> Option<Seq<char>> {
        match self.name {
            Some(s) => Some(s@),
            None => None,
        }
    }

    /// The property bytes.
    pub closed spec fn spec_properties(&self) -> [u8; 4] {
        self.properties
    }

    pub fn new(name: Option<String>, properties: [u8; 4]) -> (r: Self)
        ensures
            r.spec_name() == match name {
                Some(s) => Some(s@),
                None => None::<Seq<char>>,
            },
            r.spec_properties() == properties,
    {
        ObjectProperties { name, properties, _class: PhantomData }
    }

    pub fn name(&self) -> (r: Option<&str>)
        ensures
            match r {
                Some(s) => self.spec_name() == Some(s@),
                None => self.spec_name().is_none(),
            },
    {
        match &self.name {
            Some(s) => Some(s.as_str()),
            None => None,
        }
    }

    /// The name, or a placeholder for unnamed objects.
    pub fn display_name(&self) -> (r: &str)
        ensures
            r@ == match self.spec_name() {
                Some(s) => s,
                None => UNNAMED_OBJECT@,
            },
    {
        match &self.name {
            Some(s) => s.as_str(),
            None => UNNAMED_OBJECT,
        }
    }
}

impl<C: ObjectClassExt> ObjectProperties<C> {
    pub fn class(&self) -> (r: ObjectClass)
        ensures
            r == C::spec_class(),
    {
        C::class()
    }
}

/// Queues.
#[derive(Clone, Debug)]
pub struct QueueObjectClass;

impl ObjectClassExt for QueueObjectClass {
    open spec fn spec_class() -> ObjectClass {
        ObjectClass::Queue
    }

    fn class() -> (r: ObjectClass) {
        ObjectClass::Queue
    }
}

impl ObjectProperties<QueueObjectClass> {
    /// Current number of messages in the queue.
    pub fn queue_length(&self) -> (r: u8)
        ensures
            r == self.spec_properties()[0],
    {
        self.properties[0]
    }
}

/// Semaphores.
#[derive(Clone, Debug)]
pub struct SemaphoreObjectClass;

impl ObjectClassExt for SemaphoreObjectClass {
    open spec fn spec_class() -> ObjectClass {
        ObjectClass::Semaphore
    }

    fn class() -> (r: ObjectClass) {
        ObjectClass::Semaphore
    }
}

/// Whether a semaphore is signaled.
#[derive(Copy, Clone, Debug, PartialEq, Eq, Structural)]
pub enum SemaphoreState {
    Cleared,
    Signaled,
}

impl ObjectProperties<SemaphoreObjectClass> {
    pub fn state(&self) -> (r: SemaphoreState)
        ensures
            r == if self.spec_properties()[0] == 0 {
                SemaphoreState::Cleared
            } else {
                SemaphoreState::Signaled
            },
    {
        if self.properties[0] == 0 {
            SemaphoreState::Cleared
        } else {
            SemaphoreState::Signaled
        }
    }
}

/// Mutexes.
#[derive(Clone, Debug)]
pub struct MutexObjectClass;

impl ObjectClassExt for MutexObjectClass {
    open spec fn spec_class() -> ObjectClass {
        ObjectClass::Mutex
    }

    fn class() -> (r: ObjectClass) {
        ObjectClass::Mutex
    }
}

/// The one-byte handle of a task in the object table.
#[derive(Copy, Clone, Debug, PartialEq, Eq, Structural)]
pub struct TaskHandle(pub u8);

/// Who holds a mutex.
#[derive(Copy, Clone, Debug, PartialEq, Eq, Structural)]
pub enum MutexOwner {
    TaskHandle(TaskHandle),
    Free,
}

impl ObjectProperties<MutexObjectClass> {
    pub fn owner(&self) -> (r: MutexOwner)
        ensures
            r == if self.spec_properties()[0] == 0 {
                MutexOwner::Free
            } else {
                MutexOwner::TaskHandle(TaskHandle(self.spec_properties()[0]))
            },
    {
        let owner = self.properties[0];
        if owner == 0 {
            MutexOwner::Free
        } else {
            MutexOwner::TaskHandle(TaskHandle(owner))
        }
    }
}

/// Tasks.
#[derive(Clone, Debug)]
pub struct TaskObjectClass;

impl ObjectClassExt for TaskObjectClass {
    open spec fn spec_class() -> ObjectClass {
        ObjectClass::Task
    }

    fn class() -> (r: ObjectClass) {
        ObjectClass::Task
    }
}

/// Whether a task is active.
#[derive(Copy, Clone, Debug, PartialEq, Eq, Structural)]
pub enum TaskState {
    Inactive,
    Active,
}

impl ObjectProperties<TaskObjectClass> {
    pub fn current_priority(&self) -> (r: Priority)
        ensures
            r.0 == self.spec_properties()[0],
    {
        Priority(self.properties[0] as u32)
    }

    pub fn state(&self) -> (r: TaskState)
        ensures
            r == if self.spec_properties()[1] == 0 {
                TaskState::Inactive
            } else {
                TaskState::Active
            },
    {
        if self.properties[1] == 0 {
            TaskState::Inactive
        } else {
            TaskState::Active
        }
    }
}

/// Interrupt service routines.
#[derive(Clone, Debug)]
pub struct IsrObjectClass;

impl ObjectClassExt for IsrObjectClass {
    open spec fn spec_class() -> ObjectClass {
        ObjectClass::Isr
    }

    fn class() -> (r: ObjectClass) {
        ObjectClass::Isr
    }
}

impl ObjectProperties<IsrObjectClass> {
    pub fn priority(&self) -> (r: Priority)
        ensures
            r.0 == self.spec_properties()[1],
    {
        Priority(self.properties[1] as u32)
    }
}

/// Timers.
#[derive(Clone, Debug)]
pub struct TimerObjectClass;

impl ObjectClassExt for TimerObjectClass {
    open spec fn spec_class() -> ObjectClass {
        ObjectClass::Timer
    }

    fn class() -> (r: ObjectClass) {
        ObjectClass::Timer
    }
}

/// Event groups.
#[derive(Clone, Debug)]
pub struct EventGroupObjectClass;

impl ObjectClassExt for EventGroupObjectClass {
    open spec fn spec_class() -> ObjectClass {
        ObjectClass::EventGroup
    }

    fn class() -> (r: ObjectClass) {
        ObjectClass::EventGroup
    }
}

/// Stream buffers.
#[derive(Clone, Debug)]
pub struct StreamBufferObjectClass;

impl ObjectClassExt for StreamBufferObjectClass {
    open spec fn spec_class() -> ObjectClass {
        ObjectClass::StreamBuffer
    }

    fn class() -> (r: ObjectClass) {
        ObjectClass::StreamBuffer
    }
}

/// Message buffers.
#[derive(Clone, Debug)]
pub struct MessageBufferObjectClass;

impl ObjectClassExt for MessageBufferObjectClass {
    open spec fn spec_class() -> ObjectClass {
        ObjectClass::MessageBuffer
    }

    fn class() -> (r: ObjectClass) {
        ObjectClass::MessageBuffer
    }
}

/// The objects of a snapshot, one map per class, keyed by handle.
#[derive(Debug)]
pub struct ObjectPropertyTable {
    pub queue_object_properties: HandleMap<ObjectProperties<QueueObjectClass>>,
    pub semaphore_object_properties: HandleMap<ObjectProperties<SemaphoreObjectClass>>,
    pub mutex_object_properties: HandleMap<ObjectProperties<MutexObjectClass>>,
    pub task_object_properties: HandleMap<ObjectProperties<TaskObjectClass>>,
    pub isr_object_properties: HandleMap<ObjectProperties<IsrObjectClass>>,
    pub timer_object_properties: HandleMap<ObjectProperties<TimerObjectClass>>,
    pub event_group_object_properties: HandleMap<ObjectProperties<EventGroupObjectClass>>,
    pub stream_buffer_object_properties: HandleMap<ObjectProperties<StreamBufferObjectClass>>,
    pub message_buffer_object_properties: HandleMap<ObjectProperties<MessageBufferObjectClass>>,
}

impl ObjectPropertyTable {
    /// Every map is well formed.
    pub open spec fn wf(&self) -> bool {
        &&& self.queue_object_properties.wf()
        &&& self.semaphore_object_properties.wf()
        &&& self.mutex_object_properties.wf()
        &&& self.task_object_properties.wf()
        &&& self.isr_object_properties.wf()
        &&& self.timer_object_properties.wf()
        &&& self.event_group_object_properties.wf()
        &&& self.stream_buffer_object_properties.wf()
        &&& self.message_buffer_object_properties.wf()
    }

    pub fn new() -> (r: Self)
        ensures
            r.wf(),
            r.queue_object_properties@.is_empty(),
            r.semaphore_object_properties@.is_empty(),
            r.mutex_object_properties@.is_empty(),
            r.task_object_properties@.is_empty(),
            r.isr_object_properties@.is_empty(),
            r.timer_object_properties@.is_empty(),
            r.event_group_object_properties@.is_empty(),
            r.stream_buffer_object_properties@.is_empty(),
            r.message_buffer_object_properties@.is_empty(),
    {
        ObjectPropertyTable {
            queue_object_properties: HandleMap::new(),
            semaphore_object_properties: HandleMap::new(),
            mutex_object_properties: HandleMap::new(),
            task_object_properties: HandleMap::new(),
            isr_object_properties: HandleMap::new(),
            timer_object_properties: HandleMap::new(),
            event_group_object_properties: HandleMap::new(),
            stream_buffer_object_properties: HandleMap::new(),
            message_buffer_object_properties: HandleMap::new(),
        }
    }
}

} // verus!
