//! The object data table of older streaming formats: priorities by object address.
use vstd::prelude::*;
use crate::bytes::read_u32;
use crate::handle_map::HandleMap;
use crate::streaming::error::Error;
use crate::types::{Endianness, ObjectClass, ObjectHandle, Priority, NO_TASK_HANDLE};

verus! {

/// One object's data: its priority.
#[derive(Copy, Clone, Debug, PartialEq, Eq, Structural)]
pub struct ObjectDataTableEntry {
    pub priority: Priority,
}

/// Smallest slot: a 4-byte address and a 4-byte priority.
pub const MIN_OBJECT_DATA_SLOT_SIZE: usize = 8;

/// Object priorities by handle, and the classes the decoder has learned.
#[derive(Clone, Debug)]
pub struct ObjectDataTable {
    pub objects: HandleMap<ObjectDataTableEntry>,
    pub classes: HandleMap<ObjectClass>,
}

impl ObjectDataTable {
    pub open spec fn wf(&self) -> bool {
        self.objects.wf() && self.classes.wf()
    }

    /// A table holding only the startup task, priority 1.
    pub fn new() -> (r: Self)
        ensures
            r.wf(),
            r.objects@.dom() == set![NO_TASK_HANDLE],
            r.objects@[NO_TASK_HANDLE].priority == Priority(1),
            r.classes@ == Map::<u32, ObjectClass>::empty().insert(NO_TASK_HANDLE, ObjectClass::Task),
    {
        let mut objects = HandleMap::new();
        objects.insert(NO_TASK_HANDLE, ObjectDataTableEntry { priority: Priority(1) });
        let mut classes = HandleMap::new();
        classes.insert(NO_TASK_HANDLE, ObjectClass::Task);
        assert(objects@.dom() =~= set![NO_TASK_HANDLE]);
        ObjectDataTable { objects, classes }
    }

    pub fn insert(&mut self, handle: ObjectHandle, priority: Priority)
        requires
            old(self).wf(),
        ensures
            final(self).wf(),
            final(self).objects@ == old(self).objects@.insert(handle.id(), ObjectDataTableEntry { priority }),
            final(self).classes@ == old(self).classes@,
    {
        self.objects.insert(handle.get(), ObjectDataTableEntry { priority });
    }

    pub fn get(&self, handle: ObjectHandle) -> (r: Option<&ObjectDataTableEntry>)
        requires
            self.wf(),
        ensures
            match r {
                Some(x) => self.objects@.contains_key(handle.id()) && self.objects@[handle.id()] == *x,
                None => !self.objects@.contains_key(handle.id()),
            },
    {
        self.objects.get(handle.get())
    }

    pub fn update_class(&mut self, handle: ObjectHandle, class: ObjectClass)
        requires
            old(self).wf(),
        ensures
            final(self).wf(),
            final(self).classes@ == old(self).classes@.insert(handle.id(), class),
            final(self).objects@ == old(self).objects@,
    {
        self.classes.insert(handle.get(), class);
    }

    pub fn class(&self, handle: ObjectHandle) -> (r: Option<ObjectClass>)
        requires
            self.wf(),
        ensures
            r == if self.classes@.contains_key(handle.id()) {
                Some(self.classes@[handle.id()])
            } else {
                None
            },
    {
        match self.classes.get(handle.get()) {
            Some(c) => Some(*c),
            None => None,
        }
    }

    /// Decodes `count` slots of `size` bytes at `pos`: an address and a priority each.
    /// Slots with a zero address are skipped.
    pub fn read(data: &[u8], pos: usize, e: Endianness, size: usize, count: usize) -> (r: Result<(ObjectDataTable, usize), Error>)
        ensures
            count == 0 ==> (r matches Ok((t, np)) && np == pos && t.wf()),
            count != 0 && size < MIN_OBJECT_DATA_SLOT_SIZE ==> r == Err::<(ObjectDataTable, usize), Error>(
                Error::InvalidObjectDataTableSlotSize,
            ),
            r matches Ok((t, np)) ==> t.wf() && pos <= np,
            count != 0 && size >= MIN_OBJECT_DATA_SLOT_SIZE && pos + count * size <= data@.len() ==> (r matches Ok((_, np))
                && np == pos + count * size),
            count != 0 && size >= MIN_OBJECT_DATA_SLOT_SIZE && pos + count * size > data@.len() ==> r == Err::<(Self, usize), Error>(
                Error::Io,
            ),
    {
        let mut table = ObjectDataTable::new();
        if count == 0 {
            return Ok((table, pos));
        } else if size < MIN_OBJECT_DATA_SLOT_SIZE {
            return Err(Error::InvalidObjectDataTableSlotSize);
        }
        if pos > data.len() {
            return Err(Error::Io);
        }
        let mut p = pos;
        let mut k: usize = 0;
        while k < count
            invariant
                table.wf(),
                pos <= p,
                size >= MIN_OBJECT_DATA_SLOT_SIZE,
                k <= count,
                p == pos + k * size,
                p <= data@.len(),
            decreases count - k,
        {
            if p > data.len() || data.len() - p < size {
                proof {
                    assert(pos + count * size >= pos + k * size + size) by (nonlinear_arith)
                        requires k < count;
                }
                return Err(Error::Io);
            }
            let address = read_u32(data, p, e).unwrap();
            let priority = Priority(read_u32(data, p + 4, e).unwrap());
            if let Some(h) = ObjectHandle::new(address) {
                table.insert(h, priority);
            }
            p = p + size;
            k += 1;
            assert(p == pos + k * size) by (nonlinear_arith)
                requires p == pos + (k - 1) * size + size;
        }
        Ok((table, p))
    }
}

} // verus!
