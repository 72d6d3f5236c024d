//! The symbol table of older streaming formats: symbols keyed by object address.
use vstd::prelude::*;
use vstd::slice::slice_subrange;
use crate::bytes::read_u32;
use crate::format::SymbolLookup;
use crate::handle_map::HandleMap;
use crate::streaming::error::Error;
use crate::types::{Endianness, ObjectHandle, SymbolString, TrimmedString, NO_TASK_HANDLE, STARTUP_TASK_NAME};

verus! {

/// Smallest slot: a 4-byte address and at least the terminating zero.
pub const MIN_SYMBOL_SLOT_SIZE: usize = 5;

/// One symbol.
#[derive(Clone, Debug, PartialEq, Eq)]
pub struct SymbolTableEntry {
    pub symbol: SymbolString,
}

/// Symbols keyed by object address (or by slot address for user event strings).
#[derive(Clone, Debug)]
pub struct SymbolTable {
    pub symbols: HandleMap<SymbolTableEntry>,
}

impl SymbolTable {
    pub closed spec fn wf(&self) -> bool {
        self.symbols.wf()
    }

    /// The entries by handle.
    pub open spec fn view(&self) -> Map<u32, SymbolTableEntry> {
        self.symbols@
    }

    /// A table holding only the startup task.
    pub fn new() -> (r: Self)
        ensures
            r.wf(),
            r.view().dom() == set![NO_TASK_HANDLE],
            r.view()[NO_TASK_HANDLE].symbol.0@ == STARTUP_TASK_NAME@,
    {
        let mut symbols = HandleMap::new();
        symbols.insert(NO_TASK_HANDLE, SymbolTableEntry { symbol: SymbolString(STARTUP_TASK_NAME.to_owned()) });
        assert(symbols@.dom() =~= set![NO_TASK_HANDLE]);
        SymbolTable { symbols }
    }

    pub fn insert(&mut self, handle: ObjectHandle, symbol: SymbolString)
        requires
            old(self).wf(),
        ensures
            final(self).wf(),
            final(self).view() == old(self).view().insert(handle.id(), SymbolTableEntry { symbol }),
    {
        self.symbols.insert(handle.get(), SymbolTableEntry { symbol });
    }

    pub fn get(&self, handle: ObjectHandle) -> (r: Option<&SymbolTableEntry>)
        requires
            self.wf(),
        ensures
            match r {
                Some(e) => self.view().contains_key(handle.id()) && self.view()[handle.id()] == *e,
                None => !self.view().contains_key(handle.id()),
            },
    {
        self.symbols.get(handle.get())
    }

    /// Decodes `symbol_count` slots of `symbol_size` bytes at `pos`: an address, then a
    /// zero-padded symbol. Slots with a zero address are skipped. An empty table needs no
    /// bytes; a slot too small for an address and a zero is refused.
    pub fn read(data: &[u8], pos: usize, e: Endianness, symbol_size: usize, symbol_count: usize) -> (r: Result<(SymbolTable, usize), Error>)
        ensures
            symbol_count == 0 ==> (r matches Ok((t, np)) && np == pos && t.wf()),
            symbol_count != 0 && symbol_size < MIN_SYMBOL_SLOT_SIZE ==> r == Err::<(SymbolTable, usize), Error>(
                Error::InvalidSymbolTableSlotSize,
            ),
            r matches Ok((t, np)) ==> t.wf() && pos <= np,
            symbol_count != 0 && symbol_size >= MIN_SYMBOL_SLOT_SIZE && pos + symbol_count * symbol_size <= data@.len() ==> (r matches Ok((_, np))
                && np == pos + symbol_count * symbol_size),
            symbol_count != 0 && symbol_size >= MIN_SYMBOL_SLOT_SIZE && pos + symbol_count * symbol_size > data@.len() ==> r == Err::<(Self, usize), Error>(
                Error::Io,
            ),
    {
        let mut table = SymbolTable::new();
        if symbol_count == 0 {
            return Ok((table, pos));
        } else if symbol_size < MIN_SYMBOL_SLOT_SIZE {
            return Err(Error::InvalidSymbolTableSlotSize);
        }
        if pos > data.len() {
            return Err(Error::Io);
        }
        let mut p = pos;
        let mut k: usize = 0;
        while k < symbol_count
            invariant
                table.wf(),
                pos <= p,
                symbol_size >= MIN_SYMBOL_SLOT_SIZE,
                k <= symbol_count,
                p == pos + k * symbol_size,
                p <= data@.len(),
            decreases symbol_count - k,
        {
            if p > data.len() || data.len() - p < symbol_size {
                proof {
                    assert(pos + symbol_count * symbol_size >= pos + k * symbol_size + symbol_size) by (nonlinear_arith)
                        requires k < symbol_count;
                }
                return Err(Error::Io);
            }
            let address = read_u32(data, p, e).unwrap();
            let raw = slice_subrange(data, p + 4, p + symbol_size);
            if let Some(h) = ObjectHandle::new(address) {
                table.insert(h, TrimmedString::from_raw(raw).into_symbol());
            }
            p = p + symbol_size;
            k += 1;
            assert(p == pos + k * symbol_size) by (nonlinear_arith)
                requires p == pos + (k - 1) * symbol_size + symbol_size;
        }
        Ok((table, p))
    }
}

impl SymbolLookup for SymbolTable {
    open spec fn symbol_map(&self) -> Map<u32, Seq<char>> {
        Map::new(|k: u32| self.view().contains_key(k), |k: u32| self.view()[k].symbol.0@)
    }

    open spec fn lookup_ready(&self) -> bool {
        self.wf()
    }

    fn symbol(&self, handle: ObjectHandle) -> (r: Option<&SymbolString>) {
        match self.get(handle) {
            Some(e) => Some(&e.symbol),
            None => None,
        }
    }
}

} // verus!
