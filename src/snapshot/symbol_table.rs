//! The snapshot symbol table: symbols keyed by their byte offset in the table.
use vstd::prelude::*;
use crate::format::SymbolLookup;
use crate::handle_map::HandleMap;
use crate::types::{ObjectHandle, SymbolString};

verus! {

/// Number of checksum chains heading the symbol table.
pub const NUM_LATEST_ENTRY_OF_CHECKSUMS: usize = 64;

/// Sum of the bytes of a sequence.
pub open spec fn byte_sum(s: Seq<u8>) -> nat
    decreases s.len(),
{
    if s.len() == 0 {
        0
    } else {
        byte_sum(s.drop_last()) + s.last() as nat
    }
}

/// The 6-bit checksum of a raw symbol: its byte sum, masked to six bits.
#[derive(Copy, Clone, Debug, PartialEq, Eq, Structural)]
pub struct SymbolCrc6(pub u8);

impl SymbolCrc6 {
    pub fn new(s: &[u8]) -> (r: Self)
        ensures
            r.0 == byte_sum(s@) % 64,
    {
        let mut crc: u32 = 0;
        let mut i: usize = 0;
        while i < s.len()
            invariant
                i <= s@.len(),
                crc == byte_sum(s@.take(i as int)) % 64,
            decreases s.len() - i,
        {
            assert(s@.take(i + 1).drop_last() =~= s@.take(i as int));
            crc = (crc + s[i] as u32) % 64;
            i += 1;
        }
        assert(s@.take(i as int) =~= s@);
        SymbolCrc6(crc as u8)
    }
}

/// One symbol: the channel it labels (for user event format strings), its checksum and
/// its text.
#[derive(Clone, Debug, PartialEq, Eq)]
pub struct SymbolTableEntry {
    pub channel_index: Option<ObjectHandle>,
    pub crc: SymbolCrc6,
    pub symbol: SymbolString,
}

/// Symbols keyed by the byte offset of their entry in the table.
#[derive(Clone, Debug)]
pub struct SymbolTable {
    pub symbols: HandleMap<SymbolTableEntry>,
}

impl SymbolTable {
    pub closed spec fn wf(&self) -> bool {
        self.symbols.wf()
    }

    /// The entries by offset.
    pub open spec fn view(&self) -> Map<u32, SymbolTableEntry> {
        self.symbols@
    }

    pub fn new() -> (r: Self)
        ensures
            r.wf(),
            r.view() == Map::<u32, SymbolTableEntry>::empty(),
    {
        SymbolTable { symbols: HandleMap::new() }
    }

    pub fn insert(&mut self, handle: ObjectHandle, channel_index: Option<ObjectHandle>, crc: SymbolCrc6, symbol: SymbolString)
        requires
            old(self).wf(),
        ensures
            final(self).wf(),
            final(self).view() == old(self).view().insert(
                handle.id(),
                SymbolTableEntry { channel_index, crc, symbol },
            ),
    {
        self.symbols.insert(handle.get(), SymbolTableEntry { channel_index, crc, symbol });
    }

    pub fn get(&self, handle: ObjectHandle) -> (r: Option<&SymbolTableEntry>)
        requires
            self.wf(),
        ensures
            match r {
                Some(e) => self.view().contains_key(handle.id()) && self.view()[handle.id()] == *e,
                None => !self.view().contains_key(handle.id()),
            },
    {
        self.symbols.get(handle.get())
    }
}

impl SymbolLookup for SymbolTable {
    open spec fn symbol_map(&self) -> Map<u32, Seq<char>> {
        Map::new(|k: u32| self.view().contains_key(k), |k: u32| self.view()[k].symbol.0@)
    }

    open spec fn lookup_ready(&self) -> bool {
        self.wf()
    }

    fn symbol(&self, handle: ObjectHandle) -> (r: Option<&SymbolString>) {
        match self.get(handle) {
            Some(e) => Some(&e.symbol),
            None => None,
        }
    }
}

} // verus!
