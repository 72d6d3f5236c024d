//! The streaming entry table: per-handle symbols, states and classes, seeded from the
//! header and updated by events.
use vstd::prelude::*;
use vstd::slice::slice_subrange;
use crate::bytes::{read_u32, u32_at};
use crate::format::SymbolLookup;
use crate::handle_map::{lemma_pairs_to_map_index, pairs_to_map, unique_keys, HandleMap};
use crate::streaming::error::Error;
use crate::text::trimmed_text;
use crate::types::{
    Endianness, Heap, ObjectClass, ObjectHandle, Priority, SymbolString, TrimmedString,
    NO_TASK_HANDLE, STARTUP_TASK_NAME, TZ_CTRL_TASK_NAME,
};

verus! {

/// Symbol of the entry whose states hold the system heap.
pub const SYSTEM_HEAP_SYMBOL: &'static str = "System Heap";

/// The smallest symbol size an entry table may declare.
pub const MIN_SYMBOL_SIZE: u32 = 1;

/// The number of state words an entry keeps.
pub const NUM_STATES: u32 = 3;

/// The state words of an entry: priority (or current heap), heap high-water mark, heap
/// maximum.
#[derive(Copy, Clone, Debug, PartialEq, Eq)]
pub struct EntryStates(pub [u32; 3]);

impl EntryStates {
    pub fn new(states: [u32; 3]) -> (r: Self)
        ensures
            r.0 == states,
    {
        EntryStates(states)
    }

    pub fn priority(&self) -> (r: Priority)
        ensures
            r.0 == self.0[0],
    {
        Priority(self.0[0])
    }

    pub fn set_priority(&mut self, priority: Priority)
        ensures
            final(self).0 == [priority.0, old(self).0[1], old(self).0[2]],
    {
        self.0 = [priority.0, self.0[1], self.0[2]];
    }

    pub fn heap_current(&self) -> (r: u32)
        ensures
            r == self.0[0],
    {
        self.0[0]
    }

    pub fn heap_high_water_mark(&self) -> (r: u32)
        ensures
            r == self.0[1],
    {
        self.0[1]
    }

    pub fn heap_max(&self) -> (r: u32)
        ensures
            r == self.0[2],
    {
        self.0[2]
    }
}

/// One entry of the table.
#[derive(Clone, Debug, PartialEq, Eq)]
pub struct Entry {
    pub symbol: Option<SymbolString>,
    pub options: u32,
    pub states: EntryStates,
    pub class: Option<ObjectClass>,
}

/// The text of an entry's symbol, if it has one.
pub open spec fn entry_symbol(e: Entry) -> Option<Seq<char>> {
    match e.symbol {
        Some(s) => Some(s.0@),
        None => None,
    }
}

/// An entry with nothing set.
pub open spec fn empty_entry() -> Entry {
    Entry { symbol: None, options: 0, states: EntryStates([0u32, 0, 0]), class: None }
}

impl Entry {
    /// An entry with nothing set.
    pub fn empty() -> (r: Self)
        ensures
            r == empty_entry(),
    {
        Entry { symbol: None, options: 0, states: EntryStates([0, 0, 0]), class: None }
    }

    pub fn set_symbol(&mut self, symbol: SymbolString)
        ensures
            final(self).symbol == Some(symbol),
            final(self).options == old(self).options,
            final(self).states == old(self).states,
            final(self).class == old(self).class,
    {
        self.symbol = Some(symbol);
    }

    pub fn set_class(&mut self, class: ObjectClass)
        ensures
            final(self).class == Some(class),
            final(self).options == old(self).options,
            final(self).states == old(self).states,
            final(self).symbol == old(self).symbol,
    {
        self.class = Some(class);
    }
}

/// The seeded entry of the startup task.
pub open spec fn is_startup_entry(e: Entry) -> bool {
    &&& entry_symbol(e) == Some(STARTUP_TASK_NAME@)
    &&& e.options == 0
    &&& e.states.0 == [1u32, 0, 0]
    &&& e.class == Some(ObjectClass::Task)
}

/// Handle to entry map, keyed by object address (or by the address of the entry slot,
/// for user event strings).
#[derive(Clone, Debug)]
pub struct EntryTable {
    entries: HandleMap<Entry>,
}

impl View for EntryTable {
    type V = Map<u32, Entry>;

    closed spec fn view(&self) -> Map<u32, Entry> {
        self.entries@
    }
}

/// The entry holds the symbol and, when a class is asked for, that class.
pub open spec fn entry_matches(e: Entry, symbol: Seq<char>, class: Option<ObjectClass>) -> bool {
    &&& entry_symbol(e) == Some(symbol)
    &&& match class {
        None => true,
        Some(c) => e.class == Some(c),
    }
}

impl EntryTable {
    /// The handles are unique and non-zero.
    pub closed spec fn wf(&self) -> bool {
        &&& self.entries.wf()
        &&& !self.entries@.contains_key(0)
    }

    /// A table that holds only the startup task.
    pub fn new() -> (r: Self)
        ensures
            r.wf(),
            r@.dom() == set![NO_TASK_HANDLE],
            is_startup_entry(r@[NO_TASK_HANDLE]),
    {
        let mut entries = HandleMap::new();
        let startup = Entry {
            symbol: Some(SymbolString(STARTUP_TASK_NAME.to_owned())),
            options: 0,
            states: EntryStates([1, 0, 0]),
            class: Some(ObjectClass::Task),
        };
        entries.insert(NO_TASK_HANDLE, startup);
        let r = EntryTable { entries };
        assert(r@.dom() =~= set![NO_TASK_HANDLE]);
        r
    }

    /// The entries, by handle.
    pub fn entries(&self) -> (r: &HandleMap<Entry>)
        ensures
            r@ == self@,
    {
        &self.entries
    }

    pub fn symbol(&self, handle: ObjectHandle) -> (r: Option<&SymbolString>)
        requires
            self.wf(),
        ensures
            match r {
                Some(s) => self@.contains_key(handle.id()) && self@[handle.id()].symbol == Some(*s),
                None => !self@.contains_key(handle.id()) || self@[handle.id()].symbol.is_none(),
            },
    {
        match self.entries.get(handle.get()) {
            Some(e) => match &e.symbol {
                Some(s) => Some(s),
                None => None,
            },
            None => None,
        }
    }

    pub fn class(&self, handle: ObjectHandle) -> (r: Option<ObjectClass>)
        requires
            self.wf(),
        ensures
            r == if self@.contains_key(handle.id()) {
                self@[handle.id()].class
            } else {
                None
            },
    {
        match self.entries.get(handle.get()) {
            Some(e) => e.class,
            None => None,
        }
    }

    /// The entry under `handle`, created empty when there is none.
    pub fn entry(&mut self, handle: ObjectHandle) -> (r: &mut Entry)
        requires
            old(self).wf(),
        ensures
            *r == if old(self)@.contains_key(handle.id()) {
                old(self)@[handle.id()]
            } else {
                empty_entry()
            },
            final(self).wf(),
            final(self)@ == old(self)@.insert(handle.id(), *final(r)),
    {
        let h = handle.get();
        self.entries.entry_or(h, Entry::empty())
    }

    /// The smallest handle whose entry holds `symbol` (and `class`, when given).
    pub fn symbol_handle(&self, symbol: &str, class: Option<ObjectClass>) -> (r: Option<ObjectHandle>)
        requires
            self.wf(),
        ensures
            match r {
                Some(h) => self@.contains_key(h.id()) && entry_matches(self@[h.id()], symbol@, class)
                    && forall|k: u32| #[trigger] self@.contains_key(k) && entry_matches(self@[k], symbol@, class)
                        ==> h.id() <= k,
                None => forall|k: u32| #[trigger] self@.contains_key(k) ==> !entry_matches(
                    self@[k],
                    symbol@,
                    class,
                ),
            },
    {
        let pairs = self.entries.pairs();
        proof {
            lemma_pairs_to_map_index(pairs@);
        }
        let target = symbol.to_owned();
        let mut best: Option<u32> = None;
        let mut i: usize = 0;
        while i < pairs.len()
            invariant
                unique_keys(pairs@),
                pairs_to_map(pairs@) == self@,
                !self@.contains_key(0),
                i <= pairs@.len(),
                target@ == symbol@,
                forall|j: int| 0 <= j < pairs@.len() ==> #[trigger] self@.contains_key(pairs@[j].0)
                    && self@[pairs@[j].0] == pairs@[j].1,
                forall|k: u32| #[trigger] self@.contains_key(k) ==> exists|j: int|
                    0 <= j < pairs@.len() && pairs@[j].0 == k,
                match best {
                    Some(b) => self@.contains_key(b) && entry_matches(self@[b], symbol@, class)
                        && forall|j: int| 0 <= j < i && #[trigger] entry_matches(pairs@[j].1, symbol@, class)
                            ==> b <= pairs@[j].0,
                    None => forall|j: int| 0 <= j < i ==> !#[trigger] entry_matches(pairs@[j].1, symbol@, class),
                },
            decreases pairs.len() - i,
        {
            let (h, e) = (&pairs[i].0, &pairs[i].1);
            let sym_match = match &e.symbol {
                Some(s) => s.0 == target,
                None => false,
            };
            let class_match = match class {
                None => true,
                Some(c) => match e.class {
                    Some(ec) => ec == c,
                    None => false,
                },
            };
            assert(self@.contains_key(pairs@[i as int].0));
            assert(sym_match && class_match <==> entry_matches(pairs@[i as int].1, symbol@, class));
            if sym_match && class_match {
                match best {
                    Some(b) => if *h < b {
                        best = Some(*h);
                    },
                    None => {
                        best = Some(*h);
                    },
                }
            }
            i += 1;
        }
        match best {
            Some(b) => {
                proof {
                    assert forall|k: u32| #[trigger] self@.contains_key(k) && entry_matches(self@[k], symbol@, class)
                        implies b <= k by {
                        let j = choose|j: int| 0 <= j < pairs@.len() && pairs@[j].0 == k;
                        assert(self@[pairs@[j].0] == pairs@[j].1);
                    }
                }
                ObjectHandle::new(b)
            },
            None => {
                proof {
                    assert forall|k: u32| #[trigger] self@.contains_key(k) implies !entry_matches(
                        self@[k],
                        symbol@,
                        class,
                    ) by {
                        let j = choose|j: int| 0 <= j < pairs@.len() && pairs@[j].0 == k;
                        assert(self@[pairs@[j].0] == pairs@[j].1);
                    }
                }
                None
            },
        }
    }
}

/// The heap that an entry's states describe.
pub open spec fn heap_of_states(st: EntryStates) -> Heap {
    Heap { current: st.0[0], high_water_mark: st.0[1], max: st.0[2] }
}

impl EntryTable {
    /// The heap held by the entry named "System Heap" (the smallest such handle), if any.
    pub fn system_heap(&self) -> (r: Option<Heap>)
        requires
            self.wf(),
        ensures
            match r {
                Some(heap) => exists|k: u32| #[trigger] self@.contains_key(k) && entry_matches(
                    self@[k],
                    SYSTEM_HEAP_SYMBOL@,
                    None,
                ) && heap == heap_of_states(self@[k].states) && forall|j: u32|
                    #[trigger] self@.contains_key(j) && entry_matches(self@[j], SYSTEM_HEAP_SYMBOL@, None)
                        ==> k <= j,
                None => forall|k: u32| #[trigger] self@.contains_key(k) ==> !entry_matches(
                    self@[k],
                    SYSTEM_HEAP_SYMBOL@,
                    None,
                ),
            },
    {
        match self.symbol_handle(SYSTEM_HEAP_SYMBOL, None) {
            None => None,
            Some(h) => match self.entries.get(h.get()) {
                Some(e) => Some(
                    Heap {
                        current: e.states.heap_current(),
                        high_water_mark: e.states.heap_high_water_mark(),
                        max: e.states.heap_max(),
                    },
                ),
                None => None,
            },
        }
    }
}

/// The symbols of a table's entries, by handle.
pub open spec fn entry_symbols(t: Map<u32, Entry>) -> Map<u32, Seq<char>> {
    Map::new(|k: u32| t.contains_key(k) && t[k].symbol is Some, |k: u32| t[k].symbol.unwrap().0@)
}

impl SymbolLookup for EntryTable {
    open spec fn symbol_map(&self) -> Map<u32, Seq<char>> {
        entry_symbols(self@)
    }

    open spec fn lookup_ready(&self) -> bool {
        self.wf()
    }

    fn symbol(&self, handle: ObjectHandle) -> (r: Option<&SymbolString>) {
        match self.entries.get(handle.get()) {
            Some(e) => match &e.symbol {
                Some(s) => Some(s),
                None => None,
            },
            None => None,
        }
    }
}

/// Size in bytes of one entry record: address, state words, options, symbol.
pub open spec fn entry_record_size(symbol_size: u32, state_count: u32) -> int {
    4 + 4 * state_count + 4 + symbol_size
}

/// Start of the `i`-th record after `base`.
pub open spec fn record_pos(base: int, i: int, size: int) -> int {
    base + i * size
}

/// The address of the record at `rp`.
pub open spec fn record_address(data: Seq<u8>, rp: int, e: Endianness) -> u32 {
    u32_at(data, rp, e)
}

/// The entry holds what the record at `rp` says: its first three state words, its
/// options, its symbol (none when empty) and, for the recorder's control task, the task
/// class.
pub open spec fn record_matches(
    entry: Entry,
    data: Seq<u8>,
    rp: int,
    e: Endianness,
    symbol_size: u32,
    state_count: u32,
) -> bool {
    let sp = rp + 4 + 4 * state_count + 4;
    let t = trimmed_text(data.subrange(sp, sp + symbol_size));
    &&& entry.states.0 == [u32_at(data, rp + 4, e), u32_at(data, rp + 8, e), u32_at(data, rp + 12, e)]
    &&& entry.options == u32_at(data, rp + 4 + 4 * state_count, e)
    &&& entry_symbol(entry) == if t.len() == 0 {
        None::<Seq<char>>
    } else {
        Some(t)
    }
    &&& entry.class == if t == TZ_CTRL_TASK_NAME@ {
        Some(ObjectClass::Task)
    } else {
        None
    }
}

/// The table holds exactly the startup task and the first `k` records with a non-zero
/// address, the last record for each address winning.
pub open spec fn table_after_records(
    t: Map<u32, Entry>,
    data: Seq<u8>,
    base: int,
    k: int,
    e: Endianness,
    symbol_size: u32,
    state_count: u32,
) -> bool {
    let rs = entry_record_size(symbol_size, state_count);
    &&& forall|a: u32| #[trigger] t.contains_key(a) <==> (a == NO_TASK_HANDLE || (a != 0 && exists|i: int|
        0 <= i < k && record_address(data, record_pos(base, i, rs), e) == a))
    &&& forall|i: int|
        0 <= i < k && #[trigger] record_address(data, record_pos(base, i, rs), e) != 0 && (forall|j: int|
            i < j < k ==> record_address(data, record_pos(base, j, rs), e) != record_address(
                data,
                record_pos(base, i, rs),
                e,
            )) ==> record_matches(
            t[record_address(data, record_pos(base, i, rs), e)],
            data,
            record_pos(base, i, rs),
            e,
            symbol_size,
            state_count,
        )
    &&& (forall|i: int| 0 <= i < k ==> record_address(data, #[trigger] record_pos(base, i, rs), e)
        != NO_TASK_HANDLE) ==> is_startup_entry(t[NO_TASK_HANDLE])
}

/// What decoding an entry table at `pos` gives: the error, or the position after it
/// (the table itself is described by `table_after_records`).
pub open spec fn entry_table_outcome(data: Seq<u8>, pos: int, e: Endianness) -> Result<int, Error> {
    if pos + 12 > data.len() {
        Err(Error::Io)
    } else {
        let n = u32_at(data, pos, e);
        let symbol_size = u32_at(data, pos + 4, e);
        let state_count = u32_at(data, pos + 8, e);
        if symbol_size < MIN_SYMBOL_SIZE {
            Err(Error::InvalidEntryTableSymbolSize)
        } else if state_count < NUM_STATES {
            Err(Error::InvalidEntryTableStateCount)
        } else if pos + 12 + n * entry_record_size(symbol_size, state_count) > data.len() {
            Err(Error::Io)
        } else {
            Ok(pos + 12 + n * entry_record_size(symbol_size, state_count))
        }
    }
}

proof fn lemma_table_step(
    old_t: Map<u32, Entry>,
    new_t: Map<u32, Entry>,
    data: Seq<u8>,
    base: int,
    k: int,
    e: Endianness,
    symbol_size: u32,
    state_count: u32,
)
    requires
        0 <= k,
        table_after_records(old_t, data, base, k, e, symbol_size, state_count),
        ({
            let rp = record_pos(base, k, entry_record_size(symbol_size, state_count));
            let a = record_address(data, rp, e);
            if a == 0 {
                new_t == old_t
            } else {
                new_t == old_t.insert(a, new_t[a]) && record_matches(
                    new_t[a],
                    data,
                    rp,
                    e,
                    symbol_size,
                    state_count,
                )
            }
        }),
    ensures
        table_after_records(new_t, data, base, k + 1, e, symbol_size, state_count),
{
    let rs = entry_record_size(symbol_size, state_count);
    let a = record_address(data, record_pos(base, k, rs), e);
    assert forall|x: u32| #[trigger] new_t.contains_key(x) <==> (x == NO_TASK_HANDLE || (x != 0
        && exists|i: int| 0 <= i < k + 1 && record_address(data, record_pos(base, i, rs), e) == x)) by {
        if x != 0 && x == a {
            assert(record_address(data, record_pos(base, k, rs), e) == x);
        }
        if x != a && x != 0 && (exists|i: int| 0 <= i < k + 1 && record_address(data, record_pos(base, i, rs), e) == x) {
            let i = choose|i: int| 0 <= i < k + 1 && record_address(data, record_pos(base, i, rs), e) == x;
            assert(i < k);
        }
    }
    assert forall|i: int|
        0 <= i < k + 1 && #[trigger] record_address(data, record_pos(base, i, rs), e) != 0 && (forall|j: int|
            i < j < k + 1 ==> record_address(data, record_pos(base, j, rs), e) != record_address(
                data,
                record_pos(base, i, rs),
                e,
            )) implies record_matches(
            new_t[record_address(data, record_pos(base, i, rs), e)],
            data,
            record_pos(base, i, rs),
            e,
            symbol_size,
            state_count,
        ) by {
        if i < k {
            assert(record_address(data, record_pos(base, k, rs), e) != record_address(data, record_pos(base, i, rs), e));
        }
    }
    if forall|i: int| 0 <= i < k + 1 ==> record_address(data, #[trigger] record_pos(base, i, rs), e)
        != NO_TASK_HANDLE {
        assert(record_address(data, record_pos(base, k, rs), e) != NO_TASK_HANDLE);
    }
}

impl EntryTable {
    /// Decodes the entry table at `pos`: entry count, symbol size, state count, then the
    /// records. Records with a zero address are skipped. Returns the table and the
    /// position after it.
    pub fn read(data: &[u8], pos: usize, e: Endianness) -> (r: Result<(EntryTable, usize), Error>)
        ensures
            match entry_table_outcome(data@, pos as int, e) {
                Err(x) => r == Err::<(EntryTable, usize), Error>(x),
                Ok(end) => r matches Ok((t, np)) && np == end && t.wf() && table_after_records(
                    t@,
                    data@,
                    pos + 12,
                    u32_at(data@, pos as int, e) as int,
                    e,
                    u32_at(data@, pos + 4, e),
                    u32_at(data@, pos + 8, e),
                ),
            },
    {
        let n = match read_u32(data, pos, e) {
            Some(v) => v,
            None => return Err(Error::Io),
        };
        let symbol_size = match read_u32(data, pos + 4, e) {
            Some(v) => v,
            None => return Err(Error::Io),
        };
        let state_count = match read_u32(data, pos + 8, e) {
            Some(v) => v,
            None => return Err(Error::Io),
        };
        if symbol_size < MIN_SYMBOL_SIZE {
            return Err(Error::InvalidEntryTableSymbolSize);
        }
        if state_count < NUM_STATES {
            return Err(Error::InvalidEntryTableStateCount);
        }
        let rs: u64 = 4 + 4 * state_count as u64 + 4 + symbol_size as u64;
        let ghost rsi = entry_record_size(symbol_size, state_count);
        let ghost base = pos + 12;
        let mut table = EntryTable::new();
        let mut p: usize = pos + 12;
        let mut k: u32 = 0;
        while k < n
            invariant
                rs == rsi,
                rsi == entry_record_size(symbol_size, state_count),
                rsi >= 20,
                base == pos + 12,
                k <= n,
                p == record_pos(base, k as int, rsi),
                p <= data@.len(),
                n == u32_at(data@, pos as int, e),
                symbol_size == u32_at(data@, pos + 4, e),
                state_count == u32_at(data@, pos + 8, e),
                symbol_size >= 1,
                state_count >= 3,
                table.wf(),
                table_after_records(table@, data@, base, k as int, e, symbol_size, state_count),
            decreases n - k,
        {
            if ((data.len() - p) as u64) < rs {
                proof {
                    assert(data@.len() < p + rsi);
                    assert(base + n * rsi >= base + k * rsi + rsi) by (nonlinear_arith)
                        requires k < n, rsi >= 0;
                    assert(pos + 12 + n * entry_record_size(symbol_size, state_count) > data@.len());
                }
                return Err(Error::Io);
            }
            let address = read_u32(data, p, e).unwrap();
            let s0 = read_u32(data, p + 4, e).unwrap();
            let s1 = read_u32(data, p + 8, e).unwrap();
            let s2 = read_u32(data, p + 12, e).unwrap();
            let op = p + 4 + 4 * state_count as usize;
            let options = read_u32(data, op, e).unwrap();
            let sp = op + 4;
            let raw = slice_subrange(data, sp, sp + symbol_size as usize);
            let ghost old_table = table@;
            if address != 0 {
                let symbol = TrimmedString::from_raw(raw).into_symbol();
                let tz = symbol.0 == TZ_CTRL_TASK_NAME.to_owned();
                let empty = symbol.0 == String::new();
                let entry = Entry {
                    symbol: if empty { None } else { Some(symbol) },
                    options,
                    states: EntryStates([s0, s1, s2]),
                    class: if tz { Some(ObjectClass::Task) } else { None },
                };
                proof {
                    assert(raw@ == data@.subrange(sp as int, sp + symbol_size));
                    let t = trimmed_text(data@.subrange(sp as int, sp + symbol_size));
                    assert(t.len() == 0 ==> t =~= Seq::<char>::empty());
                    assert(record_matches(entry, data@, p as int, e, symbol_size, state_count));
                }
                table.entries.insert(address, entry);
                assert(table@ == old_table.insert(address, table@[address]));
            }
            proof {
                lemma_table_step(old_table, table@, data@, base, k as int, e, symbol_size, state_count);
            }
            let ghost rp = p as int;
            p = p + rs as usize;
            k = k + 1;
            proof {
                assert(p == record_pos(base, k as int, rsi)) by (nonlinear_arith)
                    requires p == rp + rsi, rp == record_pos(base, k - 1, rsi),
                        record_pos(base, k - 1, rsi) == base + (k - 1) * rsi,
                        record_pos(base, k as int, rsi) == base + k * rsi;
            }
        }
        Ok((table, p))
    }
}

} // verus!
