//! Locating and decoding a snapshot memory image.
use vstd::prelude::*;
use vstd::slice::slice_subrange;
use crate::bytes::{read_u16, read_u32, u32_at};
use crate::snapshot::error::Error;
use crate::snapshot::event::{EventRecord, EventType};
use crate::snapshot::events::Event;
use crate::snapshot::markers::{debug_marker_word, marker_at, DebugMarker, MarkerBytes};
use crate::text::trimmed_text;
use crate::snapshot::object_properties::{ObjectProperties, ObjectPropertyTable};
use crate::snapshot::parser::{parse_post, EventParser, ParseError};
use crate::snapshot::symbol_table::{SymbolCrc6, SymbolTable};
use crate::time::Frequency;
use crate::types::{
    spec_endianness, spec_float_encoding, spec_port_identity, Endianness, FloatEncoding, KernelPortIdentity,
    KernelVersion, ObjectClass, ObjectHandle, Protocol, TrimmedString,
};

verus! {

/// Bytes of the system information string.
pub const NUM_SYSTEM_INFO_BYTES: usize = 80;

/// `n` rounded up to a multiple of two.
pub fn round_up_nearest_2(n: u32) -> (r: u64)
    ensures
        r == 2 * ((n + 1) / 2),
        r % 2 == 0,
        n <= r < n + 2,
{
    2 * ((n as u64 + 1) / 2)
}

/// `n` rounded up to a multiple of four.
pub fn round_up_nearest_4(n: u32) -> (r: u64)
    ensures
        r == 4 * ((n + 3) / 4),
        r % 4 == 0,
        n <= r < n + 4,
{
    4 * ((n as u64 + 3) / 4)
}

/// Reads one byte at `*p` and moves past it.
fn take_u8(data: &[u8], p: &mut usize) -> (r: Result<u8, Error>)
    ensures
        *old(p) < data@.len() ==> r == Ok::<u8, Error>(data@[*old(p) as int]) && *final(p) == *old(p) + 1,
        *old(p) >= data@.len() ==> r == Err::<u8, Error>(Error::Io),
        r is Ok ==> *final(p) <= data@.len(),
{
    if *p < data.len() {
        let b = data[*p];
        *p = *p + 1;
        Ok(b)
    } else {
        Err(Error::Io)
    }
}

/// Reads a 16-bit value at `*p` and moves past it.
fn take_u16(data: &[u8], p: &mut usize, e: Endianness) -> (r: Result<u16, Error>)
    ensures
        r is Ok ==> *final(p) == *old(p) + 2 && *final(p) <= data@.len(),
        old(p) + 2 > data@.len() ==> r == Err::<u16, Error>(Error::Io),
        old(p) + 2 <= data@.len() ==> r is Ok,
{
    match read_u16(data, *p, e) {
        Some(v) => {
            *p = *p + 2;
            Ok(v)
        },
        None => Err(Error::Io),
    }
}

/// Reads a 32-bit value at `*p` and moves past it.
fn take_u32(data: &[u8], p: &mut usize, e: Endianness) -> (r: Result<u32, Error>)
    ensures
        r matches Ok(v) ==> v == u32_at(data@, *old(p) as int, e) && *final(p) == *old(p) + 4
            && *final(p) <= data@.len(),
        old(p) + 4 > data@.len() ==> r == Err::<u32, Error>(Error::Io),
        old(p) + 4 <= data@.len() ==> r is Ok,
{
    match read_u32(data, *p, e) {
        Some(v) => {
            *p = *p + 4;
            Ok(v)
        },
        None => Err(Error::Io),
    }
}

/// Moves `*p` forward by `n` bytes, which must lie within the data.
fn skip(data: &[u8], p: &mut usize, n: u64) -> (r: Result<(), Error>)
    ensures
        r is Ok ==> *final(p) == *old(p) + n && *final(p) <= data@.len(),
        old(p) + n > data@.len() ==> r is Err,
{
    if *p > data.len() || ((data.len() - *p) as u64) < n {
        return Err(Error::Io);
    }
    *p = *p + n as usize;
    Ok(())
}

/// Copies `n` bytes at `*p` and moves past them.
fn take_bytes<'a>(data: &'a [u8], p: &mut usize, n: usize) -> (r: Result<&'a [u8], Error>)
    ensures
        r matches Ok(b) ==> b@ == data@.subrange(*old(p) as int, old(p) + n) && *final(p) == *old(p) + n
            && *final(p) <= data@.len(),
        old(p) + n > data@.len() ==> r is Err,
{
    if *p > data.len() || data.len() - *p < n {
        return Err(Error::Io);
    }
    let b = slice_subrange(data, *p, *p + n);
    *p = *p + n;
    Ok(b)
}

/// Byte `i` of a per-class array, or zero past its end.
fn class_byte(v: &[u8], i: usize) -> (r: u8)
    ensures
        i < v@.len() ==> r == v@[i as int],
        i >= v@.len() ==> r == 0,
{
    if i < v.len() {
        v[i]
    } else {
        0
    }
}

/// Adds an object to the map of its class.
fn insert_object(table: &mut ObjectPropertyTable, class: ObjectClass, handle: u32, name: Option<String>, properties: [u8; 4])
    requires
        old(table).wf(),
    ensures
        final(table).wf(),
{
    match class {
        ObjectClass::Queue => table.queue_object_properties.insert(handle, ObjectProperties::new(name, properties)),
        ObjectClass::Semaphore => table.semaphore_object_properties.insert(handle, ObjectProperties::new(name, properties)),
        ObjectClass::Mutex => table.mutex_object_properties.insert(handle, ObjectProperties::new(name, properties)),
        ObjectClass::Task => table.task_object_properties.insert(handle, ObjectProperties::new(name, properties)),
        ObjectClass::Isr => table.isr_object_properties.insert(handle, ObjectProperties::new(name, properties)),
        ObjectClass::Timer => table.timer_object_properties.insert(handle, ObjectProperties::new(name, properties)),
        ObjectClass::EventGroup => table.event_group_object_properties.insert(handle, ObjectProperties::new(name, properties)),
        ObjectClass::StreamBuffer => table.stream_buffer_object_properties.insert(handle, ObjectProperties::new(name, properties)),
        ObjectClass::MessageBuffer => table.message_buffer_object_properties.insert(handle, ObjectProperties::new(name, properties)),
        ObjectClass::StateMachine => {},
    }
}

/// Index of the first zero byte at or after `i`, or the length when there is none.
pub open spec fn first_zero_from(data: Seq<u8>, i: int) -> int
    decreases data.len() - i,
{
    if i < 0 || i >= data.len() {
        data.len() as int
    } else if data[i] == 0 {
        i
    } else {
        first_zero_from(data, i + 1)
    }
}

/// Where the symbol entries end, walking from `p`: each entry has two 16-bit indices, a
/// zero-terminated symbol and one more byte, and must not sit at offset zero (modulo
/// 2^16) of the table. `None` when an entry runs past the data or sits at offset zero.
pub open spec fn symbol_walk(data: Seq<u8>, start: int, entries: int, p: int) -> Option<int>
    decreases data.len() - p,
{
    if p - start >= entries {
        Some(p)
    } else if p < start || p + 4 > data.len() {
        None
    } else {
        let z = first_zero_from(data, p + 4);
        if z < p + 4 || z + 1 >= data.len() || (p - start) % 0x1_0000 == 0 {
            None
        } else {
            symbol_walk(data, start, entries, z + 2)
        }
    }
}

/// Where the symbol table at `pos` ends (after its rounded-up region and the 64 checksum
/// chain heads), `None` when it does not decode.
pub open spec fn symbol_table_end(data: Seq<u8>, pos: int, e: Endianness) -> Option<int> {
    if pos + 9 > data.len() {
        None
    } else {
        let size = u32_at(data, pos, e) as int;
        let entries = u32_at(data, pos + 4, e) as int;
        let start = pos + 8;
        match symbol_walk(data, start, entries, start + 1) {
            None => None,
            Some(pe) => {
                let region = 4 * ((size + 3) / 4);
                if region < pe - start || start + region + 128 > data.len() {
                    None
                } else {
                    Some(start + region + 128)
                }
            },
        }
    }
}

/// Decodes the object property table at `pos`: the class count and table size, the
/// per-class arrays (object counts, name lengths, bytes per object, start indices), then
/// each class's objects. Handles count from 1 per class; empty slots (first name byte
/// zero) are skipped and a first name byte of 1 means "unnamed". The region is consumed
/// up to its rounded-up size.
fn read_object_property_table(data: &[u8], pos: usize, e: Endianness) -> (r: Result<(ObjectPropertyTable, usize), Error>)
    ensures
        r matches Ok((t, np)) ==> t.wf() && pos <= np <= data@.len(),
{
    let mut p = pos;
    let num_object_classes = take_u32(data, &mut p, e)?;
    let object_property_table_size = take_u32(data, &mut p, e)?;
    let u16_words = round_up_nearest_2(num_object_classes);
    let u8_words = round_up_nearest_4(num_object_classes);
    if u8_words > 0xFFFF_FFFF {
        return Err(Error::Io);
    }
    let num_objects_per_class = take_bytes(data, &mut p, u8_words as usize)?;
    let name_len_per_class = take_bytes(data, &mut p, u8_words as usize)?;
    let total_bytes_per_class = take_bytes(data, &mut p, u8_words as usize)?;
    skip(data, &mut p, 2 * u16_words)?;
    let pos_at_prop_table = p;
    let mut table = ObjectPropertyTable::new();
    let classes = ObjectClass::enumerate();
    let mut ci: usize = 0;
    while ci < classes.len()
        invariant
            table.wf(),
            pos <= pos_at_prop_table <= p <= data@.len(),
            ci <= classes@.len(),
        decreases classes.len() - ci,
    {
        let class = classes[ci];
        let index = class.into_usize();
        let num_objects = class_byte(num_objects_per_class, index);
        let name_len = class_byte(name_len_per_class, index);
        let total_bytes = class_byte(total_bytes_per_class, index);
        ci += 1;
        if total_bytes == 0 {
            continue;
        }
        assert(total_bytes as u64 * num_objects as u64 <= 255 * 255) by (nonlinear_arith)
            requires total_bytes <= 255, num_objects <= 255;
        let class_bytes: u64 = total_bytes as u64 * num_objects as u64;
        if index as u32 >= num_object_classes {
            skip(data, &mut p, class_bytes)?;
            continue;
        }
        let class_start = p;
        let mut raw_handle: u32 = 1;
        while ((p - class_start) as u64) < class_bytes
            invariant
                table.wf(),
                pos <= pos_at_prop_table <= class_start <= p <= data@.len(),
                raw_handle >= 1,
                total_bytes > 0,
            decreases data@.len() - p,
        {
            if name_len == 0 {
                skip(data, &mut p, total_bytes as u64)?;
                continue;
            }
            let obj_start = p;
            let name_bytes = take_bytes(data, &mut p, name_len as usize)?;
            if name_bytes[0] == 0 {
                let rest: u64 = if total_bytes >= name_len { (total_bytes - name_len) as u64 } else { 0 };
                skip(data, &mut p, rest)?;
                continue;
            }
            let name = if name_bytes[0] == 1 {
                None
            } else {
                Some(TrimmedString::from_raw(name_bytes).0)
            };
            let size = class.properties_size();
            let mut properties: [u8; 4] = [0; 4];
            let mut k: usize = 0;
            while k < size
                invariant
                    k <= size <= 4,
                    pos <= pos_at_prop_table <= class_start <= obj_start < p <= data@.len(),
                decreases size - k,
            {
                let b = take_u8(data, &mut p)?;
                properties.set(k, b);
                k += 1;
            }
            insert_object(&mut table, class, raw_handle, name, properties);
            raw_handle = if raw_handle < u32::MAX { raw_handle + 1 } else { raw_handle };
        }
    }
    let read = (p - pos_at_prop_table) as u64;
    let alloc = round_up_nearest_4(object_property_table_size);
    if read < alloc {
        skip(data, &mut p, alloc - read)?;
    }
    Ok((table, p))
}

/// Decodes the symbol table at `pos`: its size, the bytes in use, a reserved zero byte,
/// then entries of next-entry index, channel index and a zero-terminated symbol followed
/// by one more byte. Each entry is keyed by its offset from the table's first byte. The
/// region, then the 64 checksum chain heads, are consumed.
fn read_symbol_table(data: &[u8], pos: usize, e: Endianness) -> (r: Result<(SymbolTable, usize), Error>)
    ensures
        r matches Ok((t, np)) ==> t.wf() && pos <= np <= data@.len(),
        match symbol_table_end(data@, pos as int, e) {
            Some(end) => r matches Ok((_, np)) && np == end,
            None => r is Err,
        },
{
    let mut p = pos;
    if pos > data.len() || data.len() - pos < 9 {
        return Err(Error::Io);
    }
    let symbol_table_size = take_u32(data, &mut p, e)?;
    let next_free_symbol_index = take_u32(data, &mut p, e)?;
    let start = p;
    let region = round_up_nearest_4(symbol_table_size);
    let entries = next_free_symbol_index as u64;
    let _reserved = take_u8(data, &mut p)?;
    let mut table = SymbolTable::new();
    while ((p - start) as u64) < entries
        invariant
            table.wf(),
            pos <= start < p <= data@.len(),
            start == pos + 8,
            entries == u32_at(data@, pos + 4, e),
            region == 4 * ((u32_at(data@, pos as int, e) + 3) / 4),
            symbol_walk(data@, start as int, entries as int, start + 1) == symbol_walk(
                data@,
                start as int,
                entries as int,
                p as int,
            ),
        decreases data@.len() - p,
    {
        let entry_start = p;
        if data.len() - p < 5 {
            proof {
                assert(symbol_walk(data@, start as int, entries as int, p as int) is None) by {
                    if p + 4 <= data@.len() {
                        assert(first_zero_from(data@, data@.len() as int) == data@.len());
                        assert(first_zero_from(data@, p + 4) >= data@.len() - 1);
                    }
                }
            }
            return Err(Error::Io);
        }
        let _next_entry_index = take_u16(data, &mut p, e).unwrap();
        let channel = take_u16(data, &mut p, e).unwrap();
        let sym_start = p;
        let mut b = take_u8(data, &mut p).unwrap();
        while b != 0
            invariant
                sym_start < p <= data@.len(),
                entry_start < sym_start,
                sym_start == entry_start + 4,
                start == pos + 8,
                entries == u32_at(data@, pos + 4, e),
                pos + 9 <= data@.len(),
                start < entry_start,
                entry_start - start < entries,
                symbol_walk(data@, start as int, entries as int, start + 1) == symbol_walk(
                    data@,
                    start as int,
                    entries as int,
                    entry_start as int,
                ),
                b == data@[p - 1],
                first_zero_from(data@, sym_start as int) == first_zero_from(data@, p - 1),
            decreases data@.len() - p,
        {
            if p >= data.len() {
                proof {
                    assert(first_zero_from(data@, p as int) == data@.len());
                    assert(first_zero_from(data@, p - 1) == data@.len());
                    assert(first_zero_from(data@, entry_start + 4) == data@.len());
                    assert(symbol_walk(data@, start as int, entries as int, entry_start as int) is None);
                }
                return Err(Error::Io);
            }
            b = take_u8(data, &mut p).unwrap();
        }
        let raw = slice_subrange(data, sym_start, p - 1);
        assert(first_zero_from(data@, sym_start as int) == p - 1);
        let _extra_null = take_u8(data, &mut p)?;
        let offset = ((entry_start - start) % 0x1_0000) as u32;
        let handle = match ObjectHandle::new(offset) {
            Some(h) => h,
            None => return Err(Error::InvalidSymbolTableIndex(entry_start as u64)),
        };
        let crc = SymbolCrc6::new(raw);
        let symbol = TrimmedString::from_raw(raw).into_symbol();
        table.insert(handle, ObjectHandle::new(channel as u32), crc, symbol);
    }
    assert(symbol_walk(data@, start as int, entries as int, p as int) == Some(p as int));
    if region < (p - start) as u64 || region > (data.len() - start) as u64 {
        return Err(Error::Io);
    }
    p = start + region as usize;
    if data.len() - p < 128 {
        return Err(Error::Io);
    }
    p = p + 128;
    Ok((table, p))
}

/// The first offset at which the start marker stands, if any.
pub open spec fn first_start_marker(data: Seq<u8>, at: int) -> bool {
    &&& marker_at(data, at, MarkerBytes::Start)
    &&& forall|i: int| 0 <= i < at ==> !#[trigger] marker_at(data, i, MarkerBytes::Start)
}

/// The decoded header and tables of a snapshot, with the location of its event ring.
#[derive(Debug)]
pub struct RecorderData {
    pub protocol: Protocol,
    pub kernel_version: KernelVersion,
    pub kernel_port: KernelPortIdentity,
    pub endianness: Endianness,
    pub minor_version: u8,
    pub irq_priority_order: u8,
    pub filesize: u32,
    pub num_events: u32,
    pub max_events: u32,
    pub next_free_index: u32,
    pub buffer_is_full: bool,
    pub frequency: Frequency,
    pub abs_time_last_event: u32,
    pub abs_time_last_event_second: u32,
    pub recorder_active: bool,
    pub isr_tail_chaining_threshold: u32,
    pub heap_mem_usage: u32,
    pub heap_mem_max_usage: u32,
    pub is_using_16bit_handles: bool,
    pub object_property_table: ObjectPropertyTable,
    pub symbol_table: SymbolTable,
    pub float_encoding: FloatEncoding,
    pub internal_error_occured: bool,
    pub system_info: String,
    pub start_offset: usize,
    pub event_data_offset: usize,
}

impl RecorderData {
    /// The tables are well formed and the event ring lies within `len` bytes.
    pub open spec fn wf(&self, len: nat) -> bool {
        &&& self.object_property_table.wf()
        &&& self.symbol_table.wf()
        &&& self.event_data_offset + 4 * self.max_events <= len
    }

    /// Finds the start marker and decodes the snapshot behind it.
    #[verifier::rlimit(100)]
    pub fn locate_and_parse(data: &[u8]) -> (r: Result<RecorderData, Error>)
        ensures
            r matches Ok(rd) ==> ({
                let s = rd.start_offset as int;
                let kv = [data@[s + 12], data@[s + 13]];
                &&& rd.wf(data@.len())
                &&& first_start_marker(data@, s)
                &&& rd.protocol == Protocol::Snapshot
                &&& rd.kernel_version == KernelVersion(kv)
                &&& spec_port_identity(kv) == Ok::<KernelPortIdentity, crate::types::InvalidKernelVersion>(rd.kernel_port)
                &&& spec_endianness(kv) == Ok::<Endianness, crate::types::InvalidKernelVersion>(rd.endianness)
                &&& rd.minor_version == data@[s + 14]
                &&& rd.irq_priority_order == data@[s + 15]
                &&& rd.filesize == u32_at(data@, s + 16, rd.endianness)
                &&& rd.num_events == u32_at(data@, s + 20, rd.endianness)
                &&& rd.max_events == u32_at(data@, s + 24, rd.endianness)
                &&& rd.next_free_index == u32_at(data@, s + 28, rd.endianness)
                &&& !rd.is_using_16bit_handles
            }),
            data@.len() < 12 ==> (r matches Err(Error::MarkerBytes(at, found, m)) && at == 0 && m
                == MarkerBytes::Start && found@ == data@ + Seq::new((12 - data@.len()) as nat, |i: int| 0u8)),
            data@.len() >= 12 && (forall|i: int| 0 <= i ==> !#[trigger] marker_at(data@, i, MarkerBytes::Start))
                ==> (r matches Err(Error::MarkerBytes(at, found, m)) && m == MarkerBytes::Start && at
                == data@.len() - 12 && found@ == data@.subrange(data@.len() - 12, data@.len() as int)),
            forall|s: int| #[trigger] first_start_marker(data@, s) && s + 14 <= data@.len()
                && spec_port_identity([data@[s + 12], data@[s + 13]]) is Err ==> r == Err::<RecorderData, Error>(
                Error::KernelVersion((s + 12) as u64, [data@[s + 12], data@[s + 13]]),
            ),
            forall|s: int| #[trigger] first_start_marker(data@, s) && s + 72 <= data@.len()
                && spec_endianness([data@[s + 12], data@[s + 13]]) is Ok && u32_at(data@, s + 64, Endianness::Little)
                == debug_marker_word(DebugMarker::Marker0) && u32_at(
                data@,
                s + 68,
                spec_endianness([data@[s + 12], data@[s + 13]]).unwrap(),
            ) != 0 ==> r == Err::<RecorderData, Error>(Error::Unsupported16bitHandles),
            r matches Ok(rd) ==> ({
                let q = rd.event_data_offset - 96;
                &&& 0 <= q
                &&& rd.float_encoding == spec_float_encoding(u32_at(data@, q, rd.endianness))
                &&& rd.internal_error_occured == (u32_at(data@, q + 4, rd.endianness) != 0)
                &&& u32_at(data@, q + 8, Endianness::Little) == debug_marker_word(DebugMarker::Marker2)
                &&& rd.system_info@ == trimmed_text(data@.subrange(q + 12, q + 92))
                &&& u32_at(data@, q + 92, Endianness::Little) == debug_marker_word(DebugMarker::Marker3)
            }),
    {
        if data.len() < 12 {
            let mut found: [u8; 12] = [0; 12];
            let mut k: usize = 0;
            while k < data.len()
                invariant
                    k <= data@.len() < 12,
                    found@.len() == 12,
                    forall|j: int| 0 <= j < k ==> found@[j] == data@[j],
                    forall|j: int| k <= j < 12 ==> found@[j] == 0,
                decreases data.len() - k,
            {
                found.set(k, data[k]);
                k += 1;
            }
            assert(found@ =~= data@ + Seq::new((12 - data@.len()) as nat, |i: int| 0u8));
            return Err(Error::MarkerBytes(0, found, MarkerBytes::Start));
        }
        let mut start: usize = 0;
        while !MarkerBytes::Start.matches_at(data, start)
            invariant
                start + 12 <= data@.len(),
                forall|i: int| 0 <= i < start ==> !#[trigger] marker_at(data@, i, MarkerBytes::Start),
            decreases data@.len() - start,
        {
            if data.len() - start == 12 {
                let mut found: [u8; 12] = [0; 12];
                let mut k: usize = 0;
                while k < 12
                    invariant
                        k <= 12,
                        start + 12 <= data.len(),
                        found@.len() == 12,
                        forall|j: int| 0 <= j < k ==> found@[j] == data@[start + j],
                    decreases 12 - k,
                {
                    found.set(k, data[start + k]);
                    k += 1;
                }
                assert(found@ =~= data@.subrange(data@.len() - 12, data@.len() as int));
                proof {
                    assert forall|i: int| 0 <= i implies !#[trigger] marker_at(data@, i, MarkerBytes::Start) by {
                        if i > start {
                            assert(i + 12 > data@.len());
                        }
                    }
                }
                return Err(Error::MarkerBytes(start as u64, found, MarkerBytes::Start));
            }
            start += 1;
        }
        proof {
            assert forall|x: int| #[trigger] first_start_marker(data@, x) implies x == start by {
                if x < start {
                    assert(!marker_at(data@, x, MarkerBytes::Start));
                }
                if start < x {
                    assert(!marker_at(data@, start as int, MarkerBytes::Start));
                }
            }
        }
        let mut p = MarkerBytes::Start.read(data, start)?;
        let kvi_pos = p;
        let kv0 = take_u8(data, &mut p)?;
        let kv1 = take_u8(data, &mut p)?;
        let kernel_version = KernelVersion([kv0, kv1]);
        let kernel_port = match kernel_version.port_identity() {
            Ok(k) => k,
            Err(x) => return Err(Error::KernelVersion(kvi_pos as u64, x.0)),
        };
        let endianness = match kernel_version.endianness() {
            Ok(x) => x,
            Err(x) => return Err(Error::KernelVersion(kvi_pos as u64, x.0)),
        };
        let e = endianness;
        let minor_version = take_u8(data, &mut p)?;
        let irq_priority_order = take_u8(data, &mut p)?;
        let filesize = take_u32(data, &mut p, e)?;
        let num_events = take_u32(data, &mut p, e)?;
        let max_events = take_u32(data, &mut p, e)?;
        let next_free_index = take_u32(data, &mut p, e)?;
        let buffer_is_full = take_u32(data, &mut p, e)?;
        let frequency = Frequency(take_u32(data, &mut p, e)?);
        let abs_time_last_event = take_u32(data, &mut p, e)?;
        let abs_time_last_event_second = take_u32(data, &mut p, e)?;
        let recorder_active = take_u32(data, &mut p, e)?;
        let isr_tail_chaining_threshold = take_u32(data, &mut p, e)?;
        let heap_mem_max_usage = take_u32(data, &mut p, e)?;
        let heap_mem_usage = take_u32(data, &mut p, e)?;
        p = DebugMarker::Marker0.read(data, p)?;
        let is_using_16bit_handles = take_u32(data, &mut p, e)? != 0;
        if is_using_16bit_handles {
            return Err(Error::Unsupported16bitHandles);
        }
        let (object_property_table, q) = read_object_property_table(data, p, e)?;
        p = DebugMarker::Marker1.read(data, q)?;
        let (symbol_table, q) = read_symbol_table(data, p, e)?;
        p = q;
        let float_encoding = FloatEncoding::from_bits(take_u32(data, &mut p, e)?);
        let internal_error_occured = take_u32(data, &mut p, e)? != 0;
        p = DebugMarker::Marker2.read(data, p)?;
        let system_info = TrimmedString::from_raw(take_bytes(data, &mut p, NUM_SYSTEM_INFO_BYTES)?).0;
        p = DebugMarker::Marker3.read(data, p)?;
        let event_data_offset = p;
        skip(data, &mut p, 4 * max_events as u64)?;
        let maybe_user_event_buffer_id = take_u16(data, &mut p, e)?;
        if maybe_user_event_buffer_id == 0 {
            let _end_of_secondary_blocks = take_u16(data, &mut p, e)?;
        } else {
            return Err(Error::UnsupportedUserEventBuffer);
        }
        let _end = MarkerBytes::End.read(data, p)?;
        Ok(RecorderData {
            protocol: Protocol::Snapshot,
            kernel_version,
            kernel_port,
            endianness,
            minor_version,
            irq_priority_order,
            filesize,
            num_events,
            max_events,
            next_free_index,
            buffer_is_full: buffer_is_full != 0,
            frequency,
            abs_time_last_event,
            abs_time_last_event_second,
            recorder_active: recorder_active != 0,
            isr_tail_chaining_threshold,
            heap_mem_usage,
            heap_mem_max_usage,
            is_using_16bit_handles,
            object_property_table,
            symbol_table,
            float_encoding,
            internal_error_occured,
            system_info,
            start_offset: start,
            event_data_offset,
        })
    }
}

/// Whether the ring has wrapped: it is full and the count is not a whole number of
/// laps.
pub open spec fn ring_wrapped(num_events: u32, max_events: u32) -> bool {
    max_events > 0 && num_events >= max_events && num_events % max_events != 0
}

/// How many records the ring yields.
pub open spec fn ring_len(num_events: u32, max_events: u32) -> int {
    if ring_wrapped(num_events, max_events) {
        max_events as int
    } else if num_events < max_events {
        num_events as int
    } else {
        max_events as int
    }
}

/// The slot of the `i`-th record in ring order: from the next free slot on when the ring
/// has wrapped, from the first slot otherwise.
pub open spec fn ring_slot(num_events: u32, max_events: u32, next_free_index: u32, i: int) -> int {
    if ring_wrapped(num_events, max_events) {
        (next_free_index as int + i) % (max_events as int)
    } else {
        i
    }
}

/// The records of the ring in ring order.
pub open spec fn ring_records(rd: RecorderData, data: Seq<u8>) -> Seq<EventRecord> {
    Seq::new(
        ring_len(rd.num_events, rd.max_events) as nat,
        |i: int|
            {
                let at = rd.event_data_offset + 4 * ring_slot(rd.num_events, rd.max_events, rd.next_free_index, i);
                EventRecord([data[at], data[at + 1], data[at + 2], data[at + 3]])
            },
    )
}

/// The events that a run of decoding results gives: each event and each error (as a
/// decoding error of the image), in order, with the records that gave nothing left out.
pub open spec fn collect_events(results: Seq<Result<Option<(EventType, Event)>, ParseError>>) -> Seq<
    Result<(EventType, Event), Error>,
>
    decreases results.len(),
{
    if results.len() == 0 {
        seq![]
    } else {
        let prev = collect_events(results.drop_last());
        match results.last() {
            Ok(Some(x)) => prev.push(Ok(x)),
            Ok(None) => prev,
            Err(x) => prev.push(Err(Error::Parser(x))),
        }
    }
}

/// A run of decoder states and results is what decoding `records` one after another
/// gives, starting from a fresh decoder for byte order `e`.
pub open spec fn decoded_run(
    records: Seq<EventRecord>,
    states: Seq<EventParser>,
    results: Seq<Result<Option<(EventType, Event)>, ParseError>>,
    e: Endianness,
    props: ObjectPropertyTable,
    syms: SymbolTable,
) -> bool {
    &&& states.len() == records.len() + 1
    &&& results.len() == records.len()
    &&& states[0].wf() && states[0].endianness() == e && states[0].accumulated_time() == 0
        && states[0].dts_for_next_event() == 0 && !states[0].capturing()
    &&& forall|i: int| 0 <= i < records.len() ==> #[trigger] parse_post(
        states[i],
        states[i + 1],
        props,
        syms,
        records[i],
        results[i],
    )
}

impl RecorderData {
    /// The event records in ring order.
    pub fn event_records(&self, data: &[u8]) -> (r: Vec<EventRecord>)
        requires
            self.wf(data@.len()),
        ensures
            r@ == ring_records(*self, data@),
            r@.len() == ring_len(self.num_events, self.max_events),
            forall|i: int| 0 <= i < r@.len() ==> {
                let at = self.event_data_offset + 4 * ring_slot(
                    self.num_events,
                    self.max_events,
                    self.next_free_index,
                    i,
                );
                #[trigger] r@[i].0@ == data@.subrange(at, at + 4)
            },
    {
        let max = self.max_events;
        let wrapped = max > 0 && self.num_events >= max && self.num_events % max != 0;
        let count: u32 = if wrapped {
            max
        } else if self.num_events < max {
            self.num_events
        } else {
            max
        };
        let mut out: Vec<EventRecord> = Vec::new();
        let mut i: u32 = 0;
        while i < count
            invariant
                self.wf(data@.len()),
                max == self.max_events,
                wrapped == ring_wrapped(self.num_events, self.max_events),
                count == ring_len(self.num_events, self.max_events),
                count <= max,
                i <= count,
                out@.len() == i,
                forall|j: int| 0 <= j < i ==> #[trigger] out@[j] == ring_records(*self, data@)[j],
                forall|j: int| 0 <= j < i ==> {
                    let at = self.event_data_offset + 4 * ring_slot(
                        self.num_events,
                        self.max_events,
                        self.next_free_index,
                        j,
                    );
                    #[trigger] out@[j].0@ == data@.subrange(at, at + 4)
                },
            decreases count - i,
        {
            let slot: u32 = if wrapped {
                ((self.next_free_index as u64 + i as u64) % max as u64) as u32
            } else {
                i
            };
            assert(slot < max);
            assert(data@.len() == data.len());
            assert(self.event_data_offset + 4 * slot + 4 <= data@.len()) by (nonlinear_arith)
                requires slot < max, self.event_data_offset + 4 * max <= data@.len();
            let at = self.event_data_offset + 4 * slot as usize;
            let rec = EventRecord([data[at], data[at + 1], data[at + 2], data[at + 3]]);
            assert(rec.0@ =~= data@.subrange(at as int, at + 4));
            out.push(rec);
            i += 1;
        }
        out
    }

    /// Decodes every event of the ring, in order. Records that give no event are left
    /// out; a record that fails gives its error in its place.
    pub fn events(&self, data: &[u8]) -> (r: Vec<Result<(EventType, Event), Error>>)
        requires
            self.wf(data@.len()),
        ensures
            exists|states: Seq<EventParser>, results: Seq<Result<Option<(EventType, Event)>, ParseError>>|
                decoded_run(
                    ring_records(*self, data@),
                    states,
                    results,
                    self.endianness,
                    self.object_property_table,
                    self.symbol_table,
                ) && r@ == collect_events(results),
    {
        let records = self.event_records(data);
        let mut parser = EventParser::new(self.endianness);
        let mut out: Vec<Result<(EventType, Event), Error>> = Vec::new();
        let ghost mut states: Seq<EventParser> = seq![parser];
        let ghost mut results: Seq<Result<Option<(EventType, Event)>, ParseError>> = seq![];
        let mut i: usize = 0;
        while i < records.len()
            invariant
                parser.wf(),
                self.wf(data@.len()),
                i <= records@.len(),
                records@ == ring_records(*self, data@),
                states.len() == i + 1,
                results.len() == i,
                states[i as int] == parser,
                states[0].wf() && states[0].endianness() == self.endianness && states[0].accumulated_time() == 0
                    && states[0].dts_for_next_event() == 0 && !states[0].capturing(),
                forall|j: int| 0 <= j < i ==> #[trigger] parse_post(
                    states[j],
                    states[j + 1],
                    self.object_property_table,
                    self.symbol_table,
                    records@[j],
                    results[j],
                ),
                out@ == collect_events(results),
            decreases records.len() - i,
        {
            let ghost before = parser;
            let res = parser.parse(&self.object_property_table, &self.symbol_table, records[i]);
            proof {
                let old_results = results;
                states = states.push(parser);
                results = results.push(res);
                assert(results.drop_last() =~= old_results);
                assert forall|j: int| 0 <= j < i + 1 implies #[trigger] parse_post(
                    states[j],
                    states[j + 1],
                    self.object_property_table,
                    self.symbol_table,
                    records@[j],
                    results[j],
                ) by {
                    if j < i {
                    }
                }
            }
            match res {
                Ok(Some(x)) => out.push(Ok(x)),
                Ok(None) => {},
                Err(x) => out.push(Err(Error::Parser(x))),
            }
            i += 1;
        }
        proof {
            assert(decoded_run(records@, states, results, self.endianness, self.object_property_table, self.symbol_table));
        }
        out
    }
}

} // verus!
