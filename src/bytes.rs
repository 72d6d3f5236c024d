//! Endian-aware integer decoding from byte sequences.
use vstd::prelude::*;
use crate::types::Endianness;

verus! {

/// The 16-bit value of two bytes in the given byte order.
pub open spec fn u16_of(b0: u8, b1: u8, e: Endianness) -> u16 {
    match e {
        Endianness::Little => (b0 as int + b1 as int * 256) as u16,
        Endianness::Big => (b1 as int + b0 as int * 256) as u16,
    }
}

/// The 32-bit value of four bytes in the given byte order.
pub open spec fn u32_of(b0: u8, b1: u8, b2: u8, b3: u8, e: Endianness) -> u32 {
    match e {
        Endianness::Little => (b0 as int + b1 as int * 0x100 + b2 as int * 0x1_0000
            + b3 as int * 0x100_0000) as u32,
        Endianness::Big => (b3 as int + b2 as int * 0x100 + b1 as int * 0x1_0000
            + b0 as int * 0x100_0000) as u32,
    }
}

/// The 16-bit value stored at `pos` in `data`.
pub open spec fn u16_at(data: Seq<u8>, pos: int, e: Endianness) -> u16 {
    u16_of(data[pos], data[pos + 1], e)
}

/// The 32-bit value stored at `pos` in `data`.
pub open spec fn u32_at(data: Seq<u8>, pos: int, e: Endianness) -> u32 {
    u32_of(data[pos], data[pos + 1], data[pos + 2], data[pos + 3], e)
}

/// Decodes the 16-bit value at `pos`, or `None` when fewer than two bytes remain.
pub fn read_u16(data: &[u8], pos: usize, e: Endianness) -> (r: Option<u16>)
    ensures
        pos + 2 <= data@.len() ==> r == Some(u16_at(data@, pos as int, e)),
        pos + 2 > data@.len() ==> r.is_none(),
        r.is_some() ==> pos + 2 <= data.len(),
{
    if pos > data.len() || data.len() - pos < 2 {
        return None;
    }
    let b0 = data[pos] as u16;
    let b1 = data[pos + 1] as u16;
    match e {
        Endianness::Little => Some(b0 + b1 * 256),
        Endianness::Big => Some(b1 + b0 * 256),
    }
}

/// Decodes the 32-bit value at `pos`, or `None` when fewer than four bytes remain.
pub fn read_u32(data: &[u8], pos: usize, e: Endianness) -> (r: Option<u32>)
    ensures
        pos + 4 <= data@.len() ==> r == Some(u32_at(data@, pos as int, e)),
        pos + 4 > data@.len() ==> r.is_none(),
        r.is_some() ==> pos + 4 <= data.len(),
{
    if pos > data.len() || data.len() - pos < 4 {
        return None;
    }
    let b0 = data[pos] as u32;
    let b1 = data[pos + 1] as u32;
    let b2 = data[pos + 2] as u32;
    let b3 = data[pos + 3] as u32;
    match e {
        Endianness::Little => Some(b0 + b1 * 0x100 + b2 * 0x1_0000 + b3 * 0x100_0000),
        Endianness::Big => Some(b3 + b2 * 0x100 + b1 * 0x1_0000 + b0 * 0x100_0000),
    }
}

} // verus!
