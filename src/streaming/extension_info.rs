//! The extension block of a streaming trace; its entries are skipped.
use vstd::prelude::*;
use crate::bytes::{read_u16, u16_at};
use crate::streaming::error::Error;
use crate::types::Endianness;

verus! {

/// The lowest event code an extension may use.
pub const EVENTCODE_BASE: u16 = 256;

/// Extension block header.
#[derive(Copy, Clone, Debug, PartialEq, Eq, Structural)]
pub struct ExtensionInfo {
    pub entry_count: usize,
    pub base_event_code: u16,
}

/// Bytes taken by an extension block with `count` entries: the two counts, then, when
/// there are entries, two size bytes and `count` entries of `count` bytes each.
pub open spec fn extension_info_size(count: int) -> int {
    if count == 0 {
        4
    } else {
        6 + count * count
    }
}

impl ExtensionInfo {
    /// Decodes the block at `pos`, skipping its entries; returns it with the position
    /// after it.
    pub fn read(data: &[u8], pos: usize, e: Endianness) -> (r: Result<(ExtensionInfo, usize), Error>)
        ensures
            pos + 4 > data@.len() ==> r == Err::<(ExtensionInfo, usize), Error>(Error::Io),
            pos + 4 <= data@.len() ==> {
                let count = u16_at(data@, pos as int, e) as int;
                if pos + extension_info_size(count) > data@.len() {
                    r == Err::<(ExtensionInfo, usize), Error>(Error::Io)
                } else {
                    r matches Ok((x, np)) && x.entry_count == count && x.base_event_code == u16_at(
                        data@,
                        pos + 2,
                        e,
                    ) && np == pos + extension_info_size(count)
                }
            },
    {
        if pos > data.len() || data.len() - pos < 4 {
            return Err(Error::Io);
        }
        let entry_count = read_u16(data, pos, e).unwrap();
        let base_event_code = read_u16(data, pos + 2, e).unwrap();
        let info = ExtensionInfo { entry_count: entry_count as usize, base_event_code };
        if entry_count == 0 {
            return Ok((info, pos + 4));
        }
        let c = entry_count as u64;
        assert(c * c <= 0xFFFF * 0xFFFF) by (nonlinear_arith)
            requires c <= 0xFFFF;
        let skip: u64 = 2 + c * c;
        if ((data.len() - (pos + 4)) as u64) < skip {
            return Err(Error::Io);
        }
        Ok((info, pos + 4 + skip as usize))
    }
}

} // verus!
