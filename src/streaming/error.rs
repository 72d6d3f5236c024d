//! Errors of the streaming protocol decoder.
use vstd::prelude::*;
use crate::streaming::event::{EventId, EventParameterCount};
use crate::types::{Endianness, FormattedStringError, ObjectHandle};

verus! {

/// Why streaming data could not be decoded.
#[derive(Clone, Debug, PartialEq, Eq)]
pub enum Error {
    /// The kernel version word matches no known port.
    KernelVersion([u8; 2]),
    /// The first word is not the PSF word in either byte order.
    PSFEndiannessIdentifier(u32),
    /// A symbol table slot is too small for an address and a symbol.
    InvalidSymbolTableSlotSize,
    /// An object data table slot is too small for an address and a priority.
    InvalidObjectDataTableSlotSize,
    /// The entry table's symbol size is zero.
    InvalidEntryTableSymbolSize,
    /// The entry table has fewer than three state words per entry.
    InvalidEntryTableStateCount,
    /// An event's parameter count differs from what its type requires:
    /// the ID, the expected count and the reported count.
    InvalidEventParameterCount(EventId, usize, EventParameterCount),
    /// A timer counter type outside 1 to 6.
    InvalidTimerCounter(u32),
    /// An event names a handle that the entry table lacks (or has no symbol for).
    ObjectLookup(ObjectHandle),
    /// An event carries the zero handle where an object is needed.
    InvalidObjectHandle(EventId),
    /// The format string of a fixed user event names a missing symbol.
    FixedUserEventFmtStringLookup(ObjectHandle),
    /// A user event's arguments could not be decoded.
    FormattedString(FormattedStringError),
    /// The data ended inside a structure or an event record.
    Io,
    /// The PSF word appeared where an event should start: the target restarted its
    /// trace, in the given byte order.
    TraceRestarted(Endianness),
}

} // verus!
