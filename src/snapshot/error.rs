//! Errors of the snapshot decoder.
use vstd::prelude::*;
use crate::snapshot::markers::{DebugMarker, MarkerBytes};
use crate::snapshot::parser::ParseError;

verus! {

/// Why a snapshot could not be decoded. Offsets are byte positions in the data.
#[derive(Clone, Debug, PartialEq, Eq)]
pub enum Error {
    /// A start or end marker is missing: where, what stood there, which marker.
    MarkerBytes(u64, [u8; 12], MarkerBytes),
    /// A debug marker is missing: where, what stood there, which marker.
    DebugMarker(u64, u32, DebugMarker),
    /// The kernel version word at the offset matches no known port or byte order.
    KernelVersion(u64, [u8; 2]),
    /// A symbol table entry sits at offset zero of its table.
    InvalidSymbolTableIndex(u64),
    /// The recorder was built with 16-bit object handles.
    Unsupported16bitHandles,
    /// The recorder was built with user event buffers.
    UnsupportedUserEventBuffer,
    /// An event record could not be decoded.
    Parser(ParseError),
    /// The data ended inside a structure.
    Io,
}

} // verus!
