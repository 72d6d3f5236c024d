//! Parser for trace-recorder binary logs, in both the snapshot and the streaming format.
//!
//! The library works on byte slices: callers read a capture into memory and hand the
//! decoders a position in it, and get back decoded values with the position after them.
//! Every decoder is verified against its contract.

pub mod bytes;
pub mod format;
pub mod handle_map;
pub mod snapshot;
pub mod streaming;
pub mod text;
pub mod time;
pub mod types;
