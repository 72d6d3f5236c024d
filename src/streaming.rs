//! The streaming protocol: a header followed by variable-length event records.
pub mod entry_table;
pub mod error;
pub mod event;
pub mod events;
pub mod header_info;
pub mod object_data_table;
pub mod parser;
pub mod recorder_data;
pub mod symbol_table;
pub mod extension_info;
pub mod timestamp_info;
