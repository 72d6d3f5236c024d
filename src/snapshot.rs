//! The snapshot protocol: a memory image holding tables and a ring of 4-byte event
//! records.
pub mod error;
pub mod event;
pub mod events;
pub mod markers;
pub mod object_properties;
pub mod parser;
pub mod recorder_data;
pub mod symbol_table;
