//! Convenience helpers for process data and object dictionary access.
pub mod field;
pub mod sdo;
