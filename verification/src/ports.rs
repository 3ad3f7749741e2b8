//! Traits that adapters implement.

pub mod radio;
pub mod serial;
