//! Core of a PSK-31 ham radio client.
//!
//! The library holds the decisions of the program: which sideband a frequency takes,
//! who owns the transmitter, when the radio is keyed and unkeyed, which file a profile
//! is kept in. Threads, devices and files belong to the program around it, which asks
//! the library what to do next and reports what came of it.

pub mod adapters;
pub mod commands;
pub mod domain;
pub mod laws;
pub mod ports;
pub mod state;
pub mod text;
