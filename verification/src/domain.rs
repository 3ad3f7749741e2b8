//! Domain types and rules.

pub mod error;
pub mod frequency;
pub mod types;
