//! What the operations are for.
//!
//! Each law speaks of calls: of what a function was given, and of what it gave back. None
//! of them leans on how a contract is put together elsewhere, so a law can be read, and
//! holds, on its own.

pub mod audio;
pub mod config;
pub mod frequency;
pub mod mock;
pub mod names;
pub mod playback;
pub mod profiles;
pub mod radio;
pub mod serial;
pub mod slot;
pub mod state;
pub mod text;
pub mod thread;
pub mod tx;
