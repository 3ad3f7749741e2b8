//! What the user interface can ask for.

pub mod config;
pub mod config_list;
pub mod config_name;
pub mod playback;
pub mod radio;
pub mod slot;
pub mod tx;
pub mod tx_thread;
