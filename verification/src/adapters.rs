//! Implementations of the ports, as far as they decide anything.

pub mod audio_devices;
pub mod cpal_audio;
pub mod mock_radio;
