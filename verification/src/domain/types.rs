//! Plain data of the domain.

use crate::domain::frequency::Frequency;
use vstd::prelude::*;

verus! {

/// Pattern of 1000 Hz, where the carrier starts in the audio passband.
pub const DEFAULT_CARRIER_BITS: u64 = 0x408f_4000_0000_0000;

/// Sample rate of the audio devices, in hertz.
pub const DEFAULT_SAMPLE_RATE: u32 = 48_000;

/// Transmit power of a new profile, in watts.
pub const DEFAULT_TX_POWER_WATTS: u32 = 25;

/// Modem settings that the running program uses.
#[derive(Clone, Copy, PartialEq, Eq, Structural, Debug)]
pub struct ModemConfig {
    pub carrier_freq: Frequency,
    pub sample_rate: u32,
    pub tx_power_watts: u32,
}

impl ModemConfig {
    pub open spec fn initial() -> ModemConfig {
        ModemConfig {
            carrier_freq: Frequency { bits: DEFAULT_CARRIER_BITS },
            sample_rate: DEFAULT_SAMPLE_RATE,
            tx_power_watts: DEFAULT_TX_POWER_WATTS,
        }
    }
}

impl Default for ModemConfig {
    fn default() -> (r: Self)
        ensures
            r == ModemConfig::initial(),
    {
        ModemConfig {
            carrier_freq: Frequency::from_bits(DEFAULT_CARRIER_BITS),
            sample_rate: DEFAULT_SAMPLE_RATE,
            tx_power_watts: DEFAULT_TX_POWER_WATTS,
        }
    }
}

/// A stored profile. `S` holds the settings that the library only passes on.
#[derive(Debug)]
pub struct Configuration<S> {
    pub name: String,
    pub tx_power_watts: u32,
    pub settings: S,
}

/// What the radio reports of itself in one answer.
#[derive(Debug)]
pub struct RadioStatus {
    pub frequency_hz: u64,
    pub mode: String,
    pub is_transmitting: bool,
    pub rit_offset_hz: i32,
    pub rit_enabled: bool,
    pub split: bool,
}

/// A reading of the signal meter from 0 to 1, as the bit pattern of a single-precision
/// float.
#[derive(Clone, Copy, PartialEq, Eq, Structural, Debug)]
pub struct SignalStrength {
    pub bits: u32,
}

/// An audio device as the user chooses one.
#[derive(Debug)]
pub struct AudioDeviceInfo {
    pub id: String,
    pub name: String,
    pub is_input: bool,
    pub is_output: bool,
    pub is_default: bool,
    /// The device has an output configuration, but the audio system does not count it among
    /// its outputs.
    pub output_unverified: bool,
}

/// A serial port as the user chooses one.
#[derive(Debug)]
pub struct SerialPortInfo {
    pub name: String,
    pub port_type: String,
    pub device_hint: Option<String>,
}

} // verus!
