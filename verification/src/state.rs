//! Application state.

use crate::domain::frequency::Frequency;
use crate::domain::types::{ModemConfig, DEFAULT_CARRIER_BITS};
use vstd::prelude::*;

verus! {

/// State of the transmit pipeline. `H` is the handle of the transmitting thread.
///
/// - `Idle` to `Starting`: a start claims the slot.
/// - `Starting` to `Running`: the thread was spawned and its handle stored.
/// - `Running` to `Idle`: a stop takes the handle and joins the thread, or the thread
///   clears the slot itself when it has played everything.
/// - `Starting` to `Idle`: a stop during the slow work of a start, or a start that gives
///   up early.
pub enum TxState<H> {
    Idle,
    Starting,
    Running(H),
}

/// A value behind a mutex, as the holder of the lock sees it. `poisoned` says that a
/// thread panicked while it held the lock.
pub struct Guarded<T> {
    pub value: T,
    pub poisoned: bool,
}

/// The transmitter slot: who may transmit, and whether that is still wanted.
pub struct TxControl<H> {
    pub tx_state: Guarded<TxState<H>>,
    /// Tells the transmitting thread to abort.
    pub tx_abort: bool,
    /// Number of successful claims so far. A start keeps the number of its own claim
    /// and learns from a different one that the slot has changed hands since.
    pub tx_generation: u64,
}

/// The connection to the radio.
pub struct RadioLink<R> {
    pub radio: Guarded<Option<R>>,
    /// Name of the connected serial port.
    pub serial_port_name: Option<String>,
}

/// Everything that the commands share.
pub struct AppState<R, H> {
    pub config: Guarded<ModemConfig>,
    pub link: RadioLink<R>,
    /// Tells the audio thread to go on.
    pub audio_running: bool,
    pub audio_thread: Option<H>,
    pub tx: TxControl<H>,
    /// Tells the audio thread to decode.
    pub rx_running: bool,
    /// Carrier of the decoder, which a click in the waterfall moves.
    pub rx_carrier_freq: Frequency,
    /// Name of the audio input in use.
    pub audio_device_name: Option<String>,
}

impl<T> Guarded<T> {
    pub open spec fn sound(value: T) -> Guarded<T> {
        Guarded { value, poisoned: false }
    }

    pub fn new(value: T) -> (r: Guarded<T>)
        ensures
            r == Guarded::sound(value),
    {
        Guarded { value, poisoned: false }
    }
}

impl<H> TxControl<H> {
    pub open spec fn initial() -> TxControl<H> {
        TxControl { tx_state: Guarded::sound(TxState::Idle), tx_abort: false, tx_generation: 0 }
    }

    pub fn new() -> (r: TxControl<H>)
        ensures
            r == TxControl::<H>::initial(),
    {
        TxControl { tx_state: Guarded::new(TxState::Idle), tx_abort: false, tx_generation: 0 }
    }
}

impl<R> RadioLink<R> {
    pub open spec fn initial() -> RadioLink<R> {
        RadioLink { radio: Guarded::sound(None), serial_port_name: None }
    }

    /// The radio, if the lock is sound and a radio is connected.
    pub open spec fn reachable(self) -> Option<R> {
        if self.radio.poisoned {
            None
        } else {
            self.radio.value
        }
    }

    pub fn new() -> (r: RadioLink<R>)
        ensures
            r == RadioLink::<R>::initial(),
    {
        RadioLink { radio: Guarded::new(None), serial_port_name: None }
    }
}

impl<R, H> AppState<R, H> {
    pub open spec fn initial() -> AppState<R, H> {
        AppState {
            config: Guarded::sound(ModemConfig::initial()),
            link: RadioLink::initial(),
            audio_running: false,
            audio_thread: None,
            tx: TxControl::initial(),
            rx_running: false,
            rx_carrier_freq: Frequency { bits: DEFAULT_CARRIER_BITS },
            audio_device_name: None,
        }
    }

    pub fn new() -> (r: AppState<R, H>)
        ensures
            r == AppState::<R, H>::initial(),
    {
        AppState {
            config: Guarded::new(ModemConfig::default()),
            link: RadioLink::new(),
            audio_running: false,
            audio_thread: None,
            tx: TxControl::new(),
            rx_running: false,
            rx_carrier_freq: Frequency::from_bits(DEFAULT_CARRIER_BITS),
            audio_device_name: None,
        }
    }
}

impl<R, H> Default for AppState<R, H> {
    fn default() -> (r: Self)
        ensures
            r == AppState::<R, H>::initial(),
    {
        AppState::new()
    }
}

} // verus!
