//! What the program starts with.

use crate::domain::frequency::{lemma_whole, one_hertz, scaled};
use crate::domain::types::ModemConfig;
use crate::state::{AppState, Guarded, RadioLink, TxControl};
use vstd::arithmetic::power2::lemma2_to64_rest;
use vstd::prelude::*;

verus! {

/// The settings at the start: a carrier of 1000 Hz, 48 000 samples a second, 25 W.
pub proof fn settings_at_the_start(config: ModemConfig)
    requires
        call_ensures(<ModemConfig as Default>::default, (), config),
    ensures
        scaled(config.carrier_freq.bits as nat) == 1000 * one_hertz(),
        config.sample_rate == 48_000,
        config.tx_power_watts == 25,
{
    lemma_thousand_hertz();
}

proof fn lemma_thousand_hertz()
    ensures
        scaled(crate::domain::types::DEFAULT_CARRIER_BITS as nat) == 1000 * one_hertz(),
{
    lemma2_to64_rest();
    lemma_whole(crate::domain::types::DEFAULT_CARRIER_BITS as nat, 1032, 1000);
}

/// At the start the slot is free, nothing runs, nothing is connected, no lock is poisoned,
/// and the first claim will be number one. The two ways to begin are the same.
pub proof fn program_starts_idle<R, H>(state: AppState<R, H>, other: AppState<R, H>)
    requires
        call_ensures(AppState::<R, H>::new, (), state),
        call_ensures(<AppState<R, H> as Default>::default, (), other),
    ensures
        other == state,
        !state.config.poisoned,
        state.config.value.sample_rate == 48_000,
        state.config.value.tx_power_watts == 25,
        scaled(state.config.value.carrier_freq.bits as nat) == 1000 * one_hertz(),
        !state.link.radio.poisoned,
        state.link.radio.value is None,
        state.link.serial_port_name is None,
        !state.audio_running,
        state.audio_thread is None,
        !state.tx.tx_state.poisoned,
        state.tx.tx_state.value is Idle,
        !state.tx.tx_abort,
        state.tx.tx_generation == 0,
        !state.rx_running,
        scaled(state.rx_carrier_freq.bits as nat) == 1000 * one_hertz(),
        state.audio_device_name is None,
{
    lemma_thousand_hertz();
}

/// The parts begin as the whole does, and a value goes behind a sound lock unchanged.
pub proof fn parts_start_idle<R, H, T>(
    value: T,
    guarded: Guarded<T>,
    tx: TxControl<H>,
    link: RadioLink<R>,
)
    requires
        call_ensures(Guarded::<T>::new, (value,), guarded),
        call_ensures(TxControl::<H>::new, (), tx),
        call_ensures(RadioLink::<R>::new, (), link),
    ensures
        guarded.value == value && !guarded.poisoned,
        tx.tx_state.value is Idle && !tx.tx_state.poisoned,
        !tx.tx_abort && tx.tx_generation == 0,
        link.radio.value is None && !link.radio.poisoned,
        link.serial_port_name is None,
{
}

} // verus!
