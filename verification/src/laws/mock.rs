//! The mock radio.

use crate::adapters::mock_radio::MockRadio;
use crate::domain::error::Psk31Result;
use crate::domain::frequency::{one_hertz, scaled, Frequency};
use crate::domain::types::{RadioStatus, SignalStrength};
use crate::ports::radio::RadioControl;
use vstd::prelude::*;

verus! {

/// The two radios are tuned and set alike, keyed or not.
pub open spec fn same_settings(a: MockRadio, b: MockRadio) -> bool {
    a.frequency == b.frequency && a.mode@ == b.mode@ && a.tx_power == b.tx_power
}

/// A new radio is on 14.070 MHz in DATA-USB at 25 W, and not keyed.
pub proof fn new_radio_is_on_the_calling_frequency(radio: MockRadio, other: MockRadio)
    requires
        call_ensures(MockRadio::new, (), radio),
        call_ensures(<MockRadio as Default>::default, (), other),
    ensures
        scaled(radio.frequency.bits as nat) == 14_070_000 * one_hertz(),
        radio.frequency.bits < 0x7ff0_0000_0000_0000,
        radio.mode@ == "DATA-USB"@,
        radio.tx_power == 25,
        !radio.is_transmitting,
        same_settings(other, radio),
        !other.is_transmitting,
{
}

/// Keying and unkeying always work, and change nothing but whether the radio transmits.
pub proof fn radio_is_keyed_and_unkeyed()
    ensures
        forall|radio: &mut MockRadio, r: Psk31Result<()>| #[trigger]
            call_ensures(MockRadio::ptt_on, (radio,), r) ==> r is Ok && same_settings(
                *final(radio),
                *radio,
            ) && final(radio).is_transmitting,
        forall|radio: &mut MockRadio, r: Psk31Result<()>| #[trigger]
            call_ensures(MockRadio::ptt_off, (radio,), r) ==> r is Ok && same_settings(
                *final(radio),
                *radio,
            ) && !final(radio).is_transmitting,
        forall|radio: &MockRadio, r: bool| #[trigger]
            call_ensures(MockRadio::is_transmitting, (radio,), r) ==> r == radio.is_transmitting,
{
}

/// Setting always works: what was set is held exactly, and nothing else changes.
pub proof fn radio_holds_what_was_set()
    ensures
        forall|radio: &mut MockRadio, freq: Frequency, r: Psk31Result<()>| #[trigger]
            call_ensures(MockRadio::set_frequency, (radio, freq), r) ==> {
                &&& r is Ok
                &&& final(radio).frequency == freq
                &&& final(radio).mode@ == (*radio).mode@
                &&& final(radio).tx_power == (*radio).tx_power
                &&& final(radio).is_transmitting == (*radio).is_transmitting
            },
        forall|radio: &mut MockRadio, mode: &str, r: Psk31Result<()>| #[trigger]
            call_ensures(MockRadio::set_mode, (radio, mode), r) ==> {
                &&& r is Ok
                &&& final(radio).mode@ == mode@
                &&& final(radio).frequency == (*radio).frequency
                &&& final(radio).tx_power == (*radio).tx_power
                &&& final(radio).is_transmitting == (*radio).is_transmitting
            },
        forall|radio: &mut MockRadio, watts: u32, r: Psk31Result<()>| #[trigger]
            call_ensures(MockRadio::set_tx_power, (radio, watts), r) ==> {
                &&& r is Ok
                &&& final(radio).tx_power == watts
                &&& final(radio).frequency == (*radio).frequency
                &&& final(radio).mode@ == (*radio).mode@
                &&& final(radio).is_transmitting == (*radio).is_transmitting
            },
{
}

/// Reading always works, gives what the radio holds, and changes nothing. The signal meter
/// always shows 0.3.
pub proof fn reading_gives_what_the_radio_holds()
    ensures
        forall|radio: &mut MockRadio, r: Psk31Result<Frequency>| #[trigger]
            call_ensures(MockRadio::get_frequency, (radio,), r) ==> {
                &&& r is Ok
                &&& r->Ok_0 == (*radio).frequency
                &&& same_settings(*final(radio), *radio)
                &&& final(radio).is_transmitting == (*radio).is_transmitting
            },
        forall|radio: &mut MockRadio, r: Psk31Result<String>| #[trigger]
            call_ensures(MockRadio::get_mode, (radio,), r) ==> {
                &&& r is Ok
                &&& r->Ok_0@ == (*radio).mode@
                &&& same_settings(*final(radio), *radio)
                &&& final(radio).is_transmitting == (*radio).is_transmitting
            },
        forall|radio: &mut MockRadio, r: Psk31Result<u32>| #[trigger]
            call_ensures(MockRadio::get_tx_power, (radio,), r) ==> {
                &&& r is Ok
                &&& r->Ok_0 == (*radio).tx_power
                &&& same_settings(*final(radio), *radio)
                &&& final(radio).is_transmitting == (*radio).is_transmitting
            },
        forall|radio: &mut MockRadio, r: Psk31Result<SignalStrength>| #[trigger]
            call_ensures(MockRadio::get_signal_strength, (radio,), r) ==> {
                &&& r is Ok
                &&& r->Ok_0.bits == 0x3e99_999a
                &&& same_settings(*final(radio), *radio)
                &&& final(radio).is_transmitting == (*radio).is_transmitting
            },
{
}

/// The status is that of the radio, with the frequency in whole hertz, and reading it
/// changes nothing.
pub proof fn status_is_that_of_the_radio(whole: u64)
    ensures
        forall|radio: &mut MockRadio, r: Psk31Result<RadioStatus>|
            (#[trigger] call_ensures(MockRadio::get_status, (radio,), r) && call_ensures(
                Frequency::as_whole_hertz,
                ((*radio).frequency,),
                whole,
            )) ==> {
                &&& r is Ok
                &&& r->Ok_0.frequency_hz == whole
                &&& r->Ok_0.mode@ == (*radio).mode@
                &&& r->Ok_0.is_transmitting == (*radio).is_transmitting
                &&& r->Ok_0.rit_offset_hz == 0
                &&& !r->Ok_0.rit_enabled
                &&& !r->Ok_0.split
                &&& same_settings(*final(radio), *radio)
                &&& final(radio).is_transmitting == (*radio).is_transmitting
            },
{
}

} // verus!
