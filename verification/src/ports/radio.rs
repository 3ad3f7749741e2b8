//! The radio as the commands see it.

use crate::domain::error::Psk31Result;
use crate::domain::frequency::Frequency;
use crate::domain::types::{RadioStatus, SignalStrength};
use vstd::prelude::*;

verus! {

/// One request to a radio, with its argument and the radio's answer.
pub enum RadioCall {
    PttOn(Psk31Result<()>),
    PttOff(Psk31Result<()>),
    GetFrequency(Psk31Result<Frequency>),
    SetFrequency(Frequency, Psk31Result<()>),
    GetMode(Psk31Result<String>),
    SetMode(Seq<char>, Psk31Result<()>),
    GetTxPower(Psk31Result<u32>),
    SetTxPower(u32, Psk31Result<()>),
    GetSignalStrength(Psk31Result<SignalStrength>),
    GetStatus(Psk31Result<RadioStatus>),
}

/// A radio under computer control.
///
/// An implementation says nothing of what the radio answers. It only keeps count: each
/// request appears in [`RadioControl::calls`] once, with the answer that was returned. What
/// the log tells of the radio itself, an implementation says in [`RadioControl::agrees`].
pub trait RadioControl {
    /// Every request so far, in order.
    ///
    /// The body given here keeps none. Only an implementation that Verus does not check can
    /// leave it at that: the contracts below hold of no such log.
    open spec fn calls(&self) -> Seq<RadioCall> {
        Seq::empty()
    }

    /// The state of the radio agrees with its log. Every request keeps it so.
    open spec fn agrees(&self) -> bool {
        true
    }

    fn ptt_on(&mut self) -> (outcome: Psk31Result<()>)
        ensures
            final(self).calls() == old(self).calls().push(RadioCall::PttOn(outcome)),
            old(self).agrees() ==> final(self).agrees(),
    ;

    fn ptt_off(&mut self) -> (outcome: Psk31Result<()>)
        ensures
            final(self).calls() == old(self).calls().push(RadioCall::PttOff(outcome)),
            old(self).agrees() ==> final(self).agrees(),
    ;

    fn is_transmitting(&self) -> bool;

    fn get_frequency(&mut self) -> (outcome: Psk31Result<Frequency>)
        ensures
            final(self).calls() == old(self).calls().push(RadioCall::GetFrequency(outcome)),
            old(self).agrees() ==> final(self).agrees(),
    ;

    fn set_frequency(&mut self, freq: Frequency) -> (outcome: Psk31Result<()>)
        ensures
            final(self).calls() == old(self).calls().push(RadioCall::SetFrequency(freq, outcome)),
            old(self).agrees() ==> final(self).agrees(),
    ;

    fn get_mode(&mut self) -> (outcome: Psk31Result<String>)
        ensures
            final(self).calls() == old(self).calls().push(RadioCall::GetMode(outcome)),
            old(self).agrees() ==> final(self).agrees(),
    ;

    fn set_mode(&mut self, mode: &str) -> (outcome: Psk31Result<()>)
        ensures
            final(self).calls() == old(self).calls().push(RadioCall::SetMode(mode@, outcome)),
            old(self).agrees() ==> final(self).agrees(),
    ;

    fn get_tx_power(&mut self) -> (outcome: Psk31Result<u32>)
        ensures
            final(self).calls() == old(self).calls().push(RadioCall::GetTxPower(outcome)),
            old(self).agrees() ==> final(self).agrees(),
    ;

    fn set_tx_power(&mut self, watts: u32) -> (outcome: Psk31Result<()>)
        ensures
            final(self).calls() == old(self).calls().push(RadioCall::SetTxPower(watts, outcome)),
            old(self).agrees() ==> final(self).agrees(),
    ;

    fn get_signal_strength(&mut self) -> (outcome: Psk31Result<SignalStrength>)
        ensures
            final(self).calls() == old(self).calls().push(RadioCall::GetSignalStrength(outcome)),
            old(self).agrees() ==> final(self).agrees(),
    ;

    fn get_status(&mut self) -> (outcome: Psk31Result<RadioStatus>)
        ensures
            final(self).calls() == old(self).calls().push(RadioCall::GetStatus(outcome)),
            old(self).agrees() ==> final(self).agrees(),
    ;
}

} // verus!
