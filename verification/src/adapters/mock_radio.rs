//! A radio without hardware, for development and tests.

use crate::commands::tx::{asked, mode_guard_calls, preparation_calls, preparation_outcome};
use crate::domain::error::{Psk31Error, Psk31Result};
use crate::domain::frequency::{data_mode, lemma_whole, Frequency};
use crate::domain::types::{RadioStatus, SignalStrength};
use crate::ports::radio::{RadioCall, RadioControl};
use crate::state::RadioLink;
use vstd::arithmetic::power2::lemma2_to64;
use vstd::prelude::*;

verus! {

/// Pattern of 14 070 000 Hz, the PSK-31 calling frequency on 20 m.
pub const DEFAULT_FREQ_BITS: u64 = 0x416a_d61e_0000_0000;

/// Standard mode for PSK-31.
pub const DEFAULT_MODE: &'static str = "DATA-USB";

/// Transmit power in watts.
pub const DEFAULT_TX_POWER_W: u32 = 25;

/// Pattern of the single-precision float nearest to 0.3, about S3.
pub const SIGNAL_STRENGTH_BITS: u32 = 0x3e99_999a;

/// A radio that remembers what it was told and never fails.
pub struct MockRadio {
    pub frequency: Frequency,
    pub mode: String,
    pub tx_power: u32,
    pub is_transmitting: bool,
    /// Every request so far.
    pub log: Ghost<Seq<RadioCall>>,
}

/// The frequency after these requests: the last one that was set.
pub open spec fn told_frequency(log: Seq<RadioCall>) -> Frequency
    decreases log.len(),
{
    if log.len() == 0 {
        Frequency { bits: DEFAULT_FREQ_BITS }
    } else {
        match log.last() {
            RadioCall::SetFrequency(freq, _) => freq,
            _ => told_frequency(log.drop_last()),
        }
    }
}

/// The mode after these requests: the last one that was set.
pub open spec fn told_mode(log: Seq<RadioCall>) -> Seq<char>
    decreases log.len(),
{
    if log.len() == 0 {
        DEFAULT_MODE@
    } else {
        match log.last() {
            RadioCall::SetMode(mode, _) => mode,
            _ => told_mode(log.drop_last()),
        }
    }
}

/// The transmit power after these requests: the last one that was set.
pub open spec fn told_power(log: Seq<RadioCall>) -> u32
    decreases log.len(),
{
    if log.len() == 0 {
        DEFAULT_TX_POWER_W
    } else {
        match log.last() {
            RadioCall::SetTxPower(watts, _) => watts,
            _ => told_power(log.drop_last()),
        }
    }
}

/// Whether the transmitter is keyed after these requests.
pub open spec fn told_keyed(log: Seq<RadioCall>) -> bool
    decreases log.len(),
{
    if log.len() == 0 {
        false
    } else {
        match log.last() {
            RadioCall::PttOn(_) => true,
            RadioCall::PttOff(_) => false,
            _ => told_keyed(log.drop_last()),
        }
    }
}

/// The answer to a request is the one that a radio gives which was told `log` before, and
/// never fails.
pub open spec fn faithful(log: Seq<RadioCall>, call: RadioCall) -> bool {
    match call {
        RadioCall::PttOn(outcome) => outcome is Ok,
        RadioCall::PttOff(outcome) => outcome is Ok,
        RadioCall::GetFrequency(outcome) => outcome == Ok::<Frequency, Psk31Error>(
            told_frequency(log),
        ),
        RadioCall::SetFrequency(_, outcome) => outcome is Ok,
        RadioCall::GetMode(outcome) => outcome matches Ok(mode) && mode@ == told_mode(log),
        RadioCall::SetMode(_, outcome) => outcome is Ok,
        RadioCall::GetTxPower(outcome) => outcome == Ok::<u32, Psk31Error>(told_power(log)),
        RadioCall::SetTxPower(_, outcome) => outcome is Ok,
        RadioCall::GetSignalStrength(outcome) => outcome matches Ok(strength) && strength.bits
            == SIGNAL_STRENGTH_BITS,
        RadioCall::GetStatus(outcome) => outcome matches Ok(status) && {
            &&& status.frequency_hz == told_frequency(log).whole_hertz()
            &&& status.mode@ == told_mode(log)
            &&& status.is_transmitting == told_keyed(log)
            &&& status.rit_offset_hz == 0
            &&& !status.rit_enabled
            &&& !status.split
        },
    }
}

/// Every answer in the log is the one that was due.
pub open spec fn all_faithful(log: Seq<RadioCall>) -> bool {
    forall|i: int| 0 <= i < log.len() ==> faithful(log.take(i), #[trigger] log[i])
}

impl MockRadio {
    /// The same radio with one more request on record.
    pub open spec fn recording(self, call: RadioCall) -> MockRadio {
        MockRadio { log: Ghost(self.log@.push(call)), ..self }
    }

    pub fn new() -> (r: MockRadio)
        ensures
            r.frequency.bits == DEFAULT_FREQ_BITS,
            r.frequency.denotes(14_070_000),
            r.mode@ == "DATA-USB"@,
            r.tx_power == 25,
            !r.is_transmitting,
            r.calls() == Seq::<RadioCall>::empty(),
            r.agrees(),
    {
        proof {
            lemma2_to64();
            lemma_whole(DEFAULT_FREQ_BITS as nat, 1046, 14_070_000);
        }
        MockRadio {
            frequency: Frequency::from_bits(DEFAULT_FREQ_BITS),
            mode: DEFAULT_MODE.to_owned(),
            tx_power: DEFAULT_TX_POWER_W,
            is_transmitting: false,
            log: Ghost(Seq::empty()),
        }
    }
}

impl Default for MockRadio {
    fn default() -> (r: Self)
        ensures
            r.frequency.bits == DEFAULT_FREQ_BITS,
            r.frequency.denotes(14_070_000),
            r.mode@ == "DATA-USB"@,
            r.tx_power == 25,
            !r.is_transmitting,
            r.calls() == Seq::<RadioCall>::empty(),
            r.agrees(),
    {
        MockRadio::new()
    }
}

impl RadioControl for MockRadio {
    open spec fn calls(&self) -> Seq<RadioCall> {
        self.log@
    }

    /// The radio is in the state that the requests in its log have left it in, and has
    /// answered each of them accordingly.
    open spec fn agrees(&self) -> bool {
        &&& self.frequency == told_frequency(self.log@)
        &&& self.mode@ == told_mode(self.log@)
        &&& self.tx_power == told_power(self.log@)
        &&& self.is_transmitting == told_keyed(self.log@)
        &&& all_faithful(self.log@)
    }

    fn ptt_on(&mut self) -> (outcome: Psk31Result<()>)
        ensures
            outcome == Ok::<(), Psk31Error>(()),
            *final(self) == (MockRadio { is_transmitting: true, ..*old(self) }).recording(
                RadioCall::PttOn(outcome),
            ),
    {
        self.is_transmitting = true;
        proof {
            lemma_told(self.log@, RadioCall::PttOn(Ok(())));
        }
        self.log = Ghost(self.log@.push(RadioCall::PttOn(Ok(()))));
        Ok(())
    }

    fn ptt_off(&mut self) -> (outcome: Psk31Result<()>)
        ensures
            outcome == Ok::<(), Psk31Error>(()),
            *final(self) == (MockRadio { is_transmitting: false, ..*old(self) }).recording(
                RadioCall::PttOff(outcome),
            ),
    {
        self.is_transmitting = false;
        proof {
            lemma_told(self.log@, RadioCall::PttOff(Ok(())));
        }
        self.log = Ghost(self.log@.push(RadioCall::PttOff(Ok(()))));
        Ok(())
    }

    fn is_transmitting(&self) -> (r: bool)
        ensures
            r == self.is_transmitting,
    {
        self.is_transmitting
    }

    fn get_frequency(&mut self) -> (outcome: Psk31Result<Frequency>)
        ensures
            outcome == Ok::<Frequency, Psk31Error>(old(self).frequency),
            *final(self) == old(self).recording(RadioCall::GetFrequency(outcome)),
    {
        proof {
            lemma_told(self.log@, RadioCall::GetFrequency(Ok(self.frequency)));
        }
        self.log = Ghost(self.log@.push(RadioCall::GetFrequency(Ok(self.frequency))));
        Ok(self.frequency)
    }

    fn set_frequency(&mut self, freq: Frequency) -> (outcome: Psk31Result<()>)
        ensures
            outcome == Ok::<(), Psk31Error>(()),
            *final(self) == (MockRadio { frequency: freq, ..*old(self) }).recording(
                RadioCall::SetFrequency(freq, outcome),
            ),
    {
        self.frequency = freq;
        proof {
            lemma_told(self.log@, RadioCall::SetFrequency(freq, Ok(())));
        }
        self.log = Ghost(self.log@.push(RadioCall::SetFrequency(freq, Ok(()))));
        Ok(())
    }

    fn get_mode(&mut self) -> (outcome: Psk31Result<String>)
        ensures
            outcome == Ok::<String, Psk31Error>(old(self).mode),
            *final(self) == old(self).recording(RadioCall::GetMode(outcome)),
    {
        let mode: String = self.mode.clone();
        proof {
            lemma_told(self.log@, RadioCall::GetMode(Ok(mode)));
        }
        self.log = Ghost(self.log@.push(RadioCall::GetMode(Ok(mode))));
        Ok(mode)
    }

    fn set_mode(&mut self, mode: &str) -> (outcome: Psk31Result<()>)
        ensures
            outcome == Ok::<(), Psk31Error>(()),
            final(self).mode@ == mode@,
            *final(self) == (MockRadio { mode: final(self).mode, ..*old(self) }).recording(
                RadioCall::SetMode(mode@, outcome),
            ),
    {
        self.mode = mode.to_owned();
        proof {
            lemma_told(self.log@, RadioCall::SetMode(mode@, Ok(())));
        }
        self.log = Ghost(self.log@.push(RadioCall::SetMode(mode@, Ok(()))));
        Ok(())
    }

    fn get_tx_power(&mut self) -> (outcome: Psk31Result<u32>)
        ensures
            outcome == Ok::<u32, Psk31Error>(old(self).tx_power),
            *final(self) == old(self).recording(RadioCall::GetTxPower(outcome)),
    {
        proof {
            lemma_told(self.log@, RadioCall::GetTxPower(Ok(self.tx_power)));
        }
        self.log = Ghost(self.log@.push(RadioCall::GetTxPower(Ok(self.tx_power))));
        Ok(self.tx_power)
    }

    fn set_tx_power(&mut self, watts: u32) -> (outcome: Psk31Result<()>)
        ensures
            outcome == Ok::<(), Psk31Error>(()),
            *final(self) == (MockRadio { tx_power: watts, ..*old(self) }).recording(
                RadioCall::SetTxPower(watts, outcome),
            ),
    {
        self.tx_power = watts;
        proof {
            lemma_told(self.log@, RadioCall::SetTxPower(watts, Ok(())));
        }
        self.log = Ghost(self.log@.push(RadioCall::SetTxPower(watts, Ok(()))));
        Ok(())
    }

    fn get_signal_strength(&mut self) -> (outcome: Psk31Result<SignalStrength>)
        ensures
            outcome matches Ok(s) && s.bits == SIGNAL_STRENGTH_BITS,
            *final(self) == old(self).recording(RadioCall::GetSignalStrength(outcome)),
    {
        let strength = SignalStrength { bits: SIGNAL_STRENGTH_BITS };
        proof {
            lemma_told(self.log@, RadioCall::GetSignalStrength(Ok(strength)));
        }
        self.log = Ghost(self.log@.push(RadioCall::GetSignalStrength(Ok(strength))));
        Ok(strength)
    }

    fn get_status(&mut self) -> (outcome: Psk31Result<RadioStatus>)
        ensures
            outcome matches Ok(s) && {
                &&& s.frequency_hz == old(self).frequency.whole_hertz()
                &&& s.mode == old(self).mode
                &&& s.is_transmitting == old(self).is_transmitting
                &&& s.rit_offset_hz == 0
                &&& !s.rit_enabled
                &&& !s.split
            },
            *final(self) == old(self).recording(RadioCall::GetStatus(outcome)),
    {
        let status = RadioStatus {
            frequency_hz: self.frequency.as_whole_hertz(),
            mode: self.mode.clone(),
            is_transmitting: self.is_transmitting,
            rit_offset_hz: 0,
            rit_enabled: false,
            split: false,
        };
        proof {
            lemma_told(self.log@, RadioCall::GetStatus(Ok(status)));
        }
        self.log = Ghost(self.log@.push(RadioCall::GetStatus(Ok(status))));
        Ok(status)
    }
}

/// What one more request changes.
pub proof fn lemma_told(log: Seq<RadioCall>, call: RadioCall)
    ensures
        ({
            let now = log.push(call);
            &&& told_frequency(now) == match call {
                RadioCall::SetFrequency(freq, _) => freq,
                _ => told_frequency(log),
            }
            &&& told_mode(now) == match call {
                RadioCall::SetMode(mode, _) => mode,
                _ => told_mode(log),
            }
            &&& told_power(now) == match call {
                RadioCall::SetTxPower(watts, _) => watts,
                _ => told_power(log),
            }
            &&& told_keyed(now) == match call {
                RadioCall::PttOn(_) => true,
                RadioCall::PttOff(_) => false,
                _ => told_keyed(log),
            }
            &&& all_faithful(now) == (all_faithful(log) && faithful(log, call))
        }),
{
    let now = log.push(call);
    assert(now.drop_last() =~= log);
    assert forall|i: int| 0 <= i <= log.len() implies #[trigger] now.take(i) == log.take(i) by {
        assert(now.take(i) =~= log.take(i));
    }
    assert(log.take(log.len() as int) =~= log);
    assert(now[log.len() as int] == call);
    if all_faithful(now) {
        assert forall|i: int| 0 <= i < log.len() implies faithful(log.take(i), #[trigger] log[i]) by {
            assert(faithful(now.take(i), now[i]));
        }
    }
}

/// Whatever command sends it, a request is answered from the state of the radio: what was
/// set last is what is read.
pub proof fn request_is_answered(radio: MockRadio, called: MockRadio, call: RadioCall)
    requires
        radio.agrees(),
        called.agrees(),
        called.calls() == radio.calls().push(call),
    ensures
        faithful(radio.calls(), call),
        called.frequency == match call {
            RadioCall::SetFrequency(freq, _) => freq,
            _ => radio.frequency,
        },
        called.mode@ == match call {
            RadioCall::SetMode(mode, _) => mode,
            _ => radio.mode@,
        },
        called.tx_power == match call {
            RadioCall::SetTxPower(watts, _) => watts,
            _ => radio.tx_power,
        },
        called.is_transmitting == match call {
            RadioCall::PttOn(_) => true,
            RadioCall::PttOff(_) => false,
            _ => radio.is_transmitting,
        },
{
    lemma_told(radio.calls(), call);
}

/// A stop leaves the radio unkeyed, and everything else as it was.
pub proof fn stop_leaves_radio_unkeyed(
    before: RadioLink<MockRadio>,
    after: RadioLink<MockRadio>,
    unkeyed: Psk31Result<()>,
)
    requires
        before.reachable() matches Some(radio) && radio.agrees(),
        asked(before, after, seq![RadioCall::PttOff(unkeyed)]),
    ensures
        after.reachable() matches Some(called) && {
            &&& called.agrees()
            &&& !called.is_transmitting
            &&& called.tx_power == before.reachable()->0.tx_power
            &&& called.mode@ == before.reachable()->0.mode@
            &&& called.frequency == before.reachable()->0.frequency
        },
{
    let log = before.reachable()->0.calls();
    let call = RadioCall::PttOff(unkeyed);
    assert(log + seq![call] =~= log.push(call));
    lemma_told(log, call);
}

/// A stop of tuning leaves the radio unkeyed, at the power of the profile, and everything
/// else as it was.
pub proof fn stop_restores_the_power(
    before: RadioLink<MockRadio>,
    after: RadioLink<MockRadio>,
    unkeyed: Psk31Result<()>,
    powered: Psk31Result<()>,
    watts: u32,
)
    requires
        before.reachable() matches Some(radio) && radio.agrees(),
        asked(
            before,
            after,
            seq![RadioCall::PttOff(unkeyed), RadioCall::SetTxPower(watts, powered)],
        ),
    ensures
        after.reachable() matches Some(called) && {
            &&& called.agrees()
            &&& !called.is_transmitting
            &&& called.tx_power == watts
            &&& called.mode@ == before.reachable()->0.mode@
            &&& called.frequency == before.reachable()->0.frequency
        },
{
    let log = before.reachable()->0.calls();
    let first = RadioCall::PttOff(unkeyed);
    let second = RadioCall::SetTxPower(watts, powered);
    assert(log + seq![first, second] =~= log.push(first).push(second));
    lemma_told(log, first);
    lemma_told(log.push(first), second);
}

/// Preparing the radio leaves it in the DATA mode of its frequency and at the power that
/// was asked for, whatever mode it was in, and never loses it.
pub proof fn preparation_sets_mode_and_power(
    radio: MockRadio,
    called: MockRadio,
    frequency: Psk31Result<Frequency>,
    mode: Psk31Result<String>,
    corrected: Psk31Result<()>,
    watts: u32,
    powered: Psk31Result<()>,
)
    requires
        radio.agrees(),
        called.agrees(),
        called.calls() == radio.calls() + preparation_calls(
            frequency,
            mode,
            corrected,
            watts,
            powered,
        ),
    ensures
        called.frequency == radio.frequency,
        called.mode@ == data_mode(radio.frequency),
        called.tx_power == watts,
        called.is_transmitting == radio.is_transmitting,
        preparation_outcome(frequency, mode, corrected, powered) == Ok::<(), Psk31Error>(()),
{
    let log = radio.calls();
    let guard = mode_guard_calls(frequency, mode, corrected);
    let power = RadioCall::SetTxPower(watts, powered);
    assert(called.calls() =~= (log + guard).push(power));
    lemma_told(log + guard, power);
    let first = RadioCall::GetFrequency(frequency);
    let second = RadioCall::GetMode(mode);
    lemma_told(log, first);
    lemma_told(log.push(first), second);
    if guard.len() == 1 {
        assert(log + guard =~= log.push(first));
    } else if guard.len() == 2 {
        assert(log + guard =~= log.push(first).push(second));
    } else {
        let third = guard[2];
        assert(log + guard =~= log.push(first).push(second).push(third));
        lemma_told(log.push(first).push(second), third);
    }
}

/// The radio remembers what it was told: a frequency, a mode or a power that was set is
/// the one that is read next.
pub proof fn radio_remembers(freq: Frequency, mode: &str, watts: u32)
    ensures
        forall|
            set: &mut MockRadio,
            get: &mut MockRadio,
            told: Psk31Result<()>,
            read: Psk31Result<Frequency>,
        |
            #[trigger] call_ensures(MockRadio::set_frequency, (set, freq), told)
                && #[trigger] call_ensures(MockRadio::get_frequency, (get,), read) && *get
                == *final(set) ==> read == Ok::<Frequency, Psk31Error>(freq),
        forall|
            set: &mut MockRadio,
            get: &mut MockRadio,
            told: Psk31Result<()>,
            read: Psk31Result<String>,
        |
            #[trigger] call_ensures(MockRadio::set_mode, (set, mode), told)
                && #[trigger] call_ensures(MockRadio::get_mode, (get,), read) && *get
                == *final(set) ==> read is Ok && read->Ok_0@ == mode@,
        forall|
            set: &mut MockRadio,
            get: &mut MockRadio,
            told: Psk31Result<()>,
            read: Psk31Result<u32>,
        |
            #[trigger] call_ensures(MockRadio::set_tx_power, (set, watts), told)
                && #[trigger] call_ensures(MockRadio::get_tx_power, (get,), read) && *get
                == *final(set) ==> read == Ok::<u32, Psk31Error>(watts),
{
}

} // verus!
