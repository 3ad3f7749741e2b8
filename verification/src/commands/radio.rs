//! Radio control commands: PTT, frequency, mode.
//!
//! A serial error means that the hardware is gone. The link then lets go of the radio and
//! forgets the port, and the caller is told to announce that.

use crate::domain::error::{Psk31Error, Psk31Result};
use crate::domain::frequency::Frequency;
use crate::domain::types::{RadioStatus, SignalStrength};
use crate::ports::radio::{RadioCall, RadioControl};
use crate::state::{Guarded, RadioLink};
use vstd::prelude::*;

verus! {

/// Why a radio command did not succeed.
#[derive(Debug)]
pub enum RadioError {
    /// A thread panicked while it used the radio.
    StateCorrupted,
    NotConnected,
    /// The radio failed.
    Failed(Psk31Error),
}

/// What the user interface is told when the hardware is gone.
#[derive(Debug)]
pub struct SerialDisconnectedPayload {
    pub reason: Psk31Error,
    pub port: String,
}

/// The outcome of a radio command, and what goes with it where the hardware is gone.
#[derive(Debug)]
pub struct RadioReply<R, T> {
    pub result: Result<T, RadioError>,
    /// The `serial-disconnected` event to announce.
    pub disconnected: Option<SerialDisconnectedPayload>,
    /// The radio that the link has let go of, as the command left it. The caller drops it,
    /// which closes the port.
    pub dropped: Option<R>,
}

/// The text that a command fails with. `shown` is what the failure of the radio reads
/// like, and counts only where there is one.
pub fn radio_error_text(error: &RadioError, shown: &str) -> (text: String)
    ensures
        text@ == match *error {
            RadioError::StateCorrupted => "Radio state corrupted"@,
            RadioError::NotConnected => "Radio not connected"@,
            RadioError::Failed(_) => shown@,
        },
{
    match error {
        RadioError::StateCorrupted => "Radio state corrupted".to_owned(),
        RadioError::NotConnected => "Radio not connected".to_owned(),
        RadioError::Failed(_) => shown.to_owned(),
    }
}

/// What a link and a reply look like after a connected radio has answered `result`.
/// `radio` is the radio after the call.
pub open spec fn settled<R, T>(
    before: RadioLink<R>,
    radio: R,
    result: Psk31Result<T>,
    after: RadioLink<R>,
    reply: RadioReply<R, T>,
) -> bool {
    match result {
        Ok(value) => {
            &&& after == RadioLink { radio: Guarded::sound(Some(radio)), ..before }
            &&& reply == RadioReply::<R, T> {
                result: Ok(value),
                disconnected: None,
                dropped: None,
            }
        },
        Err(Psk31Error::Serial(message)) => {
            &&& after == RadioLink::<R>::initial()
            &&& reply.result == Err::<T, RadioError>(RadioError::Failed(Psk31Error::Serial(message)))
            &&& reply.disconnected matches Some(event)
            &&& event.reason == Psk31Error::Serial(message)
            &&& event.port@ == match before.serial_port_name {
                Some(port) => port@,
                None => Seq::empty(),
            }
            &&& reply.dropped == Some(radio)
        },
        Err(error) => {
            &&& after == RadioLink { radio: Guarded::sound(Some(radio)), ..before }
            &&& reply == RadioReply::<R, T> {
                result: Err(RadioError::Failed(error)),
                disconnected: None,
                dropped: None,
            }
        },
    }
}

/// What a link and a reply look like where no radio could be called.
pub open spec fn unreachable_reply<R, T>(
    before: RadioLink<R>,
    after: RadioLink<R>,
    reply: RadioReply<R, T>,
) -> bool {
    &&& after == before
    &&& reply == RadioReply::<R, T> {
        result: Err(
            if before.radio.poisoned {
                RadioError::StateCorrupted
            } else {
                RadioError::NotConnected
            },
        ),
        disconnected: None,
        dropped: None,
    }
}

/// Take note of what a connected radio answered: on a serial error forget the port, hand
/// the radio out, and say what to announce.
pub fn settle_radio_call<R, T>(link: &mut RadioLink<R>, result: Psk31Result<T>) -> (reply:
    RadioReply<R, T>)
    requires
        old(link).reachable() is Some,
    ensures
        settled(*old(link), old(link).reachable()->0, result, *final(link), reply),
{
    match result {
        Ok(value) => RadioReply { result: Ok(value), disconnected: None, dropped: None },
        Err(Psk31Error::Serial(message)) => {
            let dropped: Option<R> = link.radio.value.take();
            let port: String = match link.serial_port_name.take() {
                Some(port) => port,
                None => String::new(),
            };
            let reason = Psk31Error::Serial(message.clone());
            RadioReply {
                result: Err(RadioError::Failed(Psk31Error::Serial(message))),
                disconnected: Some(SerialDisconnectedPayload { reason, port }),
                dropped,
            }
        },
        Err(error) => RadioReply {
            result: Err(RadioError::Failed(error)),
            disconnected: None,
            dropped: None,
        },
    }
}

/// Run `f` on the radio if one is connected.
pub fn with_radio<R, T, F: FnOnce(&mut R) -> Psk31Result<T>>(link: &mut RadioLink<R>, f: F) -> (reply:
    RadioReply<R, T>)
    requires
        forall|radio: &mut R| call_requires(f, (radio,)),
    ensures
        old(link).reachable() is None ==> unreachable_reply(*old(link), *final(link), reply),
        old(link).reachable() matches Some(before) ==> exists|
            radio: &mut R,
            result: Psk31Result<T>,
        | #[trigger]
            call_ensures(f, (radio,), result) && *radio == before && settled(
                *old(link),
                *final(radio),
                result,
                *final(link),
                reply,
            ),
{
    if link.radio.poisoned {
        return RadioReply {
            result: Err(RadioError::StateCorrupted),
            disconnected: None,
            dropped: None,
        };
    }
    let result = match &mut link.radio.value {
        None => {
            return RadioReply {
                result: Err(RadioError::NotConnected),
                disconnected: None,
                dropped: None,
            };
        },
        Some(radio) => f(radio),
    };
    settle_radio_call(link, result)
}

/// One more request has reached the radio.
pub open spec fn request_made<R: RadioControl>(before: R, after: R, call: RadioCall) -> bool {
    &&& after.calls() == before.calls().push(call)
    &&& before.agrees() ==> after.agrees()
}

/// The contract of a command that makes one request: the request reaches a connected
/// radio once, and nothing else does, whatever the radio answers. The link and the reply
/// follow from the answer alone: one of the two holds the radio afterwards. A radio whose
/// state agrees with its log still does.
pub open spec fn one_request<R: RadioControl, T>(
    before: RadioLink<R>,
    after: RadioLink<R>,
    reply: RadioReply<R, T>,
    call: spec_fn(Psk31Result<T>) -> RadioCall,
) -> bool {
    match before.reachable() {
        None => unreachable_reply(before, after, reply),
        Some(radio) => exists|called: R, result: Psk31Result<T>|
            {
                &&& #[trigger] called.calls() == radio.calls().push(call(result))
                &&& radio.agrees() ==> called.agrees()
                &&& #[trigger] settled(before, called, result, after, reply)
            },
    }
}

/// Key the transmitter.
pub fn ptt_on<R: RadioControl>(link: &mut RadioLink<R>) -> (reply: RadioReply<R, ()>)
    ensures
        one_request(*old(link), *final(link), reply, |r: Psk31Result<()>| RadioCall::PttOn(r)),
{
    with_radio(
        link,
        |radio: &mut R| -> (r: Psk31Result<()>)
            ensures
                request_made(*old(radio), *final(radio), RadioCall::PttOn(r))
        {
            radio.ptt_on()
        },
    )
}

/// Unkey the transmitter.
pub fn ptt_off<R: RadioControl>(link: &mut RadioLink<R>) -> (reply: RadioReply<R, ()>)
    ensures
        one_request(*old(link), *final(link), reply, |r: Psk31Result<()>| RadioCall::PttOff(r)),
{
    with_radio(
        link,
        |radio: &mut R| -> (r: Psk31Result<()>)
            ensures
                request_made(*old(radio), *final(radio), RadioCall::PttOff(r))
        {
            radio.ptt_off()
        },
    )
}

/// Read the frequency.
pub fn get_frequency<R: RadioControl>(link: &mut RadioLink<R>) -> (reply: RadioReply<R, Frequency>)
    ensures
        one_request(*old(link), *final(link), reply, |r: Psk31Result<Frequency>| RadioCall::GetFrequency(r)),
{
    with_radio(
        link,
        |radio: &mut R| -> (r: Psk31Result<Frequency>)
            ensures
                request_made(*old(radio), *final(radio), RadioCall::GetFrequency(r))
        {
            radio.get_frequency()
        },
    )
}

/// Tune the radio.
pub fn set_frequency<R: RadioControl>(link: &mut RadioLink<R>, freq: Frequency) -> (reply: RadioReply<R, ()>)
    ensures
        one_request(*old(link), *final(link), reply, |r: Psk31Result<()>| RadioCall::SetFrequency(freq, r)),
{
    with_radio(
        link,
        |radio: &mut R| -> (r: Psk31Result<()>)
            ensures
                request_made(*old(radio), *final(radio), RadioCall::SetFrequency(freq, r))
        {
            radio.set_frequency(freq)
        },
    )
}

/// Read the mode.
pub fn get_mode<R: RadioControl>(link: &mut RadioLink<R>) -> (reply: RadioReply<R, String>)
    ensures
        one_request(*old(link), *final(link), reply, |r: Psk31Result<String>| RadioCall::GetMode(r)),
{
    with_radio(
        link,
        |radio: &mut R| -> (r: Psk31Result<String>)
            ensures
                request_made(*old(radio), *final(radio), RadioCall::GetMode(r))
        {
            radio.get_mode()
        },
    )
}

/// Choose the mode.
pub fn set_mode<R: RadioControl>(link: &mut RadioLink<R>, mode: &str) -> (reply: RadioReply<R, ()>)
    ensures
        one_request(*old(link), *final(link), reply, |r: Psk31Result<()>| RadioCall::SetMode(mode@, r)),
{
    with_radio(
        link,
        |radio: &mut R| -> (r: Psk31Result<()>)
            ensures
                request_made(*old(radio), *final(radio), RadioCall::SetMode(mode@, r))
        {
            radio.set_mode(mode)
        },
    )
}

/// Read the signal meter.
pub fn get_signal_strength<R: RadioControl>(link: &mut RadioLink<R>) -> (reply: RadioReply<R, SignalStrength>)
    ensures
        one_request(*old(link), *final(link), reply, |r: Psk31Result<SignalStrength>| RadioCall::GetSignalStrength(r)),
{
    with_radio(
        link,
        |radio: &mut R| -> (r: Psk31Result<SignalStrength>)
            ensures
                request_made(*old(radio), *final(radio), RadioCall::GetSignalStrength(r))
        {
            radio.get_signal_strength()
        },
    )
}

/// Read frequency and mode in one round trip, for the periodic update of the display.
pub fn get_radio_state<R: RadioControl>(link: &mut RadioLink<R>) -> (reply: RadioReply<R, RadioStatus>)
    ensures
        one_request(*old(link), *final(link), reply, |r: Psk31Result<RadioStatus>| RadioCall::GetStatus(r)),
{
    with_radio(
        link,
        |radio: &mut R| -> (r: Psk31Result<RadioStatus>)
            ensures
                request_made(*old(radio), *final(radio), RadioCall::GetStatus(r))
        {
            radio.get_status()
        },
    )
}

/// Read the transmit power.
pub fn get_tx_power<R: RadioControl>(link: &mut RadioLink<R>) -> (reply: RadioReply<R, u32>)
    ensures
        one_request(*old(link), *final(link), reply, |r: Psk31Result<u32>| RadioCall::GetTxPower(r)),
{
    with_radio(
        link,
        |radio: &mut R| -> (r: Psk31Result<u32>)
            ensures
                request_made(*old(radio), *final(radio), RadioCall::GetTxPower(r))
        {
            radio.get_tx_power()
        },
    )
}

/// Once a serial error has been settled the radio is gone: every later command finds
/// none, until the user connects again.
pub proof fn serial_error_disconnects<R, T>(
    before: RadioLink<R>,
    radio: R,
    message: String,
    after: RadioLink<R>,
    reply: RadioReply<R, T>,
)
    requires
        settled(before, radio, Err(Psk31Error::Serial(message)), after, reply),
    ensures
        after.reachable() is None,
        !after.radio.poisoned,
        after.serial_port_name is None,
        reply.disconnected is Some,
        reply.dropped == Some(radio),
{
}

/// Nothing but a serial error disconnects: every other answer leaves the radio and the
/// port where they are, and announces nothing.
pub proof fn other_answers_keep_the_radio<R, T>(
    before: RadioLink<R>,
    radio: R,
    result: Psk31Result<T>,
    after: RadioLink<R>,
    reply: RadioReply<R, T>,
)
    requires
        settled(before, radio, result, after, reply),
        !(result matches Err(Psk31Error::Serial(_))),
    ensures
        after.reachable() == Some(radio),
        after.serial_port_name == before.serial_port_name,
        reply.disconnected is None,
        reply.dropped is None,
{
}

} // verus!
