//! Radio commands.

use crate::commands::config::send_tx_power;
use crate::commands::radio::{
    get_frequency, get_mode, get_radio_state, get_signal_strength, get_tx_power, ptt_off, ptt_on,
    radio_error_text, set_frequency, set_mode, settle_radio_call, settled, with_radio, RadioError,
    RadioReply,
};
use crate::domain::error::Psk31Result;
use crate::domain::frequency::Frequency;
use crate::domain::types::{RadioStatus, SignalStrength};
use crate::ports::radio::{RadioCall, RadioControl};
use crate::state::RadioLink;
use vstd::prelude::*;

verus! {

/// Nobody was asked: the link is as it was, and the reply says why.
pub open spec fn refused<R, T>(
    before: RadioLink<R>,
    after: RadioLink<R>,
    reply: RadioReply<R, T>,
) -> bool {
    &&& after == before
    &&& reply.result is Err
    &&& reply.result->Err_0 is StateCorrupted <==> before.radio.poisoned
    &&& reply.result->Err_0 is NotConnected <==> !before.radio.poisoned
    &&& reply.disconnected is None
    &&& reply.dropped is None
}

/// The answer of a connected radio came through: as it was, with the radio kept, unless it
/// was a serial error, which costs the radio and the port and is announced with both.
/// `radio` is the radio after the call.
pub open spec fn came_through<R, T>(
    before: RadioLink<R>,
    radio: R,
    answer: Psk31Result<T>,
    after: RadioLink<R>,
    reply: RadioReply<R, T>,
) -> bool {
    let lost = answer is Err && answer->Err_0 is Serial;
    &&& answer is Ok ==> reply.result is Ok && reply.result->Ok_0 == answer->Ok_0
    &&& answer is Err ==> reply.result is Err && reply.result->Err_0 == RadioError::Failed(
        answer->Err_0,
    )
    &&& !after.radio.poisoned
    &&& !lost ==> {
        &&& after.radio.value == Some(radio)
        &&& after.serial_port_name == before.serial_port_name
        &&& reply.disconnected is None
        &&& reply.dropped is None
    }
    &&& lost ==> {
        &&& after.radio.value is None
        &&& after.serial_port_name is None
        &&& reply.dropped == Some(radio)
        &&& reply.disconnected is Some
        &&& reply.disconnected->0.reason == answer->Err_0
        &&& before.serial_port_name is Some ==> reply.disconnected->0.port@
            == before.serial_port_name->0@
        &&& before.serial_port_name is None ==> reply.disconnected->0.port@.len() == 0
    }
}

/// One request was made of a connected radio, and nothing else; or nobody was asked.
pub open spec fn one_request_made<R: RadioControl, T>(
    before: RadioLink<R>,
    after: RadioLink<R>,
    reply: RadioReply<R, T>,
    call: spec_fn(Psk31Result<T>) -> RadioCall,
) -> bool {
    if before.radio.poisoned || before.radio.value is None {
        refused(before, after, reply)
    } else {
        exists|called: R, answer: Psk31Result<T>|
            {
                &&& #[trigger] came_through(before, called, answer, after, reply)
                &&& called.calls() == before.radio.value->0.calls().push(call(answer))
                &&& before.radio.value->0.agrees() ==> called.agrees()
            }
    }
}

proof fn lemma_one_request<R: RadioControl, T>(
    before: RadioLink<R>,
    after: RadioLink<R>,
    reply: RadioReply<R, T>,
    call: spec_fn(Psk31Result<T>) -> RadioCall,
)
    requires
        crate::commands::radio::one_request(before, after, reply, call),
    ensures
        one_request_made(before, after, reply, call),
{
    if !before.radio.poisoned && before.radio.value is Some {
        let radio = before.radio.value->0;
        let (called, answer) = choose|called: R, answer: Psk31Result<T>|
            {
                &&& #[trigger] called.calls() == radio.calls().push(call(answer))
                &&& radio.agrees() ==> called.agrees()
                &&& #[trigger] settled(before, called, answer, after, reply)
            };
        assert(came_through(before, called, answer, after, reply));
    }
}

/// Whatever is done with the radio: a radio that is there is called once, with its own
/// state, and its answer comes through; where none is there nothing is done.
pub proof fn radio_is_called_once<R, T, F: FnOnce(&mut R) -> Psk31Result<T>>(f: F)
    ensures
        forall|link: &mut RadioLink<R>, reply: RadioReply<R, T>| #[trigger]
            call_ensures(with_radio::<R, T, F>, (link, f), reply) ==> {
                let before = *link;
                let after = *final(link);
                if before.radio.poisoned || before.radio.value is None {
                    refused(before, after, reply)
                } else {
                    exists|radio: &mut R, answer: Psk31Result<T>|
                        {
                            &&& #[trigger] call_ensures(f, (radio,), answer)
                            &&& *radio == before.radio.value->0
                            &&& came_through(before, *final(radio), answer, after, reply)
                        }
                }
            },
{
}

/// The answer of a connected radio always comes through.
pub proof fn answers_come_through<R, T>()
    ensures
        forall|link: &mut RadioLink<R>, answer: Psk31Result<T>, reply: RadioReply<R, T>|
            (#[trigger] call_ensures(settle_radio_call::<R, T>, (link, answer), reply)
                && !(*link).radio.poisoned && (*link).radio.value is Some) ==> came_through(
                *link,
                (*link).radio.value->0,
                answer,
                *final(link),
                reply,
            ),
{
}

/// The texts of failures. What the radio said is passed on as it is shown.
pub proof fn failures_have_texts(error: &RadioError, shown: &str, text: String)
    requires
        call_ensures(radio_error_text, (error, shown), text),
    ensures
        *error is StateCorrupted ==> text@ == "Radio state corrupted"@,
        *error is NotConnected ==> text@ == "Radio not connected"@,
        *error is Failed ==> text@ == shown@,
{
}

/// `ptt_on` makes its own request, with its own argument, and no other.
pub proof fn ptt_on_makes_its_request<R: RadioControl>()
    ensures
        forall|link: &mut RadioLink<R>, reply: RadioReply<R, ()>| #[trigger]
            call_ensures(ptt_on::<R>, (link,), reply) ==> one_request_made(
                *link,
                *final(link),
                reply,
                |r: Psk31Result<()>| RadioCall::PttOn(r),
            ),
{
    assert forall|link: &mut RadioLink<R>, reply: RadioReply<R, ()>| #[trigger]
        call_ensures(ptt_on::<R>, (link,), reply) implies one_request_made(
        *link,
        *final(link),
        reply,
        |r: Psk31Result<()>| RadioCall::PttOn(r),
    ) by {
        lemma_one_request(
            *link,
            *final(link),
            reply,
            |r: Psk31Result<()>| RadioCall::PttOn(r),
        );
    }
}

/// `ptt_off` makes its own request, with its own argument, and no other.
pub proof fn ptt_off_makes_its_request<R: RadioControl>()
    ensures
        forall|link: &mut RadioLink<R>, reply: RadioReply<R, ()>| #[trigger]
            call_ensures(ptt_off::<R>, (link,), reply) ==> one_request_made(
                *link,
                *final(link),
                reply,
                |r: Psk31Result<()>| RadioCall::PttOff(r),
            ),
{
    assert forall|link: &mut RadioLink<R>, reply: RadioReply<R, ()>| #[trigger]
        call_ensures(ptt_off::<R>, (link,), reply) implies one_request_made(
        *link,
        *final(link),
        reply,
        |r: Psk31Result<()>| RadioCall::PttOff(r),
    ) by {
        lemma_one_request(
            *link,
            *final(link),
            reply,
            |r: Psk31Result<()>| RadioCall::PttOff(r),
        );
    }
}

/// `get_frequency` makes its own request, with its own argument, and no other.
pub proof fn get_frequency_makes_its_request<R: RadioControl>()
    ensures
        forall|link: &mut RadioLink<R>, reply: RadioReply<R, Frequency>| #[trigger]
            call_ensures(get_frequency::<R>, (link,), reply) ==> one_request_made(
                *link,
                *final(link),
                reply,
                |r: Psk31Result<Frequency>| RadioCall::GetFrequency(r),
            ),
{
    assert forall|link: &mut RadioLink<R>, reply: RadioReply<R, Frequency>| #[trigger]
        call_ensures(get_frequency::<R>, (link,), reply) implies one_request_made(
        *link,
        *final(link),
        reply,
        |r: Psk31Result<Frequency>| RadioCall::GetFrequency(r),
    ) by {
        lemma_one_request(
            *link,
            *final(link),
            reply,
            |r: Psk31Result<Frequency>| RadioCall::GetFrequency(r),
        );
    }
}

/// `set_frequency` makes its own request, with its own argument, and no other.
pub proof fn set_frequency_makes_its_request<R: RadioControl>(freq: Frequency)
    ensures
        forall|link: &mut RadioLink<R>, reply: RadioReply<R, ()>| #[trigger]
            call_ensures(set_frequency::<R>, (link, freq), reply) ==> one_request_made(
                *link,
                *final(link),
                reply,
                |r: Psk31Result<()>| RadioCall::SetFrequency(freq, r),
            ),
{
    assert forall|link: &mut RadioLink<R>, reply: RadioReply<R, ()>| #[trigger]
        call_ensures(set_frequency::<R>, (link, freq), reply) implies one_request_made(
        *link,
        *final(link),
        reply,
        |r: Psk31Result<()>| RadioCall::SetFrequency(freq, r),
    ) by {
        lemma_one_request(
            *link,
            *final(link),
            reply,
            |r: Psk31Result<()>| RadioCall::SetFrequency(freq, r),
        );
    }
}

/// `get_mode` makes its own request, with its own argument, and no other.
pub proof fn get_mode_makes_its_request<R: RadioControl>()
    ensures
        forall|link: &mut RadioLink<R>, reply: RadioReply<R, String>| #[trigger]
            call_ensures(get_mode::<R>, (link,), reply) ==> one_request_made(
                *link,
                *final(link),
                reply,
                |r: Psk31Result<String>| RadioCall::GetMode(r),
            ),
{
    assert forall|link: &mut RadioLink<R>, reply: RadioReply<R, String>| #[trigger]
        call_ensures(get_mode::<R>, (link,), reply) implies one_request_made(
        *link,
        *final(link),
        reply,
        |r: Psk31Result<String>| RadioCall::GetMode(r),
    ) by {
        lemma_one_request(
            *link,
            *final(link),
            reply,
            |r: Psk31Result<String>| RadioCall::GetMode(r),
        );
    }
}

/// `set_mode` makes its own request, with its own argument, and no other.
pub proof fn set_mode_makes_its_request<R: RadioControl>(mode: &str)
    ensures
        forall|link: &mut RadioLink<R>, reply: RadioReply<R, ()>| #[trigger]
            call_ensures(set_mode::<R>, (link, mode), reply) ==> one_request_made(
                *link,
                *final(link),
                reply,
                |r: Psk31Result<()>| RadioCall::SetMode(mode@, r),
            ),
{
    assert forall|link: &mut RadioLink<R>, reply: RadioReply<R, ()>| #[trigger]
        call_ensures(set_mode::<R>, (link, mode), reply) implies one_request_made(
        *link,
        *final(link),
        reply,
        |r: Psk31Result<()>| RadioCall::SetMode(mode@, r),
    ) by {
        lemma_one_request(
            *link,
            *final(link),
            reply,
            |r: Psk31Result<()>| RadioCall::SetMode(mode@, r),
        );
    }
}

/// `get_signal_strength` makes its own request, with its own argument, and no other.
pub proof fn get_signal_strength_makes_its_request<R: RadioControl>()
    ensures
        forall|link: &mut RadioLink<R>, reply: RadioReply<R, SignalStrength>| #[trigger]
            call_ensures(get_signal_strength::<R>, (link,), reply) ==> one_request_made(
                *link,
                *final(link),
                reply,
                |r: Psk31Result<SignalStrength>| RadioCall::GetSignalStrength(r),
            ),
{
    assert forall|link: &mut RadioLink<R>, reply: RadioReply<R, SignalStrength>| #[trigger]
        call_ensures(get_signal_strength::<R>, (link,), reply) implies one_request_made(
        *link,
        *final(link),
        reply,
        |r: Psk31Result<SignalStrength>| RadioCall::GetSignalStrength(r),
    ) by {
        lemma_one_request(
            *link,
            *final(link),
            reply,
            |r: Psk31Result<SignalStrength>| RadioCall::GetSignalStrength(r),
        );
    }
}

/// `get_radio_state` makes its own request, with its own argument, and no other.
pub proof fn get_radio_state_makes_its_request<R: RadioControl>()
    ensures
        forall|link: &mut RadioLink<R>, reply: RadioReply<R, RadioStatus>| #[trigger]
            call_ensures(get_radio_state::<R>, (link,), reply) ==> one_request_made(
                *link,
                *final(link),
                reply,
                |r: Psk31Result<RadioStatus>| RadioCall::GetStatus(r),
            ),
{
    assert forall|link: &mut RadioLink<R>, reply: RadioReply<R, RadioStatus>| #[trigger]
        call_ensures(get_radio_state::<R>, (link,), reply) implies one_request_made(
        *link,
        *final(link),
        reply,
        |r: Psk31Result<RadioStatus>| RadioCall::GetStatus(r),
    ) by {
        lemma_one_request(
            *link,
            *final(link),
            reply,
            |r: Psk31Result<RadioStatus>| RadioCall::GetStatus(r),
        );
    }
}

/// `get_tx_power` makes its own request, with its own argument, and no other.
pub proof fn get_tx_power_makes_its_request<R: RadioControl>()
    ensures
        forall|link: &mut RadioLink<R>, reply: RadioReply<R, u32>| #[trigger]
            call_ensures(get_tx_power::<R>, (link,), reply) ==> one_request_made(
                *link,
                *final(link),
                reply,
                |r: Psk31Result<u32>| RadioCall::GetTxPower(r),
            ),
{
    assert forall|link: &mut RadioLink<R>, reply: RadioReply<R, u32>| #[trigger]
        call_ensures(get_tx_power::<R>, (link,), reply) implies one_request_made(
        *link,
        *final(link),
        reply,
        |r: Psk31Result<u32>| RadioCall::GetTxPower(r),
    ) by {
        lemma_one_request(
            *link,
            *final(link),
            reply,
            |r: Psk31Result<u32>| RadioCall::GetTxPower(r),
        );
    }
}

/// `send_tx_power` makes its own request, with its own argument, and no other.
pub proof fn send_tx_power_makes_its_request<R: RadioControl>(watts: u32)
    ensures
        forall|link: &mut RadioLink<R>, reply: RadioReply<R, ()>| #[trigger]
            call_ensures(send_tx_power::<R>, (link, watts), reply) ==> one_request_made(
                *link,
                *final(link),
                reply,
                |r: Psk31Result<()>| RadioCall::SetTxPower(watts, r),
            ),
{
    assert forall|link: &mut RadioLink<R>, reply: RadioReply<R, ()>| #[trigger]
        call_ensures(send_tx_power::<R>, (link, watts), reply) implies one_request_made(
        *link,
        *final(link),
        reply,
        |r: Psk31Result<()>| RadioCall::SetTxPower(watts, r),
    ) by {
        lemma_one_request(
            *link,
            *final(link),
            reply,
            |r: Psk31Result<()>| RadioCall::SetTxPower(watts, r),
        );
    }
}

} // verus!
