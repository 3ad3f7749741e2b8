//! Starting and stopping a transmission.

use crate::commands::radio::RadioReply;
use crate::commands::tx::{
    ensure_data_mode, key_radio, mode_guard_calls, mode_guard_loss, preparation_calls,
    preparation_outcome, prepare_for_transmission, prepare_radio, restore_after_tune, start_step,
    start_tune, start_tx, stop_tune, stop_tune_inner, stop_tx, stop_tx_inner, unkey_radio,
    StartAction, StartEvent, StartKind, StartPhase, TxStatus,
};
use crate::domain::error::{Psk31Error, Psk31Result};
use crate::domain::frequency::Frequency;
use crate::domain::types::ModemConfig;
use crate::laws::frequency::{conventional_mode, lemma_conventional};
use crate::laws::radio::{came_through, refused};
use crate::ports::radio::{RadioCall, RadioControl};
use crate::state::{RadioLink, TxControl, TxState};
use vstd::prelude::*;

verus! {

// ---------------------------------------------------------------------------
// Radio
// ---------------------------------------------------------------------------

/// The request was answered with a serial error, with this message.
pub open spec fn lost_in(call: RadioCall, message: String) -> bool {
    match call {
        RadioCall::GetFrequency(answer) => answer == Err::<Frequency, Psk31Error>(
            Psk31Error::Serial(message),
        ),
        RadioCall::GetMode(answer) => answer == Err::<String, Psk31Error>(
            Psk31Error::Serial(message),
        ),
        RadioCall::SetMode(_, answer) => answer == Err::<(), Psk31Error>(
            Psk31Error::Serial(message),
        ),
        RadioCall::SetTxPower(_, answer) => answer == Err::<(), Psk31Error>(
            Psk31Error::Serial(message),
        ),
        _ => false,
    }
}

/// The first serial error among these requests, if there is one.
pub open spec fn first_loss(calls: Seq<RadioCall>, lost: Option<String>) -> bool {
    match lost {
        None => forall|i: int, message: String|
            0 <= i < calls.len() ==> !#[trigger] lost_in(calls[i], message),
        Some(message) => exists|i: int|
            {
                &&& 0 <= i < calls.len()
                &&& #[trigger] lost_in(calls[i], message)
                &&& forall|j: int, other: String|
                    0 <= j < i ==> !#[trigger] lost_in(calls[j], other)
            },
    }
}

/// The requests of a mode guard: the frequency is read; if that worked, the mode is read;
/// if that worked and the mode is not the one of the frequency, that one is set. There are no
/// others.
pub open spec fn guards_the_mode(calls: Seq<RadioCall>) -> bool {
    &&& 1 <= calls.len() <= 3
    &&& calls[0] is GetFrequency
    &&& calls.len() > 1 <==> calls[0]->GetFrequency_0 is Ok
    &&& calls.len() > 1 ==> calls[1] is GetMode
    &&& calls.len() > 2 <==> {
        &&& calls.len() > 1
        &&& calls[1]->GetMode_0 is Ok
        &&& calls[1]->GetMode_0->Ok_0@ != conventional_mode(calls[0]->GetFrequency_0->Ok_0)
    }
    &&& calls.len() > 2 ==> calls[2] is SetMode && calls[2]->SetMode_0 == conventional_mode(
        calls[0]->GetFrequency_0->Ok_0,
    )
}

proof fn lemma_guard(
    frequency: Psk31Result<Frequency>,
    mode: Psk31Result<String>,
    corrected: Psk31Result<()>,
)
    ensures
        guards_the_mode(mode_guard_calls(frequency, mode, corrected)),
        first_loss(
            mode_guard_calls(frequency, mode, corrected),
            mode_guard_loss(frequency, mode, corrected),
        ),
{
    let calls = mode_guard_calls(frequency, mode, corrected);
    if frequency is Ok {
        lemma_conventional(frequency->Ok_0);
    }
    match mode_guard_loss(frequency, mode, corrected) {
        Some(message) => {
            let at = calls.len() - 1;
            assert(lost_in(calls[at], message));
        },
        None => {},
    }
}

/// The mode guard makes its requests and no others, and says which serial error it met
/// first, if it met one. The requests before it stay on record.
pub proof fn guard_makes_its_requests<R: RadioControl>()
    ensures
        forall|radio: &mut R, lost: Option<String>| #[trigger]
            call_ensures(ensure_data_mode::<R>, (radio,), lost) ==> {
                let before = (*radio).calls();
                let after = final(radio).calls();
                &&& after.len() >= before.len()
                &&& after.take(before.len() as int) == before
                &&& guards_the_mode(after.skip(before.len() as int))
                &&& first_loss(after.skip(before.len() as int), lost)
                &&& (*radio).agrees() ==> final(radio).agrees()
            },
{
    assert forall|radio: &mut R, lost: Option<String>| #[trigger]
        call_ensures(ensure_data_mode::<R>, (radio,), lost) implies {
        let before = (*radio).calls();
        let after = final(radio).calls();
        &&& after.len() >= before.len()
        &&& after.take(before.len() as int) == before
        &&& guards_the_mode(after.skip(before.len() as int))
        &&& first_loss(after.skip(before.len() as int), lost)
        &&& (*radio).agrees() ==> final(radio).agrees()
    } by {
        let before = (*radio).calls();
        let after = final(radio).calls();
        let (frequency, mode, corrected) = choose|
            frequency: Psk31Result<Frequency>,
            mode: Psk31Result<String>,
            corrected: Psk31Result<()>,
        |
            after == before + #[trigger] mode_guard_calls(frequency, mode, corrected) && lost
                == mode_guard_loss(frequency, mode, corrected);
        lemma_guard(frequency, mode, corrected);
        assert(after.take(before.len() as int) =~= before);
        assert(after.skip(before.len() as int) =~= mode_guard_calls(frequency, mode, corrected));
    }
}

/// The requests that prepare a radio: those of the mode guard, and then, whatever it met,
/// the power.
pub open spec fn prepares(calls: Seq<RadioCall>, watts: u32) -> bool {
    &&& calls.len() > 0
    &&& guards_the_mode(calls.drop_last())
    &&& calls.last() is SetTxPower
    &&& calls.last()->SetTxPower_0 == watts
}

/// Preparing fails with the first serial error among its requests, and with nothing else.
pub open spec fn fails_on_loss(calls: Seq<RadioCall>, r: Psk31Result<()>) -> bool {
    match r {
        Ok(_) => first_loss(calls, None),
        Err(Psk31Error::Serial(message)) => first_loss(calls, Some(message)),
        Err(_) => false,
    }
}

proof fn lemma_preparation(
    frequency: Psk31Result<Frequency>,
    mode: Psk31Result<String>,
    corrected: Psk31Result<()>,
    watts: u32,
    powered: Psk31Result<()>,
)
    ensures
        prepares(preparation_calls(frequency, mode, corrected, watts, powered), watts),
        fails_on_loss(
            preparation_calls(frequency, mode, corrected, watts, powered),
            preparation_outcome(frequency, mode, corrected, powered),
        ),
{
    lemma_guard(frequency, mode, corrected);
    let guard = mode_guard_calls(frequency, mode, corrected);
    let calls = preparation_calls(frequency, mode, corrected, watts, powered);
    assert(calls.drop_last() =~= guard);
    assert forall|i: int, message: String| 0 <= i < guard.len() implies #[trigger] lost_in(
        calls[i],
        message,
    ) == lost_in(guard[i], message) by {}
    match mode_guard_loss(frequency, mode, corrected) {
        Some(message) => {
            let i = choose|i: int|
                {
                    &&& 0 <= i < guard.len()
                    &&& #[trigger] lost_in(guard[i], message)
                    &&& forall|j: int, other: String|
                        0 <= j < i ==> !#[trigger] lost_in(guard[j], other)
                };
            assert(lost_in(calls[i], message));
            assert forall|j: int, other: String| 0 <= j < i implies !#[trigger] lost_in(
                calls[j],
                other,
            ) by {
                assert(!lost_in(guard[j], other));
            }
        },
        None => {
            assert forall|j: int, other: String| 0 <= j < guard.len() implies !#[trigger] lost_in(
                calls[j],
                other,
            ) by {
                assert(!lost_in(guard[j], other));
            }
            match powered {
                Err(Psk31Error::Serial(message)) => {
                    assert(lost_in(calls[calls.len() - 1], message));
                },
                _ => {},
            }
        },
    }
}

/// A radio is prepared by the requests of the mode guard and the power that was asked for,
/// and fails on a serial error alone.
pub proof fn preparation_makes_its_requests<R: RadioControl>(watts: u32)
    ensures
        forall|radio: &mut R, r: Psk31Result<()>| #[trigger]
            call_ensures(prepare_for_transmission::<R>, (radio, watts), r) ==> {
                let before = (*radio).calls();
                let after = final(radio).calls();
                &&& after.len() >= before.len()
                &&& after.take(before.len() as int) == before
                &&& prepares(after.skip(before.len() as int), watts)
                &&& fails_on_loss(after.skip(before.len() as int), r)
                &&& (*radio).agrees() ==> final(radio).agrees()
            },
{
    assert forall|radio: &mut R, r: Psk31Result<()>| #[trigger]
        call_ensures(prepare_for_transmission::<R>, (radio, watts), r) implies {
        let before = (*radio).calls();
        let after = final(radio).calls();
        &&& after.len() >= before.len()
        &&& after.take(before.len() as int) == before
        &&& prepares(after.skip(before.len() as int), watts)
        &&& fails_on_loss(after.skip(before.len() as int), r)
        &&& (*radio).agrees() ==> final(radio).agrees()
    } by {
        let before = (*radio).calls();
        let after = final(radio).calls();
        let (frequency, mode, corrected, powered) = choose|
            frequency: Psk31Result<Frequency>,
            mode: Psk31Result<String>,
            corrected: Psk31Result<()>,
            powered: Psk31Result<()>,
        |
            after == before + #[trigger] preparation_calls(
                frequency,
                mode,
                corrected,
                watts,
                powered,
            ) && r == preparation_outcome(frequency, mode, corrected, powered);
        lemma_preparation(frequency, mode, corrected, watts, powered);
        let calls = preparation_calls(frequency, mode, corrected, watts, powered);
        assert(after.take(before.len() as int) =~= before);
        assert(after.skip(before.len() as int) =~= calls);
    }
}

/// A connected radio is prepared, and a serial error among the requests costs the radio as
/// it does everywhere; where no radio is connected nothing is done.
pub proof fn connected_radio_is_prepared<R: RadioControl>(watts: u32)
    ensures
        forall|link: &mut RadioLink<R>, reply: RadioReply<R, ()>| #[trigger]
            call_ensures(prepare_radio::<R>, (link, watts), reply) ==> {
                let before = *link;
                let after = *final(link);
                if before.radio.poisoned || before.radio.value is None {
                    refused(before, after, reply)
                } else {
                    exists|called: R, calls: Seq<RadioCall>, answer: Psk31Result<()>|
                        {
                            &&& #[trigger] came_through(before, called, answer, after, reply)
                            &&& called.calls() == before.radio.value->0.calls() + calls
                            &&& #[trigger] prepares(calls, watts)
                            &&& fails_on_loss(calls, answer)
                            &&& before.radio.value->0.agrees() ==> called.agrees()
                        }
                }
            },
{
    assert forall|link: &mut RadioLink<R>, reply: RadioReply<R, ()>|
        #[trigger] call_ensures(prepare_radio::<R>, (link, watts), reply)
            && !((*link).radio.poisoned || (*link).radio.value is None) implies exists|
        called: R,
        calls: Seq<RadioCall>,
        answer: Psk31Result<()>,
    |
        {
            &&& #[trigger] came_through(*link, called, answer, *final(link), reply)
            &&& called.calls() == (*link).radio.value->0.calls() + calls
            &&& #[trigger] prepares(calls, watts)
            &&& fails_on_loss(calls, answer)
            &&& (*link).radio.value->0.agrees() ==> called.agrees()
        } by {
        let before = *link;
        let after = *final(link);
        let radio = before.radio.value->0;
        let (called, frequency, mode, corrected, powered) = choose|
            called: R,
            frequency: Psk31Result<Frequency>,
            mode: Psk31Result<String>,
            corrected: Psk31Result<()>,
            powered: Psk31Result<()>,
        |
            {
                &&& called.calls() == radio.calls() + #[trigger] preparation_calls(
                    frequency,
                    mode,
                    corrected,
                    watts,
                    powered,
                )
                &&& radio.agrees() ==> called.agrees()
                &&& #[trigger] crate::commands::radio::settled(
                    before,
                    called,
                    preparation_outcome(frequency, mode, corrected, powered),
                    after,
                    reply,
                )
            };
        lemma_preparation(frequency, mode, corrected, watts, powered);
        let calls = preparation_calls(frequency, mode, corrected, watts, powered);
        let answer = preparation_outcome(frequency, mode, corrected, powered);
        assert(came_through(before, called, answer, after, reply));
        assert(prepares(calls, watts));
    }
}

/// The radio stays in the link with these further requests on record, and nothing else about
/// the link changes; where no radio is connected nothing changes at all.
pub open spec fn only_asked<R: RadioControl>(
    before: RadioLink<R>,
    after: RadioLink<R>,
    requests: nat,
) -> bool {
    if before.radio.poisoned || before.radio.value is None {
        after == before
    } else {
        &&& after.serial_port_name == before.serial_port_name
        &&& !after.radio.poisoned
        &&& after.radio.value is Some
        &&& after.radio.value->0.calls().len() == before.radio.value->0.calls().len() + requests
        &&& forall|i: int|
            0 <= i < before.radio.value->0.calls().len() ==> #[trigger] after.radio.value->0.calls()[i]
                == before.radio.value->0.calls()[i]
        &&& before.radio.value->0.agrees() ==> after.radio.value->0.agrees()
    }
}

/// The request with this number after those on record before.
pub open spec fn further_request<R: RadioControl>(
    before: RadioLink<R>,
    after: RadioLink<R>,
    number: int,
) -> RadioCall {
    after.radio.value->0.calls()[before.radio.value->0.calls().len() + number]
}

/// A radio can be asked.
pub open spec fn connected<R>(link: RadioLink<R>) -> bool {
    !link.radio.poisoned && link.radio.value is Some
}

/// Keying, unkeying and restoring the power ask a connected radio for that and for nothing
/// else, and never let go of it.
pub proof fn radio_is_keyed_and_unkeyed<R: RadioControl>()
    ensures
        forall|link: &mut RadioLink<R>, r: ()| #[trigger]
            call_ensures(key_radio::<R>, (link,), r) ==> only_asked(*link, *final(link), 1) && (
            connected(*link) ==> further_request(*link, *final(link), 0) is PttOn),
        forall|link: &mut RadioLink<R>, r: ()| #[trigger]
            call_ensures(unkey_radio::<R>, (link,), r) ==> only_asked(*link, *final(link), 1) && (
            connected(*link) ==> further_request(*link, *final(link), 0) is PttOff),
        forall|link: &mut RadioLink<R>, watts: u32, r: ()| #[trigger]
            call_ensures(restore_after_tune::<R>, (link, watts), r) ==> only_asked(
                *link,
                *final(link),
                2,
            ) && (connected(*link) ==> further_request(*link, *final(link), 0) is PttOff
                && further_request(*link, *final(link), 1) is SetTxPower && further_request(
                *link,
                *final(link),
                1,
            )->SetTxPower_0 == watts),
{
}

/// A stop unkeys a connected radio whatever became of the thread, and fails if and only if
/// the thread panicked. A stop of tuning also gives back the power of the profile, unless
/// the thread panicked.
pub proof fn stops_unkey_the_radio<R: RadioControl>(joined: Option<bool>)
    ensures
        forall|link: &mut RadioLink<R>, r: Result<(), String>| #[trigger]
            call_ensures(stop_tx_inner::<R>, (link, joined), r) ==> {
                &&& only_asked(*link, *final(link), 1)
                &&& connected(*link) ==> further_request(*link, *final(link), 0) is PttOff
                &&& r is Err <==> joined == Some(false)
                &&& r is Err ==> r->Err_0@ == "TX thread panicked"@
            },
        forall|link: &mut RadioLink<R>, watts: u32, r: Result<(), String>| #[trigger]
            call_ensures(stop_tune_inner::<R>, (link, joined, watts), r) ==> {
                &&& joined == Some(false) ==> only_asked(*link, *final(link), 1)
                &&& joined != Some(false) ==> only_asked(*link, *final(link), 2)
                &&& connected(*link) ==> further_request(*link, *final(link), 0) is PttOff
                &&& connected(*link) && joined != Some(false) ==> further_request(
                    *link,
                    *final(link),
                    1,
                ) is SetTxPower && further_request(*link, *final(link), 1)->SetTxPower_0 == watts
                &&& r is Err <==> joined == Some(false)
                &&& r is Err ==> r->Err_0@ == "Tune thread panicked"@
            },
{
}

/// Stopping a transmission and stopping tuning both raise the abort flag, free the slot in
/// any case, and hand out the thread that was running, if one was.
pub proof fn stops_free_the_slot<H>()
    ensures
        forall|tx: &mut TxControl<H>, handle: Option<H>|
            (#[trigger] call_ensures(stop_tx::<H>, (tx,), handle)) ==> {
                &&& final(tx).tx_abort
                &&& final(tx).tx_state.value is Idle
                &&& final(tx).tx_state.poisoned == (*tx).tx_state.poisoned
                &&& final(tx).tx_generation == (*tx).tx_generation
                &&& (*tx).tx_state.value is Running <==> handle is Some
                &&& handle is Some ==> (*tx).tx_state.value == TxState::Running(handle->0)
            },
        forall|tx: &mut TxControl<H>, handle: Option<H>|
            (#[trigger] call_ensures(stop_tune::<H>, (tx,), handle)) ==> {
                &&& final(tx).tx_abort
                &&& final(tx).tx_state.value is Idle
                &&& final(tx).tx_state.poisoned == (*tx).tx_state.poisoned
                &&& final(tx).tx_generation == (*tx).tx_generation
                &&& (*tx).tx_state.value is Running <==> handle is Some
                &&& handle is Some ==> (*tx).tx_state.value == TxState::Running(handle->0)
            },
{
}

/// A status as the user interface reads it. The cause of a failure is part of it.
pub proof fn statuses_have_texts(status: &TxStatus, text: String)
    requires
        call_ensures(TxStatus::text, (status,), text),
    ensures
        *status is Transmitting ==> text@ == "transmitting"@,
        *status is Tuning ==> text@ == "tuning"@,
        *status is Aborted ==> text@ == "aborted"@,
        *status is Complete ==> text@ == "complete"@,
        *status is Error ==> text@ == "error: "@ + status->Error_0@,
{
}

// ---------------------------------------------------------------------------
// Start
// ---------------------------------------------------------------------------

/// A start of a text begins with a claim: on a free slot behind a sound lock it takes the next number
/// and asks for the settings; otherwise it ends at once, says why, and changes nothing.
pub proof fn start_tx_begins_with_a_claim<H>()
    ensures
        forall|tx: &mut TxControl<H>, r: (StartPhase, StartAction<H>)| #[trigger]
            call_ensures(start_tx::<H>, (tx,), r) ==> {
                let before = *tx;
                let after = *final(tx);
                if !before.tx_state.poisoned && before.tx_state.value is Idle {
                    &&& r.1 is ReadConfig
                    &&& r.0 is AwaitConfig
                    &&& r.0->AwaitConfig_kind is Transmit
                    &&& before.tx_generation < u64::MAX ==> r.0->AwaitConfig_my_gen
                        == before.tx_generation + 1
                    &&& after.tx_generation == r.0->AwaitConfig_my_gen
                    &&& after.tx_state.value is Starting
                    &&& !after.tx_state.poisoned
                    &&& !after.tx_abort
                } else {
                    &&& r.0 is Finished
                    &&& r.1 is Finish
                    &&& r.1->event is None
                    &&& r.1->result is Err
                    &&& before.tx_state.poisoned ==> r.1->result->Err_0@ == "TX state corrupted"@
                    &&& !before.tx_state.poisoned ==> r.1->result->Err_0@ == "Already transmitting"@
                    &&& after == before
                }
            },
{
}

/// A start of tuning begins with a claim: on a free slot behind a sound lock it takes the next number
/// and asks for the settings; otherwise it ends at once, says why, and changes nothing.
pub proof fn start_tune_begins_with_a_claim<H>()
    ensures
        forall|tx: &mut TxControl<H>, r: (StartPhase, StartAction<H>)| #[trigger]
            call_ensures(start_tune::<H>, (tx,), r) ==> {
                let before = *tx;
                let after = *final(tx);
                if !before.tx_state.poisoned && before.tx_state.value is Idle {
                    &&& r.1 is ReadConfig
                    &&& r.0 is AwaitConfig
                    &&& r.0->AwaitConfig_kind is Tune
                    &&& before.tx_generation < u64::MAX ==> r.0->AwaitConfig_my_gen
                        == before.tx_generation + 1
                    &&& after.tx_generation == r.0->AwaitConfig_my_gen
                    &&& after.tx_state.value is Starting
                    &&& !after.tx_state.poisoned
                    &&& !after.tx_abort
                } else {
                    &&& r.0 is Finished
                    &&& r.1 is Finish
                    &&& r.1->event is None
                    &&& r.1->result is Err
                    &&& before.tx_state.poisoned ==> r.1->result->Err_0@ == "TX state corrupted"@
                    &&& !before.tx_state.poisoned ==> r.1->result->Err_0@ == "Already transmitting"@
                    &&& after == before
                }
            },
{
}

/// A start ends without a thread, with this text, and with an event if it was aborted.
pub open spec fn ends_with<H>(r: (StartPhase, StartAction<H>), text: Seq<char>, aborted: bool) -> bool {
    &&& r.0 is Finished
    &&& r.1 is Finish
    &&& r.1->result is Err
    &&& r.1->result->Err_0@ == text
    &&& r.1->event is Some <==> aborted
    &&& aborted ==> r.1->event->0.status is Aborted && r.1->event->0.progress is Nothing
}

/// The settings decide what follows, and the slot is left alone: a text is encoded with
/// them and prepared with their power, tuning is prepared with 10 W whatever they say. The
/// start keeps its number.
pub proof fn settings_decide<H>(kind: StartKind, my_gen: u64, config: ModemConfig)
    ensures
        forall|tx: &mut TxControl<H>, r: (StartPhase, StartAction<H>)| #[trigger]
            call_ensures(
                start_step::<H>,
                ((StartPhase::AwaitConfig { kind, my_gen }), tx, StartEvent::Config(config)),
                r,
            ) ==> {
                &&& *final(tx) == *tx
                &&& kind is Transmit ==> {
                    &&& r.1 is Encode
                    &&& r.1->Encode_0 == config
                    &&& r.0 is AwaitSamples
                    &&& r.0->AwaitSamples_my_gen == my_gen
                    &&& r.0->watts == config.tx_power_watts
                }
                &&& kind is Tune ==> {
                    &&& r.1 is PrepareRadio
                    &&& r.1->PrepareRadio_0 == 10
                    &&& r.0 is AwaitRadio
                    &&& r.0->AwaitRadio_my_gen == my_gen
                }
            },
{
}

/// A text without samples ends the start and frees the slot; any other is prepared with the
/// power that the settings gave, and the slot is left alone. The start keeps its number.
pub proof fn samples_decide<H>(my_gen: u64, watts: u32, samples: usize)
    ensures
        forall|tx: &mut TxControl<H>, r: (StartPhase, StartAction<H>)| #[trigger]
            call_ensures(
                start_step::<H>,
                ((StartPhase::AwaitSamples { my_gen, watts }), tx, StartEvent::Encoded(samples)),
                r,
            ) ==> {
                &&& samples == 0 ==> {
                    &&& ends_with(r, "Nothing to transmit"@, false)
                    &&& final(tx).tx_state.value is Idle
                    &&& final(tx).tx_state.poisoned == (*tx).tx_state.poisoned
                    &&& final(tx).tx_abort == (*tx).tx_abort
                    &&& final(tx).tx_generation == (*tx).tx_generation
                }
                &&& samples > 0 ==> {
                    &&& *final(tx) == *tx
                    &&& r.1 is PrepareRadio
                    &&& r.1->PrepareRadio_0 == watts
                    &&& r.0 is AwaitRadio
                    &&& r.0->AwaitRadio_my_gen == my_gen
                }
            },
{
}

/// Once the radio is prepared the start spawns its thread, under its own number, if and
/// only if the abort flag is down and the slot still bears that number. Otherwise it ends
/// as aborted, and frees the slot if it still bears that number.
pub proof fn cancelled_start_spawns_nothing<H>(my_gen: u64)
    ensures
        forall|tx: &mut TxControl<H>, r: (StartPhase, StartAction<H>)| #[trigger]
            call_ensures(
                start_step::<H>,
                ((StartPhase::AwaitRadio { my_gen }), tx, StartEvent::RadioPrepared),
                r,
            ) ==> {
                let before = *tx;
                let after = *final(tx);
                let wanted = !before.tx_abort && before.tx_generation == my_gen;
                &&& wanted ==> {
                    &&& after == before
                    &&& r.1 is Spawn
                    &&& r.1->Spawn_0 == my_gen
                    &&& r.0 is AwaitThread
                    &&& r.0->AwaitThread_my_gen == my_gen
                }
                &&& !wanted ==> {
                    &&& ends_with(r, "Cancelled before transmitting"@, true)
                    &&& before.tx_generation == my_gen ==> after.tx_state.value is Idle
                    &&& before.tx_generation != my_gen ==> after.tx_state.value
                        == before.tx_state.value
                    &&& after.tx_state.poisoned == before.tx_state.poisoned
                    &&& after.tx_abort == before.tx_abort
                    &&& after.tx_generation == before.tx_generation
                }
            },
{
}

/// A start succeeds if and only if it can put its thread into the slot that is still set up
/// under its number. Otherwise the slot is left alone, and the thread is handed back to be
/// joined, unless the lock is poisoned.
pub proof fn start_succeeds_with_its_thread_in_the_slot<H>(my_gen: u64, handle: H)
    ensures
        forall|tx: &mut TxControl<H>, r: (StartPhase, StartAction<H>)| #[trigger]
            call_ensures(
                start_step::<H>,
                ((StartPhase::AwaitThread { my_gen }), tx, StartEvent::Spawned(handle)),
                r,
            ) ==> {
                let before = *tx;
                let after = *final(tx);
                let own = before.tx_state.value is Starting && before.tx_generation == my_gen;
                &&& before.tx_state.poisoned ==> ends_with(r, "TX state corrupted"@, false)
                &&& !before.tx_state.poisoned && own ==> {
                    &&& r.0 is Finished
                    &&& r.1 is Finish
                    &&& r.1->event is None
                    &&& r.1->result is Ok
                    &&& after.tx_state.value == TxState::Running(handle)
                }
                &&& !before.tx_state.poisoned && !own ==> {
                    &&& r.0 is AwaitJoin
                    &&& r.1 is Join
                    &&& r.1->Join_0 == handle
                }
                &&& before.tx_state.poisoned || !own ==> after.tx_state.value
                    == before.tx_state.value
                &&& after.tx_state.poisoned == before.tx_state.poisoned
                &&& after.tx_abort == before.tx_abort
                &&& after.tx_generation == before.tx_generation
            },
{
}

/// A start whose thread had to be joined fails, and says whether the thread panicked. The
/// slot is left alone.
pub proof fn joined_start_fails<H>(joined: bool)
    ensures
        forall|tx: &mut TxControl<H>, r: (StartPhase, StartAction<H>)| #[trigger]
            call_ensures(start_step::<H>, (StartPhase::AwaitJoin, tx, StartEvent::Joined(joined)), r)
                ==> {
                &&& *final(tx) == *tx
                &&& joined ==> ends_with(r, "Cancelled before activation"@, false)
                &&& !joined ==> ends_with(r, "TX thread panicked during cancellation"@, false)
            },
{
}

/// From its first step to its last a start goes by the settings that it read and by the
/// number that it claimed, whatever becomes of the slot between the steps.
pub proof fn start_keeps_settings_and_number<H>(config: ModemConfig, samples: usize)
    ensures
        forall|
            claiming: &mut TxControl<H>,
            reading: &mut TxControl<H>,
            encoding: &mut TxControl<H>,
            preparing: &mut TxControl<H>,
            claimed: (StartPhase, StartAction<H>),
            read: (StartPhase, StartAction<H>),
            encoded: (StartPhase, StartAction<H>),
            prepared: (StartPhase, StartAction<H>),
        |
            {
                &&& #[trigger] call_ensures(start_tx::<H>, (claiming,), claimed)
                &&& claimed.1 is ReadConfig
                &&& claiming.tx_generation < u64::MAX
                &&& #[trigger] call_ensures(
                    start_step::<H>,
                    (claimed.0, reading, StartEvent::Config(config)),
                    read,
                )
                &&& #[trigger] call_ensures(
                    start_step::<H>,
                    (read.0, encoding, StartEvent::Encoded(samples)),
                    encoded,
                )
                &&& encoded.1 is PrepareRadio
                &&& #[trigger] call_ensures(
                    start_step::<H>,
                    (encoded.0, preparing, StartEvent::RadioPrepared),
                    prepared,
                )
                &&& prepared.1 is Spawn
            } ==> {
                &&& samples > 0
                &&& read.1 == StartAction::<H>::Encode(config)
                &&& encoded.1->PrepareRadio_0 == config.tx_power_watts
                &&& prepared.1->Spawn_0 == claiming.tx_generation + 1
            },
{
}

} // verus!
