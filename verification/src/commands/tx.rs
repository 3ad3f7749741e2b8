//! Starting and stopping a transmission.
//!
//! A start runs in steps. Between two steps the program around the library does one
//! thing (reads the settings, encodes, talks to the radio, spawns or joins a thread) and
//! reports what came of it. Only the steps themselves hold the lock of the transmitter
//! slot, so that a stop never waits for the slow work of a start.

use crate::commands::radio::{settled, unreachable_reply, with_radio, RadioReply};
use crate::commands::slot::{
    apply, cancelled_activation_text, tx_activate, tx_check_cancelled, tx_claim, tx_reset, tx_stop,
    ActivationError, SlotOp,
};
use crate::domain::error::{Psk31Error, Psk31Result};
use crate::domain::frequency::{data_mode, data_mode_for_frequency, Frequency};
use crate::domain::types::ModemConfig;
use crate::ports::radio::{RadioCall, RadioControl};
use crate::state::{Guarded, RadioLink, TxControl, TxState};
use crate::text::same_text;
use vstd::prelude::*;

verus! {

/// Tuning always uses this power, whatever the profile says.
pub const TUNE_POWER_WATTS: u32 = 10;

/// What a `tx-status` event says.
#[derive(Debug)]
pub enum TxStatus {
    Transmitting,
    Tuning,
    Aborted,
    Complete,
    /// The audio output could not be started; the text says why.
    Error(String),
}

impl TxStatus {
    pub open spec fn text_view(self) -> Seq<char> {
        match self {
            TxStatus::Transmitting => "transmitting"@,
            TxStatus::Tuning => "tuning"@,
            TxStatus::Aborted => "aborted"@,
            TxStatus::Complete => "complete"@,
            TxStatus::Error(cause) => "error: "@ + cause@,
        }
    }

    /// The status as the user interface reads it.
    pub fn text(&self) -> (text: String)
        ensures
            text@ == self.text_view(),
    {
        match self {
            TxStatus::Transmitting => "transmitting".to_owned(),
            TxStatus::Tuning => "tuning".to_owned(),
            TxStatus::Aborted => "aborted".to_owned(),
            TxStatus::Complete => "complete".to_owned(),
            TxStatus::Error(cause) => {
                let mut text: String = "error: ".to_owned();
                text.append(cause.as_str());
                text
            },
        }
    }
}

/// How much of the transmission has been played.
#[derive(Clone, Copy, PartialEq, Eq, Structural, Debug)]
pub enum TxProgress {
    Nothing,
    /// The played samples over all samples, at the moment when the event goes out.
    Played,
    Everything,
}

/// A `tx-status` event.
#[derive(Debug)]
pub struct TxStatusPayload {
    pub status: TxStatus,
    pub progress: TxProgress,
}

// ---------------------------------------------------------------------------
// Radio
// ---------------------------------------------------------------------------

/// What the mode guard asks of the radio, given the answers: the frequency, then the
/// mode, then the right mode if it is not the present one. It stops at the first answer
/// that it cannot use.
pub open spec fn mode_guard_calls(
    frequency: Psk31Result<Frequency>,
    mode: Psk31Result<String>,
    corrected: Psk31Result<()>,
) -> Seq<RadioCall> {
    let asked_frequency = seq![RadioCall::GetFrequency(frequency)];
    let asked_mode = asked_frequency.push(RadioCall::GetMode(mode));
    match (frequency, mode) {
        (Err(_), _) => asked_frequency,
        (Ok(_), Err(_)) => asked_mode,
        (Ok(hz), Ok(current)) => if current@ == data_mode(hz) {
            asked_mode
        } else {
            asked_mode.push(RadioCall::SetMode(data_mode(hz), corrected))
        },
    }
}

/// The mode that a radio has to be switched to, if it is not in it already.
pub fn mode_correction(frequency: Frequency, current: &str) -> (target: Option<&'static str>)
    ensures
        target is Some <==> current@ != data_mode(frequency),
        target matches Some(mode) ==> mode@ == data_mode(frequency),
{
    let target: &'static str = data_mode_for_frequency(frequency);
    if same_text(current, target) {
        None
    } else {
        Some(target)
    }
}

/// The message of a serial error, which means that the hardware is gone.
pub open spec fn serial_message<T>(answer: Psk31Result<T>) -> Option<String> {
    match answer {
        Err(Psk31Error::Serial(message)) => Some(message),
        _ => None,
    }
}

/// The serial error that the mode guard met, among the answers to what it asked.
pub open spec fn mode_guard_loss(
    frequency: Psk31Result<Frequency>,
    mode: Psk31Result<String>,
    corrected: Psk31Result<()>,
) -> Option<String> {
    match (frequency, mode) {
        (Err(_), _) => serial_message(frequency),
        (Ok(_), Err(_)) => serial_message(mode),
        (Ok(hz), Ok(current)) => if current@ == data_mode(hz) {
            None
        } else {
            serial_message(corrected)
        },
    }
}

/// Bring the radio into the DATA mode of its frequency. Errors are not fatal: the
/// transmission goes on regardless.
///
/// Returns the message of the serial error that it met, if it met one.
pub fn ensure_data_mode<R: RadioControl>(radio: &mut R) -> (lost: Option<String>)
    ensures
        exists|frequency: Psk31Result<Frequency>, mode: Psk31Result<String>, corrected: Psk31Result<()>|
            {
                &&& final(radio).calls() == old(radio).calls() + #[trigger] mode_guard_calls(
                    frequency,
                    mode,
                    corrected,
                )
                &&& lost == mode_guard_loss(frequency, mode, corrected)
            },
        old(radio).agrees() ==> final(radio).agrees(),
{
    let ghost before = radio.calls();
    let answer = radio.get_frequency();
    let ghost frequency = answer;
    let ghost unset: Psk31Result<()> = Ok(());
    let hz: Frequency = match answer {
        Ok(hz) => hz,
        Err(e) => {
            let ghost mode: Psk31Result<String> = Err(e);
            assert(radio.calls() =~= before + mode_guard_calls(frequency, mode, unset));
            return lost_message(e);
        },
    };
    let answer = radio.get_mode();
    let ghost mode = answer;
    let current: String = match answer {
        Ok(current) => current,
        Err(e) => {
            assert(radio.calls() =~= before + mode_guard_calls(frequency, mode, unset));
            return lost_message(e);
        },
    };
    let target: &'static str = match mode_correction(hz, current.as_str()) {
        Some(target) => target,
        None => {
            assert(radio.calls() =~= before + mode_guard_calls(frequency, mode, unset));
            return None;
        },
    };
    let corrected = radio.set_mode(target);
    assert(radio.calls() =~= before + mode_guard_calls(frequency, mode, corrected));
    match corrected {
        Ok(()) => None,
        Err(e) => lost_message(e),
    }
}

fn lost_message(error: Psk31Error) -> (lost: Option<String>)
    ensures
        lost == serial_message(Err::<(), Psk31Error>(error)),
{
    match error {
        Psk31Error::Serial(message) => Some(message),
        _ => None,
    }
}

/// One correction is enough: a radio that took it needs none.
pub proof fn correction_settles_the_mode(
    frequency: Frequency,
    mode: String,
    answer: Psk31Result<()>,
)
    requires
        mode@ == data_mode(frequency),
    ensures
        mode_guard_calls(Ok(frequency), Ok(mode), answer) == seq![
            RadioCall::GetFrequency(Ok(frequency)),
            RadioCall::GetMode(Ok(mode)),
        ],
{
}

/// A connected radio was asked exactly `calls`, stays connected, and nothing else about
/// the link has changed. If its state agreed with its log, it still does.
pub open spec fn asked<R: RadioControl>(
    before: RadioLink<R>,
    after: RadioLink<R>,
    calls: Seq<RadioCall>,
) -> bool {
    &&& before.reachable() matches Some(radio)
    &&& after.reachable() matches Some(called)
    &&& called.calls() == radio.calls() + calls
    &&& radio.agrees() ==> called.agrees()
    &&& after == RadioLink { radio: Guarded::sound(Some(called)), ..before }
}

/// What a radio is asked before a transmission.
pub open spec fn preparation_calls(
    frequency: Psk31Result<Frequency>,
    mode: Psk31Result<String>,
    corrected: Psk31Result<()>,
    watts: u32,
    powered: Psk31Result<()>,
) -> Seq<RadioCall> {
    mode_guard_calls(frequency, mode, corrected).push(RadioCall::SetTxPower(watts, powered))
}

/// What came of preparing a radio: the first serial error among the answers, if there is
/// one. No other answer counts.
pub open spec fn preparation_outcome(
    frequency: Psk31Result<Frequency>,
    mode: Psk31Result<String>,
    corrected: Psk31Result<()>,
    powered: Psk31Result<()>,
) -> Psk31Result<()> {
    match mode_guard_loss(frequency, mode, corrected) {
        Some(message) => Err(Psk31Error::Serial(message)),
        None => match serial_message(powered) {
            Some(message) => Err(Psk31Error::Serial(message)),
            None => Ok(()),
        },
    }
}

/// Prepare a radio for a transmission: the right mode, then the power, whatever the mode
/// guard met. Only a serial error counts as a failure.
pub fn prepare_for_transmission<R: RadioControl>(radio: &mut R, watts: u32) -> (r: Psk31Result<()>)
    ensures
        exists|
            frequency: Psk31Result<Frequency>,
            mode: Psk31Result<String>,
            corrected: Psk31Result<()>,
            powered: Psk31Result<()>,
        |
            {
                &&& final(radio).calls() == old(radio).calls() + #[trigger] preparation_calls(
                    frequency,
                    mode,
                    corrected,
                    watts,
                    powered,
                )
                &&& r == preparation_outcome(frequency, mode, corrected, powered)
            },
        old(radio).agrees() ==> final(radio).agrees(),
{
    let ghost before = radio.calls();
    let lost = ensure_data_mode(radio);
    let ghost guarded = radio.calls();
    let powered = radio.set_tx_power(watts);
    proof {
        let (frequency, mode, corrected) = choose|
            frequency: Psk31Result<Frequency>,
            mode: Psk31Result<String>,
            corrected: Psk31Result<()>,
        |
            guarded == before + #[trigger] mode_guard_calls(frequency, mode, corrected) && lost
                == mode_guard_loss(frequency, mode, corrected);
        assert(radio.calls() =~= before + preparation_calls(
            frequency,
            mode,
            corrected,
            watts,
            powered,
        ));
    }
    match lost {
        Some(message) => Err(Psk31Error::Serial(message)),
        None => match powered {
            Err(Psk31Error::Serial(message)) => Err(Psk31Error::Serial(message)),
            _ => Ok(()),
        },
    }
}

/// Prepare a connected radio for a transmission. Failures are not fatal, but a serial error
/// disconnects the radio as it does everywhere.
pub fn prepare_radio<R: RadioControl>(link: &mut RadioLink<R>, watts: u32) -> (reply: RadioReply<
    R,
    (),
>)
    ensures
        old(link).reachable() is None ==> unreachable_reply(*old(link), *final(link), reply),
        old(link).reachable() matches Some(radio) ==> exists|
            called: R,
            frequency: Psk31Result<Frequency>,
            mode: Psk31Result<String>,
            corrected: Psk31Result<()>,
            powered: Psk31Result<()>,
        |
            {
                &&& called.calls() == radio.calls() + #[trigger] preparation_calls(
                    frequency,
                    mode,
                    corrected,
                    watts,
                    powered,
                )
                &&& radio.agrees() ==> called.agrees()
                &&& #[trigger] settled(
                    *old(link),
                    called,
                    preparation_outcome(frequency, mode, corrected, powered),
                    *final(link),
                    reply,
                )
            },
{
    with_radio(
        link,
        |radio: &mut R| -> (r: Psk31Result<()>)
            ensures
                (old(radio).agrees() ==> final(radio).agrees()) && exists|
                    frequency: Psk31Result<Frequency>,
                    mode: Psk31Result<String>,
                    corrected: Psk31Result<()>,
                    powered: Psk31Result<()>,
                |
                    final(radio).calls() == old(radio).calls() + #[trigger] preparation_calls(
                        frequency,
                        mode,
                        corrected,
                        watts,
                        powered,
                    ) && r == preparation_outcome(frequency, mode, corrected, powered)
        {
            prepare_for_transmission(radio, watts)
        },
    )
}

/// A serial error is noticed whichever request meets it: preparing the radio fails with a
/// serial error if and only if one of the answers is one.
pub proof fn preparation_notices_the_loss(
    frequency: Psk31Result<Frequency>,
    mode: Psk31Result<String>,
    corrected: Psk31Result<()>,
    powered: Psk31Result<()>,
)
    ensures
        ({
            let outcome = preparation_outcome(frequency, mode, corrected, powered);
            let asked_mode = frequency is Ok;
            let asked_correction = asked_mode && mode is Ok && mode->Ok_0@ != data_mode(
                frequency->Ok_0,
            );
            let lost = serial_message(frequency) is Some || (asked_mode && serial_message(
                mode,
            ) is Some) || (asked_correction && serial_message(corrected) is Some)
                || serial_message(powered) is Some;
            &&& serial_message(outcome) is Some <==> lost
            &&& outcome is Ok <==> !lost
        }),
{
}

/// Key a connected radio. A failure is not fatal.
pub fn key_radio<R: RadioControl>(link: &mut RadioLink<R>)
    ensures
        old(link).reachable() is None ==> *final(link) == *old(link),
        old(link).reachable() is Some ==> exists|keyed: Psk31Result<()>|
            asked(*old(link), *final(link), #[trigger] seq![RadioCall::PttOn(keyed)]),
{
    if !link.radio.poisoned {
        if let Some(radio) = &mut link.radio.value {
            let ghost before = radio.calls();
            let keyed = radio.ptt_on();
            assert(radio.calls() =~= before + seq![RadioCall::PttOn(keyed)]);
        }
    }
}

/// Unkey a connected radio. A failure is not fatal.
pub fn unkey_radio<R: RadioControl>(link: &mut RadioLink<R>)
    ensures
        old(link).reachable() is None ==> *final(link) == *old(link),
        old(link).reachable() is Some ==> exists|unkeyed: Psk31Result<()>|
            asked(*old(link), *final(link), #[trigger] seq![RadioCall::PttOff(unkeyed)]),
{
    if !link.radio.poisoned {
        if let Some(radio) = &mut link.radio.value {
            let ghost before = radio.calls();
            let unkeyed = radio.ptt_off();
            assert(radio.calls() =~= before + seq![RadioCall::PttOff(unkeyed)]);
        }
    }
}

/// Unkey a connected radio after tuning, and give it back the power of the profile.
pub fn restore_after_tune<R: RadioControl>(link: &mut RadioLink<R>, configured_watts: u32)
    ensures
        old(link).reachable() is None ==> *final(link) == *old(link),
        old(link).reachable() is Some ==> exists|
            unkeyed: Psk31Result<()>,
            powered: Psk31Result<()>,
        |
            asked(
                *old(link),
                *final(link),
                #[trigger] seq![
                    RadioCall::PttOff(unkeyed),
                    RadioCall::SetTxPower(configured_watts, powered),
                ],
            ),
{
    if !link.radio.poisoned {
        if let Some(radio) = &mut link.radio.value {
            let ghost before = radio.calls();
            let unkeyed = radio.ptt_off();
            let powered = radio.set_tx_power(configured_watts);
            assert(radio.calls() =~= before + seq![
                RadioCall::PttOff(unkeyed),
                RadioCall::SetTxPower(configured_watts, powered),
            ]);
        }
    }
}

// ---------------------------------------------------------------------------
// Start
// ---------------------------------------------------------------------------

/// What a start is for.
#[derive(Clone, Copy, PartialEq, Eq, Structural, Debug)]
pub enum StartKind {
    /// Transmit a text.
    Transmit,
    /// Transmit a plain carrier.
    Tune,
}

/// How far a start has come. `my_gen` is the number of its claim.
#[derive(Debug)]
pub enum StartPhase {
    AwaitConfig { kind: StartKind, my_gen: u64 },
    AwaitSamples { my_gen: u64, watts: u32 },
    AwaitRadio { my_gen: u64 },
    AwaitThread { my_gen: u64 },
    AwaitJoin,
    Finished,
}

/// What a start learns between two steps.
pub enum StartEvent<H> {
    /// The settings, read under one lock.
    Config(ModemConfig),
    /// The text came to so many samples.
    Encoded(usize),
    RadioPrepared,
    /// The transmitting thread was spawned.
    Spawned(H),
    /// The cancelled thread has ended; `true` if without a panic.
    Joined(bool),
}

/// What a start wants done next.
#[derive(Debug)]
pub enum StartAction<H> {
    ReadConfig,
    /// Encode the text with these settings.
    Encode(ModemConfig),
    /// Call [`prepare_radio`] with this power, and announce a lost connection. The start
    /// goes on either way.
    PrepareRadio(u32),
    /// Spawn the transmitting thread of the claim with this number.
    Spawn(u64),
    /// Join the thread.
    Join(H),
    /// Send out the event, if there is one, and return the result.
    Finish { event: Option<TxStatusPayload>, result: Result<(), String> },
}

impl StartPhase {
    /// The number of the claim, while the start may still own the slot.
    pub open spec fn claim(self) -> Option<u64> {
        match self {
            StartPhase::AwaitConfig { my_gen, .. } => Some(my_gen),
            StartPhase::AwaitSamples { my_gen, .. } => Some(my_gen),
            StartPhase::AwaitRadio { my_gen } => Some(my_gen),
            StartPhase::AwaitThread { my_gen } => Some(my_gen),
            _ => None,
        }
    }

    /// The event answers what was asked for.
    pub open spec fn expects<H>(self, event: StartEvent<H>) -> bool {
        match self {
            StartPhase::AwaitConfig { .. } => event is Config,
            StartPhase::AwaitSamples { .. } => event is Encoded,
            StartPhase::AwaitRadio { .. } => event is RadioPrepared,
            StartPhase::AwaitThread { .. } => event is Spawned,
            StartPhase::AwaitJoin => event is Joined,
            StartPhase::Finished => false,
        }
    }
}

/// The thread is running, and there is nothing to announce.
pub open spec fn start_succeeded<H>(action: StartAction<H>) -> bool {
    action == StartAction::<H>::Finish { event: None, result: Ok(()) }
}

/// The start ends without a running thread, if only after a last join.
pub open spec fn start_gives_up<H>(action: StartAction<H>) -> bool {
    match action {
        StartAction::Join(_) => true,
        StartAction::Finish { result, .. } => result is Err,
        _ => false,
    }
}

/// The start has failed with this text, and announces nothing.
pub open spec fn start_failed<H>(action: StartAction<H>, text: Seq<char>) -> bool {
    action matches StartAction::Finish { event, result } && event is None && (result matches Err(
        shown,
    ) && shown@ == text)
}

/// The start was cancelled before it could spawn its thread.
pub open spec fn start_aborted<H>(action: StartAction<H>) -> bool {
    action matches StartAction::Finish { event, result } && event == Some(
        TxStatusPayload { status: TxStatus::Aborted, progress: TxProgress::Nothing },
    ) && (result matches Err(shown) && shown@ == "Cancelled before transmitting"@)
}

/// The first step of a start: claim the slot.
pub open spec fn start_claims<H>(
    kind: StartKind,
    before: TxControl<H>,
    after: TxControl<H>,
    phase: StartPhase,
    action: StartAction<H>,
) -> bool {
    if before.claimable() {
        &&& after == before.after_claim()
        &&& phase == StartPhase::AwaitConfig { kind, my_gen: after.tx_generation }
        &&& action == StartAction::<H>::ReadConfig
    } else {
        &&& after == before
        &&& phase == StartPhase::Finished
        &&& start_failed(
            action,
            if before.tx_state.poisoned {
                "TX state corrupted"@
            } else {
                "Already transmitting"@
            },
        )
    }
}

/// Every later step of a start.
pub open spec fn start_steps<H>(
    phase: StartPhase,
    event: StartEvent<H>,
    before: TxControl<H>,
    after: TxControl<H>,
    next: StartPhase,
    action: StartAction<H>,
) -> bool {
    match (phase, event) {
        (
            StartPhase::AwaitConfig { kind: StartKind::Transmit, my_gen },
            StartEvent::Config(config),
        ) => {
            &&& after == before
            &&& next == StartPhase::AwaitSamples { my_gen, watts: config.tx_power_watts }
            &&& action == StartAction::<H>::Encode(config)
        },
        (StartPhase::AwaitConfig { kind: StartKind::Tune, my_gen }, StartEvent::Config(config)) => {
            &&& after == before
            &&& next == StartPhase::AwaitRadio { my_gen }
            &&& action == StartAction::<H>::PrepareRadio(TUNE_POWER_WATTS)
        },
        (StartPhase::AwaitSamples { my_gen, watts }, StartEvent::Encoded(samples)) => if samples
            == 0 {
            &&& after == before.after_reset()
            &&& next == StartPhase::Finished
            &&& start_failed(action, "Nothing to transmit"@)
        } else {
            &&& after == before
            &&& next == StartPhase::AwaitRadio { my_gen }
            &&& action == StartAction::<H>::PrepareRadio(watts)
        },
        (StartPhase::AwaitRadio { my_gen }, StartEvent::RadioPrepared) => if before.cancelled(
            my_gen,
        ) {
            &&& after == (if before.tx_generation == my_gen {
                before.after_reset()
            } else {
                before
            })
            &&& next == StartPhase::Finished
            &&& start_aborted(action)
        } else {
            &&& after == before
            &&& next == StartPhase::AwaitThread { my_gen }
            &&& action == StartAction::<H>::Spawn(my_gen)
        },
        (StartPhase::AwaitThread { my_gen }, StartEvent::Spawned(handle)) => if before.tx_state.poisoned {
            &&& after == before
            &&& next == StartPhase::Finished
            &&& start_failed(action, "TX state corrupted"@)
        } else if before.owned_by(my_gen) {
            &&& after == before.with_state(TxState::Running(handle))
            &&& next == StartPhase::Finished
            &&& start_succeeded(action)
        } else {
            &&& after == before
            &&& next == StartPhase::AwaitJoin
            &&& action == StartAction::Join(handle)
        },
        (StartPhase::AwaitJoin, StartEvent::Joined(joined)) => {
            &&& after == before
            &&& next == StartPhase::Finished
            &&& start_failed(
                action,
                if joined {
                    "Cancelled before activation"@
                } else {
                    "TX thread panicked during cancellation"@
                },
            )
        },
        _ => false,
    }
}

fn start<H>(kind: StartKind, tx: &mut TxControl<H>) -> (r: (StartPhase, StartAction<H>))
    requires
        old(tx).claimable() ==> old(tx).tx_generation < u64::MAX,
    ensures
        start_claims(kind, *old(tx), *final(tx), r.0, r.1),
{
    match tx_claim(tx) {
        Ok(my_gen) => (StartPhase::AwaitConfig { kind, my_gen }, StartAction::ReadConfig),
        Err(text) => (
            StartPhase::Finished,
            StartAction::Finish { event: None, result: Err(text) },
        ),
    }
}

/// Begin to transmit a text.
pub fn start_tx<H>(tx: &mut TxControl<H>) -> (r: (StartPhase, StartAction<H>))
    requires
        old(tx).claimable() ==> old(tx).tx_generation < u64::MAX,
    ensures
        start_claims(StartKind::Transmit, *old(tx), *final(tx), r.0, r.1),
{
    start(StartKind::Transmit, tx)
}

/// Begin to tune.
pub fn start_tune<H>(tx: &mut TxControl<H>) -> (r: (StartPhase, StartAction<H>))
    requires
        old(tx).claimable() ==> old(tx).tx_generation < u64::MAX,
    ensures
        start_claims(StartKind::Tune, *old(tx), *final(tx), r.0, r.1),
{
    start(StartKind::Tune, tx)
}

/// Take the next step of a start.
pub fn start_step<H>(phase: StartPhase, tx: &mut TxControl<H>, event: StartEvent<H>) -> (r: (
    StartPhase,
    StartAction<H>,
))
    requires
        phase.expects(event),
    ensures
        start_steps(phase, event, *old(tx), *final(tx), r.0, r.1),
{
    match (phase, event) {
        (StartPhase::AwaitConfig { kind, my_gen }, StartEvent::Config(config)) => match kind {
            StartKind::Transmit => (
                StartPhase::AwaitSamples { my_gen, watts: config.tx_power_watts },
                StartAction::Encode(config),
            ),
            StartKind::Tune => (
                StartPhase::AwaitRadio { my_gen },
                StartAction::PrepareRadio(TUNE_POWER_WATTS),
            ),
        },
        (StartPhase::AwaitSamples { my_gen, watts }, StartEvent::Encoded(samples)) => {
            if samples == 0 {
                tx_reset(tx);
                let result: Result<(), String> = Err("Nothing to transmit".to_owned());
                (StartPhase::Finished, StartAction::Finish { event: None, result })
            } else {
                (StartPhase::AwaitRadio { my_gen }, StartAction::PrepareRadio(watts))
            }
        },
        (StartPhase::AwaitRadio { my_gen }, StartEvent::RadioPrepared) => {
            if tx_check_cancelled(tx, my_gen) {
                let event = Some(
                    TxStatusPayload { status: TxStatus::Aborted, progress: TxProgress::Nothing },
                );
                let result: Result<(), String> = Err("Cancelled before transmitting".to_owned());
                (StartPhase::Finished, StartAction::Finish { event, result })
            } else {
                (StartPhase::AwaitThread { my_gen }, StartAction::Spawn(my_gen))
            }
        },
        (StartPhase::AwaitThread { my_gen }, StartEvent::Spawned(handle)) => {
            match tx_activate(tx, handle, my_gen) {
                Ok(()) => (
                    StartPhase::Finished,
                    StartAction::Finish { event: None, result: Ok(()) },
                ),
                Err(ActivationError::Corrupted) => {
                    let result: Result<(), String> = Err("TX state corrupted".to_owned());
                    (StartPhase::Finished, StartAction::Finish { event: None, result })
                },
                Err(ActivationError::Cancelled(handle)) => (
                    StartPhase::AwaitJoin,
                    StartAction::Join(handle),
                ),
            }
        },
        (_, StartEvent::Joined(joined)) => {
            let result: Result<(), String> = Err(cancelled_activation_text(joined));
            (StartPhase::Finished, StartAction::Finish { event: None, result })
        },
        _ => {
            assert(false);
            (StartPhase::Finished, StartAction::ReadConfig)
        },
    }
}

/// To everyone else a step of a start is an operation on the slot, or nothing at all. So
/// what holds of every sequence of slot operations holds however the steps of any number
/// of starts interleave.
pub proof fn start_steps_are_slot_operations<H>(
    phase: StartPhase,
    event: StartEvent<H>,
    before: TxControl<H>,
    after: TxControl<H>,
    next: StartPhase,
    action: StartAction<H>,
)
    requires
        start_steps(phase, event, before, after, next, action),
    ensures
        after == before || exists|op: SlotOp<H>| after == #[trigger] apply(before, op),
{
    match (phase, event) {
        (StartPhase::AwaitSamples { .. }, _) => {
            assert(after == before || after == apply(before, SlotOp::Reset));
        },
        (StartPhase::AwaitRadio { my_gen }, _) => {
            assert(after == before || after == apply(
                before,
                SlotOp::CheckCancelled(my_gen),
            ));
        },
        (StartPhase::AwaitThread { my_gen }, StartEvent::Spawned(handle)) => {
            assert(after == before || after == apply(
                before,
                SlotOp::Activate(handle, my_gen),
            ));
        },
        _ => {},
    }
}

/// No start ends in failure with the slot still set up in its name: either it gave the
/// slot back, or the slot was no longer its own. Only a poisoned lock, which lets nobody
/// claim the slot any more, is beyond that.
pub proof fn failed_start_keeps_no_slot<H>(
    phase: StartPhase,
    my_gen: u64,
    event: StartEvent<H>,
    before: TxControl<H>,
    after: TxControl<H>,
    next: StartPhase,
    action: StartAction<H>,
)
    requires
        start_steps(phase, event, before, after, next, action),
        phase.claim() == Some(my_gen),
        !before.tx_state.poisoned,
        start_gives_up(action),
    ensures
        !after.owned_by(my_gen),
{
}

/// A start that nobody disturbs ends with its thread in the slot, after the radio was
/// prepared with the power of the profile.
pub proof fn undisturbed_start_transmits<H>(
    slot: TxControl<H>,
    claimed: TxControl<H>,
    config: ModemConfig,
    samples: usize,
    handle: H,
    phases: Seq<StartPhase>,
    actions: Seq<StartAction<H>>,
    ended: TxControl<H>,
)
    requires
        slot.claimable(),
        samples > 0,
        phases.len() == 5,
        actions.len() == 5,
        start_claims(StartKind::Transmit, slot, claimed, phases[0], actions[0]),
        start_steps(
            phases[0],
            StartEvent::Config(config),
            claimed,
            claimed,
            phases[1],
            actions[1],
        ),
        start_steps(
            phases[1],
            StartEvent::Encoded(samples),
            claimed,
            claimed,
            phases[2],
            actions[2],
        ),
        start_steps(
            phases[2],
            StartEvent::RadioPrepared,
            claimed,
            claimed,
            phases[3],
            actions[3],
        ),
        start_steps(
            phases[3],
            StartEvent::Spawned(handle),
            claimed,
            ended,
            phases[4],
            actions[4],
        ),
    ensures
        actions[0] == StartAction::<H>::ReadConfig,
        actions[1] == StartAction::<H>::Encode(config),
        actions[2] == StartAction::<H>::PrepareRadio(config.tx_power_watts),
        actions[3] == StartAction::<H>::Spawn(slot.after_claim().tx_generation),
        start_succeeded(actions[4]),
        ended.tx_state.value == TxState::Running(handle),
        !ended.tx_abort,
        ended.tx_generation == slot.after_claim().tx_generation,
{
}

/// Tuning that nobody disturbs ends with its thread in the slot, after the radio was
/// prepared with the power for tuning, whatever the profile says.
pub proof fn undisturbed_tuning_transmits<H>(
    slot: TxControl<H>,
    claimed: TxControl<H>,
    config: ModemConfig,
    handle: H,
    phases: Seq<StartPhase>,
    actions: Seq<StartAction<H>>,
    ended: TxControl<H>,
)
    requires
        slot.claimable(),
        phases.len() == 4,
        actions.len() == 4,
        start_claims(StartKind::Tune, slot, claimed, phases[0], actions[0]),
        start_steps(
            phases[0],
            StartEvent::Config(config),
            claimed,
            claimed,
            phases[1],
            actions[1],
        ),
        start_steps(
            phases[1],
            StartEvent::RadioPrepared,
            claimed,
            claimed,
            phases[2],
            actions[2],
        ),
        start_steps(
            phases[2],
            StartEvent::Spawned(handle),
            claimed,
            ended,
            phases[3],
            actions[3],
        ),
    ensures
        actions[0] == StartAction::<H>::ReadConfig,
        actions[1] == StartAction::<H>::PrepareRadio(TUNE_POWER_WATTS),
        actions[2] == StartAction::<H>::Spawn(slot.after_claim().tx_generation),
        start_succeeded(actions[3]),
        ended.tx_state.value == TxState::Running(handle),
        !ended.tx_abort,
        ended.tx_generation == slot.after_claim().tx_generation,
{
}

// ---------------------------------------------------------------------------
// Stop
// ---------------------------------------------------------------------------

/// Stop transmitting: raise the abort flag, free the slot, and hand out the thread that
/// has to be joined.
pub fn stop_tx<H>(tx: &mut TxControl<H>) -> (handle: Option<H>)
    ensures
        handle == match old(tx).tx_state.value {
            TxState::Running(h) => Some(h),
            _ => None,
        },
        *final(tx) == old(tx).after_stop(),
{
    tx_stop(tx)
}

/// Stop tuning; the same as for a transmission.
pub fn stop_tune<H>(tx: &mut TxControl<H>) -> (handle: Option<H>)
    ensures
        handle == match old(tx).tx_state.value {
            TxState::Running(h) => Some(h),
            _ => None,
        },
        *final(tx) == old(tx).after_stop(),
{
    tx_stop(tx)
}

/// The result of a stop, once the thread has been joined. `joined` is absent if there was
/// no thread, and false if the thread panicked.
pub open spec fn stop_result(joined: Option<bool>, panicked: Seq<char>, r: Result<(), String>) -> bool {
    if joined == Some(false) {
        r matches Err(text) && text@ == panicked
    } else {
        r == Ok::<(), String>(())
    }
}

/// The rest of [`stop_tx`], once the thread has been joined. The radio is unkeyed in any
/// case, and most of all where the thread panicked and could not do it.
pub fn stop_tx_inner<R: RadioControl>(link: &mut RadioLink<R>, joined: Option<bool>) -> (r: Result<
    (),
    String,
>)
    ensures
        stop_result(joined, "TX thread panicked"@, r),
        old(link).reachable() is None ==> *final(link) == *old(link),
        old(link).reachable() is Some ==> exists|unkeyed: Psk31Result<()>|
            asked(*old(link), *final(link), #[trigger] seq![RadioCall::PttOff(unkeyed)]),
{
    unkey_radio(link);
    if let Some(false) = joined {
        return Err("TX thread panicked".to_owned());
    }
    Ok(())
}

/// The rest of [`stop_tune`], once the thread has been joined. The radio is unkeyed in any
/// case. Unless the thread panicked it also gets back `configured_watts`, the power of the
/// profile.
pub fn stop_tune_inner<R: RadioControl>(
    link: &mut RadioLink<R>,
    joined: Option<bool>,
    configured_watts: u32,
) -> (r: Result<(), String>)
    ensures
        stop_result(joined, "Tune thread panicked"@, r),
        old(link).reachable() is None ==> *final(link) == *old(link),
        old(link).reachable() is Some && joined == Some(false) ==> exists|
            unkeyed: Psk31Result<()>,
        |
            asked(*old(link), *final(link), #[trigger] seq![RadioCall::PttOff(unkeyed)]),
        old(link).reachable() is Some && joined != Some(false) ==> exists|
            unkeyed: Psk31Result<()>,
            powered: Psk31Result<()>,
        |
            asked(
                *old(link),
                *final(link),
                #[trigger] seq![
                    RadioCall::PttOff(unkeyed),
                    RadioCall::SetTxPower(configured_watts, powered),
                ],
            ),
{
    if let Some(false) = joined {
        unkey_radio(link);
        return Err("Tune thread panicked".to_owned());
    }
    restore_after_tune(link, configured_watts);
    Ok(())
}

} // verus!
