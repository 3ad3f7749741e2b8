//! The transmitting threads.
//!
//! The laws say what a thread does on an event and what it does not, how often, and in
//! which order.

use crate::commands::tx::{TxProgress, TxStatus, TxStatusPayload};
use crate::commands::tx_thread::{
    run_tune_thread, run_tx_thread, ThreadAction, ThreadEvent, ThreadPhase,
};
use vstd::prelude::*;

verus! {

/// The actions announce this status with this progress.
pub open spec fn announced(
    actions: Seq<ThreadAction>,
    status: TxStatus,
    progress: TxProgress,
) -> bool {
    actions.contains(ThreadAction::Emit(TxStatusPayload { status, progress }))
}

/// Wherever both actions occur, `first` comes first.
pub open spec fn in_order(
    actions: Seq<ThreadAction>,
    first: spec_fn(ThreadAction) -> bool,
    second: spec_fn(ThreadAction) -> bool,
) -> bool {
    forall|i: int, j: int|
        0 <= i < actions.len() && 0 <= j < actions.len() && first(#[trigger] actions[i]) && second(
            #[trigger] actions[j],
        ) ==> i < j
}

pub open spec fn keys() -> spec_fn(ThreadAction) -> bool {
    |a: ThreadAction| a is PttOn
}

pub open spec fn unkeys() -> spec_fn(ThreadAction) -> bool {
    |a: ThreadAction| a is PttOff
}

pub open spec fn waits() -> spec_fn(ThreadAction) -> bool {
    |a: ThreadAction| a is Sleep
}

pub open spec fn announces() -> spec_fn(ThreadAction) -> bool {
    |a: ThreadAction| a is Emit
}

pub open spec fn starts_audio() -> spec_fn(ThreadAction) -> bool {
    |a: ThreadAction| a is StartAudio
}

pub open spec fn stops_audio() -> spec_fn(ThreadAction) -> bool {
    |a: ThreadAction| a is StopAudio
}

pub open spec fn frees_slot() -> spec_fn(ThreadAction) -> bool {
    |a: ThreadAction| a is ResetSlot || a is ClearSlot
}

/// What a thread announces. A thread of a text that is told to abort never says that the
/// text went out, whatever else it learns: it says that it was aborted, and how far it came.
/// It says that the text went out if and only if everything was played and nobody told it
/// to abort. The cause of a failure is passed on as it came.
pub proof fn text_thread_announces(
    phase: ThreadPhase,
    event: ThreadEvent,
    r: (ThreadPhase, Vec<ThreadAction>),
    status: TxStatus,
    progress: TxProgress,
)
    requires
        call_ensures(run_tx_thread, (phase, event), r),
    ensures
        announced(r.1@, status, progress) <==> match event {
            ThreadEvent::Entered { abort } => progress is Nothing && (if abort {
                status is Aborted
            } else {
                status is Transmitting
            }),
            ThreadEvent::AudioStarted => false,
            ThreadEvent::AudioFailed(cause) => progress is Nothing && status == TxStatus::Error(
                cause,
            ),
            ThreadEvent::Polled { abort, done } => if abort {
                status is Aborted && progress is Played
            } else {
                done && status is Complete && progress is Everything
            },
        },
{
    lemma_text_thread(phase, event, r);
}

/// What a thread that tunes announces: that it tunes, and that it was aborted.
pub proof fn tuning_thread_announces(
    phase: ThreadPhase,
    event: ThreadEvent,
    r: (ThreadPhase, Vec<ThreadAction>),
    status: TxStatus,
    progress: TxProgress,
)
    requires
        call_ensures(run_tune_thread, (phase, event), r),
    ensures
        announced(r.1@, status, progress) <==> progress is Nothing && match event {
            ThreadEvent::Entered { abort } => if abort {
                status is Aborted
            } else {
                status is Tuning
            },
            ThreadEvent::Polled { abort, .. } => abort && status is Aborted,
            _ => false,
        },
{
    lemma_tuning_thread(phase, event, r);
}

/// What a thread of a text does besides announcing, if and only if what happened, each
/// thing once and nothing else, and where it stands then.
pub proof fn text_thread_acts(
    phase: ThreadPhase,
    event: ThreadEvent,
    r: (ThreadPhase, Vec<ThreadAction>),
    milliseconds: u64,
)
    requires
        call_ensures(run_tx_thread, (phase, event), r),
    ensures
        ({
            let actions = r.1@;
            let begins = event matches ThreadEvent::Entered { abort } && !abort;
            let aborted = event matches ThreadEvent::Polled { abort, .. } && abort;
            let finished = event matches ThreadEvent::Polled { abort, done } && !abort && done;
            let goes_on = event matches ThreadEvent::Polled { abort, done } && !abort && !done;
            &&& actions.no_duplicates()
            &&& actions.contains(ThreadAction::PttOn) <==> begins
            &&& actions.contains(ThreadAction::StartAudio) <==> begins
            &&& actions.contains(ThreadAction::PttOff) <==> event is AudioFailed || aborted
                || finished
            &&& actions.contains(ThreadAction::StopAudio) <==> aborted || finished
            &&& actions.contains(ThreadAction::ClearSlot) <==> finished
            &&& actions.contains(ThreadAction::ResetSlot) <==> event is AudioFailed
            &&& actions.contains(ThreadAction::Sleep(milliseconds)) <==> (begins && milliseconds
                == 50) || (goes_on && milliseconds == 5) || (finished && milliseconds == 30)
            &&& r.0 is AudioStarting <==> begins
            &&& r.0 is Playing <==> event is AudioStarted || goes_on
            &&& r.0 is Ended <==> (event matches ThreadEvent::Entered { abort } && abort)
                || event is AudioFailed || aborted || finished
        }),
{
    lemma_text_thread(phase, event, r);
}

/// What a thread that tunes does besides announcing, if and only if what happened, each
/// thing once and nothing else, and where it stands then. It never ends by itself, and never
/// frees the slot.
pub proof fn tuning_thread_acts(
    phase: ThreadPhase,
    event: ThreadEvent,
    r: (ThreadPhase, Vec<ThreadAction>),
    milliseconds: u64,
)
    requires
        call_ensures(run_tune_thread, (phase, event), r),
    ensures
        ({
            let actions = r.1@;
            let begins = event matches ThreadEvent::Entered { abort } && !abort;
            let aborted = event matches ThreadEvent::Polled { abort, .. } && abort;
            let goes_on = event matches ThreadEvent::Polled { abort, .. } && !abort;
            &&& actions.no_duplicates()
            &&& actions.contains(ThreadAction::PttOn) <==> begins
            &&& actions.contains(ThreadAction::StartAudio) <==> begins
            &&& actions.contains(ThreadAction::PttOff) <==> event is AudioFailed || aborted
            &&& actions.contains(ThreadAction::StopAudio) <==> aborted
            &&& !actions.contains(ThreadAction::ClearSlot)
            &&& !actions.contains(ThreadAction::ResetSlot)
            &&& actions.contains(ThreadAction::Sleep(milliseconds)) <==> (begins || goes_on)
                && milliseconds == 50
            &&& r.0 is AudioStarting <==> begins
            &&& r.0 is Playing <==> event is AudioStarted || goes_on
            &&& r.0 is Ended <==> (event matches ThreadEvent::Entered { abort } && abort)
                || event is AudioFailed || aborted
        }),
{
    lemma_tuning_thread(phase, event, r);
}

/// In which order a thread of a text does things: it keys the radio, waits for it, tells
/// the user and only then starts the audio output; at its end the last samples leave the
/// sound card before the audio output stops, and the user is told before the slot is freed
/// and the radio is unkeyed. Where the audio output failed the radio is unkeyed before the
/// slot is freed.
pub proof fn text_thread_keeps_the_order(
    phase: ThreadPhase,
    event: ThreadEvent,
    r: (ThreadPhase, Vec<ThreadAction>),
)
    requires
        call_ensures(run_tx_thread, (phase, event), r),
    ensures
        in_order(r.1@, keys(), waits()),
        event is Entered ==> in_order(r.1@, waits(), announces()),
        in_order(r.1@, announces(), starts_audio()),
        in_order(r.1@, waits(), stops_audio()),
        in_order(r.1@, stops_audio(), announces()),
        in_order(r.1@, announces(), frees_slot()),
        in_order(r.1@, announces(), unkeys()),
        event is Polled ==> in_order(r.1@, frees_slot(), unkeys()),
        event is AudioFailed ==> in_order(r.1@, unkeys(), frees_slot()),
{
    lemma_text_thread(phase, event, r);
}

/// In which order a thread that tunes does things: it keys the radio, waits for it, tells
/// the user and only then starts the audio output; at its end the audio output stops, then
/// the radio is unkeyed, then the user is told.
pub proof fn tuning_thread_keeps_the_order(
    phase: ThreadPhase,
    event: ThreadEvent,
    r: (ThreadPhase, Vec<ThreadAction>),
)
    requires
        call_ensures(run_tune_thread, (phase, event), r),
    ensures
        in_order(r.1@, keys(), waits()),
        in_order(r.1@, waits(), announces()),
        in_order(r.1@, announces(), starts_audio()),
        in_order(r.1@, stops_audio(), unkeys()),
        in_order(r.1@, unkeys(), announces()),
{
    lemma_tuning_thread(phase, event, r);
}

/// The actions of a step, one by one, for the laws above to look at.
spec fn looked_at(actions: Seq<ThreadAction>) -> bool {
    &&& actions.len() <= 5
    &&& forall|a: ThreadAction| #[trigger]
        actions.contains(a) <==> {
            ||| actions.len() > 0 && actions[0] == a
            ||| actions.len() > 1 && actions[1] == a
            ||| actions.len() > 2 && actions[2] == a
            ||| actions.len() > 3 && actions[3] == a
            ||| actions.len() > 4 && actions[4] == a
        }
}

proof fn lemma_text_thread(
    phase: ThreadPhase,
    event: ThreadEvent,
    r: (ThreadPhase, Vec<ThreadAction>),
)
    requires
        call_ensures(run_tx_thread, (phase, event), r),
    ensures
        looked_at(r.1@),
{
}

proof fn lemma_tuning_thread(
    phase: ThreadPhase,
    event: ThreadEvent,
    r: (ThreadPhase, Vec<ThreadAction>),
)
    requires
        call_ensures(run_tune_thread, (phase, event), r),
    ensures
        looked_at(r.1@),
{
}

} // verus!
