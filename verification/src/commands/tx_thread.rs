//! The transmitting threads.
//!
//! A thread keys the radio, plays, and unkeys the radio again. The program around the
//! library performs the actions; the functions here say which ones come next, given
//! whether the thread is to abort, what became of the audio output, and whether everything
//! has been played. A thread is to abort when
//! [`thread_may_go_on`](crate::commands::slot::thread_may_go_on) denies the number of its
//! claim.

use crate::commands::slot::{apply, apply_all, counter_lasts, stop_cancels_start, SlotOp};
use crate::commands::tx::{StartKind, TxProgress, TxStatus, TxStatusPayload};
use crate::state::TxControl;
use vstd::prelude::*;

verus! {

/// Time for the radio to switch to transmission, in milliseconds.
pub const PTT_SETTLE_MS: u64 = 50;

/// Pause between two looks at the flags while a text is played, in milliseconds.
pub const TX_POLL_MS: u64 = 5;

/// Pause between two looks at the abort flag while tuning, in milliseconds.
pub const TUNE_POLL_MS: u64 = 50;

/// Time for the last samples to leave the sound card, in milliseconds.
pub const DRAIN_MS: u64 = 30;

/// How far a thread has come.
#[derive(Clone, Copy, PartialEq, Eq, Structural, Debug)]
pub enum ThreadPhase {
    /// Nothing has been done yet.
    Entry,
    /// The radio is keyed, and the audio output is being started.
    AudioStarting,
    Playing,
    Ended,
}

/// What a thread learns.
pub enum ThreadEvent {
    /// Whether the thread is to abort before it begins.
    Entered { abort: bool },
    AudioStarted,
    /// The audio output could not be started; the text says why.
    AudioFailed(String),
    /// A look at whether to abort, and at the playing. `done` says that everything has been played, which tuning
    /// never reports.
    Polled { abort: bool, done: bool },
}

/// What a thread does.
#[derive(Debug)]
pub enum ThreadAction {
    /// Key a connected radio.
    PttOn,
    /// Unkey a connected radio.
    PttOff,
    /// Wait so many milliseconds.
    Sleep(u64),
    Emit(TxStatusPayload),
    StartAudio,
    StopAudio,
    /// Free the transmitter slot.
    ResetSlot,
    /// Free the transmitter slot if this thread is the one in it.
    ClearSlot,
}

impl ThreadPhase {
    /// The event can occur in this phase.
    pub open spec fn expects(self, event: ThreadEvent) -> bool {
        match self {
            ThreadPhase::Entry => event is Entered,
            ThreadPhase::AudioStarting => event is AudioStarted || event is AudioFailed,
            ThreadPhase::Playing => event is Polled,
            ThreadPhase::Ended => false,
        }
    }
}

/// The event that announces a status.
pub open spec fn announce(status: TxStatus, progress: TxProgress) -> ThreadAction {
    ThreadAction::Emit(TxStatusPayload { status, progress })
}

/// What a thread does on an event, and where it stands then.
pub open spec fn thread_step(kind: StartKind, phase: ThreadPhase, event: ThreadEvent) -> (
    ThreadPhase,
    Seq<ThreadAction>,
) {
    match (event, kind) {
        (ThreadEvent::Entered { abort: true }, _) => (
            ThreadPhase::Ended,
            seq![announce(TxStatus::Aborted, TxProgress::Nothing)],
        ),
        (ThreadEvent::Entered { abort: false }, _) => (
            ThreadPhase::AudioStarting,
            seq![
                ThreadAction::PttOn,
                ThreadAction::Sleep(PTT_SETTLE_MS),
                announce(
                    match kind {
                        StartKind::Transmit => TxStatus::Transmitting,
                        StartKind::Tune => TxStatus::Tuning,
                    },
                    TxProgress::Nothing,
                ),
                ThreadAction::StartAudio,
            ],
        ),
        (ThreadEvent::AudioStarted, _) => (ThreadPhase::Playing, seq![]),
        // The transmitter is not left keyed when the audio device fails.
        (ThreadEvent::AudioFailed(cause), StartKind::Transmit) => (
            ThreadPhase::Ended,
            seq![
                announce(TxStatus::Error(cause), TxProgress::Nothing),
                ThreadAction::PttOff,
                ThreadAction::ResetSlot,
            ],
        ),
        (ThreadEvent::AudioFailed(_), StartKind::Tune) => (
            ThreadPhase::Ended,
            seq![ThreadAction::PttOff],
        ),
        (ThreadEvent::Polled { abort: true, .. }, StartKind::Transmit) => (
            ThreadPhase::Ended,
            seq![
                ThreadAction::StopAudio,
                announce(TxStatus::Aborted, TxProgress::Played),
                ThreadAction::PttOff,
            ],
        ),
        (ThreadEvent::Polled { abort: true, .. }, StartKind::Tune) => (
            ThreadPhase::Ended,
            seq![
                ThreadAction::StopAudio,
                ThreadAction::PttOff,
                announce(TxStatus::Aborted, TxProgress::Nothing),
            ],
        ),
        // The end is announced before the radio is unkeyed, so that the display does not
        // wait for the serial port.
        (ThreadEvent::Polled { abort: false, done: true }, StartKind::Transmit) => (
            ThreadPhase::Ended,
            seq![
                ThreadAction::Sleep(DRAIN_MS),
                ThreadAction::StopAudio,
                announce(TxStatus::Complete, TxProgress::Everything),
                ThreadAction::ClearSlot,
                ThreadAction::PttOff,
            ],
        ),
        (ThreadEvent::Polled { abort: false, done: false }, StartKind::Transmit) => (
            ThreadPhase::Playing,
            seq![ThreadAction::Sleep(TX_POLL_MS)],
        ),
        (ThreadEvent::Polled { abort: false, .. }, StartKind::Tune) => (
            ThreadPhase::Playing,
            seq![ThreadAction::Sleep(TUNE_POLL_MS)],
        ),
    }
}

fn emit(status: TxStatus, progress: TxProgress) -> (action: ThreadAction)
    ensures
        action == announce(status, progress),
{
    ThreadAction::Emit(TxStatusPayload { status, progress })
}

/// The thread that plays a text.
pub fn run_tx_thread(phase: ThreadPhase, event: ThreadEvent) -> (r: (
    ThreadPhase,
    Vec<ThreadAction>,
))
    requires
        phase.expects(event),
    ensures
        (r.0, r.1@) == thread_step(StartKind::Transmit, phase, event),
{
    match event {
        ThreadEvent::Entered { abort } => {
            if abort {
                (ThreadPhase::Ended, vec![emit(TxStatus::Aborted, TxProgress::Nothing)])
            } else {
                (
                    ThreadPhase::AudioStarting,
                    vec![
                        ThreadAction::PttOn,
                        ThreadAction::Sleep(PTT_SETTLE_MS),
                        emit(TxStatus::Transmitting, TxProgress::Nothing),
                        ThreadAction::StartAudio,
                    ],
                )
            }
        },
        ThreadEvent::AudioStarted => (ThreadPhase::Playing, Vec::new()),
        ThreadEvent::AudioFailed(cause) => (
            ThreadPhase::Ended,
            vec![
                emit(TxStatus::Error(cause), TxProgress::Nothing),
                ThreadAction::PttOff,
                ThreadAction::ResetSlot,
            ],
        ),
        ThreadEvent::Polled { abort, done } => {
            if abort {
                (
                    ThreadPhase::Ended,
                    vec![
                        ThreadAction::StopAudio,
                        emit(TxStatus::Aborted, TxProgress::Played),
                        ThreadAction::PttOff,
                    ],
                )
            } else if done {
                (
                    ThreadPhase::Ended,
                    vec![
                        ThreadAction::Sleep(DRAIN_MS),
                        ThreadAction::StopAudio,
                        emit(TxStatus::Complete, TxProgress::Everything),
                        ThreadAction::ClearSlot,
                        ThreadAction::PttOff,
                    ],
                )
            } else {
                (ThreadPhase::Playing, vec![ThreadAction::Sleep(TX_POLL_MS)])
            }
        },
    }
}

/// The thread that transmits a plain carrier until it is aborted.
pub fn run_tune_thread(phase: ThreadPhase, event: ThreadEvent) -> (r: (
    ThreadPhase,
    Vec<ThreadAction>,
))
    requires
        phase.expects(event),
    ensures
        (r.0, r.1@) == thread_step(StartKind::Tune, phase, event),
{
    match event {
        ThreadEvent::Entered { abort } => {
            if abort {
                (ThreadPhase::Ended, vec![emit(TxStatus::Aborted, TxProgress::Nothing)])
            } else {
                (
                    ThreadPhase::AudioStarting,
                    vec![
                        ThreadAction::PttOn,
                        ThreadAction::Sleep(PTT_SETTLE_MS),
                        emit(TxStatus::Tuning, TxProgress::Nothing),
                        ThreadAction::StartAudio,
                    ],
                )
            }
        },
        ThreadEvent::AudioStarted => (ThreadPhase::Playing, Vec::new()),
        ThreadEvent::AudioFailed(_) => (ThreadPhase::Ended, vec![ThreadAction::PttOff]),
        ThreadEvent::Polled { abort, done: _ } => {
            if abort {
                (
                    ThreadPhase::Ended,
                    vec![
                        ThreadAction::StopAudio,
                        ThreadAction::PttOff,
                        emit(TxStatus::Aborted, TxProgress::Nothing),
                    ],
                )
            } else {
                (ThreadPhase::Playing, vec![ThreadAction::Sleep(TUNE_POLL_MS)])
            }
        },
    }
}

// ---------------------------------------------------------------------------
// Whole runs
// ---------------------------------------------------------------------------

/// Where a thread stands after these events, and everything it has done.
pub open spec fn thread_run(kind: StartKind, events: Seq<ThreadEvent>) -> (
    ThreadPhase,
    Seq<ThreadAction>,
)
    decreases events.len(),
{
    if events.len() == 0 {
        (ThreadPhase::Entry, seq![])
    } else {
        let (phase, actions) = thread_run(kind, events.drop_last());
        let (next, more) = thread_step(kind, phase, events.last());
        (next, actions + more)
    }
}

/// Every event could occur when it did.
pub open spec fn possible(kind: StartKind, events: Seq<ThreadEvent>) -> bool {
    forall|i: int| #![trigger events[i]]
        0 <= i < events.len() ==> thread_run(kind, events.take(i)).0.expects(events[i])
}

/// Whether the radio is keyed after these actions, if it was `before`.
pub open spec fn keyed(before: bool, actions: Seq<ThreadAction>) -> bool
    decreases actions.len(),
{
    if actions.len() == 0 {
        before
    } else {
        match actions.last() {
            ThreadAction::PttOn => true,
            ThreadAction::PttOff => false,
            _ => keyed(before, actions.drop_last()),
        }
    }
}

/// How often these actions key the radio.
pub open spec fn keyings(actions: Seq<ThreadAction>) -> nat
    decreases actions.len(),
{
    if actions.len() == 0 {
        0
    } else {
        keyings(actions.drop_last()) + if actions.last() is PttOn {
            1nat
        } else {
            0nat
        }
    }
}

/// Whether the audio output has been asked to play after these actions.
pub open spec fn sounding(before: bool, actions: Seq<ThreadAction>) -> bool
    decreases actions.len(),
{
    if actions.len() == 0 {
        before
    } else {
        match actions.last() {
            ThreadAction::StartAudio => true,
            ThreadAction::StopAudio => false,
            _ => sounding(before, actions.drop_last()),
        }
    }
}

proof fn lemma_histories_split(first: Seq<ThreadAction>, second: Seq<ThreadAction>)
    ensures
        keyed(false, first + second) == keyed(keyed(false, first), second),
        sounding(false, first + second) == sounding(sounding(false, first), second),
        keyings(first + second) == keyings(first) + keyings(second),
    decreases second.len(),
{
    if second.len() == 0 {
        assert(first + second =~= first);
    } else {
        assert((first + second).drop_last() =~= first + second.drop_last());
        lemma_histories_split(first, second.drop_last());
    }
}

/// What one step does to the radio and to the audio output.
proof fn lemma_step(kind: StartKind, phase: ThreadPhase, event: ThreadEvent)
    requires
        phase.expects(event),
    ensures
        ({
            let (next, actions) = thread_step(kind, phase, event);
            let was_keyed = phase is AudioStarting || phase is Playing;
            &&& keyed(was_keyed, actions) == (next is AudioStarting || next is Playing)
            &&& keyings(actions) == if phase is Entry && next is AudioStarting {
                1nat
            } else {
                0nat
            }
            &&& !(next is Entry)
            &&& next is Playing ==> (sounding(true, actions) && !(phase is Entry))
            &&& phase is Playing && next is Ended ==> !sounding(true, actions)
            &&& next is AudioStarting ==> sounding(false, actions) && phase is Entry
        }),
{
    let actions = thread_step(kind, phase, event).1;
    reveal_with_fuel(keyed, 6);
    reveal_with_fuel(keyings, 6);
    reveal_with_fuel(sounding, 6);
    assert(actions.len() > 0 ==> actions.drop_last() =~= actions.take(actions.len() - 1));
}

proof fn lemma_possible_prefix(kind: StartKind, events: Seq<ThreadEvent>)
    requires
        possible(kind, events),
        events.len() > 0,
    ensures
        possible(kind, events.drop_last()),
        thread_run(kind, events.drop_last()).0.expects(events.last()),
{
    let prefix = events.drop_last();
    assert(events.take(events.len() - 1) =~= prefix);
    assert(events.last() == events[events.len() - 1]);
    assert forall|i: int| #![trigger prefix[i]] 0 <= i < prefix.len() implies thread_run(
        kind,
        prefix.take(i),
    ).0.expects(prefix[i]) by {
        assert(prefix.take(i) =~= events.take(i));
        assert(prefix[i] == events[i]);
    }
}

/// The radio is keyed exactly while a thread is between its entry and its end: a thread
/// that has ended has left the radio unkeyed, however it came to its end, and it never
/// keys the radio a second time.
pub proof fn radio_is_keyed_only_while_running(kind: StartKind, events: Seq<ThreadEvent>)
    requires
        possible(kind, events),
    ensures
        ({
            let (phase, actions) = thread_run(kind, events);
            &&& keyed(false, actions) == (phase is AudioStarting || phase is Playing)
            &&& keyings(actions) <= 1
            &&& phase is Entry ==> actions.len() == 0
        }),
    decreases events.len(),
{
    if events.len() > 0 {
        lemma_possible_prefix(kind, events);
        radio_is_keyed_only_while_running(kind, events.drop_last());
        let (phase, actions) = thread_run(kind, events.drop_last());
        let (next, more) = thread_step(kind, phase, events.last());
        lemma_histories_split(actions, more);
        lemma_step(kind, phase, events.last());
    }
}

/// Audio that has been started is stopped before the thread ends.
pub proof fn audio_is_stopped_at_the_end(kind: StartKind, events: Seq<ThreadEvent>)
    requires
        possible(kind, events),
        events.len() > 0,
        thread_run(kind, events.drop_last()).0 is Playing,
        thread_run(kind, events).0 is Ended,
    ensures
        sounding(false, thread_run(kind, events.drop_last()).1),
        !sounding(false, thread_run(kind, events).1),
{
    lemma_possible_prefix(kind, events);
    lemma_playing_sounds(kind, events.drop_last());
    let (phase, actions) = thread_run(kind, events.drop_last());
    let (next, more) = thread_step(kind, phase, events.last());
    lemma_histories_split(actions, more);
    lemma_step(kind, phase, events.last());
}

proof fn lemma_playing_sounds(kind: StartKind, events: Seq<ThreadEvent>)
    requires
        possible(kind, events),
    ensures
        thread_run(kind, events).0 is Entry ==> !sounding(false, thread_run(kind, events).1),
        thread_run(kind, events).0 is AudioStarting || thread_run(kind, events).0 is Playing
            ==> sounding(false, thread_run(kind, events).1),
    decreases events.len(),
{
    if events.len() > 0 {
        lemma_possible_prefix(kind, events);
        lemma_playing_sounds(kind, events.drop_last());
        let (phase, actions) = thread_run(kind, events.drop_last());
        let (next, more) = thread_step(kind, phase, events.last());
        lemma_histories_split(actions, more);
        lemma_step(kind, phase, events.last());
    }
}

/// A thread that is told to abort before it begins never touches the radio or the audio
/// output.
pub proof fn abort_on_entry_touches_nothing(kind: StartKind)
    ensures
        thread_run(kind, seq![ThreadEvent::Entered { abort: true }]) == (
            ThreadPhase::Ended,
            seq![announce(TxStatus::Aborted, TxProgress::Nothing)],
        ),
{
    let events = seq![ThreadEvent::Entered { abort: true }];
    reveal_with_fuel(thread_run, 2);
    assert(events.drop_last() =~= Seq::<ThreadEvent>::empty());
    assert(thread_run(kind, events).1 =~= seq![announce(TxStatus::Aborted, TxProgress::Nothing)]);
}

/// A playing thread that sees the abort flag ends at once: it stops the audio output and
/// unkeys the radio, and waits for nothing.
pub proof fn abort_ends_the_thread(kind: StartKind, done: bool)
    ensures
        ({
            let (next, actions) = thread_step(
                kind,
                ThreadPhase::Playing,
                ThreadEvent::Polled { abort: true, done },
            );
            &&& next is Ended
            &&& actions[0] is StopAudio
            &&& actions.contains(ThreadAction::PttOff)
            &&& forall|i: int| 0 <= i < actions.len() ==> !(#[trigger] actions[i] is Sleep)
        }),
{
    let actions = thread_step(
        kind,
        ThreadPhase::Playing,
        ThreadEvent::Polled { abort: true, done },
    ).1;
    match kind {
        StartKind::Transmit => {
            assert(actions[2] == ThreadAction::PttOff);
        },
        StartKind::Tune => {
            assert(actions[1] == ThreadAction::PttOff);
        },
    }
}

/// The thread of a start that was stopped never keys the radio. If a stop happens at any
/// point after a start has claimed the slot, and whatever else happens, further starts and
/// stops among it, before the thread of that start begins, then all that the thread does is
/// to announce that it was aborted.
pub proof fn stopped_start_never_keys<H>(
    kind: StartKind,
    tx: TxControl<H>,
    before_stop: Seq<SlotOp<H>>,
    after_stop: Seq<SlotOp<H>>,
    events: Seq<ThreadEvent>,
)
    requires
        tx.claimable(),
        counter_lasts(tx, before_stop.len() + after_stop.len() + 2),
        possible(kind, events),
        events.len() > 0,
        events[0] == (ThreadEvent::Entered {
            abort: apply_all(
                apply(apply_all(tx.after_claim(), before_stop), SlotOp::Stop),
                after_stop,
            ).cancelled(tx.after_claim().tx_generation),
        }),
    ensures
        thread_run(kind, events) == (
            ThreadPhase::Ended,
            seq![announce(TxStatus::Aborted, TxProgress::Nothing)],
        ),
        keyings(thread_run(kind, events).1) == 0,
{
    stop_cancels_start(tx, before_stop, after_stop);
    abort_on_entry_touches_nothing(kind);
    let entry = seq![ThreadEvent::Entered { abort: true }];
    assert(events.take(1) =~= entry);
    if events.len() > 1 {
        assert(thread_run(kind, events.take(1)).0.expects(events[1]));
    }
    assert(events =~= entry);
    reveal_with_fuel(keyings, 2);
}

/// The thread of a start that was stopped ends at its next look, whatever further starts
/// and stops happen before it: it stops the audio output and leaves the radio unkeyed and
/// the slot alone.
pub proof fn stopped_thread_ends<H>(
    kind: StartKind,
    tx: TxControl<H>,
    before_stop: Seq<SlotOp<H>>,
    after_stop: Seq<SlotOp<H>>,
    done: bool,
)
    requires
        tx.claimable(),
        counter_lasts(tx, before_stop.len() + after_stop.len() + 2),
    ensures
        ({
            let later = apply_all(
                apply(apply_all(tx.after_claim(), before_stop), SlotOp::Stop),
                after_stop,
            );
            let (next, actions) = thread_step(
                kind,
                ThreadPhase::Playing,
                ThreadEvent::Polled { abort: later.cancelled(tx.after_claim().tx_generation), done },
            );
            &&& next is Ended
            &&& !keyed(true, actions)
            &&& !sounding(true, actions)
            &&& !actions.contains(ThreadAction::ClearSlot)
            &&& !actions.contains(ThreadAction::ResetSlot)
        }),
{
    stop_cancels_start(tx, before_stop, after_stop);
    lemma_step(kind, ThreadPhase::Playing, ThreadEvent::Polled { abort: true, done });
}

} // verus!
