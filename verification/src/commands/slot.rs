//! The transmitter slot.
//!
//! Starts, stops and transmitting threads meet here. Each of them holds the lock only
//! for one of the short operations below, so any interleaving of these operations can
//! happen. A start does its slow work (encoding, serial round trips) between its claim
//! and its activation without the lock, and learns from the abort flag and from the
//! generation whether the slot is still its own.

use crate::state::{Guarded, TxControl, TxState};
use vstd::prelude::*;

verus! {

/// Why a claimed slot could not be activated.
#[derive(Debug)]
pub enum ActivationError<H> {
    /// A thread panicked while it held the lock.
    Corrupted,
    /// The slot is no longer ours. The thread is handed back, to be joined.
    Cancelled(H),
}

impl<H> TxControl<H> {
    /// The slot is free, and its lock is sound.
    pub open spec fn claimable(self) -> bool {
        !self.tx_state.poisoned && self.tx_state.value is Idle
    }

    /// The slot is being set up by the start that claimed it as number `generation`.
    pub open spec fn owned_by(self, generation: u64) -> bool {
        self.tx_state.value is Starting && self.tx_generation == generation
    }

    /// The start that claimed the slot as number `generation` has to give up.
    pub open spec fn cancelled(self, generation: u64) -> bool {
        self.tx_abort || self.tx_generation != generation
    }

    pub open spec fn with_state(self, state: TxState<H>) -> TxControl<H> {
        TxControl { tx_state: Guarded { value: state, ..self.tx_state }, ..self }
    }

    pub open spec fn after_claim(self) -> TxControl<H> {
        TxControl {
            tx_abort: false,
            tx_generation: (self.tx_generation + 1) as u64,
            ..self.with_state(TxState::Starting)
        }
    }

    pub open spec fn after_reset(self) -> TxControl<H> {
        self.with_state(TxState::Idle)
    }

    pub open spec fn after_stop(self) -> TxControl<H> {
        TxControl { tx_abort: true, ..self.with_state(TxState::Idle) }
    }

    /// The thread of the claim numbered `generation` is running in the slot.
    pub open spec fn runs(self, generation: u64) -> bool {
        self.tx_state.value is Running && self.tx_generation == generation
    }

    pub open spec fn after_self_clear(self, generation: u64) -> TxControl<H> {
        if !self.tx_state.poisoned && self.runs(generation) {
            self.with_state(TxState::Idle)
        } else {
            self
        }
    }
}

/// Check that a start may claim the slot.
pub fn validate_tx_state<H>(tx: &TxState<H>) -> (r: Result<(), String>)
    ensures
        r is Ok <==> *tx is Idle,
        r matches Err(text) ==> text@ == "Already transmitting"@,
{
    match tx {
        TxState::Idle => Ok(()),
        _ => Err("Already transmitting".to_owned()),
    }
}

/// Claim the slot: `Idle` becomes `Starting`, the abort flag is cleared and the
/// generation counts up, all under one lock, so that no stop can get lost in between.
///
/// Returns the number of the claim.
pub fn tx_claim<H>(tx: &mut TxControl<H>) -> (r: Result<u64, String>)
    requires
        old(tx).claimable() ==> old(tx).tx_generation < u64::MAX,
    ensures
        r is Ok <==> old(tx).claimable(),
        r matches Ok(generation) ==> {
            &&& generation == old(tx).tx_generation + 1
            &&& *final(tx) == old(tx).after_claim()
        },
        r matches Err(text) ==> {
            &&& text@ == if old(tx).tx_state.poisoned {
                "TX state corrupted"@
            } else {
                "Already transmitting"@
            }
            &&& *final(tx) == *old(tx)
        },
{
    if tx.tx_state.poisoned {
        return Err("TX state corrupted".to_owned());
    }
    match validate_tx_state(&tx.tx_state.value) {
        Err(text) => Err(text),
        Ok(()) => {
            tx.tx_abort = false;
            tx.tx_generation = tx.tx_generation + 1;
            tx.tx_state.value = TxState::Starting;
            Ok(tx.tx_generation)
        },
    }
}

/// Give the slot back, even if the lock is poisoned, so that the radio is never left
/// stuck in `Starting`.
pub fn tx_reset<H>(tx: &mut TxControl<H>)
    ensures
        *final(tx) == old(tx).after_reset(),
{
    tx.tx_state.value = TxState::Idle;
}

/// Whether a start has to give up before it spawns its thread: a stop asked for it, or
/// the slot has changed hands. A slot that is still ours is given back.
pub fn tx_check_cancelled<H>(tx: &mut TxControl<H>, my_gen: u64) -> (cancelled: bool)
    ensures
        cancelled == old(tx).cancelled(my_gen),
        *final(tx) == if cancelled && old(tx).tx_generation == my_gen {
            old(tx).after_reset()
        } else {
            *old(tx)
        },
{
    let cancelled: bool = tx.tx_abort || tx.tx_generation != my_gen;
    if cancelled && tx.tx_generation == my_gen {
        tx_reset(tx);
    }
    cancelled
}

/// Activate the slot: `Starting` becomes `Running` if the slot still belongs to the claim
/// numbered `my_gen`. Otherwise the thread is handed back, for the caller to join once the
/// lock is released.
pub fn tx_activate<H>(tx: &mut TxControl<H>, handle: H, my_gen: u64) -> (r: Result<
    (),
    ActivationError<H>,
>)
    ensures
        r == if old(tx).tx_state.poisoned {
            Err(ActivationError::Corrupted)
        } else if old(tx).owned_by(my_gen) {
            Ok(())
        } else {
            Err(ActivationError::Cancelled(handle))
        },
        *final(tx) == if r is Ok {
            old(tx).with_state(TxState::Running(handle))
        } else {
            *old(tx)
        },
{
    if tx.tx_state.poisoned {
        return Err(ActivationError::Corrupted);
    }
    if let TxState::Starting = tx.tx_state.value {
        if tx.tx_generation == my_gen {
            tx.tx_state.value = TxState::Running(handle);
            return Ok(());
        }
    }
    Err(ActivationError::Cancelled(handle))
}

/// The text of a cancelled activation, once the thread was joined. `joined` says that it
/// ended without a panic.
pub fn cancelled_activation_text(joined: bool) -> (text: String)
    ensures
        text@ == if joined {
            "Cancelled before activation"@
        } else {
            "TX thread panicked during cancellation"@
        },
{
    if joined {
        "Cancelled before activation".to_owned()
    } else {
        "TX thread panicked during cancellation".to_owned()
    }
}

/// Stop whatever the slot is used for: set the abort flag and free the slot, even if the
/// lock is poisoned. A running thread is handed out, to be joined once the lock is
/// released; a start that is still setting up only needs the flag.
pub fn tx_stop<H>(tx: &mut TxControl<H>) -> (handle: Option<H>)
    ensures
        handle == match old(tx).tx_state.value {
            TxState::Running(h) => Some(h),
            _ => None,
        },
        *final(tx) == old(tx).after_stop(),
{
    tx.tx_abort = true;
    let mut state: TxState<H> = TxState::Idle;
    std::mem::swap(&mut tx.tx_state.value, &mut state);
    match state {
        TxState::Running(h) => Some(h),
        _ => None,
    }
}

/// Whether the thread of the claim numbered `my_gen` is still wanted. This is what the
/// thread takes for its abort flag: a later claim clears the shared flag, but it also gets
/// another number.
pub fn thread_may_go_on<H>(tx: &TxControl<H>, my_gen: u64) -> (r: bool)
    ensures
        r == !tx.cancelled(my_gen),
{
    !tx.tx_abort && tx.tx_generation == my_gen
}

/// Free the slot when the thread of the claim numbered `my_gen` has played everything, if
/// that thread is the one in the slot.
pub fn tx_self_clear<H>(tx: &mut TxControl<H>, my_gen: u64)
    ensures
        *final(tx) == old(tx).after_self_clear(my_gen),
{
    if !tx.tx_state.poisoned && tx.tx_generation == my_gen {
        if let TxState::Running(_) = tx.tx_state.value {
            tx.tx_state.value = TxState::Idle;
        }
    }
}

/// An operation on the slot, by whichever thread.
pub enum SlotOp<H> {
    Claim,
    Reset,
    CheckCancelled(u64),
    Activate(H, u64),
    Stop,
    SelfClear(u64),
    /// A thread panics while it holds the lock.
    Poison,
}

/// What an operation makes of the slot.
pub open spec fn apply<H>(tx: TxControl<H>, op: SlotOp<H>) -> TxControl<H> {
    match op {
        SlotOp::Claim => if tx.claimable() {
            tx.after_claim()
        } else {
            tx
        },
        SlotOp::Reset => tx.after_reset(),
        SlotOp::CheckCancelled(generation) => if tx.cancelled(generation) && tx.tx_generation
            == generation {
            tx.after_reset()
        } else {
            tx
        },
        SlotOp::Activate(handle, generation) => if !tx.tx_state.poisoned && tx.owned_by(
            generation,
        ) {
            tx.with_state(TxState::Running(handle))
        } else {
            tx
        },
        SlotOp::Stop => tx.after_stop(),
        SlotOp::SelfClear(generation) => tx.after_self_clear(generation),
        SlotOp::Poison => TxControl {
            tx_state: Guarded { poisoned: true, ..tx.tx_state },
            ..tx
        },
    }
}

/// What a sequence of operations makes of the slot.
pub open spec fn apply_all<H>(tx: TxControl<H>, ops: Seq<SlotOp<H>>) -> TxControl<H>
    decreases ops.len(),
{
    if ops.len() == 0 {
        tx
    } else {
        apply(apply_all(tx, ops.drop_last()), ops.last())
    }
}

/// The generation counter does not run over during so many operations.
pub open spec fn counter_lasts<H>(tx: TxControl<H>, operations: nat) -> bool {
    tx.tx_generation + operations <= u64::MAX
}

/// The claim numbered `generation` has lost the slot for good.
spec fn lost<H>(tx: TxControl<H>, generation: u64) -> bool {
    tx.tx_generation > generation || (tx.tx_abort && tx.tx_state.value is Idle)
}

proof fn lemma_generation_bounds<H>(tx: TxControl<H>, ops: Seq<SlotOp<H>>)
    requires
        counter_lasts(tx, ops.len()),
    ensures
        tx.tx_generation <= apply_all(tx, ops).tx_generation <= tx.tx_generation + ops.len(),
    decreases ops.len(),
{
    if ops.len() > 0 {
        lemma_generation_bounds(tx, ops.drop_last());
    }
}

proof fn lemma_lost_stays_lost<H>(tx: TxControl<H>, generation: u64, ops: Seq<SlotOp<H>>)
    requires
        tx.tx_generation >= generation,
        lost(tx, generation),
        counter_lasts(tx, ops.len()),
    ensures
        lost(apply_all(tx, ops), generation),
    decreases ops.len(),
{
    if ops.len() > 0 {
        lemma_lost_stays_lost(tx, generation, ops.drop_last());
        lemma_generation_bounds(tx, ops.drop_last());
    }
}

proof fn lemma_apply_all_splits<H>(tx: TxControl<H>, first: Seq<SlotOp<H>>, second: Seq<SlotOp<H>>)
    ensures
        apply_all(tx, first + second) == apply_all(apply_all(tx, first), second),
    decreases second.len(),
{
    if second.len() == 0 {
        assert(first + second =~= first);
    } else {
        assert((first + second).drop_last() =~= first + second.drop_last());
        lemma_apply_all_splits(tx, first, second.drop_last());
    }
}

/// A stop is never lost on a start. If a stop happens at any point after a start has
/// claimed the slot, then whatever else happens, further starts and stops among it, that
/// start and its thread find themselves cancelled when they look, the start cannot activate
/// the slot, and the thread cannot free it.
pub proof fn stop_cancels_start<H>(
    tx: TxControl<H>,
    before_stop: Seq<SlotOp<H>>,
    after_stop: Seq<SlotOp<H>>,
)
    requires
        tx.claimable(),
        counter_lasts(tx, before_stop.len() + after_stop.len() + 2),
    ensures
        ({
            let claimed = tx.after_claim();
            let later = apply_all(
                apply(apply_all(claimed, before_stop), SlotOp::Stop),
                after_stop,
            );
            &&& later.cancelled(claimed.tx_generation)
            &&& !later.owned_by(claimed.tx_generation)
            &&& apply(later, SlotOp::SelfClear(claimed.tx_generation)) == later
        }),
{
    let claimed = tx.after_claim();
    lemma_generation_bounds(claimed, before_stop);
    let stopped = apply(apply_all(claimed, before_stop), SlotOp::Stop);
    lemma_lost_stays_lost(stopped, claimed.tx_generation, after_stop);
}

/// The abort flag stays up until the next claim, whatever else happens.
pub proof fn abort_stays_up_until_the_next_claim<H>(tx: TxControl<H>, ops: Seq<SlotOp<H>>)
    requires
        forall|i: int| 0 <= i < ops.len() ==> !(#[trigger] ops[i] is Claim),
    ensures
        apply_all(tx.after_stop(), ops).tx_abort,
    decreases ops.len(),
{
    if ops.len() > 0 {
        let before = ops.drop_last();
        assert forall|i: int| 0 <= i < before.len() implies !(#[trigger] before[i] is Claim) by {
            assert(before[i] == ops[i]);
        }
        abort_stays_up_until_the_next_claim(tx, before);
    }
}

/// Nobody activates a slot that belongs to someone else. If a start can activate the slot
/// at the end of any sequence of operations after its claim, then no other claim
/// succeeded in between, and no stop, reset or self-clearing freed the slot: it was
/// `Starting` all along.
pub proof fn activation_implies_undisturbed<H>(tx: TxControl<H>, ops: Seq<SlotOp<H>>, upto: int)
    requires
        tx.claimable(),
        counter_lasts(tx, ops.len() + 1),
        0 <= upto <= ops.len(),
        apply_all(tx.after_claim(), ops).owned_by(tx.after_claim().tx_generation),
    ensures
        apply_all(tx.after_claim(), ops.take(upto)).owned_by(tx.after_claim().tx_generation),
{
    let claimed = tx.after_claim();
    let generation = claimed.tx_generation;
    let first = ops.take(upto);
    let second = ops.skip(upto);
    assert(ops =~= first + second);
    lemma_apply_all_splits(claimed, first, second);
    lemma_generation_bounds(claimed, first);
    let middle = apply_all(claimed, first);
    lemma_generation_bounds(middle, second);
    if !middle.owned_by(generation) {
        lemma_not_owned_stays(middle, generation, second);
    }
}

proof fn lemma_not_owned_stays<H>(tx: TxControl<H>, generation: u64, ops: Seq<SlotOp<H>>)
    requires
        tx.tx_generation >= generation,
        !tx.owned_by(generation),
        counter_lasts(tx, ops.len()),
    ensures
        !apply_all(tx, ops).owned_by(generation),
    decreases ops.len(),
{
    if ops.len() > 0 {
        lemma_not_owned_stays(tx, generation, ops.drop_last());
        lemma_generation_bounds(tx, ops.drop_last());
    }
}

/// Two claims never get the same number: a later successful claim gets a greater one.
pub proof fn claims_are_numbered_apart<H>(tx: TxControl<H>, ops: Seq<SlotOp<H>>)
    requires
        tx.claimable(),
        counter_lasts(tx, ops.len() + 2),
        apply_all(tx.after_claim(), ops).claimable(),
    ensures
        apply_all(tx.after_claim(), ops).after_claim().tx_generation
            > tx.after_claim().tx_generation,
{
    lemma_generation_bounds(tx.after_claim(), ops);
}

/// A start that finds itself cancelled never takes the slot from a later start: it gives
/// back a slot of its own, and leaves any other untouched.
pub proof fn cancelled_start_spares_others<H>(tx: TxControl<H>, my_gen: u64)
    requires
        tx.cancelled(my_gen),
    ensures
        !apply(tx, SlotOp::CheckCancelled(my_gen)).owned_by(my_gen),
        tx.tx_generation != my_gen ==> apply(tx, SlotOp::CheckCancelled(my_gen)) == tx,
{
}

/// A thread that has played everything frees no slot but its own.
pub proof fn ended_thread_spares_others<H>(tx: TxControl<H>, my_gen: u64)
    ensures
        !tx.runs(my_gen) ==> apply(tx, SlotOp::SelfClear(my_gen)) == tx,
{
}

/// A stop frees the slot whatever state it is in, so that a start can follow at once
/// where the lock is sound; and a second stop changes nothing more.
pub proof fn stop_frees_the_slot<H>(tx: TxControl<H>)
    ensures
        tx.after_stop().tx_state.value is Idle,
        tx.after_stop().tx_abort,
        !tx.tx_state.poisoned ==> tx.after_stop().claimable(),
        tx.after_stop().after_stop() == tx.after_stop(),
{
}

/// While the slot is taken every other claim is refused: nothing but a reset, a stop, a
/// cancelled start or the end of the thread lets another start in.
pub proof fn taken_slot_is_kept<H>(tx: TxControl<H>, op: SlotOp<H>)
    requires
        !(tx.tx_state.value is Idle),
    ensures
        op is Claim ==> apply(tx, op) == tx,
        apply(tx, op).tx_state.value is Idle ==> op is Reset || op is Stop || op is SelfClear
            || op is CheckCancelled,
{
}

} // verus!
