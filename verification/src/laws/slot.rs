//! The transmitter slot.

use crate::commands::slot::{
    cancelled_activation_text, thread_may_go_on, tx_activate, tx_check_cancelled, tx_claim,
    tx_reset, tx_self_clear, tx_stop, validate_tx_state, ActivationError,
};
use crate::state::{TxControl, TxState};
use vstd::prelude::*;

verus! {

/// A claim succeeds on a free slot behind a sound lock and on no other. It gives the next
/// number, puts the slot into `Starting` and lowers the abort flag. A claim that fails
/// changes nothing.
pub proof fn claims<H>()
    ensures
        forall|tx: &mut TxControl<H>, r: Result<u64, String>| #[trigger]
            call_ensures(tx_claim::<H>, (tx,), r) ==> {
                let before = *tx;
                let after = *final(tx);
                &&& r is Ok <==> !before.tx_state.poisoned && before.tx_state.value is Idle
                &&& r is Ok ==> {
                    &&& before.tx_generation < u64::MAX ==> r->Ok_0 == before.tx_generation + 1
                    &&& before.tx_generation < u64::MAX ==> after.tx_generation == r->Ok_0
                    &&& after.tx_state.value is Starting
                    &&& !after.tx_state.poisoned
                    &&& !after.tx_abort
                }
                &&& r is Err ==> {
                    &&& after == before
                    &&& before.tx_state.poisoned ==> r->Err_0@ == "TX state corrupted"@
                    &&& !before.tx_state.poisoned ==> r->Err_0@ == "Already transmitting"@
                }
            },
        forall|tx: &TxState<H>, r: Result<(), String>| #[trigger]
            call_ensures(validate_tx_state::<H>, (tx,), r) ==> {
                &&& r is Ok <==> *tx is Idle
                &&& r is Err ==> r->Err_0@ == "Already transmitting"@
            },
{
}

/// An activation succeeds for the claim whose number the slot bears, while the slot is
/// `Starting` behind a sound lock, and for no other. It puts exactly the thread that it was
/// given into the slot, or hands exactly that thread back; nothing else about the slot
/// changes.
pub proof fn activations<H>()
    ensures
        forall|tx: &mut TxControl<H>, handle: H, my_gen: u64, r: Result<(), ActivationError<H>>|
            #[trigger]
            call_ensures(tx_activate::<H>, (tx, handle, my_gen), r) ==> {
                let before = *tx;
                let after = *final(tx);
                &&& r is Ok <==> !before.tx_state.poisoned && before.tx_state.value is Starting
                    && before.tx_generation == my_gen
                &&& r is Ok ==> after.tx_state.value == TxState::Running(handle)
                &&& r is Err ==> after.tx_state.value == before.tx_state.value
                &&& r is Err && before.tx_state.poisoned ==> r->Err_0 is Corrupted
                &&& r is Err && !before.tx_state.poisoned ==> r->Err_0
                    == ActivationError::Cancelled(handle)
                &&& after.tx_abort == before.tx_abort
                &&& after.tx_generation == before.tx_generation
                &&& after.tx_state.poisoned == before.tx_state.poisoned
            },
        forall|joined: bool, text: String| #[trigger]
            call_ensures(cancelled_activation_text, (joined,), text) ==> {
                &&& joined ==> text@ == "Cancelled before activation"@
                &&& !joined ==> text@ == "TX thread panicked during cancellation"@
            },
{
}

/// A stop raises the abort flag and frees the slot, whatever state the slot and its lock
/// are in, and hands out the thread that was running, if one was. It uses up no number.
pub proof fn stops<H>()
    ensures
        forall|tx: &mut TxControl<H>, handle: Option<H>| #[trigger]
            call_ensures(tx_stop::<H>, (tx,), handle) ==> {
                let before = *tx;
                let after = *final(tx);
                &&& after.tx_abort
                &&& after.tx_state.value is Idle
                &&& after.tx_state.poisoned == before.tx_state.poisoned
                &&& after.tx_generation == before.tx_generation
                &&& before.tx_state.value is Running ==> handle is Some
                    && before.tx_state.value == TxState::Running(handle->0)
                &&& !(before.tx_state.value is Running) ==> handle is None
            },
{
}

/// A reset frees the slot, whatever state the slot and its lock are in, and touches neither
/// the abort flag nor the number.
pub proof fn resets<H>()
    ensures
        forall|tx: &mut TxControl<H>, r: ()| #[trigger]
            call_ensures(tx_reset::<H>, (tx,), r) ==> {
                &&& final(tx).tx_state.value is Idle
                &&& final(tx).tx_state.poisoned == (*tx).tx_state.poisoned
                &&& final(tx).tx_abort == (*tx).tx_abort
                &&& final(tx).tx_generation == (*tx).tx_generation
            },
{
}

/// A start has to give up if the abort flag is up or the slot bears another number, and
/// otherwise not; its thread goes by the same rule. Giving up frees a slot that bears the
/// number of the start, and leaves every other slot as it is.
pub proof fn cancellations<H>()
    ensures
        forall|tx: &mut TxControl<H>, my_gen: u64, cancelled: bool| #[trigger]
            call_ensures(tx_check_cancelled::<H>, (tx, my_gen), cancelled) ==> {
                let before = *tx;
                let after = *final(tx);
                &&& cancelled <==> before.tx_abort || before.tx_generation != my_gen
                &&& cancelled && before.tx_generation == my_gen ==> after.tx_state.value is Idle
                &&& !cancelled || before.tx_generation != my_gen ==> after.tx_state.value
                    == before.tx_state.value
                &&& after.tx_abort == before.tx_abort
                &&& after.tx_generation == before.tx_generation
                &&& after.tx_state.poisoned == before.tx_state.poisoned
            },
        forall|tx: &TxControl<H>, my_gen: u64, r: bool| #[trigger]
            call_ensures(thread_may_go_on::<H>, (tx, my_gen), r) ==> (r <==> !tx.tx_abort
                && tx.tx_generation == my_gen),
{
}

/// A thread that has played everything frees the slot that it runs in, whatever its
/// number, and frees no other. Nothing but the slot changes.
pub proof fn self_clears<H>()
    ensures
        forall|tx: &mut TxControl<H>, my_gen: u64, r: ()| #[trigger]
            call_ensures(tx_self_clear::<H>, (tx, my_gen), r) ==> {
                let before = *tx;
                let after = *final(tx);
                let own = !before.tx_state.poisoned && before.tx_state.value is Running
                    && before.tx_generation == my_gen;
                &&& own ==> after.tx_state.value is Idle && !after.tx_state.poisoned
                &&& !own ==> after.tx_state == before.tx_state
                &&& after.tx_abort == before.tx_abort
                &&& after.tx_generation == before.tx_generation
            },
{
}

/// The slot can be used again and again: once a thread was started with the number that
/// its claim gave, and has freed the slot with that number, the next claim succeeds and
/// gives the next number.
pub proof fn finished_transmission_lets_the_next_one_start<H>()
    ensures
        forall|
            claiming: &mut TxControl<H>,
            activating: &mut TxControl<H>,
            clearing: &mut TxControl<H>,
            again: &mut TxControl<H>,
            number: u64,
            handle: H,
            next: Result<u64, String>,
        |
            {
                &&& #[trigger] call_ensures(
                    tx_claim::<H>,
                    (claiming,),
                    Ok::<u64, String>(number),
                )
                &&& *activating == *final(claiming)
                &&& #[trigger] call_ensures(
                    tx_activate::<H>,
                    (activating, handle, number),
                    Ok::<(), ActivationError<H>>(()),
                )
                &&& *clearing == *final(activating)
                &&& #[trigger] call_ensures(tx_self_clear::<H>, (clearing, number), ())
                &&& *again == *final(clearing)
                &&& #[trigger] call_ensures(tx_claim::<H>, (again,), next)
                &&& claiming.tx_generation < u64::MAX - 1
            } ==> next == Ok::<u64, String>((number + 1) as u64),
{
}

/// A start that nobody stops gets its slot: what a claim gave can be activated as long as
/// the slot is left alone, and it is not cancelled.
pub proof fn claimed_slot_can_be_activated<H>()
    ensures
        forall|
            claiming: &mut TxControl<H>,
            checking: &mut TxControl<H>,
            activating: &mut TxControl<H>,
            number: u64,
            cancelled: bool,
            handle: H,
            r: Result<(), ActivationError<H>>,
        |
            {
                &&& #[trigger] call_ensures(
                    tx_claim::<H>,
                    (claiming,),
                    Ok::<u64, String>(number),
                )
                &&& claiming.tx_generation < u64::MAX
                &&& *checking == *final(claiming)
                &&& #[trigger] call_ensures(
                    tx_check_cancelled::<H>,
                    (checking, number),
                    cancelled,
                )
                &&& *activating == *final(checking)
                &&& #[trigger] call_ensures(tx_activate::<H>, (activating, handle, number), r)
            } ==> !cancelled && r is Ok,
{
}

/// A start that was stopped stays stopped although another start follows: its thread may
/// not go on, it finds itself cancelled, it cannot activate the slot, and its thread cannot
/// free it; and the other start goes on undisturbed.
pub proof fn stopped_start_stays_stopped<H>(handle: H)
    ensures
        forall|
            claiming: &mut TxControl<H>,
            stopping: &mut TxControl<H>,
            again: &mut TxControl<H>,
            looking: &TxControl<H>,
            checking: &mut TxControl<H>,
            activating: &mut TxControl<H>,
            clearing: &mut TxControl<H>,
            first: u64,
            taken: Option<H>,
            second: u64,
            may: bool,
            cancelled: bool,
            r: Result<(), ActivationError<H>>,
        |
            {
                &&& #[trigger] call_ensures(tx_claim::<H>, (claiming,), Ok::<u64, String>(first))
                &&& claiming.tx_generation < u64::MAX - 1
                &&& *stopping == *final(claiming)
                &&& #[trigger] call_ensures(tx_stop::<H>, (stopping,), taken)
                &&& *again == *final(stopping)
                &&& #[trigger] call_ensures(tx_claim::<H>, (again,), Ok::<u64, String>(second))
                &&& *looking == *final(again)
                &&& *checking == *final(again)
                &&& *activating == *final(again)
                &&& *clearing == *final(again)
                &&& #[trigger] call_ensures(thread_may_go_on::<H>, (looking, first), may)
                &&& #[trigger] call_ensures(
                    tx_check_cancelled::<H>,
                    (checking, first),
                    cancelled,
                )
                &&& #[trigger] call_ensures(tx_activate::<H>, (activating, handle, first), r)
                &&& #[trigger] call_ensures(tx_self_clear::<H>, (clearing, first), ())
            } ==> {
                &&& !may
                &&& cancelled
                &&& r is Err
                &&& second != first
                &&& *final(checking) == *checking
                &&& *final(activating) == *activating
                &&& *final(clearing) == *clearing
                &&& looking.tx_state.value is Starting
                &&& looking.tx_generation == second
                &&& !looking.tx_abort
            },
{
}

} // verus!
