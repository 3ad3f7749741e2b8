//! Playing a text.

use crate::commands::playback::fill_output;
use vstd::prelude::*;

verus! {

/// Every place of a buffer holds the sample that is due there, and silence where none is
/// left. The next buffer begins where this one ended, or after the last sample. That
/// everything has been played is said of the first buffer that gets no sample, and of every
/// later one, even where a buffer has no room.
pub proof fn buffers_hold_the_samples<T: Copy>()
    ensures
        forall|samples: &[T], position: usize, silence: T, output: &mut [T], r: (usize, bool)|
            #[trigger]
            call_ensures(fill_output::<T>, (samples, position, silence, output), r) ==> {
                &&& final(output)@.len() == (*output)@.len()
                &&& forall|i: int|
                    0 <= i < (*output)@.len() && position + i < samples@.len()
                        ==> #[trigger] final(output)@[i] == samples@[position + i]
                &&& forall|i: int|
                    0 <= i < (*output)@.len() && position + i >= samples@.len()
                        ==> #[trigger] final(output)@[i] == silence
                &&& r.1 <==> position >= samples@.len()
                &&& position + (*output)@.len() <= samples@.len() ==> r.0 == position
                    + (*output)@.len()
                &&& position + (*output)@.len() > samples@.len() && position <= samples@.len()
                    ==> r.0 == samples@.len()
                &&& position > samples@.len() ==> r.0 == position
            },
{
}

/// Where buffer `k` begins in what the sound card gets.
pub open spec fn handed_before<T>(buffers: Seq<Seq<T>>, k: int) -> nat
    decreases k,
{
    if k <= 0 {
        0
    } else {
        handed_before(buffers, k - 1) + buffers[k - 1].len()
    }
}

/// A text is played by a run of calls, each of which begins where the one before it ended,
/// the first at the beginning. However long its buffers are, the sound card gets the samples one after the other, each
/// once, and then silence: place `i` of buffer `k` holds the sample with the number of all
/// places before it.
pub proof fn text_is_played_in_order<T: Copy>(
    samples: &[T],
    silence: T,
    positions: Seq<usize>,
    buffers: Seq<Seq<T>>,
    k: int,
)
    requires
        positions.len() == buffers.len() + 1,
        positions[0] == 0,
        forall|j: int| #![trigger buffers[j]]
            0 <= j < buffers.len() ==> exists|output: &mut [T], done: bool|
                {
                    &&& #[trigger] call_ensures(
                        fill_output::<T>,
                        (samples, positions[j], silence, output),
                        (positions[j + 1], done),
                    )
                    &&& final(output)@ == buffers[j]
                },
        0 <= k < buffers.len(),
    ensures
        handed_before(buffers, k) <= samples@.len() ==> positions[k] == handed_before(buffers, k),
        handed_before(buffers, k) > samples@.len() ==> positions[k] == samples@.len(),
        forall|i: int|
            0 <= i < buffers[k].len() && handed_before(buffers, k) + i < samples@.len()
                ==> #[trigger] buffers[k][i] == samples@[handed_before(buffers, k) + i],
        forall|i: int|
            0 <= i < buffers[k].len() && handed_before(buffers, k) + i >= samples@.len()
                ==> #[trigger] buffers[k][i] == silence,
{
    assert forall|j: int| 0 <= j < buffers.len() implies one_buffer(
        samples@,
        silence,
        positions[j],
        #[trigger] buffers[j],
        positions[j + 1],
    ) by {
        let (output, done) = choose|output: &mut [T], done: bool|
            {
                &&& #[trigger] call_ensures(
                    fill_output::<T>,
                    (samples, positions[j], silence, output),
                    (positions[j + 1], done),
                )
                &&& final(output)@ == buffers[j]
            };
        buffers_hold_the_samples::<T>();
    }
    lemma_positions(samples@, silence, positions, buffers, k);
    assert(buffers[k] == buffers[k]);
}

/// What one call makes of a buffer.
spec fn one_buffer<T>(
    samples: Seq<T>,
    silence: T,
    position: usize,
    buffer: Seq<T>,
    next: usize,
) -> bool {
    &&& forall|i: int|
        0 <= i < buffer.len() && position + i < samples.len() ==> #[trigger] buffer[i]
            == samples[position + i]
    &&& forall|i: int|
        0 <= i < buffer.len() && position + i >= samples.len() ==> #[trigger] buffer[i] == silence
    &&& position + buffer.len() <= samples.len() ==> next == position + buffer.len()
    &&& position + buffer.len() > samples.len() && position <= samples.len() ==> next
        == samples.len()
}

proof fn lemma_positions<T>(
    samples: Seq<T>,
    silence: T,
    positions: Seq<usize>,
    buffers: Seq<Seq<T>>,
    k: int,
)
    requires
        0 <= k < buffers.len(),
        positions.len() == buffers.len() + 1,
        positions[0] == 0,
        forall|j: int|
            0 <= j < buffers.len() ==> one_buffer(
                samples,
                silence,
                positions[j],
                #[trigger] buffers[j],
                positions[j + 1],
            ),
    ensures
        handed_before(buffers, k) <= samples.len() ==> positions[k] == handed_before(buffers, k),
        handed_before(buffers, k) > samples.len() ==> positions[k] == samples.len(),
    decreases k,
{
    if k > 0 {
        lemma_positions(samples, silence, positions, buffers, k - 1);
        assert(one_buffer(
            samples,
            silence,
            positions[k - 1],
            buffers[k - 1],
            positions[k - 1 + 1],
        ));
        assert(positions[k - 1 + 1] == positions[k]);
    }
}

} // verus!
