//! Playing encoded samples.
//!
//! The sound card asks for one buffer after the other. Each is filled from the samples
//! that have not been played yet, and with silence after the last one.

use vstd::prelude::*;

verus! {

/// `length` samples from `position` on, with silence after the last one.
pub open spec fn chunk<T>(samples: Seq<T>, position: nat, silence: T, length: nat) -> Seq<T> {
    Seq::new(
        length,
        |i: int|
            if position + i < samples.len() {
                samples[position + i]
            } else {
                silence
            },
    )
}

/// Where the next buffer begins after one of `length` samples.
pub open spec fn next_position(samples: nat, position: nat, length: nat) -> nat {
    if position + length <= samples {
        position + length
    } else if position <= samples {
        samples
    } else {
        position
    }
}

/// Fill a buffer for the sound card. Returns the position for the next buffer, and whether
/// everything had been played before this one.
pub fn fill_output<T: Copy>(samples: &[T], position: usize, silence: T, output: &mut [T]) -> (r: (
    usize,
    bool,
))
    ensures
        final(output)@ == chunk(samples@, position as nat, silence, old(output)@.len()),
        r.0 == next_position(samples@.len(), position as nat, old(output)@.len()),
        r.1 <==> position >= samples@.len(),
{
    let total: usize = samples.len();
    let length: usize = output.len();
    let remaining: usize = if position < total {
        total - position
    } else {
        0
    };
    let copied: usize = if length < remaining {
        length
    } else {
        remaining
    };
    let mut i: usize = 0;
    while i < length
        invariant
            i <= length,
            length == output@.len(),
            length == old(output)@.len(),
            total == samples@.len(),
            copied <= length,
            position < total ==> copied <= total - position,
            position >= total ==> copied == 0,
            copied < length ==> position + copied >= total,
            forall|j: int| 0 <= j < i ==> output@[j] == chunk(
                samples@,
                position as nat,
                silence,
                length as nat,
            )[j],
        decreases length - i,
    {
        if i < copied {
            output[i] = samples[position + i];
        } else {
            output[i] = silence;
        }
        i = i + 1;
    }
    assert(output@ =~= chunk(samples@, position as nat, silence, length as nat));
    if remaining == 0 {
        (position, true)
    } else {
        (position + copied, false)
    }
}

/// The number of samples in buffers of these lengths.
pub open spec fn total_length(lengths: Seq<nat>) -> nat
    decreases lengths.len(),
{
    if lengths.len() == 0 {
        0
    } else {
        total_length(lengths.drop_last()) + lengths.last()
    }
}

/// Where playing stands after buffers of these lengths.
pub open spec fn position_after(samples: nat, lengths: Seq<nat>) -> nat
    decreases lengths.len(),
{
    if lengths.len() == 0 {
        0
    } else {
        next_position(samples, position_after(samples, lengths.drop_last()), lengths.last())
    }
}

/// Everything that was handed to the sound card in buffers of these lengths.
pub open spec fn handed_out<T>(samples: Seq<T>, silence: T, lengths: Seq<nat>) -> Seq<T>
    decreases lengths.len(),
{
    if lengths.len() == 0 {
        Seq::empty()
    } else {
        handed_out(samples, silence, lengths.drop_last()) + chunk(
            samples,
            position_after(samples.len(), lengths.drop_last()),
            silence,
            lengths.last(),
        )
    }
}

/// The sound card gets every sample once and in order, and silence after the last one,
/// whatever the sizes of its buffers. Playing is reported as done exactly when every
/// sample has been handed out.
pub proof fn everything_is_played_once<T>(samples: Seq<T>, silence: T, lengths: Seq<nat>)
    ensures
        handed_out(samples, silence, lengths) == chunk(samples, 0, silence, total_length(lengths)),
        position_after(samples.len(), lengths) >= samples.len() <==> total_length(lengths)
            >= samples.len(),
        position_after(samples.len(), lengths) <= samples.len(),
    decreases lengths.len(),
{
    if lengths.len() == 0 {
        assert(handed_out(samples, silence, lengths) =~= chunk(samples, 0, silence, 0));
    } else {
        let before = lengths.drop_last();
        everything_is_played_once(samples, silence, before);
        lemma_position(samples.len(), before);
        let more = chunk(
            samples,
            position_after(samples.len(), before),
            silence,
            lengths.last(),
        );
        assert(handed_out(samples, silence, before) + more =~= chunk(
            samples,
            0,
            silence,
            total_length(lengths),
        ));
    }
}

proof fn lemma_position(samples: nat, lengths: Seq<nat>)
    ensures
        position_after(samples, lengths) == if total_length(lengths) <= samples {
            total_length(lengths)
        } else {
            samples
        },
    decreases lengths.len(),
{
    if lengths.len() > 0 {
        lemma_position(samples, lengths.drop_last());
    }
}

} // verus!
