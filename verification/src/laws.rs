//! The laws of the block protocol, stated over the same spec functions the
//! engine's contracts use and proved from their definitions.

use vstd::prelude::*;
use crate::engine::{
    block_output_spec, min_int, ok_block_outcome, resize_spec, state_update_spec, ProcessorModel,
};
use crate::shim::direct_gain_spec;
use crate::words::{fallback_word_of, narrow_word_of, ZERO_WORD};

verus! {

/// Law: a committed block populates exactly the first `frames` output
/// samples — each from the program's result where it reached, from the
/// fallback where it fell short — and leaves every sample past `frames`
/// untouched.
pub proof fn lemma_block_populates_frames_only(
    old_out: Seq<u32>,
    input: Seq<u32>,
    result: Seq<u64>,
    frames: int,
    stateful: bool,
    gain: u64,
)
    requires
        0 <= frames <= old_out.len(),
    ensures
        block_output_spec(old_out, input, result, frames, stateful, gain).len() == old_out.len(),
        forall|i: int|
            0 <= i < frames && i < result.len() ==> block_output_spec(old_out, input, result,
                frames, stateful, gain)[i] == narrow_word_of(result[i]),
        forall|i: int|
            result.len() <= i < frames ==> block_output_spec(old_out, input, result, frames,
                stateful, gain)[i] == fallback_word_of(stateful, input[i], gain),
        forall|i: int|
            frames <= i < old_out.len() ==> block_output_spec(old_out, input, result, frames,
                stateful, gain)[i] == old_out[i],
{
}

/// Law: committing a returned state array keeps the state vector's length,
/// replaces exactly the elements the program returned, and leaves every
/// element past the returned length untouched.
pub proof fn lemma_state_update_partial(state: Seq<u64>, returned: Seq<u64>)
    ensures
        state_update_spec(state, returned).len() == state.len(),
        forall|i: int|
            0 <= i < min_int(state.len() as int, returned.len() as int) ==> state_update_spec(
                state, returned)[i] == returned[i],
        forall|i: int|
            returned.len() <= i < state.len() ==> state_update_spec(state, returned)[i]
                == state[i],
{
}

/// Law: resizing the state vector to `n` elements yields length `n`
/// immediately, keeps the surviving prefix, and pads with zeros.
pub proof fn lemma_resize_state(state: Seq<u64>, n: int)
    requires
        n >= 0,
    ensures
        resize_spec(state, n).len() == n,
        forall|i: int| 0 <= i < n && i < state.len() ==> resize_spec(state, n)[i] == state[i],
        forall|i: int| state.len() <= i < n ==> resize_spec(state, n)[i] == ZERO_WORD,
{
}

/// Law: the commit step is deterministic. Two blocks committed from equal
/// prior states, for the same frame count and with equal returned arrays,
/// leave equal outputs, equal state vectors and equal notice flags — so a
/// replayed block differs only where the program's own results differ.
pub proof fn lemma_commit_deterministic(
    pre: ProcessorModel,
    post1: ProcessorModel,
    post2: ProcessorModel,
    frames: int,
    res: Seq<u64>,
    newst: Seq<u64>,
)
    requires
        ok_block_outcome(pre, post1, frames, res, newst),
        ok_block_outcome(pre, post2, frames, res, newst),
    ensures
        post1.output == post2.output,
        post1.state == post2.state,
        post1.warned_short_output == post2.warned_short_output,
{
}

/// Law: the compatibility shim is numerically identical to the stateless
/// engine's fallback branch — a block whose program returned nothing at all
/// degrades to exactly what the shim computes.
pub proof fn lemma_shim_matches_stateless_fallback(
    old_out: Seq<u32>,
    input: Seq<u32>,
    frames: int,
    gain: u64,
)
    requires
        0 <= frames <= old_out.len(),
        frames <= input.len(),
    ensures
        forall|i: int|
            0 <= i < frames ==> block_output_spec(old_out, input, Seq::<u64>::empty(), frames,
                false, gain)[i] == direct_gain_spec(input, gain)[i],
{
}

} // verus!
