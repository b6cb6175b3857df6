//! The compatibility shim: a stateless direct-multiply path for callers that
//! bypass the interpreter. It computes exactly what the engine's stateless
//! fallback computes, sample for sample.

use vstd::prelude::*;
use crate::engine::min_int;
use crate::words::{fallback_word, fallback_word_of, mul_samples, mul_sample_of};

verus! {

/// Every sample multiplied by the gain, on 64-bit floats, rounded back to a
/// 32-bit float: the stateless fallback formula applied to the whole block.
pub open spec fn direct_gain_spec(samples: Seq<u32>, gain: u64) -> Seq<u32> {
    Seq::new(samples.len(), |i: int| fallback_word_of(false, samples[i], gain))
}

/// Multiply a block of samples by a gain word, without the interpreter.
pub fn direct_gain(samples: &Vec<u32>, gain: u64) -> (r: Vec<u32>)
    ensures
        r@ == direct_gain_spec(samples@, gain),
{
    let mut out: Vec<u32> = Vec::new();
    let mut i: usize = 0;
    while i < samples.len()
        invariant
            i <= samples@.len(),
            out@.len() == i,
            forall|j: int| 0 <= j < i ==> out@[j] == fallback_word_of(false, samples@[j], gain),
        decreases samples@.len() - i,
    {
        out.push(fallback_word(false, samples[i], gain));
        i += 1;
    }
    proof {
        assert(out@ =~= direct_gain_spec(samples@, gain));
    }
    out
}

/// A block after the in-place legacy multiply: the first `n` samples times
/// the 32-bit gain (each product computed and rounded on 32-bit floats),
/// the rest untouched.
pub open spec fn scaled_prefix_spec(samples: Seq<u32>, gain: u32, n: int) -> Seq<u32> {
    Seq::new(
        samples.len(),
        |i: int|
            if i < n {
                mul_sample_of(samples[i], gain)
            } else {
                samples[i]
            },
    )
}

/// Multiply the first `length` samples by a 32-bit gain word, in place,
/// without the interpreter: the oldest path, for hosts that multiply on
/// 32-bit floats throughout. A `length` past the end is capped.
pub fn scale_in_place(samples: &mut Vec<u32>, gain: u32, length: usize)
    ensures
        final(samples)@ == scaled_prefix_spec(old(samples)@, gain, length as int),
{
    let n: usize = if length < samples.len() {
        length
    } else {
        samples.len()
    };
    let mut i: usize = 0;
    while i < n
        invariant
            i <= n,
            n == min_int(length as int, old(samples)@.len() as int),
            samples@.len() == old(samples)@.len(),
            forall|j: int| 0 <= j < i ==> samples@[j] == mul_sample_of(old(samples)@[j], gain),
            forall|j: int| i <= j < samples@.len() ==> samples@[j] == old(samples)@[j],
        decreases n - i,
    {
        let w: u32 = samples[i];
        samples.set(i, mul_samples(w, gain));
        i += 1;
    }
    proof {
        assert(samples@ =~= scaled_prefix_spec(old(samples)@, gain, length as int));
    }
}

} // verus!
