//! Sample words: audio samples and parameters as the bit patterns of IEEE
//! floating-point numbers, held in plain integers. Buffer samples are the bit
//! patterns of 32-bit floats (`u32`), interpreter values and parameters the
//! bit patterns of 64-bit floats (`u64`). The products and conversions the
//! engine needs on them are done in software by `rustc_apfloat`, behind
//! trusted wrappers whose results are named, so every IEEE operation is a
//! pure function of the bit patterns alone; the IEEE comparisons are small
//! enough to state outright, so they are computed on the bits here and
//! verified.

use vstd::prelude::*;
use rustc_apfloat::Float;
use rustc_apfloat::FloatConvert;

verus! {

/// Bit pattern of the 64-bit float 0.0: the lower clamp bound for gain, and
/// the initial value of parameters and state.
pub const ZERO_WORD: u64 = 0;

/// Bit pattern of the 32-bit float 0.0: the initial value of buffer samples.
pub const ZERO_SAMPLE: u32 = 0;

/// Bit pattern of the 32-bit float 2.0: the upper clamp bound for the
/// legacy 32-bit gain.
pub const TWO_SAMPLE: u32 = 0x40000000;

/// Bit pattern of the 64-bit float 1.0: the initial gain.
pub const ONE_WORD: u64 = 0x3FF0000000000000;

/// Bit pattern of the 64-bit float 2.0: the upper clamp bound for gain.
pub const TWO_WORD: u64 = 0x4000000000000000;

/// The bit pattern of the IEEE product of the 64-bit floats with bit
/// patterns `a` and `b`, rounded to nearest, ties to even.
pub uninterp spec fn mul_word_of(a: u64, b: u64) -> u64;

/// The bit pattern of the IEEE product of the 32-bit floats with bit
/// patterns `a` and `b`, rounded to nearest, ties to even.
pub uninterp spec fn mul_sample_of(a: u32, b: u32) -> u32;

/// Whether a 64-bit float word is a NaN (of either kind): exponent bits
/// all ones and a nonzero fraction.
pub open spec fn is_nan_word(w: u64) -> bool {
    (w & 0x7FF0000000000000) == 0x7FF0000000000000 && (w & 0x000FFFFFFFFFFFFF) != 0
}

/// The rank of a non-NaN 64-bit float word in the IEEE order: its magnitude
/// bits, negated when the sign bit is set. Negative and positive zero rank
/// equal, and every finite or infinite value ranks by its number, because
/// the magnitude bits of same-signed floats order as integers.
pub open spec fn word_order_key(w: u64) -> int {
    let mag = (w & 0x7FFFFFFFFFFFFFFF) as int;
    if (w & 0x8000000000000000) != 0 {
        -mag
    } else {
        mag
    }
}

/// The IEEE `<` on the 64-bit floats with bit patterns `a` and `b`: false
/// when either is a NaN, otherwise the order of their ranks.
pub open spec fn lt_word_of(a: u64, b: u64) -> bool {
    !is_nan_word(a) && !is_nan_word(b) && word_order_key(a) < word_order_key(b)
}

/// The bit pattern of the 64-bit float that the 32-bit float with bit
/// pattern `s` converts to. Every numeric value converts exactly; a
/// signaling NaN comes out quieted.
pub uninterp spec fn widen_word_of(s: u32) -> u64;

/// The bit pattern of the 32-bit float nearest to the 64-bit float with bit
/// pattern `d`, rounded to nearest, ties to even.
pub uninterp spec fn narrow_word_of(d: u64) -> u32;

/// Whether a 32-bit sample word is a signaling NaN: exponent bits all ones,
/// nonzero fraction, quiet bit clear. Conversions quiet such a word, so it
/// is the one kind of sample the widen-narrow round trip does not return
/// unchanged.
pub open spec fn is_signaling_nan_sample(s: u32) -> bool {
    (s & 0x7F800000) == 0x7F800000 && (s & 0x007FFFFF) != 0 && (s & 0x00400000) == 0
}

/// Whether a 32-bit sample word is a NaN (of either kind).
pub open spec fn is_nan_sample(s: u32) -> bool {
    (s & 0x7F800000) == 0x7F800000 && (s & 0x007FFFFF) != 0
}

/// The rank of a non-NaN 32-bit sample word in the IEEE order: its
/// magnitude bits, negated when the sign bit is set, as for 64-bit words.
pub open spec fn sample_order_key(s: u32) -> int {
    let mag = (s & 0x7FFFFFFF) as int;
    if (s & 0x80000000) != 0 {
        -mag
    } else {
        mag
    }
}

/// The IEEE `<` on the 32-bit floats with bit patterns `a` and `b`: false
/// when either is a NaN, otherwise the order of their ranks.
pub open spec fn lt_sample_of(a: u32, b: u32) -> bool {
    !is_nan_sample(a) && !is_nan_sample(b) && sample_order_key(a) < sample_order_key(b)
}

/// Relies on rustc_apfloat's `Mul` for `ieee::Double` (round to nearest,
/// ties to even): the IEEE product of two 64-bit floats, as bit patterns;
/// a function of the two bit patterns alone.
#[verifier::external_body]
pub fn mul_words(a: u64, b: u64) -> (r: u64)
    ensures
        r == mul_word_of(a, b),
{
    let x = rustc_apfloat::ieee::Double::from_bits(a as u128);
    let y = rustc_apfloat::ieee::Double::from_bits(b as u128);
    (x * y).value.to_bits() as u64
}

/// Relies on rustc_apfloat's `Mul` for `ieee::Single` (round to nearest,
/// ties to even): the IEEE product of two 32-bit floats, as bit patterns;
/// a function of the two bit patterns alone.
#[verifier::external_body]
pub fn mul_samples(a: u32, b: u32) -> (r: u32)
    ensures
        r == mul_sample_of(a, b),
{
    let x = rustc_apfloat::ieee::Single::from_bits(a as u128);
    let y = rustc_apfloat::ieee::Single::from_bits(b as u128);
    (x * y).value.to_bits() as u32
}

/// The IEEE `<` on two 64-bit float words, computed on the bits and proved
/// against `lt_word_of`: a NaN compares below nothing; otherwise a negative
/// word is below any positive one unless both are zeros, and same-signed
/// words order by magnitude.
pub fn lt_words(a: u64, b: u64) -> (r: bool)
    ensures
        r == lt_word_of(a, b),
{
    if (a & 0x7FF0000000000000) == 0x7FF0000000000000 && (a & 0x000FFFFFFFFFFFFF) != 0 {
        return false;
    }
    if (b & 0x7FF0000000000000) == 0x7FF0000000000000 && (b & 0x000FFFFFFFFFFFFF) != 0 {
        return false;
    }
    let neg_a: bool = (a & 0x8000000000000000) != 0;
    let neg_b: bool = (b & 0x8000000000000000) != 0;
    let mag_a: u64 = a & 0x7FFFFFFFFFFFFFFF;
    let mag_b: u64 = b & 0x7FFFFFFFFFFFFFFF;
    if neg_a {
        if neg_b {
            mag_b < mag_a
        } else {
            mag_a != 0 || mag_b != 0
        }
    } else {
        if neg_b {
            false
        } else {
            mag_a < mag_b
        }
    }
}

/// Relies on rustc_apfloat's `FloatConvert<ieee::Double> for ieee::Single`:
/// the widening of a 32-bit float to a 64-bit float, as bit patterns.
/// Every numeric value (zeros, subnormals and infinities included) widens
/// exactly and a quiet NaN keeps its payload, so rounding the result back
/// returns the original bit pattern; a signaling NaN is quieted by the
/// conversion and is therefore excepted.
#[verifier::external_body]
pub fn widen_word(s: u32) -> (r: u64)
    ensures
        r == widen_word_of(s),
        (!is_signaling_nan_sample(s) ==> narrow_word_of(r) == s),
{
    let x = rustc_apfloat::ieee::Single::from_bits(s as u128);
    let mut lossy = false;
    let d: rustc_apfloat::StatusAnd<rustc_apfloat::ieee::Double> = x.convert(&mut lossy);
    d.value.to_bits() as u64
}

/// Relies on rustc_apfloat's `FloatConvert<ieee::Single> for ieee::Double`:
/// the rounding of a 64-bit float to the nearest 32-bit float (ties to
/// even), as bit patterns.
#[verifier::external_body]
pub fn narrow_word(d: u64) -> (r: u32)
    ensures
        r == narrow_word_of(d),
{
    let x = rustc_apfloat::ieee::Double::from_bits(d as u128);
    let mut lossy = false;
    let s: rustc_apfloat::StatusAnd<rustc_apfloat::ieee::Single> = x.convert(&mut lossy);
    s.value.to_bits() as u32
}

/// The IEEE `<` on two 32-bit sample words, computed on the bits and
/// proved against `lt_sample_of`, exactly as `lt_words` is for 64-bit
/// words.
pub fn lt_samples(a: u32, b: u32) -> (r: bool)
    ensures
        r == lt_sample_of(a, b),
{
    if (a & 0x7F800000) == 0x7F800000 && (a & 0x007FFFFF) != 0 {
        return false;
    }
    if (b & 0x7F800000) == 0x7F800000 && (b & 0x007FFFFF) != 0 {
        return false;
    }
    let neg_a: bool = (a & 0x80000000) != 0;
    let neg_b: bool = (b & 0x80000000) != 0;
    let mag_a: u32 = a & 0x7FFFFFFF;
    let mag_b: u32 = b & 0x7FFFFFFF;
    if neg_a {
        if neg_b {
            mag_b < mag_a
        } else {
            mag_a != 0 || mag_b != 0
        }
    } else {
        if neg_b {
            false
        } else {
            mag_a < mag_b
        }
    }
}

/// What `set_gain` stores: the gain clamped to [0.0, 2.0], with a NaN gain
/// kept as it is, exactly as the standard clamp on floats behaves.
pub open spec fn clamp_gain_spec(w: u64) -> u64 {
    if lt_word_of(w, ZERO_WORD) {
        ZERO_WORD
    } else if lt_word_of(TWO_WORD, w) {
        TWO_WORD
    } else {
        w
    }
}

/// Clamp a gain word to the range [0.0, 2.0].
pub fn clamp_gain_word(w: u64) -> (r: u64)
    ensures
        r == clamp_gain_spec(w),
{
    if lt_words(w, ZERO_WORD) {
        ZERO_WORD
    } else if lt_words(TWO_WORD, w) {
        TWO_WORD
    } else {
        w
    }
}

/// What the legacy 32-bit gain setter stores: the gain clamped to
/// [0.0, 2.0] on 32-bit floats, with a NaN gain kept as it is.
pub open spec fn clamp_gain_sample_spec(s: u32) -> u32 {
    if lt_sample_of(s, ZERO_SAMPLE) {
        ZERO_SAMPLE
    } else if lt_sample_of(TWO_SAMPLE, s) {
        TWO_SAMPLE
    } else {
        s
    }
}

/// Clamp a 32-bit gain word to the range [0.0, 2.0].
pub fn clamp_gain_sample(s: u32) -> (r: u32)
    ensures
        r == clamp_gain_sample_spec(s),
{
    if lt_samples(s, ZERO_SAMPLE) {
        ZERO_SAMPLE
    } else if lt_samples(TWO_SAMPLE, s) {
        TWO_SAMPLE
    } else {
        s
    }
}

/// The degraded value of one output sample when the program returned no
/// sample for its position: a stateful program falls back to the input
/// sample itself (widened and narrowed back, which the engine does on every
/// sample path), a stateless one to the input sample times the gain,
/// computed on 64-bit floats and rounded back to a 32-bit float.
pub open spec fn fallback_word_of(stateful: bool, input_w: u32, gain: u64) -> u32 {
    if stateful {
        narrow_word_of(widen_word_of(input_w))
    } else {
        narrow_word_of(mul_word_of(widen_word_of(input_w), gain))
    }
}

/// Compute the fallback value for one output sample. A stateful fallback
/// reproduces any input sample that is not a signaling NaN exactly: the
/// widening is exact and rounding back returns the original bit pattern.
pub fn fallback_word(stateful: bool, input_w: u32, gain: u64) -> (r: u32)
    ensures
        r == fallback_word_of(stateful, input_w, gain),
        ((stateful && !is_signaling_nan_sample(input_w)) ==> r == input_w),
{
    let wide = widen_word(input_w);
    if stateful {
        narrow_word(wide)
    } else {
        narrow_word(mul_words(wide, gain))
    }
}

} // verus!
