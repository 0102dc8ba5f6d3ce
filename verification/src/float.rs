//! The float synthesizer: assembles the bit pattern of a single-precision
//! float that is uniformly distributed over the unit interval, by running a
//! geometric search over the biased exponent and then drawing a 23-bit
//! mantissa. Unlike the naive `word / 2^32` conversion, the search keeps
//! full mantissa resolution arbitrarily close to zero.
//!
//! Bits are served least-significant first out of a transient supply word;
//! whenever the supply runs dry a fresh word is drawn from the generator and
//! its top bit is treated as already spent, leaving 31 usable bits.

use crate::pcg::spec_advance;
use crate::pcg::spec_next_state;
use crate::pcg::spec_output;
use crate::pcg::GenState;
use vstd::prelude::*;

verus! {

/// Mask selecting the 23 mantissa bits of a single-precision float.
pub const MANTISSA_MASK: u32 = 0x7F_FFFF;

/// The biased exponent one step below 1.0, where the exponent search starts.
pub const EXP_START: u32 = 126;

/// One refill of the bit supply: with no bits on hand, a fresh word is drawn
/// from the generator and 31 of its bits are offered (the top bit counts as
/// spent); otherwise the supply is untouched.
pub open spec fn spec_refill(s: GenState, word: u32, avail: u32) -> (GenState, u32, u32) {
    if avail == 0 {
        (spec_advance(s).1, spec_advance(s).0, 31)
    } else {
        (s, word, avail)
    }
}

/// The supply after serving one bit: refill if dry, hand out the lowest bit,
/// shift the word down and spend one count.
pub open spec fn spec_after_bit(s: GenState, word: u32, avail: u32) -> (GenState, u32, u32) {
    let (s2, w2, a2) = spec_refill(s, word, avail);
    (s2, w2 >> 1u32, (a2 - 1) as u32)
}

/// The value of the bit served from the given supply.
pub open spec fn spec_bit_of(s: GenState, word: u32, avail: u32) -> u32 {
    spec_refill(s, word, avail).1 & 1
}

/// The geometric exponent search: each 0-bit from the supply steps the
/// exponent one binade down, the first 1-bit ends the search, and reaching
/// the floor (the biased exponent of 0.0) ends it as well, leaving the
/// exponent there. Returns the final exponent together with the supply as
/// the search leaves it.
pub open spec fn spec_exp_search(s: GenState, word: u32, avail: u32, exp: u32) -> (
    u32,
    GenState,
    u32,
    u32,
)
    decreases exp,
{
    if exp == 0 {
        (exp, s, word, avail)
    } else {
        let (s2, w2, a2) = spec_after_bit(s, word, avail);
        if spec_bit_of(s, word, avail) == 1 {
            (exp, s2, w2, a2)
        } else {
            spec_exp_search(s2, w2, a2, (exp - 1) as u32)
        }
    }
}

/// The boundary correction: an all-zero mantissa with a 1-valued follow-up
/// bit rounds the exact binade boundary up one exponent step; anything else
/// leaves the exponent alone.
pub open spec fn spec_correct_exp(exp: u32, mantissa: u32, bit: u32) -> u32
    recommends
        exp <= EXP_START,
{
    if mantissa == 0 && bit == 1 {
        (exp + 1) as u32
    } else {
        exp
    }
}

/// The bit pattern of one synthesized float and the threaded successor
/// state, as a function of the input state alone: draw the initial supply
/// word (none of its bits yet on offer), run the exponent search from one
/// binade below 1.0, draw the mantissa word, apply the boundary correction,
/// and pack exponent and mantissa.
pub open spec fn spec_next_float_bits(s: GenState) -> (u32, GenState) {
    let (w1, s1) = spec_advance(s);
    let (exp1, s2, w2, a2) = spec_exp_search(s1, w1, 0, EXP_START);
    let (mw, s3) = spec_advance(s2);
    let mantissa = mw & MANTISSA_MASK;
    if mantissa == 0 {
        let exp2 = spec_correct_exp(exp1, mantissa, spec_bit_of(s3, w2, a2));
        (((exp2 << 23u32) | mantissa), spec_after_bit(s3, w2, a2).0)
    } else {
        (((exp1 << 23u32) | mantissa), s3)
    }
}

/// Serve one bit from the supply: refill from the generator when no bits
/// are left, then hand out the lowest bit of the current word.
pub fn get_bit(s: &mut GenState, word: &mut u32, avail: &mut u32) -> (bit: u32)
    ensures
        bit == spec_bit_of(*old(s), *old(word), *old(avail)),
        bit == 0 || bit == 1,
        (*final(s), *final(word), *final(avail)) == spec_after_bit(
            *old(s),
            *old(word),
            *old(avail),
        ),
        final(s).increment == old(s).increment,
        old(s).wf() ==> final(s).wf(),
{
    if *avail == 0 {
        let drawn = crate::pcg::next(*s);
        *word = drawn.0;
        *s = drawn.1;
        *avail = 31;
    }
    let bit: u32 = *word & 1;
    assert(*word & 1 == 0 || *word & 1 == 1) by (bit_vector);
    *word = *word >> 1;
    *avail = *avail - 1;
    bit
}

/// Apply the boundary correction to a candidate exponent.
pub fn correct_exponent(exp: u32, mantissa: u32, bit: u32) -> (out: u32)
    requires
        exp <= EXP_START,
    ensures
        out == spec_correct_exp(exp, mantissa, bit),
{
    if mantissa == 0 && bit == 1 {
        exp + 1
    } else {
        exp
    }
}

/// Synthesize one float, returned as its IEEE-754 bit pattern, together
/// with the threaded successor state. The result is exactly
/// `spec_next_float_bits(s)`; its biased exponent field never exceeds the
/// exponent of 1.0, which it reaches only with an all-zero mantissa, so the
/// pattern never encodes a value above 1.0.
pub fn next_float_bits(s: GenState) -> (r: (u32, GenState))
    ensures
        r == spec_next_float_bits(s),
        r.1.increment == s.increment,
        s.wf() ==> r.1.wf(),
        r.0 >> 23u32 <= 127,
        r.0 >> 23u32 == 127 ==> r.0 & MANTISSA_MASK == 0,
        r.0 <= 0x3F80_0000,
{
    let first = crate::pcg::next(s);
    let mut word: u32 = first.0;
    let mut src: GenState = first.1;
    let mut avail: u32 = 0;
    let mut exp: u32 = EXP_START;
    let ghost target = spec_exp_search(first.1, first.0, 0, EXP_START);

    while exp > 0
        invariant_except_break
            spec_exp_search(src, word, avail, exp) == target,
        invariant
            exp <= EXP_START,
            src.increment == s.increment,
            s.wf() ==> src.wf(),
        ensures
            (exp, src, word, avail) == target,
        decreases exp,
    {
        let bit = get_bit(&mut src, &mut word, &mut avail);
        if bit == 1 {
            break;
        }
        exp = exp - 1;
    }

    let drawn = crate::pcg::next(src);
    let mword: u32 = drawn.0;
    let mantissa: u32 = mword & MANTISSA_MASK;
    src = drawn.1;
    if mantissa == 0 {
        let bit = get_bit(&mut src, &mut word, &mut avail);
        exp = correct_exponent(exp, mantissa, bit);
    }
    let bits: u32 = (exp << 23u32) | mantissa;
    assert(mantissa <= MANTISSA_MASK) by (bit_vector)
        requires
            mantissa == mword & MANTISSA_MASK,
    ;
    assert(bits >> 23u32 == exp && bits & MANTISSA_MASK == mantissa && bits <= 0x3F80_0000)
        by (bit_vector)
        requires
            exp <= 127,
            mantissa <= MANTISSA_MASK,
            exp == 127 ==> mantissa == 0,
            bits == (exp << 23u32) | mantissa,
    ;
    (bits, src)
}

/// Determinism of the synthesizer: the result is a function of the input
/// state alone, so any two results drawn from equal states are equal.
pub proof fn lemma_float_deterministic(s: GenState, r1: (u32, GenState), r2: (u32, GenState))
    requires
        r1 == spec_next_float_bits(s),
        r2 == spec_next_float_bits(s),
    ensures
        r1 == r2,
{
}

/// The exponent search never raises the exponent: its result is at most
/// the exponent it started from.
pub proof fn lemma_exp_search_le(s: GenState, word: u32, avail: u32, exp: u32)
    ensures
        spec_exp_search(s, word, avail, exp).0 <= exp,
    decreases exp,
{
    if exp > 0 {
        let (s2, w2, a2) = spec_after_bit(s, word, avail);
        if spec_bit_of(s, word, avail) != 1 {
            lemma_exp_search_le(s2, w2, a2, (exp - 1) as u32);
        }
    }
}

/// An all-zero supply word serves nothing but 0-bits: consuming its
/// `avail` remaining bits steps the exponent down by exactly `avail`,
/// without touching the generator.
proof fn lemma_zero_word_drains(s: GenState, avail: u32, exp: u32)
    requires
        1 <= avail,
        avail <= exp,
    ensures
        spec_exp_search(s, 0, avail, exp) == spec_exp_search(s, 0, 0, (exp - avail) as u32),
    decreases avail,
{
    assert(0u32 & 1 == 0 && 0u32 >> 1u32 == 0) by (bit_vector);
    if avail > 1 {
        lemma_zero_word_drains(s, (avail - 1) as u32, (exp - 1) as u32);
    }
}

/// The geometric search really reaches deep binades: from the witness
/// state below, whose first two supply words come out all zero, the
/// synthesized float's biased exponent field ends below 95, so the float
/// itself lies strictly under 2^-32 — a value the naive `word / 2^32`
/// conversion can never produce.
pub proof fn lemma_small_values_reachable()
    ensures
        exists|s: GenState| s.wf() && (#[trigger] spec_next_float_bits(s)).0 >> 23u32 < 95,
{
    let w = GenState { state: 4568919932995229531u64, increment: 1u64 };
    assert(1u64 & 1 == 1) by (bit_vector);
    assert(spec_next_state(4568919932995229531u64, 1u64) == 0) by (bit_vector);
    assert(spec_output(0u64) == 0) by (bit_vector);
    assert(spec_next_state(0u64, 1u64) == 1) by (bit_vector);
    assert(spec_output(1u64) == 0) by (bit_vector);
    assert(spec_next_state(1u64, 1u64) == 6364136223846793006u64) by (bit_vector);
    assert(0u32 & 1 == 0 && 0u32 >> 1u32 == 0) by (bit_vector);

    let s1 = GenState { state: 0u64, increment: 1u64 };
    let s2 = GenState { state: 1u64, increment: 1u64 };
    let s3 = GenState { state: 6364136223846793006u64, increment: 1u64 };
    let w1 = spec_advance(w).0;
    assert(spec_advance(w).1 == s1);
    assert(spec_advance(s1) == (0u32, s2));
    assert(spec_advance(s2) == (0u32, s3));

    assert(spec_exp_search(s1, w1, 0, EXP_START) == spec_exp_search(s2, 0, 30, 125));
    lemma_zero_word_drains(s2, 30, 125);
    assert(spec_exp_search(s2, 0, 0, 95) == spec_exp_search(s3, 0, 30, 94));
    lemma_zero_word_drains(s3, 30, 94);
    lemma_exp_search_le(s3, 0, 0, 64);

    let (exp1, sx, wx, ax) = spec_exp_search(s1, w1, 0, EXP_START);
    assert(exp1 <= 64);

    let mw: u32 = spec_advance(sx).0;
    let mantissa: u32 = mw & MANTISSA_MASK;
    assert(mantissa <= MANTISSA_MASK) by (bit_vector)
        requires
            mantissa == mw & MANTISSA_MASK,
    ;
    let bit: u32 = spec_bit_of(spec_advance(sx).1, wx, ax);
    let exp2: u32 = spec_correct_exp(exp1, mantissa, bit);
    assert(exp2 <= 65);
    let bits: u32 = spec_next_float_bits(w).0;
    assert(bits == (exp2 << 23u32) | mantissa || bits == (exp1 << 23u32) | mantissa);
    assert(bits >> 23u32 < 95) by (bit_vector)
        requires
            exp1 <= 64,
            exp2 <= 65,
            mantissa <= 0x7F_FFFFu32,
            bits == (exp2 << 23u32) | mantissa || bits == (exp1 << 23u32) | mantissa,
    ;
    assert(w.wf() && spec_next_float_bits(w).0 >> 23u32 < 95);
}

/// Boundary correction law: the exponent is stepped up exactly when the
/// mantissa is zero and the designated follow-up bit is 1; any other
/// combination leaves it unchanged.
pub proof fn lemma_boundary_correction(exp: u32, mantissa: u32, bit: u32)
    requires
        exp <= EXP_START,
    ensures
        spec_correct_exp(exp, 0, 1) == exp + 1,
        mantissa != 0 ==> spec_correct_exp(exp, mantissa, bit) == exp,
        bit != 1 ==> spec_correct_exp(exp, mantissa, bit) == exp,
{
}

} // verus!
