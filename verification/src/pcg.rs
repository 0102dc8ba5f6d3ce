//! The generator core: a 64-bit linear congruential state update followed by
//! an xorshift-then-rotate output permutation (PCG XSH-RR 64/32).

use vstd::prelude::*;

verus! {

/// Multiplier of the underlying 64-bit linear congruential step.
pub const PCG_MULT: u64 = 6364136223846793005;

/// The generator's whole state: a 64-bit counter-like value and the odd
/// stream increment. An immutable value; advancing the generator consumes
/// one state and returns a fresh one, never mutating a shared handle.
#[derive(Clone, Copy, Debug, PartialEq, Eq, Structural)]
pub struct GenState {
    pub state: u64,
    pub increment: u64,
}

impl GenState {
    /// Well-formed states carry an odd increment; an even increment would
    /// silently shorten the generator's period.
    pub open spec fn wf(self) -> bool {
        self.increment & 1 == 1
    }
}

/// The linear congruential update: `state * PCG_MULT + increment`, wrapping
/// modulo 2^64.
pub open spec fn spec_next_state(state: u64, increment: u64) -> u64 {
    ((state * PCG_MULT + increment) % 0x1_0000_0000_0000_0000) as u64
}

/// Right rotation of a 32-bit word by `r` places.
pub open spec fn spec_rotr32(x: u32, r: u32) -> u32
    recommends
        r < 32,
{
    if r == 0 {
        x
    } else {
        (x >> r) | (x << ((32 - r) as u32))
    }
}

/// The XSH-RR output permutation: xorshift the old state down to 32 bits,
/// then rotate right by the state's top five bits.
pub open spec fn spec_output(state: u64) -> u32 {
    spec_rotr32((((state >> 18) ^ state) >> 27) as u32, (state >> 59) as u32)
}

/// One whole advance step: the 32-bit output drawn from the old state, and
/// the successor state with the increment carried over unchanged.
pub open spec fn spec_advance(s: GenState) -> (u32, GenState) {
    (
        spec_output(s.state),
        GenState { state: spec_next_state(s.state, s.increment), increment: s.increment },
    )
}

/// The wrapping multiply-add of the machine agrees with the mathematical
/// `mod 2^64` statement of the congruential step.
proof fn lemma_lcg_step_wraps(x: u64, y: u64, z: u64)
    ensures
        vstd::wrapping::u64_specs::wrapping_add(vstd::wrapping::u64_specs::wrapping_mul(x, y), z)
            == ((x * y + z) % 0x1_0000_0000_0000_0000) as u64,
{
    assert(vstd::wrapping::u64_specs::wrapping_add(
        vstd::wrapping::u64_specs::wrapping_mul(x, y),
        z,
    ) == ((x * y + z) % 0x1_0000_0000_0000_0000) as u64) by (bit_vector);
}

/// Right rotation, written with two shifts; `rotate_right` itself carries no
/// specification, so the rotation is spelled out and verified.
pub fn rotate_right_32(x: u32, r: u32) -> (out: u32)
    requires
        r < 32,
    ensures
        out == spec_rotr32(x, r),
{
    if r == 0 {
        x
    } else {
        (x >> r) | (x << (32 - r))
    }
}

/// Advance the generator: consume one state value, return the 32-bit output
/// drawn from it and the successor state. Deterministic and total: the
/// result is exactly `spec_advance(s)`, for every input state.
pub fn next(s: GenState) -> (r: (u32, GenState))
    ensures
        r == spec_advance(s),
        r.1.increment == s.increment,
        s.wf() ==> r.1.wf(),
{
    let old_state: u64 = s.state;
    let new_state: u64 = old_state.wrapping_mul(PCG_MULT).wrapping_add(s.increment);
    proof {
        lemma_lcg_step_wraps(old_state, PCG_MULT, s.increment);
    }
    let xorshifted: u32 = (((old_state >> 18) ^ old_state) >> 27) as u32;
    let rot: u32 = (old_state >> 59) as u32;
    assert(old_state >> 59 < 32) by (bit_vector);
    let out: u32 = rotate_right_32(xorshifted, rot);
    (out, GenState { state: new_state, increment: s.increment })
}

/// Determinism: the advance operation's result is a function of the input
/// state alone, so any two results drawn from equal states are equal.
pub proof fn lemma_advance_deterministic(s: GenState, r1: (u32, GenState), r2: (u32, GenState))
    requires
        r1 == spec_advance(s),
        r2 == spec_advance(s),
    ensures
        r1 == r2,
{
}

} // verus!
