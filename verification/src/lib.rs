//! A deterministic pseudo-random engine built on the PCG XSH-RR 64/32
//! construction: a 128-bit value-typed generator state, a 32-bit output
//! operation, and a float synthesizer that assembles uniformly distributed
//! single-precision values in the unit interval with full mantissa
//! resolution near zero.

pub mod float;
pub mod pcg;
pub mod seed;

pub use float::next_float_bits;
pub use pcg::next;
pub use pcg::GenState;
pub use seed::init_state;
pub use seed::SeedError;
