//! Seeding: a fresh generator state is built from 16 bytes drawn from the
//! operating system's entropy source, read as two little-endian 64-bit
//! words in field order (state first, increment second), with the
//! increment's low bit forced to 1 so that every seeded state is
//! well-formed.

use crate::pcg::GenState;
use vstd::prelude::*;

verus! {

/// The one error this layer can raise: the entropy source failed to
/// deliver the requested bytes. It is never retried here; the caller
/// decides what to do.
#[derive(Clone, Copy, Debug, PartialEq, Eq, Structural)]
pub enum SeedError {
    EntropyUnavailable,
}

#[verifier::external_type_specification]
#[verifier::external_body]
pub struct ExGetrandomError(getrandom::Error);

/// Relies on getrandom::getrandom: on success the whole buffer has been
/// filled with bytes from the operating system's entropy source. The
/// buffer's length is never changed (the call sees it as a slice), and
/// nothing can be promised of the byte values themselves.
#[verifier::external_body]
fn fill_entropy(buf: &mut Vec<u8>) -> (r: Result<(), getrandom::Error>)
    ensures
        final(buf)@.len() == old(buf)@.len(),
{
    getrandom::getrandom(buf.as_mut_slice())
}

/// The 64-bit word stored little-endian in eight bytes of `b` starting at
/// `off`.
pub open spec fn spec_le64_at(b: Seq<u8>, off: int) -> u64
    recommends
        0 <= off,
        off + 8 <= b.len(),
{
    (b[off] as u64) | ((b[off + 1] as u64) << 8u64) | ((b[off + 2] as u64) << 16u64) | ((b[off
        + 3] as u64) << 24u64) | ((b[off + 4] as u64) << 32u64) | ((b[off + 5] as u64) << 40u64)
        | ((b[off + 6] as u64) << 48u64) | ((b[off + 7] as u64) << 56u64)
}

/// Read eight bytes of `b`, little-endian, starting at index `off`.
fn read_le64(b: &Vec<u8>, off: usize) -> (w: u64)
    requires
        off + 8 <= b@.len(),
        off + 8 <= usize::MAX,
    ensures
        w == spec_le64_at(b@, off as int),
{
    (b[off] as u64) | ((b[off + 1] as u64) << 8) | ((b[off + 2] as u64) << 16) | ((b[off
        + 3] as u64) << 24) | ((b[off + 4] as u64) << 32) | ((b[off + 5] as u64) << 40) | ((b[off
        + 6] as u64) << 48) | ((b[off + 7] as u64) << 56)
}

/// Build a generator state from 16 bytes of seed material: the first eight
/// form the state word, the last eight the increment, whose low bit is
/// forced to 1. Every state built here is well-formed, whatever the bytes.
pub fn state_from_entropy(b: &Vec<u8>) -> (g: GenState)
    requires
        b@.len() == 16,
    ensures
        g.state == spec_le64_at(b@, 0),
        g.increment == spec_le64_at(b@, 8) | 1,
        g.wf(),
{
    let state: u64 = read_le64(b, 0);
    let raw: u64 = read_le64(b, 8);
    let increment: u64 = raw | 1;
    assert((raw | 1) & 1 == 1) by (bit_vector);
    GenState { state, increment }
}

/// Seed a generator: draw 16 bytes of system entropy and build a state
/// from them. A well-formed state comes back whenever the entropy source
/// delivers; when it does not, the one failure this layer knows,
/// `EntropyUnavailable`, comes back instead and no state is produced.
pub fn init_state() -> (r: Result<GenState, SeedError>)
    ensures
        r matches Ok(g) ==> g.wf(),
        r matches Err(e) ==> e == SeedError::EntropyUnavailable,
{
    let mut buf: Vec<u8> = vec![0u8; 16];
    match fill_entropy(&mut buf) {
        Ok(()) => Ok(state_from_entropy(&buf)),
        Err(_) => Err(SeedError::EntropyUnavailable),
    }
}

} // verus!
