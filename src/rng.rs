//! The seeded pseudo-random stream that drives edge synthesis.
//!
//! A generator is held as its 64-bit state; every draw maps a state and a
//! bound to a value below the bound and the next state.

use vstd::prelude::*;

verus! {

/// The value drawn below `bound` from generator state `state`, paired with
/// the generator state after the draw.
pub uninterp spec fn rng_draw(state: u64, bound: usize) -> (usize, u64);

/// The 64-bit state that a synthesis run starts from: the seed fills the high
/// 32 bits and the nonce the low 32 bits.
pub open spec fn initial_state(seed: u32, nonce: u32) -> u64 {
    (seed as int * 0x1_0000_0000 + nonce as int) as u64
}

/// Builds the starting generator state from a seed and a nonce.
pub fn seed_state(seed: u32, nonce: u32) -> (r: u64)
    ensures
        r == initial_state(seed, nonce),
        r as int == seed as int * 0x1_0000_0000 + nonce as int,
{
    assert(seed as int * 0x1_0000_0000 + nonce as int <= u64::MAX) by (nonlinear_arith)
        requires
            seed <= u32::MAX,
            nonce <= u32::MAX,
    ;
    (seed as u64) * 0x1_0000_0000 + (nonce as u64)
}

/// Relies on `fastrand::Rng::u32` over the range `0..bound`: the generator
/// is a wyrand state (`Rng::with_seed` stores the seed as that state and
/// `Rng::get_seed` reads it back) and the 32-bit draw takes the same path on
/// every target, so the value and the next state depend on the state and the
/// bound alone, and the value lies in `0..bound`. An empty range panics,
/// hence `bound > 0`.
#[verifier::external_body]
pub(crate) fn draw_below(state: u64, bound: usize) -> (r: (usize, u64))
    requires
        0 < bound <= u32::MAX,
    ensures
        r == rng_draw(state, bound),
        r.0 < bound,
{
    let mut rng = fastrand::Rng::with_seed(state);
    let value = rng.u32(0..bound as u32);
    (value as usize, rng.get_seed())
}

} // verus!
