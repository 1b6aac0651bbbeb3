//! The seeded random stream that drives the correlations.
//!
//! The stream is a `rand_pcg` `Pcg64Mcg` generator. The library holds its
//! 128-bit state as a plain value, so that two simulators built from the same
//! seed hold equal states and draw equal values.
use vstd::prelude::*;
use rand::RngExt;
use rand::SeedableRng;
use rand_pcg::Pcg64Mcg;

verus! {

/// The number of values in one block of draws (one per event of a batch).
pub const BLOCK: usize = 1024;

/// What `Pcg64Mcg::new(state)` followed by `fill` of 1024 `u16` values gives:
/// the values, and the state of the generator afterwards.
pub uninterp spec fn pcg_u16_block(state: u128) -> (Seq<u16>, u128);

/// The state of `Pcg64Mcg::seed_from_u64(seed)`.
pub uninterp spec fn pcg_seed_state(seed: u64) -> u128;

/// Draws one block of 1024 `u16` values from a `Pcg64Mcg` generator in the
/// given state (`RngExt::fill`), and returns the values with the generator's
/// state afterwards (`Pcg64Mcg::state`). The values and the new state are a
/// function of the state alone; nothing more is claimed of them.
#[verifier::external_body]
pub(crate) fn draw_u16_block(state: u128) -> (drawn: ([u16; 1024], u128))
    ensures
        (drawn.0@, drawn.1) == pcg_u16_block(state),
{
    let mut rng = Pcg64Mcg::new(state);
    let mut values = [0u16; 1024];
    rng.fill(&mut values);
    (values, rng.state())
}

/// The state of the generator that `SeedableRng::seed_from_u64` builds from
/// `seed` (`Pcg64Mcg::state`).
#[verifier::external_body]
pub fn seed_state(seed: u64) -> (state: u128)
    ensures
        state == pcg_seed_state(seed),
{
    Pcg64Mcg::seed_from_u64(seed).state()
}

/// Block `k` of the stream that starts in `state`.
pub open spec fn stream_block(state: u128, k: nat) -> Seq<u16>
    decreases k,
{
    if k == 0 {
        pcg_u16_block(state).0
    } else {
        stream_block(pcg_u16_block(state).1, (k - 1) as nat)
    }
}

/// The state of the stream that starts in `state` after `k` blocks.
pub open spec fn stream_state_after(state: u128, k: nat) -> u128
    decreases k,
{
    if k == 0 {
        state
    } else {
        stream_state_after(pcg_u16_block(state).1, (k - 1) as nat)
    }
}

/// Drawing `j + 1` blocks is drawing `j` blocks and then one more.
pub proof fn lemma_stream_state_step(state: u128, j: nat)
    ensures
        stream_state_after(state, j + 1) == pcg_u16_block(stream_state_after(state, j)).1,
        stream_block(state, j) == pcg_u16_block(stream_state_after(state, j)).0,
    decreases j,
{
    let next = pcg_u16_block(state).1;
    assert(stream_state_after(state, j + 1) == stream_state_after(next, j));
    if j > 0 {
        lemma_stream_state_step(next, (j - 1) as nat);
        assert(stream_state_after(state, j) == stream_state_after(next, (j - 1) as nat));
        assert(((j - 1) as nat) + 1 == j);
    }
}

/// Drawing `a + b` blocks is drawing `a` blocks, then `b` more.
pub proof fn lemma_stream_state_add(state: u128, a: nat, b: nat)
    ensures
        stream_state_after(state, a + b) == stream_state_after(stream_state_after(state, a), b),
    decreases a,
{
    if a > 0 {
        lemma_stream_state_add(pcg_u16_block(state).1, (a - 1) as nat, b);
    }
}

} // verus!
