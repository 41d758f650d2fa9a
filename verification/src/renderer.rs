//! Stepping from one scene to the next by its seed.

use vstd::prelude::*;

verus! {

/// The seed of the scene that is shown first.
pub const FIRST_SEED: u32 = 13;

/// The seed after `seed`. After the last seed comes the first.
pub open spec fn seed_after(seed: u32) -> u32 {
    if seed == u32::MAX {
        0
    } else {
        (seed + 1) as u32
    }
}

/// The seed before `seed`. Before the first seed comes the last.
pub open spec fn seed_before(seed: u32) -> u32 {
    if seed == 0 {
        u32::MAX
    } else {
        (seed - 1) as u32
    }
}

/// The seed of the scene after the one with seed `seed`.
pub fn next_seed(seed: u32) -> (next: u32)
    ensures
        next == seed_after(seed),
{
    seed.wrapping_add(1)
}

/// The seed of the scene before the one with seed `seed`.
pub fn prev_seed(seed: u32) -> (prev: u32)
    ensures
        prev == seed_before(seed),
{
    seed.wrapping_sub(1)
}

/// Stepping back undoes stepping on, and stepping on undoes stepping back.
pub proof fn lemma_steps_undo_each_other(seed: u32)
    ensures
        seed_before(seed_after(seed)) == seed,
        seed_after(seed_before(seed)) == seed,
{
}

} // verus!
