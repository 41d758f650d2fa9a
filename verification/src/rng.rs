//! The seeded generators behind a scene, and what is taken on trust of them.
//!
//! Two generators are in use. The standard generator is the same algorithm on
//! every target, so what it yields is named here as a function of its state.
//! The small generator picks its algorithm by the target's pointer width, so
//! what it yields is named as a function of its state and that width.

use rand::rngs::SmallRng;
use rand::rngs::StdRng;
use rand::seq::SliceRandom;
use rand::Rng;
use rand::SeedableRng;
use vstd::prelude::*;

verus! {

/// `rand::rngs::StdRng`, the standard generator. Nothing is known of what is
/// inside it.
#[verifier::external_type_specification]
#[verifier::external_body]
pub struct ExStdRng(rand::rngs::StdRng);

/// `rand::rngs::SmallRng`, the small generator. Nothing is known of what is
/// inside it.
#[verifier::external_type_specification]
#[verifier::external_body]
pub struct ExSmallRng(rand::rngs::SmallRng);

/// The state of a standard generator: the words it is made of. Two generators
/// in the same state yield the same values from then on.
pub uninterp spec fn std_rng_state(rng: StdRng) -> Seq<u32>;

/// The state of the standard generator that `seed_from_u64` builds from `seed`.
pub uninterp spec fn seeded_state(seed: u64) -> Seq<u32>;

/// The 32-bit value that a standard generator in `state` yields next, and the
/// state it is in afterwards.
pub uninterp spec fn u32_draw(state: Seq<u32>) -> (u32, Seq<u32>);

/// The 64-bit value that a standard generator in `state` yields next, and the
/// state it is in afterwards.
pub uninterp spec fn u64_draw(state: Seq<u32>) -> (u64, Seq<u32>);

/// How a standard generator in `state` shuffles a slice of `len` items: the
/// old position of the item that ends up at each position, and the state the
/// generator is in afterwards.
pub uninterp spec fn shuffle_draw(state: Seq<u32>, len: nat) -> (Seq<int>, Seq<u32>);

/// `order` names each of the positions `0..len` exactly once.
pub open spec fn is_permutation(order: Seq<int>, len: nat) -> bool {
    &&& order.len() == len
    &&& forall|i: int| 0 <= i < len ==> 0 <= #[trigger] order[i] < len
    &&& forall|i: int, j: int| 0 <= i < j < len ==> #[trigger] order[i] != #[trigger] order[j]
}

/// `items` rearranged so that position `i` holds what was at `order[i]`.
pub open spec fn rearranged<T>(items: Seq<T>, order: Seq<int>) -> Seq<T> {
    Seq::new(order.len(), |i: int| items[order[i]])
}

/// Calls `StdRng::seed_from_u64`. Trusted: the generator's state is a function
/// of the seed alone.
#[verifier::external_body]
pub(crate) fn std_rng_from_seed(seed: u64) -> (rng: StdRng)
    ensures
        std_rng_state(rng) == seeded_state(seed),
{
    StdRng::seed_from_u64(seed)
}

/// Calls `Rng::gen` for a `u32` on a standard generator. Trusted: the value
/// and the state afterwards are functions of the state before.
#[verifier::external_body]
pub(crate) fn std_rng_u32(rng: &mut StdRng) -> (value: u32)
    ensures
        value == u32_draw(std_rng_state(*old(rng))).0,
        std_rng_state(*final(rng)) == u32_draw(std_rng_state(*old(rng))).1,
{
    rng.gen()
}

/// Calls `Rng::gen` for a `u64` on a standard generator. Trusted: the value
/// and the state afterwards are functions of the state before.
#[verifier::external_body]
pub(crate) fn std_rng_u64(rng: &mut StdRng) -> (value: u64)
    ensures
        value == u64_draw(std_rng_state(*old(rng))).0,
        std_rng_state(*final(rng)) == u64_draw(std_rng_state(*old(rng))).1,
{
    rng.gen()
}

/// Calls `SliceRandom::shuffle` with a standard generator. Trusted: the items
/// are rearranged by a permutation that depends on the generator's state and
/// the number of items only, never on the items; the state afterwards is a
/// function of the same two.
#[verifier::external_body]
pub(crate) fn std_rng_shuffle<T>(items: &mut Vec<T>, rng: &mut StdRng)
    ensures
        is_permutation(shuffle_draw(std_rng_state(*old(rng)), old(items)@.len()).0, old(items)@.len()),
        final(items)@ == rearranged(
            old(items)@,
            shuffle_draw(std_rng_state(*old(rng)), old(items)@.len()).0,
        ),
        std_rng_state(*final(rng)) == shuffle_draw(std_rng_state(*old(rng)), old(items)@.len()).1,
{
    items.shuffle(rng)
}

/// The state of a small generator: the words it is made of.
pub uninterp spec fn small_rng_state(rng: SmallRng) -> Seq<u32>;

/// The state of the small generator that `seed_from_u64` builds from `seed` on
/// a target whose pointers are `pointer_bits` wide.
pub uninterp spec fn small_seeded_state(seed: u64, pointer_bits: nat) -> Seq<u32>;

/// The 32-bit value that a small generator in `state` yields next on a target
/// whose pointers are `pointer_bits` wide, and the state it is in afterwards.
pub uninterp spec fn small_u32_draw(state: Seq<u32>, pointer_bits: nat) -> (u32, Seq<u32>);

/// Calls `SmallRng::seed_from_u64`. Trusted: the generator's state is a
/// function of the seed and of the target's pointer width, by which the
/// generator picks its algorithm.
#[verifier::external_body]
pub(crate) fn small_rng_from_seed(seed: u64) -> (rng: SmallRng)
    ensures
        small_rng_state(rng) == small_seeded_state(seed, usize::BITS as nat),
{
    SmallRng::seed_from_u64(seed)
}

/// Calls `Rng::gen` for a `u32` on a small generator. Trusted: the value and
/// the state afterwards are functions of the state before and of the target's
/// pointer width.
#[verifier::external_body]
pub(crate) fn small_rng_u32(rng: &mut SmallRng) -> (value: u32)
    ensures
        value == small_u32_draw(small_rng_state(*old(rng)), usize::BITS as nat).0,
        small_rng_state(*final(rng)) == small_u32_draw(
            small_rng_state(*old(rng)),
            usize::BITS as nat,
        ).1,
{
    rng.gen()
}

/// The state of a small generator that was in `state` after it has yielded
/// `draws` 32-bit values.
pub open spec fn small_state_after(state: Seq<u32>, draws: nat) -> Seq<u32>
    decreases draws,
{
    if draws == 0 {
        state
    } else {
        small_u32_draw(small_state_after(state, (draws - 1) as nat), usize::BITS as nat).1
    }
}

/// The sub-seed with number `index` that is derived from `seed`: the 32-bit
/// value that a small generator seeded with `seed` yields after `index`
/// others.
pub open spec fn sub_seed(seed: u32, index: nat) -> u32 {
    small_u32_draw(
        small_state_after(small_seeded_state(seed as u64, usize::BITS as nat), index),
        usize::BITS as nat,
    ).0
}

/// Derives `count` sub-seeds from `seed`, in the order in which a small
/// generator seeded with `seed` yields them.
pub fn sub_seeds(seed: u32, count: usize) -> (seeds: Vec<u32>)
    ensures
        seeds@.len() == count,
        forall|index: int| 0 <= index < count ==> seeds@[index] == sub_seed(seed, index as nat),
{
    let mut rng = small_rng_from_seed(seed as u64);
    let mut seeds: Vec<u32> = Vec::new();
    let ghost start = small_rng_state(rng);
    while seeds.len() < count
        invariant
            start == small_seeded_state(seed as u64, usize::BITS as nat),
            seeds@.len() <= count,
            small_rng_state(rng) == small_state_after(start, seeds@.len()),
            forall|index: int|
                0 <= index < seeds@.len() ==> seeds@[index] == sub_seed(seed, index as nat),
        decreases count - seeds@.len(),
    {
        let value = small_rng_u32(&mut rng);
        seeds.push(value);
    }
    seeds
}

} // verus!
