//! Placing vegetation: what a category is made to, the seeds and the density
//! field it is grown from, and the cap on how many entities stay.

use crate::assets::Channel;
use crate::field::Basis;
use crate::field::Field;
use crate::field::Ratio;
use crate::rng::is_permutation;
use crate::rng::rearranged;
use crate::rng::seeded_state;
use crate::rng::shuffle_draw;
use crate::rng::std_rng_from_seed;
use crate::rng::std_rng_shuffle;
use crate::rng::std_rng_state;
use crate::rng::std_rng_u32;
use crate::rng::std_rng_u64;
use crate::rng::u32_draw;
use crate::rng::u64_draw;
use crate::scene::SCENE_SIZE;
use crate::terrain::squared_channel;
use rand::rngs::StdRng;
use vstd::prelude::*;

verus! {

/// The seeds that one vegetation category is grown from.
#[derive(Clone, Copy, Debug, PartialEq, Eq, Structural)]
pub struct PlacementSeeds {
    /// Seeds the noise behind the category's density field.
    pub distribution: u32,
    /// Seeds the generator that scatters the points.
    pub points: u64,
}

/// The seeds that the category seeded with `seed` is grown from: the first
/// 32-bit value of a standard generator seeded with it, then the 64-bit value
/// that follows.
pub open spec fn placement_seeds(seed: u32) -> PlacementSeeds {
    let first = u32_draw(seeded_state(seed as u64));
    PlacementSeeds { distribution: first.0, points: u64_draw(first.1).0 }
}

/// The state of the category's generator once its seeds are drawn.
pub open spec fn placement_state(seed: u32) -> Seq<u32> {
    u64_draw(u32_draw(seeded_state(seed as u64)).1).1
}

/// The old positions of the entities that stay when `len` of them meet a cap
/// of `num_limit`, in their new order, for a generator in `state`. Within the
/// cap every entity stays where it is. Over it, the entities are shuffled and
/// the first `num_limit` of the shuffled order stay.
pub open spec fn kept_positions(len: nat, num_limit: nat, state: Seq<u32>) -> Seq<int> {
    if len > num_limit {
        shuffle_draw(state, len).0.take(num_limit as int)
    } else {
        Seq::new(len, |i: int| i)
    }
}

/// The state of a generator that was in `state` once the cap has been applied
/// to `len` entities: changed by the shuffle over the cap, untouched within it.
pub open spec fn state_after_cap(len: nat, num_limit: nat, state: Seq<u32>) -> Seq<u32> {
    if len > num_limit {
        shuffle_draw(state, len).1
    } else {
        state
    }
}

/// `chosen` names positions below `len`, none of them twice.
pub open spec fn is_selection(chosen: Seq<int>, len: nat) -> bool {
    &&& forall|i: int| 0 <= i < chosen.len() ==> 0 <= #[trigger] chosen[i] < len
    &&& forall|i: int, j: int|
        0 <= i < j < chosen.len() ==> #[trigger] chosen[i] != #[trigger] chosen[j]
}

/// Enforces the cap on the number of entities: where `positions` holds more
/// than `num_limit`, they are shuffled with `rng` and cut down to `num_limit`.
///
/// Exactly `min(len, num_limit)` entities stay, each of them one of those
/// handed in and none of them twice. Which ones stay, in which order, and the
/// state the generator is left in depend on the number of entities, the cap
/// and the generator's state alone. Within the cap the generator is not used.
pub fn limit_entities<P>(positions: Vec<P>, num_limit: usize, rng: &mut StdRng) -> (kept: Vec<P>)
    ensures
        kept@ == rearranged(
            positions@,
            kept_positions(positions@.len(), num_limit as nat, std_rng_state(*old(rng))),
        ),
        std_rng_state(*final(rng)) == state_after_cap(
            positions@.len(),
            num_limit as nat,
            std_rng_state(*old(rng)),
        ),
        is_selection(
            kept_positions(positions@.len(), num_limit as nat, std_rng_state(*old(rng))),
            positions@.len(),
        ),
        kept@.len() == if positions@.len() > num_limit {
            num_limit as nat
        } else {
            positions@.len()
        },
        positions@.len() <= num_limit ==> kept@ == positions@,
{
    let mut positions = positions;
    let ghost before = positions@;
    let ghost state = std_rng_state(*rng);
    if positions.len() > num_limit {
        std_rng_shuffle(&mut positions, rng);
        positions.truncate(num_limit);
        proof {
            let order = shuffle_draw(state, before.len()).0;
            assert(positions@ =~= rearranged(before, order.take(num_limit as int)));
        }
    } else {
        assert(positions@ =~= rearranged(before, Seq::new(before.len(), |i: int| i)));
    }
    positions
}

/// What the cap does follows from what it is given: two runs of the cap on
/// the same entities, with the same limit and with generators in the same
/// state, keep the same entities in the same order and leave their
/// generators in the same state.
pub proof fn lemma_cap_is_reproducible<P>(
    positions: Seq<P>,
    num_limit: nat,
    first_state: Seq<u32>,
    second_state: Seq<u32>,
)
    requires
        first_state == second_state,
    ensures
        rearranged(positions, kept_positions(positions.len(), num_limit, first_state))
            == rearranged(positions, kept_positions(positions.len(), num_limit, second_state)),
        state_after_cap(positions.len(), num_limit, first_state) == state_after_cap(
            positions.len(),
            num_limit,
            second_state,
        ),
{
}

/// What stays under the cap was handed in: where `chosen` names positions
/// below the number of `positions`, each of the entities rearranged by it is
/// one of `positions`, and there are as many of them as `chosen` names.
pub proof fn lemma_kept_were_handed_in<P>(positions: Seq<P>, chosen: Seq<int>)
    requires
        is_selection(chosen, positions.len()),
    ensures
        rearranged(positions, chosen).len() == chosen.len(),
        forall|i: int|
            0 <= i < chosen.len() ==> positions.contains(
                #[trigger] rearranged(positions, chosen)[i],
            ),
{
}

/// A rectangle of the scene, in meters.
#[derive(Clone, Copy, Debug, PartialEq, Eq, Structural)]
pub struct Bounds {
    /// The lower end along the first axis.
    pub x_min: Ratio,
    /// The upper end along the first axis.
    pub x_max: Ratio,
    /// The lower end along the second axis.
    pub y_min: Ratio,
    /// The upper end along the second axis.
    pub y_max: Ratio,
}

/// A range that a number is drawn from.
#[derive(Clone, Copy, Debug, PartialEq, Eq, Structural)]
pub struct Interval {
    /// The lower end.
    pub min: Ratio,
    /// The upper end.
    pub max: Ratio,
}

/// The range that holds the factor one and nothing else.
pub open spec fn unscaled() -> Interval {
    Interval { min: Ratio { num: 1, den: 1 }, max: Ratio { num: 1, den: 1 } }
}

/// The square that the scene covers.
pub open spec fn scene_bounds() -> Bounds {
    Bounds {
        x_min: Ratio { num: 0, den: 1 },
        x_max: Ratio { num: SCENE_SIZE as i64, den: 1 },
        y_min: Ratio { num: 0, den: 1 },
        y_max: Ratio { num: SCENE_SIZE as i64, den: 1 },
    }
}

/// How many entities of a category to expect per square meter around each
/// place: gradient noise with features some five meters across, moved from
/// between -1 and 1 to between 0 and `density`.
pub open spec fn density_field(density: Ratio, seed: u32) -> Field {
    let noise = Field::Fbm {
        basis: Basis::Perlin,
        seed,
        octaves: 4,
        frequency: Ratio { num: 1, den: 5 },
        lacunarity: None,
        persistence: None,
    };
    let unit = Field::ScaleBias {
        source: Box::new(noise),
        scale: Ratio { num: 1, den: 2 },
        bias: Ratio { num: 1, den: 2 },
    };
    Field::ScaleBias { source: Box::new(unit), scale: density, bias: Ratio { num: 0, den: 1 } }
}

/// By how much a guide channel thins or thickens a category: the channel
/// squared, moved from between 0 and 1 to between a tenth and 2.1.
pub open spec fn bushiness_field(channel: Channel) -> Field {
    Field::ScaleBias {
        source: Box::new(squared_channel(channel)),
        scale: Ratio { num: 2, den: 1 },
        bias: Ratio { num: 1, den: 10 },
    }
}

/// The density of a category, thinned or thickened by a guide channel where
/// one is given.
pub open spec fn category_density(density: Ratio, bushiness: Option<Channel>, seed: u32) -> Field {
    match bushiness {
        Some(channel) => Field::Multiply(
            Box::new(density_field(density, seed)),
            Box::new(bushiness_field(channel)),
        ),
        None => density_field(density, seed),
    }
}

/// The density field of a category with `density` entities per square meter
/// at its densest.
///
/// The field may be taken for an average only loosely: the noise it is made
/// from varies on a large scale.
pub fn probability_distribution(density: Ratio, seed: u32) -> (field: Field)
    ensures
        field == density_field(density, seed),
{
    let noise = Field::Fbm {
        basis: Basis::Perlin,
        seed,
        octaves: 4,
        frequency: Ratio::new(1, 5),
        lacunarity: None,
        persistence: None,
    };
    let noise = noise.scale_bias(Ratio::new(1, 2), Ratio::new(1, 2));
    noise.scale_bias(density, Ratio::whole(0))
}

/// The range that an entity's turn about the vertical is drawn from, in
/// radians: from none to a full turn, the upper end left out.
pub fn rotation_range() -> (range: Interval)
    ensures
        range == (Interval { min: Ratio { num: 0, den: 1 }, max: Ratio { num: 157, den: 25 } }),
{
    Interval { min: Ratio::whole(0), max: Ratio::new(157, 25) }
}

/// What a vegetation category is made to: how dense it grows, how many
/// entities it may hold and how its entities are sized.
#[derive(Clone, Copy, Debug, PartialEq, Eq, Structural)]
pub struct ShrubEntitiesBuilder {
    /// Entities per square meter where the category is densest.
    pub density: Ratio,
    /// The most entities that the category may hold.
    pub num_limit: usize,
    /// The rectangle that the category grows on.
    pub bounds: Bounds,
    /// The range that an entity's stretch in height is drawn from, ends
    /// included.
    pub z_scale_range: Interval,
    /// The range that an entity's size is drawn from, ends included.
    pub scale_range: Interval,
    /// The guide channel that thins or thickens the category.
    pub bushiness: Option<Channel>,
}

/// A category that nothing has been said of: no entities, no cap, the whole
/// scene, every entity at its model's size.
pub open spec fn unset_builder() -> ShrubEntitiesBuilder {
    ShrubEntitiesBuilder {
        density: Ratio { num: 0, den: 1 },
        num_limit: usize::MAX,
        bounds: scene_bounds(),
        z_scale_range: unscaled(),
        scale_range: unscaled(),
        bushiness: None,
    }
}

/// What a category is grown from once its seed is known. The generator is the
/// one that the category's seeds were drawn from; the cap and the draws that
/// shape each entity go on with it.
pub struct Placement {
    /// How many entities to expect per square meter around each place. The
    /// field may dip below zero; what is not above zero counts as empty.
    pub density: Field,
    /// Seeds the generator that scatters the points.
    pub points_seed: u64,
    /// The category's own generator.
    pub rng: StdRng,
}

impl ShrubEntitiesBuilder {
    /// A category that nothing has been said of yet.
    pub fn new() -> (builder: ShrubEntitiesBuilder)
        ensures
            builder == unset_builder(),
    {
        let whole = Ratio::whole(SCENE_SIZE as i64);
        ShrubEntitiesBuilder {
            density: Ratio::whole(0),
            num_limit: usize::MAX,
            bounds: Bounds {
                x_min: Ratio::whole(0),
                x_max: whole,
                y_min: Ratio::whole(0),
                y_max: whole,
            },
            z_scale_range: Interval { min: Ratio::whole(1), max: Ratio::whole(1) },
            scale_range: Interval { min: Ratio::whole(1), max: Ratio::whole(1) },
            bushiness: None,
        }
    }

    /// Sets how many entities grow per square meter where the category is
    /// densest.
    pub fn with_density(self, density: Ratio) -> (builder: ShrubEntitiesBuilder)
        ensures
            builder == (ShrubEntitiesBuilder { density, ..self }),
    {
        ShrubEntitiesBuilder { density, ..self }
    }

    /// Caps the number of entities.
    pub fn with_entitiy_limit(self, num_limit: usize) -> (builder: ShrubEntitiesBuilder)
        ensures
            builder == (ShrubEntitiesBuilder { num_limit, ..self }),
    {
        ShrubEntitiesBuilder { num_limit, ..self }
    }

    /// Sets the rectangle that the category grows on.
    pub fn with_bounds(self, x_min: Ratio, x_max: Ratio, y_min: Ratio, y_max: Ratio) -> (builder:
        ShrubEntitiesBuilder)
        ensures
            builder == (ShrubEntitiesBuilder {
                bounds: Bounds { x_min, x_max, y_min, y_max },
                ..self
            }),
    {
        ShrubEntitiesBuilder { bounds: Bounds { x_min, x_max, y_min, y_max }, ..self }
    }

    /// Lets a channel of the guide image thin or thicken the category.
    pub fn with_bushiness(self, bushiness: Channel) -> (builder: ShrubEntitiesBuilder)
        ensures
            builder == (ShrubEntitiesBuilder { bushiness: Some(bushiness), ..self }),
    {
        ShrubEntitiesBuilder { bushiness: Some(bushiness), ..self }
    }

    /// Stretches the models in z direction (height).
    pub fn with_z_scale_range(self, min_z_scale: Ratio, max_z_scale: Ratio) -> (builder:
        ShrubEntitiesBuilder)
        ensures
            builder == (ShrubEntitiesBuilder {
                z_scale_range: Interval { min: min_z_scale, max: max_z_scale },
                ..self
            }),
    {
        ShrubEntitiesBuilder {
            z_scale_range: Interval { min: min_z_scale, max: max_z_scale },
            ..self
        }
    }

    /// Stretches the models in all directions.
    pub fn with_scale_range(self, min_scale: Ratio, max_scale: Ratio) -> (builder:
        ShrubEntitiesBuilder)
        ensures
            builder == (ShrubEntitiesBuilder {
                scale_range: Interval { min: min_scale, max: max_scale },
                ..self
            }),
    {
        ShrubEntitiesBuilder { scale_range: Interval { min: min_scale, max: max_scale }, ..self }
    }

    /// Begins to grow the category from `seed`: seeds the category's
    /// generator, draws the seed of the density field and then the seed of
    /// the points from it, and composes the density field.
    pub fn load(&self, seed: u32) -> (placement: Placement)
        ensures
            placement.density == category_density(
                self.density,
                self.bushiness,
                placement_seeds(seed).distribution,
            ),
            placement.points_seed == placement_seeds(seed).points,
            std_rng_state(placement.rng) == placement_state(seed),
    {
        let mut rng = std_rng_from_seed(seed as u64);
        let distr = probability_distribution(self.density, std_rng_u32(&mut rng));
        let density = match self.bushiness {
            Some(channel) => {
                let bushiness = Field::Image(channel).power(Ratio::whole(2));
                let bushiness = bushiness.scale_bias(Ratio::whole(2), Ratio::new(1, 10));
                distr.times(bushiness)
            },
            None => distr,
        };
        let points_seed = std_rng_u64(&mut rng);
        Placement { density, points_seed, rng }
    }
}

} // verus!
