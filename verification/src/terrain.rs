//! The fields that shape the terrain: its height, its ground cover and the
//! rocks that break through it.

use crate::assets::Channel;
use crate::field::Basis;
use crate::field::Field;
use crate::field::Ratio;
use crate::rng::sub_seed;
use crate::rng::sub_seeds;
use vstd::prelude::*;

verus! {

/// The seeds of the two noise layers of the height map.
#[derive(Clone, Copy, Debug, PartialEq, Eq, Structural)]
pub struct HeightSeeds {
    /// Seeds the layer of rocks.
    pub rocks: u32,
    /// Seeds the rolling ground under them.
    pub height: u32,
}

/// The seeds of the two noise layers of a rock map.
#[derive(Clone, Copy, Debug, PartialEq, Eq, Structural)]
pub struct RockSeeds {
    /// Seeds the field that says how rocky a place is.
    pub rockyness: u32,
    /// Seeds the ridges that the rocks are cut from.
    pub ridges: u32,
}

/// The seeds of the height map seeded with `seed`: the first sub-seed for the
/// rocks, the second for the ground.
pub open spec fn height_seeds_of(seed: u32) -> HeightSeeds {
    HeightSeeds { rocks: sub_seed(seed, 0), height: sub_seed(seed, 1) }
}

/// The seeds of the rock map seeded with `seed`: the first sub-seed for the
/// rockyness, the second for the ridges.
pub open spec fn rock_seeds_of(seed: u32) -> RockSeeds {
    RockSeeds { rockyness: sub_seed(seed, 0), ridges: sub_seed(seed, 1) }
}

/// Derives the seeds of the height map seeded with `seed`.
pub fn height_seeds(seed: u32) -> (seeds: HeightSeeds)
    ensures
        seeds == height_seeds_of(seed),
{
    let drawn = sub_seeds(seed, 2);
    HeightSeeds { rocks: drawn[0], height: drawn[1] }
}

/// Derives the seeds of the rock map seeded with `seed`.
pub fn rock_seeds(seed: u32) -> (seeds: RockSeeds)
    ensures
        seeds == rock_seeds_of(seed),
{
    let drawn = sub_seeds(seed, 2);
    RockSeeds { rockyness: drawn[0], ridges: drawn[1] }
}

/// A guide channel squared, so that its low values count for less.
pub open spec fn squared_channel(channel: Channel) -> Field {
    Field::Power(
        Box::new(Field::Image(channel)),
        Box::new(Field::Constant(Ratio { num: 2, den: 1 })),
    )
}

/// The rocks of a rock map with the given seeds.
///
/// Rockyness is broad value noise with half of it cut away, steepened
/// threefold and capped at one. The rocks are the ridges where it is rocky,
/// a fifth of a meter high at most.
pub open spec fn rock_field(seeds: RockSeeds) -> Field {
    let rockyness = Field::Fbm {
        basis: Basis::Value,
        seed: seeds.rockyness,
        octaves: 4,
        frequency: Ratio { num: 1, den: 2 },
        lacunarity: None,
        persistence: None,
    };
    let lowered = Field::ScaleBias {
        source: Box::new(rockyness),
        scale: Ratio { num: 1, den: 1 },
        bias: Ratio { num: -1i64, den: 2 },
    };
    let floored = Field::Max(
        Box::new(lowered),
        Box::new(Field::Constant(Ratio { num: 0, den: 1 })),
    );
    let steepened = Field::ScaleBias {
        source: Box::new(floored),
        scale: Ratio { num: 3, den: 1 },
        bias: Ratio { num: 0, den: 1 },
    };
    let capped = Field::Min(
        Box::new(steepened),
        Box::new(Field::Constant(Ratio { num: 1, den: 1 })),
    );
    let ridges = Field::Ridges { seed: seeds.ridges, frequency: Ratio { num: 1, den: 1 } };
    Field::ScaleBias {
        source: Box::new(Field::Multiply(Box::new(capped), Box::new(ridges))),
        scale: Ratio { num: 1, den: 5 },
        bias: Ratio { num: 0, den: 1 },
    }
}

/// The height of the terrain with the given seeds: the guide image's red
/// channel, squared and doubled, under layered rocks and rolling ground.
pub open spec fn height_field(seeds: HeightSeeds) -> Field {
    let rocks = Field::ScaleBias {
        source: Box::new(
            Field::Fbm {
                basis: Basis::Rocks,
                seed: seeds.rocks,
                octaves: 3,
                frequency: Ratio { num: 4, den: 5 },
                lacunarity: Some(Ratio { num: 3, den: 1 }),
                persistence: Some(Ratio { num: 3, den: 10 }),
            },
        ),
        scale: Ratio { num: 4, den: 5 },
        bias: Ratio { num: 0, den: 1 },
    };
    let height = Field::ScaleBias {
        source: Box::new(
            Field::Fbm {
                basis: Basis::Value,
                seed: seeds.height,
                octaves: 6,
                frequency: Ratio { num: 1, den: 5 },
                lacunarity: None,
                persistence: None,
            },
        ),
        scale: Ratio { num: 3, den: 10 },
        bias: Ratio { num: 3, den: 10 },
    };
    let base_height = Field::ScaleBias {
        source: Box::new(squared_channel(Channel::Red)),
        scale: Ratio { num: 2, den: 1 },
        bias: Ratio { num: 0, den: 1 },
    };
    Field::Add(Box::new(base_height), Box::new(Field::Add(Box::new(rocks), Box::new(height))))
}

/// The ground cover of the terrain seeded with `seed`, from bare (0) to
/// overgrown (1): value noise between 0 and 1 plus the guide image's green
/// channel, squared and weighted by three tenths, held between 0 and 1 and
/// squared.
pub open spec fn variant_field(seed: u32) -> Field {
    let noise = Field::ScaleBias {
        source: Box::new(
            Field::Fbm {
                basis: Basis::Value,
                seed,
                octaves: 6,
                frequency: Ratio { num: 1, den: 5 },
                lacunarity: None,
                persistence: None,
            },
        ),
        scale: Ratio { num: 1, den: 2 },
        bias: Ratio { num: 1, den: 2 },
    };
    let bushiness = Field::ScaleBias {
        source: Box::new(squared_channel(Channel::Green)),
        scale: Ratio { num: 3, den: 10 },
        bias: Ratio { num: 0, den: 1 },
    };
    let total = Field::Clamp {
        source: Box::new(Field::Add(Box::new(bushiness), Box::new(noise))),
        lower: Ratio { num: 0, den: 1 },
        upper: Ratio { num: 1, den: 1 },
    };
    Field::Power(Box::new(total), Box::new(Field::Constant(Ratio { num: 2, den: 1 })))
}

/// How far the blueberry bushes seeded with `seed` stand above the ground:
/// fine value noise moved from between -1 and 1 to between 0 and 1, then to
/// between 2 and 10 centimeters.
pub open spec fn bush_height_field(seed: u32) -> Field {
    let unit = Field::ScaleBias {
        source: Box::new(
            Field::Fbm {
                basis: Basis::Value,
                seed,
                octaves: 6,
                frequency: Ratio { num: 4, den: 5 },
                lacunarity: None,
                persistence: None,
            },
        ),
        scale: Ratio { num: 1, den: 2 },
        bias: Ratio { num: 1, den: 2 },
    };
    Field::ScaleBias {
        source: Box::new(unit),
        scale: Ratio { num: 2, den: 25 },
        bias: Ratio { num: 1, den: 50 },
    }
}

/// A field of rocks, known by the seed it was made from.
#[derive(Debug, PartialEq, Eq)]
pub struct RockMap {
    /// How the rocks are made.
    pub field: Field,
    /// The seed that the rock map was made from.
    pub seed: u32,
}

impl RockMap {
    /// The rock map seeded with `seed`.
    pub fn new(seed: u32) -> (map: RockMap)
        ensures
            map.field == rock_field(rock_seeds_of(seed)),
            map.seed == seed,
    {
        let seeds = rock_seeds(seed);
        let rockyness = Field::Fbm {
            basis: Basis::Value,
            seed: seeds.rockyness,
            octaves: 4,
            frequency: Ratio::new(1, 2),
            lacunarity: None,
            persistence: None,
        };
        let rockyness = rockyness.scale_bias(Ratio::whole(1), Ratio::new(-1, 2));
        let rockyness = rockyness.max(Ratio::whole(0));
        let rockyness = rockyness.scale_bias(Ratio::whole(3), Ratio::whole(0));
        let rockyness = rockyness.min(Ratio::whole(1));
        let ridges = Field::Ridges { seed: seeds.ridges, frequency: Ratio::whole(1) };
        let rocks = rockyness.times(ridges).scale_bias(Ratio::new(1, 5), Ratio::whole(0));
        RockMap { field: rocks, seed }
    }

    /// The seed that the rock map was made from.
    pub fn seed(&self) -> (seed: u32)
        ensures
            seed == self.seed,
    {
        self.seed
    }

    /// The rock map seeded with `seed` in place of this one.
    pub fn set_seed(self, seed: u32) -> (map: RockMap)
        ensures
            map.field == rock_field(rock_seeds_of(seed)),
            map.seed == seed,
    {
        RockMap::new(seed)
    }
}

impl Default for RockMap {
    /// The rock map seeded with 0.
    fn default() -> (map: RockMap)
        ensures
            map.field == rock_field(rock_seeds_of(0)),
            map.seed == 0,
    {
        RockMap::new(0)
    }
}

/// The guide channel `channel`, squared.
fn squared(channel: Channel) -> (field: Field)
    ensures
        field == squared_channel(channel),
{
    Field::Image(channel).power(Ratio::whole(2))
}

/// The height of the terrain seeded with `seed`.
pub fn height_map(seed: u32) -> (field: Field)
    ensures
        field == height_field(height_seeds_of(seed)),
{
    let seeds = height_seeds(seed);
    let rocks = Field::Fbm {
        basis: Basis::Rocks,
        seed: seeds.rocks,
        octaves: 3,
        frequency: Ratio::new(4, 5),
        lacunarity: Some(Ratio::whole(3)),
        persistence: Some(Ratio::new(3, 10)),
    };
    let rocks = rocks.scale_bias(Ratio::new(4, 5), Ratio::whole(0));
    let height = Field::Fbm {
        basis: Basis::Value,
        seed: seeds.height,
        octaves: 6,
        frequency: Ratio::new(1, 5),
        lacunarity: None,
        persistence: None,
    };
    let height = height.scale_bias(Ratio::new(3, 10), Ratio::new(3, 10));
    let base_height = squared(Channel::Red).scale_bias(Ratio::whole(2), Ratio::whole(0));
    base_height.plus(rocks.plus(height))
}

/// The ground cover of the terrain seeded with `seed`.
pub fn variant_map(seed: u32) -> (field: Field)
    ensures
        field == variant_field(seed),
{
    let noise = Field::Fbm {
        basis: Basis::Value,
        seed,
        octaves: 6,
        frequency: Ratio::new(1, 5),
        lacunarity: None,
        persistence: None,
    };
    let noise = noise.scale_bias(Ratio::new(1, 2), Ratio::new(1, 2));
    let bushiness = squared(Channel::Green).scale_bias(Ratio::new(3, 10), Ratio::whole(0));
    let total = bushiness.plus(noise).clamp(Ratio::whole(0), Ratio::whole(1));
    total.power(Ratio::whole(2))
}

/// How far the blueberry bushes seeded with `seed` stand above the ground.
pub fn bush_heights(seed: u32) -> (field: Field)
    ensures
        field == bush_height_field(seed),
{
    let noise = Field::Fbm {
        basis: Basis::Value,
        seed,
        octaves: 6,
        frequency: Ratio::new(4, 5),
        lacunarity: None,
        persistence: None,
    };
    let noise = noise.scale_bias(Ratio::new(1, 2), Ratio::new(1, 2));
    noise.scale_bias(Ratio::new(2, 25), Ratio::new(1, 50))
}

} // verus!
