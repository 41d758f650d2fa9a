//! How a scene is laid out from its seed: the sub-seed that each part is
//! grown from, what each vegetation category is held to, and the order in
//! which the parts are drawn.

use crate::assets::Channel;
use crate::field::Field;
use crate::field::Ratio;
use crate::foliage::category_density;
use crate::foliage::placement_seeds;
use crate::foliage::placement_state;
use crate::foliage::scene_bounds;
use crate::foliage::unscaled;
use crate::foliage::Bounds;
use crate::foliage::Interval;
use crate::foliage::Placement;
use crate::foliage::ShrubEntitiesBuilder;
use crate::rng::std_rng_state;
use crate::rng::sub_seed;
use crate::rng::sub_seeds;
use crate::terrain::bush_height_field;
use crate::terrain::bush_heights;
use crate::terrain::height_field;
use crate::terrain::height_map;
use crate::terrain::height_seeds_of;
use crate::terrain::variant_field;
use crate::terrain::variant_map;
use vstd::prelude::*;

verus! {

/// The side length of the scene square in meters.
///
/// One corner of the scene is at (0, 0), the opposite at
/// (+SCENE_SIZE, +SCENE_SIZE).
pub const SCENE_SIZE: u32 = 15;

/// The number of texels along each side of the rasters that the terrain's
/// height and variant fields are sampled into.
pub const TERRAIN_RESOLUTION: u32 = 256;

/// The most trees that a scene holds.
pub const TREE_LIMIT: usize = 60;

/// The sky behind the scene, as 8-bit red, green, blue and alpha.
pub const BACKGROUND_COLOR: (u8, u8, u8, u8) = (186, 219, 222, 255);

/// The sub-seeds of a scene, one for each part that is grown from noise or
/// chance.
#[derive(Clone, Copy, Debug, PartialEq, Eq, Structural)]
pub struct SceneSeeds {
    /// Seeds the height of the ground.
    pub height_map: u32,
    /// Seeds the ground cover.
    pub variant_map: u32,
    /// Seeds how far the blueberry bushes stand above the ground.
    pub bush_heights: u32,
    /// Seeds the saplings.
    pub saplings: u32,
    /// Seeds the bushes.
    pub bushes: u32,
    /// Seeds the shrubs.
    pub shrubs: u32,
    /// Seeds the trees.
    pub trees: u32,
}

/// The sub-seeds of the scene with seed `seed`. They are derived in a fixed
/// order: the height map, the variant map, the heights of the blueberry
/// bushes, then the saplings, the bushes, the shrubs and the trees.
pub open spec fn scene_seeds(seed: u32) -> SceneSeeds {
    SceneSeeds {
        height_map: sub_seed(seed, 0),
        variant_map: sub_seed(seed, 1),
        bush_heights: sub_seed(seed, 2),
        saplings: sub_seed(seed, 3),
        bushes: sub_seed(seed, 4),
        shrubs: sub_seed(seed, 5),
        trees: sub_seed(seed, 6),
    }
}

impl SceneSeeds {
    /// Derives the sub-seeds of the scene with seed `seed`. The same seed
    /// gives the same sub-seeds.
    pub fn derive(seed: u32) -> (seeds: SceneSeeds)
        ensures
            seeds == scene_seeds(seed),
    {
        let drawn = sub_seeds(seed, 7);
        SceneSeeds {
            height_map: drawn[0],
            variant_map: drawn[1],
            bush_heights: drawn[2],
            saplings: drawn[3],
            bushes: drawn[4],
            shrubs: drawn[5],
            trees: drawn[6],
        }
    }
}

/// A category of vegetation that is placed entity by entity.
#[derive(Clone, Copy, Debug, PartialEq, Eq, Structural)]
pub enum Category {
    /// Young trees, dense and of uneven height.
    Saplings,
    /// Low bushes, much alike.
    Bushes,
    /// Large shrubs, few and far between.
    Shrubs,
    /// Trees, capped in number.
    Trees,
}

impl Category {
    /// The sub-seed that the category is grown from, as a value.
    pub open spec fn seed_in(self, seeds: SceneSeeds) -> u32 {
        match self {
            Category::Saplings => seeds.saplings,
            Category::Bushes => seeds.bushes,
            Category::Shrubs => seeds.shrubs,
            Category::Trees => seeds.trees,
        }
    }

    /// The sub-seed that the category is grown from.
    pub fn seed(self, seeds: &SceneSeeds) -> (seed: u32)
        ensures
            seed == self.seed_in(*seeds),
    {
        match self {
            Category::Saplings => seeds.saplings,
            Category::Bushes => seeds.bushes,
            Category::Shrubs => seeds.shrubs,
            Category::Trees => seeds.trees,
        }
    }

    /// What the category is made to: the saplings dense and of uneven height,
    /// the bushes less dense and much alike, the shrubs sparse and large, the
    /// trees few, capped, and spread over a square half again as wide as the
    /// scene. Saplings and shrubs follow the guide image's green channel,
    /// trees its blue one.
    pub open spec fn config(self) -> ShrubEntitiesBuilder {
        match self {
            Category::Saplings => ShrubEntitiesBuilder {
                density: Ratio { num: 50, den: 1 },
                num_limit: usize::MAX,
                bounds: scene_bounds(),
                z_scale_range: Interval {
                    min: Ratio { num: 2, den: 5 },
                    max: Ratio { num: 6, den: 5 },
                },
                scale_range: unscaled(),
                bushiness: Some(Channel::Green),
            },
            Category::Bushes => ShrubEntitiesBuilder {
                density: Ratio { num: 30, den: 1 },
                num_limit: usize::MAX,
                bounds: scene_bounds(),
                z_scale_range: Interval {
                    min: Ratio { num: 9, den: 10 },
                    max: Ratio { num: 1, den: 1 },
                },
                scale_range: unscaled(),
                bushiness: None,
            },
            Category::Shrubs => ShrubEntitiesBuilder {
                density: Ratio { num: 5, den: 1 },
                num_limit: usize::MAX,
                bounds: scene_bounds(),
                z_scale_range: Interval {
                    min: Ratio { num: 7, den: 10 },
                    max: Ratio { num: 1, den: 1 },
                },
                scale_range: Interval {
                    min: Ratio { num: 3, den: 2 },
                    max: Ratio { num: 3, den: 1 },
                },
                bushiness: Some(Channel::Green),
            },
            Category::Trees => ShrubEntitiesBuilder {
                density: Ratio { num: 1, den: 1 },
                num_limit: TREE_LIMIT,
                bounds: Bounds {
                    x_min: Ratio { num: 0, den: 1 },
                    x_max: Ratio { num: 45, den: 2 },
                    y_min: Ratio { num: 0, den: 1 },
                    y_max: Ratio { num: 45, den: 2 },
                },
                z_scale_range: unscaled(),
                scale_range: Interval {
                    min: Ratio { num: 1, den: 2 },
                    max: Ratio { num: 1, den: 1 },
                },
                bushiness: Some(Channel::Blue),
            },
        }
    }

    /// What the category is made to.
    pub fn builder(self) -> (builder: ShrubEntitiesBuilder)
        ensures
            builder == self.config(),
    {
        let edge = Ratio::new(45, 2);
        match self {
            Category::Saplings => ShrubEntitiesBuilder::new().with_density(
                Ratio::whole(50),
            ).with_bushiness(Channel::Green).with_z_scale_range(Ratio::new(2, 5), Ratio::new(6, 5)),
            Category::Bushes => ShrubEntitiesBuilder::new().with_density(
                Ratio::whole(30),
            ).with_z_scale_range(Ratio::new(9, 10), Ratio::whole(1)),
            Category::Shrubs => ShrubEntitiesBuilder::new().with_density(
                Ratio::whole(5),
            ).with_bushiness(Channel::Green).with_z_scale_range(
                Ratio::new(7, 10),
                Ratio::whole(1),
            ).with_scale_range(Ratio::new(3, 2), Ratio::whole(3)),
            Category::Trees => ShrubEntitiesBuilder::new().with_density(
                Ratio::whole(1),
            ).with_entitiy_limit(TREE_LIMIT).with_bounds(
                Ratio::whole(0),
                edge,
                Ratio::whole(0),
                edge,
            ).with_bushiness(Channel::Blue).with_scale_range(Ratio::new(1, 2), Ratio::whole(1)),
        }
    }
}

/// How the vegetation of `category` is grown in the scene with the given
/// sub-seeds: the category's density field, thinned or thickened as the
/// category asks, made from the first value of the category's generator.
pub open spec fn growth_density(category: Category, seeds: SceneSeeds) -> Field {
    category_density(
        category.config().density,
        category.config().bushiness,
        placement_seeds(category.seed_in(seeds)).distribution,
    )
}

/// `placement` is how `category` is grown in the scene with the given
/// sub-seeds, with its generator as it is once the category's seeds are drawn.
pub open spec fn grows(placement: Placement, category: Category, seeds: SceneSeeds) -> bool {
    &&& placement.density == growth_density(category, seeds)
    &&& placement.points_seed == placement_seeds(category.seed_in(seeds)).points
    &&& std_rng_state(placement.rng) == placement_state(category.seed_in(seeds))
}

/// A scene, laid out and ready to be built: the fields of its terrain and how
/// each category of its vegetation is grown.
pub struct Scene {
    /// The sub-seeds that the parts are grown from.
    pub seeds: SceneSeeds,
    /// The height of the ground.
    pub height_map: Field,
    /// The ground cover, from bare to overgrown.
    pub variant_map: Field,
    /// The height of the blueberry bushes: that of the ground under them plus
    /// how far they stand above it.
    pub blueberry_heights: Field,
    /// How the saplings are grown.
    pub saplings: Placement,
    /// How the bushes are grown.
    pub bushes: Placement,
    /// How the shrubs are grown.
    pub shrubs: Placement,
    /// How the trees are grown.
    pub trees: Placement,
}

impl Scene {
    /// The scene is the layout of the scene with seed `seed`: its sub-seeds
    /// are derived from `seed`, each field and each category is grown from its
    /// own sub-seed, and each category's generator stands where the
    /// category's seeds have been drawn from it.
    pub open spec fn lays_out(self, seed: u32) -> bool {
        &&& self.seeds == scene_seeds(seed)
        &&& self.height_map == height_field(height_seeds_of(self.seeds.height_map))
        &&& self.variant_map == variant_field(self.seeds.variant_map)
        &&& self.blueberry_heights == Field::Add(
            Box::new(height_field(height_seeds_of(self.seeds.height_map))),
            Box::new(bush_height_field(self.seeds.bush_heights)),
        )
        &&& grows(self.saplings, Category::Saplings, self.seeds)
        &&& grows(self.bushes, Category::Bushes, self.seeds)
        &&& grows(self.shrubs, Category::Shrubs, self.seeds)
        &&& grows(self.trees, Category::Trees, self.seeds)
    }

    /// Lays out the scene with seed `seed`.
    pub fn create(seed: u32) -> (scene: Scene)
        ensures
            scene.lays_out(seed),
    {
        let seeds = SceneSeeds::derive(seed);
        let blueberry_heights = height_map(seeds.height_map).plus(bush_heights(seeds.bush_heights));
        Scene {
            seeds,
            height_map: height_map(seeds.height_map),
            variant_map: variant_map(seeds.variant_map),
            blueberry_heights,
            saplings: Category::Saplings.builder().load(seeds.saplings),
            bushes: Category::Bushes.builder().load(seeds.bushes),
            shrubs: Category::Shrubs.builder().load(seeds.shrubs),
            trees: Category::Trees.builder().load(seeds.trees),
        }
    }
}

/// `first` and `second` are grown alike: from the same density field and the
/// same seed for their points, with generators in the same state.
pub open spec fn grown_alike(first: Placement, second: Placement) -> bool {
    &&& first.density == second.density
    &&& first.points_seed == second.points_seed
    &&& std_rng_state(first.rng) == std_rng_state(second.rng)
}

/// A scene follows from its seed: two layouts of the scene with the same
/// seed have the same sub-seeds and the same fields, and grow each category
/// alike.
pub proof fn lemma_same_seed_same_layout(first: Scene, second: Scene, seed: u32)
    requires
        first.lays_out(seed),
        second.lays_out(seed),
    ensures
        first.seeds == second.seeds,
        first.height_map == second.height_map,
        first.variant_map == second.variant_map,
        first.blueberry_heights == second.blueberry_heights,
        grown_alike(first.saplings, second.saplings),
        grown_alike(first.bushes, second.bushes),
        grown_alike(first.shrubs, second.shrubs),
        grown_alike(first.trees, second.trees),
{
}

/// A part of the scene that is drawn as one.
#[derive(Clone, Copy, Debug, PartialEq, Eq, Structural)]
pub enum Entity {
    /// The entities of one vegetation category.
    Vegetation(Category),
    /// The carpet of blueberry bushes that follows the ground.
    BlueberryBushes,
    /// The ground itself.
    Ground,
}

/// The parts of a scene in the order in which they are drawn.
pub open spec fn drawn_in_order() -> Seq<Entity> {
    seq![
        Entity::Vegetation(Category::Trees),
        Entity::Vegetation(Category::Saplings),
        Entity::Vegetation(Category::Bushes),
        Entity::Vegetation(Category::Shrubs),
        Entity::BlueberryBushes,
        Entity::Ground,
    ]
}

/// The parts of a scene in the order in which they are drawn: the vegetation
/// from the trees down to the shrubs, then the blueberry bushes, the ground
/// last.
pub fn draw_order() -> (order: Vec<Entity>)
    ensures
        order@ == drawn_in_order(),
{
    let mut order: Vec<Entity> = Vec::new();
    order.push(Entity::Vegetation(Category::Trees));
    order.push(Entity::Vegetation(Category::Saplings));
    order.push(Entity::Vegetation(Category::Bushes));
    order.push(Entity::Vegetation(Category::Shrubs));
    order.push(Entity::BlueberryBushes);
    order.push(Entity::Ground);
    assert(order@ =~= drawn_in_order());
    order
}

} // verus!
