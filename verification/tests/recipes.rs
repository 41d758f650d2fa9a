use rand::rngs::StdRng;
use rand::Rng;
use rand::SeedableRng;
use undergrowth::assets::Channel;
use undergrowth::field::Basis;
use undergrowth::field::Field;
use undergrowth::field::Ratio;
use undergrowth::foliage::probability_distribution;
use undergrowth::foliage::rotation_range;
use undergrowth::foliage::Bounds;
use undergrowth::foliage::Interval;
use undergrowth::foliage::ShrubEntitiesBuilder;
use undergrowth::scene::draw_order;
use undergrowth::scene::Category;
use undergrowth::scene::Entity;
use undergrowth::scene::Scene;
use undergrowth::scene::SceneSeeds;
use undergrowth::scene::BACKGROUND_COLOR;
use undergrowth::scene::SCENE_SIZE;
use undergrowth::scene::TERRAIN_RESOLUTION;
use undergrowth::scene::TREE_LIMIT;
use undergrowth::terrain::bush_heights;
use undergrowth::terrain::height_map;
use undergrowth::terrain::height_seeds;
use undergrowth::terrain::rock_seeds;
use undergrowth::terrain::variant_map;
use undergrowth::terrain::RockMap;

fn ratio(num: i64, den: u64) -> Ratio {
    Ratio { num, den }
}

fn fbm(basis: Basis, seed: u32, octaves: usize, frequency: Ratio) -> Field {
    Field::Fbm { basis, seed, octaves, frequency, lacunarity: None, persistence: None }
}

fn scale_bias(source: Field, scale: Ratio, bias: Ratio) -> Field {
    Field::ScaleBias { source: Box::new(source), scale, bias }
}

fn squared(source: Field) -> Field {
    Field::Power(Box::new(source), Box::new(Field::Constant(ratio(2, 1))))
}

fn density(density: Ratio, seed: u32) -> Field {
    scale_bias(
        scale_bias(fbm(Basis::Perlin, seed, 4, ratio(1, 5)), ratio(1, 2), ratio(1, 2)),
        density,
        ratio(0, 1),
    )
}

fn bushiness(channel: Channel) -> Field {
    scale_bias(squared(Field::Image(channel)), ratio(2, 1), ratio(1, 10))
}

#[test]
fn ratios_are_made_as_written() {
    assert_eq!(Ratio::whole(-3), ratio(-3, 1));
    assert_eq!(Ratio::new(157, 25), ratio(157, 25));
    assert_eq!(Ratio::new(-1, 2), ratio(-1, 2));
}

#[test]
fn combinators_wrap_their_sources() {
    let leaf = || Field::Image(Channel::Red);
    let other = || Field::Constant(ratio(7, 1));
    assert_eq!(
        leaf().scale_bias(ratio(2, 1), ratio(1, 3)),
        Field::ScaleBias { source: Box::new(leaf()), scale: ratio(2, 1), bias: ratio(1, 3) }
    );
    assert_eq!(leaf().plus(other()), Field::Add(Box::new(leaf()), Box::new(other())));
    assert_eq!(leaf().times(other()), Field::Multiply(Box::new(leaf()), Box::new(other())));
    assert_eq!(leaf().power(ratio(7, 1)), Field::Power(Box::new(leaf()), Box::new(other())));
    assert_eq!(leaf().min(ratio(7, 1)), Field::Min(Box::new(leaf()), Box::new(other())));
    assert_eq!(leaf().max(ratio(7, 1)), Field::Max(Box::new(leaf()), Box::new(other())));
    assert_eq!(
        leaf().clamp(ratio(0, 1), ratio(1, 1)),
        Field::Clamp { source: Box::new(leaf()), lower: ratio(0, 1), upper: ratio(1, 1) }
    );
    assert_ne!(leaf().plus(other()), other().plus(leaf()));
}

#[test]
fn the_density_field_spans_zero_to_the_density() {
    assert_eq!(probability_distribution(ratio(50, 1), 9), density(ratio(50, 1), 9));
    assert_eq!(probability_distribution(ratio(1, 4), 0), density(ratio(1, 4), 0));
    assert_ne!(probability_distribution(ratio(50, 1), 9), density(ratio(50, 1), 10));
}

#[test]
fn the_variant_map_recipe() {
    let noise = scale_bias(fbm(Basis::Value, 5, 6, ratio(1, 5)), ratio(1, 2), ratio(1, 2));
    let channel = scale_bias(squared(Field::Image(Channel::Green)), ratio(3, 10), ratio(0, 1));
    let total = Field::Clamp {
        source: Box::new(Field::Add(Box::new(channel), Box::new(noise))),
        lower: ratio(0, 1),
        upper: ratio(1, 1),
    };
    assert_eq!(variant_map(5), squared(total));
}

#[test]
fn the_bush_height_recipe() {
    let unit = scale_bias(fbm(Basis::Value, 8, 6, ratio(4, 5)), ratio(1, 2), ratio(1, 2));
    assert_eq!(bush_heights(8), scale_bias(unit, ratio(2, 25), ratio(1, 50)));
}

#[test]
fn the_height_map_recipe() {
    let seeds = height_seeds(3);
    let rocks = scale_bias(
        Field::Fbm {
            basis: Basis::Rocks,
            seed: seeds.rocks,
            octaves: 3,
            frequency: ratio(4, 5),
            lacunarity: Some(ratio(3, 1)),
            persistence: Some(ratio(3, 10)),
        },
        ratio(4, 5),
        ratio(0, 1),
    );
    let height = scale_bias(fbm(Basis::Value, seeds.height, 6, ratio(1, 5)), ratio(3, 10), ratio(3, 10));
    let base = scale_bias(squared(Field::Image(Channel::Red)), ratio(2, 1), ratio(0, 1));
    assert_eq!(
        height_map(3),
        Field::Add(Box::new(base), Box::new(Field::Add(Box::new(rocks), Box::new(height))))
    );
    assert_ne!(seeds.rocks, seeds.height);
}

#[test]
fn the_rock_map_recipe() {
    let seeds = rock_seeds(11);
    let rockyness = scale_bias(fbm(Basis::Value, seeds.rockyness, 4, ratio(1, 2)), ratio(1, 1), ratio(-1, 2));
    let rockyness = Field::Max(Box::new(rockyness), Box::new(Field::Constant(ratio(0, 1))));
    let rockyness = scale_bias(rockyness, ratio(3, 1), ratio(0, 1));
    let rockyness = Field::Min(Box::new(rockyness), Box::new(Field::Constant(ratio(1, 1))));
    let ridges = Field::Ridges { seed: seeds.ridges, frequency: ratio(1, 1) };
    let rocks = scale_bias(
        Field::Multiply(Box::new(rockyness), Box::new(ridges)),
        ratio(1, 5),
        ratio(0, 1),
    );
    let map = RockMap::new(11);
    assert_eq!(map.field, rocks);
    assert_eq!(map.seed(), 11);
}

#[test]
fn rock_maps_are_known_by_their_seed() {
    assert_eq!(RockMap::default(), RockMap::new(0));
    assert_eq!(RockMap::default().seed(), 0);
    assert_eq!(RockMap::new(4).set_seed(9), RockMap::new(9));
    assert_ne!(RockMap::new(4), RockMap::new(9));
}

#[test]
fn an_unset_builder() {
    let whole = ratio(SCENE_SIZE as i64, 1);
    assert_eq!(
        ShrubEntitiesBuilder::new(),
        ShrubEntitiesBuilder {
            density: ratio(0, 1),
            num_limit: usize::MAX,
            bounds: Bounds { x_min: ratio(0, 1), x_max: whole, y_min: ratio(0, 1), y_max: whole },
            z_scale_range: Interval { min: ratio(1, 1), max: ratio(1, 1) },
            scale_range: Interval { min: ratio(1, 1), max: ratio(1, 1) },
            bushiness: None,
        }
    );
}

#[test]
fn a_builder_takes_what_it_is_given() {
    let builder = ShrubEntitiesBuilder::new()
        .with_density(ratio(5, 2))
        .with_entitiy_limit(7)
        .with_bounds(ratio(1, 1), ratio(2, 1), ratio(3, 1), ratio(4, 1))
        .with_bushiness(Channel::Blue)
        .with_z_scale_range(ratio(1, 2), ratio(3, 2))
        .with_scale_range(ratio(2, 1), ratio(3, 1));
    assert_eq!(builder.density, ratio(5, 2));
    assert_eq!(builder.num_limit, 7);
    assert_eq!(
        builder.bounds,
        Bounds { x_min: ratio(1, 1), x_max: ratio(2, 1), y_min: ratio(3, 1), y_max: ratio(4, 1) }
    );
    assert_eq!(builder.bushiness, Some(Channel::Blue));
    assert_eq!(builder.z_scale_range, Interval { min: ratio(1, 2), max: ratio(3, 2) });
    assert_eq!(builder.scale_range, Interval { min: ratio(2, 1), max: ratio(3, 1) });
}

#[test]
fn a_category_grows_from_density_and_guide_channel() {
    let mut rng = StdRng::seed_from_u64(31);
    let distribution: u32 = rng.gen();

    let plain = ShrubEntitiesBuilder::new().with_density(ratio(30, 1)).load(31);
    assert_eq!(plain.density, density(ratio(30, 1), distribution));

    let guided = ShrubEntitiesBuilder::new()
        .with_density(ratio(30, 1))
        .with_bushiness(Channel::Green)
        .load(31);
    assert_eq!(
        guided.density,
        Field::Multiply(
            Box::new(density(ratio(30, 1), distribution)),
            Box::new(bushiness(Channel::Green))
        )
    );
    assert_eq!(guided.points_seed, plain.points_seed);
}

#[test]
fn the_categories() {
    let saplings = Category::Saplings.builder();
    assert_eq!(saplings.density, ratio(50, 1));
    assert_eq!(saplings.num_limit, usize::MAX);
    assert_eq!(saplings.bushiness, Some(Channel::Green));
    assert_eq!(saplings.z_scale_range, Interval { min: ratio(2, 5), max: ratio(6, 5) });
    assert_eq!(saplings.scale_range, Interval { min: ratio(1, 1), max: ratio(1, 1) });
    assert_eq!(saplings.bounds, ShrubEntitiesBuilder::new().bounds);

    let bushes = Category::Bushes.builder();
    assert_eq!(bushes.density, ratio(30, 1));
    assert_eq!(bushes.bushiness, None);
    assert_eq!(bushes.z_scale_range, Interval { min: ratio(9, 10), max: ratio(1, 1) });

    let shrubs = Category::Shrubs.builder();
    assert_eq!(shrubs.density, ratio(5, 1));
    assert_eq!(shrubs.bushiness, Some(Channel::Green));
    assert_eq!(shrubs.z_scale_range, Interval { min: ratio(7, 10), max: ratio(1, 1) });
    assert_eq!(shrubs.scale_range, Interval { min: ratio(3, 2), max: ratio(3, 1) });

    let trees = Category::Trees.builder();
    assert_eq!(trees.density, ratio(1, 1));
    assert_eq!(trees.num_limit, 60);
    assert_eq!(TREE_LIMIT, 60);
    assert_eq!(trees.bushiness, Some(Channel::Blue));
    assert_eq!(trees.scale_range, Interval { min: ratio(1, 2), max: ratio(1, 1) });
    assert_eq!(
        trees.bounds,
        Bounds { x_min: ratio(0, 1), x_max: ratio(45, 2), y_min: ratio(0, 1), y_max: ratio(45, 2) }
    );
}

#[test]
fn each_category_has_its_seed() {
    let seeds = SceneSeeds::derive(13);
    assert_eq!(Category::Saplings.seed(&seeds), seeds.saplings);
    assert_eq!(Category::Bushes.seed(&seeds), seeds.bushes);
    assert_eq!(Category::Shrubs.seed(&seeds), seeds.shrubs);
    assert_eq!(Category::Trees.seed(&seeds), seeds.trees);
}

#[test]
fn a_scene_is_laid_out_from_its_seed() {
    let scene = Scene::create(13);
    let seeds = SceneSeeds::derive(13);
    assert_eq!(scene.seeds, seeds);
    assert_eq!(scene.height_map, height_map(seeds.height_map));
    assert_eq!(scene.variant_map, variant_map(seeds.variant_map));
    assert_eq!(
        scene.blueberry_heights,
        Field::Add(
            Box::new(height_map(seeds.height_map)),
            Box::new(bush_heights(seeds.bush_heights))
        )
    );
    let saplings = Category::Saplings.builder().load(seeds.saplings);
    assert_eq!(scene.saplings.density, saplings.density);
    assert_eq!(scene.saplings.points_seed, saplings.points_seed);
    let bushes = Category::Bushes.builder().load(seeds.bushes);
    assert_eq!(scene.bushes.density, bushes.density);
    assert_eq!(scene.bushes.points_seed, bushes.points_seed);
    let shrubs = Category::Shrubs.builder().load(seeds.shrubs);
    assert_eq!(scene.shrubs.density, shrubs.density);
    assert_eq!(scene.shrubs.points_seed, shrubs.points_seed);
    let mut trees = Category::Trees.builder().load(seeds.trees);
    let mut scene_trees = scene.trees;
    assert_eq!(scene_trees.density, trees.density);
    assert_eq!(scene_trees.points_seed, trees.points_seed);
    assert_eq!(scene_trees.rng.gen::<u64>(), trees.rng.gen::<u64>());
}

#[test]
fn the_same_seed_lays_out_the_same_scene() {
    let first = Scene::create(2024);
    let second = Scene::create(2024);
    assert_eq!(first.seeds, second.seeds);
    assert_eq!(first.height_map, second.height_map);
    assert_eq!(first.variant_map, second.variant_map);
    assert_eq!(first.blueberry_heights, second.blueberry_heights);
    assert_eq!(first.trees.density, second.trees.density);
    assert_eq!(first.trees.points_seed, second.trees.points_seed);
    assert_eq!(first.saplings.points_seed, second.saplings.points_seed);

    let other = Scene::create(2025);
    assert_ne!(first.seeds, other.seeds);
    assert_ne!(first.height_map, other.height_map);
    assert_ne!(first.trees.points_seed, other.trees.points_seed);
}

#[test]
fn the_parts_are_drawn_in_a_fixed_order() {
    assert_eq!(
        draw_order(),
        vec![
            Entity::Vegetation(Category::Trees),
            Entity::Vegetation(Category::Saplings),
            Entity::Vegetation(Category::Bushes),
            Entity::Vegetation(Category::Shrubs),
            Entity::BlueberryBushes,
            Entity::Ground,
        ]
    );
}

#[test]
fn scene_constants() {
    assert_eq!(SCENE_SIZE, 15);
    assert_eq!(TERRAIN_RESOLUTION, 256);
    assert_eq!(BACKGROUND_COLOR, (186, 219, 222, 255));
    assert_eq!(
        rotation_range(),
        Interval { min: ratio(0, 1), max: ratio(157, 25) }
    );
    assert_eq!(157.0f32 / 25.0, 6.28f32);
}
