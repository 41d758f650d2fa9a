use rand::rngs::SmallRng;
use rand::rngs::StdRng;
use rand::Rng;
use rand::SeedableRng;
use undergrowth::foliage::ShrubEntitiesBuilder;
use undergrowth::renderer::next_seed;
use undergrowth::renderer::prev_seed;
use undergrowth::renderer::FIRST_SEED;
use undergrowth::rng::sub_seeds;
use undergrowth::scene::SceneSeeds;
use undergrowth::terrain::height_seeds;
use undergrowth::terrain::rock_seeds;

fn small_draws(seed: u32, count: usize) -> Vec<u32> {
    let mut rng = SmallRng::seed_from_u64(seed as u64);
    (0..count).map(|_| rng.gen()).collect()
}

#[test]
fn sub_seeds_are_the_small_generators_first_values() {
    for seed in [0u32, 1, 13, 4711, u32::MAX] {
        assert_eq!(sub_seeds(seed, 5), small_draws(seed, 5));
    }
}

#[test]
fn sub_seeds_differ_from_their_seed() {
    let drawn = sub_seeds(13, 3);
    assert_eq!(drawn.len(), 3);
    assert_ne!(drawn, vec![13, 13, 13]);
    assert_ne!(drawn[0], drawn[1]);
}

#[test]
fn no_sub_seeds_for_a_count_of_zero() {
    assert_eq!(sub_seeds(13, 0), Vec::<u32>::new());
}

#[test]
fn a_longer_run_of_sub_seeds_starts_with_the_shorter() {
    let short = sub_seeds(99, 2);
    let long = sub_seeds(99, 7);
    assert_eq!(&long[..2], &short[..]);
}

#[test]
fn scene_seeds_come_in_a_fixed_order() {
    let drawn = small_draws(13, 7);
    let seeds = SceneSeeds::derive(13);
    assert_eq!(seeds.height_map, drawn[0]);
    assert_eq!(seeds.variant_map, drawn[1]);
    assert_eq!(seeds.bush_heights, drawn[2]);
    assert_eq!(seeds.saplings, drawn[3]);
    assert_eq!(seeds.bushes, drawn[4]);
    assert_eq!(seeds.shrubs, drawn[5]);
    assert_eq!(seeds.trees, drawn[6]);
}

#[test]
fn scene_seeds_are_the_same_for_the_same_seed() {
    for seed in [0u32, 13, 14, u32::MAX] {
        assert_eq!(SceneSeeds::derive(seed), SceneSeeds::derive(seed));
    }
    assert_ne!(SceneSeeds::derive(13), SceneSeeds::derive(14));
}

#[test]
fn terrain_seeds_come_in_a_fixed_order() {
    let drawn = small_draws(77, 2);
    let height = height_seeds(77);
    assert_eq!((height.rocks, height.height), (drawn[0], drawn[1]));
    let rocks = rock_seeds(77);
    assert_eq!((rocks.rockyness, rocks.ridges), (drawn[0], drawn[1]));
}

#[test]
fn placement_seeds_are_the_standard_generators_first_values() {
    for seed in [0u32, 5, 13, u32::MAX] {
        let mut rng = StdRng::seed_from_u64(seed as u64);
        let distribution: u32 = rng.gen();
        let points: u64 = rng.gen();
        let mut placement = ShrubEntitiesBuilder::new().load(seed);
        assert_eq!(placement.points_seed, points);
        assert_eq!(
            placement.density,
            undergrowth::foliage::probability_distribution(
                undergrowth::field::Ratio::whole(0),
                distribution
            )
        );
        // The generator goes on where the draws left it.
        assert_eq!(placement.rng.gen::<u64>(), rng.gen::<u64>());
    }
}

#[test]
fn placement_is_the_same_for_the_same_seed() {
    let mut first = ShrubEntitiesBuilder::new().load(21);
    let mut second = ShrubEntitiesBuilder::new().load(21);
    assert_eq!(first.points_seed, second.points_seed);
    assert_eq!(first.density, second.density);
    assert_eq!(first.rng.gen::<u32>(), second.rng.gen::<u32>());
    let other = ShrubEntitiesBuilder::new().load(22);
    assert_ne!(first.points_seed, other.points_seed);
}

#[test]
fn seeds_step_forward_and_back() {
    assert_eq!(FIRST_SEED, 13);
    assert_eq!(next_seed(13), 14);
    assert_eq!(prev_seed(13), 12);
    assert_eq!(next_seed(u32::MAX), 0);
    assert_eq!(prev_seed(0), u32::MAX);
    for seed in [0u32, 1, 13, u32::MAX] {
        assert_eq!(prev_seed(next_seed(seed)), seed);
        assert_eq!(next_seed(prev_seed(seed)), seed);
    }
}
