use rand::rngs::StdRng;
use rand::Rng;
use rand::SeedableRng;
use undergrowth::points::Event;
use undergrowth::points::PointWalk;
use undergrowth::points::Work;

/// A density that is zero or below on some cells and above elsewhere.
fn density(x: u32, y: u32) -> f32 {
    if (x / 10 + y / 10) % 3 == 0 {
        0.0
    } else if x % 7 == 0 {
        -1.5
    } else {
        ((x * 31 + y * 17) % 40) as f32 / 16.0
    }
}

/// The points as two nested loops over the grid scatter them.
fn nested(seed: u64) -> (Vec<(u32, u32, f32, f32)>, StdRng) {
    let mut rng = StdRng::seed_from_u64(seed);
    let mut points = Vec::new();
    for x in 0..100u32 {
        for y in 0..100u32 {
            let density = density(x, y);
            if density <= 0.0 {
                continue;
            }
            let count = (density + rng.gen::<f32>()).floor() as usize;
            for _ in 0..count {
                points.push((x, y, rng.gen::<f32>(), rng.gen::<f32>()));
            }
        }
    }
    (points, rng)
}

/// The points as the walk has them scattered.
fn walked(seed: u64) -> (Vec<(u32, u32, f32, f32)>, StdRng) {
    let mut rng = StdRng::seed_from_u64(seed);
    let mut points = Vec::new();
    let mut walk = PointWalk::new();
    let mut work = walk.work();
    loop {
        work = match work {
            Work::Measure { x, y } => {
                let density = density(x, y);
                if density <= 0.0 {
                    walk.advance(Event::Empty)
                } else {
                    let count = (density + rng.gen::<f32>()).floor() as usize;
                    walk.advance(Event::Count(count))
                }
            }
            Work::Scatter { x, y } => {
                points.push((x, y, rng.gen::<f32>(), rng.gen::<f32>()));
                walk.advance(Event::Scattered)
            }
            Work::Done => break,
        };
    }
    (points, rng)
}

#[test]
fn the_walk_begins_by_measuring_the_first_cell() {
    let walk = PointWalk::new();
    assert_eq!(walk, PointWalk { step: 0, pending: 0 });
    assert_eq!(walk.work(), Work::Measure { x: 0, y: 0 });
}

#[test]
fn an_empty_cell_gets_no_points() {
    let mut walk = PointWalk::new();
    assert_eq!(walk.advance(Event::Empty), Work::Measure { x: 0, y: 1 });
    assert_eq!(walk, PointWalk { step: 1, pending: 0 });
    assert_eq!(walk.advance(Event::Empty), Work::Measure { x: 0, y: 2 });
}

#[test]
fn a_count_of_zero_gets_no_points() {
    let mut walk = PointWalk::new();
    assert_eq!(walk.advance(Event::Count(0)), Work::Measure { x: 0, y: 1 });
}

#[test]
fn a_counted_cell_gets_its_points() {
    let mut walk = PointWalk { step: 4217, pending: 0 };
    assert_eq!(walk.work(), Work::Measure { x: 42, y: 17 });
    assert_eq!(walk.advance(Event::Count(3)), Work::Scatter { x: 42, y: 17 });
    assert_eq!(walk.advance(Event::Scattered), Work::Scatter { x: 42, y: 17 });
    assert_eq!(walk.advance(Event::Scattered), Work::Scatter { x: 42, y: 17 });
    assert_eq!(walk.advance(Event::Scattered), Work::Measure { x: 42, y: 18 });
    assert_eq!(walk, PointWalk { step: 4218, pending: 0 });
}

#[test]
fn events_out_of_turn_change_nothing() {
    let mut walk = PointWalk::new();
    assert_eq!(walk.advance(Event::Scattered), Work::Measure { x: 0, y: 0 });
    assert_eq!(walk, PointWalk::new());
    walk.advance(Event::Count(2));
    assert_eq!(walk.advance(Event::Empty), Work::Scatter { x: 0, y: 0 });
    assert_eq!(walk.advance(Event::Count(9)), Work::Scatter { x: 0, y: 0 });
    assert_eq!(walk, PointWalk { step: 0, pending: 2 });
}

#[test]
fn the_walk_ends_after_the_last_cell() {
    let mut walk = PointWalk { step: 9_999, pending: 0 };
    assert_eq!(walk.work(), Work::Measure { x: 99, y: 99 });
    assert_eq!(walk.advance(Event::Count(1)), Work::Scatter { x: 99, y: 99 });
    assert_eq!(walk.advance(Event::Scattered), Work::Done);
    assert_eq!(walk.advance(Event::Empty), Work::Done);
    assert_eq!(walk.advance(Event::Count(5)), Work::Done);
    assert_eq!(walk.advance(Event::Scattered), Work::Done);
    assert_eq!(walk, PointWalk { step: 10_000, pending: 0 });
}

#[test]
fn a_walk_over_empty_cells_measures_each_once() {
    let mut walk = PointWalk::new();
    let mut measured = 0;
    while let Work::Measure { x, y } = walk.work() {
        assert_eq!(x * 100 + y, measured);
        walk.advance(Event::Empty);
        measured += 1;
    }
    assert_eq!(measured, 10_000);
    assert_eq!(walk.work(), Work::Done);
}

#[test]
fn the_walk_scatters_as_the_nested_loops_do() {
    for seed in [0u64, 13, 0xDEAD_BEEF] {
        let (expected, mut expected_rng) = nested(seed);
        let (points, mut rng) = walked(seed);
        assert!(!points.is_empty());
        assert_eq!(points, expected);
        assert_eq!(rng.gen::<u64>(), expected_rng.gen::<u64>());
    }
}

#[test]
fn no_point_falls_in_a_cell_without_density() {
    let (points, _) = walked(7);
    for (x, y, _, _) in points {
        assert!(density(x, y) > 0.0);
    }
}

#[test]
fn the_same_seed_scatters_the_same_points() {
    assert_eq!(walked(5).0, walked(5).0);
    assert_ne!(walked(5).0, walked(6).0);
}
