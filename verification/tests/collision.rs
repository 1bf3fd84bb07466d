use cubix::block::STONE;
use cubix::chunk::Chunk;
use cubix::fixed::Vec3;
use cubix::generation::generate_flat_chunk;
use cubix::world::World;

const RADIUS: u32 = 300;
const HEIGHT: u32 = 1800;

fn flat_world() -> World {
    World::from_chunk(generate_flat_chunk(16, 5).unwrap())
}

/// Flat ground of height five with a wall, two blocks high, along x = 10.
fn walled_world() -> World {
    let mut chunk = generate_flat_chunk(16, 5).unwrap();
    for z in 0..16 {
        assert!(chunk.set(10, 5, z, STONE));
        assert!(chunk.set(10, 6, z, STONE));
    }
    World::from_chunk(chunk)
}

/// Nothing but one block at (10, 5, 10).
fn pillar_world() -> World {
    let mut chunk = Chunk::empty(16).unwrap();
    assert!(chunk.set(10, 5, 10, STONE));
    World::from_chunk(chunk)
}

#[test]
fn standing_on_the_surface_is_no_collision() {
    let world = flat_world();
    assert!(!world.check_collision(&Vec3::new(8000, 5000, 8000), RADIUS, HEIGHT));
    assert!(!world.check_collision(&Vec3::new(8000, 5001, 8000), RADIUS, HEIGHT));
}

#[test]
fn feet_below_the_surface_collide() {
    let world = flat_world();
    assert!(world.check_collision(&Vec3::new(8000, 4999, 8000), RADIUS, HEIGHT));
    assert!(world.check_collision(&Vec3::new(8000, 0, 8000), RADIUS, HEIGHT));
    assert!(world.check_collision(&Vec3::new(8000, -1799, 8000), RADIUS, HEIGHT));
}

#[test]
fn capsule_outside_the_grid_is_free() {
    let world = flat_world();
    // Below the floor of the chunk, the top of the capsule touching it.
    assert!(!world.check_collision(&Vec3::new(8000, -1800, 8000), RADIUS, HEIGHT));
    // Beside the chunk, a radius away or more.
    assert!(!world.check_collision(&Vec3::new(-300, 2000, 8000), RADIUS, HEIGHT));
    assert!(!world.check_collision(&Vec3::new(16300, 2000, 8000), RADIUS, HEIGHT));
    assert!(!world.check_collision(&Vec3::new(8000, 2000, -300), RADIUS, HEIGHT));
    assert!(!world.check_collision(&Vec3::new(8000, 2000, 16300), RADIUS, HEIGHT));
    // Above it.
    assert!(!world.check_collision(&Vec3::new(8000, 16000, 8000), RADIUS, HEIGHT));
    assert!(!world.check_collision(&Vec3::new(8000, 900000, 8000), RADIUS, HEIGHT));
}

#[test]
fn capsule_that_reaches_into_the_grid_collides() {
    let world = flat_world();
    assert!(world.check_collision(&Vec3::new(-299, 2000, 8000), RADIUS, HEIGHT));
    assert!(world.check_collision(&Vec3::new(16299, 2000, 8000), RADIUS, HEIGHT));
    assert!(world.check_collision(&Vec3::new(8000, 2000, -299), RADIUS, HEIGHT));
}

#[test]
fn extreme_positions_are_free() {
    let world = flat_world();
    for &c in &[i64::MIN, i64::MIN + 1, i64::MAX - 1, i64::MAX] {
        assert!(!world.check_collision(&Vec3::new(c, c, c), RADIUS, HEIGHT));
        assert!(!world.check_collision(&Vec3::new(c, c, c), u32::MAX, u32::MAX));
        assert!(!world.check_collision(&Vec3::new(c, 2000, 8000), RADIUS, HEIGHT));
        assert!(!world.check_collision(&Vec3::new(8000, 2000, c), RADIUS, HEIGHT));
    }
    assert!(!world.check_collision(&Vec3::new(8000, i64::MAX, 8000), RADIUS, HEIGHT));
    assert!(!world.check_collision(&Vec3::new(8000, i64::MIN, 8000), RADIUS, HEIGHT));
    // Just outside the corner of the chunk the capsule reaches in.
    assert!(world.check_collision(&Vec3::new(-1, -1, -1), RADIUS, HEIGHT));
}

#[test]
fn empty_world_has_no_collisions() {
    let world = World::from_chunk(Chunk::empty(16).unwrap());
    assert!(!world.check_collision(&Vec3::new(8000, 2000, 8000), RADIUS, HEIGHT));
    let nothing = World::from_chunk(Chunk::empty(0).unwrap());
    assert!(!nothing.check_collision(&Vec3::new(0, 0, 0), RADIUS, HEIGHT));
}

#[test]
fn a_wall_is_hit_within_the_radius() {
    let world = walled_world();
    // The wall begins at x = 10000.
    assert!(!world.check_collision(&Vec3::new(9600, 5000, 8500), RADIUS, HEIGHT));
    assert!(!world.check_collision(&Vec3::new(9700, 5000, 8500), RADIUS, HEIGHT));
    assert!(world.check_collision(&Vec3::new(9701, 5000, 8500), RADIUS, HEIGHT));
    assert!(world.check_collision(&Vec3::new(10500, 5000, 8500), RADIUS, HEIGHT));
    // And ends at x = 11000.
    assert!(world.check_collision(&Vec3::new(11299, 5000, 8500), RADIUS, HEIGHT));
    assert!(!world.check_collision(&Vec3::new(11300, 5000, 8500), RADIUS, HEIGHT));
}

#[test]
fn a_corner_is_hit_by_the_distance_to_the_footprint() {
    let world = pillar_world();
    // 200 away along both axes: 200² + 200² < 300².
    assert!(world.check_collision(&Vec3::new(9800, 5000, 9800), RADIUS, HEIGHT));
    // 220 away along both: 220² + 220² > 300².
    assert!(!world.check_collision(&Vec3::new(9780, 5000, 9780), RADIUS, HEIGHT));
    assert!(world.check_collision(&Vec3::new(11200, 5000, 11200), RADIUS, HEIGHT));
    assert!(!world.check_collision(&Vec3::new(11220, 5000, 11220), RADIUS, HEIGHT));
    // Straight beside the block the whole radius counts.
    assert!(world.check_collision(&Vec3::new(9701, 5000, 10500), RADIUS, HEIGHT));
    assert!(!world.check_collision(&Vec3::new(9700, 5000, 10500), RADIUS, HEIGHT));
}

#[test]
fn the_whole_height_of_the_capsule_is_tested() {
    let world = pillar_world();
    // The block spans 5000 to 6000; the capsule is 1800 high.
    assert!(!world.check_collision(&Vec3::new(10500, 6000, 10500), RADIUS, HEIGHT));
    assert!(world.check_collision(&Vec3::new(10500, 5999, 10500), RADIUS, HEIGHT));
    assert!(world.check_collision(&Vec3::new(10500, 3201, 10500), RADIUS, HEIGHT));
    assert!(!world.check_collision(&Vec3::new(10500, 3200, 10500), RADIUS, HEIGHT));
    // The head reaches two layers above the layer of the feet.
    assert!(world.check_collision(&Vec3::new(10500, 3500, 10500), RADIUS, HEIGHT));
    // A capsule much higher than the chunk still finds the block.
    assert!(world.check_collision(&Vec3::new(10500, -50000, 10500), RADIUS, 60000));
}

#[test]
fn a_capsule_without_radius_hits_nothing() {
    let world = flat_world();
    assert!(!world.check_collision(&Vec3::new(8000, 2000, 8000), 0, HEIGHT));
    assert!(world.check_collision(&Vec3::new(8000, 2000, 8000), 1, HEIGHT));
}

#[test]
fn a_wide_capsule_reaches_far() {
    let world = pillar_world();
    assert!(world.check_collision(&Vec3::new(2000, 5500, 10500), 8001, HEIGHT));
    assert!(!world.check_collision(&Vec3::new(2000, 5500, 10500), 8000, HEIGHT));
}

#[test]
fn block_collision_alone() {
    let world = World::from_chunk(Chunk::empty(16).unwrap());
    let feet = Vec3::new(9800, 5000, 9800);
    // The test ignores what the block holds.
    assert!(world.check_block_collision(&feet, 10, 5, 10, RADIUS, HEIGHT));
    assert!(world.check_block_collision(&feet, 10, 6, 10, RADIUS, HEIGHT));
    assert!(!world.check_block_collision(&feet, 10, 7, 10, RADIUS, HEIGHT));
    assert!(!world.check_block_collision(&feet, 10, 4, 10, RADIUS, HEIGHT));
    assert!(!world.check_block_collision(&feet, 11, 5, 10, RADIUS, HEIGHT));
    assert!(world.check_block_collision(&feet, 9, 5, 9, RADIUS, HEIGHT));
}

#[test]
fn a_free_target_is_accepted() {
    let world = walled_world();
    let current = Vec3::new(8000, 6800, 8000);
    let target = Vec3::new(9000, 7300, 8500);
    assert_eq!(world.resolve_collision(current, target, RADIUS, HEIGHT), target);
    // Also from inside a block.
    let buried = Vec3::new(8000, 3000, 8000);
    assert_eq!(world.resolve_collision(buried, target, RADIUS, HEIGHT), target);
}

#[test]
fn a_fall_onto_the_ground_is_stopped() {
    let world = flat_world();
    let current = Vec3::new(8000, 6900, 8000);
    let target = Vec3::new(8000, 6700, 8000);
    assert_eq!(world.resolve_collision(current, target, RADIUS, HEIGHT), current);
}

#[test]
fn a_blocked_move_slides_along_the_wall() {
    let world = walled_world();
    let current = Vec3::new(9000, 6800, 8000);
    let target = Vec3::new(9900, 6800, 8500);
    let end = world.resolve_collision(current, target, RADIUS, HEIGHT);
    assert_eq!(end, Vec3::new(9000, 6800, 8500));
    assert!(!world.check_collision(&Vec3::new(end.x, end.y - 1800, end.z), RADIUS, HEIGHT));
}

#[test]
fn a_blocked_move_slides_along_the_ground() {
    let world = flat_world();
    let current = Vec3::new(8000, 6800, 8000);
    let target = Vec3::new(8100, 6700, 7900);
    assert_eq!(
        world.resolve_collision(current, target, RADIUS, HEIGHT),
        Vec3::new(8100, 6800, 7900)
    );
}

#[test]
fn sliding_tries_x_before_z() {
    let world = pillar_world();
    // Diagonally towards the corner of the pillar at (10000, 10000).
    let current = Vec3::new(9600, 6800, 9600);
    let target = Vec3::new(9900, 6800, 9900);
    // x alone is free (the pillar is 400 away along z), then z is blocked.
    assert_eq!(
        world.resolve_collision(current, target, RADIUS, HEIGHT),
        Vec3::new(9900, 6800, 9600)
    );
}

#[test]
fn a_player_inside_a_block_may_stay_there() {
    let world = flat_world();
    let current = Vec3::new(8000, 4000, 8000);
    let target = Vec3::new(8100, 3900, 8100);
    assert_eq!(world.resolve_collision(current, target, RADIUS, HEIGHT), current);
}

#[test]
fn resolving_at_the_ends_of_the_range() {
    let world = flat_world();
    let low = Vec3::new(8000, i64::MIN, 8000);
    let high = Vec3::new(8000, i64::MAX, 8000);
    assert_eq!(world.resolve_collision(high, low, RADIUS, HEIGHT), low);
    assert_eq!(world.resolve_collision(low, high, u32::MAX, u32::MAX), high);
}

#[test]
fn the_reference_world_is_solid_below_the_player() {
    let world = World::new();
    assert_eq!(world.chunk_data.size(), 16);
    // The column (8, 8) is filled up to and with y = 4.
    assert!(!world.check_collision(&Vec3::new(8500, 5000, 8500), 200, HEIGHT));
    assert!(world.check_collision(&Vec3::new(8500, 4999, 8500), 200, HEIGHT));
}

/// The overlap test as it reads in floating point, or `None` where the
/// capsule comes so close to touching that rounding could decide.
fn overlap_in_floats(feet: [f64; 3], block: [usize; 3], radius: f64, height: f64) -> Option<bool> {
    let near = |a: f64, b: f64| (a - b).abs() < 1e-9;
    let min = [block[0] as f64, block[1] as f64, block[2] as f64];
    let max = [min[0] + 1.0, min[1] + 1.0, min[2] + 1.0];
    let top = feet[1] + height;
    if near(top, min[1]) || near(feet[1], max[1]) {
        return None;
    }
    if top <= min[1] || feet[1] >= max[1] {
        return Some(false);
    }
    let dx = feet[0].max(min[0]).min(max[0]) - feet[0];
    let dz = feet[2].max(min[2]).min(max[2]) - feet[2];
    let distance_squared = dx * dx + dz * dz;
    if near(distance_squared, radius * radius) {
        return None;
    }
    Some(distance_squared < radius * radius)
}

fn collision_in_floats(world: &World, feet: [f64; 3], radius: f64, height: f64) -> Option<bool> {
    let size = world.chunk_data.size();
    let mut unsure = false;
    for x in 0..size {
        for y in 0..size {
            for z in 0..size {
                if world.chunk_data.get(x, y, z) != 0 {
                    match overlap_in_floats(feet, [x, y, z], radius, height) {
                        Some(true) => return Some(true),
                        Some(false) => {}
                        None => unsure = true,
                    }
                }
            }
        }
    }
    if unsure {
        None
    } else {
        Some(false)
    }
}

#[test]
fn collisions_agree_with_the_test_in_floating_point() {
    let world = World::new();
    let mut compared = 0;
    let mut hits = 0;
    for x in (-1500..17500).step_by(977) {
        for y in (-2500..9500).step_by(613) {
            for z in (-1500..17500).step_by(1103) {
                let feet = [x as f64 / 1000.0, y as f64 / 1000.0, z as f64 / 1000.0];
                for &(radius, height) in &[(300u32, 1800u32), (1250, 100), (40, 3300)] {
                    let expected = collision_in_floats(
                        &world,
                        feet,
                        radius as f64 / 1000.0,
                        height as f64 / 1000.0,
                    );
                    if let Some(expected) = expected {
                        let hit = world.check_collision(&Vec3::new(x, y, z), radius, height);
                        assert_eq!(hit, expected, "feet {:?}, {} by {}", feet, radius, height);
                        compared += 1;
                        if hit {
                            hits += 1;
                        }
                    }
                }
            }
        }
    }
    assert!(compared > 10000);
    assert!(hits > 1000 && hits < compared - 1000);
}
