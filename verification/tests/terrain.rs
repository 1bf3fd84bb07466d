use cubix::block::{Block, Rgba, AIR, DIRT, GRASS, SNOW, STONE, WATER};
use cubix::chunk::{Chunk, MAX_CHUNK_SIZE};
use cubix::generation::{
    generate_chunk, generate_flat_chunk, generate_from_heights, layer_block, Terrain, CHUNK_SIZE,
    RELIEF,
};

#[test]
fn flat_chunk_has_three_layers() {
    let chunk = generate_flat_chunk(16, 5).unwrap();
    assert_eq!(chunk.size(), 16);
    for x in 0..16 {
        for z in 0..16 {
            assert_eq!(chunk.get(x, 4, z), GRASS);
            assert_eq!(chunk.get(x, 3, z), DIRT);
            assert_eq!(chunk.get(x, 2, z), DIRT);
            assert_eq!(chunk.get(x, 1, z), STONE);
            assert_eq!(chunk.get(x, 0, z), STONE);
            for y in 5..16 {
                assert_eq!(chunk.get(x, y, z), AIR);
            }
        }
    }
}

#[test]
fn flat_chunk_of_low_height_has_no_stone() {
    let chunk = generate_flat_chunk(4, 2).unwrap();
    assert_eq!(chunk.get(1, 1, 1), GRASS);
    assert_eq!(chunk.get(1, 0, 1), DIRT);
    assert_eq!(chunk.get(1, 2, 1), AIR);
    let empty = generate_flat_chunk(4, 0).unwrap();
    assert_eq!(empty, Chunk::empty(4).unwrap());
}

#[test]
fn flat_chunk_refuses_a_size_above_the_limit() {
    assert!(generate_flat_chunk(MAX_CHUNK_SIZE + 1, 5).is_none());
    assert!(generate_flat_chunk(0, 5).is_some());
}

#[test]
fn generation_is_deterministic() {
    let first = generate_chunk();
    let second = generate_chunk();
    assert_eq!(first, second);
    for x in 0..16 {
        for y in 0..16 {
            for z in 0..16 {
                assert_eq!(first.get(x, y, z), second.get(x, y, z));
            }
        }
    }
}

#[test]
fn reference_chunk_follows_the_relief() {
    let chunk = generate_chunk();
    assert_eq!(chunk.size(), CHUNK_SIZE);
    for x in 0..16 {
        for z in 0..16 {
            let height = 4 + RELIEF[x][z] as usize;
            for y in 0..16 {
                let expected = if y + 1 < height {
                    STONE
                } else if y < height {
                    DIRT
                } else if y == height {
                    if height >= 7 {
                        SNOW
                    } else {
                        GRASS
                    }
                } else {
                    AIR
                };
                assert_eq!(chunk.get(x, y, z), expected);
            }
        }
    }
}

#[test]
fn reference_chunk_columns() {
    let chunk = generate_chunk();
    // The lowest columns are four blocks high.
    assert_eq!(chunk.get(8, 2, 8), STONE);
    assert_eq!(chunk.get(8, 3, 8), DIRT);
    assert_eq!(chunk.get(8, 4, 8), GRASS);
    assert_eq!(chunk.get(8, 5, 8), AIR);
    // The column at the corner rises by one.
    assert_eq!(chunk.get(0, 3, 0), STONE);
    assert_eq!(chunk.get(0, 4, 0), DIRT);
    assert_eq!(chunk.get(0, 5, 0), GRASS);
    assert_eq!(chunk.get(0, 6, 0), AIR);
    // The highest columns reach the snowline.
    assert_eq!(chunk.get(2, 5, 0), STONE);
    assert_eq!(chunk.get(2, 6, 0), DIRT);
    assert_eq!(chunk.get(2, 7, 0), SNOW);
    assert_eq!(chunk.get(2, 8, 0), AIR);
}

#[test]
fn rolling_layers() {
    assert_eq!(layer_block(Terrain::Rolling, 6, 0), STONE);
    assert_eq!(layer_block(Terrain::Rolling, 6, 4), STONE);
    assert_eq!(layer_block(Terrain::Rolling, 6, 5), DIRT);
    assert_eq!(layer_block(Terrain::Rolling, 6, 6), GRASS);
    assert_eq!(layer_block(Terrain::Rolling, 6, 7), AIR);
    assert_eq!(layer_block(Terrain::Rolling, 7, 7), SNOW);
    assert_eq!(layer_block(Terrain::Rolling, 9, 9), SNOW);
}

#[test]
fn rolling_low_columns_stand_in_water() {
    assert_eq!(layer_block(Terrain::Rolling, 1, 0), DIRT);
    assert_eq!(layer_block(Terrain::Rolling, 1, 1), GRASS);
    assert_eq!(layer_block(Terrain::Rolling, 1, 2), WATER);
    assert_eq!(layer_block(Terrain::Rolling, 1, 3), AIR);
    assert_eq!(layer_block(Terrain::Rolling, 0, 0), GRASS);
    assert_eq!(layer_block(Terrain::Rolling, 0, 1), WATER);
    assert_eq!(layer_block(Terrain::Rolling, 0, 2), WATER);
    assert_eq!(layer_block(Terrain::Rolling, 3, 3), GRASS);
    assert_eq!(layer_block(Terrain::Rolling, 3, 4), AIR);
    assert_eq!(layer_block(Terrain::Rolling, 4, 5), AIR);
}

#[test]
fn terraced_layers() {
    assert_eq!(layer_block(Terrain::Terraced, 5, 5), AIR);
    assert_eq!(layer_block(Terrain::Terraced, 5, 4), GRASS);
    assert_eq!(layer_block(Terrain::Terraced, 5, 3), DIRT);
    assert_eq!(layer_block(Terrain::Terraced, 5, 2), DIRT);
    assert_eq!(layer_block(Terrain::Terraced, 5, 1), STONE);
    assert_eq!(layer_block(Terrain::Terraced, 5, 0), STONE);
    assert_eq!(layer_block(Terrain::Terraced, 0, 0), AIR);
}

#[test]
fn terrain_from_heights() {
    // Two by two columns: heights 0, 1 in the row x = 0 and 2, 30 in the row x = 1.
    let heights = vec![0, 1, 2, 30];
    let chunk = generate_from_heights(2, &heights, Terrain::Rolling).unwrap();
    assert_eq!(chunk.get(0, 0, 0), GRASS);
    assert_eq!(chunk.get(0, 1, 0), WATER);
    assert_eq!(chunk.get(0, 0, 1), DIRT);
    assert_eq!(chunk.get(0, 1, 1), GRASS);
    assert_eq!(chunk.get(1, 0, 0), STONE);
    assert_eq!(chunk.get(1, 1, 0), DIRT);
    assert_eq!(chunk.get(1, 0, 1), STONE);
    assert_eq!(chunk.get(1, 1, 1), STONE);
}

#[test]
fn terrain_from_heights_refuses_a_wrong_count() {
    let heights = vec![1, 2, 3];
    assert!(generate_from_heights(2, &heights, Terrain::Rolling).is_none());
    assert!(generate_from_heights(MAX_CHUNK_SIZE + 1, &heights, Terrain::Terraced).is_none());
    let none: Vec<usize> = Vec::new();
    assert!(generate_from_heights(0, &none, Terrain::Terraced).is_some());
}

#[test]
fn empty_chunk_is_air() {
    let chunk = Chunk::empty(3).unwrap();
    assert_eq!(chunk.size(), 3);
    for x in 0..3 {
        for y in 0..3 {
            for z in 0..3 {
                assert_eq!(chunk.get(x, y, z), AIR);
            }
        }
    }
    assert!(Chunk::empty(MAX_CHUNK_SIZE).is_some());
    assert!(Chunk::empty(MAX_CHUNK_SIZE + 1).is_none());
}

#[test]
fn outside_the_chunk_is_air() {
    let chunk = generate_flat_chunk(16, 16).unwrap();
    assert_eq!(chunk.get(15, 15, 15), GRASS);
    assert_eq!(chunk.get(16, 0, 0), AIR);
    assert_eq!(chunk.get(0, 16, 0), AIR);
    assert_eq!(chunk.get(0, 0, 16), AIR);
    assert_eq!(chunk.get(usize::MAX, usize::MAX, usize::MAX), AIR);
}

#[test]
fn set_stores_one_block() {
    let mut chunk = Chunk::empty(4).unwrap();
    assert!(chunk.set(1, 2, 3, STONE));
    assert_eq!(chunk.get(1, 2, 3), STONE);
    assert_eq!(chunk.get(3, 2, 1), AIR);
    assert_eq!(chunk.get(1, 2, 2), AIR);
    assert!(chunk.set(1, 2, 3, AIR));
    assert_eq!(chunk, Chunk::empty(4).unwrap());
}

#[test]
fn set_outside_the_chunk_stores_nothing() {
    let mut chunk = Chunk::empty(4).unwrap();
    assert!(!chunk.set(4, 0, 0, STONE));
    assert!(!chunk.set(0, 4, 0, STONE));
    assert!(!chunk.set(0, 0, 4, STONE));
    assert_eq!(chunk, Chunk::empty(4).unwrap());
}

#[test]
fn only_air_is_not_solid() {
    assert!(!Block::new(AIR).is_solid());
    assert!(Block::new(DIRT).is_solid());
    assert!(Block::new(WATER).is_solid());
    assert!(Block::new(77).is_solid());
    assert_eq!(Block::new(3).id, 3);
}

#[test]
fn palette_colours() {
    assert_eq!(Block::new(AIR).get_color(), Rgba { r: 0, g: 0, b: 0, a: 0 });
    assert_eq!(Block::new(DIRT).get_color(), Rgba { r: 600, g: 300, b: 0, a: 1000 });
    assert_eq!(Block::new(GRASS).get_color(), Rgba { r: 0, g: 700, b: 0, a: 1000 });
    assert_eq!(Block::new(STONE).get_color(), Rgba { r: 500, g: 500, b: 500, a: 1000 });
    assert_eq!(Block::new(SNOW).get_color(), Rgba { r: 900, g: 900, b: 900, a: 1000 });
    assert_eq!(Block::new(WATER).get_color(), Rgba { r: 0, g: 0, b: 800, a: 1000 });
    assert_eq!(Block::new(6).get_color(), Rgba { r: 1000, g: 0, b: 1000, a: 1000 });
}

#[test]
fn the_relief_is_a_sum_of_waves() {
    for x in 0..16 {
        for z in 0..16 {
            let h1 = (x as f32 * 0.5).sin() * 1.5;
            let h2 = (z as f32 * 0.5).cos() * 1.5;
            let h3 = ((x as f32 * 0.7 + z as f32 * 0.3) * 0.4).sin() * 0.5;
            let rise = (h1 + h2 + h3).max(0.0) as usize;
            assert_eq!(RELIEF[x][z] as usize, rise);
        }
    }
}
