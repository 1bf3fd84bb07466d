//! Deterministic terrain generation.
//!
//! A chunk is filled column by column. Each column `(x, z)` has a height,
//! and a layering policy says which block lies at each `y` of a column of
//! that height. The reference terrain is rolling: its heights come from a
//! fixed relief, a smooth sum of waves over the sixteen by sixteen columns
//! that was rounded down once and is kept as a table.

use vstd::prelude::*;
use crate::block::{AIR, DIRT, GRASS, SNOW, STONE, WATER};
use crate::chunk::{in_grid, Chunk, MAX_CHUNK_SIZE};

verus! {

/// The edge length of the reference chunk.
pub const CHUNK_SIZE: usize = 16;

/// The height of the lowest column of the rolling terrain.
pub const BASE_HEIGHT: usize = 4;

/// Columns at least this high are covered with snow instead of grass.
pub const SNOWLINE: usize = 7;

/// The level up to which water fills the air over a low column.
pub const LAKE_LEVEL: usize = 2;

/// Columns up to this height are low: they stand in water.
pub const LAKE_THRESHOLD: usize = 3;

/// The number of dirt layers under the grass of terraced terrain.
pub const TERRACE_DIRT_LAYERS: usize = 2;

/// How far each column of the reference chunk rises above the base height,
/// indexed by `x`, then `z`.
pub const RELIEF: [[u8; 16]; 16] = [
    [1, 1, 0, 0, 0, 0, 0, 0, 0, 0, 0, 1, 1, 1, 1, 1],
    [2, 2, 1, 1, 0, 0, 0, 0, 0, 0, 1, 2, 2, 2, 2, 1],
    [3, 2, 2, 1, 1, 0, 0, 0, 0, 1, 2, 2, 3, 3, 2, 2],
    [3, 3, 2, 2, 1, 0, 0, 0, 1, 1, 2, 2, 3, 3, 2, 2],
    [3, 3, 2, 1, 1, 0, 0, 0, 0, 1, 2, 2, 3, 3, 2, 1],
    [2, 2, 2, 1, 0, 0, 0, 0, 0, 0, 1, 2, 2, 2, 2, 1],
    [2, 2, 1, 0, 0, 0, 0, 0, 0, 0, 0, 1, 1, 1, 1, 0],
    [1, 1, 0, 0, 0, 0, 0, 0, 0, 0, 0, 0, 0, 0, 0, 0],
    [0, 0, 0, 0, 0, 0, 0, 0, 0, 0, 0, 0, 0, 0, 0, 0],
    [0, 0, 0, 0, 0, 0, 0, 0, 0, 0, 0, 0, 0, 0, 0, 0],
    [0, 0, 0, 0, 0, 0, 0, 0, 0, 0, 0, 0, 0, 0, 0, 0],
    [0, 0, 0, 0, 0, 0, 0, 0, 0, 0, 0, 0, 0, 0, 0, 0],
    [0, 0, 0, 0, 0, 0, 0, 0, 0, 0, 0, 0, 0, 0, 0, 0],
    [1, 1, 0, 0, 0, 0, 0, 0, 0, 0, 0, 0, 1, 1, 1, 0],
    [2, 1, 1, 0, 0, 0, 0, 0, 0, 0, 0, 1, 2, 2, 1, 1],
    [2, 2, 1, 1, 0, 0, 0, 0, 0, 0, 1, 2, 2, 2, 2, 1],
];

/// How a column is layered.
#[derive(Clone, Copy, Debug, PartialEq, Eq, Structural)]
pub enum Terrain {
    /// Stone, one layer of dirt, then a cover of grass or snow at the
    /// column's height; low columns stand in water.
    Rolling,
    /// Stone, two layers of dirt, then grass just below the column's
    /// height.
    Terraced,
}

/// The block at level `y` of a rolling column of the given height.
pub open spec fn rolling_block(height: int, y: int) -> u32 {
    if y < height - 1 {
        STONE
    } else if y < height {
        DIRT
    } else if y == height {
        if height >= SNOWLINE {
            SNOW
        } else {
            GRASS
        }
    } else if y <= LAKE_LEVEL && height <= LAKE_THRESHOLD {
        WATER
    } else {
        AIR
    }
}

/// The block at level `y` of a terraced column of the given height.
pub open spec fn terraced_block(height: int, y: int) -> u32 {
    if y >= height {
        AIR
    } else if y == height - 1 {
        GRASS
    } else if y >= height - 1 - TERRACE_DIRT_LAYERS {
        DIRT
    } else {
        STONE
    }
}

/// The block at level `y` of a column of the given height.
pub open spec fn layer(policy: Terrain, height: int, y: int) -> u32 {
    match policy {
        Terrain::Rolling => rolling_block(height, y),
        Terrain::Terraced => terraced_block(height, y),
    }
}

/// The height of the column `(x, z)` of the reference chunk.
pub open spec fn column_height(x: int, z: int) -> int {
    BASE_HEIGHT + RELIEF[x][z]
}

/// `c` holds the terrain that `policy` lays over the column heights
/// `heights`, which are stored row by row: the column `(x, z)` at
/// `x * size + z`.
pub open spec fn is_terrain(c: Chunk, size: int, heights: Seq<usize>, policy: Terrain) -> bool {
    &&& c.wf()
    &&& c.extent() == size
    &&& forall|x: int, y: int, z: int|
        in_grid(size, x, y, z) ==> #[trigger] c.block_at(x, y, z) == layer(
            policy,
            heights[x * size + z] as int,
            y,
        )
}

/// `c` is the reference chunk: rolling terrain over the fixed relief.
pub open spec fn is_reference_terrain(c: Chunk) -> bool {
    &&& c.wf()
    &&& c.extent() == CHUNK_SIZE
    &&& forall|x: int, y: int, z: int|
        in_grid(CHUNK_SIZE as int, x, y, z) ==> #[trigger] c.block_at(x, y, z) == rolling_block(
            column_height(x, z),
            y,
        )
}

/// `c` is flat terraced terrain of the given size and height.
pub open spec fn is_flat_terrain(c: Chunk, size: int, flat_height: int) -> bool {
    &&& c.wf()
    &&& c.extent() == size
    &&& forall|x: int, y: int, z: int|
        in_grid(size, x, y, z) ==> #[trigger] c.block_at(x, y, z) == terraced_block(flat_height, y)
}

/// Generation is deterministic: any two reference chunks have the same
/// size and the same storage, identifier for identifier.
pub proof fn lemma_reference_terrain_is_unique(a: Chunk, b: Chunk)
    requires
        is_reference_terrain(a),
        is_reference_terrain(b),
    ensures
        a.extent() == b.extent(),
        a.cells() == b.cells(),
{
    a.lemma_same_blocks_same_cells(&b);
}

/// The same heights under the same policy give the same chunk.
pub proof fn lemma_terrain_is_unique(
    a: Chunk,
    b: Chunk,
    size: int,
    heights: Seq<usize>,
    policy: Terrain,
)
    requires
        is_terrain(a, size, heights, policy),
        is_terrain(b, size, heights, policy),
    ensures
        a.extent() == b.extent(),
        a.cells() == b.cells(),
{
    a.lemma_same_blocks_same_cells(&b);
}

/// In flat terrain of height `flat_height` exactly the cells below that
/// height are solid.
pub proof fn lemma_flat_terrain_is_solid_below(c: Chunk, size: int, flat_height: int)
    requires
        is_flat_terrain(c, size, flat_height),
    ensures
        forall|x: int, y: int, z: int|
            in_grid(size, x, y, z) ==> (#[trigger] c.block_at(x, y, z) != AIR <==> y < flat_height),
{
}

/// The block at level `y` of a column of the given height.
pub fn layer_block(policy: Terrain, height: usize, y: usize) -> (id: u32)
    ensures
        id == layer(policy, height as int, y as int),
{
    match policy {
        Terrain::Rolling => {
            if y < height {
                if height - y > 1 {
                    STONE
                } else {
                    DIRT
                }
            } else if y == height {
                if height >= SNOWLINE {
                    SNOW
                } else {
                    GRASS
                }
            } else if y <= LAKE_LEVEL && height <= LAKE_THRESHOLD {
                WATER
            } else {
                AIR
            }
        },
        Terrain::Terraced => {
            if y >= height {
                AIR
            } else if height - y == 1 {
                GRASS
            } else if height - y <= 1 + TERRACE_DIRT_LAYERS {
                DIRT
            } else {
                STONE
            }
        },
    }
}

/// Lays `policy` over the given column heights. `heights` holds one
/// height for each column, row by row (`(x, z)` at `x * size + z`).
/// The result is `None` when `size` is above `MAX_CHUNK_SIZE` or `heights`
/// does not hold `size * size` entries.
pub fn generate_from_heights(size: usize, heights: &Vec<usize>, policy: Terrain) -> (c: Option<
    Chunk,
>)
    ensures
        c.is_some() == (size <= MAX_CHUNK_SIZE && heights@.len() == size * size),
        c matches Some(chunk) ==> is_terrain(chunk, size as int, heights@, policy),
{
    if size > MAX_CHUNK_SIZE {
        return None;
    }
    assert(size * size <= 65536) by (nonlinear_arith)
        requires
            size <= 256,
    ;
    if heights.len() != size * size {
        return None;
    }
    let mut chunk: Chunk = match Chunk::empty(size) {
        Some(c) => c,
        None => {
            return None;
        },
    };
    let mut x: usize = 0;
    while x < size
        invariant
            x <= size <= 256,
            heights@.len() == size * size,
            chunk.wf(),
            chunk.extent() == size,
            forall|a: int, b: int, c: int|
                in_grid(size as int, a, b, c) && a < x ==> #[trigger] chunk.block_at(a, b, c)
                    == layer(policy, heights@[a * size + c] as int, b),
        decreases size - x,
    {
        let mut z: usize = 0;
        while z < size
            invariant
                x < size <= 256,
                z <= size,
                heights@.len() == size * size,
                chunk.wf(),
                chunk.extent() == size,
                forall|a: int, b: int, c: int|
                    in_grid(size as int, a, b, c) && (a < x || (a == x && c < z))
                        ==> #[trigger] chunk.block_at(a, b, c) == layer(
                        policy,
                        heights@[a * size + c] as int,
                        b,
                    ),
            decreases size - z,
        {
            assert(0 <= x * size && x * size + z < size * size && size * size <= 65536)
                by (nonlinear_arith)
                requires
                    0 <= x < size,
                    0 <= z < size,
                    size <= 256,
            ;
            let height: usize = heights[x * size + z];
            let mut y: usize = 0;
            while y < size
                invariant
                    x < size <= 256,
                    z < size,
                    y <= size,
                    height == heights@[x * size + z],
                    chunk.wf(),
                    chunk.extent() == size,
                    forall|a: int, b: int, c: int|
                        in_grid(size as int, a, b, c) && (a < x || (a == x && c < z) || (a == x
                            && c == z && b < y)) ==> #[trigger] chunk.block_at(a, b, c) == layer(
                            policy,
                            heights@[a * size + c] as int,
                            b,
                        ),
                decreases size - y,
            {
                let id: u32 = layer_block(policy, height, y);
                chunk.set(x, y, z, id);
                y = y + 1;
            }
            z = z + 1;
        }
        x = x + 1;
    }
    Some(chunk)
}

/// The reference chunk: sixteen blocks along each edge, rolling terrain
/// over the fixed relief. Every call returns the same chunk.
pub fn generate_chunk() -> (c: Chunk)
    ensures
        is_reference_terrain(c),
{
    let mut heights: Vec<usize> = Vec::new();
    let mut x: usize = 0;
    while x < CHUNK_SIZE
        invariant
            x <= CHUNK_SIZE,
            heights@.len() == x * CHUNK_SIZE,
            forall|a: int, c: int|
                0 <= a < x && 0 <= c < CHUNK_SIZE ==> #[trigger] heights@[a * CHUNK_SIZE + c]
                    == column_height(a, c),
        decreases CHUNK_SIZE - x,
    {
        let mut z: usize = 0;
        while z < CHUNK_SIZE
            invariant
                x < CHUNK_SIZE,
                z <= CHUNK_SIZE,
                heights@.len() == x * CHUNK_SIZE + z,
                forall|a: int, c: int|
                    0 <= c < CHUNK_SIZE && (0 <= a < x || (a == x && c < z))
                        ==> #[trigger] heights@[a * CHUNK_SIZE + c] == column_height(a, c),
            decreases CHUNK_SIZE - z,
        {
            let rise: u8 = RELIEF[x][z];
            assert(rise <= 3);
            heights.push(BASE_HEIGHT + rise as usize);
            z = z + 1;
        }
        x = x + 1;
    }
    let chunk: Chunk = generate_from_heights(CHUNK_SIZE, &heights, Terrain::Rolling).unwrap();
    assert forall|a: int, b: int, c: int|
        in_grid(CHUNK_SIZE as int, a, b, c) implies #[trigger] chunk.block_at(a, b, c)
        == rolling_block(column_height(a, c), b) by {
        assert(heights@[a * CHUNK_SIZE + c] == column_height(a, c));
    }
    chunk
}

/// Flat terraced terrain: every column of a chunk of edge `size` has the
/// height `flat_height`. `None` when `size` is above `MAX_CHUNK_SIZE`.
pub fn generate_flat_chunk(size: usize, flat_height: usize) -> (c: Option<Chunk>)
    ensures
        c.is_some() == (size <= MAX_CHUNK_SIZE),
        c matches Some(chunk) ==> is_flat_terrain(chunk, size as int, flat_height as int),
{
    if size > MAX_CHUNK_SIZE {
        return None;
    }
    assert(size * size <= 65536) by (nonlinear_arith)
        requires
            size <= 256,
    ;
    let columns: usize = size * size;
    let mut heights: Vec<usize> = Vec::new();
    let mut i: usize = 0;
    while i < columns
        invariant
            i <= columns,
            heights@.len() == i,
            forall|k: int| 0 <= k < i ==> heights@[k] == flat_height,
        decreases columns - i,
    {
        heights.push(flat_height);
        i = i + 1;
    }
    let c = generate_from_heights(size, &heights, Terrain::Terraced);
    proof {
        if c.is_some() {
            let chunk = c.unwrap();
            assert forall|x: int, y: int, z: int|
                in_grid(size as int, x, y, z) implies #[trigger] chunk.block_at(x, y, z)
                == terraced_block(flat_height as int, y) by {
                assert(0 <= x * size + z < size * size) by (nonlinear_arith)
                    requires
                        0 <= x < size,
                        0 <= z < size,
                ;
            }
        }
    }
    c
}

} // verus!
