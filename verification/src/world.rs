//! Collision of the player's capsule against the blocks of a chunk.
//!
//! The capsule stands upright on its feet anchor and is tested, block by
//! block, as a vertical cylinder: it hits a block when their vertical spans
//! overlap and the block's square footprint comes closer to the capsule's
//! axis than the radius. All coordinates are in thousandths of a block, and
//! the block `(bx, by, bz)` fills the cube from `(bx, by, bz)` to
//! `(bx + 1, by + 1, bz + 1)`.
//!
//! A blocked move slides: the axes are tried one after the other, always as
//! x, then z, then y. Around a corner the outcome therefore depends on the
//! direction of the move; this order is part of the behaviour.

use vstd::prelude::*;
use crate::block::AIR;
use crate::chunk::{in_grid, Chunk};
use crate::fixed::{block_coord, blocks_to_cover, ceil_units, floor_units, Vec3, UNIT};
use crate::generation::{generate_chunk, is_reference_terrain};

verus! {

/// The world: one chunk of blocks.
#[derive(Clone, Debug, PartialEq, Eq)]
pub struct World {
    pub chunk_data: Chunk,
}

/// The coordinate inside the block slab `b` (from `b` to `b + 1` whole
/// units) that is nearest to `c`.
pub open spec fn nearest_in_slab(c: int, b: int) -> int {
    if c < b * UNIT {
        b * UNIT
    } else if c > (b + 1) * UNIT {
        (b + 1) * UNIT
    } else {
        c
    }
}

/// Whether the vertical span of a capsule with feet at `fy` and height `h`
/// overlaps the block layer `by`. Touching is no overlap.
pub open spec fn overlaps_vertically(fy: int, h: int, by: int) -> bool {
    fy + h > by * UNIT && fy < (by + 1) * UNIT
}

/// Whether the footprint of the block column `(bx, bz)` comes closer than
/// `r` to the axis at `(fx, fz)`.
pub open spec fn overlaps_horizontally(fx: int, fz: int, r: int, bx: int, bz: int) -> bool {
    let dx = nearest_in_slab(fx, bx) - fx;
    let dz = nearest_in_slab(fz, bz) - fz;
    dx * dx + dz * dz < r * r
}

/// Whether a capsule with feet at `(fx, fy, fz)`, radius `r` and height `h`
/// overlaps the cube of the block `(bx, by, bz)`.
pub open spec fn capsule_hits_block(
    fx: int,
    fy: int,
    fz: int,
    r: int,
    h: int,
    bx: int,
    by: int,
    bz: int,
) -> bool {
    overlaps_vertically(fy, h, by) && overlaps_horizontally(fx, fz, r, bx, bz)
}

/// The first index of the candidates around `center`.
pub open spec fn range_start(center: int, below: int) -> int {
    if center - below < 0 {
        0
    } else {
        center - below
    }
}

/// One past the last index of the candidates around `center`, in a grid of
/// edge `n`.
pub open spec fn range_end(center: int, above: int, n: int) -> int {
    if center + above + 1 > n {
        n
    } else {
        center + above + 1
    }
}

/// A block that the capsule overlaps lies in the neighbourhood of the feet
/// block that a collision query walks: within `ceil(r) + 1` columns
/// sideways and from the feet layer up to `ceil(h)` layers above it.
pub proof fn lemma_hit_is_near(
    fx: int,
    fy: int,
    fz: int,
    r: int,
    h: int,
    bx: int,
    by: int,
    bz: int,
)
    requires
        0 <= r,
        0 <= h,
        capsule_hits_block(fx, fy, fz, r, h, bx, by, bz),
    ensures
        floor_units(fx) - (ceil_units(r) + 1) <= bx <= floor_units(fx) + ceil_units(r) + 1,
        floor_units(fy) <= by <= floor_units(fy) + ceil_units(h),
        floor_units(fz) - (ceil_units(r) + 1) <= bz <= floor_units(fz) + ceil_units(r) + 1,
{
    let dx = nearest_in_slab(fx, bx) - fx;
    let dz = nearest_in_slab(fz, bz) - fz;
    assert(-r < dx < r && -r < dz < r) by (nonlinear_arith)
        requires
            0 <= r,
            dx * dx + dz * dz < r * r,
    ;
}

/// A block whose footprint stays at least `r` away from the axis along one
/// horizontal direction does not overlap the capsule.
pub proof fn lemma_far_is_clear(fx: int, fz: int, r: int, bx: int, bz: int)
    requires
        0 <= r,
        nearest_in_slab(fx, bx) - fx >= r || fx - nearest_in_slab(fx, bx) >= r || nearest_in_slab(
            fz,
            bz,
        ) - fz >= r || fz - nearest_in_slab(fz, bz) >= r,
    ensures
        !overlaps_horizontally(fx, fz, r, bx, bz),
{
    let dx = nearest_in_slab(fx, bx) - fx;
    let dz = nearest_in_slab(fz, bz) - fz;
    assert(dx * dx + dz * dz >= r * r) by (nonlinear_arith)
        requires
            0 <= r,
            dx >= r || -dx >= r || dz >= r || -dz >= r,
    ;
}

/// The candidate indices around `center` that lie inside a grid of edge
/// `n`, as a half-open range.
fn candidate_range(center: i64, below: u32, above: u32, n: usize) -> (range: (usize, usize))
    ensures
        range.0 <= range.1 <= n,
        range_start(center as int, below as int) < range_end(center as int, above as int, n as int)
            ==> range.0 == range_start(center as int, below as int) && range.1 == range_end(
            center as int,
            above as int,
            n as int,
        ),
        range_start(center as int, below as int) >= range_end(center as int, above as int, n as int)
            ==> range.0 == range.1,
{
    let c: i128 = center as i128;
    let first: i128 = if c - (below as i128) < 0 {
        0
    } else {
        c - (below as i128)
    };
    let end: i128 = if c + (above as i128) + 1 > n as i128 {
        n as i128
    } else {
        c + (above as i128) + 1
    };
    if first < end {
        (first as usize, end as usize)
    } else {
        (0, 0)
    }
}

impl World {
    /// The world of the reference chunk.
    pub fn new() -> (w: World)
        ensures
            is_reference_terrain(w.chunk_data),
    {
        World { chunk_data: generate_chunk() }
    }

    /// The world that consists of the given chunk.
    pub fn from_chunk(chunk: Chunk) -> (w: World)
        ensures
            w.chunk_data == chunk,
    {
        World { chunk_data: chunk }
    }

    /// Whether the block `(bx, by, bz)` is a solid block of the chunk that
    /// the capsule overlaps.
    pub open spec fn blocked_by(
        &self,
        fx: int,
        fy: int,
        fz: int,
        r: int,
        h: int,
        bx: int,
        by: int,
        bz: int,
    ) -> bool {
        &&& in_grid(self.chunk_data.extent(), bx, by, bz)
        &&& self.chunk_data.block_at(bx, by, bz) != AIR
        &&& capsule_hits_block(fx, fy, fz, r, h, bx, by, bz)
    }

    /// Whether a capsule with feet at `(fx, fy, fz)`, radius `r` and height
    /// `h` overlaps any solid block of the chunk.
    pub open spec fn collides(&self, fx: int, fy: int, fz: int, r: int, h: int) -> bool {
        exists|bx: int, by: int, bz: int| #[trigger] self.blocked_by(fx, fy, fz, r, h, bx, by, bz)
    }

    /// Whether a capsule whose eye anchor is `eye` (its feet lie `h` below)
    /// overlaps any solid block.
    pub open spec fn collides_at_eye(&self, eye: Vec3, r: int, h: int) -> bool {
        self.collides(eye.x as int, eye.y - h, eye.z as int, r, h)
    }

    /// Where a move from `current` towards `target` ends (both are eye
    /// anchors). A free target is taken as it is. Otherwise the move
    /// slides: first x alone is moved to the target, then z with that x,
    /// then y with that x and z, each only if the capsule is free there.
    pub open spec fn resolved(&self, current: Vec3, target: Vec3, r: int, h: int) -> Vec3 {
        if !self.collides_at_eye(target, r, h) {
            target
        } else {
            let x = if !self.collides_at_eye(
                Vec3 { x: target.x, y: current.y, z: current.z },
                r,
                h,
            ) {
                target.x
            } else {
                current.x
            };
            let z = if !self.collides_at_eye(Vec3 { x: x, y: current.y, z: target.z }, r, h) {
                target.z
            } else {
                current.z
            };
            let y = if !self.collides_at_eye(Vec3 { x: x, y: target.y, z: z }, r, h) {
                target.y
            } else {
                current.y
            };
            Vec3 { x, y, z }
        }
    }

    /// A capsule that lies entirely beside, below or above the grid
    /// collides with nothing.
    pub proof fn lemma_outside_grid_is_free(&self, fx: int, fy: int, fz: int, r: int, h: int)
        requires
            0 <= r,
            ({
                let edge = self.chunk_data.extent() * UNIT;
                ||| fy + h <= 0
                ||| fy >= edge
                ||| fx + r <= 0
                ||| fx - r >= edge
                ||| fz + r <= 0
                ||| fz - r >= edge
            }),
        ensures
            !self.collides(fx, fy, fz, r, h),
    {
        let n = self.chunk_data.extent();
        assert forall|bx: int, by: int, bz: int| !#[trigger] self.blocked_by(
            fx,
            fy,
            fz,
            r,
            h,
            bx,
            by,
            bz,
        ) by {
            if in_grid(n, bx, by, bz) {
                assert(0 <= bx * UNIT && (bx + 1) * UNIT <= n * UNIT) by (nonlinear_arith)
                    requires
                        0 <= bx < n,
                ;
                assert(0 <= by * UNIT && (by + 1) * UNIT <= n * UNIT) by (nonlinear_arith)
                    requires
                        0 <= by < n,
                ;
                assert(0 <= bz * UNIT && (bz + 1) * UNIT <= n * UNIT) by (nonlinear_arith)
                    requires
                        0 <= bz < n,
                ;
                if fy + h <= 0 || fy >= n * UNIT {
                    assert(!overlaps_vertically(fy, h, by));
                } else {
                    lemma_far_is_clear(fx, fz, r, bx, bz);
                }
            }
        }
    }

    /// Whether the capsule with the given feet anchor overlaps the block
    /// `(block_x, block_y, block_z)`, whatever that block holds.
    pub fn check_block_collision(
        &self,
        feet_position: &Vec3,
        block_x: usize,
        block_y: usize,
        block_z: usize,
        radius: u32,
        height: u32,
    ) -> (hit: bool)
        ensures
            hit == capsule_hits_block(
                feet_position.x as int,
                feet_position.y as int,
                feet_position.z as int,
                radius as int,
                height as int,
                block_x as int,
                block_y as int,
                block_z as int,
            ),
    {
        let player_min_y: i128 = feet_position.y as i128;
        let player_max_y: i128 = player_min_y + height as i128;
        let block_min_y: i128 = (block_y as i128) * 1000;
        let block_max_y: i128 = block_min_y + 1000;
        if player_max_y <= block_min_y || player_min_y >= block_max_y {
            return false;
        }
        let dx: i128 = gap_to_slab(feet_position.x, block_x);
        let dz: i128 = gap_to_slab(feet_position.z, block_z);
        let r: i128 = radius as i128;
        proof {
            let sx = nearest_in_slab(feet_position.x as int, block_x as int) - feet_position.x;
            let sz = nearest_in_slab(feet_position.z as int, block_z as int) - feet_position.z;
            assert(sx * sx == dx * dx) by (nonlinear_arith)
                requires
                    sx == dx || sx == -dx,
            ;
            assert(sz * sz == dz * dz) by (nonlinear_arith)
                requires
                    sz == dz || sz == -dz,
            ;
        }
        if dx >= r || dz >= r {
            proof {
                assert(dx * dx + dz * dz >= r * r) by (nonlinear_arith)
                    requires
                        0 <= r,
                        0 <= dx,
                        0 <= dz,
                        dx >= r || dz >= r,
                ;
            }
            return false;
        }
        assert(0 <= dx * dx <= 0xffff_ffff * 0xffff_ffff && 0 <= dz * dz <= 0xffff_ffff
            * 0xffff_ffff && 0 <= r * r <= 0xffff_ffff * 0xffff_ffff) by (nonlinear_arith)
            requires
                0 <= dx < r,
                0 <= dz < r,
                r <= 0xffff_ffff,
        ;
        dx * dx + dz * dz < r * r
    }

    /// Whether a capsule with the given feet anchor, radius and height
    /// overlaps a solid block. Positions outside the chunk are air; no
    /// position is an error.
    pub fn check_collision(&self, feet_position: &Vec3, radius: u32, height: u32) -> (hit: bool)
        ensures
            hit == self.collides(
                feet_position.x as int,
                feet_position.y as int,
                feet_position.z as int,
                radius as int,
                height as int,
            ),
    {
        let n: usize = self.chunk_data.size();
        let side: u32 = blocks_to_cover(radius) + 1;
        let rise: u32 = blocks_to_cover(height);
        let (x_lo, x_hi) = candidate_range(block_coord(feet_position.x), side, side, n);
        let (y_lo, y_hi) = candidate_range(block_coord(feet_position.y), 0, rise, n);
        let (z_lo, z_hi) = candidate_range(block_coord(feet_position.z), side, side, n);
        let ghost fx = feet_position.x as int;
        let ghost fy = feet_position.y as int;
        let ghost fz = feet_position.z as int;
        let ghost r = radius as int;
        let ghost h = height as int;
        let mut x: usize = x_lo;
        while x < x_hi
            invariant
                x_lo <= x <= x_hi <= n,
                y_lo <= y_hi <= n,
                z_lo <= z_hi <= n,
                n == self.chunk_data.extent(),
                fx == feet_position.x && fy == feet_position.y && fz == feet_position.z,
                r == radius && h == height,
                forall|a: int, b: int, c: int|
                    x_lo <= a < x && y_lo <= b < y_hi && z_lo <= c < z_hi
                        ==> !#[trigger] self.blocked_by(fx, fy, fz, r, h, a, b, c),
            decreases x_hi - x,
        {
            let mut y: usize = y_lo;
            while y < y_hi
                invariant
                    x_lo <= x < x_hi <= n,
                    y_lo <= y <= y_hi <= n,
                    z_lo <= z_hi <= n,
                    n == self.chunk_data.extent(),
                    fx == feet_position.x && fy == feet_position.y && fz == feet_position.z,
                    r == radius && h == height,
                    forall|a: int, b: int, c: int|
                        z_lo <= c < z_hi && ((x_lo <= a < x && y_lo <= b < y_hi) || (a == x && y_lo
                            <= b < y)) ==> !#[trigger] self.blocked_by(fx, fy, fz, r, h, a, b, c),
                decreases y_hi - y,
            {
                let mut z: usize = z_lo;
                while z < z_hi
                    invariant
                        x_lo <= x < x_hi <= n,
                        y_lo <= y < y_hi <= n,
                        z_lo <= z <= z_hi <= n,
                        n == self.chunk_data.extent(),
                        fx == feet_position.x && fy == feet_position.y && fz == feet_position.z,
                        r == radius && h == height,
                        forall|a: int, b: int, c: int|
                            ((z_lo <= c < z_hi && ((x_lo <= a < x && y_lo <= b < y_hi) || (a == x
                                && y_lo <= b < y))) || (a == x && b == y && z_lo <= c < z))
                                ==> !#[trigger] self.blocked_by(fx, fy, fz, r, h, a, b, c),
                    decreases z_hi - z,
                {
                    if self.chunk_data.get(x, y, z) != AIR {
                        if self.check_block_collision(feet_position, x, y, z, radius, height) {
                            assert(self.blocked_by(fx, fy, fz, r, h, x as int, y as int, z as int));
                            return true;
                        }
                    }
                    z = z + 1;
                }
                y = y + 1;
            }
            x = x + 1;
        }
        proof {
            assert forall|a: int, b: int, c: int| !#[trigger] self.blocked_by(
                fx,
                fy,
                fz,
                r,
                h,
                a,
                b,
                c,
            ) by {
                if self.blocked_by(fx, fy, fz, r, h, a, b, c) {
                    lemma_hit_is_near(fx, fy, fz, r, h, a, b, c);
                    assert(x_lo <= a < x_hi);
                    assert(y_lo <= b < y_hi);
                    assert(z_lo <= c < z_hi);
                }
            }
        }
        false
    }

    /// Whether the capsule collides when its eye anchor is at
    /// `(x, eye_y, z)`.
    fn blocked_at_eye(&self, x: i64, eye_y: i64, z: i64, radius: u32, height: u32) -> (hit: bool)
        ensures
            hit == self.collides_at_eye(Vec3 { x, y: eye_y, z }, radius as int, height as int),
    {
        match eye_y.checked_sub(height as i64) {
            Some(feet_y) => self.check_collision(&Vec3 { x, y: feet_y, z }, radius, height),
            None => {
                proof {
                    self.chunk_data.lemma_extent_bounds();
                    self.lemma_outside_grid_is_free(
                        x as int,
                        eye_y - height,
                        z as int,
                        radius as int,
                        height as int,
                    );
                }
                false
            },
        }
    }

    /// Resolves a move of the player from the eye anchor `current_pos`
    /// towards `target_pos` and returns the eye anchor where it ends.
    pub fn resolve_collision(
        &self,
        current_pos: Vec3,
        target_pos: Vec3,
        radius: u32,
        height: u32,
    ) -> (resolved: Vec3)
        ensures
            resolved == self.resolved(current_pos, target_pos, radius as int, height as int),
    {
        if !self.blocked_at_eye(target_pos.x, target_pos.y, target_pos.z, radius, height) {
            return target_pos;
        }
        let mut x: i64 = current_pos.x;
        let mut y: i64 = current_pos.y;
        let mut z: i64 = current_pos.z;
        if !self.blocked_at_eye(target_pos.x, current_pos.y, current_pos.z, radius, height) {
            x = target_pos.x;
        }
        if !self.blocked_at_eye(x, current_pos.y, target_pos.z, radius, height) {
            z = target_pos.z;
        }
        if !self.blocked_at_eye(x, target_pos.y, z, radius, height) {
            y = target_pos.y;
        }
        Vec3 { x, y, z }
    }

    /// A move to a free target ends at the target.
    pub proof fn lemma_free_target_is_kept(&self, current: Vec3, target: Vec3, r: int, h: int)
        requires
            !self.collides_at_eye(target, r, h),
        ensures
            self.resolved(current, target, r, h) == target,
    {
    }

    /// A move that starts at a free position ends at a free position,
    /// however it was blocked. (A player that already stands inside a block
    /// may stay there: every axis can be blocked.)
    pub proof fn lemma_resolved_is_free(&self, current: Vec3, target: Vec3, r: int, h: int)
        requires
            !self.collides_at_eye(current, r, h),
        ensures
            !self.collides_at_eye(self.resolved(current, target, r, h), r, h),
    {
    }

    /// Along each axis a resolved move ends either where it began or at
    /// the target.
    pub proof fn lemma_resolved_is_componentwise(&self, current: Vec3, target: Vec3, r: int, h: int)
        ensures
            ({
                let end = self.resolved(current, target, r, h);
                &&& end.x == current.x || end.x == target.x
                &&& end.y == current.y || end.y == target.y
                &&& end.z == current.z || end.z == target.z
            }),
    {
    }
}

/// The distance from `c` to the block slab `b`, zero inside the slab.
fn gap_to_slab(c: i64, b: usize) -> (gap: i128)
    ensures
        0 <= gap,
        gap == nearest_in_slab(c as int, b as int) - c || gap == c - nearest_in_slab(
            c as int,
            b as int,
        ),
{
    let at: i128 = c as i128;
    let low: i128 = (b as i128) * 1000;
    let high: i128 = low + 1000;
    if at < low {
        low - at
    } else if at > high {
        at - high
    } else {
        0
    }
}

} // verus!
