//! The dense block grid of one chunk.
//!
//! A chunk is a cube of `extent()` blocks along each axis. Its model is the
//! total function `block_at`, which is air everywhere outside the cube, so a
//! query can never fall off the grid.

use vstd::prelude::*;
use vstd::arithmetic::div_mod::lemma_fundamental_div_mod_converse;
use crate::block::AIR;

verus! {

/// The largest edge length of a chunk, in blocks.
pub const MAX_CHUNK_SIZE: usize = 256;

/// A cube of blocks, stored densely with `z` running fastest, then `y`.
#[derive(Clone, Debug, PartialEq, Eq)]
pub struct Chunk {
    size: usize,
    cells: Vec<u32>,
}

/// The place of the cell `(x, y, z)` in the storage of a chunk of edge `n`.
pub open spec fn cell_index(n: int, x: int, y: int, z: int) -> int {
    (x * n + y) * n + z
}

/// Whether `(x, y, z)` names a cell of a chunk of edge `n`.
pub open spec fn in_grid(n: int, x: int, y: int, z: int) -> bool {
    0 <= x < n && 0 <= y < n && 0 <= z < n
}

/// Every cell of the cube has a place in the storage.
pub proof fn lemma_cell_index_bounds(n: int, x: int, y: int, z: int)
    requires
        in_grid(n, x, y, z),
    ensures
        0 <= x * n + y < n * n,
        0 <= cell_index(n, x, y, z) < n * n * n,
{
    assert(0 <= x * n && x * n + n <= n * n) by (nonlinear_arith)
        requires
            0 <= x < n,
    ;
    let row = x * n + y;
    assert(0 <= row * n && row * n + n <= n * n * n) by (nonlinear_arith)
        requires
            0 <= row,
            row + 1 <= n * n,
            0 < n,
    ;
}

/// The place of a cell determines its coordinates.
pub proof fn lemma_cell_index_decodes(n: int, x: int, y: int, z: int)
    requires
        in_grid(n, x, y, z),
    ensures
        cell_index(n, x, y, z) % n == z,
        (cell_index(n, x, y, z) / n) % n == y,
        (cell_index(n, x, y, z) / n) / n == x,
{
    lemma_fundamental_div_mod_converse(cell_index(n, x, y, z), n, x * n + y, z);
    lemma_fundamental_div_mod_converse(x * n + y, n, x, y);
}

/// Every place in the storage belongs to exactly one cell of the cube.
pub proof fn lemma_cell_index_covers(n: int, i: int)
    requires
        0 < n,
        0 <= i < n * n * n,
    ensures
        in_grid(n, (i / n) / n, (i / n) % n, i % n),
        cell_index(n, (i / n) / n, (i / n) % n, i % n) == i,
{
    let row = i / n;
    vstd::arithmetic::div_mod::lemma_fundamental_div_mod(i, n);
    vstd::arithmetic::div_mod::lemma_fundamental_div_mod(row, n);
    vstd::arithmetic::div_mod::lemma_mod_bound(i, n);
    vstd::arithmetic::div_mod::lemma_mod_bound(row, n);
    assert(0 <= row < n * n) by (nonlinear_arith)
        requires
            0 < n,
            0 <= i < n * n * n,
            i == n * row + i % n,
            0 <= i % n < n,
    ;
    let x = row / n;
    assert(0 <= x < n) by (nonlinear_arith)
        requires
            0 < n,
            0 <= row < n * n,
            row == n * x + row % n,
            0 <= row % n < n,
    ;
    assert((x * n + row % n) * n + i % n == i) by (nonlinear_arith)
        requires
            row == n * x + row % n,
            i == n * row + i % n,
    ;
}

impl Chunk {
    /// The storage holds exactly one identifier for every cell of the cube.
    /// Every chunk that this module hands out is well formed.
    pub closed spec fn wf(&self) -> bool {
        &&& self.size <= MAX_CHUNK_SIZE
        &&& self.cells@.len() == self.size * self.size * self.size
    }

    /// The edge length of the chunk, in blocks.
    pub closed spec fn extent(&self) -> int {
        self.size as int
    }

    /// The stored identifiers, in storage order.
    pub closed spec fn cells(&self) -> Seq<u32> {
        self.cells@
    }

    /// The block at `(x, y, z)`: the stored identifier inside the cube, air
    /// everywhere else.
    pub closed spec fn block_at(&self, x: int, y: int, z: int) -> u32 {
        if in_grid(self.size as int, x, y, z) && cell_index(self.size as int, x, y, z)
            < self.cells@.len() {
            self.cells@[cell_index(self.size as int, x, y, z)]
        } else {
            AIR
        }
    }

    /// Outside the cube there is only air.
    pub proof fn lemma_air_outside(&self, x: int, y: int, z: int)
        requires
            !in_grid(self.extent(), x, y, z),
        ensures
            self.block_at(x, y, z) == AIR,
    {
    }

    /// The edge length of a chunk is never negative and never above the
    /// largest one.
    pub proof fn lemma_extent_bounds(&self)
        ensures
            0 <= self.extent(),
            self.wf() ==> self.extent() <= MAX_CHUNK_SIZE,
    {
    }

    /// Two chunks of the same size that hold the same block in every cell
    /// have the same storage, identifier for identifier.
    pub proof fn lemma_same_blocks_same_cells(&self, other: &Chunk)
        requires
            self.wf(),
            other.wf(),
            self.extent() == other.extent(),
            forall|x: int, y: int, z: int|
                in_grid(self.extent(), x, y, z) ==> #[trigger] self.block_at(x, y, z)
                    == other.block_at(x, y, z),
        ensures
            self.cells() == other.cells(),
    {
        let n = self.size as int;
        assert forall|i: int| 0 <= i < self.cells@.len() implies self.cells@[i]
            == other.cells@[i] by {
            if n == 0 {
                assert(n * n * n == 0) by (nonlinear_arith)
                    requires
                        n == 0,
                ;
            } else {
                lemma_cell_index_covers(n, i);
                let x = (i / n) / n;
                let y = (i / n) % n;
                let z = i % n;
                assert(self.block_at(x, y, z) == other.block_at(x, y, z));
            }
        }
        assert(self.cells@ =~= other.cells@);
    }

    /// A chunk of edge `size` that holds only air, or `None` when `size`
    /// is above `MAX_CHUNK_SIZE`.
    pub fn empty(size: usize) -> (c: Option<Chunk>)
        ensures
            c.is_some() == (size <= MAX_CHUNK_SIZE),
            c matches Some(chunk) ==> {
                &&& chunk.wf()
                &&& chunk.extent() == size
                &&& forall|x: int, y: int, z: int| #[trigger] chunk.block_at(x, y, z) == AIR
            },
    {
        if size > MAX_CHUNK_SIZE {
            return None;
        }
        assert(size * size <= 65536 && size * size * size <= 16777216) by (nonlinear_arith)
            requires
                size <= 256,
        ;
        let total: usize = size * size * size;
        let mut cells: Vec<u32> = Vec::new();
        let mut i: usize = 0;
        while i < total
            invariant
                i <= total,
                cells@.len() == i,
                forall|k: int| 0 <= k < i ==> cells@[k] == AIR,
            decreases total - i,
        {
            cells.push(AIR);
            i = i + 1;
        }
        Some(Chunk { size, cells })
    }

    /// The edge length of the chunk, in blocks.
    pub fn size(&self) -> (n: usize)
        ensures
            n == self.extent(),
    {
        self.size
    }

    /// The block at `(x, y, z)`; air when the coordinates lie outside the
    /// chunk.
    pub fn get(&self, x: usize, y: usize, z: usize) -> (id: u32)
        ensures
            id == self.block_at(x as int, y as int, z as int),
    {
        let n: usize = self.size;
        if x >= n || y >= n || z >= n {
            return AIR;
        }
        let len: usize = self.cells.len();
        let ghost want = cell_index(n as int, x as int, y as int, z as int);
        proof {
            assert(0 <= x * n <= (x * n + y) * n) by (nonlinear_arith)
                requires
                    0 <= x,
                    0 <= y,
                    0 < n,
            ;
        }
        let xn: usize = match x.checked_mul(n) {
            Some(v) => v,
            None => {
                return AIR;
            },
        };
        let row: usize = match xn.checked_add(y) {
            Some(v) => v,
            None => {
                assert(x * n + y <= (x * n + y) * n) by (nonlinear_arith)
                    requires
                        0 <= x * n + y,
                        0 < n,
                ;
                return AIR;
            },
        };
        let rn: usize = match row.checked_mul(n) {
            Some(v) => v,
            None => {
                return AIR;
            },
        };
        let i: usize = match rn.checked_add(z) {
            Some(v) => v,
            None => {
                return AIR;
            },
        };
        assert(i == want);
        if i < len {
            self.cells[i]
        } else {
            AIR
        }
    }

    /// Puts the block `id` at `(x, y, z)` and says whether the coordinates
    /// lie inside the chunk; outside it nothing is stored.
    pub fn set(&mut self, x: usize, y: usize, z: usize, id: u32) -> (stored: bool)
        requires
            old(self).wf(),
        ensures
            stored == in_grid(old(self).extent(), x as int, y as int, z as int),
            final(self).wf(),
            final(self).extent() == old(self).extent(),
            stored ==> final(self).block_at(x as int, y as int, z as int) == id,
            !stored ==> final(self).cells() == old(self).cells(),
            forall|a: int, b: int, c: int|
                (a != x || b != y || c != z) ==> #[trigger] final(self).block_at(a, b, c) == old(
                    self,
                ).block_at(a, b, c),
    {
        if x >= self.size || y >= self.size || z >= self.size {
            return false;
        }
        let n: usize = self.size;
        proof {
            lemma_cell_index_bounds(n as int, x as int, y as int, z as int);
        }
        assert(n * n <= 65536 && n * n * n <= 16777216) by (nonlinear_arith)
            requires
                n <= 256,
        ;
        assert(x * n <= x * n + y);
        let i: usize = (x * n + y) * n + z;
        self.cells.set(i, id);
        proof {
            assert forall|a: int, b: int, c: int|
                (a != x || b != y || c != z) implies #[trigger] self.block_at(a, b, c) == old(
                self,
            ).block_at(a, b, c) by {
                if in_grid(n as int, a, b, c) {
                    lemma_cell_index_decodes(n as int, a, b, c);
                    lemma_cell_index_decodes(n as int, x as int, y as int, z as int);
                    lemma_cell_index_bounds(n as int, a, b, c);
                }
            }
        }
        true
    }
}

} // verus!
