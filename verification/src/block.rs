//! Block identifiers and their palette.

use vstd::prelude::*;

verus! {

/// The empty block. Every other identifier is solid.
pub const AIR: u32 = 0;

pub const DIRT: u32 = 1;

pub const GRASS: u32 = 2;

pub const STONE: u32 = 3;

pub const SNOW: u32 = 4;

pub const WATER: u32 = 5;

/// A colour with red, green, blue and opacity in thousandths.
#[derive(Clone, Copy, Debug, PartialEq, Eq, Structural)]
pub struct Rgba {
    pub r: u16,
    pub g: u16,
    pub b: u16,
    pub a: u16,
}

/// One cell of the world, named by its identifier.
#[derive(Clone, Copy, Debug, PartialEq, Eq, Structural)]
pub struct Block {
    pub id: u32,
}

/// Whether a block with this identifier stops the player.
pub open spec fn is_solid_id(id: u32) -> bool {
    id != AIR
}

/// The colour in which a block with this identifier is drawn: transparent
/// for air, magenta for an identifier outside the palette.
pub open spec fn palette(id: u32) -> Rgba {
    if id == AIR {
        Rgba { r: 0, g: 0, b: 0, a: 0 }
    } else if id == DIRT {
        Rgba { r: 600, g: 300, b: 0, a: 1000 }
    } else if id == GRASS {
        Rgba { r: 0, g: 700, b: 0, a: 1000 }
    } else if id == STONE {
        Rgba { r: 500, g: 500, b: 500, a: 1000 }
    } else if id == SNOW {
        Rgba { r: 900, g: 900, b: 900, a: 1000 }
    } else if id == WATER {
        Rgba { r: 0, g: 0, b: 800, a: 1000 }
    } else {
        Rgba { r: 1000, g: 0, b: 1000, a: 1000 }
    }
}

impl Block {
    /// The block with the given identifier.
    pub fn new(id: u32) -> (b: Block)
        ensures
            b.id == id,
    {
        Block { id }
    }

    /// Whether the block stops the player: everything but air does.
    pub fn is_solid(&self) -> (solid: bool)
        ensures
            solid == is_solid_id(self.id),
    {
        self.id != AIR
    }

    /// The colour of the block.
    pub fn get_color(&self) -> (c: Rgba)
        ensures
            c == palette(self.id),
    {
        match self.id {
            0 => Rgba { r: 0, g: 0, b: 0, a: 0 },
            1 => Rgba { r: 600, g: 300, b: 0, a: 1000 },
            2 => Rgba { r: 0, g: 700, b: 0, a: 1000 },
            3 => Rgba { r: 500, g: 500, b: 500, a: 1000 },
            4 => Rgba { r: 900, g: 900, b: 900, a: 1000 },
            5 => Rgba { r: 0, g: 0, b: 800, a: 1000 },
            _ => Rgba { r: 1000, g: 0, b: 1000, a: 1000 },
        }
    }
}

} // verus!
