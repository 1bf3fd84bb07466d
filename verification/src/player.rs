//! The player: a capsule that stands on its feet and looks out of its
//! eyes.

use vstd::prelude::*;
use crate::config::Settings;
use crate::fixed::Vec3;

verus! {

/// The horizontal radius of the player's capsule.
pub const PLAYER_RADIUS: u32 = 300;

/// The height of the eyes above the feet of a player that `spawn_player`
/// places.
pub const PLAYER_HEIGHT: u32 = 1800;

/// The time, in milliseconds, that has to pass after a jump before the
/// next one.
pub const JUMP_COOLDOWN: u64 = 200;

/// How many block edges above the floor of the chunk a player is
/// spawned.
pub const SPAWN_HEIGHT_IN_BLOCKS: u32 = 5;

/// The state of the player. `position` is the eye anchor; the feet lie
/// `height` below it. The velocity is in thousandths of a block per
/// second, the two timers are in milliseconds.
#[derive(Clone, Copy, Debug, PartialEq, Eq, Structural)]
pub struct Player {
    pub position: Vec3,
    pub velocity: Vec3,
    pub grounded: bool,
    pub flying: bool,
    pub radius: u32,
    pub height: u32,
    pub time_since_jump: u64,
    pub jump_cooldown: u64,
}

/// The player that has just been placed at `position`: at rest, in the
/// air, not flying, free to jump only after the first cooldown.
pub open spec fn placed_player(position: Vec3, height: u32) -> Player {
    Player {
        position,
        velocity: Vec3 { x: 0, y: 0, z: 0 },
        grounded: false,
        flying: false,
        radius: PLAYER_RADIUS,
        height,
        time_since_jump: 0,
        jump_cooldown: JUMP_COOLDOWN,
    }
}

/// Where a player is spawned in a world of the given scale: over the
/// middle of the chunk, five block edges up.
pub open spec fn spawn_position(settings: Settings) -> Vec3 {
    let center = (settings.world.chunk_size * settings.world.block_size) / 2;
    Vec3 {
        x: center as i64,
        y: (settings.world.block_size * SPAWN_HEIGHT_IN_BLOCKS) as i64,
        z: center as i64,
    }
}

impl Player {
    /// The height of the feet: `height` below the eyes.
    pub open spec fn feet_y(self) -> int {
        self.position.y - self.height
    }

    /// A player at rest with the eyes at `position` and the feet `height`
    /// below.
    pub fn new(position: Vec3, height: u32) -> (p: Player)
        ensures
            p == placed_player(position, height),
    {
        Player {
            position,
            velocity: Vec3 { x: 0, y: 0, z: 0 },
            grounded: false,
            flying: false,
            radius: PLAYER_RADIUS,
            height,
            time_since_jump: 0,
            jump_cooldown: JUMP_COOLDOWN,
        }
    }

    /// The feet anchor, or `None` where it lies below the range of the
    /// coordinates.
    pub fn feet_position(&self) -> (feet: Option<Vec3>)
        ensures
            feet == (if self.feet_y() >= i64::MIN {
                Some(Vec3 { x: self.position.x, y: self.feet_y() as i64, z: self.position.z })
            } else {
                None
            }),
    {
        match self.position.y.checked_sub(self.height as i64) {
            Some(y) => Some(Vec3 { x: self.position.x, y, z: self.position.z }),
            None => None,
        }
    }
}

/// Places a new player over the middle of a chunk of the scale that
/// `settings` give.
pub fn spawn_player(settings: &Settings) -> (p: Player)
    ensures
        p == placed_player(spawn_position(*settings), PLAYER_HEIGHT),
{
    let size: u64 = settings.world.chunk_size as u64;
    let block: u64 = settings.world.block_size as u64;
    assert(0 <= size * block <= 0xffff_ffff * 0xffff_ffff) by (nonlinear_arith)
        requires
            0 <= size <= 0xffff_ffff,
            0 <= block <= 0xffff_ffff,
    ;
    let center: u64 = (size * block) / 2;
    let rise: u64 = SPAWN_HEIGHT_IN_BLOCKS as u64;
    assert(rise == 5);
    let up: u64 = block * rise;
    Player::new(Vec3 { x: center as i64, y: up as i64, z: center as i64 }, PLAYER_HEIGHT)
}

} // verus!
