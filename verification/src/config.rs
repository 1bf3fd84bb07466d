//! Configuration of the program and the parameters of the simulation.
//!
//! `Config` is what the program keeps between runs: window, camera,
//! controls and physics. `Settings` is what one tick of the simulation
//! reads. Fractions are thousandths, as everywhere in this crate.
//!
//! The physics of `Config` are per frame of a display that shows sixty
//! frames a second; `Settings` are per second.

use vstd::prelude::*;
use crate::fixed::Vec3;

verus! {

/// The number of frames in a second to which the physics of `Config`
/// refer.
pub const FRAMES_PER_SECOND: u32 = 60;

/// The walking speed that `Config::settings` hands out.
pub const WALK_SPEED: u32 = 5000;

/// The factor by which sprinting multiplies the walking speed in the
/// settings that `Config::settings` hands out.
pub const SPRINT_MULTIPLIER: u32 = 3000;

/// The window of the program.
#[derive(Clone, Debug, PartialEq, Eq)]
pub struct WindowConfig {
    pub width: u32,
    pub height: u32,
    pub title: String,
    pub fullscreen: bool,
    pub vsync: bool,
}

/// The camera: pointer sensitivity, field of view in degrees, clipping
/// planes and the position at which the player starts.
#[derive(Clone, Copy, Debug, PartialEq, Eq, Structural)]
pub struct CameraConfig {
    pub sensitivity: u32,
    pub fov: u32,
    pub near_plane: u32,
    pub far_plane: u32,
    pub position_x: i64,
    pub position_y: i64,
    pub position_z: i64,
}

/// The controls.
#[derive(Clone, Copy, Debug, PartialEq, Eq, Structural)]
pub struct ControlsConfig {
    pub cursor_locked: bool,
}

/// The physics of the player: the speed that gravity adds in one frame,
/// the upward speed of a jump in blocks per frame, and the height of the
/// eyes above the feet.
#[derive(Clone, Copy, Debug, PartialEq, Eq, Structural)]
pub struct PhysicsConfig {
    pub gravity: u32,
    pub jump_force: u32,
    pub player_height: u32,
}

/// The configuration of the program.
#[derive(Clone, Debug, PartialEq, Eq)]
pub struct Config {
    pub window: WindowConfig,
    pub camera: CameraConfig,
    pub controls: ControlsConfig,
    pub physics: PhysicsConfig,
}

/// What the player's movement reads in a tick: speeds in thousandths of a
/// block per second, gravity per second squared, the sprint multiplier and
/// the pointer sensitivity as factors.
#[derive(Clone, Copy, Debug, PartialEq, Eq, Structural)]
pub struct PlayerSettings {
    pub speed: u32,
    pub sprint_multiplier: u32,
    pub sensitivity: u32,
    pub jump_force: u32,
    pub gravity: u32,
}

/// The scale of the world: the edge of a block and the number of blocks
/// along the edge of a chunk.
#[derive(Clone, Copy, Debug, PartialEq, Eq, Structural)]
pub struct WorldSettings {
    pub block_size: u32,
    pub chunk_size: u32,
}

/// The parameters of the simulation. A tick reads them and never changes
/// them.
#[derive(Clone, Copy, Debug, PartialEq, Eq, Structural)]
pub struct Settings {
    pub player: PlayerSettings,
    pub world: WorldSettings,
}

/// `a * b`, or the largest `u32` where the product is larger.
pub open spec fn capped_product(a: int, b: int) -> u32 {
    if a * b > u32::MAX {
        u32::MAX
    } else {
        (a * b) as u32
    }
}

/// The settings that belong to a configuration: its physics per second,
/// its pointer sensitivity, and the fixed walking speed, sprint
/// multiplier and world scale.
pub open spec fn settings_of(c: Config) -> Settings {
    Settings {
        player: PlayerSettings {
            speed: WALK_SPEED,
            sprint_multiplier: SPRINT_MULTIPLIER,
            sensitivity: c.camera.sensitivity,
            jump_force: capped_product(c.physics.jump_force as int, FRAMES_PER_SECOND as int),
            gravity: capped_product(
                c.physics.gravity as int,
                FRAMES_PER_SECOND * FRAMES_PER_SECOND,
            ),
        },
        world: WorldSettings { block_size: 1000, chunk_size: 16 },
    }
}

/// The window after the fullscreen key was pressed while the window had
/// the given size: fullscreen is switched, and a window that goes
/// fullscreen remembers the size it had.
pub open spec fn fullscreen_toggled(w: WindowConfig, width: u32, height: u32) -> WindowConfig {
    if w.fullscreen {
        WindowConfig { fullscreen: false, ..w }
    } else {
        WindowConfig { fullscreen: true, width: width, height: height, ..w }
    }
}

/// Whether `c` is the configuration with which the program starts.
pub open spec fn is_default_config(c: Config) -> bool {
    &&& c.window.width == 1280
    &&& c.window.height == 720
    &&& c.window.title@ == "Cubix"@
    &&& c.window.fullscreen
    &&& c.window.vsync
    &&& c.camera == (CameraConfig {
        sensitivity: 100,
        fov: 70000,
        near_plane: 100,
        far_plane: 1000000,
        position_x: 8000,
        position_y: 8000,
        position_z: 8000,
    })
    &&& c.controls == (ControlsConfig { cursor_locked: true })
    &&& c.physics == (PhysicsConfig { gravity: 15, jump_force: 200, player_height: 1800 })
}

/// The settings with which a simulation starts.
pub open spec fn default_settings() -> Settings {
    Settings {
        player: PlayerSettings {
            speed: 5000,
            sprint_multiplier: 3000,
            sensitivity: 100,
            jump_force: 8000,
            gravity: 20000,
        },
        world: WorldSettings { block_size: 1000, chunk_size: 10 },
    }
}

fn capped_mul(a: u32, b: u32) -> (p: u32)
    ensures
        p == capped_product(a as int, b as int),
{
    assert(0 <= a * b <= 0xffff_ffff * 0xffff_ffff) by (nonlinear_arith)
        requires
            0 <= a <= 0xffff_ffff,
            0 <= b <= 0xffff_ffff,
    ;
    let wide: u64 = (a as u64) * (b as u64);
    if wide > u32::MAX as u64 {
        u32::MAX
    } else {
        wide as u32
    }
}

impl Default for Config {
    fn default() -> (c: Config)
        ensures
            is_default_config(c),
    {
        Config {
            window: WindowConfig {
                width: 1280,
                height: 720,
                title: "Cubix".to_owned(),
                fullscreen: true,
                vsync: true,
            },
            camera: CameraConfig {
                sensitivity: 100,
                fov: 70000,
                near_plane: 100,
                far_plane: 1000000,
                position_x: 8000,
                position_y: 8000,
                position_z: 8000,
            },
            controls: ControlsConfig { cursor_locked: true },
            physics: PhysicsConfig { gravity: 15, jump_force: 200, player_height: 1800 },
        }
    }
}

impl Default for Settings {
    fn default() -> (s: Settings)
        ensures
            s == default_settings(),
    {
        Settings {
            player: PlayerSettings {
                speed: 5000,
                sprint_multiplier: 3000,
                sensitivity: 100,
                jump_force: 8000,
                gravity: 20000,
            },
            world: WorldSettings { block_size: 1000, chunk_size: 10 },
        }
    }
}

impl WindowConfig {
    /// Handles the fullscreen key. `width` and `height` are the size of the
    /// window at that moment. Returns whether the window is fullscreen
    /// from now on.
    pub fn toggle_fullscreen(&mut self, width: u32, height: u32) -> (fullscreen: bool)
        ensures
            *final(self) == fullscreen_toggled(*old(self), width, height),
            fullscreen == !old(self).fullscreen,
    {
        self.fullscreen = !self.fullscreen;
        if self.fullscreen {
            self.width = width;
            self.height = height;
        }
        self.fullscreen
    }
}

impl Config {
    /// The settings of the simulation that belong to this configuration.
    pub fn settings(&self) -> (s: Settings)
        ensures
            s == settings_of(*self),
    {
        Settings {
            player: PlayerSettings {
                speed: WALK_SPEED,
                sprint_multiplier: SPRINT_MULTIPLIER,
                sensitivity: self.camera.sensitivity,
                jump_force: capped_mul(self.physics.jump_force, FRAMES_PER_SECOND),
                gravity: capped_mul(self.physics.gravity, FRAMES_PER_SECOND * FRAMES_PER_SECOND),
            },
            world: WorldSettings { block_size: 1000, chunk_size: 16 },
        }
    }

    /// The position at which the player's eyes start.
    pub fn start_position(&self) -> (p: Vec3)
        ensures
            p == (Vec3 {
                x: self.camera.position_x,
                y: self.camera.position_y,
                z: self.camera.position_z,
            }),
    {
        Vec3 { x: self.camera.position_x, y: self.camera.position_y, z: self.camera.position_z }
    }
}

} // verus!
