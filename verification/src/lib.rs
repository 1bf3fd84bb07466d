//! A small voxel world: a dense block grid, its terrain generator, capsule
//! collision against the grid and the per-tick player kinematics, all in
//! integer fixed-point arithmetic.

pub mod block;
pub mod chunk;
pub mod fixed;
pub mod generation;
pub mod world;
pub mod config;
pub mod camera;
pub mod input;
pub mod player;
pub mod movement;
pub mod invariants;
pub mod events;
