//! One tick of the player.
//!
//! A tick turns the held keys and the elapsed time into a velocity, the
//! velocity into a target position, and lets the world resolve the move.
//! Then it probes the ground under the feet.
//!
//! The order within a tick is fixed:
//!
//! 1. A pending switch of the flying mode is applied and the time since
//!    the last jump grows by the elapsed time.
//! 2. The held movement keys are combined, along the camera's direction
//!    and across it, into one direction of unit length. Unless the player
//!    flies, forward is horizontal wherever the camera looks.
//! 3. With a direction the horizontal velocity becomes direction times
//!    speed at once; without one it stays as it is.
//! 4. A flying player rises and sinks with the jump and descend keys alone;
//!    any other falls under gravity, never faster than
//!    `TERMINAL_FALL_SPEED`, or jumps.
//! 5. The target is the position plus velocity times elapsed time. A
//!    target that cannot be stored drops the move of this tick.
//! 6. The world resolves the move, the ground is probed, and a player
//!    that stood on the ground when the tick began and is not rising is
//!    kept on the ground for this tick.
//!
//! The elapsed time is in milliseconds. The caller caps it: a tick that
//! covers a long time moves the player far.

use vstd::prelude::*;
use crate::camera::Camera;
use crate::config::{Config, Settings};
use crate::fixed::{
    cross,
    cross_product,
    fits_coord,
    normalize,
    normalized,
    scale,
    scaled,
    sum_in_range,
    within_unit_cube,
    Vec3,
};
use crate::input::PlayerInput;
use crate::player::Player;
use crate::world::World;

verus! {

/// The speed of a flying player that does not sprint.
pub const FLY_SPEED: u32 = 8000;

/// The fastest fall: gravity never drives the vertical velocity below
/// minus this.
pub const TERMINAL_FALL_SPEED: i64 = 48000;

/// How far below the feet the ground is probed.
pub const GROUND_PROBE_DEPTH: i64 = 50;

/// The height of the probe that looks for ground.
pub const GROUND_PROBE_HEIGHT: u32 = 100;

/// One for the first key, minus one for the second, zero for both or
/// none.
pub open spec fn axis(positive: bool, negative: bool) -> int {
    (if positive {
        1int
    } else {
        0int
    }) - (if negative {
        1int
    } else {
        0int
    })
}

/// `v` without its vertical component.
pub open spec fn flat(v: Vec3) -> Vec3 {
    Vec3 { x: v.x, y: 0, z: v.z }
}

/// The unit vector along which the forward key moves the player: the view
/// direction for a flying player, its horizontal part for any other.
pub open spec fn forward_basis(front: Vec3, flying: bool) -> Vec3 {
    if flying {
        normalized(front)
    } else {
        normalized(flat(front))
    }
}

/// The unit vector to the right of the view direction: across the view
/// direction and the camera's upward direction.
pub open spec fn right_basis(front: Vec3, up: Vec3) -> Vec3 {
    normalized(cross_product(normalized(front), normalized(up)))
}

/// The movement that the held keys ask for, before it is brought to unit
/// length. Opposite keys cancel.
pub open spec fn intent(input: PlayerInput, front: Vec3, up: Vec3, flying: bool) -> Vec3 {
    let ahead = forward_basis(front, flying);
    let aside = right_basis(front, up);
    let f = axis(input.forward, input.back);
    let s = axis(input.right, input.left);
    Vec3 {
        x: (ahead.x * f + aside.x * s) as i64,
        y: (ahead.y * f + aside.y * s) as i64,
        z: (ahead.z * f + aside.z * s) as i64,
    }
}

/// The direction of unit length in which the held keys move the player,
/// or zero where they ask for no movement.
pub open spec fn direction(input: PlayerInput, front: Vec3, up: Vec3, flying: bool) -> Vec3 {
    normalized(intent(input, front, up, flying))
}

/// The speed of the player: the sprinting speed while the sprint key is
/// held, else the flying speed for a flying player, else the walking
/// speed.
pub open spec fn move_speed(input: PlayerInput, flying: bool, settings: Settings) -> int {
    if input.sprint {
        scaled(settings.player.speed as int, settings.player.sprint_multiplier as int)
    } else if flying {
        FLY_SPEED as int
    } else {
        settings.player.speed as int
    }
}

/// The vertical velocity `vy` after gravity has pulled for `dt`
/// milliseconds, held at the terminal fall speed.
pub open spec fn fall_velocity(vy: int, gravity: int, dt: int) -> int {
    let pulled = vy - scaled(gravity, dt);
    if pulled < -TERMINAL_FALL_SPEED {
        -TERMINAL_FALL_SPEED as int
    } else {
        pulled
    }
}

/// `t + dt`, or the largest `u64` where the sum is larger.
pub open spec fn timer_sum(t: u64, dt: u32) -> u64 {
    if t + dt > u64::MAX {
        u64::MAX
    } else {
        (t + dt) as u64
    }
}

/// The player after a pending switch of the flying mode. A player that
/// starts to fly stops rising or falling.
pub open spec fn toggled(p: Player, toggle: bool) -> Player {
    if !toggle {
        p
    } else if p.flying {
        Player { flying: false, ..p }
    } else {
        Player { flying: true, velocity: Vec3 { y: 0, ..p.velocity }, ..p }
    }
}

/// The player with the time since the last jump grown by `dt`.
pub open spec fn timer_advanced(p: Player, dt: u32) -> Player {
    Player { time_since_jump: timer_sum(p.time_since_jump, dt), ..p }
}

/// Whether the player jumps in this tick: the jump key is held, the
/// player stands on the ground and does not fly, and the cooldown has
/// passed since the last jump.
pub open spec fn jump_fires(p: Player, input: PlayerInput) -> bool {
    !p.flying && input.jump && p.grounded && p.time_since_jump > p.jump_cooldown
}

/// The player with the velocity that the keys, gravity and a jump give
/// it. With a direction the horizontal velocity is the horizontal part of
/// direction times speed. The vertical velocity of a flying player is the
/// speed upwards or downwards as the jump and descend keys say. A jump
/// sets the vertical velocity to the jump force, takes the player off the
/// ground and starts the cooldown.
pub open spec fn steered(
    p: Player,
    input: PlayerInput,
    front: Vec3,
    up: Vec3,
    dt: u32,
    settings: Settings,
) -> Player {
    let dir = direction(input, front, up, p.flying);
    let speed = move_speed(input, p.flying, settings);
    let moving = dir != (Vec3 { x: 0, y: 0, z: 0 });
    let vx = if moving {
        scaled(dir.x as int, speed) as i64
    } else {
        p.velocity.x
    };
    let vz = if moving {
        scaled(dir.z as int, speed) as i64
    } else {
        p.velocity.z
    };
    if p.flying {
        let vy = axis(input.jump, input.descend) * speed;
        Player { velocity: Vec3 { x: vx, y: vy as i64, z: vz }, ..p }
    } else if jump_fires(p, input) {
        Player {
            velocity: Vec3 { x: vx, y: settings.player.jump_force as i64, z: vz },
            grounded: false,
            time_since_jump: 0,
            ..p
        }
    } else {
        Player {
            velocity: Vec3 {
                x: vx,
                y: fall_velocity(
                    p.velocity.y as int,
                    settings.player.gravity as int,
                    dt as int,
                ) as i64,
                z: vz,
            },
            ..p
        }
    }
}

/// How far the velocity `v` carries in `dt` milliseconds, or `None` where
/// that cannot be stored.
pub open spec fn displacement(v: Vec3, dt: u32) -> Option<Vec3> {
    if fits_coord(scaled(v.x as int, dt as int)) && fits_coord(scaled(v.y as int, dt as int))
        && fits_coord(scaled(v.z as int, dt as int)) {
        Some(
            Vec3 {
                x: scaled(v.x as int, dt as int) as i64,
                y: scaled(v.y as int, dt as int) as i64,
                z: scaled(v.z as int, dt as int) as i64,
            },
        )
    } else {
        None
    }
}

/// Where the player's velocity carries it in `dt` milliseconds, or `None`
/// where the move cannot be stored.
pub open spec fn target_position(p: Player, dt: u32) -> Option<Vec3> {
    match displacement(p.velocity, dt) {
        Some(d) => sum_in_range(p.position, d),
        None => None,
    }
}

/// Whether there is ground under a player whose eyes are at `eye`: whether
/// a low probe just below the feet overlaps a solid block.
pub open spec fn on_ground(world: World, eye: Vec3, radius: u32, height: u32) -> bool {
    world.collides(
        eye.x as int,
        eye.y - height - GROUND_PROBE_DEPTH,
        eye.z as int,
        radius as int,
        GROUND_PROBE_HEIGHT as int,
    )
}

/// The player after its move towards `target` was resolved and the ground
/// was probed. `was_grounded` says whether it stood on the ground when
/// the tick began. A flying player only moves.
pub open spec fn settled(world: World, p: Player, target: Vec3, was_grounded: bool) -> Player {
    let position = world.resolved(p.position, target, p.radius as int, p.height as int);
    if p.flying {
        Player { position, ..p }
    } else if on_ground(world, position, p.radius, p.height) {
        Player {
            position,
            grounded: true,
            velocity: if p.velocity.y <= 0 {
                Vec3 { y: 0, ..p.velocity }
            } else {
                p.velocity
            },
            ..p
        }
    } else if was_grounded && p.velocity.y <= 0 {
        Player { position, grounded: true, velocity: Vec3 { y: 0, ..p.velocity }, ..p }
    } else {
        Player { position, grounded: false, ..p }
    }
}

/// The player before its move: after the switch of the flying mode, the
/// timer and the new velocity.
pub open spec fn prepared(
    p: Player,
    input: PlayerInput,
    front: Vec3,
    up: Vec3,
    dt: u32,
    settings: Settings,
) -> Player {
    steered(timer_advanced(toggled(p, input.fly_toggle), dt), input, front, up, dt, settings)
}

/// The player after one tick of `dt` milliseconds.
pub open spec fn tick(
    p: Player,
    input: PlayerInput,
    front: Vec3,
    up: Vec3,
    dt: u32,
    settings: Settings,
    world: World,
) -> Player {
    let ready = prepared(p, input, front, up, dt, settings);
    match target_position(ready, dt) {
        Some(target) => settled(world, ready, target, p.grounded),
        None => ready,
    }
}

/// Whether the tick that takes `p` over makes it jump.
pub open spec fn jumps_in_tick(p: Player, input: PlayerInput, dt: u32) -> bool {
    jump_fires(timer_advanced(toggled(p, input.fly_toggle), dt), input)
}

/// Scaling a number of at most one unit by `b` gives at most `b`.
pub proof fn lemma_scaled_by_fraction(a: int, b: int)
    requires
        -1000 <= a <= 1000,
        0 <= b,
    ensures
        -b <= scaled(a, b) <= b,
{
    if a >= 0 {
        assert(0 <= a * b <= 1000 * b) by (nonlinear_arith)
            requires
                0 <= a <= 1000,
                0 <= b,
        ;
    } else {
        assert(0 <= -(a * b) <= 1000 * b) by (nonlinear_arith)
            requires
                -1000 <= a < 0,
                0 <= b,
        ;
    }
}

/// The product of two `u32` fixed-point numbers is small.
pub proof fn lemma_scaled_u32(a: int, b: int)
    requires
        0 <= a <= u32::MAX,
        0 <= b <= u32::MAX,
    ensures
        0 <= scaled(a, b) <= 0x0080_0000_0000_0000,
{
    assert(0 <= a * b <= 0xffff_ffff * 0xffff_ffff) by (nonlinear_arith)
        requires
            0 <= a <= 0xffff_ffff,
            0 <= b <= 0xffff_ffff,
    ;
}

fn key_axis(positive: bool, negative: bool) -> (a: i64)
    ensures
        a == axis(positive, negative),
{
    let up: i64 = if positive {
        1
    } else {
        0
    };
    let down: i64 = if negative {
        1
    } else {
        0
    };
    up - down
}

/// The direction of unit length in which the held keys move the player.
pub fn movement_direction(input: &PlayerInput, front: Vec3, up: Vec3, flying: bool) -> (dir:
    Vec3)
    ensures
        dir == direction(*input, front, up, flying),
        within_unit_cube(dir),
{
    let view: Vec3 = normalize(front);
    let ahead: Vec3 = if flying {
        view
    } else {
        normalize(Vec3 { x: front.x, y: 0, z: front.z })
    };
    let aside: Vec3 = normalize(cross(view, normalize(up)));
    let f: i64 = key_axis(input.forward, input.back);
    let s: i64 = key_axis(input.right, input.left);
    assert(-1000 <= ahead.x * f <= 1000 && -1000 <= ahead.y * f <= 1000 && -1000 <= ahead.z * f
        <= 1000 && -1000 <= aside.x * s <= 1000 && -1000 <= aside.y * s <= 1000 && -1000
        <= aside.z * s <= 1000) by (nonlinear_arith)
        requires
            within_unit_cube(ahead),
            within_unit_cube(aside),
            -1 <= f <= 1,
            -1 <= s <= 1,
    ;
    normalize(
        Vec3 {
            x: ahead.x * f + aside.x * s,
            y: ahead.y * f + aside.y * s,
            z: ahead.z * f + aside.z * s,
        },
    )
}

/// The speed at which the player moves in this tick.
pub fn speed_for(input: &PlayerInput, flying: bool, settings: &Settings) -> (speed: i64)
    ensures
        speed == move_speed(*input, flying, *settings),
        0 <= speed <= 0x0080_0000_0000_0000,
{
    if input.sprint {
        proof {
            lemma_scaled_u32(
                settings.player.speed as int,
                settings.player.sprint_multiplier as int,
            );
        }
        scale(settings.player.speed as i64, settings.player.sprint_multiplier as i64).unwrap()
    } else if flying {
        FLY_SPEED as i64
    } else {
        settings.player.speed as i64
    }
}

/// Pulls the player down: the vertical velocity falls by gravity times
/// the elapsed time and stops at the terminal fall speed.
pub fn apply_gravity(player: &mut Player, delta_time: u32, settings: &Settings)
    ensures
        *final(player) == (Player {
            velocity: Vec3 {
                y: fall_velocity(
                    old(player).velocity.y as int,
                    settings.player.gravity as int,
                    delta_time as int,
                ) as i64,
                ..old(player).velocity
            },
            ..*old(player)
        }),
        final(player).velocity.y >= -TERMINAL_FALL_SPEED,
        final(player).velocity.y <= old(player).velocity.y || final(player).velocity.y
            == -TERMINAL_FALL_SPEED,
{
    proof {
        lemma_scaled_u32(settings.player.gravity as int, delta_time as int);
    }
    let pull: i64 = scale(settings.player.gravity as i64, delta_time as i64).unwrap();
    let pulled: i128 = player.velocity.y as i128 - pull as i128;
    if pulled < -(TERMINAL_FALL_SPEED as i128) {
        player.velocity.y = -TERMINAL_FALL_SPEED;
    } else {
        player.velocity.y = pulled as i64;
    }
}

/// Gives the player the velocity of this tick from the held keys, gravity
/// and a jump.
pub fn player_movement(
    player: &mut Player,
    input: &PlayerInput,
    front: Vec3,
    up: Vec3,
    delta_time: u32,
    settings: &Settings,
)
    ensures
        *final(player) == steered(*old(player), *input, front, up, delta_time, *settings),
{
    let dir: Vec3 = movement_direction(input, front, up, player.flying);
    let speed: i64 = speed_for(input, player.flying, settings);
    proof {
        lemma_scaled_by_fraction(dir.x as int, speed as int);
        lemma_scaled_by_fraction(dir.z as int, speed as int);
    }
    if dir.x != 0 || dir.y != 0 || dir.z != 0 {
        player.velocity.x = scale(dir.x, speed).unwrap();
        player.velocity.z = scale(dir.z, speed).unwrap();
    }
    if player.flying {
        let lift: i64 = key_axis(input.jump, input.descend);
        assert(-speed <= lift * speed <= speed) by (nonlinear_arith)
            requires
                -1 <= lift <= 1,
                0 <= speed,
        ;
        player.velocity.y = lift * speed;
    } else if input.jump && player.grounded && player.time_since_jump > player.jump_cooldown {
        player.velocity.y = settings.player.jump_force as i64;
        player.grounded = false;
        player.time_since_jump = 0;
    } else {
        apply_gravity(player, delta_time, settings);
    }
}

/// Where the player's velocity carries it in `delta_time` milliseconds.
pub fn movement_target(player: &Player, delta_time: u32) -> (target: Option<Vec3>)
    ensures
        target == target_position(*player, delta_time),
{
    let dt: i64 = delta_time as i64;
    let v: Vec3 = player.velocity;
    match (scale(v.x, dt), scale(v.y, dt), scale(v.z, dt)) {
        (Some(x), Some(y), Some(z)) => player.position.checked_add(Vec3 { x, y, z }),
        _ => None,
    }
}

/// Whether there is ground under a player whose eyes are at `eye`.
pub fn probe_ground(world: &World, eye: Vec3, radius: u32, height: u32) -> (found: bool)
    ensures
        found == on_ground(*world, eye, radius, height),
{
    let feet_y: i128 = eye.y as i128 - height as i128 - GROUND_PROBE_DEPTH as i128;
    if feet_y < i64::MIN as i128 {
        proof {
            world.chunk_data.lemma_extent_bounds();
            world.lemma_outside_grid_is_free(
                eye.x as int,
                feet_y as int,
                eye.z as int,
                radius as int,
                GROUND_PROBE_HEIGHT as int,
            );
        }
        false
    } else {
        world.check_collision(
            &Vec3 { x: eye.x, y: feet_y as i64, z: eye.z },
            radius,
            GROUND_PROBE_HEIGHT,
        )
    }
}

/// Moves the player towards `target` as far as the world lets it, then
/// looks for ground under its feet. On the ground a player that is not
/// rising comes to rest vertically. A player that stood on the ground
/// when the tick began (`was_grounded`) and is not rising stays grounded
/// for this tick even where the probe finds nothing: stepping over an edge
/// does not make it airborne at once.
pub fn handle_collisions(player: &mut Player, target: Vec3, was_grounded: bool, world: &World)
    ensures
        *final(player) == settled(*world, *old(player), target, was_grounded),
{
    player.position = world.resolve_collision(
        player.position,
        target,
        player.radius,
        player.height,
    );
    if !player.flying {
        if probe_ground(world, player.position, player.radius, player.height) {
            player.grounded = true;
            if player.velocity.y <= 0 {
                player.velocity.y = 0;
            }
        } else if was_grounded && player.velocity.y <= 0 {
            player.grounded = true;
            player.velocity.y = 0;
        } else {
            player.grounded = false;
        }
    }
}

/// Runs one tick of `delta_time` milliseconds: moves the player as the
/// held keys, gravity and the world allow, and lets the camera follow the
/// eyes. A pending switch of the flying mode is used up.
pub fn process_input(
    player_input: &mut PlayerInput,
    player: &mut Player,
    camera: &mut Camera,
    delta_time: u32,
    settings: &Settings,
    world: &World,
)
    ensures
        *final(player) == tick(
            *old(player),
            *old(player_input),
            old(camera).front,
            old(camera).up,
            delta_time,
            *settings,
            *world,
        ),
        *final(camera) == (Camera { position: final(player).position, ..*old(camera) }),
        *final(player_input) == (PlayerInput { fly_toggle: false, ..*old(player_input) }),
{
    let was_grounded: bool = player.grounded;
    if player_input.fly_toggle {
        player.flying = !player.flying;
        if player.flying {
            player.velocity.y = 0;
        }
        player_input.fly_toggle = false;
    }
    player.time_since_jump = player.time_since_jump.saturating_add(delta_time as u64);
    player_movement(player, player_input, camera.front, camera.up, delta_time, settings);
    match movement_target(player, delta_time) {
        Some(target) => {
            handle_collisions(player, target, was_grounded, world);
        },
        None => {},
    }
    camera.position = player.position;
}

/// Runs one tick while the cursor is locked to the window. With a free
/// cursor the program shows a menu and the player stands still.
pub fn handle_movement_input(
    camera: &mut Camera,
    player_input: &mut PlayerInput,
    player: &mut Player,
    delta_time: u32,
    config: &Config,
    settings: &Settings,
    world: &World,
)
    ensures
        !config.controls.cursor_locked ==> *final(player) == *old(player) && *final(camera)
            == *old(camera) && *final(player_input) == *old(player_input),
        config.controls.cursor_locked ==> {
            &&& *final(player) == tick(
                *old(player),
                *old(player_input),
                old(camera).front,
                old(camera).up,
                delta_time,
                *settings,
                *world,
            )
            &&& *final(camera) == (Camera { position: final(player).position, ..*old(camera) })
            &&& *final(player_input) == (PlayerInput { fly_toggle: false, ..*old(player_input) })
        },
{
    if !config.controls.cursor_locked {
        return ;
    }
    process_input(player_input, player, camera, delta_time, settings, world);
}

/// Turns the camera by the pointer movement that has gathered since the
/// last tick and uses the movement up. The yaw follows the pointer to the
/// right; the pitch rises when the pointer moves up, and stays within
/// `PITCH_LIMIT`.
pub fn mouse_look(camera: &mut Camera, player_input: &mut PlayerInput, settings: &Settings)
    ensures
        *final(camera) == crate::camera::camera_turned(
            *old(camera),
            old(player_input).pointer_dx as int,
            -old(player_input).pointer_dy,
            true,
            settings.player.sensitivity as int,
        ),
        *final(player_input) == (PlayerInput {
            pointer_dx: 0,
            pointer_dy: 0,
            ..*old(player_input)
        }),
{
    camera.process_mouse_movement(
        player_input.pointer_dx as i64,
        -(player_input.pointer_dy as i64),
        true,
        settings.player.sensitivity,
    );
    player_input.pointer_dx = 0;
    player_input.pointer_dy = 0;
}

} // verus!
