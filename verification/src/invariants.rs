//! What holds of every tick, and of every run of ticks.
//!
//! The statements here are over `tick`, the model of `process_input`, and
//! over `run`, which applies `tick` to one step after the other.

use vstd::prelude::*;
use crate::block::AIR;
use crate::chunk::in_grid;
use crate::config::Settings;
use crate::fixed::{lemma_floor_sqrt_is, normalized, scaled, Vec3, UNIT};
use crate::generation::{is_flat_terrain, lemma_flat_terrain_is_solid_below};
use crate::input::PlayerInput;
use crate::movement::{
    axis,
    direction,
    forward_basis,
    fall_velocity,
    intent,
    jump_fires,
    jumps_in_tick,
    lemma_scaled_u32,
    on_ground,
    prepared,
    settled,
    right_basis,
    target_position,
    tick,
    timer_advanced,
    toggled,
    GROUND_PROBE_DEPTH,
    GROUND_PROBE_HEIGHT,
    TERMINAL_FALL_SPEED,
};
use crate::player::Player;
use crate::world::{capsule_hits_block, nearest_in_slab, World};

verus! {

/// What one tick is given: the input, the view direction and the elapsed
/// milliseconds.
pub struct Step {
    pub input: PlayerInput,
    pub front: Vec3,
    pub up: Vec3,
    pub dt: u32,
}

/// The player after the given steps, one tick each, in their order.
pub open spec fn run(p: Player, steps: Seq<Step>, settings: Settings, world: World) -> Player
    decreases steps.len(),
{
    if steps.len() == 0 {
        p
    } else {
        let step = steps.last();
        tick(
            run(p, steps.drop_last(), settings, world),
            step.input,
            step.front,
            step.up,
            step.dt,
            settings,
            world,
        )
    }
}

/// The milliseconds that the given steps take together.
pub open spec fn elapsed(steps: Seq<Step>) -> int
    decreases steps.len(),
{
    if steps.len() == 0 {
        0
    } else {
        elapsed(steps.drop_last()) + steps.last().dt
    }
}

/// A tick changes neither the shape of the player nor its cooldown.
pub proof fn lemma_tick_keeps_shape(
    p: Player,
    input: PlayerInput,
    front: Vec3,
    up: Vec3,
    dt: u32,
    settings: Settings,
    world: World,
)
    ensures
        ({
            let q = tick(p, input, front, up, dt, settings, world);
            &&& q.radius == p.radius
            &&& q.height == p.height
            &&& q.jump_cooldown == p.jump_cooldown
            &&& q.flying == (p.flying != input.fly_toggle)
        }),
{
}

/// A player that does not fly never falls faster than the terminal fall
/// speed, whatever it did before the tick and however long the tick is.
pub proof fn lemma_fall_speed_is_capped(
    p: Player,
    input: PlayerInput,
    front: Vec3,
    up: Vec3,
    dt: u32,
    settings: Settings,
    world: World,
)
    ensures
        ({
            let q = tick(p, input, front, up, dt, settings, world);
            !q.flying ==> q.velocity.y >= -TERMINAL_FALL_SPEED
        }),
{
}

/// After any run of at least one tick a player that does not fly falls no
/// faster than the terminal fall speed.
pub proof fn lemma_fall_speed_is_capped_in_run(
    p: Player,
    steps: Seq<Step>,
    settings: Settings,
    world: World,
)
    requires
        steps.len() > 0,
    ensures
        ({
            let q = run(p, steps, settings, world);
            !q.flying ==> q.velocity.y >= -TERMINAL_FALL_SPEED
        }),
{
    let step = steps.last();
    lemma_fall_speed_is_capped(
        run(p, steps.drop_last(), settings, world),
        step.input,
        step.front,
        step.up,
        step.dt,
        settings,
        world,
    );
}

/// A flying player is beyond gravity and ground: a tick that ends flying
/// leaves the grounded flag as it was, and its outcome does not depend on
/// gravity or on the jump force.
pub proof fn lemma_flying_ignores_gravity_and_ground(
    p: Player,
    input: PlayerInput,
    front: Vec3,
    up: Vec3,
    dt: u32,
    settings: Settings,
    other: Settings,
    world: World,
)
    requires
        p.flying != input.fly_toggle,
        other.player.speed == settings.player.speed,
        other.player.sprint_multiplier == settings.player.sprint_multiplier,
    ensures
        ({
            let q = tick(p, input, front, up, dt, settings, world);
            &&& q.flying
            &&& q.grounded == p.grounded
            &&& q == tick(p, input, front, up, dt, other, world)
        }),
{
}

/// A move that cannot be stored is dropped: the player stays where it is,
/// grounded or not as before unless it jumped, and keeps the velocity that
/// the tick gave it.
pub proof fn lemma_unstorable_move_is_dropped(
    p: Player,
    input: PlayerInput,
    front: Vec3,
    up: Vec3,
    dt: u32,
    settings: Settings,
    world: World,
)
    requires
        target_position(prepared(p, input, front, up, dt, settings), dt).is_none(),
    ensures
        ({
            let q = tick(p, input, front, up, dt, settings, world);
            &&& q == prepared(p, input, front, up, dt, settings)
            &&& q.position == p.position
            &&& !jumps_in_tick(p, input, dt) ==> q.grounded == p.grounded
        }),
{
}

/// A player that stood on the ground when the tick began, does not fly
/// and is not rising after the tick's steering is grounded when the tick
/// ends, with no vertical velocity, whether or not the probe finds ground.
pub proof fn lemma_grounded_player_stays_grounded(
    p: Player,
    input: PlayerInput,
    front: Vec3,
    up: Vec3,
    dt: u32,
    settings: Settings,
    world: World,
)
    requires
        p.grounded,
        p.flying == input.fly_toggle,
        prepared(p, input, front, up, dt, settings).velocity.y <= 0,
        target_position(prepared(p, input, front, up, dt, settings), dt).is_some(),
    ensures
        ({
            let q = tick(p, input, front, up, dt, settings, world);
            q.grounded && q.velocity.y == 0
        }),
{
}

/// A tick in which the player jumps leaves it with the jump force as its
/// vertical velocity and starts the cooldown anew.
pub proof fn lemma_jump_sets_impulse(
    p: Player,
    input: PlayerInput,
    front: Vec3,
    up: Vec3,
    dt: u32,
    settings: Settings,
    world: World,
)
    requires
        jumps_in_tick(p, input, dt),
    ensures
        ({
            let q = tick(p, input, front, up, dt, settings, world);
            &&& q.time_since_jump == 0
            &&& prepared(p, input, front, up, dt, settings).velocity.y == settings.player.jump_force
        }),
{
}

/// The time since the last jump grows by no more than the time that
/// passes.
pub proof fn lemma_timer_grows_with_time(
    p: Player,
    steps: Seq<Step>,
    settings: Settings,
    world: World,
)
    ensures
        run(p, steps, settings, world).time_since_jump <= p.time_since_jump + elapsed(steps),
        run(p, steps, settings, world).jump_cooldown == p.jump_cooldown,
        elapsed(steps) >= 0,
    decreases steps.len(),
{
    if steps.len() > 0 {
        lemma_timer_grows_with_time(p, steps.drop_last(), settings, world);
    }
}

/// The jump cooldown: after a tick in which the player jumped, no later
/// tick makes it jump again as long as no more than the cooldown has
/// passed since, whatever is held and however the time is cut into ticks.
pub proof fn lemma_no_second_jump_within_cooldown(
    p: Player,
    first: Step,
    later: Seq<Step>,
    next: Step,
    settings: Settings,
    world: World,
)
    requires
        jumps_in_tick(p, first.input, first.dt),
        elapsed(later) + next.dt <= p.jump_cooldown,
    ensures
        !jumps_in_tick(
            run(
                tick(p, first.input, first.front, first.up, first.dt, settings, world),
                later,
                settings,
                world,
            ),
            next.input,
            next.dt,
        ),
{
    let jumped = tick(p, first.input, first.front, first.up, first.dt, settings, world);
    lemma_jump_sets_impulse(p, first.input, first.front, first.up, first.dt, settings, world);
    lemma_timer_grows_with_time(jumped, later, settings, world);
}

/// Whether the world is flat ground of the given height: in every column
/// exactly the cells below `top` are solid.
pub open spec fn is_platform(world: World, top: int) -> bool {
    let n = world.chunk_data.extent();
    &&& 1 <= top <= n
    &&& forall|x: int, y: int, z: int|
        in_grid(n, x, y, z) ==> (#[trigger] world.chunk_data.block_at(x, y, z) != AIR <==> y < top)
}

/// A world of flat terrain whose height lies within the chunk is flat
/// ground of that height.
pub proof fn lemma_flat_terrain_is_platform(world: World, size: int, flat_height: int)
    requires
        is_flat_terrain(world.chunk_data, size, flat_height),
        1 <= flat_height <= size,
    ensures
        is_platform(world, flat_height),
{
    lemma_flat_terrain_is_solid_below(world.chunk_data, size, flat_height);
}

/// Over flat ground a capsule whose axis stands inside the chunk collides
/// exactly when its feet are below the surface and its top is above the
/// floor of the chunk.
pub proof fn lemma_collision_over_platform(
    world: World,
    top: int,
    fx: int,
    fy: int,
    fz: int,
    r: int,
    h: int,
)
    requires
        is_platform(world, top),
        r > 0,
        h > 0,
        0 <= fx <= world.chunk_data.extent() * UNIT,
        0 <= fz <= world.chunk_data.extent() * UNIT,
    ensures
        world.collides(fx, fy, fz, r, h) <==> (fy < top * UNIT && fy + h > 0),
{
    let n = world.chunk_data.extent();
    if fy < top * UNIT && fy + h > 0 {
        let bx = if fx == n * UNIT {
            n - 1
        } else {
            fx / (UNIT as int)
        };
        let bz = if fz == n * UNIT {
            n - 1
        } else {
            fz / (UNIT as int)
        };
        let by = if fy < 0 {
            0
        } else {
            fy / (UNIT as int)
        };
        assert(nearest_in_slab(fx, bx) == fx);
        assert(nearest_in_slab(fz, bz) == fz);
        assert(0 < r * r) by (nonlinear_arith)
            requires
                r > 0,
        ;
        assert(capsule_hits_block(fx, fy, fz, r, h, bx, by, bz));
        assert(world.blocked_by(fx, fy, fz, r, h, bx, by, bz));
    }
    if world.collides(fx, fy, fz, r, h) {
        let (bx, by, bz) = choose|bx: int, by: int, bz: int| #[trigger]
            world.blocked_by(fx, fy, fz, r, h, bx, by, bz);
        assert(world.blocked_by(fx, fy, fz, r, h, bx, by, bz));
        assert(by < top);
    }
}

/// Whether the input asks for no movement on foot: the jump key is not
/// held, no switch of the flying mode is pending, and the movement keys
/// are not held or cancel each other.
pub open spec fn is_passive(input: PlayerInput) -> bool {
    &&& !input.jump
    &&& !input.fly_toggle
    &&& axis(input.forward, input.back) == 0
    &&& axis(input.right, input.left) == 0
}

/// Whether the player is over flat ground of height `top`, on it or in
/// the air, with its axis inside the chunk, not flying, not rising and
/// not moving sideways.
pub open spec fn is_over_platform(p: Player, world: World, top: int) -> bool {
    &&& is_platform(world, top)
    &&& !p.flying
    &&& p.radius > 0
    &&& p.height > 0
    &&& p.velocity.x == 0
    &&& p.velocity.z == 0
    &&& p.velocity.y <= 0
    &&& 0 <= p.position.x <= world.chunk_data.extent() * UNIT
    &&& 0 <= p.position.z <= world.chunk_data.extent() * UNIT
    &&& p.feet_y() >= top * UNIT
}

/// Whether a tick of `dt` milliseconds is too short for a fall at the
/// terminal speed to carry the player from the surface of flat ground of
/// height `top` out through the floor of the chunk.
pub open spec fn cannot_fall_through(p: Player, top: int, dt: u32) -> bool {
    scaled(TERMINAL_FALL_SPEED as int, dt as int) < top * UNIT + p.height
}

/// Movement keys that cancel each other give no direction to move in,
/// wherever the camera looks.
pub proof fn lemma_passive_has_no_direction(
    input: PlayerInput,
    front: Vec3,
    up: Vec3,
    flying: bool,
)
    requires
        axis(input.forward, input.back) == 0,
        axis(input.right, input.left) == 0,
    ensures
        direction(input, front, up, flying) == (Vec3 { x: 0, y: 0, z: 0 }),
{
    let zero = Vec3 { x: 0, y: 0, z: 0 };
    let ahead = forward_basis(front, flying);
    let aside = right_basis(front, up);
    let f = axis(input.forward, input.back);
    let s = axis(input.right, input.left);
    assert(ahead.x * f == 0 && ahead.y * f == 0 && ahead.z * f == 0 && aside.x * s == 0 && aside.y
        * s == 0 && aside.z * s == 0) by (nonlinear_arith)
        requires
            f == 0,
            s == 0,
    ;
    assert(intent(input, front, up, flying) == zero);
    lemma_floor_sqrt_is(0, 0);
    assert(normalized(zero) == zero);
}

/// A fall of one tick is no longer than the terminal fall speed allows.
pub proof fn lemma_fall_is_bounded(vy: int, dt: int)
    requires
        -TERMINAL_FALL_SPEED <= vy <= 0,
        0 <= dt,
    ensures
        -scaled(TERMINAL_FALL_SPEED as int, dt) <= scaled(vy, dt) <= 0,
{
    assert(0 <= -(vy * dt) <= TERMINAL_FALL_SPEED * dt) by (nonlinear_arith)
        requires
            -TERMINAL_FALL_SPEED <= vy <= 0,
            0 <= dt,
    ;
}

/// How far a player with vertical velocity `vy` that asks for no movement
/// falls in a tick of `dt` milliseconds, where nothing is in its way; the
/// fall is negative or zero.
pub open spec fn fall_of_tick(vy: i64, settings: Settings, dt: u32) -> int {
    scaled(fall_velocity(vy as int, settings.player.gravity as int, dt as int), dt as int)
}

/// Free fall over flat ground, one tick. A player over the ground that
/// asks for no movement stays over the ground: it keeps its place
/// sideways and never enters the ground. It falls as far as its velocity
/// carries it where that ends on or above the surface, and stays where it
/// is where that would end in the ground. Once grounded it stays
/// grounded, and a grounded player has no vertical velocity. A player
/// whose feet have come within the probe depth of the surface is
/// grounded, and one whose feet are on the surface rests there.
pub proof fn lemma_free_fall_tick(
    p: Player,
    input: PlayerInput,
    front: Vec3,
    up: Vec3,
    dt: u32,
    settings: Settings,
    world: World,
    top: int,
)
    requires
        is_over_platform(p, world, top),
        is_passive(input),
        cannot_fall_through(p, top, dt),
    ensures
        ({
            let q = tick(p, input, front, up, dt, settings, world);
            &&& is_over_platform(q, world, top)
            &&& q.position.x == p.position.x
            &&& q.position.z == p.position.z
            &&& q.feet_y() <= p.feet_y()
            &&& q.feet_y() == (if p.feet_y() + fall_of_tick(p.velocity.y, settings, dt) >= top
                * UNIT {
                p.feet_y() + fall_of_tick(p.velocity.y, settings, dt)
            } else {
                p.feet_y()
            })
            &&& p.grounded ==> q.grounded
            &&& q.grounded ==> q.velocity.y == 0
            &&& !q.grounded ==> q.velocity.y == fall_velocity(
                p.velocity.y as int,
                settings.player.gravity as int,
                dt as int,
            )
            &&& q.grounded <==> p.grounded || q.feet_y() < top * UNIT + GROUND_PROBE_DEPTH
            &&& p.feet_y() == top * UNIT ==> q.position == p.position && q.grounded
        }),
{
    let ready = prepared(p, input, front, up, dt, settings);
    let before = timer_advanced(toggled(p, input.fly_toggle), dt);
    lemma_passive_has_no_direction(input, front, up, before.flying);
    assert(!jump_fires(before, input));
    lemma_scaled_u32(settings.player.gravity as int, dt as int);
    let vy = fall_velocity(p.velocity.y as int, settings.player.gravity as int, dt as int);
    assert(-TERMINAL_FALL_SPEED <= vy <= 0);
    assert(ready == Player { velocity: Vec3 { x: 0, y: vy as i64, z: 0 }, ..before });
    lemma_fall_is_bounded(vy, dt as int);
    let dy = scaled(vy, dt as int);
    assert(scaled(0, dt as int) == 0);
    let target = Vec3 { x: p.position.x, y: (p.position.y + dy) as i64, z: p.position.z };
    assert(target_position(ready, dt) == Some(target));
    let r = p.radius as int;
    let h = p.height as int;
    lemma_collision_over_platform(
        world,
        top,
        p.position.x as int,
        p.position.y - h,
        p.position.z as int,
        r,
        h,
    );
    lemma_collision_over_platform(
        world,
        top,
        target.x as int,
        target.y - h,
        target.z as int,
        r,
        h,
    );
    let end = world.resolved(p.position, target, r, h);
    assert(end == target || end == p.position);
    assert(end.y - h >= top * UNIT);
    lemma_collision_over_platform(
        world,
        top,
        end.x as int,
        end.y - h - GROUND_PROBE_DEPTH,
        end.z as int,
        r,
        GROUND_PROBE_HEIGHT as int,
    );
    assert(on_ground(world, end, p.radius, p.height) == (end.y - h < top * UNIT
        + GROUND_PROBE_DEPTH));
    assert(tick(p, input, front, up, dt, settings, world) == settled(
        world,
        ready,
        target,
        p.grounded,
    ));
}

/// Whether every one of the steps asks for no movement and is too short
/// to fall through the ground.
pub open spec fn is_free_fall(p: Player, steps: Seq<Step>, top: int) -> bool {
    forall|k: int|
        0 <= k < steps.len() ==> is_passive(#[trigger] steps[k].input) && cannot_fall_through(
            p,
            top,
            steps[k].dt,
        )
}

/// Free fall over flat ground, any number of ticks. The player stays over
/// the ground in its column and never rises. A player that is grounded
/// stays grounded tick after tick, with no vertical velocity, and a player
/// whose feet are on the surface stays exactly there.
pub proof fn lemma_free_fall_run(
    p: Player,
    steps: Seq<Step>,
    settings: Settings,
    world: World,
    top: int,
)
    requires
        is_over_platform(p, world, top),
        is_free_fall(p, steps, top),
    ensures
        ({
            let q = run(p, steps, settings, world);
            &&& is_over_platform(q, world, top)
            &&& q.height == p.height
            &&& q.position.x == p.position.x
            &&& q.position.z == p.position.z
            &&& q.feet_y() <= p.feet_y()
            &&& p.grounded ==> q.grounded
            &&& steps.len() > 0 && q.grounded ==> q.velocity.y == 0
            &&& p.feet_y() == top * UNIT ==> q.position == p.position
            &&& steps.len() > 0 && p.feet_y() == top * UNIT ==> q.grounded
        }),
    decreases steps.len(),
{
    if steps.len() > 0 {
        let earlier = steps.drop_last();
        let step = steps.last();
        assert(is_free_fall(p, earlier, top)) by {
            assert forall|k: int| 0 <= k < earlier.len() implies is_passive(
                #[trigger] earlier[k].input,
            ) && cannot_fall_through(p, top, earlier[k].dt) by {
                assert(earlier[k] == steps[k]);
            }
        }
        lemma_free_fall_run(p, earlier, settings, world, top);
        let before = run(p, earlier, settings, world);
        assert(step == steps[steps.len() - 1]);
        lemma_free_fall_tick(
            before,
            step.input,
            step.front,
            step.up,
            step.dt,
            settings,
            world,
            top,
        );
    }
}

/// Whether a tick of `dt` milliseconds is gentle: time passes, gravity
/// adds to the fall, and even at the terminal speed the fall of the tick
/// is no longer than the ground probe is deep. With the terminal speed and
/// the probe depth of this crate only a tick of one millisecond is gentle.
pub open spec fn is_gentle(dt: u32, settings: Settings) -> bool {
    &&& dt > 0
    &&& scaled(settings.player.gravity as int, dt as int) >= 1
    &&& scaled(TERMINAL_FALL_SPEED as int, dt as int) <= GROUND_PROBE_DEPTH
}

/// Whether every one of the steps asks for no movement and is gentle.
pub open spec fn is_gentle_fall(steps: Seq<Step>, settings: Settings) -> bool {
    forall|k: int|
        0 <= k < steps.len() ==> is_passive(#[trigger] steps[k].input) && is_gentle(
            steps[k].dt,
            settings,
        )
}

/// How far a falling player over flat ground of height `top` is from
/// landing: the speed it has yet to gain before it falls at the terminal
/// speed, plus the height of its feet above the surface.
pub open spec fn distance_to_landing(p: Player, top: int) -> int {
    (if p.velocity.y > -TERMINAL_FALL_SPEED {
        p.velocity.y + TERMINAL_FALL_SPEED
    } else {
        0
    }) + (p.feet_y() - top * UNIT)
}

/// A gentle tick of free fall over flat ground either ends on the ground
/// or brings the player nearer to landing: it gains speed, or it falls at
/// the terminal speed and sinks.
pub proof fn lemma_gentle_tick_nears_landing(
    p: Player,
    input: PlayerInput,
    front: Vec3,
    up: Vec3,
    dt: u32,
    settings: Settings,
    world: World,
    top: int,
)
    requires
        is_over_platform(p, world, top),
        is_passive(input),
        is_gentle(dt, settings),
    ensures
        cannot_fall_through(p, top, dt),
        ({
            let q = tick(p, input, front, up, dt, settings, world);
            q.grounded || distance_to_landing(q, top) < distance_to_landing(p, top)
        }),
{
    assert(top * UNIT >= 1000) by (nonlinear_arith)
        requires
            top >= 1,
    ;
    lemma_free_fall_tick(p, input, front, up, dt, settings, world, top);
    let q = tick(p, input, front, up, dt, settings, world);
    let pull = scaled(settings.player.gravity as int, dt as int);
    let vy = fall_velocity(p.velocity.y as int, settings.player.gravity as int, dt as int);
    let fall = fall_of_tick(p.velocity.y, settings, dt);
    assert(-TERMINAL_FALL_SPEED <= vy <= 0);
    lemma_fall_is_bounded(vy, dt as int);
    if !q.grounded {
        assert(q.feet_y() >= top * UNIT + GROUND_PROBE_DEPTH);
        assert(q.feet_y() == p.feet_y() + fall);
        if p.velocity.y <= -TERMINAL_FALL_SPEED {
            assert(vy == -TERMINAL_FALL_SPEED);
            assert(vy * dt == -(48000 * dt) && 48000 * dt >= 1000) by (nonlinear_arith)
                requires
                    vy == -48000,
                    dt >= 1,
            ;
            assert(fall == scaled(vy, dt as int));
            assert(fall <= -1);
        }
    }
}

/// After any run of gentle free-fall ticks over flat ground the player is
/// on the ground, or it is nearer to landing by at least the number of
/// ticks.
pub proof fn lemma_gentle_fall_nears_landing(
    p: Player,
    steps: Seq<Step>,
    settings: Settings,
    world: World,
    top: int,
)
    requires
        is_over_platform(p, world, top),
        is_gentle_fall(steps, settings),
    ensures
        ({
            let q = run(p, steps, settings, world);
            &&& is_over_platform(q, world, top)
            &&& q.grounded || distance_to_landing(q, top) + steps.len() <= distance_to_landing(
                p,
                top,
            )
            &&& q.grounded ==> p.grounded || q.feet_y() < top * UNIT + GROUND_PROBE_DEPTH
            &&& q.grounded && steps.len() > 0 ==> q.velocity.y == 0
        }),
    decreases steps.len(),
{
    if steps.len() > 0 {
        let earlier = steps.drop_last();
        let step = steps.last();
        assert(is_gentle_fall(earlier, settings)) by {
            assert forall|k: int| 0 <= k < earlier.len() implies is_passive(
                #[trigger] earlier[k].input,
            ) && is_gentle(earlier[k].dt, settings) by {
                assert(earlier[k] == steps[k]);
            }
        }
        lemma_gentle_fall_nears_landing(p, earlier, settings, world, top);
        let before = run(p, earlier, settings, world);
        assert(step == steps[steps.len() - 1]);
        lemma_gentle_tick_nears_landing(
            before,
            step.input,
            step.front,
            step.up,
            step.dt,
            settings,
            world,
            top,
        );
        lemma_free_fall_tick(
            before,
            step.input,
            step.front,
            step.up,
            step.dt,
            settings,
            world,
            top,
        );
    }
}

/// Gentle free fall lands. A player over flat ground that asks for no
/// movement is on the ground, with no vertical velocity, after every run
/// of gentle ticks that is longer than its distance to landing: from that
/// tick on it is grounded at the end of every tick, and unless it was
/// grounded from the start its feet are within the probe depth of the
/// surface. Ticks that are not gentle can stop the player short of the
/// surface for good, because a fall that would end in the ground is
/// refused whole.
pub proof fn lemma_gentle_fall_lands(
    p: Player,
    steps: Seq<Step>,
    settings: Settings,
    world: World,
    top: int,
)
    requires
        is_over_platform(p, world, top),
        is_gentle_fall(steps, settings),
        steps.len() > distance_to_landing(p, top),
    ensures
        ({
            let q = run(p, steps, settings, world);
            &&& q.grounded
            &&& q.velocity.y == 0
            &&& p.grounded || top * UNIT <= q.feet_y() < top * UNIT + GROUND_PROBE_DEPTH
        }),
{
    lemma_gentle_fall_nears_landing(p, steps, settings, world, top);
}

} // verus!
