//! The camera: where the player looks.
//!
//! Yaw and pitch are angles in thousandths of a radian. `front` is the unit
//! vector of the view direction, in thousandths. This crate has no
//! trigonometry: whoever turns the camera works `front` out from yaw and
//! pitch and stores it with `set_front`.

use vstd::prelude::*;
use crate::fixed::{scaled, within_unit_cube, Vec3};

verus! {

/// The steepest pitch, up or down, that a constrained camera takes:
/// one and a half radians, a little under a right angle.
pub const PITCH_LIMIT: i64 = 1500;

/// The yaw of a new camera, a quarter turn to the left: it looks
/// along the negative z axis.
pub const START_YAW: i64 = -1571;

/// The player's camera: the eye anchor and the orientation.
#[derive(Clone, Copy, Debug, PartialEq, Eq, Structural)]
pub struct Camera {
    pub position: Vec3,
    pub front: Vec3,
    pub up: Vec3,
    pub yaw: i64,
    pub pitch: i64,
}

/// `v` cut down to the range of an `i64`.
pub open spec fn clamp_i64(v: int) -> i64 {
    if v < i64::MIN {
        i64::MIN
    } else if v > i64::MAX {
        i64::MAX
    } else {
        v as i64
    }
}

/// The angle `angle` turned by a pointer movement of `offset` at the given
/// sensitivity. The sum stops at the ends of its range.
pub open spec fn turned(angle: i64, offset: int, sensitivity: int) -> i64 {
    clamp_i64(angle + scaled(offset, sensitivity))
}

/// `pitch` cut down to the range from `-PITCH_LIMIT` to `PITCH_LIMIT`.
pub open spec fn constrained(pitch: i64) -> i64 {
    if pitch > PITCH_LIMIT {
        PITCH_LIMIT
    } else if pitch < -PITCH_LIMIT {
        (-PITCH_LIMIT) as i64
    } else {
        pitch
    }
}

/// The camera after the pointer moved by `(x_offset, y_offset)`.
pub open spec fn camera_turned(
    c: Camera,
    x_offset: int,
    y_offset: int,
    constrain_pitch: bool,
    sensitivity: int,
) -> Camera {
    let pitch = turned(c.pitch, y_offset, sensitivity);
    Camera {
        yaw: turned(c.yaw, x_offset, sensitivity),
        pitch: if constrain_pitch {
            constrained(pitch)
        } else {
            pitch
        },
        ..c
    }
}

/// The camera at `position` before any turn.
pub open spec fn start_camera(position: Vec3) -> Camera {
    Camera {
        position,
        front: Vec3 { x: 0, y: 0, z: -1000i64 },
        up: Vec3 { x: 0, y: 1000, z: 0 },
        yaw: START_YAW,
        pitch: 0,
    }
}

fn turn(angle: i64, offset: i64, sensitivity: u32) -> (a: i64)
    ensures
        a == turned(angle, offset as int, sensitivity as int),
{
    let o: i128 = offset as i128;
    let s: i128 = sensitivity as i128;
    assert(-0x8000_0000_0000_0000 * 0xffff_ffff <= o * s <= 0x8000_0000_0000_0000 * 0xffff_ffff)
        by (nonlinear_arith)
        requires
            -0x8000_0000_0000_0000 <= o <= 0x7fff_ffff_ffff_ffff,
            0 <= s <= 0xffff_ffff,
    ;
    let sum: i128 = angle as i128 + (o * s) / 1000;
    if sum < i64::MIN as i128 {
        i64::MIN
    } else if sum > i64::MAX as i128 {
        i64::MAX
    } else {
        sum as i64
    }
}

impl Camera {
    /// A camera at `position` that looks along the negative z axis.
    pub fn new(position: Vec3) -> (c: Camera)
        ensures
            c == start_camera(position),
    {
        Camera {
            position,
            front: Vec3 { x: 0, y: 0, z: -1000 },
            up: Vec3 { x: 0, y: 1000, z: 0 },
            yaw: START_YAW,
            pitch: 0,
        }
    }

    /// Turns the camera by a pointer movement: the yaw by
    /// `x_offset * sensitivity`, the pitch by `y_offset * sensitivity`.
    /// With `constrain_pitch` the pitch stays within `PITCH_LIMIT` of the
    /// horizon, so that the view never flips over. `front` is left as it
    /// is.
    pub fn process_mouse_movement(
        &mut self,
        x_offset: i64,
        y_offset: i64,
        constrain_pitch: bool,
        sensitivity: u32,
    )
        ensures
            *final(self) == camera_turned(
                *old(self),
                x_offset as int,
                y_offset as int,
                constrain_pitch,
                sensitivity as int,
            ),
            constrain_pitch ==> -PITCH_LIMIT <= final(self).pitch <= PITCH_LIMIT,
    {
        self.yaw = turn(self.yaw, x_offset, sensitivity);
        self.pitch = turn(self.pitch, y_offset, sensitivity);
        if constrain_pitch {
            if self.pitch > PITCH_LIMIT {
                self.pitch = PITCH_LIMIT;
            }
            if self.pitch < -PITCH_LIMIT {
                self.pitch = -PITCH_LIMIT;
            }
        }
    }

    /// Stores the view direction that belongs to the yaw and pitch, and
    /// says whether it was taken: a vector that reaches outside the unit
    /// cube is no direction and is refused.
    pub fn set_front(&mut self, front: Vec3) -> (taken: bool)
        ensures
            taken == within_unit_cube(front),
            taken ==> *final(self) == (Camera { front: front, ..*old(self) }),
            !taken ==> *final(self) == *old(self),
    {
        if -1000 <= front.x && front.x <= 1000 && -1000 <= front.y && front.y <= 1000 && -1000
            <= front.z && front.z <= 1000 {
            self.front = front;
            true
        } else {
            false
        }
    }
}

} // verus!
