//! The keys that the player holds and the pointer movement of one tick.

use vstd::prelude::*;

verus! {

/// The largest pointer movement, along one axis, that a single pointer
/// event contributes; larger jumps are cut down to it.
pub const MAX_MOVEMENT: i64 = 100000;

/// The keys that the simulation and the program react to.
#[derive(Clone, Copy, Debug, PartialEq, Eq, Structural)]
pub enum Key {
    /// Forward.
    W,
    /// Strafe left.
    A,
    /// Back.
    S,
    /// Strafe right.
    D,
    /// Jump; rise while flying.
    Space,
    /// Sink while flying.
    LeftShift,
    /// Sprint.
    LeftControl,
    /// Switch flying on or off.
    F,
    /// Close the window.
    Escape,
    /// Switch fullscreen on or off.
    F11,
}

/// What happened to a key.
#[derive(Clone, Copy, Debug, PartialEq, Eq, Structural)]
pub enum Action {
    Release,
    Press,
    Repeat,
}

/// The input of one tick: which keys are held, whether flying was switched
/// since the last tick, and how far the pointer moved since then, in
/// thousandths of a pointer step. Every key that `Key` names has its
/// state here, the two window keys too.
#[derive(Clone, Copy, Debug, PartialEq, Eq, Structural)]
pub struct PlayerInput {
    pub forward: bool,
    pub back: bool,
    pub left: bool,
    pub right: bool,
    pub jump: bool,
    pub descend: bool,
    pub sprint: bool,
    pub fly: bool,
    pub escape: bool,
    pub fullscreen: bool,
    pub fly_toggle: bool,
    pub pointer_dx: i32,
    pub pointer_dy: i32,
}

/// The input in which nothing is held and nothing has moved.
pub open spec fn idle_input() -> PlayerInput {
    PlayerInput {
        forward: false,
        back: false,
        left: false,
        right: false,
        jump: false,
        descend: false,
        sprint: false,
        fly: false,
        escape: false,
        fullscreen: false,
        fly_toggle: false,
        pointer_dx: 0,
        pointer_dy: 0,
    }
}

/// `v` cut down to the range of an `i32`.
pub open spec fn clamp_i32(v: int) -> i32 {
    if v < i32::MIN {
        i32::MIN
    } else if v > i32::MAX {
        i32::MAX
    } else {
        v as i32
    }
}

/// `v` cut down to the range from `-MAX_MOVEMENT` to `MAX_MOVEMENT`.
pub open spec fn clamp_movement(v: int) -> int {
    if v < -MAX_MOVEMENT {
        -MAX_MOVEMENT as int
    } else if v > MAX_MOVEMENT {
        MAX_MOVEMENT as int
    } else {
        v
    }
}

impl PlayerInput {
    /// Whether `key` is held.
    pub open spec fn pressed(self, key: Key) -> bool {
        match key {
            Key::W => self.forward,
            Key::A => self.left,
            Key::S => self.back,
            Key::D => self.right,
            Key::Space => self.jump,
            Key::LeftShift => self.descend,
            Key::LeftControl => self.sprint,
            Key::F => self.fly,
            Key::Escape => self.escape,
            Key::F11 => self.fullscreen,
        }
    }

    /// The input with `key` held or not, as `down` says.
    pub open spec fn with_key(self, key: Key, down: bool) -> PlayerInput {
        match key {
            Key::W => PlayerInput { forward: down, ..self },
            Key::A => PlayerInput { left: down, ..self },
            Key::S => PlayerInput { back: down, ..self },
            Key::D => PlayerInput { right: down, ..self },
            Key::Space => PlayerInput { jump: down, ..self },
            Key::LeftShift => PlayerInput { descend: down, ..self },
            Key::LeftControl => PlayerInput { sprint: down, ..self },
            Key::F => PlayerInput { fly: down, ..self },
            Key::Escape => PlayerInput { escape: down, ..self },
            Key::F11 => PlayerInput { fullscreen: down, ..self },
        }
    }

    /// The input after a key event. A press holds the key, a release lets
    /// it go, a repeat changes nothing. Each press of `F` switches flying
    /// once more.
    pub open spec fn after_key(self, key: Key, action: Action) -> PlayerInput {
        match action {
            Action::Press => {
                let held = self.with_key(key, true);
                if key == Key::F {
                    PlayerInput { fly_toggle: !self.fly_toggle, ..held }
                } else {
                    held
                }
            },
            Action::Release => self.with_key(key, false),
            Action::Repeat => self,
        }
    }

    /// The input after the pointer moved by `(dx, dy)`: the movement is
    /// added to what has gathered since the last tick.
    pub open spec fn after_pointer(self, dx: int, dy: int) -> PlayerInput {
        PlayerInput {
            pointer_dx: clamp_i32(self.pointer_dx + dx),
            pointer_dy: clamp_i32(self.pointer_dy + dy),
            ..self
        }
    }

    /// A key is held from its press to its release, and no event of one
    /// key changes whether another is held. In a new input no key is held.
    pub proof fn lemma_held_from_press_to_release(self, key: Key, action: Action, other: Key)
        ensures
            !idle_input().pressed(key),
            self.after_key(key, Action::Press).pressed(key),
            !self.after_key(key, Action::Release).pressed(key),
            self.after_key(key, Action::Repeat) == self,
            other != key ==> self.after_key(key, action).pressed(other) == self.pressed(other),
    {
    }

    /// The input in which nothing is held.
    pub fn new() -> (input: PlayerInput)
        ensures
            input == idle_input(),
    {
        PlayerInput {
            forward: false,
            back: false,
            left: false,
            right: false,
            jump: false,
            descend: false,
            sprint: false,
            fly: false,
            escape: false,
            fullscreen: false,
            fly_toggle: false,
            pointer_dx: 0,
            pointer_dy: 0,
        }
    }

    fn set_key(&mut self, key: Key, down: bool)
        ensures
            *final(self) == old(self).with_key(key, down),
    {
        let held: PlayerInput = *self;
        *self = match key {
            Key::W => PlayerInput { forward: down, ..held },
            Key::A => PlayerInput { left: down, ..held },
            Key::S => PlayerInput { back: down, ..held },
            Key::D => PlayerInput { right: down, ..held },
            Key::Space => PlayerInput { jump: down, ..held },
            Key::LeftShift => PlayerInput { descend: down, ..held },
            Key::LeftControl => PlayerInput { sprint: down, ..held },
            Key::F => PlayerInput { fly: down, ..held },
            Key::Escape => PlayerInput { escape: down, ..held },
            Key::F11 => PlayerInput { fullscreen: down, ..held },
        };
    }

    /// Records a key event: a press holds the key, whichever it is, and a
    /// release lets it go.
    pub fn key_callback(&mut self, key: Key, action: Action)
        ensures
            *final(self) == old(self).after_key(key, action),
            action == Action::Press ==> final(self).pressed(key),
            action == Action::Release ==> !final(self).pressed(key),
    {
        match action {
            Action::Press => {
                self.set_key(key, true);
                match key {
                    Key::F => {
                        self.fly_toggle = !self.fly_toggle;
                    },
                    _ => {},
                }
            },
            Action::Release => {
                self.set_key(key, false);
            },
            Action::Repeat => {},
        }
    }

    /// Whether `key` is held.
    pub fn is_key_pressed(&self, key: Key) -> (held: bool)
        ensures
            held == self.pressed(key),
    {
        match key {
            Key::W => self.forward,
            Key::A => self.left,
            Key::S => self.back,
            Key::D => self.right,
            Key::Space => self.jump,
            Key::LeftShift => self.descend,
            Key::LeftControl => self.sprint,
            Key::F => self.fly,
            Key::Escape => self.escape,
            Key::F11 => self.fullscreen,
        }
    }

    /// Adds a pointer movement to what has gathered since the last tick.
    /// The sum stops at the ends of its range.
    pub fn pointer_moved(&mut self, dx: i32, dy: i32)
        ensures
            *final(self) == old(self).after_pointer(dx as int, dy as int),
    {
        self.pointer_dx = add_clamped(self.pointer_dx, dx);
        self.pointer_dy = add_clamped(self.pointer_dy, dy);
    }
}

fn add_clamped(a: i32, b: i32) -> (sum: i32)
    ensures
        sum == clamp_i32(a + b),
{
    let wide: i64 = a as i64 + b as i64;
    if wide < i32::MIN as i64 {
        i32::MIN
    } else if wide > i32::MAX as i64 {
        i32::MAX
    } else {
        wide as i32
    }
}

} // verus!
