//! What the program does with one window event.
//!
//! The program owns the window and hands each of its events to
//! `process_event`, with the state that the event may change. The answer
//! is the command that the program then carries out on the window.

use vstd::prelude::*;
use crate::config::{fullscreen_toggled, Config};
use crate::input::{clamp_movement, Action, Key, PlayerInput, MAX_MOVEMENT};

verus! {

/// An event of the window. Pointer positions are in thousandths of a
/// pointer step.
#[derive(Clone, Copy, Debug, PartialEq, Eq, Structural)]
pub enum WindowEvent {
    /// The framebuffer has a new width and height.
    FramebufferSize(i32, i32),
    /// A key was pressed, released or repeated.
    Key(Key, Action),
    /// The pointer is at a new place.
    CursorPos(i64, i64),
    /// A pointer button was pressed or released.
    MouseButton,
    /// Anything else.
    Other,
}

/// What the program has to do after an event.
#[derive(Clone, Copy, Debug, PartialEq, Eq, Structural)]
#[allow(inconsistent_fields)]
pub enum Command {
    /// Nothing.
    Nothing,
    /// Fit the viewport and the projection to the new framebuffer size.
    Resize { width: i32, height: i32 },
    /// Close the window.
    Close,
    /// Show the window on the whole primary monitor and keep the changed
    /// configuration.
    EnterFullscreen,
    /// Show the window with the given size again and keep the changed
    /// configuration.
    LeaveFullscreen { width: u32, height: u32 },
}

/// Where the pointer was at its last event. Before the first event the
/// place is not known.
#[derive(Clone, Copy, Debug, PartialEq, Eq, Structural)]
pub struct MouseState {
    pub last_x: i64,
    pub last_y: i64,
    pub first_mouse: bool,
}

/// The state of the pointer before its first event.
pub open spec fn start_mouse() -> MouseState {
    MouseState { last_x: 300000, last_y: 240000, first_mouse: true }
}

/// The state that one event may change.
pub struct Controls {
    pub config: Config,
    pub input: PlayerInput,
    pub mouse: MouseState,
}

/// The input after the pointer came to `(x, y)`. Its first place only
/// becomes known. Later the way from its last place is added to the
/// gathered movement, each axis cut down to `MAX_MOVEMENT`.
pub open spec fn input_after_cursor(
    input: PlayerInput,
    mouse: MouseState,
    x: i64,
    y: i64,
) -> PlayerInput {
    if mouse.first_mouse {
        input
    } else {
        input.after_pointer(clamp_movement(x - mouse.last_x), clamp_movement(y - mouse.last_y))
    }
}

/// The state after an event that came while the window had the given
/// size.
pub open spec fn after_event(
    c: Controls,
    event: WindowEvent,
    window_width: u32,
    window_height: u32,
) -> Controls {
    match event {
        WindowEvent::Key(Key::Escape, Action::Press) => c,
        WindowEvent::Key(Key::F11, Action::Press) => Controls {
            config: Config {
                window: fullscreen_toggled(c.config.window, window_width, window_height),
                ..c.config
            },
            ..c
        },
        WindowEvent::Key(key, action) => Controls { input: c.input.after_key(key, action), ..c },
        WindowEvent::CursorPos(x, y) => if c.config.controls.cursor_locked {
            Controls {
                input: input_after_cursor(c.input, c.mouse, x, y),
                mouse: MouseState { last_x: x, last_y: y, first_mouse: false },
                ..c
            }
        } else {
            c
        },
        _ => c,
    }
}

/// The command that answers an event, given the state before it.
pub open spec fn command_for(c: Controls, event: WindowEvent) -> Command {
    match event {
        WindowEvent::FramebufferSize(width, height) => Command::Resize { width, height },
        WindowEvent::Key(Key::Escape, Action::Press) => Command::Close,
        WindowEvent::Key(Key::F11, Action::Press) => if c.config.window.fullscreen {
            Command::LeaveFullscreen {
                width: c.config.window.width,
                height: c.config.window.height,
            }
        } else {
            Command::EnterFullscreen
        },
        _ => Command::Nothing,
    }
}

/// The state after the given events, in their order, all of which came
/// while the window had the given size.
pub open spec fn after_events(
    c: Controls,
    events: Seq<WindowEvent>,
    window_width: u32,
    window_height: u32,
) -> Controls
    decreases events.len(),
{
    if events.len() == 0 {
        c
    } else {
        after_event(
            after_events(c, events.drop_last(), window_width, window_height),
            events.last(),
            window_width,
            window_height,
        )
    }
}

/// The commands that answer the given events, one for each, in their
/// order.
pub open spec fn commands_for(
    c: Controls,
    events: Seq<WindowEvent>,
    window_width: u32,
    window_height: u32,
) -> Seq<Command>
    decreases events.len(),
{
    if events.len() == 0 {
        Seq::empty()
    } else {
        commands_for(c, events.drop_last(), window_width, window_height).push(
            command_for(
                after_events(c, events.drop_last(), window_width, window_height),
                events.last(),
            ),
        )
    }
}

fn movement_between(from: i64, to: i64) -> (d: i32)
    ensures
        d == clamp_movement(to - from),
{
    let limit: i32 = MAX_MOVEMENT as i32;
    let way: i128 = to as i128 - from as i128;
    if way < -(limit as i128) {
        -limit
    } else if way > limit as i128 {
        limit
    } else {
        way as i32
    }
}

impl MouseState {
    /// The state of the pointer before its first event.
    pub fn new() -> (m: MouseState)
        ensures
            m == start_mouse(),
    {
        MouseState { last_x: 300000, last_y: 240000, first_mouse: true }
    }
}

/// Handles one event of the window. `window_width` and `window_height`
/// are the size of the window at that moment.
///
/// A press of Escape closes the window and a press of F11 switches
/// fullscreen; every other key event, the releases of these two among
/// them, goes to the player's input. The pointer is followed only while
/// the cursor is locked to the window.
pub fn process_event(
    event: WindowEvent,
    window_width: u32,
    window_height: u32,
    config: &mut Config,
    player_input: &mut PlayerInput,
    mouse: &mut MouseState,
) -> (command: Command)
    ensures
        command == command_for(
            Controls { config: *old(config), input: *old(player_input), mouse: *old(mouse) },
            event,
        ),
        (Controls { config: *final(config), input: *final(player_input), mouse: *final(mouse) })
            == after_event(
            Controls { config: *old(config), input: *old(player_input), mouse: *old(mouse) },
            event,
            window_width,
            window_height,
        ),
{
    match event {
        WindowEvent::FramebufferSize(width, height) => Command::Resize { width, height },
        WindowEvent::Key(key, action) => {
            match (key, action) {
                (Key::Escape, Action::Press) => Command::Close,
                (Key::F11, Action::Press) => {
                    if config.window.toggle_fullscreen(window_width, window_height) {
                        Command::EnterFullscreen
                    } else {
                        Command::LeaveFullscreen {
                            width: config.window.width,
                            height: config.window.height,
                        }
                    }
                },
                _ => {
                    player_input.key_callback(key, action);
                    Command::Nothing
                },
            }
        },
        WindowEvent::CursorPos(x, y) => {
            if config.controls.cursor_locked {
                if !mouse.first_mouse {
                    let dx: i32 = movement_between(mouse.last_x, x);
                    let dy: i32 = movement_between(mouse.last_y, y);
                    player_input.pointer_moved(dx, dy);
                }
                mouse.last_x = x;
                mouse.last_y = y;
                mouse.first_mouse = false;
            }
            Command::Nothing
        },
        WindowEvent::MouseButton => Command::Nothing,
        WindowEvent::Other => Command::Nothing,
    }
}

/// Handles the events that have gathered, in their order, and returns the
/// command for each. `window_width` and `window_height` are the size of
/// the window when the events were taken.
pub fn process_events(
    events: &Vec<WindowEvent>,
    window_width: u32,
    window_height: u32,
    config: &mut Config,
    player_input: &mut PlayerInput,
    mouse: &mut MouseState,
) -> (commands: Vec<Command>)
    ensures
        commands@ == commands_for(
            Controls { config: *old(config), input: *old(player_input), mouse: *old(mouse) },
            events@,
            window_width,
            window_height,
        ),
        (Controls { config: *final(config), input: *final(player_input), mouse: *final(mouse) })
            == after_events(
            Controls { config: *old(config), input: *old(player_input), mouse: *old(mouse) },
            events@,
            window_width,
            window_height,
        ),
{
    let ghost start = Controls {
        config: *old(config),
        input: *old(player_input),
        mouse: *old(mouse),
    };
    let mut commands: Vec<Command> = Vec::new();
    let mut i: usize = 0;
    while i < events.len()
        invariant
            i <= events@.len(),
            commands@ == commands_for(start, events@.take(i as int), window_width, window_height),
            (Controls { config: *config, input: *player_input, mouse: *mouse }) == after_events(
                start,
                events@.take(i as int),
                window_width,
                window_height,
            ),
        decreases events@.len() - i,
    {
        proof {
            assert(events@.take(i + 1).drop_last() == events@.take(i as int));
        }
        let command = process_event(
            events[i],
            window_width,
            window_height,
            config,
            player_input,
            mouse,
        );
        commands.push(command);
        i = i + 1;
    }
    proof {
        assert(events@.take(i as int) == events@);
    }
    commands
}

} // verus!
