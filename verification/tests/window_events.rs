use cubix::config::Config;
use cubix::events::{process_event, process_events, Command, MouseState, WindowEvent};
use cubix::input::{Action, Key, PlayerInput};

struct Fixture {
    config: Config,
    input: PlayerInput,
    mouse: MouseState,
}

fn fixture() -> Fixture {
    Fixture { config: Config::default(), input: PlayerInput::new(), mouse: MouseState::new() }
}

fn handle(f: &mut Fixture, event: WindowEvent) -> Command {
    process_event(event, 800, 600, &mut f.config, &mut f.input, &mut f.mouse)
}

#[test]
fn the_pointer_starts_unknown() {
    let mouse = MouseState::new();
    assert_eq!(mouse, MouseState { last_x: 300_000, last_y: 240_000, first_mouse: true });
}

#[test]
fn a_new_framebuffer_size_resizes() {
    let mut f = fixture();
    let command = handle(&mut f, WindowEvent::FramebufferSize(1024, 768));
    assert_eq!(command, Command::Resize { width: 1024, height: 768 });
    assert_eq!(f.config, Config::default());
    assert_eq!(f.input, PlayerInput::new());
    assert_eq!(f.mouse, MouseState::new());
}

#[test]
fn escape_closes_the_window() {
    let mut f = fixture();
    assert_eq!(handle(&mut f, WindowEvent::Key(Key::Escape, Action::Press)), Command::Close);
    // The press goes to the window and not to the input.
    assert!(!f.input.is_key_pressed(Key::Escape));
    assert_eq!(handle(&mut f, WindowEvent::Key(Key::Escape, Action::Release)), Command::Nothing);
    assert_eq!(handle(&mut f, WindowEvent::Key(Key::Escape, Action::Repeat)), Command::Nothing);
    assert_eq!(f.input, PlayerInput::new());
}

#[test]
fn a_release_of_a_window_key_goes_to_the_input() {
    let mut f = fixture();
    f.input.key_callback(Key::Escape, Action::Press);
    f.input.key_callback(Key::F11, Action::Press);
    assert_eq!(handle(&mut f, WindowEvent::Key(Key::Escape, Action::Release)), Command::Nothing);
    assert!(!f.input.is_key_pressed(Key::Escape));
    assert!(f.input.is_key_pressed(Key::F11));
    assert_eq!(handle(&mut f, WindowEvent::Key(Key::F11, Action::Release)), Command::Nothing);
    assert_eq!(f.input, PlayerInput::new());
}

#[test]
fn f11_switches_fullscreen() {
    let mut f = fixture();
    // The default configuration starts fullscreen.
    let command = handle(&mut f, WindowEvent::Key(Key::F11, Action::Press));
    assert_eq!(command, Command::LeaveFullscreen { width: 1280, height: 720 });
    assert!(!f.config.window.fullscreen);
    assert_eq!(handle(&mut f, WindowEvent::Key(Key::F11, Action::Release)), Command::Nothing);
    assert!(!f.config.window.fullscreen);
    let command = handle(&mut f, WindowEvent::Key(Key::F11, Action::Press));
    assert_eq!(command, Command::EnterFullscreen);
    assert!(f.config.window.fullscreen);
    assert_eq!((f.config.window.width, f.config.window.height), (800, 600));
    let command = handle(&mut f, WindowEvent::Key(Key::F11, Action::Press));
    assert_eq!(command, Command::LeaveFullscreen { width: 800, height: 600 });
    assert_eq!(f.input, PlayerInput::new());
}

#[test]
fn other_keys_go_to_the_input() {
    let mut f = fixture();
    assert_eq!(handle(&mut f, WindowEvent::Key(Key::W, Action::Press)), Command::Nothing);
    assert!(f.input.is_key_pressed(Key::W));
    assert_eq!(handle(&mut f, WindowEvent::Key(Key::F, Action::Press)), Command::Nothing);
    assert!(f.input.fly_toggle);
    assert_eq!(handle(&mut f, WindowEvent::Key(Key::W, Action::Release)), Command::Nothing);
    assert!(!f.input.is_key_pressed(Key::W));
    assert_eq!(f.config, Config::default());
}

#[test]
fn the_first_pointer_event_moves_nothing() {
    let mut f = fixture();
    assert_eq!(handle(&mut f, WindowEvent::CursorPos(500_000, 100_000)), Command::Nothing);
    assert_eq!(f.mouse, MouseState { last_x: 500_000, last_y: 100_000, first_mouse: false });
    assert_eq!((f.input.pointer_dx, f.input.pointer_dy), (0, 0));
}

#[test]
fn later_pointer_events_gather_movement() {
    let mut f = fixture();
    handle(&mut f, WindowEvent::CursorPos(500_000, 100_000));
    handle(&mut f, WindowEvent::CursorPos(512_500, 97_000));
    assert_eq!((f.input.pointer_dx, f.input.pointer_dy), (12_500, -3_000));
    handle(&mut f, WindowEvent::CursorPos(510_000, 99_000));
    assert_eq!((f.input.pointer_dx, f.input.pointer_dy), (10_000, -1_000));
    assert_eq!(f.mouse, MouseState { last_x: 510_000, last_y: 99_000, first_mouse: false });
}

#[test]
fn a_pointer_jump_is_cut_down() {
    let mut f = fixture();
    handle(&mut f, WindowEvent::CursorPos(0, 0));
    handle(&mut f, WindowEvent::CursorPos(100_001, -250_000));
    assert_eq!((f.input.pointer_dx, f.input.pointer_dy), (100_000, -100_000));
    handle(&mut f, WindowEvent::CursorPos(i64::MAX, i64::MIN));
    assert_eq!((f.input.pointer_dx, f.input.pointer_dy), (200_000, -200_000));
    handle(&mut f, WindowEvent::CursorPos(i64::MIN, i64::MAX));
    assert_eq!((f.input.pointer_dx, f.input.pointer_dy), (100_000, -100_000));
    assert_eq!(f.mouse, MouseState { last_x: i64::MIN, last_y: i64::MAX, first_mouse: false });
}

#[test]
fn a_free_cursor_is_not_followed() {
    let mut f = fixture();
    f.config.controls.cursor_locked = false;
    assert_eq!(handle(&mut f, WindowEvent::CursorPos(500_000, 100_000)), Command::Nothing);
    assert_eq!(f.mouse, MouseState::new());
    handle(&mut f, WindowEvent::CursorPos(600_000, 100_000));
    assert_eq!((f.input.pointer_dx, f.input.pointer_dy), (0, 0));
    // Keys are still taken.
    handle(&mut f, WindowEvent::Key(Key::Space, Action::Press));
    assert!(f.input.is_key_pressed(Key::Space));
}

#[test]
fn buttons_and_other_events_do_nothing() {
    let mut f = fixture();
    assert_eq!(handle(&mut f, WindowEvent::MouseButton), Command::Nothing);
    assert_eq!(handle(&mut f, WindowEvent::Other), Command::Nothing);
    assert_eq!(f.config, Config::default());
    assert_eq!(f.input, PlayerInput::new());
    assert_eq!(f.mouse, MouseState::new());
}

#[test]
fn events_are_handled_in_their_order() {
    let mut f = fixture();
    let events = vec![
        WindowEvent::CursorPos(10_000, 10_000),
        WindowEvent::Key(Key::W, Action::Press),
        WindowEvent::Key(Key::F11, Action::Press),
        WindowEvent::CursorPos(15_000, 8_000),
        WindowEvent::FramebufferSize(640, 480),
        WindowEvent::Key(Key::F11, Action::Press),
        WindowEvent::Key(Key::W, Action::Release),
        WindowEvent::Key(Key::D, Action::Press),
        WindowEvent::Key(Key::Escape, Action::Press),
    ];
    let commands = process_events(&events, 800, 600, &mut f.config, &mut f.input, &mut f.mouse);
    assert_eq!(
        commands,
        vec![
            Command::Nothing,
            Command::Nothing,
            Command::LeaveFullscreen { width: 1280, height: 720 },
            Command::Nothing,
            Command::Resize { width: 640, height: 480 },
            Command::EnterFullscreen,
            Command::Nothing,
            Command::Nothing,
            Command::Close,
        ]
    );
    assert!(f.config.window.fullscreen);
    assert_eq!((f.config.window.width, f.config.window.height), (800, 600));
    assert!(!f.input.is_key_pressed(Key::W));
    assert!(f.input.is_key_pressed(Key::D));
    assert_eq!((f.input.pointer_dx, f.input.pointer_dy), (5_000, -2_000));
    assert_eq!(f.mouse, MouseState { last_x: 15_000, last_y: 8_000, first_mouse: false });
}

#[test]
fn no_events_change_nothing() {
    let mut f = fixture();
    let events: Vec<WindowEvent> = Vec::new();
    let commands = process_events(&events, 800, 600, &mut f.config, &mut f.input, &mut f.mouse);
    assert!(commands.is_empty());
    assert_eq!(f.config, Config::default());
    assert_eq!(f.input, PlayerInput::new());
    assert_eq!(f.mouse, MouseState::new());
}
