use snuff::{
    KeyState, KeyboardInput, MouseButton, MouseEvent, MouseState, ScreenPos, StateTable, Window,
    WindowEvent,
};

fn key(code: u32, pressed: bool) -> WindowEvent {
    WindowEvent::KeyboardInput(KeyboardInput { key: code, pressed })
}

fn button(button: MouseButton, pressed: bool) -> WindowEvent {
    WindowEvent::MouseInput { button, pressed }
}

fn moved(x: f32, y: f32) -> WindowEvent {
    WindowEvent::CursorMoved { x: x.to_bits(), y: y.to_bits() }
}

fn pos(x: f32, y: f32) -> ScreenPos {
    ScreenPos { x: x.to_bits(), y: y.to_bits() }
}

fn state_of(window: &Window, code: u32) -> KeyState {
    if window.is_key_pressed(code) {
        KeyState::Pressed
    } else if window.is_key_released(code) {
        KeyState::Released
    } else if window.is_key_down(code) {
        KeyState::Down
    } else {
        KeyState::Up
    }
}

#[test]
fn new_window_has_everything_up() {
    let window = Window::new(1280, 720, "t", true);
    assert_eq!(window.client_width(), 1280);
    assert_eq!(window.client_height(), 720);
    assert_eq!(window.title(), "t");
    assert!(window.vsync());
    assert_eq!(state_of(&window, 0), KeyState::Up);
    assert!(!window.is_mouse_button_down(MouseButton::Left));
    assert!(!window.is_mouse_button_pressed(MouseButton::Left));
    assert!(!window.is_mouse_button_released(MouseButton::Left));
    assert_eq!(window.mouse_position(), pos(0.0, 0.0));
    assert_eq!(window.previous_mouse_position(), pos(0.0, 0.0));
    assert!(window.mouse_scroll().is_empty());
}

#[test]
fn key_goes_through_all_four_states() {
    let mut window = Window::new(1280, 720, "t", false);
    assert!(window.process_events(&vec![]));
    assert_eq!(state_of(&window, 30), KeyState::Up);

    // frame k: the key goes down
    assert!(window.process_events(&vec![key(30, true)]));
    assert_eq!(state_of(&window, 30), KeyState::Pressed);
    // frames k + 1 and k + 2: held
    assert!(window.process_events(&vec![]));
    assert_eq!(state_of(&window, 30), KeyState::Down);
    assert!(window.process_events(&vec![key(31, true)]));
    assert_eq!(state_of(&window, 30), KeyState::Down);
    // frame k + 3: the key comes up
    assert!(window.process_events(&vec![key(30, false)]));
    assert_eq!(state_of(&window, 30), KeyState::Released);
    // frame k + 4
    assert!(window.process_events(&vec![]));
    assert_eq!(state_of(&window, 30), KeyState::Up);
}

#[test]
fn pressed_counts_as_down() {
    let mut window = Window::new(1, 1, "t", false);
    window.process_events(&vec![key(4, true)]);
    assert!(window.is_key_pressed(4));
    assert!(window.is_key_down(4));
    assert!(!window.is_key_released(4));
}

#[test]
fn release_of_a_key_that_is_up_leaves_it_up() {
    let mut window = Window::new(1, 1, "t", false);
    window.process_events(&vec![key(4, false)]);
    assert_eq!(state_of(&window, 4), KeyState::Up);
    window.process_events(&vec![key(4, true), key(4, false), key(4, false)]);
    assert_eq!(state_of(&window, 4), KeyState::Up);
}

#[test]
fn repeated_press_in_one_frame_is_down() {
    let mut window = Window::new(1, 1, "t", false);
    window.process_events(&vec![key(4, true), key(4, true)]);
    assert_eq!(state_of(&window, 4), KeyState::Down);
}

#[test]
fn press_and_release_in_one_frame_is_released() {
    let mut window = Window::new(1, 1, "t", false);
    window.process_events(&vec![key(4, true), key(4, false)]);
    assert_eq!(state_of(&window, 4), KeyState::Released);
    window.process_events(&vec![key(4, true)]);
    assert_eq!(state_of(&window, 4), KeyState::Pressed);
}

#[test]
fn keys_do_not_disturb_each_other() {
    let mut window = Window::new(1, 1, "t", false);
    window.process_events(&vec![key(1, true), key(2, true), key(1, false)]);
    assert_eq!(state_of(&window, 1), KeyState::Released);
    assert_eq!(state_of(&window, 2), KeyState::Pressed);
    assert_eq!(state_of(&window, 3), KeyState::Up);
}

#[test]
fn close_request_ends_the_loop_but_input_is_still_taken() {
    let mut window = Window::new(1, 1, "t", false);
    assert!(!window.process_events(&vec![key(1, true), WindowEvent::CloseRequested]));
    assert!(window.is_key_pressed(1));
    assert!(window.process_events(&vec![WindowEvent::Other]));
    assert!(!window.process_events(&vec![WindowEvent::CloseRequested, WindowEvent::Other]));
}

#[test]
fn mouse_buttons_follow_the_same_cycle() {
    let mut window = Window::new(1, 1, "t", false);
    window.process_events(&vec![button(MouseButton::Right, true)]);
    assert!(window.is_mouse_button_pressed(MouseButton::Right));
    assert!(window.is_mouse_button_down(MouseButton::Right));
    assert!(!window.is_mouse_button_down(MouseButton::Left));
    window.process_events(&vec![]);
    assert!(!window.is_mouse_button_pressed(MouseButton::Right));
    assert!(window.is_mouse_button_down(MouseButton::Right));
    window.process_events(&vec![button(MouseButton::Right, false)]);
    assert!(window.is_mouse_button_released(MouseButton::Right));
    assert!(!window.is_mouse_button_down(MouseButton::Right));
    window.process_events(&vec![]);
    assert!(!window.is_mouse_button_released(MouseButton::Right));
}

#[test]
fn every_mouse_button_has_its_own_state() {
    let mut window = Window::new(1, 1, "t", false);
    window.process_events(&vec![
        button(MouseButton::Left, true),
        button(MouseButton::Other(0), true),
        button(MouseButton::Other(252), true),
        button(MouseButton::Other(255), true),
    ]);
    assert!(window.is_mouse_button_pressed(MouseButton::Left));
    assert!(window.is_mouse_button_pressed(MouseButton::Other(0)));
    assert!(window.is_mouse_button_pressed(MouseButton::Other(252)));
    assert!(window.is_mouse_button_pressed(MouseButton::Other(255)));
    assert!(!window.is_mouse_button_down(MouseButton::Right));
    assert!(!window.is_mouse_button_down(MouseButton::Middle));
    assert!(!window.is_mouse_button_down(MouseButton::Other(1)));
    assert_eq!(MouseButton::Left.code(), 0);
    assert_eq!(MouseButton::Right.code(), 1);
    assert_eq!(MouseButton::Middle.code(), 2);
    assert_eq!(MouseButton::Other(0).code(), 3);
    assert_eq!(MouseButton::Other(255).code(), 258);
}

#[test]
fn keys_and_buttons_are_kept_apart() {
    let mut window = Window::new(1, 1, "t", false);
    window.process_events(&vec![key(0, true)]);
    assert!(!window.is_mouse_button_down(MouseButton::Left));
    window.process_events(&vec![button(MouseButton::Right, true)]);
    assert!(!window.is_key_pressed(1));
}

#[test]
fn cursor_motion_moves_old_and_current_position() {
    let mut window = Window::new(1, 1, "t", false);
    window.process_events(&vec![moved(10.0, 20.0)]);
    assert_eq!(window.mouse_position(), pos(10.0, 20.0));
    assert_eq!(window.previous_mouse_position(), pos(0.0, 0.0));

    window.process_events(&vec![moved(11.0, 21.0), moved(12.5, 22.5)]);
    assert_eq!(window.mouse_position(), pos(12.5, 22.5));
    assert_eq!(window.previous_mouse_position(), pos(11.0, 21.0));

    // without motion the old position catches up
    window.process_events(&vec![]);
    assert_eq!(window.mouse_position(), pos(12.5, 22.5));
    assert_eq!(window.previous_mouse_position(), pos(12.5, 22.5));
}

fn wheel(amount: f32) -> WindowEvent {
    WindowEvent::MouseWheel { scroll: amount.to_bits() }
}

fn scrolled(window: &Window) -> f32 {
    window.mouse_scroll().iter().map(|bits| f32::from_bits(*bits)).sum()
}

#[test]
fn wheel_movements_of_a_frame_add_up() {
    let mut window = Window::new(1, 1, "t", false);
    window.process_events(&vec![wheel(1.5)]);
    assert_eq!(window.mouse_scroll(), &vec![1.5f32.to_bits()]);
    assert_eq!(scrolled(&window), 1.5);

    window.process_events(&vec![wheel(1.0), moved(3.0, 4.0), wheel(2.0)]);
    assert_eq!(window.mouse_scroll(), &vec![1.0f32.to_bits(), 2.0f32.to_bits()]);
    assert_eq!(scrolled(&window), 3.0);

    window.process_events(&vec![wheel(1.0), wheel(-2.0)]);
    assert_eq!(scrolled(&window), -1.0);
}

#[test]
fn nothing_of_an_earlier_frame_is_left_in_the_scroll_amount() {
    let mut window = Window::new(1, 1, "t", false);
    window.process_events(&vec![wheel(4.0), wheel(4.0)]);
    assert_eq!(scrolled(&window), 8.0);
    window.process_events(&vec![]);
    assert!(window.mouse_scroll().is_empty());
    assert_eq!(scrolled(&window), 0.0);
    window.process_events(&vec![wheel(0.25)]);
    assert_eq!(scrolled(&window), 0.25);
}

#[test]
fn handlers_work_without_the_decay() {
    let mut window = Window::new(1, 1, "t", false);
    window.handle_key_events(&vec![KeyboardInput { key: 9, pressed: true }]);
    assert!(window.is_key_pressed(9));
    window.handle_key_events(&vec![]);
    assert!(window.is_key_pressed(9));
    window.handle_mouse_events(&vec![
        MouseEvent {
            button: MouseButton::Middle,
            state: MouseState::Pressed,
            screen_pos: pos(0.0, 0.0),
            scroll: 0,
        },
        MouseEvent {
            button: MouseButton::Left,
            state: MouseState::Moved,
            screen_pos: pos(3.0, 4.0),
            scroll: 0,
        },
        MouseEvent {
            button: MouseButton::Left,
            state: MouseState::Down,
            screen_pos: pos(8.0, 8.0),
            scroll: 77,
        },
    ]);
    assert!(window.is_mouse_button_pressed(MouseButton::Middle));
    assert!(!window.is_mouse_button_down(MouseButton::Left));
    assert_eq!(window.mouse_position(), pos(3.0, 4.0));
    assert!(window.mouse_scroll().is_empty());
    window.reset_input_states();
    assert!(window.is_key_down(9));
    assert!(!window.is_key_pressed(9));
    assert!(window.is_mouse_button_down(MouseButton::Middle));
    assert!(!window.is_mouse_button_pressed(MouseButton::Middle));
    assert_eq!(window.previous_mouse_position(), pos(3.0, 4.0));
}

#[test]
fn key_state_transitions() {
    assert_eq!(KeyState::Pressed.decay(), KeyState::Down);
    assert_eq!(KeyState::Released.decay(), KeyState::Up);
    assert_eq!(KeyState::Down.decay(), KeyState::Down);
    assert_eq!(KeyState::Up.decay(), KeyState::Up);

    assert_eq!(KeyState::Up.on_event(true), KeyState::Pressed);
    assert_eq!(KeyState::Released.on_event(true), KeyState::Pressed);
    assert_eq!(KeyState::Down.on_event(true), KeyState::Down);
    assert_eq!(KeyState::Pressed.on_event(true), KeyState::Down);

    assert_eq!(KeyState::Down.on_event(false), KeyState::Released);
    assert_eq!(KeyState::Pressed.on_event(false), KeyState::Released);
    assert_eq!(KeyState::Up.on_event(false), KeyState::Up);
    assert_eq!(KeyState::Released.on_event(false), KeyState::Up);
}

#[test]
fn state_table_defaults_to_up_and_keeps_identifiers_apart() {
    let mut table = StateTable::new();
    assert_eq!(table.get(5), KeyState::Up);
    table.apply(5, true);
    table.apply(6, true);
    table.apply(6, true);
    assert_eq!(table.get(5), KeyState::Pressed);
    assert_eq!(table.get(6), KeyState::Down);
    assert_eq!(table.get(7), KeyState::Up);
    table.decay_all();
    assert_eq!(table.get(5), KeyState::Down);
    table.apply(5, false);
    assert_eq!(table.get(5), KeyState::Released);
    table.decay_all();
    assert_eq!(table.get(5), KeyState::Up);
    assert_eq!(table.get(6), KeyState::Down);
}

#[test]
fn release_right_after_a_release_ends_up() {
    let mut window = Window::new(1, 1, "t", false);
    window.process_events(&vec![key(4, true)]);
    assert_eq!(state_of(&window, 4), KeyState::Pressed);
    // the last event is a release, but a release of the same frame comes before it
    window.process_events(&vec![key(4, false), key(4, false)]);
    assert_eq!(state_of(&window, 4), KeyState::Up);
}

#[test]
fn release_after_a_press_of_the_same_frame_is_released() {
    let mut window = Window::new(1, 1, "t", false);
    window.process_events(&vec![key(4, true)]);
    window.process_events(&vec![key(4, false), key(4, true), key(5, true), key(4, false)]);
    assert_eq!(state_of(&window, 4), KeyState::Released);
}

#[test]
fn press_after_a_release_of_the_same_frame_is_pressed() {
    let mut window = Window::new(1, 1, "t", false);
    window.process_events(&vec![key(4, true)]);
    window.process_events(&vec![key(4, false), key(4, true)]);
    assert_eq!(state_of(&window, 4), KeyState::Pressed);
}
