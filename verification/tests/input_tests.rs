use model_viewer::event::{ElementState, MouseButton, PhysicalKey, WindowEvent, KEY_ESCAPE, KEY_SPACE};
use model_viewer::input::Input;

fn key(code: u32, state: ElementState) -> WindowEvent {
    WindowEvent::KeyboardInput { key: PhysicalKey::Code(code), state }
}

#[test]
fn new_input_holds_nothing() {
    let input = Input::new();
    assert!(!input.is_key_pressed(KEY_SPACE));
    assert!(!input.is_mouse_button_pressed(MouseButton::Left));
}

#[test]
fn key_press_then_release() {
    let mut input = Input::new();
    assert!(input.process_event(&key(KEY_SPACE, ElementState::Pressed)));
    assert!(input.is_key_pressed(KEY_SPACE));
    assert!(!input.is_key_pressed(KEY_ESCAPE));
    assert!(input.process_event(&key(KEY_SPACE, ElementState::Pressed)));
    assert!(input.is_key_pressed(KEY_SPACE));
    assert!(input.process_event(&key(KEY_SPACE, ElementState::Released)));
    assert!(!input.is_key_pressed(KEY_SPACE));
}

#[test]
fn releasing_a_key_that_is_not_held_is_handled() {
    let mut input = Input::new();
    assert!(input.process_event(&key(41, ElementState::Released)));
    assert!(!input.is_key_pressed(41));
}

#[test]
fn unidentified_key_is_not_handled() {
    let mut input = Input::new();
    let event = WindowEvent::KeyboardInput { key: PhysicalKey::Unidentified, state: ElementState::Pressed };
    assert!(!input.process_event(&event));
}

#[test]
fn mouse_buttons_are_told_apart() {
    let mut input = Input::new();
    let press_other = WindowEvent::MouseInput { button: MouseButton::Other(0), state: ElementState::Pressed };
    assert!(input.process_event(&press_other));
    assert!(input.is_mouse_button_pressed(MouseButton::Other(0)));
    assert!(!input.is_mouse_button_pressed(MouseButton::Left));
    assert!(!input.is_mouse_button_pressed(MouseButton::Forward));
    assert!(!input.is_mouse_button_pressed(MouseButton::Other(1)));
    let press_left = WindowEvent::MouseInput { button: MouseButton::Left, state: ElementState::Pressed };
    assert!(input.process_event(&press_left));
    let release_other = WindowEvent::MouseInput { button: MouseButton::Other(0), state: ElementState::Released };
    assert!(input.process_event(&release_other));
    assert!(input.is_mouse_button_pressed(MouseButton::Left));
    assert!(!input.is_mouse_button_pressed(MouseButton::Other(0)));
}

#[test]
fn keys_and_buttons_are_separate() {
    let mut input = Input::new();
    input.process_event(&WindowEvent::MouseInput { button: MouseButton::Right, state: ElementState::Pressed });
    assert!(!input.is_key_pressed(1));
    input.process_event(&key(1, ElementState::Pressed));
    assert!(input.is_mouse_button_pressed(MouseButton::Right));
}

#[test]
fn wheel_is_handled_without_changing_state() {
    let mut input = Input::new();
    input.process_event(&key(7, ElementState::Pressed));
    assert!(input.process_event(&WindowEvent::MouseWheel));
    assert!(input.is_key_pressed(7));
}

#[test]
fn other_events_are_not_handled() {
    let mut input = Input::new();
    assert!(!input.process_event(&WindowEvent::CloseRequested));
    assert!(!input.process_event(&WindowEvent::RedrawRequested));
    assert!(!input.process_event(&WindowEvent::Resized { width: 10, height: 10 }));
    assert!(!input.process_event(&WindowEvent::DroppedFile("a.obj".to_string())));
    assert!(!input.process_event(&WindowEvent::Other));
}

#[test]
fn presses_are_not_counted() {
    let mut input = Input::new();
    input.process_event(&key(5, ElementState::Pressed));
    input.process_event(&key(5, ElementState::Pressed));
    input.process_event(&key(6, ElementState::Pressed));
    input.process_event(&key(5, ElementState::Released));
    assert!(!input.is_key_pressed(5));
    assert!(input.is_key_pressed(6));
}
