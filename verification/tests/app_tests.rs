use std::time::{Duration, Instant};

use model_viewer::app::{
    after_render, dropped_file_action, dropped_file_kind, route_window_event, App, DroppedFileKind, UiFocus,
    WindowAction,
};
use model_viewer::event::{ElementState, MouseButton, PhysicalKey, WindowEvent, KEY_ESCAPE};
use model_viewer::input::Input;

const FREE: UiFocus = UiFocus { consumed: false, wants_pointer: false, wants_keyboard: false };

#[test]
fn new_app_has_no_engine() {
    let app: App<u32> = App::new();
    assert!(app.needs_engine());
    assert!(app.engine().is_none());
}

#[test]
fn resume_installs_engine() {
    let mut app: App<u32> = App::new();
    app.resume_with(7, Instant::now());
    assert!(!app.needs_engine());
    assert_eq!(app.engine(), Some(&7));
    if let Some(e) = app.engine_mut() {
        *e = 9;
    }
    assert_eq!(app.engine(), Some(&9));
    app.user_event(11);
    assert_eq!(app.engine(), Some(&11));
}

#[test]
fn begin_frame_measures_from_previous_frame() {
    let mut app: App<u32> = App::new();
    let start = Instant::now();
    app.resume_with(1, start);
    let later = start + Duration::from_millis(16);
    assert_eq!(app.begin_frame(later), Duration::from_millis(16));
    let next = later + Duration::from_millis(20);
    assert_eq!(app.begin_frame(next), Duration::from_millis(20));
    assert_eq!(app.begin_frame(later), Duration::ZERO);
}

#[test]
fn dropped_file_kinds() {
    assert_eq!(dropped_file_kind("obj"), DroppedFileKind::Model);
    assert_eq!(dropped_file_kind("gltf"), DroppedFileKind::Model);
    assert_eq!(dropped_file_kind("glb"), DroppedFileKind::Model);
    assert_eq!(dropped_file_kind("hdr"), DroppedFileKind::Environment);
    assert_eq!(dropped_file_kind("OBJ"), DroppedFileKind::Unsupported);
    assert_eq!(dropped_file_kind("png"), DroppedFileKind::Unsupported);
    assert_eq!(dropped_file_kind(""), DroppedFileKind::Unsupported);
}

#[test]
fn dropped_file_actions_follow_the_extension() {
    let p = "/home/me/models/duck.gltf".to_string();
    assert_eq!(dropped_file_action(&p), WindowAction::LoadModel(p.clone()));
    let p = "sky.hdr".to_string();
    assert_eq!(dropped_file_action(&p), WindowAction::LoadEnvironment(p.clone()));
    assert_eq!(dropped_file_action(&"notes.txt".to_string()), WindowAction::Ignore);
    assert_eq!(dropped_file_action(&"scene.obj.bak".to_string()), WindowAction::Ignore);
    assert_eq!(dropped_file_action(&".hdr".to_string()), WindowAction::Ignore);
    assert_eq!(dropped_file_action(&"obj".to_string()), WindowAction::Ignore);
    let p = "dir.v2/box.glb".to_string();
    assert_eq!(dropped_file_action(&p), WindowAction::LoadModel(p.clone()));
}

#[test]
fn consumed_events_are_ignored() {
    let mut input = Input::new();
    let focus = UiFocus { consumed: true, wants_pointer: false, wants_keyboard: false };
    let press = WindowEvent::KeyboardInput { key: PhysicalKey::Code(3), state: ElementState::Pressed };
    assert_eq!(route_window_event(&press, focus, &mut input), WindowAction::Ignore);
    assert!(!input.is_key_pressed(3));
    assert_eq!(route_window_event(&WindowEvent::CloseRequested, focus, &mut input), WindowAction::Ignore);
}

#[test]
fn pointer_focus_blocks_pointer_events_only() {
    let mut input = Input::new();
    let focus = UiFocus { consumed: false, wants_pointer: true, wants_keyboard: false };
    let click = WindowEvent::MouseInput { button: MouseButton::Left, state: ElementState::Pressed };
    assert_eq!(route_window_event(&click, focus, &mut input), WindowAction::Ignore);
    assert!(!input.is_mouse_button_pressed(MouseButton::Left));
    assert_eq!(route_window_event(&WindowEvent::MouseWheel, focus, &mut input), WindowAction::Ignore);
    let press = WindowEvent::KeyboardInput { key: PhysicalKey::Code(3), state: ElementState::Pressed };
    assert_eq!(route_window_event(&press, focus, &mut input), WindowAction::InputHandled);
    assert!(input.is_key_pressed(3));
}

#[test]
fn keyboard_focus_blocks_keyboard_events_only() {
    let mut input = Input::new();
    let focus = UiFocus { consumed: false, wants_pointer: false, wants_keyboard: true };
    let press = WindowEvent::KeyboardInput { key: PhysicalKey::Code(3), state: ElementState::Pressed };
    assert_eq!(route_window_event(&press, focus, &mut input), WindowAction::Ignore);
    assert!(!input.is_key_pressed(3));
    let click = WindowEvent::MouseInput { button: MouseButton::Left, state: ElementState::Pressed };
    assert_eq!(route_window_event(&click, focus, &mut input), WindowAction::InputHandled);
    assert!(input.is_mouse_button_pressed(MouseButton::Left));
}

#[test]
fn escape_is_taken_by_the_input_state() {
    let mut input = Input::new();
    let esc = WindowEvent::KeyboardInput { key: PhysicalKey::Code(KEY_ESCAPE), state: ElementState::Pressed };
    assert_eq!(route_window_event(&esc, FREE, &mut input), WindowAction::InputHandled);
    assert!(input.is_key_pressed(KEY_ESCAPE));
}

#[test]
fn viewer_events_map_to_actions() {
    let mut input = Input::new();
    assert_eq!(route_window_event(&WindowEvent::CloseRequested, FREE, &mut input), WindowAction::Exit);
    assert_eq!(
        route_window_event(&WindowEvent::Resized { width: 800, height: 600 }, FREE, &mut input),
        WindowAction::Resize { width: 800, height: 600 }
    );
    assert_eq!(route_window_event(&WindowEvent::RedrawRequested, FREE, &mut input), WindowAction::Redraw);
    assert_eq!(
        route_window_event(&WindowEvent::ScaleFactorChanged, FREE, &mut input),
        WindowAction::ResizeToWindow
    );
    assert_eq!(route_window_event(&WindowEvent::Other, FREE, &mut input), WindowAction::Ignore);
    assert_eq!(route_window_event(&WindowEvent::MouseWheel, FREE, &mut input), WindowAction::InputHandled);
    let unknown = WindowEvent::KeyboardInput { key: PhysicalKey::Unidentified, state: ElementState::Pressed };
    assert_eq!(route_window_event(&unknown, FREE, &mut input), WindowAction::Ignore);
    let drop = WindowEvent::DroppedFile("a/b/helmet.glb".to_string());
    assert_eq!(
        route_window_event(&drop, FREE, &mut input),
        WindowAction::LoadModel("a/b/helmet.glb".to_string())
    );
    let drop = WindowEvent::DroppedFile("studio.hdr".to_string());
    assert_eq!(
        route_window_event(&drop, FREE, &mut input),
        WindowAction::LoadEnvironment("studio.hdr".to_string())
    );
}

#[test]
fn clock_starts_where_asked() {
    let start = Instant::now();
    let mut app: App<u32> = App::starting_at(start);
    assert!(app.needs_engine());
    assert_eq!(app.begin_frame(start + Duration::from_millis(5)), Duration::from_millis(5));
}

#[test]
fn window_events_need_an_engine_and_its_window() {
    let mut app: App<u32> = App::new();
    assert!(!app.accepts_window_event(true));
    app.user_event(1);
    assert!(app.accepts_window_event(true));
    assert!(!app.accepts_window_event(false));
}

#[test]
fn failed_render_exits() {
    assert_eq!(after_render(true), WindowAction::Ignore);
    assert_eq!(after_render(false), WindowAction::Exit);
}

#[test]
fn dropped_file_without_extension_is_ignored() {
    assert_eq!(dropped_file_action(&"models/README".to_string()), WindowAction::Ignore);
    assert_eq!(dropped_file_action(&"".to_string()), WindowAction::Ignore);
    assert_eq!(dropped_file_action(&"dir/".to_string()), WindowAction::Ignore);
}
