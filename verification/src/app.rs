//! The application lifecycle and the routing of window events.

use std::time::{Duration, Instant};
use vstd::prelude::*;

use crate::event::{ElementState, KeyCode, MouseButton, PhysicalKey, WindowEvent, KEY_ESCAPE};
use crate::input::{spec_after_event, spec_handles, Input};
use crate::text::text_eq;

verus! {

/// `std::time::Instant`, held opaquely: the library stores and passes on
/// instants but never looks inside one.
#[verifier::external_type_specification]
#[verifier::external_body]
pub struct ExInstant(Instant);

/// `std::time::Instant::now`. The current time; nothing is stated of it.
#[verifier::external_body]
fn instant_now() -> Instant {
    Instant::now()
}

/// Name for what `std::time::Instant::saturating_duration_since` gives: the
/// time elapsed from `earlier` to `now`, zero when `earlier` is later.
pub uninterp spec fn instant_elapsed(now: Instant, earlier: Instant) -> Duration;

/// `std::time::Instant::saturating_duration_since`. Claimed: the result is
/// `instant_elapsed` of the two instants.
#[verifier::external_body]
fn elapsed_between(now: Instant, earlier: Instant) -> (d: Duration)
    ensures
        d == instant_elapsed(now, earlier),
{
    now.saturating_duration_since(earlier)
}

/// The application: the engine state once it exists, and the time at which
/// the last frame began.
pub struct App<S> {
    state: Option<S>,
    last_render_time: Instant,
}

impl<S> App<S> {
    /// The engine state, if it has been created.
    pub closed spec fn engine_state(&self) -> Option<S> {
        self.state
    }

    /// The time at which the last frame began.
    pub closed spec fn spec_last_render_time(&self) -> Instant {
        self.last_render_time
    }

    /// An application whose engine has not been created yet, with its frame
    /// clock started at the current time.
    pub fn new() -> (app: Self)
        ensures
            app.engine_state() is None,
    {
        Self::starting_at(instant_now())
    }

    /// An application whose engine has not been created yet, with its frame
    /// clock started at `now`.
    pub fn starting_at(now: Instant) -> (app: Self)
        ensures
            app.engine_state() is None,
            app.spec_last_render_time() == now,
    {
        App { state: None, last_render_time: now }
    }

    /// Whether the engine still has to be created (on the first resume).
    pub fn needs_engine(&self) -> (needed: bool)
        ensures
            needed == self.engine_state() is None,
    {
        self.state.is_none()
    }

    /// Installs the engine created on resume and restarts the frame clock.
    pub fn resume_with(&mut self, engine: S, now: Instant)
        ensures
            final(self).engine_state() == Some(engine),
            final(self).spec_last_render_time() == now,
    {
        self.state = Some(engine);
        self.last_render_time = now;
    }

    /// Installs an engine that was handed over as a user event.
    pub fn user_event(&mut self, engine: S)
        ensures
            final(self).engine_state() == Some(engine),
            final(self).spec_last_render_time() == old(self).spec_last_render_time(),
    {
        self.state = Some(engine);
    }

    /// The engine, if it exists.
    pub fn engine(&self) -> (engine: Option<&S>)
        ensures
            engine == match self.engine_state() {
                Some(s) => Some(&s),
                None => None::<&S>,
            },
    {
        self.state.as_ref()
    }

    /// Mutable access to the engine, if it exists.
    pub fn engine_mut(&mut self) -> (engine: Option<&mut S>)
        ensures
            match old(self).engine_state() {
                None => final(self).engine_state() is None && engine is None
                    && final(self).spec_last_render_time() == old(self).spec_last_render_time(),
                Some(s) => engine is Some && *engine.unwrap() == s && final(self).engine_state() is Some
                    && *final(engine.unwrap()) == final(self).engine_state().unwrap()
                    && final(self).spec_last_render_time() == old(self).spec_last_render_time(),
            },
    {
        self.state.as_mut()
    }

    /// Whether a window event is for the viewer: the engine exists and the
    /// event comes from its window (`same_window`).
    pub fn accepts_window_event(&self, same_window: bool) -> (accepted: bool)
        ensures
            accepted == (self.engine_state() is Some && same_window),
    {
        self.state.is_some() && same_window
    }

    /// Starts a frame at `now`: returns the time since the previous frame
    /// began and makes `now` the new reference.
    pub fn begin_frame(&mut self, now: Instant) -> (dt: Duration)
        ensures
            dt == instant_elapsed(now, old(self).spec_last_render_time()),
            final(self).spec_last_render_time() == now,
            final(self).engine_state() == old(self).engine_state(),
    {
        let dt = elapsed_between(now, self.last_render_time);
        self.last_render_time = now;
        dt
    }
}

/// What the user interface made of an event before the viewer sees it.
#[derive(Clone, Copy, PartialEq, Eq, Debug, Structural)]
pub struct UiFocus {
    /// The interface consumed the event.
    pub consumed: bool,
    /// The pointer is over the interface.
    pub wants_pointer: bool,
    /// The interface has keyboard focus.
    pub wants_keyboard: bool,
}

/// What a dropped file is loaded as.
#[derive(Clone, Copy, PartialEq, Eq, Debug, Structural)]
pub enum DroppedFileKind {
    /// A `.obj`, `.gltf` or `.glb` model.
    Model,
    /// A `.hdr` environment map.
    Environment,
    /// Anything else, which is ignored.
    Unsupported,
}

/// What the platform layer does in answer to a window event.
#[derive(PartialEq, Eq, Debug)]
pub enum WindowAction {
    /// Nothing.
    Ignore,
    /// The keyboard/mouse state took the event; nothing more.
    InputHandled,
    /// Leave the event loop.
    Exit,
    /// Resize the surface to the given size.
    Resize { width: u32, height: u32 },
    /// Resize the surface to the window's current inner size.
    ResizeToWindow,
    /// Update the viewer and render a frame.
    Redraw,
    /// Load the model at this path and show one instance of it.
    LoadModel(String),
    /// Load the environment map at this path and use it as the sky.
    LoadEnvironment(String),
}

/// Name for what `std::path::Path::extension` gives for a path, as text.
pub uninterp spec fn path_extension(path: Seq<char>) -> Option<Seq<char>>;

/// `std::path::Path::extension` on `path`. Claimed: the result is
/// `path_extension` of the path.
#[verifier::external_body]
fn file_extension(path: &str) -> (ext: Option<String>)
    ensures
        match ext {
            Some(e) => path_extension(path@) == Some(e@),
            None => path_extension(path@) is None,
        },
{
    match std::path::Path::new(path).extension() {
        Some(e) => Some(e.to_string_lossy().into_owned()),
        None => None,
    }
}

/// The extension of `path`, the empty text when it has none.
pub open spec fn spec_extension_or_empty(path: Seq<char>) -> Seq<char> {
    match path_extension(path) {
        Some(e) => e,
        None => Seq::empty(),
    }
}

/// How a file with extension `ext` is loaded.
pub open spec fn spec_dropped_file_kind(ext: Seq<char>) -> DroppedFileKind {
    if ext == "obj"@ || ext == "gltf"@ || ext == "glb"@ {
        DroppedFileKind::Model
    } else if ext == "hdr"@ {
        DroppedFileKind::Environment
    } else {
        DroppedFileKind::Unsupported
    }
}

/// How a dropped file with extension `extension` is loaded (the comparison
/// is case-sensitive).
pub fn dropped_file_kind(extension: &str) -> (kind: DroppedFileKind)
    ensures
        kind == spec_dropped_file_kind(extension@),
{
    if text_eq(extension, "obj") || text_eq(extension, "gltf") || text_eq(extension, "glb") {
        DroppedFileKind::Model
    } else if text_eq(extension, "hdr") {
        DroppedFileKind::Environment
    } else {
        DroppedFileKind::Unsupported
    }
}

/// The action for a file dropped on the window.
pub open spec fn spec_dropped_file_action(path: String) -> WindowAction {
    match spec_dropped_file_kind(spec_extension_or_empty(path@)) {
        DroppedFileKind::Model => WindowAction::LoadModel(path),
        DroppedFileKind::Environment => WindowAction::LoadEnvironment(path),
        DroppedFileKind::Unsupported => WindowAction::Ignore,
    }
}

/// The action for a file dropped on the window, chosen by its extension.
pub fn dropped_file_action(path: &String) -> (action: WindowAction)
    ensures
        action == spec_dropped_file_action(*path),
{
    let ext = match file_extension(path.as_str()) {
        Some(e) => e,
        None => String::new(),
    };
    match dropped_file_kind(ext.as_str()) {
        DroppedFileKind::Model => WindowAction::LoadModel(path.clone()),
        DroppedFileKind::Environment => WindowAction::LoadEnvironment(path.clone()),
        DroppedFileKind::Unsupported => WindowAction::Ignore,
    }
}

/// What follows a redraw: leave the event loop when rendering failed.
pub fn after_render(render_ok: bool) -> (action: WindowAction)
    ensures
        action == (if render_ok { WindowAction::Ignore } else { WindowAction::Exit }),
{
    if render_ok {
        WindowAction::Ignore
    } else {
        WindowAction::Exit
    }
}

/// Whether `event` comes from the pointer (a button or the wheel).
pub open spec fn spec_is_pointer_event(event: WindowEvent) -> bool {
    event is MouseInput || event is MouseWheel
}

/// Whether the viewer sees `event` at all: the interface neither consumed
/// it nor holds the focus that the event belongs to.
pub open spec fn spec_reaches_viewer(event: WindowEvent, focus: UiFocus) -> bool {
    &&& !focus.consumed
    &&& !(focus.wants_pointer && spec_is_pointer_event(event))
    &&& !(focus.wants_keyboard && event is KeyboardInput)
}

/// The action for an event that the input state did not take.
pub open spec fn spec_unhandled_action(event: WindowEvent) -> WindowAction {
    match event {
        WindowEvent::CloseRequested => WindowAction::Exit,
        WindowEvent::KeyboardInput { key: PhysicalKey::Code(k), state: ElementState::Pressed } =>
            if k == KEY_ESCAPE { WindowAction::Exit } else { WindowAction::Ignore },
        WindowEvent::Resized { width, height } => WindowAction::Resize { width, height },
        WindowEvent::RedrawRequested => WindowAction::Redraw,
        WindowEvent::ScaleFactorChanged => WindowAction::ResizeToWindow,
        WindowEvent::DroppedFile(path) => spec_dropped_file_action(path),
        _ => WindowAction::Ignore,
    }
}

/// The action for an event on the viewer's window.
pub open spec fn spec_route(event: WindowEvent, focus: UiFocus) -> WindowAction {
    if !spec_reaches_viewer(event, focus) {
        WindowAction::Ignore
    } else if spec_handles(event) {
        WindowAction::InputHandled
    } else {
        spec_unhandled_action(event)
    }
}

/// Routes an event on the viewer's window: the interface goes first, then
/// the keyboard/mouse state, then the viewer's own handling.
pub fn route_window_event(event: &WindowEvent, focus: UiFocus, input: &mut Input) -> (action:
    WindowAction)
    ensures
        action == spec_route(*event, focus),
        spec_reaches_viewer(*event, focus) ==> final(input)@ == spec_after_event(old(input)@, *event),
        !spec_reaches_viewer(*event, focus) ==> final(input)@ == old(input)@,
{
    if focus.consumed {
        return WindowAction::Ignore;
    }
    let is_pointer = match event {
        WindowEvent::MouseInput { .. } | WindowEvent::MouseWheel => true,
        _ => false,
    };
    if focus.wants_pointer && is_pointer {
        return WindowAction::Ignore;
    }
    let is_keyboard = match event {
        WindowEvent::KeyboardInput { .. } => true,
        _ => false,
    };
    if focus.wants_keyboard && is_keyboard {
        return WindowAction::Ignore;
    }
    if input.process_event(event) {
        return WindowAction::InputHandled;
    }
    match event {
        WindowEvent::CloseRequested => WindowAction::Exit,
        WindowEvent::KeyboardInput { key: PhysicalKey::Code(k), state: ElementState::Pressed } => {
            if *k == KEY_ESCAPE {
                WindowAction::Exit
            } else {
                WindowAction::Ignore
            }
        },
        WindowEvent::Resized { width, height } => WindowAction::Resize {
            width: *width,
            height: *height,
        },
        WindowEvent::RedrawRequested => WindowAction::Redraw,
        WindowEvent::ScaleFactorChanged => WindowAction::ResizeToWindow,
        WindowEvent::DroppedFile(path) => dropped_file_action(path),
        _ => WindowAction::Ignore,
    }
}

/// What the interface's focus does to routing: a consumed event is always
/// ignored and leaves nothing to do; pointer focus drops only button and
/// wheel events, keyboard focus only keyboard events; every other event
/// that the interface did not consume reaches the viewer: closing exits,
/// a resize resizes to its size, a redraw draws, a scale change resizes to
/// the window, and a dropped file is loaded by its extension.
pub proof fn law_focus_routing(
    focus: UiFocus,
    event: WindowEvent,
    width: u32,
    height: u32,
    path: String,
    key: KeyCode,
    button: MouseButton,
    state: ElementState,
)
    ensures
        focus.consumed ==> spec_route(event, focus) == WindowAction::Ignore,
        !focus.consumed ==> spec_route(WindowEvent::CloseRequested, focus) == WindowAction::Exit,
        !focus.consumed ==> spec_route(WindowEvent::RedrawRequested, focus) == WindowAction::Redraw,
        !focus.consumed ==> spec_route(WindowEvent::Resized { width, height }, focus)
            == (WindowAction::Resize { width, height }),
        !focus.consumed ==> spec_route(WindowEvent::ScaleFactorChanged, focus)
            == WindowAction::ResizeToWindow,
        !focus.consumed ==> spec_route(WindowEvent::DroppedFile(path), focus)
            == spec_dropped_file_action(path),
        !focus.consumed ==> spec_route(WindowEvent::Other, focus) == WindowAction::Ignore,
        !focus.consumed && !focus.wants_keyboard ==> spec_route(
            WindowEvent::KeyboardInput { key: PhysicalKey::Code(key), state },
            focus,
        ) == WindowAction::InputHandled,
        focus.wants_keyboard ==> spec_route(
            WindowEvent::KeyboardInput { key: PhysicalKey::Code(key), state },
            focus,
        ) == WindowAction::Ignore,
        !focus.consumed && !focus.wants_pointer ==> spec_route(
            WindowEvent::MouseInput { button, state },
            focus,
        ) == WindowAction::InputHandled,
        !focus.consumed && !focus.wants_pointer ==> spec_route(WindowEvent::MouseWheel, focus)
            == WindowAction::InputHandled,
        focus.wants_pointer ==> spec_route(WindowEvent::MouseInput { button, state }, focus)
            == WindowAction::Ignore,
        focus.wants_pointer ==> spec_route(WindowEvent::MouseWheel, focus) == WindowAction::Ignore,
{
}

/// A dropped file whose extension is `obj`, `gltf` or `glb` loads as a model
/// under its own path; one with extension `hdr` loads as the environment map;
/// a file with any other extension, or with none, is ignored.
pub proof fn law_dropped_files(path: String)
    ensures
        path_extension(path@) == Some("obj"@) ==> spec_dropped_file_action(path)
            == WindowAction::LoadModel(path),
        path_extension(path@) == Some("gltf"@) ==> spec_dropped_file_action(path)
            == WindowAction::LoadModel(path),
        path_extension(path@) == Some("glb"@) ==> spec_dropped_file_action(path)
            == WindowAction::LoadModel(path),
        path_extension(path@) == Some("hdr"@) ==> spec_dropped_file_action(path)
            == WindowAction::LoadEnvironment(path),
        path_extension(path@) is None ==> spec_dropped_file_action(path) == WindowAction::Ignore,
        (forall|e: Seq<char>|
            path_extension(path@) == Some(e) ==> e != "obj"@ && e != "gltf"@ && e != "glb"@ && e
                != "hdr"@) ==> spec_dropped_file_action(path) == WindowAction::Ignore,
        spec_dropped_file_action(path) matches WindowAction::LoadModel(p) ==> p == path,
        spec_dropped_file_action(path) matches WindowAction::LoadEnvironment(p) ==> p == path,
{
    reveal_strlit("obj");
    reveal_strlit("gltf");
    reveal_strlit("glb");
    reveal_strlit("hdr");
    assert("hdr"@[0] == 'h' && "obj"@[0] == 'o' && "gltf"@[0] == 'g' && "glb"@[0] == 'g');
    assert("hdr"@ != "obj"@ && "hdr"@ != "gltf"@ && "hdr"@ != "glb"@);
    assert("obj"@.len() == 3 && "gltf"@.len() == 4 && "glb"@.len() == 3 && "hdr"@.len() == 3);
    assert(Seq::<char>::empty().len() == 0);
}

} // verus!
